//! Passive skills: which of them a deployment sets off, and what each kind of
//! effect does to the two sides of the match.

use vstd::prelude::*;
use crate::battle::{PlayerModel, PlayerState};
use crate::card::{ExtraStatusEffect, PassiveSkill, PassiveSkillEffect, UnitStats};
use crate::field::{all_struck, doomed_cards, exposed_indices, occupied};
use crate::player::lemma_swept_field_wf;
use crate::validator::{casting_conditions_met, conditions_met};

verus! {

/// The extra effects that the blows of the unit in the slot `caster` carry;
/// none where there is no such slot.
pub open spec fn caster_effects(me: PlayerModel, caster: i32) -> Seq<ExtraStatusEffect> {
    if 0 <= caster < me.field.len() {
        me.field[caster as int].extra_effects
    } else {
        Seq::empty()
    }
}

/// A skill that aims at one unit reaches `target`: a live unit of the
/// opponent without physical immunity stands there.
pub open spec fn in_reach(foe: PlayerModel, target: Option<i32>) -> bool {
    match target {
        Some(t) => occupied(foe.field, t) && !foe.field[t as int].immune(),
        None => false,
    }
}

/// The caster's side and the opponent's side after `effect`, cast by the unit
/// at `caster` at `target`. Damage is followed by the death judgment, and the
/// dead go to the tomb. An effect that aims at one unit and does not reach it
/// changes nothing.
pub open spec fn after_effect(
    me: PlayerModel,
    foe: PlayerModel,
    caster: i32,
    effect: PassiveSkillEffect,
    target: Option<i32>,
) -> (PlayerModel, PlayerModel) {
    match effect {
        PassiveSkillEffect::TargetDamage { damage } => if in_reach(foe, target) {
            (me, foe.hit(target.unwrap(), damage))
        } else {
            (me, foe)
        },
        PassiveSkillEffect::NonTargetingDamage { damage } => (
            me,
            foe.swept(damage, caster_effects(me, caster), true),
        ),
        PassiveSkillEffect::AttachExtraEffect { effect } => if occupied(me.field, caster) {
            (me.with_unit(caster, me.field[caster as int].empowered(effect)), foe)
        } else {
            (me, foe)
        },
        PassiveSkillEffect::CatastrophicDamage { damage } => (me, foe.swept(damage, Seq::empty(), false)),
    }
}

/// The indices on the opponent's field that `effect` touches.
pub open spec fn touched_by(
    me: PlayerModel,
    foe: PlayerModel,
    effect: PassiveSkillEffect,
    target: Option<i32>,
) -> Seq<i32> {
    match effect {
        PassiveSkillEffect::TargetDamage { .. } => if in_reach(foe, target) {
            seq![target.unwrap()]
        } else {
            Seq::empty()
        },
        PassiveSkillEffect::NonTargetingDamage { .. } => exposed_indices(foe.field, true),
        PassiveSkillEffect::AttachExtraEffect { .. } => Seq::empty(),
        PassiveSkillEffect::CatastrophicDamage { .. } => exposed_indices(foe.field, false),
    }
}

/// The cards of the opponent's units that die of `effect`, in the order of
/// their indices.
pub open spec fn killed_by(
    me: PlayerModel,
    foe: PlayerModel,
    caster: i32,
    effect: PassiveSkillEffect,
    target: Option<i32>,
) -> Seq<i32> {
    match effect {
        PassiveSkillEffect::TargetDamage { damage } => if in_reach(foe, target) {
            match foe.field[target.unwrap() as int].damaged(damage).death_report() {
                Some(card_id) => seq![card_id],
                None => Seq::empty(),
            }
        } else {
            Seq::empty()
        },
        PassiveSkillEffect::NonTargetingDamage { damage } => doomed_cards(
            all_struck(foe.field, damage, caster_effects(me, caster), true),
        ),
        PassiveSkillEffect::AttachExtraEffect { .. } => Seq::empty(),
        PassiveSkillEffect::CatastrophicDamage { damage } => doomed_cards(
            all_struck(foe.field, damage, Seq::empty(), false),
        ),
    }
}

/// Both sides after each of `effects` in turn, none of them aimed.
pub open spec fn after_effects(
    me: PlayerModel,
    foe: PlayerModel,
    caster: i32,
    effects: Seq<PassiveSkillEffect>,
) -> (PlayerModel, PlayerModel)
    decreases effects.len(),
{
    if effects.len() == 0 {
        (me, foe)
    } else {
        let before = after_effects(me, foe, caster, effects.drop_last());
        after_effect(before.0, before.1, caster, effects.last(), None)
    }
}

/// The effects that the deployment of a unit with `stats` sets off in round
/// `round`: for each of its first three skills that the unit has and whose
/// casting conditions all hold at that moment, the effect, in the order of
/// the skills.
pub open spec fn deploy_effects(stats: UnitStats, skills: Seq<PassiveSkill>, round: i32) -> Seq<PassiveSkillEffect>
    decreases skills.len(),
{
    if skills.len() == 0 {
        Seq::empty()
    } else {
        let rest = deploy_effects(stats, skills.drop_last(), round);
        if stats_have_skill(stats, skills.len() as int) && conditions_met(
            skills.last().casting_conditions@,
            round,
            round,
        ) {
            rest.push(skills.last().effect)
        } else {
            rest
        }
    }
}

/// Whether a unit with `stats` has the skill numbered `skill_index`.
pub open spec fn stats_have_skill(stats: UnitStats, skill_index: int) -> bool {
    ||| skill_index == 1 && stats.has_first_passive_skill
    ||| skill_index == 2 && stats.has_second_passive_skill
    ||| skill_index == 3 && stats.has_third_passive_skill
}

/// What an effect did on the opponent's field.
#[derive(Debug)]
pub struct SkillOutcome {
    /// The indices of the opponent's units that were touched, lowest first.
    pub touched_unit_index_list: Vec<i32>,
    /// The cards of the opponent's units that died, in the order of their
    /// indices.
    pub dead_unit_list: Vec<i32>,
}

/// An effect keeps both sides well formed.
pub proof fn lemma_effect_keeps_wf(
    me: PlayerModel,
    foe: PlayerModel,
    caster: i32,
    effect: PassiveSkillEffect,
    target: Option<i32>,
)
    requires
        me.wf(),
        foe.wf(),
    ensures
        after_effect(me, foe, caster, effect, target).0.wf(),
        after_effect(me, foe, caster, effect, target).1.wf(),
        after_effect(me, foe, caster, effect, target).0.account == me.account,
        after_effect(me, foe, caster, effect, target).1.account == foe.account,
{
    match effect {
        PassiveSkillEffect::NonTargetingDamage { damage } => {
            lemma_swept_field_wf(foe.field, foe.account, damage, caster_effects(me, caster), true);
        },
        PassiveSkillEffect::CatastrophicDamage { damage } => {
            lemma_swept_field_wf(foe.field, foe.account, damage, Seq::empty(), false);
        },
        _ => {},
    }
}

/// A run of effects keeps both sides well formed.
pub proof fn lemma_effects_keep_wf(
    me: PlayerModel,
    foe: PlayerModel,
    caster: i32,
    effects: Seq<PassiveSkillEffect>,
)
    requires
        me.wf(),
        foe.wf(),
    ensures
        after_effects(me, foe, caster, effects).0.wf(),
        after_effects(me, foe, caster, effects).1.wf(),
        after_effects(me, foe, caster, effects).0.account == me.account,
        after_effects(me, foe, caster, effects).1.account == foe.account,
    decreases effects.len(),
{
    if effects.len() > 0 {
        lemma_effects_keep_wf(me, foe, caster, effects.drop_last());
        let before = after_effects(me, foe, caster, effects.drop_last());
        lemma_effect_keeps_wf(before.0, before.1, caster, effects.last(), None);
    }
}

/// The effects that the deployment of a unit with `stats` sets off in round
/// `round`, given the passive skills of its card.
pub fn summary_deploy_passive_skill_effect(stats: &UnitStats, skills: &[PassiveSkill], round: i32) -> (r: Vec<
    PassiveSkillEffect,
>)
    ensures
        r@ == deploy_effects(*stats, skills@, round),
{
    let mut effects: Vec<PassiveSkillEffect> = Vec::new();
    let mut i: usize = 0;
    while i < skills.len()
        invariant
            i <= skills@.len(),
            effects@ == deploy_effects(*stats, skills@.take(i as int), round),
        decreases skills@.len() - i,
    {
        assert(skills@.take(i + 1).drop_last() =~= skills@.take(i as int));
        let owns_skill = (i == 0 && stats.has_first_passive_skill) || (i == 1
            && stats.has_second_passive_skill) || (i == 2 && stats.has_third_passive_skill);
        if owns_skill && casting_conditions_met(&skills[i].casting_conditions, round, round) {
            effects.push(skills[i].effect);
        }
        i += 1;
    }
    assert(skills@.take(i as int) =~= skills@);
    effects
}

/// Applies `effect`, cast by the unit of `me` at `caster_index`, at `target`
/// on the field of `foe`.
pub fn apply_passive_skill_effect(
    me: &mut PlayerState,
    foe: &mut PlayerState,
    caster_index: i32,
    effect: PassiveSkillEffect,
    target: Option<i32>,
) -> (r: SkillOutcome)
    requires
        old(me).wf(),
        old(foe).wf(),
    ensures
        (final(me)@, final(foe)@) == after_effect(old(me)@, old(foe)@, caster_index, effect, target),
        r.touched_unit_index_list@ == touched_by(old(me)@, old(foe)@, effect, target),
        r.dead_unit_list@ == killed_by(old(me)@, old(foe)@, caster_index, effect, target),
        final(me).wf(),
        final(foe).wf(),
        final(me)@.account == old(me)@.account,
        final(foe)@.account == old(foe)@.account,
{
    proof {
        lemma_effect_keeps_wf(old(me)@, old(foe)@, caster_index, effect, target);
    }
    match effect {
        PassiveSkillEffect::TargetDamage { damage } => {
            let mut touched: Vec<i32> = Vec::new();
            let mut dead: Vec<i32> = Vec::new();
            match target {
                Some(t) => {
                    if foe.field.is_occupied(t) && !foe.field.units[t as usize].has_physical_immunity() {
                        touched.push(t);
                        match foe.hit_unit(t, damage) {
                            Some(card_id) => {
                                dead.push(card_id);
                            },
                            None => {},
                        }
                    }
                },
                None => {},
            }
            assert(touched@ =~= touched_by(old(me)@, old(foe)@, effect, target));
            assert(dead@ =~= killed_by(old(me)@, old(foe)@, caster_index, effect, target));
            SkillOutcome { touched_unit_index_list: touched, dead_unit_list: dead }
        },
        PassiveSkillEffect::NonTargetingDamage { damage } => {
            let effects = me.field.acquire_unit_extra_effect(caster_index);
            let touched = foe.field.exposed_unit_indices(true);
            let dead = foe.sweep(damage, &effects, true);
            SkillOutcome { touched_unit_index_list: touched, dead_unit_list: dead }
        },
        PassiveSkillEffect::AttachExtraEffect { effect } => {
            me.field.attach_extra_effect_to_unit(caster_index, effect);
            SkillOutcome { touched_unit_index_list: Vec::new(), dead_unit_list: Vec::new() }
        },
        PassiveSkillEffect::CatastrophicDamage { damage } => {
            let none: Vec<ExtraStatusEffect> = Vec::new();
            let touched = foe.field.exposed_unit_indices(false);
            let dead = foe.sweep(damage, &none, false);
            SkillOutcome { touched_unit_index_list: touched, dead_unit_list: dead }
        },
    }
}

/// Applies each of `effects` in turn, none of them aimed, cast by the unit of
/// `me` at `caster_index`.
pub fn apply_passive_skill_list(
    me: &mut PlayerState,
    foe: &mut PlayerState,
    caster_index: i32,
    effects: &Vec<PassiveSkillEffect>,
)
    requires
        old(me).wf(),
        old(foe).wf(),
    ensures
        (final(me)@, final(foe)@) == after_effects(old(me)@, old(foe)@, caster_index, effects@),
        final(me).wf(),
        final(foe).wf(),
        final(me)@.account == old(me)@.account,
        final(foe)@.account == old(foe)@.account,
{
    let mut i: usize = 0;
    while i < effects.len()
        invariant
            i <= effects@.len(),
            me.wf(),
            foe.wf(),
            me@.account == old(me)@.account,
            foe@.account == old(foe)@.account,
            (me@, foe@) == after_effects(old(me)@, old(foe)@, caster_index, effects@.take(i as int)),
        decreases effects@.len() - i,
    {
        assert(effects@.take(i + 1).drop_last() =~= effects@.take(i as int));
        apply_passive_skill_effect(me, foe, caster_index, effects[i], None);
        i += 1;
    }
    assert(effects@.take(i as int) =~= effects@);
}

} // verus!
