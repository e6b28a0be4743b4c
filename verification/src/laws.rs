//! What holds of the rules as a whole, stated over the models that the
//! contracts of the actions use, and proved.

use vstd::prelude::*;
use crate::battle::{ActionError, BattleModel, PlayerModel, MYTHICAL_UNIT_ROUND};
use crate::card::{CardCatalog, CardKind, GradeEnum, PassiveSkillEffect};
use crate::combat::lemma_placed_field_wf;
use crate::field::{first_free, first_free_from, fresh_unit, occupied, placed};
use crate::notify::{lemma_single_target_diff, touched_dead, touched_harmful, touched_health};
use crate::player::lemma_ticked_field_wf;
use crate::skill::{
    after_effect, deploy_effects, in_reach, lemma_effect_keeps_wf, lemma_effects_keep_wf, touched_by,
};
use crate::stores::{buried, energy_after_grant, without_first};
use crate::turn_end_request_form::TURN_ENERGY_GRANT;
use crate::unit::UnitModel;

verus! {

/// The first free slot of a field lies within the field or right behind it.
pub proof fn lemma_first_free_in_range(field: Seq<UnitModel>, from: int)
    requires
        0 <= from <= field.len(),
    ensures
        from <= first_free_from(field, from) <= field.len(),
    decreases field.len() - from,
{
    if from < field.len() && field[from].alive {
        lemma_first_free_in_range(field, from + 1);
    }
}

/// After a basic attack that was not refused, the alive flag of every unit on
/// either field says what its health says, and the match is well formed.
pub proof fn lemma_attack_keeps_units_consistent(
    battle: BattleModel,
    account: i32,
    attacker_index: i32,
    target_index: i32,
)
    requires
        battle.wf(),
        battle.attack_rejection(account, attacker_index, target_index).is_none(),
    ensures
        battle.after_attack(account, attacker_index, target_index).wf(),
        battle.after_attack(account, attacker_index, target_index).every_unit_consistent(),
{
}

/// After a passive skill that was not refused, the alive flag of every unit
/// on either field says what its health says, and the match is well formed.
pub proof fn lemma_skill_keeps_units_consistent(
    battle: BattleModel,
    catalog: CardCatalog,
    account: i32,
    unit_index: i32,
    skill_index: i32,
    target: Option<i32>,
)
    requires
        battle.wf(),
        battle.skill_rejection(catalog, account, unit_index, skill_index, target).is_none(),
    ensures
        battle.after_skill(catalog, account, unit_index, skill_index, target).wf(),
        battle.after_skill(catalog, account, unit_index, skill_index, target).every_unit_consistent(),
{
    lemma_effect_keeps_wf(
        battle.me(account),
        battle.foe(account),
        unit_index,
        battle.skill_effect(catalog, account, unit_index, skill_index),
        target,
    );
}

/// After the end of a turn that was not refused, the alive flag of every
/// unit on either field says what its health says, and the match is well
/// formed.
pub proof fn lemma_turn_end_keeps_units_consistent(battle: BattleModel, account: i32)
    requires
        battle.wf(),
        battle.turn_end_rejection(account).is_none(),
    ensures
        battle.after_turn_end(account).wf(),
        battle.after_turn_end(account).every_unit_consistent(),
{
    lemma_ticked_field_wf(battle.me(account).field, battle.me(account).account);
}

/// After a deployment that was not refused, the alive flag of every unit on
/// either field says what its health says, and the match is well formed.
pub proof fn lemma_deploy_keeps_units_consistent(
    battle: BattleModel,
    catalog: CardCatalog,
    account: i32,
    card_id: i32,
)
    requires
        battle.wf(),
        battle.deploy_rejection(catalog, account, card_id).is_none(),
    ensures
        battle.after_deploy(catalog, account, card_id).wf(),
        battle.after_deploy(catalog, account, card_id).every_unit_consistent(),
{
    let me = battle.me(account);
    let stats = catalog.stats_of(card_id).unwrap();
    let index = first_free(me.field);
    lemma_first_free_in_range(me.field, 0);
    lemma_placed_field_wf(me, card_id, stats, battle.turn.round);
    let entered = PlayerModel {
        hand: without_first(me.hand, card_id),
        field: placed(me.field, index, fresh_unit(card_id, account, index as i32, stats, battle.turn.round)),
        ..me
    };
    lemma_effects_keep_wf(
        entered,
        battle.foe(account),
        index as i32,
        deploy_effects(stats, catalog.skills_of(card_id), battle.turn.round),
    );
}

/// Death is judged once. When a unit has been judged and the dead buried, a
/// second judgment reports no death and changes neither the field nor the
/// tomb; and the first put the unit's card in the tomb exactly once if the
/// unit died, and not at all if it did not.
pub proof fn lemma_death_is_judged_once(player: PlayerModel, index: i32, unit: UnitModel)
    requires
        0 <= index < player.field.len(),
    ensures
        ({
            let once = player.with_judged_unit(index, unit);
            let again = once.with_judged_unit(index, once.field[index as int]);
            &&& once.field[index as int].death_report() == None::<i32>
            &&& again == once
            &&& once.tomb.count(unit.card_id) == player.tomb.count(unit.card_id) + if unit.doomed() {
                1int
            } else {
                0int
            }
        }),
{
    let once = player.with_judged_unit(index, unit);
    let again = once.with_judged_unit(index, once.field[index as int]);
    assert(again.field =~= once.field);
}

/// A unit with physical immunity is never the target of a basic attack that
/// succeeds: whoever attacks it, with whatever unit, is refused.
pub proof fn lemma_immune_target_is_never_attacked(
    battle: BattleModel,
    account: i32,
    attacker_index: i32,
    target_index: i32,
)
    requires
        occupied(battle.foe(account).field, target_index),
        battle.foe(account).field[target_index as int].immune(),
    ensures
        battle.attack_rejection(account, attacker_index, target_index).is_some(),
{
}

/// An attacker with physical immunity keeps the blow from coming back, and
/// nothing else: the attacked unit takes the attacker's blow and is judged,
/// and is buried if it died, as after any attack; the attacker has acted and
/// is otherwise as it was.
pub proof fn lemma_immune_attacker_is_not_struck_back(
    battle: BattleModel,
    account: i32,
    attacker_index: i32,
    target_index: i32,
)
    requires
        battle.attack_rejection(account, attacker_index, target_index).is_none(),
        battle.me(account).field[attacker_index as int].immune(),
    ensures
        ({
            let me = battle.me(account);
            let foe = battle.foe(account);
            let attacker = me.field[attacker_index as int];
            let target = foe.field[target_index as int];
            let blow = target.struck(attacker.attack_point, attacker.extra_effects);
            let after = battle.after_attack(account, attacker_index, target_index);
            &&& after.me(account).field[attacker_index as int] == attacker.acted()
            &&& after.me(account).tomb == me.tomb
            &&& after.foe(account).field[target_index as int] == blow.judged()
            &&& after.foe(account).tomb == buried(foe.tomb, blow.death_report())
        }),
{
}

/// The end of a turn hands the turn to the opponent, who is granted one
/// energy (unless its count is at the largest number already) and draws one
/// card (unless its deck is empty); the statuses on the units of the player
/// who ended the turn have dealt their damage before; and the round goes up
/// by one exactly when this was the second turn to end in it.
pub proof fn lemma_turn_end_hands_over(battle: BattleModel, account: i32)
    requires
        battle.wf(),
        battle.turn_end_rejection(account).is_none(),
    ensures
        ({
            let me = battle.me(account);
            let foe = battle.foe(account);
            let after = battle.after_turn_end(account);
            &&& after.turn.owner == foe.account
            &&& after.turn.owner != account
            &&& after.me(account) == me.ticked()
            &&& after.foe(account).energy == energy_after_grant(foe.energy, TURN_ENERGY_GRANT)
            &&& foe.energy < i32::MAX ==> after.foe(account).energy == foe.energy + 1
            &&& foe.deck.len() > 0 ==> {
                &&& after.foe(account).hand == foe.hand.push(foe.deck[0])
                &&& after.foe(account).hand.len() == foe.hand.len() + 1
                &&& after.foe(account).deck == foe.deck.skip(1)
            }
            &&& foe.deck.len() == 0 ==> after.foe(account).hand == foe.hand
            &&& after.turn.round >= battle.turn.round
            &&& after.turn.round == if battle.turn.half_round_done && battle.turn.round < i32::MAX {
                battle.turn.round + 1
            } else {
                battle.turn.round as int
            }
        }),
{
    let foe = battle.foe(account);
    if foe.deck.len() > 0 {
        assert(foe.deck.take(1) =~= seq![foe.deck[0]]);
        assert(foe.hand + foe.deck.take(1) =~= foe.hand.push(foe.deck[0]));
    } else {
        assert(foe.deck.take(0) =~= Seq::<i32>::empty());
        assert(foe.hand + foe.deck.take(0) =~= foe.hand);
    }
}

/// Two turns that end one after the other, each by its owner, bring the turn
/// back to the first owner and count the round on by one.
pub proof fn lemma_round_counts_both_turns(battle: BattleModel)
    requires
        battle.wf(),
        !battle.turn.half_round_done,
        battle.turn.round < i32::MAX,
    ensures
        ({
            let first = battle.turn.owner;
            let half = battle.after_turn_end(first);
            let full = half.after_turn_end(half.turn.owner);
            &&& half.turn.round == battle.turn.round
            &&& half.turn_end_rejection(half.turn.owner).is_none()
            &&& full.turn.owner == first
            &&& full.turn.round == battle.turn.round + 1
        }),
{
    lemma_turn_end_keeps_units_consistent(battle, battle.turn.owner);
}

/// A mythical unit is refused before round 5 and deployed from round 5 on:
/// of a request that nothing else stands against, the round alone decides.
pub proof fn lemma_mythical_unit_waits_for_its_round(
    battle: BattleModel,
    catalog: CardCatalog,
    account: i32,
    card_id: i32,
)
    requires
        battle.has(account),
        battle.me(account).hand.contains(card_id),
        catalog.kind_of(card_id) == CardKind::Unit,
        catalog.stats_of(card_id).is_some(),
        catalog.stats_of(card_id).unwrap().health_point > 0,
        catalog.stats_of(card_id).unwrap().grade == GradeEnum::Mythical,
        first_free(battle.me(account).field) < i32::MAX,
    ensures
        battle.turn.round < MYTHICAL_UNIT_ROUND ==> battle.deploy_rejection(catalog, account, card_id) == Some(
            ActionError::RuleViolation,
        ),
        battle.turn.round >= MYTHICAL_UNIT_ROUND ==> battle.deploy_rejection(catalog, account, card_id).is_none(),
        MYTHICAL_UNIT_ROUND == 5,
{
}

/// Damage aimed at one unit that kills it is told with one health entry and
/// one death entry, whatever else stands on the field: the diff for what
/// the skill touched holds the target and nothing more.
pub proof fn lemma_single_target_kill_is_told_alone(
    me: PlayerModel,
    foe: PlayerModel,
    caster: i32,
    damage: i32,
    target: i32,
)
    requires
        in_reach(foe, Some(target)),
        foe.field[target as int].damaged(damage).doomed(),
    ensures
        ({
            let effect = PassiveSkillEffect::TargetDamage { damage };
            let touched = touched_by(me, foe, effect, Some(target));
            let after = after_effect(me, foe, caster, effect, Some(target)).1;
            &&& touched == seq![target]
            &&& touched_health(after.field, touched).len() == 1
            &&& touched_health(after.field, touched).contains_key(target)
            &&& touched_harmful(after.field, touched).len() == 1
            &&& touched_dead(after.field, touched) == seq![target]
            &&& touched_dead(after.field, touched).len() == 1
        }),
{
    let effect = PassiveSkillEffect::TargetDamage { damage };
    let after = after_effect(me, foe, caster, effect, Some(target)).1;
    lemma_single_target_diff(after.field, target);
}

/// A unit that lived and had used its action before still has it used after.
pub open spec fn keeps_used_actions(before: Seq<UnitModel>, after: Seq<UnitModel>) -> bool {
    forall|i: int|
        0 <= i < before.len() && (#[trigger] before[i]).alive && before[i].turn_action_used ==> i
            < after.len() && after[i].turn_action_used
}

/// Only the end of a turn moves the turn: an attack, a deployment, a passive
/// skill and a change of cards leave the owner of the turn and the round as
/// they were.
pub proof fn lemma_only_turn_end_moves_the_turn(
    battle: BattleModel,
    catalog: CardCatalog,
    account: i32,
    unit_index: i32,
    target_index: i32,
    card_id: i32,
    skill_index: i32,
    target: Option<i32>,
    cards: Seq<i32>,
)
    ensures
        battle.after_attack(account, unit_index, target_index).turn == battle.turn,
        battle.after_main_character_attack(account, unit_index).turn == battle.turn,
        battle.after_deploy(catalog, account, card_id).turn == battle.turn,
        battle.after_skill(catalog, account, unit_index, skill_index, target).turn == battle.turn,
        battle.after_mulligan(account, cards).turn == battle.turn,
{
}

/// An action of the turn that was used stays used through an attack.
pub proof fn lemma_attack_gives_no_action_back(
    battle: BattleModel,
    account: i32,
    attacker_index: i32,
    target_index: i32,
)
    requires
        battle.attack_rejection(account, attacker_index, target_index).is_none(),
    ensures
        keeps_used_actions(
            battle.me(account).field,
            battle.after_attack(account, attacker_index, target_index).me(account).field,
        ),
        keeps_used_actions(
            battle.foe(account).field,
            battle.after_attack(account, attacker_index, target_index).foe(account).field,
        ),
        battle.after_attack(account, attacker_index, target_index).me(
            account,
        ).field[attacker_index as int].turn_action_used,
{
}

/// A unit attacks once a turn: after its attack, a further attack with it
/// is refused, whatever it aims at.
pub proof fn lemma_unit_attacks_once_a_turn(
    battle: BattleModel,
    account: i32,
    attacker_index: i32,
    target_index: i32,
    next_target_index: i32,
)
    requires
        battle.wf(),
        battle.attack_rejection(account, attacker_index, target_index).is_none(),
    ensures
        battle.after_attack(account, attacker_index, target_index).attack_rejection(
            account,
            attacker_index,
            next_target_index,
        ).is_some(),
        battle.after_attack(account, attacker_index, target_index).main_character_attack_rejection(
            account,
            attacker_index,
        ).is_some(),
{
}

/// A basic attack on the main character uses the attacker's action of the
/// turn, gives no action back, and touches no unit of the opponent.
pub proof fn lemma_main_character_attack_uses_the_action(battle: BattleModel, account: i32, attacker_index: i32)
    requires
        battle.wf(),
        battle.main_character_attack_rejection(account, attacker_index).is_none(),
    ensures
        keeps_used_actions(
            battle.me(account).field,
            battle.after_main_character_attack(account, attacker_index).me(account).field,
        ),
        battle.after_main_character_attack(account, attacker_index).me(
            account,
        ).field[attacker_index as int].turn_action_used,
        battle.after_main_character_attack(account, attacker_index).foe(account).field == battle.foe(
            account,
        ).field,
        battle.after_main_character_attack(account, attacker_index).wf(),
        battle.after_main_character_attack(account, attacker_index).main_character_attack_rejection(
            account,
            attacker_index,
        ) == Some(ActionError::RuleViolation),
{
}

/// An action of the turn that was used stays used through a passive skill,
/// and the unit that cast the skill has used its own.
pub proof fn lemma_skill_gives_no_action_back(
    battle: BattleModel,
    catalog: CardCatalog,
    account: i32,
    unit_index: i32,
    skill_index: i32,
    target: Option<i32>,
)
    requires
        battle.skill_rejection(catalog, account, unit_index, skill_index, target).is_none(),
    ensures
        keeps_used_actions(
            battle.me(account).field,
            battle.after_skill(catalog, account, unit_index, skill_index, target).me(account).field,
        ),
        keeps_used_actions(
            battle.foe(account).field,
            battle.after_skill(catalog, account, unit_index, skill_index, target).foe(account).field,
        ),
        battle.after_skill(catalog, account, unit_index, skill_index, target).me(
            account,
        ).field[unit_index as int].turn_action_used,
{
}

/// The end of a turn gives the units of the new owner of the turn their
/// action back, and gives none back to the units of the player who ended
/// it.
pub proof fn lemma_turn_end_gives_actions_to_new_owner_only(battle: BattleModel, account: i32)
    requires
        battle.turn_end_rejection(account).is_none(),
    ensures
        keeps_used_actions(battle.me(account).field, battle.after_turn_end(account).me(account).field),
        forall|i: int|
            0 <= i < battle.after_turn_end(account).foe(account).field.len()
                ==> !(#[trigger] battle.after_turn_end(account).foe(account).field[i]).turn_action_used,
{
}

/// A basic attack spends no energy of either player.
pub proof fn lemma_attack_spends_no_energy(
    battle: BattleModel,
    account: i32,
    attacker_index: i32,
    target_index: i32,
)
    ensures
        battle.after_attack(account, attacker_index, target_index).me(account).energy == battle.me(
            account,
        ).energy,
        battle.after_attack(account, attacker_index, target_index).foe(account).energy == battle.foe(
            account,
        ).energy,
{
}

} // verus!
