//! A unit on the battlefield: its combat statistics, its statuses and the
//! operations that change them.

use vstd::prelude::*;
use crate::card::{ExtraEffect, ExtraStatusEffect, GradeEnum, PassiveStatus, RaceEnum, RequiredEnergy};

verus! {

/// Energy of one race attached to a unit.
#[derive(Clone, Copy, Debug, PartialEq, Eq, Structural)]
pub struct AttachedEnergy {
    pub race: RaceEnum,
    pub quantity: i32,
}

/// A card instance deployed on a player's field.
///
/// A unit whose `alive` flag is down has left the battle: its slot is free and
/// its card lies in the tomb.
#[derive(Debug)]
pub struct FieldUnit {
    pub card_id: i32,
    pub owner: i32,
    pub index: i32,
    pub race: RaceEnum,
    pub grade: GradeEnum,
    pub attack_point: i32,
    pub health_point: i32,
    pub max_health_point: i32,
    pub required_energy: RequiredEnergy,
    pub has_first_passive_skill: bool,
    pub has_second_passive_skill: bool,
    pub has_third_passive_skill: bool,
    pub passive_status_list: Vec<PassiveStatus>,
    pub extra_status_effect_list: Vec<ExtraStatusEffect>,
    pub harmful_status_list: Vec<ExtraStatusEffect>,
    pub attached_energy_list: Vec<AttachedEnergy>,
    pub deployed_round: i32,
    pub turn_action_used: bool,
    pub alive: bool,
}

/// The mathematical value of a [`FieldUnit`].
pub struct UnitModel {
    pub card_id: i32,
    pub owner: i32,
    pub index: i32,
    pub race: RaceEnum,
    pub grade: GradeEnum,
    pub attack_point: i32,
    pub health_point: i32,
    pub max_health_point: i32,
    pub required_energy: RequiredEnergy,
    pub has_first_passive_skill: bool,
    pub has_second_passive_skill: bool,
    pub has_third_passive_skill: bool,
    pub passive_statuses: Seq<PassiveStatus>,
    pub extra_effects: Seq<ExtraStatusEffect>,
    pub harmful_statuses: Seq<ExtraStatusEffect>,
    pub attached_energy: Seq<AttachedEnergy>,
    pub deployed_round: i32,
    pub turn_action_used: bool,
    pub alive: bool,
}

impl View for FieldUnit {
    type V = UnitModel;

    open spec fn view(&self) -> UnitModel {
        UnitModel {
            card_id: self.card_id,
            owner: self.owner,
            index: self.index,
            race: self.race,
            grade: self.grade,
            attack_point: self.attack_point,
            health_point: self.health_point,
            max_health_point: self.max_health_point,
            required_energy: self.required_energy,
            has_first_passive_skill: self.has_first_passive_skill,
            has_second_passive_skill: self.has_second_passive_skill,
            has_third_passive_skill: self.has_third_passive_skill,
            passive_statuses: self.passive_status_list@,
            extra_effects: self.extra_status_effect_list@,
            harmful_statuses: self.harmful_status_list@,
            attached_energy: self.attached_energy_list@,
            deployed_round: self.deployed_round,
            turn_action_used: self.turn_action_used,
            alive: self.alive,
        }
    }
}

/// Health left after `damage`: never below zero, and untouched by a damage
/// that is not positive.
pub open spec fn health_after(health: i32, damage: i32) -> i32 {
    if damage <= 0 {
        health
    } else if damage >= health {
        0
    } else {
        (health - damage) as i32
    }
}

/// Health left after each status in turn has dealt its damage.
pub open spec fn health_after_statuses(health: i32, statuses: Seq<ExtraStatusEffect>) -> i32
    decreases statuses.len(),
{
    if statuses.len() == 0 {
        health
    } else {
        health_after(
            health_after_statuses(health, statuses.drop_last()),
            statuses.last().effect_damage,
        )
    }
}

/// A status one turn older.
pub open spec fn aged(status: ExtraStatusEffect) -> ExtraStatusEffect {
    ExtraStatusEffect {
        status_duration_turn: (status.status_duration_turn - 1) as i32,
        ..status
    }
}

/// The statuses that outlast the turn, each one turn older, in their order.
pub open spec fn worn(statuses: Seq<ExtraStatusEffect>) -> Seq<ExtraStatusEffect>
    decreases statuses.len(),
{
    if statuses.len() == 0 {
        Seq::empty()
    } else if statuses.last().status_duration_turn > 1 {
        worn(statuses.drop_last()).push(aged(statuses.last()))
    } else {
        worn(statuses.drop_last())
    }
}

/// The kinds of a list of statuses, in their order.
pub open spec fn kinds_of(statuses: Seq<ExtraStatusEffect>) -> Seq<ExtraEffect> {
    statuses.map_values(|s: ExtraStatusEffect| s.extra_effect)
}

impl UnitModel {
    /// The alive flag says what the health says.
    pub open spec fn consistent(self) -> bool {
        self.alive == (self.health_point > 0)
    }

    pub open spec fn immune(self) -> bool {
        self.passive_statuses.contains(PassiveStatus::PhysicalImmunity)
    }

    /// The unit after losing health to `damage`.
    pub open spec fn damaged(self, damage: i32) -> UnitModel {
        UnitModel { health_point: health_after(self.health_point, damage), ..self }
    }

    /// The unit with `effects` added to the statuses that harm it.
    pub open spec fn afflicted(self, effects: Seq<ExtraStatusEffect>) -> UnitModel {
        UnitModel { harmful_statuses: self.harmful_statuses + effects, ..self }
    }

    /// The unit after a blow of `damage` that carries `effects`.
    pub open spec fn struck(self, damage: i32, effects: Seq<ExtraStatusEffect>) -> UnitModel {
        self.damaged(damage).afflicted(effects)
    }

    /// The unit with `effect` added to those its own blows carry.
    pub open spec fn empowered(self, effect: ExtraStatusEffect) -> UnitModel {
        UnitModel { extra_effects: self.extra_effects.push(effect), ..self }
    }

    /// The unit is still flagged alive although no health is left.
    pub open spec fn doomed(self) -> bool {
        self.alive && self.health_point <= 0
    }

    /// The unit after death judgment.
    pub open spec fn judged(self) -> UnitModel {
        if self.doomed() {
            UnitModel { alive: false, ..self }
        } else {
            self
        }
    }

    /// What death judgment reports: the card of a unit that dies now.
    pub open spec fn death_report(self) -> Option<i32> {
        if self.doomed() {
            Some(self.card_id)
        } else {
            None
        }
    }

    /// The unit after it was struck dead outright.
    pub open spec fn slain(self) -> UnitModel {
        UnitModel { health_point: 0, ..self }
    }

    pub open spec fn acted(self) -> UnitModel {
        UnitModel { turn_action_used: true, ..self }
    }

    pub open spec fn refreshed(self) -> UnitModel {
        UnitModel { turn_action_used: false, ..self }
    }

    /// The unit after its statuses have dealt their damage at the end of its
    /// owner's turn and have aged by one turn.
    pub open spec fn ticked(self) -> UnitModel {
        UnitModel {
            health_point: health_after_statuses(self.health_point, self.harmful_statuses),
            harmful_statuses: worn(self.harmful_statuses),
            ..self
        }
    }
}

/// Computes [`health_after`].
pub fn remaining_health(health: i32, damage: i32) -> (r: i32)
    ensures
        r == health_after(health, damage),
{
    if damage <= 0 {
        health
    } else if damage >= health {
        0
    } else {
        health - damage
    }
}

impl FieldUnit {
    pub fn is_alive(&self) -> (r: bool)
        ensures
            r == self@.alive,
    {
        self.alive
    }

    /// Whether basic attacks cannot hit the unit.
    pub fn has_physical_immunity(&self) -> (r: bool)
        ensures
            r == self@.immune(),
    {
        let mut i: usize = 0;
        while i < self.passive_status_list.len()
            invariant
                i <= self.passive_status_list@.len(),
                forall|j: int| 0 <= j < i ==> self.passive_status_list@[j] != PassiveStatus::PhysicalImmunity,
            decreases self.passive_status_list@.len() - i,
        {
            if self.passive_status_list[i] == PassiveStatus::PhysicalImmunity {
                return true;
            }
            i += 1;
        }
        false
    }

    /// Takes `damage` from the unit's health. Death is judged separately.
    pub(crate) fn apply_damage(&mut self, damage: i32)
        ensures
            final(self)@ == old(self)@.damaged(damage),
    {
        self.health_point = remaining_health(self.health_point, damage);
    }

    /// Adds `effects` to the statuses that harm the unit.
    pub fn impose_harmful_status(&mut self, effects: &Vec<ExtraStatusEffect>)
        ensures
            final(self)@ == old(self)@.afflicted(effects@),
    {
        let mut i: usize = 0;
        while i < effects.len()
            invariant
                i <= effects@.len(),
                self@ == old(self)@.afflicted(effects@.take(i as int)),
            decreases effects@.len() - i,
        {
            self.harmful_status_list.push(effects[i]);
            assert(old(self)@.harmful_statuses + effects@.take(i + 1)
                =~= (old(self)@.harmful_statuses + effects@.take(i as int)).push(effects@[i as int]));
            i += 1;
        }
        assert(effects@.take(i as int) =~= effects@);
    }

    /// Deals a blow of `damage` that carries `effects`.
    pub(crate) fn take_attack(&mut self, damage: i32, effects: &Vec<ExtraStatusEffect>)
        ensures
            final(self)@ == old(self)@.struck(damage, effects@),
    {
        self.apply_damage(damage);
        self.impose_harmful_status(effects);
    }

    /// Adds `effect` to those the unit's own blows carry.
    pub fn attach_extra_effect(&mut self, effect: ExtraStatusEffect)
        ensures
            final(self)@ == old(self)@.empowered(effect),
    {
        self.extra_status_effect_list.push(effect);
    }

    /// Strikes the unit dead: no health is left. Death is judged separately.
    pub(crate) fn strike_dead(&mut self)
        ensures
            final(self)@ == old(self)@.slain(),
    {
        self.health_point = 0;
    }

    /// Judges whether the unit dies now. A unit that was alive and has no
    /// health left dies and its card id is returned; any other unit, one that
    /// is already dead too, is left as it is and `None` is returned.
    pub fn judge_death(&mut self) -> (r: Option<i32>)
        ensures
            final(self)@ == old(self)@.judged(),
            r == old(self)@.death_report(),
    {
        if self.alive && self.health_point <= 0 {
            self.alive = false;
            Some(self.card_id)
        } else {
            None
        }
    }

    /// Records that the unit has used its action of this turn.
    pub fn execute_turn_action(&mut self)
        ensures
            final(self)@ == old(self)@.acted(),
    {
        self.turn_action_used = true;
    }

    /// Gives the unit its action back.
    pub fn reset_turn_action(&mut self)
        ensures
            final(self)@ == old(self)@.refreshed(),
    {
        self.turn_action_used = false;
    }

    /// Lets every harmful status deal its damage, then ages the statuses by
    /// one turn and drops those that have run out.
    pub(crate) fn apply_status_effect_damage(&mut self)
        ensures
            final(self)@ == old(self)@.ticked(),
    {
        let mut kept: Vec<ExtraStatusEffect> = Vec::new();
        let mut health: i32 = self.health_point;
        let mut i: usize = 0;
        while i < self.harmful_status_list.len()
            invariant
                i <= self.harmful_status_list@.len(),
                self@ == old(self)@,
                health == health_after_statuses(
                    self.health_point,
                    self.harmful_status_list@.take(i as int),
                ),
                kept@ == worn(self.harmful_status_list@.take(i as int)),
            decreases self.harmful_status_list@.len() - i,
        {
            let status = self.harmful_status_list[i];
            assert(self.harmful_status_list@.take(i + 1).drop_last()
                =~= self.harmful_status_list@.take(i as int));
            health = remaining_health(health, status.effect_damage);
            if status.status_duration_turn > 1 {
                kept.push(
                    ExtraStatusEffect {
                        extra_effect: status.extra_effect,
                        status_duration_turn: status.status_duration_turn - 1,
                        effect_damage: status.effect_damage,
                        reuse_turn: status.reuse_turn,
                    },
                );
            }
            i += 1;
        }
        assert(self.harmful_status_list@.take(i as int) =~= self.harmful_status_list@);
        self.health_point = health;
        self.harmful_status_list = kept;
    }

    /// The kinds of the statuses that harm the unit, in their order.
    pub fn harmful_effect_kinds(&self) -> (r: Vec<ExtraEffect>)
        ensures
            r@ == kinds_of(self@.harmful_statuses),
    {
        let mut r: Vec<ExtraEffect> = Vec::new();
        let mut i: usize = 0;
        while i < self.harmful_status_list.len()
            invariant
                i <= self.harmful_status_list@.len(),
                r@ == kinds_of(self.harmful_status_list@.take(i as int)),
            decreases self.harmful_status_list@.len() - i,
        {
            r.push(self.harmful_status_list[i].extra_effect);
            assert(kinds_of(self.harmful_status_list@.take(i + 1)) =~= kinds_of(
                self.harmful_status_list@.take(i as int),
            ).push(self.harmful_status_list@[i as int].extra_effect));
            i += 1;
        }
        assert(self.harmful_status_list@.take(i as int) =~= self.harmful_status_list@);
        r
    }
}

/// Death is judged once: a second judgment changes nothing and reports no
/// death, and so does any judgment of a unit that is already dead.
pub proof fn lemma_judgment_is_idempotent(unit: UnitModel)
    ensures
        unit.judged().judged() == unit.judged(),
        unit.judged().death_report() == None::<i32>,
        !unit.alive ==> unit.judged() == unit && unit.death_report() == None::<i32>,
{
}

/// After damage and judgment the alive flag of a unit that was consistent
/// says what its health says.
pub proof fn lemma_damage_then_judgment_is_consistent(unit: UnitModel, damage: i32)
    requires
        unit.consistent(),
    ensures
        unit.damaged(damage).judged().consistent(),
{
}

} // verus!
