//! Whether a unit may act: turn ownership, energy, the action of the turn and
//! the casting conditions of a skill. Nothing here changes the match.

use vstd::prelude::*;
use crate::battle::{Battle, BattleModel};
use crate::card::PassiveSkillCastingCondition;
use crate::field::occupied;
use crate::unit::UnitModel;

verus! {

/// Whether `condition` holds in round `round` for a unit that entered the
/// field in round `deployed_round`.
pub open spec fn condition_holds(condition: PassiveSkillCastingCondition, deployed_round: i32, round: i32) -> bool {
    match condition {
        PassiveSkillCastingCondition::Dummy => true,
        PassiveSkillCastingCondition::Deploy => deployed_round == round,
        PassiveSkillCastingCondition::TurnStart => deployed_round < round,
    }
}

/// Whether every condition of the list holds.
pub open spec fn conditions_met(
    conditions: Seq<PassiveSkillCastingCondition>,
    deployed_round: i32,
    round: i32,
) -> bool {
    forall|k: int| 0 <= k < conditions.len() ==> condition_holds(#[trigger] conditions[k], deployed_round, round)
}

/// Whether `unit` has the skill numbered `skill_index`.
pub open spec fn has_skill(unit: UnitModel, skill_index: i32) -> bool {
    ||| skill_index == 1 && unit.has_first_passive_skill
    ||| skill_index == 2 && unit.has_second_passive_skill
    ||| skill_index == 3 && unit.has_third_passive_skill
}

impl BattleModel {
    /// It is the turn of `account`, a live unit of its stands at
    /// `unit_index` that has not acted in this turn, and the account holds
    /// at least `required_energy`.
    pub open spec fn action_possible(self, account: i32, unit_index: i32, required_energy: i32) -> bool {
        &&& self.has(account)
        &&& self.turn.owner == account
        &&& occupied(self.me(account).field, unit_index)
        &&& !self.me(account).field[unit_index as int].turn_action_used
        &&& self.me(account).energy >= required_energy
    }

    /// The unit at `unit_index` may act, has the skill `skill_index`, holds
    /// the energy that skill needs, and every casting condition is met.
    pub open spec fn skill_possible(
        self,
        account: i32,
        unit_index: i32,
        skill_index: i32,
        conditions: Seq<PassiveSkillCastingCondition>,
    ) -> bool {
        &&& occupied(self.me(account).field, unit_index)
        &&& self.action_possible(
            account,
            unit_index,
            self.me(account).field[unit_index as int].required_energy.of_skill(skill_index),
        )
        &&& has_skill(self.me(account).field[unit_index as int], skill_index)
        &&& conditions_met(
            conditions,
            self.me(account).field[unit_index as int].deployed_round,
            self.turn.round,
        )
    }
}

/// Whether every condition of the list holds in round `round` for a unit
/// that entered the field in round `deployed_round`.
pub fn casting_conditions_met(
    conditions: &Vec<PassiveSkillCastingCondition>,
    deployed_round: i32,
    round: i32,
) -> (r: bool)
    ensures
        r == conditions_met(conditions@, deployed_round, round),
{
    let mut i: usize = 0;
    while i < conditions.len()
        invariant
            i <= conditions@.len(),
            forall|k: int| 0 <= k < i ==> condition_holds(#[trigger] conditions@[k], deployed_round, round),
        decreases conditions@.len() - i,
    {
        let holds = match conditions[i] {
            PassiveSkillCastingCondition::Dummy => true,
            PassiveSkillCastingCondition::Deploy => deployed_round == round,
            PassiveSkillCastingCondition::TurnStart => deployed_round < round,
        };
        if !holds {
            assert(!condition_holds(conditions@[i as int], deployed_round, round));
            return false;
        }
        i += 1;
    }
    true
}

impl Battle {
    /// Whether the unit of `account` at `unit_index` may make a basic attack
    /// that needs `required_energy`: not when the unit has already acted in
    /// this turn, nor when the account holds less energy, nor when it is not
    /// the account's turn, nor when no live unit stands there.
    pub fn can_basic_attack(&self, account: i32, unit_index: i32, required_energy: i32) -> (r: bool)
        ensures
            r == self@.action_possible(account, unit_index, required_energy),
    {
        if !self.is_this_your_turn(account) {
            return false;
        }
        let me = self.player(account);
        if !me.field.is_occupied(unit_index) {
            return false;
        }
        let unit = &me.field.units[unit_index as usize];
        !unit.turn_action_used && me.energy.has_at_least(required_energy)
    }

    /// Whether the unit of `account` at `unit_index` may use its skill
    /// numbered `skill_index` (1, 2 or 3): what a basic attack asks, with the
    /// energy that skill needs, and besides that the unit has the skill and
    /// every one of `casting_conditions` holds.
    pub fn can_use_skill(
        &self,
        account: i32,
        unit_index: i32,
        skill_index: i32,
        casting_conditions: &Vec<PassiveSkillCastingCondition>,
    ) -> (r: bool)
        ensures
            r == self@.skill_possible(account, unit_index, skill_index, casting_conditions@),
    {
        if !self.is_participant(account) {
            return false;
        }
        let me = self.player(account);
        if !me.field.is_occupied(unit_index) {
            return false;
        }
        let unit = &me.field.units[unit_index as usize];
        let required: i32 = unit.required_energy.for_skill(skill_index);
        if !self.can_basic_attack(account, unit_index, required) {
            return false;
        }
        let owns_skill = (skill_index == 1 && unit.has_first_passive_skill) || (skill_index == 2
            && unit.has_second_passive_skill) || (skill_index == 3 && unit.has_third_passive_skill);
        if !owns_skill {
            return false;
        }
        casting_conditions_met(casting_conditions, unit.deployed_round, self.turn.round)
    }
}

} // verus!
