//! Using a passive skill of a unit on the field: the checks, the effect, what
//! it costs, and what the opponent is told.
//!
//! A skill is numbered 1, 2 or 3, in the order of the card's skills. Using a
//! skill takes the unit's action of the turn, as a basic attack does, and the
//! energy that the skill needs is spent.

use vstd::prelude::*;
use crate::battle::{ActionError, Battle, BattleModel, PlayerModel, PlayerState};
use crate::card::{CardCatalog, PassiveSkill, PassiveSkillEffect, PassiveSkillType};
use crate::deploy_non_targeting_attack_passive_skill_request_form::DeployNonTargetingAttackPassiveSkillRequestForm;
use crate::field::occupied;
use crate::notify::NotificationDiff;
use crate::request::NoticeDeployNonTargetingAttackPassiveSkillRequest;
use crate::session::{parse_i32, parsed_i32};
use crate::skill::{
    after_effect, apply_passive_skill_effect, in_reach, killed_by, touched_by, SkillOutcome,
};
use crate::ui_data::PlayerIndex;

verus! {

/// The energy left after a cost was paid: a cost that is negative or beyond
/// the energy held is not paid.
pub open spec fn energy_after_cost(energy: i32, cost: i32) -> i32 {
    if 0 <= cost <= energy {
        (energy - cost) as i32
    } else {
        energy
    }
}

impl PlayerModel {
    /// The player after its unit at `index` has cast a skill that costs
    /// `cost`: the energy is spent and the unit has acted.
    pub open spec fn cast_done(self, index: i32, cost: i32) -> PlayerModel {
        PlayerModel {
            energy: energy_after_cost(self.energy, cost),
            field: self.field.update(index as int, self.field[index as int].acted()),
            ..self
        }
    }
}

impl BattleModel {
    /// The passive skills of the card of `account`'s unit at `unit_index`.
    pub open spec fn skills_at(self, catalog: CardCatalog, account: i32, unit_index: i32) -> Seq<PassiveSkill> {
        catalog.skills_of(self.me(account).field[unit_index as int].card_id)
    }

    /// Why `account`'s unit at `unit_index` may not use its skill
    /// `skill_index` at `target`, if it may not.
    pub open spec fn skill_rejection(
        self,
        catalog: CardCatalog,
        account: i32,
        unit_index: i32,
        skill_index: i32,
        target: Option<i32>,
    ) -> Option<ActionError> {
        if !self.has(account) {
            Some(ActionError::AuthenticationFailure)
        } else if !occupied(self.me(account).field, unit_index) {
            Some(ActionError::NotFound)
        } else if !(1 <= skill_index <= self.skills_at(catalog, account, unit_index).len()) {
            Some(ActionError::NotFound)
        } else if !self.skill_possible(
            account,
            unit_index,
            skill_index,
            self.skills_at(catalog, account, unit_index)[skill_index - 1].casting_conditions@,
        ) {
            Some(ActionError::RuleViolation)
        } else if self.skills_at(catalog, account, unit_index)[skill_index - 1].effect
            is TargetDamage && !in_reach(self.foe(account), target) {
            Some(ActionError::NotFound)
        } else {
            None
        }
    }

    /// The effect of that skill.
    pub open spec fn skill_effect(self, catalog: CardCatalog, account: i32, unit_index: i32, skill_index: i32) -> PassiveSkillEffect {
        self.skills_at(catalog, account, unit_index)[skill_index - 1].effect
    }

    /// The match after `account`'s unit at `unit_index` has used its skill
    /// `skill_index` at `target`.
    pub open spec fn after_skill(
        self,
        catalog: CardCatalog,
        account: i32,
        unit_index: i32,
        skill_index: i32,
        target: Option<i32>,
    ) -> BattleModel {
        let me = self.me(account);
        let done = after_effect(
            me,
            self.foe(account),
            unit_index,
            self.skill_effect(catalog, account, unit_index, skill_index),
            target,
        );
        self.seated(
            account,
            done.0.cast_done(unit_index, me.field[unit_index as int].required_energy.of_skill(skill_index)),
            done.1,
            self.turn,
        )
    }

    /// Why the request of a skill that strikes every unit of the opponent,
    /// with the unit index `unit_index` and the skill number `skill_index`
    /// as the request wrote them, is refused, if it is.
    pub open spec fn non_targeting_skill_rejection(
        self,
        catalog: CardCatalog,
        account: i32,
        unit_index: Option<i32>,
        skill_index: Option<i32>,
    ) -> Option<ActionError> {
        if !self.has(account) {
            Some(ActionError::AuthenticationFailure)
        } else if unit_index.is_none() || skill_index.is_none() {
            Some(ActionError::ProtocolViolation)
        } else if self.skill_rejection(catalog, account, unit_index.unwrap(), skill_index.unwrap(), None).is_some() {
            self.skill_rejection(catalog, account, unit_index.unwrap(), skill_index.unwrap(), None)
        } else if self.skill_effect(catalog, account, unit_index.unwrap(), skill_index.unwrap()).skill_type()
            != PassiveSkillType::BroadArea {
            Some(ActionError::RuleViolation)
        } else {
            None
        }
    }
}

impl PlayerState {
    /// Spends `cost` energy, where that much is held and the cost is not
    /// negative, and uses the action of the live unit at `index`.
    pub fn finish_cast(&mut self, index: i32, cost: i32)
        requires
            old(self).wf(),
            occupied(old(self)@.field, index),
        ensures
            final(self)@ == old(self)@.cast_done(index, cost),
            final(self).wf(),
    {
        self.energy.remove_energy(cost);
        self.field.execute_turn_action(index);
    }
}

/// Applies `effect`, cast by the unit of `me` at `caster_index` at `target`,
/// then spends `cost` energy of `me` and uses the caster's action.
pub fn cast_passive_skill(
    me: &mut PlayerState,
    foe: &mut PlayerState,
    caster_index: i32,
    effect: PassiveSkillEffect,
    target: Option<i32>,
    cost: i32,
) -> (r: SkillOutcome)
    requires
        old(me).wf(),
        old(foe).wf(),
        occupied(old(me)@.field, caster_index),
    ensures
        final(me)@ == after_effect(old(me)@, old(foe)@, caster_index, effect, target).0.cast_done(
            caster_index,
            cost,
        ),
        final(foe)@ == after_effect(old(me)@, old(foe)@, caster_index, effect, target).1,
        r.touched_unit_index_list@ == touched_by(old(me)@, old(foe)@, effect, target),
        r.dead_unit_list@ == killed_by(old(me)@, old(foe)@, caster_index, effect, target),
        final(me).wf(),
        final(foe).wf(),
        final(me)@.account == old(me)@.account,
        final(foe)@.account == old(foe)@.account,
{
    let outcome = apply_passive_skill_effect(me, foe, caster_index, effect, target);
    me.finish_cast(caster_index, cost);
    outcome
}

impl Battle {
    /// Checks whether `account`'s unit at `unit_index` may use its skill
    /// `skill_index` at `target`, and returns the skill's effect if it may.
    pub fn check_passive_skill(
        &self,
        catalog: &CardCatalog,
        account: i32,
        unit_index: i32,
        skill_index: i32,
        target: Option<i32>,
    ) -> (r: Result<PassiveSkillEffect, ActionError>)
        requires
            self.wf(),
        ensures
            match r {
                Ok(effect) => {
                    &&& self@.skill_rejection(*catalog, account, unit_index, skill_index, target).is_none()
                    &&& effect == self@.skill_effect(*catalog, account, unit_index, skill_index)
                },
                Err(e) => self@.skill_rejection(*catalog, account, unit_index, skill_index, target) == Some(e),
            },
    {
        if !self.is_participant(account) {
            return Err(ActionError::AuthenticationFailure);
        }
        let me = self.player(account);
        if !me.field.is_occupied(unit_index) {
            return Err(ActionError::NotFound);
        }
        let skills = catalog.passive_skills(me.field.units[unit_index as usize].card_id);
        if skill_index < 1 || skill_index as usize > skills.len() {
            return Err(ActionError::NotFound);
        }
        let skill = &skills[(skill_index - 1) as usize];
        if !self.can_use_skill(account, unit_index, skill_index, &skill.casting_conditions) {
            return Err(ActionError::RuleViolation);
        }
        match skill.effect {
            PassiveSkillEffect::TargetDamage { .. } => {
                let foe = self.opponent(account);
                let reached = match target {
                    Some(t) => foe.field.is_occupied(t) && !foe.field.units[t as usize].has_physical_immunity(),
                    None => false,
                };
                if !reached {
                    return Err(ActionError::NotFound);
                }
            },
            _ => {},
        }
        Ok(skill.effect)
    }

    /// Uses the skill `skill_index` of `account`'s unit at `unit_index` at
    /// `target`.
    ///
    /// The request is refused, and nothing changes, when the account takes no
    /// part in the match, when no live unit stands at the index, when the
    /// unit's card has no skill of that number, when the unit may not use
    /// it (not its owner's turn, its action used, too little energy for the
    /// skill, the skill not there, a casting condition unmet), or when the
    /// skill aims at one unit and `target` names no live unit of the opponent
    /// without physical immunity. Otherwise the effect is applied, the dead
    /// are judged and buried, the energy that the skill needs is spent and
    /// the unit's action of the turn is used.
    pub fn use_passive_skill(
        &mut self,
        catalog: &CardCatalog,
        account: i32,
        unit_index: i32,
        skill_index: i32,
        target: Option<i32>,
    ) -> (r: Result<SkillOutcome, ActionError>)
        requires
            old(self).wf(),
        ensures
            final(self).wf(),
            match r {
                Ok(outcome) => {
                    &&& old(self)@.skill_rejection(*catalog, account, unit_index, skill_index, target).is_none()
                    &&& final(self)@ == old(self)@.after_skill(*catalog, account, unit_index, skill_index, target)
                    &&& outcome.touched_unit_index_list@ == touched_by(
                        old(self)@.me(account),
                        old(self)@.foe(account),
                        old(self)@.skill_effect(*catalog, account, unit_index, skill_index),
                        target,
                    )
                    &&& outcome.dead_unit_list@ == killed_by(
                        old(self)@.me(account),
                        old(self)@.foe(account),
                        unit_index,
                        old(self)@.skill_effect(*catalog, account, unit_index, skill_index),
                        target,
                    )
                },
                Err(e) => {
                    &&& old(self)@.skill_rejection(*catalog, account, unit_index, skill_index, target) == Some(e)
                    &&& final(self)@ == old(self)@
                },
            },
    {
        let effect = match self.check_passive_skill(catalog, account, unit_index, skill_index, target) {
            Ok(effect) => effect,
            Err(e) => {
                return Err(e);
            },
        };
        let cost: i32 = self.player(account).field.units[unit_index as usize].required_energy.for_skill(
            skill_index,
        );
        let outcome = if account == self.first.account_unique_id {
            cast_passive_skill(&mut self.first, &mut self.second, unit_index, effect, target, cost)
        } else {
            cast_passive_skill(&mut self.second, &mut self.first, unit_index, effect, target, cost)
        };
        Ok(outcome)
    }

    /// Serves the request to use a passive skill that strikes every unit of
    /// the opponent, made by `account_unique_id`.
    ///
    /// The request is refused, and nothing changes, when the account takes no
    /// part in the match, when the form's unit index or skill number is no
    /// number, when the skill may not be used (see
    /// [`Battle::use_passive_skill`]), or when the skill does not strike
    /// every unit. Otherwise the skill is used, and the notice for the
    /// opponent is returned: under `You`, the health, the harmful statuses
    /// and the deaths of just those of its units that the skill touched.
    pub fn deploy_non_targeting_attack_passive_skill(
        &mut self,
        catalog: &CardCatalog,
        form: &DeployNonTargetingAttackPassiveSkillRequestForm,
        account_unique_id: i32,
    ) -> (r: Result<NoticeDeployNonTargetingAttackPassiveSkillRequest, ActionError>)
        requires
            old(self).wf(),
        ensures
            final(self).wf(),
            match r {
                Ok(notice) => {
                    let unit_index = parsed_i32(form.unit_index_text());
                    let skill_index = parsed_i32(form.skill_index_text());
                    let touched = touched_by(
                        old(self)@.me(account_unique_id),
                        old(self)@.foe(account_unique_id),
                        old(self)@.skill_effect(
                            *catalog,
                            account_unique_id,
                            unit_index.unwrap(),
                            skill_index.unwrap(),
                        ),
                        None,
                    );
                    &&& old(self)@.non_targeting_skill_rejection(
                        *catalog,
                        account_unique_id,
                        unit_index,
                        skill_index,
                    ).is_none()
                    &&& final(self)@ == old(self)@.after_skill(
                        *catalog,
                        account_unique_id,
                        unit_index.unwrap(),
                        skill_index.unwrap(),
                        None,
                    )
                    &&& notice.opponent_unique_id == old(self)@.foe(account_unique_id).account
                    &&& notice_tells(notice, PlayerIndex::You, final(self)@.foe(account_unique_id).field, touched)
                    &&& notice_tells(notice, PlayerIndex::Opponent, final(self)@.me(account_unique_id).field, Seq::empty())
                },
                Err(e) => {
                    &&& old(self)@.non_targeting_skill_rejection(
                        *catalog,
                        account_unique_id,
                        parsed_i32(form.unit_index_text()),
                        parsed_i32(form.skill_index_text()),
                    ) == Some(e)
                    &&& final(self)@ == old(self)@
                },
            },
    {
        let find_opponent = form.to_find_opponent_by_account_id_request(account_unique_id);
        let opponent: i32 = match self.find_opponent_by_account_unique_id(find_opponent.account_unique_id) {
            Some(opponent) => opponent,
            None => {
                return Err(ActionError::AuthenticationFailure);
            },
        };
        let unit_index: i32 = match parse_i32(form.get_unit_card_index()) {
            Some(index) => index,
            None => {
                return Err(ActionError::ProtocolViolation);
            },
        };
        let skill_index: i32 = match parse_i32(form.get_usage_skill_index()) {
            Some(index) => index,
            None => {
                return Err(ActionError::ProtocolViolation);
            },
        };
        let effect = match self.check_passive_skill(catalog, account_unique_id, unit_index, skill_index, None) {
            Ok(effect) => effect,
            Err(e) => {
                return Err(e);
            },
        };
        if effect.get_skill_type() != PassiveSkillType::BroadArea {
            return Err(ActionError::RuleViolation);
        }
        let outcome = match self.use_passive_skill(catalog, account_unique_id, unit_index, skill_index, None) {
            Ok(outcome) => outcome,
            Err(e) => {
                return Err(e);
            },
        };
        let untouched: Vec<i32> = Vec::new();
        let diff = self.notification_diff(account_unique_id, &untouched, &outcome.touched_unit_index_list);
        Ok(
            form.to_notice_deploy_non_targeting_attack_passive_skill_request(
                opponent,
                diff.player_field_unit_health_point_map,
                diff.player_field_unit_harmful_effect_map,
                diff.player_field_unit_death_map,
            ),
        )
    }
}

/// The notice says for the side `index` what a [`NotificationDiff`] says.
pub open spec fn notice_tells(
    notice: NoticeDeployNonTargetingAttackPassiveSkillRequest,
    index: PlayerIndex,
    field: Seq<crate::unit::UnitModel>,
    touched: Seq<i32>,
) -> bool {
    (NotificationDiff {
        player_field_unit_health_point_map: notice.player_field_unit_health_point_map,
        player_field_unit_harmful_effect_map: notice.player_field_unit_harmful_effect_map,
        player_field_unit_death_map: notice.player_field_unit_death_map,
    }).tells(index, field, touched)
}

} // verus!
