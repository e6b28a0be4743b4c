//! Deploying a unit, the basic attack of a unit on a unit with the blow that
//! comes back, and the basic attack on the opponent's main character.
//!
//! Every check comes before the first change: a refused action leaves the
//! match as it was. A unit has one action a turn, whatever it spends it on: a
//! basic attack on a unit or on the main character, or a passive skill.

use vstd::prelude::*;
use crate::battle::{ActionError, Battle, BattleModel, PlayerModel, PlayerState, MYTHICAL_UNIT_ROUND};
use crate::card::{
    copy_effects, CardCatalog, CardKind, GradeEnum, PassiveSkill, PassiveSkillEffect, UnitStats,
};
use crate::field::{first_free, fresh_unit, occupied, placed};
use crate::skill::{
    after_effects, apply_passive_skill_list, deploy_effects, summary_deploy_passive_skill_effect,
};
use crate::stores::{without_first, StatusMainCharacterEnum};
use crate::unit::UnitModel;

verus! {

/// What a basic attack on a unit brought about.
#[derive(Clone, Copy, Debug, PartialEq, Eq, Structural)]
pub struct AttackOutcome {
    /// The card of the attacked unit, if it died.
    pub dead_target_unit_id: Option<i32>,
    /// The card of the attacking unit, if it died of the blow that came back.
    pub dead_attacker_unit_id: Option<i32>,
    /// Whether the attacked unit struck back.
    pub countered: bool,
}

/// What a deployment brought about.
#[derive(Debug)]
pub struct DeployOutcome {
    /// The slot the unit was placed in.
    pub placed_unit_index: i32,
    /// The effects of the passive skills that the deployment set off, in
    /// the order in which they were applied.
    pub passive_skill_effect_list: Vec<PassiveSkillEffect>,
}

/// The attacked unit after the attacker's blow.
pub open spec fn target_after_blow(attacker: UnitModel, target: UnitModel) -> UnitModel {
    target.struck(attacker.attack_point, attacker.extra_effects)
}

/// The attacking unit after the attack: it has acted, and unless it has
/// physical immunity it has taken the blow that came back.
pub open spec fn attacker_after_blow(attacker: UnitModel, target: UnitModel) -> UnitModel {
    if attacker.immune() {
        attacker.acted()
    } else {
        attacker.struck(target.attack_point, target.extra_effects).acted()
    }
}

/// The attacker's side after the attack of its unit at `attacker_index` on
/// the unit at `target_index`. An attacker with physical immunity takes no
/// blow and is not judged.
pub open spec fn attacker_side_after(
    me: PlayerModel,
    foe: PlayerModel,
    attacker_index: i32,
    target_index: i32,
) -> PlayerModel {
    let attacker = me.field[attacker_index as int];
    let target = foe.field[target_index as int];
    if attacker.immune() {
        me.with_unit(attacker_index, attacker_after_blow(attacker, target))
    } else {
        me.with_judged_unit(attacker_index, attacker_after_blow(attacker, target))
    }
}

/// The attacked side after the attack: the unit at `target_index` has taken
/// the blow and was judged.
pub open spec fn target_side_after(
    me: PlayerModel,
    foe: PlayerModel,
    attacker_index: i32,
    target_index: i32,
) -> PlayerModel {
    foe.with_judged_unit(
        target_index,
        target_after_blow(me.field[attacker_index as int], foe.field[target_index as int]),
    )
}

/// What the attack reports.
pub open spec fn attack_outcome(me: PlayerModel, foe: PlayerModel, attacker_index: i32, target_index: i32) -> AttackOutcome {
    let attacker = me.field[attacker_index as int];
    let target = foe.field[target_index as int];
    AttackOutcome {
        dead_target_unit_id: target_after_blow(attacker, target).death_report(),
        dead_attacker_unit_id: if attacker.immune() {
            None
        } else {
            attacker_after_blow(attacker, target).death_report()
        },
        countered: !attacker.immune(),
    }
}

impl BattleModel {
    /// Why the attack of `account`'s unit at `attacker_index` on the
    /// opponent's unit at `target_index` is refused, if it is.
    pub open spec fn attack_rejection(self, account: i32, attacker_index: i32, target_index: i32) -> Option<
        ActionError,
    > {
        if !self.has(account) {
            Some(ActionError::AuthenticationFailure)
        } else if !occupied(self.me(account).field, attacker_index) {
            Some(ActionError::NotFound)
        } else if !self.action_possible(
            account,
            attacker_index,
            self.me(account).field[attacker_index as int].required_energy.basic_attack,
        ) {
            Some(ActionError::RuleViolation)
        } else if !occupied(self.foe(account).field, target_index) {
            Some(ActionError::NotFound)
        } else if self.foe(account).field[target_index as int].immune() {
            Some(ActionError::RuleViolation)
        } else {
            None
        }
    }

    /// The match after that attack.
    pub open spec fn after_attack(self, account: i32, attacker_index: i32, target_index: i32) -> BattleModel {
        self.seated(
            account,
            attacker_side_after(self.me(account), self.foe(account), attacker_index, target_index),
            target_side_after(self.me(account), self.foe(account), attacker_index, target_index),
            self.turn,
        )
    }

    /// Why the attack of `account`'s unit at `attacker_index` on the
    /// opponent's main character is refused, if it is.
    pub open spec fn main_character_attack_rejection(self, account: i32, attacker_index: i32) -> Option<
        ActionError,
    > {
        if !self.has(account) {
            Some(ActionError::AuthenticationFailure)
        } else if self.turn.owner != account {
            Some(ActionError::RuleViolation)
        } else if !occupied(self.me(account).field, attacker_index) {
            Some(ActionError::NotFound)
        } else if !self.action_possible(
            account,
            attacker_index,
            self.me(account).field[attacker_index as int].required_energy.basic_attack,
        ) {
            Some(ActionError::RuleViolation)
        } else {
            None
        }
    }

    /// The match after that attack: the opponent's main character has lost
    /// the attacker's attack points and was checked for its fall, and the
    /// attacker has acted.
    pub open spec fn after_main_character_attack(self, account: i32, attacker_index: i32) -> BattleModel {
        let me = self.me(account);
        let foe = self.foe(account);
        let attacker = me.field[attacker_index as int];
        self.seated(
            account,
            me.with_unit(attacker_index, attacker.acted()),
            PlayerModel { main_character: foe.main_character.damaged(attacker.attack_point).checked(), ..foe },
            self.turn,
        )
    }

    /// The round allows the card `card_id`: it is no mythical unit, or round
    /// 5 has begun.
    pub open spec fn card_usable(self, catalog: CardCatalog, card_id: i32) -> bool {
        match catalog.stats_of(card_id) {
            Some(stats) => !(stats.grade == GradeEnum::Mythical && self.turn.round < MYTHICAL_UNIT_ROUND),
            None => true,
        }
    }

    /// Why `account` may not deploy the card `card_id`, if it may not.
    pub open spec fn deploy_rejection(self, catalog: CardCatalog, account: i32, card_id: i32) -> Option<
        ActionError,
    > {
        if !self.has(account) {
            Some(ActionError::AuthenticationFailure)
        } else if !self.me(account).hand.contains(card_id) {
            Some(ActionError::ProtocolViolation)
        } else if catalog.kind_of(card_id) != CardKind::Unit {
            Some(ActionError::ProtocolViolation)
        } else if catalog.stats_of(card_id).is_none() || catalog.stats_of(card_id).unwrap().health_point
            <= 0 {
            Some(ActionError::NotFound)
        } else if !self.card_usable(catalog, card_id) {
            Some(ActionError::RuleViolation)
        } else if first_free(self.me(account).field) >= i32::MAX {
            Some(ActionError::RuleViolation)
        } else {
            None
        }
    }

    /// The match after `account` has deployed the card `card_id`: the card
    /// has left the hand, the unit stands in the first free slot, and the
    /// passive skills that the deployment sets off have taken effect.
    pub open spec fn after_deploy(self, catalog: CardCatalog, account: i32, card_id: i32) -> BattleModel {
        let me = self.me(account);
        let stats = catalog.stats_of(card_id).unwrap();
        let index = first_free(me.field);
        let entered = PlayerModel {
            hand: without_first(me.hand, card_id),
            field: placed(me.field, index, fresh_unit(card_id, account, index as i32, stats, self.turn.round)),
            ..me
        };
        let done = after_effects(
            entered,
            self.foe(account),
            index as i32,
            deploy_effects(stats, catalog.skills_of(card_id), self.turn.round),
        );
        self.seated(account, done.0, done.1, self.turn)
    }
}

/// A deployed unit keeps a well-formed side well formed.
pub proof fn lemma_placed_field_wf(me: PlayerModel, card_id: i32, stats: UnitStats, round: i32)
    requires
        me.wf(),
        first_free(me.field) < i32::MAX,
        0 <= first_free(me.field) <= me.field.len(),
    ensures
        (PlayerModel {
            field: placed(
                me.field,
                first_free(me.field),
                fresh_unit(card_id, me.account, first_free(me.field) as i32, stats, round),
            ),
            ..me
        }).wf(),
{
}

/// Resolves the attack of the unit of `me` at `attacker_index` on the unit of
/// `foe` at `target_index`, which has no physical immunity: the blow with the
/// attacker's extra effects, the blow that comes back unless the attacker has
/// physical immunity, the attacker's action of the turn, and the death
/// judgment on the attacked unit and then on the attacker, with the dead put
/// in the tomb.
pub fn resolve_attack(me: &mut PlayerState, foe: &mut PlayerState, attacker_index: i32, target_index: i32) -> (r:
    AttackOutcome)
    requires
        old(me).wf(),
        old(foe).wf(),
        occupied(old(me)@.field, attacker_index),
        occupied(old(foe)@.field, target_index),
        !old(foe)@.field[target_index as int].immune(),
    ensures
        final(me)@ == attacker_side_after(old(me)@, old(foe)@, attacker_index, target_index),
        final(foe)@ == target_side_after(old(me)@, old(foe)@, attacker_index, target_index),
        r == attack_outcome(old(me)@, old(foe)@, attacker_index, target_index),
        final(me).wf(),
        final(foe).wf(),
{
    let a: usize = attacker_index as usize;
    let t: usize = target_index as usize;
    let damage: i32 = me.field.units[a].attack_point;
    let effects = copy_effects(&me.field.units[a].extra_status_effect_list);
    let back_damage: i32 = foe.field.units[t].attack_point;
    let back_effects = copy_effects(&foe.field.units[t].extra_status_effect_list);
    let immune = me.field.units[a].has_physical_immunity();

    foe.field.attack_target_unit_with_extra_effect(target_index, damage, &effects);
    if !immune {
        me.field.attack_target_unit_with_extra_effect(attacker_index, back_damage, &back_effects);
    }
    me.field.execute_turn_action(attacker_index);

    let dead_target = foe.field.judge_death_of_unit(target_index);
    foe.tomb.bury(dead_target);
    let mut dead_attacker: Option<i32> = None;
    if !immune {
        dead_attacker = me.field.judge_death_of_unit(attacker_index);
        me.tomb.bury(dead_attacker);
    }
    assert(me@.field =~= attacker_side_after(old(me)@, old(foe)@, attacker_index, target_index).field);
    assert(foe@.field =~= target_side_after(old(me)@, old(foe)@, attacker_index, target_index).field);
    AttackOutcome {
        dead_target_unit_id: dead_target,
        dead_attacker_unit_id: dead_attacker,
        countered: !immune,
    }
}

/// Takes the card `card_id`, which the hand of `me` holds, from that hand,
/// places it as a unit with `stats` in the first free slot, and applies the
/// effects of those of `skills` that the deployment sets off.
pub fn resolve_deploy(
    me: &mut PlayerState,
    foe: &mut PlayerState,
    card_id: i32,
    stats: &UnitStats,
    skills: &[PassiveSkill],
    round: i32,
) -> (r: DeployOutcome)
    requires
        old(me).wf(),
        old(foe).wf(),
        old(me)@.hand.contains(card_id),
        first_free(old(me)@.field) < i32::MAX,
    ensures
        r.placed_unit_index == first_free(old(me)@.field),
        r.passive_skill_effect_list@ == deploy_effects(*stats, skills@, round),
        (final(me)@, final(foe)@) == after_effects(
            PlayerModel {
                hand: without_first(old(me)@.hand, card_id),
                field: placed(
                    old(me)@.field,
                    first_free(old(me)@.field),
                    fresh_unit(card_id, old(me)@.account, r.placed_unit_index, *stats, round),
                ),
                ..old(me)@
            },
            old(foe)@,
            r.placed_unit_index,
            deploy_effects(*stats, skills@, round),
        ),
        final(me).wf(),
        final(foe).wf(),
        final(me)@.account == old(me)@.account,
        final(foe)@.account == old(foe)@.account,
{
    me.hand.use_card(card_id);
    let owner: i32 = me.account_unique_id;
    let placed_index = me.field.add_unit_to_game_field(card_id, owner, stats, round);
    let index: i32 = placed_index.unwrap();
    proof {
        lemma_placed_field_wf(old(me)@, card_id, *stats, round);
    }
    let effects = summary_deploy_passive_skill_effect(stats, skills, round);
    apply_passive_skill_list(me, foe, index, &effects);
    DeployOutcome { placed_unit_index: index, passive_skill_effect_list: effects }
}

impl Battle {
    /// Whether the round allows the card `card_id`: mythical units wait for
    /// round 5, and every other card may be used in any round.
    pub fn can_use_card(&self, catalog: &CardCatalog, card_id: i32) -> (r: bool)
        ensures
            r == self@.card_usable(*catalog, card_id),
    {
        match catalog.unit_stats(card_id) {
            Some(stats) => !(stats.grade == GradeEnum::Mythical && self.turn.round < MYTHICAL_UNIT_ROUND),
            None => true,
        }
    }

    /// Deploys the unit card `card_id` from the hand of `account`.
    ///
    /// The request is refused, and nothing changes, when the account takes no
    /// part in the match, when its hand does not hold the card, when the
    /// card is no unit card, when the catalog has no statistics for it or
    /// statistics without health, when the unit is mythical and round 5 has
    /// not begun, or when the field has no slot left. Otherwise the card leaves the hand, the unit takes the
    /// first free slot, and the passive skills that its deployment sets off
    /// take effect at once.
    pub fn deploy_unit(&mut self, catalog: &CardCatalog, account: i32, card_id: i32) -> (r: Result<
        DeployOutcome,
        ActionError,
    >)
        requires
            old(self).wf(),
        ensures
            final(self).wf(),
            match r {
                Ok(outcome) => {
                    &&& old(self)@.deploy_rejection(*catalog, account, card_id).is_none()
                    &&& final(self)@ == old(self)@.after_deploy(*catalog, account, card_id)
                    &&& outcome.placed_unit_index == first_free(old(self)@.me(account).field)
                    &&& outcome.passive_skill_effect_list@ == deploy_effects(
                        catalog.stats_of(card_id).unwrap(),
                        catalog.skills_of(card_id),
                        old(self)@.turn.round,
                    )
                },
                Err(e) => {
                    &&& old(self)@.deploy_rejection(*catalog, account, card_id) == Some(e)
                    &&& final(self)@ == old(self)@
                },
            },
    {
        if !self.is_participant(account) {
            return Err(ActionError::AuthenticationFailure);
        }
        if !self.player(account).hand.holds(card_id) {
            return Err(ActionError::ProtocolViolation);
        }
        if catalog.card_kind(card_id) != CardKind::Unit {
            return Err(ActionError::ProtocolViolation);
        }
        let stats = match catalog.unit_stats(card_id) {
            Some(stats) => stats,
            None => {
                return Err(ActionError::NotFound);
            },
        };
        if stats.health_point <= 0 {
            return Err(ActionError::NotFound);
        }
        if !self.can_use_card(catalog, card_id) {
            return Err(ActionError::RuleViolation);
        }
        if self.player(account).field.first_free_index() >= 0x7fff_ffff {
            return Err(ActionError::RuleViolation);
        }
        let skills = catalog.passive_skills(card_id);
        let round: i32 = self.turn.round;
        let outcome = if account == self.first.account_unique_id {
            resolve_deploy(&mut self.first, &mut self.second, card_id, stats, skills, round)
        } else {
            resolve_deploy(&mut self.second, &mut self.first, card_id, stats, skills, round)
        };
        Ok(outcome)
    }

    /// The basic attack of `account`'s unit at `attacker_index` on the
    /// opponent's unit at `target_index`.
    ///
    /// The attack is refused, and nothing changes, when the account takes no
    /// part in the match, when no live unit stands at either index, when the
    /// attacker may not act (not its owner's turn, its action used, too
    /// little energy), or when the attacked unit has physical immunity.
    /// Otherwise the attacked unit takes the attacker's attack points and
    /// extra effects; unless the attacker has physical immunity, it takes
    /// those of the attacked unit in return; the attacker's action of the
    /// turn is used; and death is judged for the attacked unit and then,
    /// where it took a blow, for the attacker, the dead going to the tomb.
    pub fn attack_unit(&mut self, account: i32, attacker_index: i32, target_index: i32) -> (r: Result<
        AttackOutcome,
        ActionError,
    >)
        requires
            old(self).wf(),
        ensures
            final(self).wf(),
            match r {
                Ok(outcome) => {
                    &&& old(self)@.attack_rejection(account, attacker_index, target_index).is_none()
                    &&& final(self)@ == old(self)@.after_attack(account, attacker_index, target_index)
                    &&& outcome == attack_outcome(
                        old(self)@.me(account),
                        old(self)@.foe(account),
                        attacker_index,
                        target_index,
                    )
                },
                Err(e) => {
                    &&& old(self)@.attack_rejection(account, attacker_index, target_index) == Some(e)
                    &&& final(self)@ == old(self)@
                },
            },
    {
        if !self.is_participant(account) {
            return Err(ActionError::AuthenticationFailure);
        }
        if !self.player(account).field.is_occupied(attacker_index) {
            return Err(ActionError::NotFound);
        }
        let required: i32 = self.player(account).field.units[attacker_index as usize].required_energy.basic_attack;
        if !self.can_basic_attack(account, attacker_index, required) {
            return Err(ActionError::RuleViolation);
        }
        if !self.opponent(account).field.is_occupied(target_index) {
            return Err(ActionError::NotFound);
        }
        if self.opponent(account).field.units[target_index as usize].has_physical_immunity() {
            return Err(ActionError::RuleViolation);
        }
        let outcome = if account == self.first.account_unique_id {
            resolve_attack(&mut self.first, &mut self.second, attacker_index, target_index)
        } else {
            resolve_attack(&mut self.second, &mut self.first, attacker_index, target_index)
        };
        Ok(outcome)
    }

    /// The basic attack of `account`'s unit at `attacker_index` on the
    /// opponent's main character.
    ///
    /// The attack is refused, and nothing changes, when the account takes no
    /// part in the match, when it is not its turn, when no live unit stands
    /// at the index, or when that unit may not act. Otherwise the opponent's
    /// main character loses the attacker's attack points and is checked for
    /// its fall; its status after the check is returned. Nothing strikes
    /// back, and the attacker's action of the turn is used.
    pub fn attack_main_character(&mut self, account: i32, attacker_index: i32) -> (r: Result<
        StatusMainCharacterEnum,
        ActionError,
    >)
        requires
            old(self).wf(),
        ensures
            final(self).wf(),
            match r {
                Ok(status) => {
                    &&& old(self)@.main_character_attack_rejection(account, attacker_index).is_none()
                    &&& final(self)@ == old(self)@.after_main_character_attack(account, attacker_index)
                    &&& status == final(self)@.foe(account).main_character.status
                },
                Err(e) => {
                    &&& old(self)@.main_character_attack_rejection(account, attacker_index) == Some(e)
                    &&& final(self)@ == old(self)@
                },
            },
    {
        if !self.is_participant(account) {
            return Err(ActionError::AuthenticationFailure);
        }
        if !self.is_this_your_turn(account) {
            return Err(ActionError::RuleViolation);
        }
        if !self.player(account).field.is_occupied(attacker_index) {
            return Err(ActionError::NotFound);
        }
        let unit = &self.player(account).field.units[attacker_index as usize];
        let required: i32 = unit.required_energy.basic_attack;
        let damage: i32 = unit.attack_point;
        if !self.can_basic_attack(account, attacker_index, required) {
            return Err(ActionError::RuleViolation);
        }
        let status = if account == self.first.account_unique_id {
            self.first.field.execute_turn_action(attacker_index);
            self.second.main_character.apply_damage(damage);
            self.second.main_character.check_lethality()
        } else {
            self.second.field.execute_turn_action(attacker_index);
            self.first.main_character.apply_damage(damage);
            self.first.main_character.check_lethality()
        };
        Ok(status)
    }
}

} // verus!
