//! What happens to one player's side of the match: blows on its units with
//! the death judgment that follows, the status damage at the end of a turn,
//! and what a new turn brings.

use vstd::prelude::*;
use crate::battle::{PlayerModel, PlayerState};
use crate::card::ExtraStatusEffect;
use crate::field::{all_judged, all_refreshed, all_struck, all_ticked, doomed_cards, field_wf, occupied};
use crate::stores::{as_tomb, buried, drawn_count, energy_after_grant};
use crate::unit::{health_after_statuses, UnitModel};

verus! {

impl PlayerModel {
    /// The player whose unit in the slot `index` has become `unit`.
    pub open spec fn with_unit(self, index: i32, unit: UnitModel) -> PlayerModel {
        PlayerModel { field: self.field.update(index as int, unit), ..self }
    }

    /// The player after the unit in the slot `index` has become `unit` and
    /// was judged: a unit that died lies in the tomb.
    pub open spec fn with_judged_unit(self, index: i32, unit: UnitModel) -> PlayerModel {
        PlayerModel {
            field: self.field.update(index as int, unit.judged()),
            tomb: buried(self.tomb, unit.death_report()),
            ..self
        }
    }

    /// The player after `damage` to the unit at `index` and the death
    /// judgment on it.
    pub open spec fn hit(self, index: i32, damage: i32) -> PlayerModel {
        self.with_judged_unit(index, self.field[index as int].damaged(damage))
    }

    /// The player after an instant death of the unit at `index`.
    pub open spec fn bereft(self, index: i32) -> PlayerModel {
        self.with_judged_unit(index, self.field[index as int].slain())
    }

    /// The player after a blow of `damage` with `effects` on every live unit
    /// (with `spare_immune`, but for those with physical immunity) and the
    /// death judgment on all of them.
    pub open spec fn swept(self, damage: i32, effects: Seq<ExtraStatusEffect>, spare_immune: bool) -> PlayerModel {
        let struck = all_struck(self.field, damage, effects, spare_immune);
        PlayerModel {
            field: all_judged(struck),
            tomb: self.tomb.add(as_tomb(doomed_cards(struck))),
            ..self
        }
    }

    /// The player after the statuses of its units have dealt their damage at
    /// the end of its turn, with the death judgment that follows.
    pub open spec fn ticked(self) -> PlayerModel {
        let worn = all_ticked(self.field);
        PlayerModel {
            field: all_judged(worn),
            tomb: self.tomb.add(as_tomb(doomed_cards(worn))),
            ..self
        }
    }

    /// The player after a grant of `amount` energy.
    pub open spec fn granted(self, amount: i32) -> PlayerModel {
        PlayerModel { energy: energy_after_grant(self.energy, amount), ..self }
    }

    /// The player after drawing `count` cards, or as many as the deck holds.
    pub open spec fn drew(self, count: i32) -> PlayerModel {
        let n = drawn_count(self.deck.len(), count);
        PlayerModel { hand: self.hand + self.deck.take(n), deck: self.deck.skip(n), ..self }
    }

    /// The player whose units all have their action back.
    pub open spec fn refreshed(self) -> PlayerModel {
        PlayerModel { field: all_refreshed(self.field), ..self }
    }
}

/// Damage from statuses never takes health below zero, and leaves health
/// that is not positive at or below zero.
pub proof fn lemma_status_damage_keeps_sign(health: i32, statuses: Seq<ExtraStatusEffect>)
    ensures
        health >= 0 ==> health_after_statuses(health, statuses) >= 0,
        health <= 0 ==> health_after_statuses(health, statuses) <= 0,
    decreases statuses.len(),
{
    if statuses.len() > 0 {
        lemma_status_damage_keeps_sign(health, statuses.drop_last());
    }
}

/// A well-formed field stays well formed when its live units are struck and
/// all are judged.
pub proof fn lemma_swept_field_wf(
    field: Seq<UnitModel>,
    owner: i32,
    damage: i32,
    effects: Seq<ExtraStatusEffect>,
    spare_immune: bool,
)
    requires
        field_wf(field, owner),
    ensures
        field_wf(all_judged(all_struck(field, damage, effects, spare_immune)), owner),
{
}

/// A well-formed field stays well formed when the statuses of its live units
/// deal their damage and all are judged.
pub proof fn lemma_ticked_field_wf(field: Seq<UnitModel>, owner: i32)
    requires
        field_wf(field, owner),
    ensures
        field_wf(all_judged(all_ticked(field)), owner),
{
    assert forall|i: int| 0 <= i < field.len() implies (#[trigger] all_judged(all_ticked(field))[i]).consistent() by {
        let u = field[i];
        lemma_status_damage_keeps_sign(u.health_point, u.harmful_statuses);
    }
}

impl PlayerState {
    pub open spec fn wf(&self) -> bool {
        self@.wf()
    }

    /// Takes `damage` from the live unit at `index` and judges its death; the
    /// card of a unit that dies is put in the tomb and returned.
    pub fn hit_unit(&mut self, index: i32, damage: i32) -> (r: Option<i32>)
        requires
            occupied(old(self)@.field, index),
        ensures
            final(self)@ == old(self)@.hit(index, damage),
            r == old(self)@.field[index as int].damaged(damage).death_report(),
            old(self).wf() ==> final(self).wf(),
    {
        self.field.apply_damage_to_target_unit_index(index, damage);
        let report = self.field.judge_death_of_unit(index);
        self.tomb.bury(report);
        assert(self@.field =~= old(self)@.hit(index, damage).field);
        report
    }

    /// Strikes the live unit at `index` dead and judges its death; the card
    /// of a unit that dies is put in the tomb and returned.
    pub fn slay_unit(&mut self, index: i32) -> (r: Option<i32>)
        requires
            occupied(old(self)@.field, index),
        ensures
            final(self)@ == old(self)@.bereft(index),
            r == old(self)@.field[index as int].slain().death_report(),
            old(self).wf() ==> final(self).wf(),
    {
        self.field.apply_instant_death_to_target_unit_index(index);
        let report = self.field.judge_death_of_unit(index);
        self.tomb.bury(report);
        assert(self@.field =~= old(self)@.bereft(index).field);
        report
    }

    /// Deals every live unit a blow of `damage` that carries `effects` (with
    /// `spare_immune`, but for those with physical immunity), judges the
    /// death of every unit and puts the dead in the tomb. Returns their
    /// cards in the order of their indices.
    pub fn sweep(&mut self, damage: i32, effects: &Vec<ExtraStatusEffect>, spare_immune: bool) -> (r: Vec<i32>)
        ensures
            final(self)@ == old(self)@.swept(damage, effects@, spare_immune),
            r@ == doomed_cards(all_struck(old(self)@.field, damage, effects@, spare_immune)),
            old(self).wf() ==> final(self).wf(),
    {
        proof {
            if old(self).wf() {
                lemma_swept_field_wf(old(self)@.field, old(self)@.account, damage, effects@, spare_immune);
            }
        }
        self.field.strike_every_unit(damage, effects, spare_immune);
        let dead = self.field.judge_death_of_every_unit();
        self.tomb.add_dead_unit_list_to_tomb(&dead);
        dead
    }

    /// Lets the statuses of every live unit deal their damage and age by a
    /// turn, judges the death of every unit and puts the dead in the tomb.
    /// Returns their cards in the order of their indices.
    pub fn apply_status_effect_damage_iteratively(&mut self) -> (r: Vec<i32>)
        ensures
            final(self)@ == old(self)@.ticked(),
            r@ == doomed_cards(all_ticked(old(self)@.field)),
            old(self).wf() ==> final(self).wf(),
    {
        proof {
            if old(self).wf() {
                lemma_ticked_field_wf(old(self)@.field, old(self)@.account);
            }
        }
        self.field.apply_status_effect_damage_iteratively();
        let dead = self.field.judge_death_of_every_unit();
        self.tomb.add_dead_unit_list_to_tomb(&dead);
        dead
    }

    /// Grants `amount` field energy.
    pub fn add_field_energy(&mut self, amount: i32)
        requires
            old(self)@.energy >= 0,
        ensures
            final(self)@ == old(self)@.granted(amount),
    {
        self.energy.add_energy(amount);
    }

    /// Draws `count` cards from the deck into the hand, or as many as the
    /// deck holds, and returns them in the order drawn.
    pub fn draw_cards_from_deck(&mut self, count: i32) -> (r: Vec<i32>)
        ensures
            final(self)@ == old(self)@.drew(count),
            r@ == old(self)@.deck.take(drawn_count(old(self)@.deck.len(), count)),
    {
        let drawn = self.deck.draw_cards(count);
        self.hand.add_cards(&drawn);
        drawn
    }

    /// Gives every unit its action back.
    pub fn reset_turn_action(&mut self)
        ensures
            final(self)@ == old(self)@.refreshed(),
    {
        self.field.reset_turn_action_of_every_unit();
    }
}

} // verus!
