//! The table of units one player has deployed. A unit stands in the slot
//! that its board index names; the slot of a dead unit is free.

use vstd::prelude::*;
use crate::card::{copy_effects, ExtraEffect, ExtraStatusEffect, UnitStats};
use crate::unit::{FieldUnit, UnitModel};

verus! {

/// The units of one player, slot by slot.
#[derive(Debug)]
pub struct FieldUnitTable {
    pub units: Vec<FieldUnit>,
}

impl View for FieldUnitTable {
    type V = Seq<UnitModel>;

    open spec fn view(&self) -> Seq<UnitModel> {
        self.units@.map_values(|u: FieldUnit| u@)
    }
}

/// A live unit stands at `index`.
pub open spec fn occupied(field: Seq<UnitModel>, index: i32) -> bool {
    0 <= index < field.len() && field[index as int].alive
}

/// Every slot holds a unit of `owner` that knows its own index and whose
/// alive flag says what its health says.
pub open spec fn field_wf(field: Seq<UnitModel>, owner: i32) -> bool {
    &&& field.len() <= i32::MAX
    &&& forall|i: int|
        0 <= i < field.len() ==> {
            &&& (#[trigger] field[i]).index == i
            &&& field[i].owner == owner
            &&& field[i].consistent()
        }
}

/// The first free slot at or after `from`: the lowest index there whose unit
/// is dead, or the length of the table when every unit lives.
pub open spec fn first_free_from(field: Seq<UnitModel>, from: int) -> int
    decreases field.len() - from,
{
    if from < 0 || from >= field.len() {
        field.len() as int
    } else if !field[from].alive {
        from
    } else {
        first_free_from(field, from + 1)
    }
}

/// The first free slot of the table.
pub open spec fn first_free(field: Seq<UnitModel>) -> int {
    first_free_from(field, 0)
}

/// The unit that the card `card_id` with statistics `stats` becomes when
/// `owner` deploys it at `index` in round `round`.
pub open spec fn fresh_unit(card_id: i32, owner: i32, index: i32, stats: UnitStats, round: i32) -> UnitModel {
    UnitModel {
        card_id,
        owner,
        index,
        race: stats.race,
        grade: stats.grade,
        attack_point: stats.attack_point,
        health_point: stats.health_point,
        max_health_point: stats.health_point,
        required_energy: stats.required_energy,
        has_first_passive_skill: stats.has_first_passive_skill,
        has_second_passive_skill: stats.has_second_passive_skill,
        has_third_passive_skill: stats.has_third_passive_skill,
        passive_statuses: stats.passive_status_list@,
        extra_effects: Seq::empty(),
        harmful_statuses: Seq::empty(),
        attached_energy: Seq::empty(),
        deployed_round: round,
        turn_action_used: false,
        alive: stats.health_point > 0,
    }
}

/// The table with `unit` placed at the slot `index`, which is a slot of the
/// table or the one behind its last.
pub open spec fn placed(field: Seq<UnitModel>, index: int, unit: UnitModel) -> Seq<UnitModel> {
    if index < field.len() {
        field.update(index, unit)
    } else {
        field.push(unit)
    }
}

/// A blow on every unit reaches `unit`: it lives and, with `spare_immune`, has
/// no physical immunity.
pub open spec fn exposed(unit: UnitModel, spare_immune: bool) -> bool {
    unit.alive && !(spare_immune && unit.immune())
}

/// The table after a blow of `damage` with `effects` on every live unit; with
/// `spare_immune`, units with physical immunity are passed over.
pub open spec fn all_struck(
    field: Seq<UnitModel>,
    damage: i32,
    effects: Seq<ExtraStatusEffect>,
    spare_immune: bool,
) -> Seq<UnitModel> {
    field.map_values(
        |u: UnitModel|
            if exposed(u, spare_immune) {
                u.struck(damage, effects)
            } else {
                u
            },
    )
}

/// The table after death judgment on every unit.
pub open spec fn all_judged(field: Seq<UnitModel>) -> Seq<UnitModel> {
    field.map_values(|u: UnitModel| u.judged())
}

/// The cards of the units that die at the next judgment, in the order of
/// their indices.
pub open spec fn doomed_cards(field: Seq<UnitModel>) -> Seq<i32> {
    field.filter(|u: UnitModel| u.doomed()).map_values(|u: UnitModel| u.card_id)
}

/// The table after the statuses of every live unit have dealt their damage
/// and aged by a turn.
pub open spec fn all_ticked(field: Seq<UnitModel>) -> Seq<UnitModel> {
    field.map_values(
        |u: UnitModel|
            if u.alive {
                u.ticked()
            } else {
                u
            },
    )
}

/// The table with every unit given its action back.
pub open spec fn all_refreshed(field: Seq<UnitModel>) -> Seq<UnitModel> {
    field.map_values(|u: UnitModel| u.refreshed())
}

/// The indices of the units that a blow on every unit reaches, lowest first.
pub open spec fn exposed_indices(field: Seq<UnitModel>, spare_immune: bool) -> Seq<i32> {
    field.filter(|u: UnitModel| exposed(u, spare_immune)).map_values(|u: UnitModel| u.index)
}

impl FieldUnitTable {
    pub open spec fn wf(&self, owner: i32) -> bool {
        field_wf(self@, owner)
    }

    pub fn new() -> (r: Self)
        ensures
            r@ == Seq::<UnitModel>::empty(),
    {
        let r = FieldUnitTable { units: Vec::new() };
        assert(r@ =~= Seq::<UnitModel>::empty());
        r
    }

    /// Whether the table is well formed as the field of `owner`.
    pub fn is_well_formed(&self, owner: i32) -> (r: bool)
        ensures
            r == self.wf(owner),
    {
        if self.units.len() > 0x7fff_ffff {
            return false;
        }
        let mut i: usize = 0;
        while i < self.units.len()
            invariant
                i <= self.units@.len(),
                self.units@.len() <= i32::MAX,
                forall|j: int|
                    0 <= j < i ==> {
                        &&& (#[trigger] self@[j]).index == j
                        &&& self@[j].owner == owner
                        &&& self@[j].consistent()
                    },
            decreases self.units@.len() - i,
        {
            let unit = &self.units[i];
            if unit.index != i as i32 || unit.owner != owner || unit.alive != (unit.health_point > 0) {
                assert(!(self@[i as int].index == i && self@[i as int].owner == owner && self@[i as int].consistent()));
                return false;
            }
            i += 1;
        }
        true
    }

    /// Whether a live unit stands at `index`.
    pub fn is_occupied(&self, index: i32) -> (r: bool)
        ensures
            r == occupied(self@, index),
    {
        if index < 0 {
            return false;
        }
        let i: usize = index as usize;
        i < self.units.len() && self.units[i].alive
    }

    /// The card of the live unit at `index`.
    pub fn find_unit_id_by_index(&self, index: i32) -> (r: Option<i32>)
        ensures
            r == if occupied(self@, index) {
                Some(self@[index as int].card_id)
            } else {
                None
            },
    {
        if self.is_occupied(index) {
            Some(self.units[index as usize].card_id)
        } else {
            None
        }
    }

    /// The first free slot: the lowest index whose unit is dead, or the
    /// number of slots when every unit lives.
    pub fn first_free_index(&self) -> (r: usize)
        ensures
            r == first_free(self@),
            r <= self@.len(),
            r < self@.len() ==> !self@[r as int].alive,
            forall|j: int| 0 <= j < r ==> self@[j].alive,
    {
        let mut i: usize = 0;
        while i < self.units.len()
            invariant
                i <= self.units@.len(),
                first_free(self@) == first_free_from(self@, i as int),
                forall|j: int| 0 <= j < i ==> self@[j].alive,
            decreases self.units@.len() - i,
        {
            if !self.units[i].alive {
                return i;
            }
            i += 1;
        }
        i
    }

    /// Places the card `card_id` as a fresh unit of `owner` at the first free
    /// slot and returns that slot's index. Nothing is placed, and `None`
    /// returned, only when no index is left for a further slot.
    pub fn add_unit_to_game_field(
        &mut self,
        card_id: i32,
        owner: i32,
        stats: &UnitStats,
        round: i32,
    ) -> (r: Option<i32>)
        requires
            old(self).wf(owner),
        ensures
            0 <= first_free(old(self)@) <= old(self)@.len(),
            r.is_some() == (first_free(old(self)@) < i32::MAX),
            r.is_none() ==> final(self)@ == old(self)@,
            r.is_some() ==> {
                &&& r.unwrap() == first_free(old(self)@)
                &&& final(self)@ == placed(
                    old(self)@,
                    first_free(old(self)@),
                    fresh_unit(card_id, owner, r.unwrap(), *stats, round),
                )
            },
    {
        let slot = self.first_free_index();
        if slot >= 0x7fff_ffff {
            return None;
        }
        let index: i32 = slot as i32;
        let unit = FieldUnit {
            card_id,
            owner,
            index,
            race: stats.race,
            grade: stats.grade,
            attack_point: stats.attack_point,
            health_point: stats.health_point,
            max_health_point: stats.health_point,
            required_energy: stats.required_energy,
            has_first_passive_skill: stats.has_first_passive_skill,
            has_second_passive_skill: stats.has_second_passive_skill,
            has_third_passive_skill: stats.has_third_passive_skill,
            passive_status_list: stats.passive_status_list.clone(),
            extra_status_effect_list: Vec::new(),
            harmful_status_list: Vec::new(),
            attached_energy_list: Vec::new(),
            deployed_round: round,
            turn_action_used: false,
            alive: stats.health_point > 0,
        };
        assert(unit.passive_status_list@ =~= stats.passive_status_list@);
        assert(unit@ == fresh_unit(card_id, owner, index, *stats, round));
        if slot < self.units.len() {
            self.units[slot] = unit;
            assert(self@ =~= old(self)@.update(slot as int, unit@));
        } else {
            self.units.push(unit);
            assert(self@ =~= old(self)@.push(unit@));
        }
        Some(index)
    }

    /// Takes `damage` from the health of the live unit at `index`. Returns
    /// whether there was one.
    pub(crate) fn apply_damage_to_target_unit_index(&mut self, index: i32, damage: i32) -> (r: bool)
        ensures
            r == occupied(old(self)@, index),
            r ==> final(self)@ == old(self)@.update(index as int, old(self)@[index as int].damaged(damage)),
            !r ==> final(self)@ == old(self)@,
    {
        if !self.is_occupied(index) {
            return false;
        }
        let i: usize = index as usize;
        self.units[i].apply_damage(damage);
        assert(self@ =~= old(self)@.update(index as int, old(self)@[index as int].damaged(damage)));
        true
    }

    /// Deals the live unit at `index` a blow of `damage` that carries
    /// `effects`. Returns whether there was one.
    pub(crate) fn attack_target_unit_with_extra_effect(
        &mut self,
        index: i32,
        damage: i32,
        effects: &Vec<ExtraStatusEffect>,
    ) -> (r: bool)
        ensures
            r == occupied(old(self)@, index),
            r ==> final(self)@ == old(self)@.update(
                index as int,
                old(self)@[index as int].struck(damage, effects@),
            ),
            !r ==> final(self)@ == old(self)@,
    {
        if !self.is_occupied(index) {
            return false;
        }
        let i: usize = index as usize;
        self.units[i].take_attack(damage, effects);
        assert(self@ =~= old(self)@.update(
            index as int,
            old(self)@[index as int].struck(damage, effects@),
        ));
        true
    }

    /// Adds `effect` to those the blows of the live unit at `index` carry.
    /// Returns whether there was one.
    pub fn attach_extra_effect_to_unit(&mut self, index: i32, effect: ExtraStatusEffect) -> (r: bool)
        ensures
            r == occupied(old(self)@, index),
            r ==> final(self)@ == old(self)@.update(index as int, old(self)@[index as int].empowered(effect)),
            !r ==> final(self)@ == old(self)@,
    {
        if !self.is_occupied(index) {
            return false;
        }
        let i: usize = index as usize;
        self.units[i].attach_extra_effect(effect);
        assert(self@ =~= old(self)@.update(index as int, old(self)@[index as int].empowered(effect)));
        true
    }

    /// Strikes the live unit at `index` dead. Returns whether there was one.
    pub(crate) fn apply_instant_death_to_target_unit_index(&mut self, index: i32) -> (r: bool)
        ensures
            r == occupied(old(self)@, index),
            r ==> final(self)@ == old(self)@.update(index as int, old(self)@[index as int].slain()),
            !r ==> final(self)@ == old(self)@,
    {
        if !self.is_occupied(index) {
            return false;
        }
        let i: usize = index as usize;
        self.units[i].strike_dead();
        assert(self@ =~= old(self)@.update(index as int, old(self)@[index as int].slain()));
        true
    }

    /// Records that the live unit at `index` has used its action of this
    /// turn. Returns whether there was one.
    pub fn execute_turn_action(&mut self, index: i32) -> (r: bool)
        ensures
            r == occupied(old(self)@, index),
            r ==> final(self)@ == old(self)@.update(index as int, old(self)@[index as int].acted()),
            !r ==> final(self)@ == old(self)@,
    {
        if !self.is_occupied(index) {
            return false;
        }
        let i: usize = index as usize;
        self.units[i].execute_turn_action();
        assert(self@ =~= old(self)@.update(index as int, old(self)@[index as int].acted()));
        true
    }

    /// Judges the death of the unit in the slot `index`: a unit that was alive
    /// and has no health left dies, and its card id is returned. In every
    /// other case, that of a unit already dead too, nothing changes and
    /// `None` is returned.
    pub fn judge_death_of_unit(&mut self, index: i32) -> (r: Option<i32>)
        ensures
            0 <= index < old(self)@.len() ==> {
                &&& r == old(self)@[index as int].death_report()
                &&& final(self)@ == old(self)@.update(index as int, old(self)@[index as int].judged())
            },
            !(0 <= index < old(self)@.len()) ==> r.is_none() && final(self)@ == old(self)@,
    {
        if index < 0 {
            return None;
        }
        let i: usize = index as usize;
        if i >= self.units.len() {
            return None;
        }
        let r = self.units[i].judge_death();
        assert(self@ =~= old(self)@.update(index as int, old(self)@[index as int].judged()));
        r
    }

    /// Deals every live unit a blow of `damage` that carries `effects`; with
    /// `spare_immune`, units with physical immunity are passed over.
    pub(crate) fn strike_every_unit(&mut self, damage: i32, effects: &Vec<ExtraStatusEffect>, spare_immune: bool)
        ensures
            final(self)@ == all_struck(old(self)@, damage, effects@, spare_immune),
    {
        let mut i: usize = 0;
        while i < self.units.len()
            invariant
                i <= self.units@.len(),
                self@.len() == old(self)@.len(),
                forall|j: int|
                    0 <= j < i ==> self@[j] == all_struck(old(self)@, damage, effects@, spare_immune)[j],
                forall|j: int| i <= j < self@.len() ==> self@[j] == old(self)@[j],
            decreases self.units@.len() - i,
        {
            let ghost before = self@;
            if self.units[i].alive {
                let immune = self.units[i].has_physical_immunity();
                if !(spare_immune && immune) {
                    self.units[i].take_attack(damage, effects);
                }
            }
            assert(self@ =~= before.update(i as int, self@[i as int]));
            i += 1;
        }
        assert(self@ =~= all_struck(old(self)@, damage, effects@, spare_immune));
    }

    /// Judges the death of every unit and returns the cards of those that
    /// die, in the order of their indices.
    pub fn judge_death_of_every_unit(&mut self) -> (r: Vec<i32>)
        ensures
            final(self)@ == all_judged(old(self)@),
            r@ == doomed_cards(old(self)@),
    {
        let mut dead: Vec<i32> = Vec::new();
        let mut i: usize = 0;
        while i < self.units.len()
            invariant
                i <= self.units@.len(),
                self@.len() == old(self)@.len(),
                forall|j: int| 0 <= j < i ==> self@[j] == old(self)@[j].judged(),
                forall|j: int| i <= j < self@.len() ==> self@[j] == old(self)@[j],
                dead@ == doomed_cards(old(self)@.take(i as int)),
            decreases self.units@.len() - i,
        {
            let ghost before = self@;
            let report = self.units[i].judge_death();
            assert(self@ =~= before.update(i as int, self@[i as int]));
            proof {
                lemma_doomed_step(old(self)@, i as int);
            }
            match report {
                Some(card_id) => {
                    dead.push(card_id);
                },
                None => {},
            }
            i += 1;
        }
        assert(old(self)@.take(i as int) =~= old(self)@);
        assert(self@ =~= all_judged(old(self)@));
        dead
    }

    /// The indices of the units that a blow on every unit reaches, lowest
    /// first: the live units, with `spare_immune` but for those with physical
    /// immunity.
    pub fn exposed_unit_indices(&self, spare_immune: bool) -> (r: Vec<i32>)
        requires
            self@.len() <= i32::MAX,
            forall|i: int| 0 <= i < self@.len() ==> (#[trigger] self@[i]).index == i,
        ensures
            r@ == exposed_indices(self@, spare_immune),
    {
        let mut found: Vec<i32> = Vec::new();
        let mut i: usize = 0;
        while i < self.units.len()
            invariant
                i <= self.units@.len(),
                self@.len() <= i32::MAX,
                forall|i: int| 0 <= i < self@.len() ==> (#[trigger] self@[i]).index == i,
                found@ == exposed_indices(self@.take(i as int), spare_immune),
            decreases self.units@.len() - i,
        {
            proof {
                lemma_exposed_step(self@, spare_immune, i as int);
            }
            if self.units[i].alive {
                let immune = self.units[i].has_physical_immunity();
                if !(spare_immune && immune) {
                    found.push(i as i32);
                }
            }
            i += 1;
        }
        assert(self@.take(i as int) =~= self@);
        found
    }

    /// Lets the harmful statuses of every live unit deal their damage and age
    /// by a turn. Death is judged separately.
    pub(crate) fn apply_status_effect_damage_iteratively(&mut self)
        ensures
            final(self)@ == all_ticked(old(self)@),
    {
        let mut i: usize = 0;
        while i < self.units.len()
            invariant
                i <= self.units@.len(),
                self@.len() == old(self)@.len(),
                forall|j: int| 0 <= j < i ==> self@[j] == all_ticked(old(self)@)[j],
                forall|j: int| i <= j < self@.len() ==> self@[j] == old(self)@[j],
            decreases self.units@.len() - i,
        {
            let ghost before = self@;
            if self.units[i].alive {
                self.units[i].apply_status_effect_damage();
            }
            assert(self@ =~= before.update(i as int, self@[i as int]));
            i += 1;
        }
        assert(self@ =~= all_ticked(old(self)@));
    }

    /// Gives every unit its action back.
    pub fn reset_turn_action_of_every_unit(&mut self)
        ensures
            final(self)@ == all_refreshed(old(self)@),
    {
        let mut i: usize = 0;
        while i < self.units.len()
            invariant
                i <= self.units@.len(),
                self@.len() == old(self)@.len(),
                forall|j: int| 0 <= j < i ==> self@[j] == old(self)@[j].refreshed(),
                forall|j: int| i <= j < self@.len() ==> self@[j] == old(self)@[j],
            decreases self.units@.len() - i,
        {
            let ghost before = self@;
            self.units[i].reset_turn_action();
            assert(self@ =~= before.update(i as int, self@[i as int]));
            i += 1;
        }
        assert(self@ =~= all_refreshed(old(self)@));
    }

    /// The extra effects that the blows of the unit in the slot `index`
    /// carry; none where there is no such slot.
    pub fn acquire_unit_extra_effect(&self, index: i32) -> (r: Vec<ExtraStatusEffect>)
        ensures
            r@ == if 0 <= index < self@.len() {
                self@[index as int].extra_effects
            } else {
                Seq::empty()
            },
    {
        if index < 0 || index as usize >= self.units.len() {
            return Vec::new();
        }
        copy_effects(&self.units[index as usize].extra_status_effect_list)
    }

    /// The kinds of the statuses that harm the unit in the slot `index`; none
    /// where there is no such slot.
    pub fn acquire_unit_harmful_status_effect(&self, index: i32) -> (r: Vec<ExtraEffect>)
        ensures
            r@ == if 0 <= index < self@.len() {
                crate::unit::kinds_of(self@[index as int].harmful_statuses)
            } else {
                Seq::empty()
            },
    {
        if index < 0 || index as usize >= self.units.len() {
            return Vec::new();
        }
        self.units[index as usize].harmful_effect_kinds()
    }
}

/// One more slot taken into account adds its unit to the doomed ones exactly
/// when that unit is doomed.
pub proof fn lemma_doomed_step(field: Seq<UnitModel>, i: int)
    requires
        0 <= i < field.len(),
    ensures
        doomed_cards(field.take(i + 1)) == if field[i].doomed() {
            doomed_cards(field.take(i)).push(field[i].card_id)
        } else {
            doomed_cards(field.take(i))
        },
{
    let pred = |u: UnitModel| u.doomed();
    assert(field.take(i + 1) =~= field.take(i).push(field[i]));
    field.take(i).lemma_filter_push(field[i], pred);
    let kept = field.take(i).filter(pred);
    if field[i].doomed() {
        assert(field.take(i + 1).filter(pred) == kept.push(field[i]));
        assert(kept.push(field[i]).map_values(|u: UnitModel| u.card_id) =~= kept.map_values(
            |u: UnitModel| u.card_id,
        ).push(field[i].card_id));
    } else {
        assert(field.take(i + 1).filter(pred) == kept);
    }
}

/// One more slot taken into account adds its index to the exposed ones
/// exactly when its unit is exposed.
pub proof fn lemma_exposed_step(field: Seq<UnitModel>, spare_immune: bool, i: int)
    requires
        0 <= i < field.len(),
    ensures
        exposed_indices(field.take(i + 1), spare_immune) == if exposed(field[i], spare_immune) {
            exposed_indices(field.take(i), spare_immune).push(field[i].index)
        } else {
            exposed_indices(field.take(i), spare_immune)
        },
{
    let pred = |u: UnitModel| exposed(u, spare_immune);
    assert(field.take(i + 1) =~= field.take(i).push(field[i]));
    field.take(i).lemma_filter_push(field[i], pred);
    let kept = field.take(i).filter(pred);
    if exposed(field[i], spare_immune) {
        assert(field.take(i + 1).filter(pred) == kept.push(field[i]));
        assert(kept.push(field[i]).map_values(|u: UnitModel| u.index) =~= kept.map_values(
            |u: UnitModel| u.index,
        ).push(field[i].index));
    } else {
        assert(field.take(i + 1).filter(pred) == kept);
    }
}

} // verus!
