//! What a player is shown of a change on the field: health, harmful statuses,
//! deaths, survival and attached energy, each by unit index and by the side
//! of the field as the receiving player sees it.

use std::collections::HashMap;
use vstd::prelude::*;
use crate::card::ExtraEffect;
use crate::unit::AttachedEnergy;

verus! {

/// A side of the field, as the player who is told sees it.
#[derive(Clone, Copy, Debug, PartialEq, Eq, Hash, Structural)]
pub enum PlayerIndex {
    You,
    Opponent,
}

/// At most one value for each side of the field.
#[derive(Clone, Debug, PartialEq, Eq)]
pub struct PlayerIndexMap<T> {
    pub you: Option<T>,
    pub opponent: Option<T>,
}

impl<T> PlayerIndexMap<T> {
    /// The value for `index`, if there is one.
    pub open spec fn value(self, index: PlayerIndex) -> Option<T> {
        match index {
            PlayerIndex::You => self.you,
            PlayerIndex::Opponent => self.opponent,
        }
    }

    /// The number of sides that have a value.
    pub open spec fn count(self) -> nat {
        (if self.you.is_some() {
            1nat
        } else {
            0nat
        }) + (if self.opponent.is_some() {
            1nat
        } else {
            0nat
        })
    }

    /// A map without values.
    pub fn new() -> (r: Self)
        ensures
            r.you.is_none(),
            r.opponent.is_none(),
    {
        PlayerIndexMap { you: None, opponent: None }
    }

    /// A map with the one value `value`, for `index`.
    pub fn single(index: PlayerIndex, value: T) -> (r: Self)
        ensures
            r.value(index) == Some(value),
            r.count() == 1,
    {
        match index {
            PlayerIndex::You => PlayerIndexMap { you: Some(value), opponent: None },
            PlayerIndex::Opponent => PlayerIndexMap { you: None, opponent: Some(value) },
        }
    }

    /// Sets the value for `index`, in place of the one it had.
    pub fn insert(&mut self, index: PlayerIndex, value: T)
        ensures
            final(self).value(index) == Some(value),
            forall|other: PlayerIndex| other != index ==> final(self).value(other) == old(self).value(other),
    {
        match index {
            PlayerIndex::You => {
                self.you = Some(value);
            },
            PlayerIndex::Opponent => {
                self.opponent = Some(value);
            },
        }
    }

    /// The value for `index`, if there is one.
    pub fn get(&self, index: PlayerIndex) -> (r: Option<&T>)
        ensures
            r.is_some() == self.value(index).is_some(),
            r.is_some() ==> *r.unwrap() == self.value(index).unwrap(),
    {
        match index {
            PlayerIndex::You => self.you.as_ref(),
            PlayerIndex::Opponent => self.opponent.as_ref(),
        }
    }

    /// The number of sides that have a value.
    pub fn len(&self) -> (r: usize)
        ensures
            r == self.count(),
    {
        let mut n: usize = 0;
        if self.you.is_some() {
            n += 1;
        }
        if self.opponent.is_some() {
            n += 1;
        }
        n
    }
}

/// The health of units, by unit index.
#[derive(Clone, Debug, PartialEq, Eq)]
pub struct FieldUnitHealthPointInfo {
    pub field_unit_health_point_map: HashMap<i32, i32>,
}

/// The kinds of the statuses that harm units, by unit index.
#[derive(Clone, Debug, PartialEq, Eq)]
pub struct FieldUnitHarmfulStatusInfo {
    pub field_unit_harmful_status_map: HashMap<i32, Vec<ExtraEffect>>,
}

/// The indices of units that died.
#[derive(Clone, Debug, PartialEq, Eq)]
pub struct FieldUnitDeathInfo {
    pub dead_field_unit_index_list: Vec<i32>,
}

/// Whether units live, by unit index.
#[derive(Clone, Debug, PartialEq, Eq)]
pub struct FieldUnitSurvivalInfo {
    pub field_unit_survival_map: HashMap<i32, bool>,
}

/// The energy attached to units, by unit index.
#[derive(Clone, Debug, PartialEq, Eq)]
pub struct FieldUnitEnergyInfo {
    pub field_unit_energy_map: HashMap<i32, Vec<AttachedEnergy>>,
}

/// The health that a list of pairs of index and health gives each index; a
/// later pair for an index replaces an earlier one.
pub open spec fn health_map_of(pairs: Seq<(i32, i32)>) -> Map<i32, i32>
    decreases pairs.len(),
{
    if pairs.len() == 0 {
        Map::empty()
    } else {
        health_map_of(pairs.drop_last()).insert(pairs.last().0, pairs.last().1)
    }
}

/// The kinds of harmful statuses that a list of pairs of index and kinds gives
/// each index; a later pair for an index replaces an earlier one.
pub open spec fn harmful_map_of(pairs: Seq<(i32, Vec<ExtraEffect>)>) -> Map<i32, Seq<ExtraEffect>>
    decreases pairs.len(),
{
    if pairs.len() == 0 {
        Map::empty()
    } else {
        harmful_map_of(pairs.drop_last()).insert(pairs.last().0, pairs.last().1@)
    }
}

impl FieldUnitHealthPointInfo {
    pub open spec fn view(&self) -> Map<i32, i32> {
        self.field_unit_health_point_map@
    }

    pub fn new(field_unit_health_point_map: HashMap<i32, i32>) -> (r: Self)
        ensures
            r.field_unit_health_point_map == field_unit_health_point_map,
    {
        FieldUnitHealthPointInfo { field_unit_health_point_map }
    }

    /// The health kept for the unit at `index`, if any.
    pub fn get_health_point(&self, index: i32) -> (r: Option<i32>)
        ensures
            r == if self@.contains_key(index) {
                Some(self@[index])
            } else {
                None
            },
    {
        broadcast use vstd::std_specs::hash::group_hash_axioms;

        match self.field_unit_health_point_map.get(&index) {
            Some(health) => Some(*health),
            None => None,
        }
    }

    /// The number of units whose health is kept.
    pub fn len(&self) -> (r: usize)
        ensures
            r == self@.len(),
    {
        self.field_unit_health_point_map.len()
    }
}

impl FieldUnitHarmfulStatusInfo {
    /// The kinds of harmful statuses by unit index.
    pub open spec fn view(&self) -> Map<i32, Seq<ExtraEffect>> {
        self.field_unit_harmful_status_map@.map_values(|kinds: Vec<ExtraEffect>| kinds@)
    }

    pub fn new(field_unit_harmful_status_map: HashMap<i32, Vec<ExtraEffect>>) -> (r: Self)
        ensures
            r.field_unit_harmful_status_map == field_unit_harmful_status_map,
    {
        FieldUnitHarmfulStatusInfo { field_unit_harmful_status_map }
    }

    /// The number of units whose harmful statuses are kept.
    pub fn len(&self) -> (r: usize)
        ensures
            r == self@.len(),
    {
        proof {
            assert(self@.dom() =~= self.field_unit_harmful_status_map@.dom());
        }
        self.field_unit_harmful_status_map.len()
    }
}

impl FieldUnitDeathInfo {
    pub open spec fn view(&self) -> Seq<i32> {
        self.dead_field_unit_index_list@
    }

    pub fn new(dead_field_unit_index_list: Vec<i32>) -> (r: Self)
        ensures
            r.dead_field_unit_index_list == dead_field_unit_index_list,
    {
        FieldUnitDeathInfo { dead_field_unit_index_list }
    }

    /// The number of deaths kept.
    pub fn len(&self) -> (r: usize)
        ensures
            r == self@.len(),
    {
        self.dead_field_unit_index_list.len()
    }
}

impl FieldUnitSurvivalInfo {
    pub open spec fn view(&self) -> Map<i32, bool> {
        self.field_unit_survival_map@
    }

    pub fn new(field_unit_survival_map: HashMap<i32, bool>) -> (r: Self)
        ensures
            r.field_unit_survival_map == field_unit_survival_map,
    {
        FieldUnitSurvivalInfo { field_unit_survival_map }
    }
}

impl FieldUnitEnergyInfo {
    /// The attached energy by unit index.
    pub open spec fn view(&self) -> Map<i32, Seq<AttachedEnergy>> {
        self.field_unit_energy_map@.map_values(|energy: Vec<AttachedEnergy>| energy@)
    }

    pub fn new(field_unit_energy_map: HashMap<i32, Vec<AttachedEnergy>>) -> (r: Self)
        ensures
            r.field_unit_energy_map == field_unit_energy_map,
    {
        FieldUnitEnergyInfo { field_unit_energy_map }
    }
}

/// Turns a list of pairs of unit index and health into a table by index.
pub fn health_point_info_of(pairs: &Vec<(i32, i32)>) -> (r: FieldUnitHealthPointInfo)
    ensures
        r@ == health_map_of(pairs@),
{
    broadcast use vstd::std_specs::hash::group_hash_axioms;

    let mut table: HashMap<i32, i32> = HashMap::new();
    let mut i: usize = 0;
    while i < pairs.len()
        invariant
            i <= pairs@.len(),
            table@ == health_map_of(pairs@.take(i as int)),
        decreases pairs@.len() - i,
    {
        assert(pairs@.take(i + 1).drop_last() =~= pairs@.take(i as int));
        let pair = pairs[i];
        table.insert(pair.0, pair.1);
        i += 1;
    }
    assert(pairs@.take(i as int) =~= pairs@);
    FieldUnitHealthPointInfo { field_unit_health_point_map: table }
}

/// Turns a list of pairs of unit index and kinds of harmful statuses into a
/// table by index.
pub fn harmful_status_info_of(pairs: &Vec<(i32, Vec<ExtraEffect>)>) -> (r: FieldUnitHarmfulStatusInfo)
    ensures
        r@ == harmful_map_of(pairs@),
{
    broadcast use vstd::std_specs::hash::group_hash_axioms;

    let mut table: HashMap<i32, Vec<ExtraEffect>> = HashMap::new();
    let mut i: usize = 0;
    assert(table@.map_values(|kinds: Vec<ExtraEffect>| kinds@) =~= harmful_map_of(pairs@.take(0)));
    while i < pairs.len()
        invariant
            i <= pairs@.len(),
            table@.map_values(|kinds: Vec<ExtraEffect>| kinds@) == harmful_map_of(pairs@.take(i as int)),
        decreases pairs@.len() - i,
    {
        assert(pairs@.take(i + 1).drop_last() =~= pairs@.take(i as int));
        let ghost before = table@;
        let kinds = pairs[i].1.clone();
        assert(kinds@ =~= pairs@[i as int].1@);
        table.insert(pairs[i].0, kinds);
        assert(table@.map_values(|kinds: Vec<ExtraEffect>| kinds@) =~= before.map_values(
            |kinds: Vec<ExtraEffect>| kinds@,
        ).insert(pairs@[i as int].0, pairs@[i as int].1@));
        i += 1;
    }
    assert(pairs@.take(i as int) =~= pairs@);
    FieldUnitHarmfulStatusInfo { field_unit_harmful_status_map: table }
}

} // verus!
