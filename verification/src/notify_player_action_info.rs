//! What the opponent is told when a player uses a card from the hand: the
//! card, its kind, and what it changed. Each function reads the match and
//! makes the notice; sending it is the caller's part.

use std::collections::HashMap;
use vstd::prelude::*;
use crate::battle::{Battle, BattleModel, PlayerState};
use crate::card::{CardCatalog, CardKind};
use crate::notify::names_slot;
use crate::ui_data::{FieldUnitEnergyInfo, FieldUnitHealthPointInfo, FieldUnitSurvivalInfo};
use crate::unit::{AttachedEnergy, UnitModel};

verus! {

/// The card that was used, with its kind.
#[derive(Clone, Copy, Debug, PartialEq, Eq, Structural)]
pub struct UsedHandCard {
    pub card_id: i32,
    pub kind: CardKind,
}

/// A card was used, and cards were drawn, found or spent with it.
#[derive(Debug)]
pub struct NoticeCardList {
    pub opponent_unique_id: i32,
    pub used_hand_card: UsedHandCard,
    pub card_list: Vec<i32>,
}

/// A card was used, and the opponent's field energy is now this.
#[derive(Debug)]
pub struct NoticeFieldEnergy {
    pub opponent_unique_id: i32,
    pub used_hand_card: UsedHandCard,
    pub remaining_field_energy: i32,
}

/// A card was used, and the energy attached to a unit is now this.
#[derive(Debug)]
pub struct NoticeUnitEnergy {
    pub opponent_unique_id: i32,
    pub used_hand_card: UsedHandCard,
    pub found_energy_card_id_list: Vec<i32>,
    pub field_unit_energy_info: FieldUnitEnergyInfo,
}

/// A card was used, and health and survival of units are now these.
#[derive(Debug)]
pub struct NoticeUnitDamage {
    pub opponent_unique_id: i32,
    pub used_hand_card: UsedHandCard,
    pub field_unit_health_point_info: FieldUnitHealthPointInfo,
    pub field_unit_survival_info: FieldUnitSurvivalInfo,
}

/// A card was used, and a unit died of it.
#[derive(Debug)]
pub struct NoticeUnitDeath {
    pub opponent_unique_id: i32,
    pub used_hand_card: UsedHandCard,
    pub field_unit_survival_info: FieldUnitSurvivalInfo,
}

/// The health of every unit of the field, by index.
pub open spec fn whole_field_health(field: Seq<UnitModel>) -> Map<i32, i32> {
    Map::new(|i: i32| names_slot(field, i), |i: i32| field[i as int].health_point)
}

/// Whether each unit of the field lives, by index.
pub open spec fn whole_field_survival(field: Seq<UnitModel>) -> Map<i32, bool> {
    Map::new(|i: i32| names_slot(field, i), |i: i32| field[i as int].alive)
}

/// The used card as the catalog knows it.
pub fn used_hand_card(catalog: &CardCatalog, used_hand_card_id: i32) -> (r: UsedHandCard)
    ensures
        r == (UsedHandCard { card_id: used_hand_card_id, kind: catalog.kind_of(used_hand_card_id) }),
{
    UsedHandCard { card_id: used_hand_card_id, kind: catalog.card_kind(used_hand_card_id) }
}

impl BattleModel {
    /// `account` takes part and `unit_index` names a slot of its field.
    pub open spec fn has_slot(self, account: i32, unit_index: i32) -> bool {
        self.has(account) && names_slot(self.me(account).field, unit_index)
    }
}

impl PlayerState {
    /// The energy attached to the unit in the slot `unit_index`, under that
    /// index.
    pub fn energy_info_of_unit(&self, unit_index: i32) -> (r: FieldUnitEnergyInfo)
        requires
            names_slot(self@.field, unit_index),
        ensures
            r@ == Map::<i32, Seq<AttachedEnergy>>::empty().insert(
                unit_index,
                self@.field[unit_index as int].attached_energy,
            ),
    {
        broadcast use vstd::std_specs::hash::group_hash_axioms;

        let unit = &self.field.units[unit_index as usize];
        let attached = unit.attached_energy_list.clone();
        assert(attached@ =~= unit.attached_energy_list@);
        let mut table: HashMap<i32, Vec<AttachedEnergy>> = HashMap::new();
        table.insert(unit_index, attached);
        let info = FieldUnitEnergyInfo::new(table);
        assert(info@ =~= Map::<i32, Seq<AttachedEnergy>>::empty().insert(unit_index, attached@));
        info
    }
}

impl Battle {
    /// Whether `account` takes part and `unit_index` names a slot of its
    /// field.
    pub fn has_unit_slot(&self, account: i32, unit_index: i32) -> (r: bool)
        ensures
            r == self@.has_slot(account, unit_index),
    {
        self.is_participant(account) && unit_index >= 0 && (unit_index as usize) < self.player(
            account,
        ).field.units.len()
    }

    /// The notice that `account_unique_id` used the card `used_hand_card_id`
    /// to boost the energy of its unit in the slot `unit_index` with the
    /// energy cards `found_energy_card_id_list`: the energy now attached to
    /// that unit. There is none where the account takes no part or has no
    /// such slot.
    pub fn notice_boost_energy_to_specific_unit_by_using_hand_card(
        &self,
        catalog: &CardCatalog,
        account_unique_id: i32,
        used_hand_card_id: i32,
        found_energy_card_id_list: Vec<i32>,
        unit_index: i32,
    ) -> (r: Option<NoticeUnitEnergy>)
        ensures
            r.is_some() == self@.has_slot(account_unique_id, unit_index),
            r.is_some() ==> {
                &&& r.unwrap().opponent_unique_id == self@.foe(account_unique_id).account
                &&& r.unwrap().used_hand_card == (UsedHandCard {
                    card_id: used_hand_card_id,
                    kind: catalog.kind_of(used_hand_card_id),
                })
                &&& r.unwrap().found_energy_card_id_list == found_energy_card_id_list
                &&& r.unwrap().field_unit_energy_info@ == Map::<i32, Seq<AttachedEnergy>>::empty().insert(
                    unit_index,
                    self@.me(account_unique_id).field[unit_index as int].attached_energy,
                )
            },
    {
        if !self.has_unit_slot(account_unique_id, unit_index) {
            return None;
        }
        Some(
            NoticeUnitEnergy {
                opponent_unique_id: self.opponent(account_unique_id).account_unique_id,
                used_hand_card: used_hand_card(catalog, used_hand_card_id),
                found_energy_card_id_list,
                field_unit_energy_info: self.player(account_unique_id).energy_info_of_unit(unit_index),
            },
        )
    }

    /// The notice that `account_unique_id` used the card `used_hand_card_id`
    /// to attach energy to its unit in the slot `unit_index`: the energy now
    /// attached to that unit. There is none where the account takes no part
    /// or has no such slot.
    pub fn notice_attach_energy_to_specific_unit_by_using_hand_card(
        &self,
        catalog: &CardCatalog,
        account_unique_id: i32,
        used_hand_card_id: i32,
        unit_index: i32,
    ) -> (r: Option<NoticeUnitEnergy>)
        ensures
            r.is_some() == self@.has_slot(account_unique_id, unit_index),
            r.is_some() ==> {
                &&& r.unwrap().opponent_unique_id == self@.foe(account_unique_id).account
                &&& r.unwrap().used_hand_card == (UsedHandCard {
                    card_id: used_hand_card_id,
                    kind: catalog.kind_of(used_hand_card_id),
                })
                &&& r.unwrap().found_energy_card_id_list@ == Seq::<i32>::empty()
                &&& r.unwrap().field_unit_energy_info@ == Map::<i32, Seq<AttachedEnergy>>::empty().insert(
                    unit_index,
                    self@.me(account_unique_id).field[unit_index as int].attached_energy,
                )
            },
    {
        self.notice_boost_energy_to_specific_unit_by_using_hand_card(
            catalog,
            account_unique_id,
            used_hand_card_id,
            Vec::new(),
            unit_index,
        )
    }

    /// The notice that `account_unique_id` used the card `used_hand_card_id`
    /// to take energy from the opponent's unit in the slot `unit_index`: the
    /// energy now attached to that unit. There is none where the account
    /// takes no part or the opponent has no such slot.
    pub fn notice_remove_energy_of_specific_unit_by_using_hand_card(
        &self,
        catalog: &CardCatalog,
        account_unique_id: i32,
        used_hand_card_id: i32,
        unit_index: i32,
    ) -> (r: Option<NoticeUnitEnergy>)
        ensures
            r.is_some() == (self@.has(account_unique_id) && names_slot(
                self@.foe(account_unique_id).field,
                unit_index,
            )),
            r.is_some() ==> {
                &&& r.unwrap().opponent_unique_id == self@.foe(account_unique_id).account
                &&& r.unwrap().used_hand_card == (UsedHandCard {
                    card_id: used_hand_card_id,
                    kind: catalog.kind_of(used_hand_card_id),
                })
                &&& r.unwrap().found_energy_card_id_list@ == Seq::<i32>::empty()
                &&& r.unwrap().field_unit_energy_info@ == Map::<i32, Seq<AttachedEnergy>>::empty().insert(
                    unit_index,
                    self@.foe(account_unique_id).field[unit_index as int].attached_energy,
                )
            },
    {
        if !self.is_participant(account_unique_id) {
            return None;
        }
        let opponent = self.opponent(account_unique_id);
        if unit_index < 0 || unit_index as usize >= opponent.field.units.len() {
            return None;
        }
        Some(
            NoticeUnitEnergy {
                opponent_unique_id: opponent.account_unique_id,
                used_hand_card: used_hand_card(catalog, used_hand_card_id),
                found_energy_card_id_list: Vec::new(),
                field_unit_energy_info: opponent.energy_info_of_unit(unit_index),
            },
        )
    }

    /// The notice that `account_unique_id` used the card `used_hand_card_id`
    /// and drew `drawn_card_list`. There is none where the account takes no
    /// part.
    pub fn notice_draw_card_by_using_hand_card(
        &self,
        catalog: &CardCatalog,
        account_unique_id: i32,
        used_hand_card_id: i32,
        drawn_card_list: Vec<i32>,
    ) -> (r: Option<NoticeCardList>)
        ensures
            r.is_some() == self@.has(account_unique_id),
            r.is_some() ==> {
                &&& r.unwrap().opponent_unique_id == self@.foe(account_unique_id).account
                &&& r.unwrap().used_hand_card == (UsedHandCard {
                    card_id: used_hand_card_id,
                    kind: catalog.kind_of(used_hand_card_id),
                })
                &&& r.unwrap().card_list == drawn_card_list
            },
    {
        if !self.is_participant(account_unique_id) {
            return None;
        }
        Some(
            NoticeCardList {
                opponent_unique_id: self.opponent(account_unique_id).account_unique_id,
                used_hand_card: used_hand_card(catalog, used_hand_card_id),
                card_list: drawn_card_list,
            },
        )
    }

    /// The notice that `account_unique_id` used the card `used_hand_card_id`
    /// and found `found_card_list` in its deck. There is none where the
    /// account takes no part.
    pub fn notice_search_card_by_using_hand_card(
        &self,
        catalog: &CardCatalog,
        account_unique_id: i32,
        used_hand_card_id: i32,
        found_card_list: Vec<i32>,
    ) -> (r: Option<NoticeCardList>)
        ensures
            r.is_some() == self@.has(account_unique_id),
            r.is_some() ==> {
                &&& r.unwrap().opponent_unique_id == self@.foe(account_unique_id).account
                &&& r.unwrap().used_hand_card == (UsedHandCard {
                    card_id: used_hand_card_id,
                    kind: catalog.kind_of(used_hand_card_id),
                })
                &&& r.unwrap().card_list == found_card_list
            },
    {
        self.notice_draw_card_by_using_hand_card(catalog, account_unique_id, used_hand_card_id, found_card_list)
    }

    /// The notice that `account_unique_id` used the card `used_hand_card_id`
    /// to take field energy from the opponent: the field energy the opponent
    /// has left. There is none where the account takes no part.
    pub fn notice_remove_field_energy_by_using_hand_card(
        &self,
        catalog: &CardCatalog,
        account_unique_id: i32,
        used_hand_card_id: i32,
    ) -> (r: Option<NoticeFieldEnergy>)
        ensures
            r.is_some() == self@.has(account_unique_id),
            r.is_some() ==> r.unwrap() == (NoticeFieldEnergy {
                opponent_unique_id: self@.foe(account_unique_id).account,
                used_hand_card: UsedHandCard {
                    card_id: used_hand_card_id,
                    kind: catalog.kind_of(used_hand_card_id),
                },
                remaining_field_energy: self@.foe(account_unique_id).energy,
            }),
    {
        if !self.is_participant(account_unique_id) {
            return None;
        }
        let opponent = self.opponent(account_unique_id);
        Some(
            NoticeFieldEnergy {
                opponent_unique_id: opponent.account_unique_id,
                used_hand_card: used_hand_card(catalog, used_hand_card_id),
                remaining_field_energy: opponent.energy.get_energy_count(),
            },
        )
    }

    /// The notice that `account_unique_id` used the card `used_hand_card_id`
    /// to damage the opponent's unit in the slot `unit_index`: the health of
    /// that unit and whether it lives, and of no other unit anything. There
    /// is none where the account takes no part or the opponent has no such
    /// slot.
    pub fn notice_apply_damage_to_specific_unit_by_using_hand_card(
        &self,
        catalog: &CardCatalog,
        account_unique_id: i32,
        used_hand_card_id: i32,
        unit_index: i32,
    ) -> (r: Option<NoticeUnitDamage>)
        ensures
            r.is_some() == (self@.has(account_unique_id) && names_slot(
                self@.foe(account_unique_id).field,
                unit_index,
            )),
            r.is_some() ==> {
                &&& r.unwrap().opponent_unique_id == self@.foe(account_unique_id).account
                &&& r.unwrap().used_hand_card == (UsedHandCard {
                    card_id: used_hand_card_id,
                    kind: catalog.kind_of(used_hand_card_id),
                })
                &&& r.unwrap().field_unit_health_point_info@ == Map::<i32, i32>::empty().insert(
                    unit_index,
                    self@.foe(account_unique_id).field[unit_index as int].health_point,
                )
                &&& r.unwrap().field_unit_survival_info@ == Map::<i32, bool>::empty().insert(
                    unit_index,
                    self@.foe(account_unique_id).field[unit_index as int].alive,
                )
            },
    {
        broadcast use vstd::std_specs::hash::group_hash_axioms;

        if !self.is_participant(account_unique_id) {
            return None;
        }
        let opponent = self.opponent(account_unique_id);
        if unit_index < 0 || unit_index as usize >= opponent.field.units.len() {
            return None;
        }
        let unit = &opponent.field.units[unit_index as usize];
        let mut field_unit_health_point_map: HashMap<i32, i32> = HashMap::new();
        field_unit_health_point_map.insert(unit_index, unit.health_point);
        let mut field_unit_survival_map: HashMap<i32, bool> = HashMap::new();
        field_unit_survival_map.insert(unit_index, unit.alive);
        Some(
            NoticeUnitDamage {
                opponent_unique_id: opponent.account_unique_id,
                used_hand_card: used_hand_card(catalog, used_hand_card_id),
                field_unit_health_point_info: FieldUnitHealthPointInfo::new(field_unit_health_point_map),
                field_unit_survival_info: FieldUnitSurvivalInfo::new(field_unit_survival_map),
            },
        )
    }

    /// The notice that `account_unique_id` used the card `used_hand_card_id`
    /// to damage every unit of the opponent: the health of each unit of the
    /// opponent and whether it lives. There is none where the account takes
    /// no part.
    pub fn notice_apply_damage_to_every_unit_by_using_hand_card(
        &self,
        catalog: &CardCatalog,
        account_unique_id: i32,
        used_hand_card_id: i32,
    ) -> (r: Option<NoticeUnitDamage>)
        requires
            self.wf(),
        ensures
            r.is_some() == self@.has(account_unique_id),
            r.is_some() ==> {
                &&& r.unwrap().opponent_unique_id == self@.foe(account_unique_id).account
                &&& r.unwrap().used_hand_card == (UsedHandCard {
                    card_id: used_hand_card_id,
                    kind: catalog.kind_of(used_hand_card_id),
                })
                &&& r.unwrap().field_unit_health_point_info@ == whole_field_health(
                    self@.foe(account_unique_id).field,
                )
                &&& r.unwrap().field_unit_survival_info@ == whole_field_survival(
                    self@.foe(account_unique_id).field,
                )
            },
    {
        broadcast use vstd::std_specs::hash::group_hash_axioms;

        if !self.is_participant(account_unique_id) {
            return None;
        }
        let opponent = self.opponent(account_unique_id);
        let ghost field = opponent.field@;
        let mut field_unit_health_point_map: HashMap<i32, i32> = HashMap::new();
        let mut field_unit_survival_map: HashMap<i32, bool> = HashMap::new();
        let mut unit_index: usize = opponent.field.units.len();
        while unit_index > 0
            invariant
                unit_index <= opponent.field.units@.len(),
                field == opponent.field@,
                field.len() <= i32::MAX,
                field_unit_health_point_map@ =~= Map::new(
                    |i: i32| unit_index <= i < field.len(),
                    |i: i32| field[i as int].health_point,
                ),
                field_unit_survival_map@ =~= Map::new(
                    |i: i32| unit_index <= i < field.len(),
                    |i: i32| field[i as int].alive,
                ),
            decreases unit_index,
        {
            unit_index -= 1;
            let unit = &opponent.field.units[unit_index];
            field_unit_health_point_map.insert(unit_index as i32, unit.health_point);
            field_unit_survival_map.insert(unit_index as i32, unit.alive);
        }
        assert(field_unit_health_point_map@ =~= whole_field_health(field));
        assert(field_unit_survival_map@ =~= whole_field_survival(field));
        Some(
            NoticeUnitDamage {
                opponent_unique_id: opponent.account_unique_id,
                used_hand_card: used_hand_card(catalog, used_hand_card_id),
                field_unit_health_point_info: FieldUnitHealthPointInfo::new(field_unit_health_point_map),
                field_unit_survival_info: FieldUnitSurvivalInfo::new(field_unit_survival_map),
            },
        )
    }

    /// The notice that `account_unique_id` used the card `used_hand_card_id`
    /// and the opponent's unit in the slot `dead_unit_index` died at once:
    /// that unit, as one that does not live. There is none where the account
    /// takes no part.
    pub fn notice_instant_death_of_specific_unit_by_using_hand_card(
        &self,
        catalog: &CardCatalog,
        account_unique_id: i32,
        used_hand_card_id: i32,
        dead_unit_index: i32,
    ) -> (r: Option<NoticeUnitDeath>)
        ensures
            r.is_some() == self@.has(account_unique_id),
            r.is_some() ==> {
                &&& r.unwrap().opponent_unique_id == self@.foe(account_unique_id).account
                &&& r.unwrap().used_hand_card == (UsedHandCard {
                    card_id: used_hand_card_id,
                    kind: catalog.kind_of(used_hand_card_id),
                })
                &&& r.unwrap().field_unit_survival_info@ == Map::<i32, bool>::empty().insert(
                    dead_unit_index,
                    false,
                )
            },
    {
        broadcast use vstd::std_specs::hash::group_hash_axioms;

        if !self.is_participant(account_unique_id) {
            return None;
        }
        let mut field_unit_survival_map: HashMap<i32, bool> = HashMap::new();
        field_unit_survival_map.insert(dead_unit_index, false);
        Some(
            NoticeUnitDeath {
                opponent_unique_id: self.opponent(account_unique_id).account_unique_id,
                used_hand_card: used_hand_card(catalog, used_hand_card_id),
                field_unit_survival_info: FieldUnitSurvivalInfo::new(field_unit_survival_map),
            },
        )
    }
}

} // verus!
