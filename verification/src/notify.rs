//! What the other player is told after an action: for the units that the
//! action touched, and for no others, their health, the statuses that harm
//! them, and which of them are dead. Nothing here changes the match.

use vstd::prelude::*;
use crate::battle::Battle;
use crate::card::ExtraEffect;
use crate::field::FieldUnitTable;
use crate::ui_data::{
    harmful_map_of, harmful_status_info_of, health_map_of, health_point_info_of, FieldUnitDeathInfo,
    FieldUnitHarmfulStatusInfo, FieldUnitHealthPointInfo, PlayerIndex, PlayerIndexMap,
};
use crate::unit::{kinds_of, UnitModel};

verus! {

/// `index` names a slot of the field.
pub open spec fn names_slot(field: Seq<UnitModel>, index: i32) -> bool {
    0 <= index < field.len()
}

/// The health of the units in the slots that `touched` names, by index.
pub open spec fn touched_health(field: Seq<UnitModel>, touched: Seq<i32>) -> Map<i32, i32>
    decreases touched.len(),
{
    if touched.len() == 0 {
        Map::empty()
    } else if names_slot(field, touched.last()) {
        touched_health(field, touched.drop_last()).insert(
            touched.last(),
            field[touched.last() as int].health_point,
        )
    } else {
        touched_health(field, touched.drop_last())
    }
}

/// The kinds of the statuses that harm the units in the slots that `touched`
/// names, by index.
pub open spec fn touched_harmful(field: Seq<UnitModel>, touched: Seq<i32>) -> Map<i32, Seq<ExtraEffect>>
    decreases touched.len(),
{
    if touched.len() == 0 {
        Map::empty()
    } else if names_slot(field, touched.last()) {
        touched_harmful(field, touched.drop_last()).insert(
            touched.last(),
            kinds_of(field[touched.last() as int].harmful_statuses),
        )
    } else {
        touched_harmful(field, touched.drop_last())
    }
}

/// Those of `touched` that name a slot whose unit is dead, in their order.
pub open spec fn touched_dead(field: Seq<UnitModel>, touched: Seq<i32>) -> Seq<i32>
    decreases touched.len(),
{
    if touched.len() == 0 {
        Seq::empty()
    } else if names_slot(field, touched.last()) && !field[touched.last() as int].alive {
        touched_dead(field, touched.drop_last()).push(touched.last())
    } else {
        touched_dead(field, touched.drop_last())
    }
}

/// What changed on one side of the field.
#[derive(Debug)]
pub struct FieldDiff {
    pub health_point_info: FieldUnitHealthPointInfo,
    pub harmful_status_info: FieldUnitHarmfulStatusInfo,
    pub death_info: FieldUnitDeathInfo,
}

impl FieldDiff {
    /// The diff says of the units that `touched` names on `field` what they
    /// are now, and of no other unit anything.
    pub open spec fn tells(&self, field: Seq<UnitModel>, touched: Seq<i32>) -> bool {
        &&& self.health_point_info@ == touched_health(field, touched)
        &&& self.harmful_status_info@ == touched_harmful(field, touched)
        &&& self.death_info@ == touched_dead(field, touched)
    }
}

/// What the other player is told: for each side of the field that the action
/// touched, as that player sees it, health, harmful statuses and deaths.
#[derive(Debug)]
pub struct NotificationDiff {
    pub player_field_unit_health_point_map: PlayerIndexMap<FieldUnitHealthPointInfo>,
    pub player_field_unit_harmful_effect_map: PlayerIndexMap<FieldUnitHarmfulStatusInfo>,
    pub player_field_unit_death_map: PlayerIndexMap<FieldUnitDeathInfo>,
}

impl NotificationDiff {
    /// The diff has no entry for the side `index`.
    pub open spec fn silent_on(&self, index: PlayerIndex) -> bool {
        &&& self.player_field_unit_health_point_map.value(index).is_none()
        &&& self.player_field_unit_harmful_effect_map.value(index).is_none()
        &&& self.player_field_unit_death_map.value(index).is_none()
    }

    /// For the side `index` the diff says of the units that `touched` names
    /// on `field` what they are now, and of no other unit anything; where
    /// `touched` is empty it has no entry for that side.
    pub open spec fn tells(&self, index: PlayerIndex, field: Seq<UnitModel>, touched: Seq<i32>) -> bool {
        if touched.len() == 0 {
            self.silent_on(index)
        } else {
            &&& self.player_field_unit_health_point_map.value(index).is_some()
            &&& self.player_field_unit_harmful_effect_map.value(index).is_some()
            &&& self.player_field_unit_death_map.value(index).is_some()
            &&& self.player_field_unit_health_point_map.value(index).unwrap()@ == touched_health(
                field,
                touched,
            )
            &&& self.player_field_unit_harmful_effect_map.value(index).unwrap()@ == touched_harmful(
                field,
                touched,
            )
            &&& self.player_field_unit_death_map.value(index).unwrap()@ == touched_dead(field, touched)
        }
    }
}

impl FieldUnitTable {
    /// The health of the units in the slots that `touched` names, as pairs
    /// of index and health.
    pub fn get_current_health_point_of_units(&self, touched: &Vec<i32>) -> (r: Vec<(i32, i32)>)
        ensures
            health_map_of(r@) == touched_health(self@, touched@),
    {
        let mut pairs: Vec<(i32, i32)> = Vec::new();
        let mut i: usize = 0;
        while i < touched.len()
            invariant
                i <= touched@.len(),
                health_map_of(pairs@) == touched_health(self@, touched@.take(i as int)),
            decreases touched@.len() - i,
        {
            assert(touched@.take(i + 1).drop_last() =~= touched@.take(i as int));
            let index: i32 = touched[i];
            if index >= 0 && (index as usize) < self.units.len() {
                let ghost before = pairs@;
                pairs.push((index, self.units[index as usize].health_point));
                assert(pairs@.drop_last() =~= before);
            }
            i += 1;
        }
        assert(touched@.take(i as int) =~= touched@);
        pairs
    }

    /// The kinds of the statuses that harm the units in the slots that
    /// `touched` names, as pairs of index and kinds.
    pub fn acquire_harmful_status_effect_of_units(&self, touched: &Vec<i32>) -> (r: Vec<(i32, Vec<ExtraEffect>)>)
        ensures
            harmful_map_of(r@) == touched_harmful(self@, touched@),
    {
        let mut pairs: Vec<(i32, Vec<ExtraEffect>)> = Vec::new();
        let mut i: usize = 0;
        while i < touched.len()
            invariant
                i <= touched@.len(),
                harmful_map_of(pairs@) == touched_harmful(self@, touched@.take(i as int)),
            decreases touched@.len() - i,
        {
            assert(touched@.take(i + 1).drop_last() =~= touched@.take(i as int));
            let index: i32 = touched[i];
            if index >= 0 && (index as usize) < self.units.len() {
                let ghost before = pairs@;
                let kinds = self.units[index as usize].harmful_effect_kinds();
                pairs.push((index, kinds));
                assert(pairs@.drop_last() =~= before);
            }
            i += 1;
        }
        assert(touched@.take(i as int) =~= touched@);
        pairs
    }

    /// Those of `touched` that name a slot whose unit is dead, in their
    /// order.
    pub fn dead_unit_indices_among(&self, touched: &Vec<i32>) -> (r: Vec<i32>)
        ensures
            r@ == touched_dead(self@, touched@),
    {
        let mut dead: Vec<i32> = Vec::new();
        let mut i: usize = 0;
        while i < touched.len()
            invariant
                i <= touched@.len(),
                dead@ == touched_dead(self@, touched@.take(i as int)),
            decreases touched@.len() - i,
        {
            assert(touched@.take(i + 1).drop_last() =~= touched@.take(i as int));
            let index: i32 = touched[i];
            if index >= 0 && (index as usize) < self.units.len() && !self.units[index as usize].alive {
                dead.push(index);
            }
            i += 1;
        }
        assert(touched@.take(i as int) =~= touched@);
        dead
    }

    /// What changed for the units that `touched` names.
    pub fn diff_of_touched_units(&self, touched: &Vec<i32>) -> (r: FieldDiff)
        ensures
            r.tells(self@, touched@),
    {
        let health = self.get_current_health_point_of_units(touched);
        let harmful = self.acquire_harmful_status_effect_of_units(touched);
        let dead = self.dead_unit_indices_among(touched);
        FieldDiff {
            health_point_info: health_point_info_of(&health),
            harmful_status_info: harmful_status_info_of(&harmful),
            death_info: FieldUnitDeathInfo::new(dead),
        }
    }
}

impl NotificationDiff {
    /// A diff that says nothing.
    pub fn new() -> (r: Self)
        ensures
            r.silent_on(PlayerIndex::You),
            r.silent_on(PlayerIndex::Opponent),
    {
        NotificationDiff {
            player_field_unit_health_point_map: PlayerIndexMap::new(),
            player_field_unit_harmful_effect_map: PlayerIndexMap::new(),
            player_field_unit_death_map: PlayerIndexMap::new(),
        }
    }

    /// Enters what changed on the side `index`.
    pub fn put(&mut self, index: PlayerIndex, diff: FieldDiff)
        ensures
            final(self).player_field_unit_health_point_map.value(index) == Some(diff.health_point_info),
            final(self).player_field_unit_harmful_effect_map.value(index) == Some(diff.harmful_status_info),
            final(self).player_field_unit_death_map.value(index) == Some(diff.death_info),
            forall|other: PlayerIndex|
                other != index ==> {
                    &&& final(self).player_field_unit_health_point_map.value(other) == old(
                        self,
                    ).player_field_unit_health_point_map.value(other)
                    &&& final(self).player_field_unit_harmful_effect_map.value(other) == old(
                        self,
                    ).player_field_unit_harmful_effect_map.value(other)
                    &&& final(self).player_field_unit_death_map.value(other) == old(
                        self,
                    ).player_field_unit_death_map.value(other)
                },
    {
        self.player_field_unit_health_point_map.insert(index, diff.health_point_info);
        self.player_field_unit_harmful_effect_map.insert(index, diff.harmful_status_info);
        self.player_field_unit_death_map.insert(index, diff.death_info);
    }
}

impl Battle {
    /// What the opponent of `actor` is told after an action of `actor` that
    /// touched the units `touched_own` on the actor's field and the units
    /// `touched_opponent` on the opponent's: under `You`, the opponent's own
    /// units that were touched; under `Opponent`, the actor's. A side of
    /// which no unit was touched has no entry, and no unit that was not
    /// touched has one. For an account that takes no part in the match the
    /// diff says nothing.
    pub fn notification_diff(&self, actor: i32, touched_own: &Vec<i32>, touched_opponent: &Vec<i32>) -> (r:
        NotificationDiff)
        ensures
            self@.has(actor) ==> r.tells(PlayerIndex::You, self@.foe(actor).field, touched_opponent@),
            self@.has(actor) ==> r.tells(PlayerIndex::Opponent, self@.me(actor).field, touched_own@),
            !self@.has(actor) ==> r.silent_on(PlayerIndex::You) && r.silent_on(PlayerIndex::Opponent),
    {
        let mut diff = NotificationDiff::new();
        if !self.is_participant(actor) {
            return diff;
        }
        if touched_opponent.len() > 0 {
            diff.put(PlayerIndex::You, self.opponent(actor).field.diff_of_touched_units(touched_opponent));
        }
        if touched_own.len() > 0 {
            diff.put(PlayerIndex::Opponent, self.player(actor).field.diff_of_touched_units(touched_own));
        }
        diff
    }
}

/// The units that a basic attack touched on the attacker's own field: the
/// attacker, if a blow came back to it.
pub open spec fn touched_by_counter(attacker_index: i32, countered: bool) -> Seq<i32> {
    if countered {
        seq![attacker_index]
    } else {
        Seq::empty()
    }
}

impl Battle {
    /// What the opponent of `actor` is told after a basic attack of `actor`'s
    /// unit at `attacker_index` on the opponent's unit at `target_index`:
    /// under `You` the attacked unit, and under `Opponent` the attacker if a
    /// blow came back to it, as they are now.
    pub fn attack_notification_diff(
        &self,
        actor: i32,
        attacker_index: i32,
        target_index: i32,
        countered: bool,
    ) -> (r: NotificationDiff)
        ensures
            self@.has(actor) ==> r.tells(PlayerIndex::You, self@.foe(actor).field, seq![target_index]),
            self@.has(actor) ==> r.tells(
                PlayerIndex::Opponent,
                self@.me(actor).field,
                touched_by_counter(attacker_index, countered),
            ),
            !self@.has(actor) ==> r.silent_on(PlayerIndex::You) && r.silent_on(PlayerIndex::Opponent),
    {
        let mut touched_opponent: Vec<i32> = Vec::new();
        touched_opponent.push(target_index);
        let mut touched_own: Vec<i32> = Vec::new();
        if countered {
            touched_own.push(attacker_index);
        }
        assert(touched_opponent@ =~= seq![target_index]);
        assert(touched_own@ =~= touched_by_counter(attacker_index, countered));
        self.notification_diff(actor, &touched_own, &touched_opponent)
    }
}

/// A diff for one touched unit holds one health entry and one entry of
/// harmful statuses; it holds one death entry if the unit is dead and none
/// if it lives. The rest of the field does not appear in it.
pub proof fn lemma_single_target_diff(field: Seq<UnitModel>, index: i32)
    requires
        names_slot(field, index),
    ensures
        touched_health(field, seq![index]) == Map::<i32, i32>::empty().insert(
            index,
            field[index as int].health_point,
        ),
        touched_health(field, seq![index]).len() == 1,
        touched_harmful(field, seq![index]).len() == 1,
        touched_dead(field, seq![index]) == if field[index as int].alive {
            Seq::<i32>::empty()
        } else {
            seq![index]
        },
{
    let touched = seq![index];
    assert(touched.drop_last() =~= Seq::<i32>::empty());
    assert(touched.last() == index);
    reveal_with_fuel(touched_health, 2);
    reveal_with_fuel(touched_harmful, 2);
    reveal_with_fuel(touched_dead, 2);
    assert(touched_health(field, touched.drop_last()) == Map::<i32, i32>::empty());
    assert(touched_harmful(field, touched.drop_last()) == Map::<i32, Seq<ExtraEffect>>::empty());
    assert(touched_dead(field, touched.drop_last()) == Seq::<i32>::empty());
    assert(touched_dead(field, touched) =~= if field[index as int].alive {
        Seq::<i32>::empty()
    } else {
        seq![index]
    });
}

/// A diff has entries only for indices that were touched.
pub proof fn lemma_diff_holds_only_touched(field: Seq<UnitModel>, touched: Seq<i32>, index: i32)
    requires
        !touched.contains(index),
    ensures
        !touched_health(field, touched).contains_key(index),
        !touched_harmful(field, touched).contains_key(index),
        !touched_dead(field, touched).contains(index),
    decreases touched.len(),
{
    if touched.len() > 0 {
        assert(touched.last() == touched[touched.len() - 1]);
        assert forall|k: int| 0 <= k < touched.drop_last().len() implies touched.drop_last()[k] != index by {
            assert(touched.drop_last()[k] == touched[k]);
        }
        lemma_diff_holds_only_touched(field, touched.drop_last(), index);
    }
}

} // verus!
