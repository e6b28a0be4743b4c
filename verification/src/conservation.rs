//! No card is lost and none is made: through every action the cards of a
//! player (in the hand, in the deck, in the tomb and on the field as live
//! units) stay the same cards, whichever of these places they move between.

use vstd::multiset::Multiset;
use vstd::prelude::*;
use vstd::seq_lib::lemma_multiset_commutative;
use crate::battle::{BattleModel, PlayerModel};
use crate::card::{CardCatalog, ExtraStatusEffect, PassiveSkillEffect};
use crate::field::{
    all_judged, all_refreshed, all_struck, all_ticked, doomed_cards, first_free, fresh_unit, placed,
};
use crate::laws::lemma_first_free_in_range;
use crate::mulligan_request_form::redraw_count;
use crate::skill::{after_effect, after_effects, caster_effects, deploy_effects};
use crate::stores::{
    as_tomb, drawn_count, first_place, holds_all, is_first_place, without_all, without_first,
};
use crate::turn_end_request_form::{TURN_DRAW_COUNT, TURN_ENERGY_GRANT};
use crate::unit::UnitModel;

verus! {

broadcast use vstd::multiset::group_multiset_axioms;

/// The cards of the live units of a field.
pub open spec fn live_cards(field: Seq<UnitModel>) -> Multiset<i32>
    decreases field.len(),
{
    if field.len() == 0 {
        Multiset::empty()
    } else if field.last().alive {
        live_cards(field.drop_last()).insert(field.last().card_id)
    } else {
        live_cards(field.drop_last())
    }
}

/// The card of a unit, if the unit lives.
pub open spec fn card_if_alive(unit: UnitModel) -> Multiset<i32> {
    if unit.alive {
        Multiset::singleton(unit.card_id)
    } else {
        Multiset::empty()
    }
}

impl PlayerModel {
    /// All cards of the player: those in the hand, in the deck and in the
    /// tomb, and those of its live units.
    pub open spec fn cards(self) -> Multiset<i32> {
        self.hand.to_multiset().add(self.deck.to_multiset()).add(self.tomb).add(live_cards(self.field))
    }
}

/// The live cards of a field are those of its units, one by one.
pub proof fn lemma_live_cards_by_unit(field: Seq<UnitModel>)
    ensures
        field.len() > 0 ==> live_cards(field) == live_cards(field.drop_last()).add(card_if_alive(field.last())),
{
    if field.len() > 0 {
        assert(live_cards(field) =~= live_cards(field.drop_last()).add(card_if_alive(field.last())));
    }
}

/// A unit put in the place of another changes the live cards by those two
/// units alone.
pub proof fn lemma_live_cards_update(field: Seq<UnitModel>, index: int, unit: UnitModel)
    requires
        0 <= index < field.len(),
    ensures
        live_cards(field.update(index, unit)).add(card_if_alive(field[index])) == live_cards(field).add(
            card_if_alive(unit),
        ),
    decreases field.len(),
{
    let changed = field.update(index, unit);
    lemma_live_cards_by_unit(field);
    lemma_live_cards_by_unit(changed);
    let front = field.drop_last();
    let old_card = card_if_alive(field[index]);
    let new_card = card_if_alive(unit);
    if index == field.len() - 1 {
        assert(changed.drop_last() =~= front);
        assert(changed.last() == unit);
        assert(live_cards(changed).add(old_card) =~= live_cards(field).add(new_card));
    } else {
        let last_card = card_if_alive(field.last());
        let front_changed = front.update(index, unit);
        assert(changed.drop_last() =~= front_changed);
        assert(changed.last() == field.last());
        assert(front[index] == field[index]);
        lemma_live_cards_update(front, index, unit);
        assert(live_cards(front_changed).add(old_card) == live_cards(front).add(new_card));
        assert forall|card: i32|
            live_cards(changed).add(old_card).count(card) == live_cards(field).add(new_card).count(card) by {
            assert(live_cards(front_changed).add(old_card).count(card) == live_cards(front).add(new_card).count(
                card,
            ));
            assert(live_cards(changed).count(card) == live_cards(front_changed).count(card) + last_card.count(
                card,
            ));
            assert(live_cards(field).count(card) == live_cards(front).count(card) + last_card.count(card));
        }
        assert(live_cards(changed).add(old_card) =~= live_cards(field).add(new_card));
    }
}

/// A unit put behind the last adds its card to the live cards if it lives.
pub proof fn lemma_live_cards_push(field: Seq<UnitModel>, unit: UnitModel)
    ensures
        live_cards(field.push(unit)) == live_cards(field).add(card_if_alive(unit)),
{
    assert(field.push(unit).drop_last() =~= field);
    lemma_live_cards_by_unit(field.push(unit));
}

/// Two fields whose units agree, slot by slot, in card and life have the
/// same live cards.
pub proof fn lemma_live_cards_agree(field: Seq<UnitModel>, other: Seq<UnitModel>)
    requires
        field.len() == other.len(),
        forall|i: int|
            0 <= i < field.len() ==> (#[trigger] field[i]).alive == other[i].alive && field[i].card_id
                == other[i].card_id,
    ensures
        live_cards(field) == live_cards(other),
    decreases field.len(),
{
    if field.len() > 0 {
        assert(field.last().alive == other.last().alive);
        assert forall|i: int| 0 <= i < field.drop_last().len() implies (#[trigger] field.drop_last()[i]).alive
            == other.drop_last()[i].alive && field.drop_last()[i].card_id == other.drop_last()[i].card_id by {
            assert(field.drop_last()[i] == field[i]);
        }
        lemma_live_cards_agree(field.drop_last(), other.drop_last());
    }
}

/// The doomed cards of a field are those of its units, one by one.
pub proof fn lemma_doomed_cards_by_unit(field: Seq<UnitModel>)
    requires
        field.len() > 0,
    ensures
        as_tomb(doomed_cards(field)) == as_tomb(doomed_cards(field.drop_last())).add(
            if field.last().doomed() {
                Multiset::singleton(field.last().card_id)
            } else {
                Multiset::empty()
            },
        ),
{
    let front = field.drop_last();
    assert(field =~= front.push(field.last()));
    assert(field.take(field.len() - 1) =~= front);
    assert(field.take(field.len() as int) =~= field);
    crate::field::lemma_doomed_step(field, field.len() - 1);
    doomed_cards(front).to_multiset_ensures();
    if field.last().doomed() {
        assert(as_tomb(doomed_cards(field)) =~= as_tomb(doomed_cards(front)).add(
            Multiset::singleton(field.last().card_id),
        ));
    } else {
        assert(as_tomb(doomed_cards(field)) =~= as_tomb(doomed_cards(front)).add(Multiset::empty()));
    }
}

/// Death judgment on every unit moves the cards of the doomed from the live
/// cards to the reported dead, and no other card.
pub proof fn lemma_judgment_moves_the_doomed(field: Seq<UnitModel>)
    ensures
        live_cards(all_judged(field)).add(as_tomb(doomed_cards(field))) == live_cards(field),
    decreases field.len(),
{
    if field.len() == 0 {
        assert(all_judged(field) =~= field);
        assert(doomed_cards(field) =~= Seq::<i32>::empty());
        doomed_cards(field).to_multiset_ensures();
        assert(as_tomb(doomed_cards(field)).len() == 0);
        assert(live_cards(all_judged(field)).add(as_tomb(doomed_cards(field))) =~= live_cards(field));
    } else {
        let judged = all_judged(field);
        assert(judged.drop_last() =~= all_judged(field.drop_last()));
        assert(judged.last() == field.last().judged());
        lemma_judgment_moves_the_doomed(field.drop_last());
        lemma_doomed_cards_by_unit(field);
        lemma_live_cards_by_unit(field);
        lemma_live_cards_by_unit(judged);
        assert(live_cards(judged).add(as_tomb(doomed_cards(field))) =~= live_cards(field));
    }
}

/// Where a card occurs among some cards, its first place is a place of it.
pub proof fn lemma_first_place_holds_the_card(cards: Seq<i32>, card_id: i32)
    requires
        cards.contains(card_id),
    ensures
        is_first_place(cards, card_id, first_place(cards, card_id)),
    decreases cards.len(),
{
    let k = choose|k: int| 0 <= k < cards.len() && cards[k] == card_id;
    if exists|j: int| 0 <= j < k && cards[j] == card_id {
        let j = choose|j: int| 0 <= j < k && cards[j] == card_id;
        let front = cards.take(k);
        assert(front[j] == card_id);
        lemma_first_place_holds_the_card(front, card_id);
        let f = first_place(front, card_id);
        assert(is_first_place(cards, card_id, f)) by {
            assert(cards[f] == front[f]);
            assert forall|m: int| 0 <= m < f implies cards[m] != card_id by {
                assert(cards[m] == front[m]);
            }
        }
    } else {
        assert(is_first_place(cards, card_id, k));
    }
}

/// Taking a card that is held out of some cards takes that one card away.
pub proof fn lemma_without_first_takes_one(cards: Seq<i32>, card_id: i32)
    requires
        cards.contains(card_id),
    ensures
        without_first(cards, card_id).to_multiset().insert(card_id) == cards.to_multiset(),
{
    lemma_first_place_holds_the_card(cards, card_id);
    cards.to_multiset_ensures();
    assert(without_first(cards, card_id).to_multiset().insert(card_id) =~= cards.to_multiset());
}

/// Taking cards that are held out of some cards takes just those away.
pub proof fn lemma_without_all_takes_those(cards: Seq<i32>, wanted: Seq<i32>)
    requires
        holds_all(cards, wanted),
    ensures
        without_all(cards, wanted).to_multiset().add(wanted.to_multiset()) == cards.to_multiset(),
    decreases wanted.len(),
{
    if wanted.len() == 0 {
        wanted.to_multiset_ensures();
        assert(wanted.to_multiset().len() == 0);
        assert(without_all(cards, wanted).to_multiset().add(wanted.to_multiset()) =~= cards.to_multiset());
    } else {
        let front = wanted.drop_last();
        let rest = without_all(cards, front);
        lemma_without_all_takes_those(cards, front);
        lemma_without_first_takes_one(rest, wanted.last());
        front.to_multiset_ensures();
        assert(front.push(wanted.last()) =~= wanted);
        assert(wanted.to_multiset() =~= front.to_multiset().insert(wanted.last()));
        assert(without_all(cards, wanted).to_multiset().add(wanted.to_multiset()) =~= cards.to_multiset());
    }
}

/// Drawing moves cards from the deck to the hand.
pub proof fn lemma_drawing_keeps_cards(player: PlayerModel, count: i32)
    ensures
        player.drew(count).cards() == player.cards(),
{
    let n = drawn_count(player.deck.len(), count);
    lemma_multiset_commutative(player.hand, player.deck.take(n));
    lemma_multiset_commutative(player.deck.take(n), player.deck.skip(n));
    assert(player.deck.take(n) + player.deck.skip(n) =~= player.deck);
    assert(player.drew(count).cards() =~= player.cards());
}

/// A unit that takes the place of one with the same card and the same life,
/// and is judged, keeps the cards of the player: where it dies, its card
/// moves from the field to the tomb.
pub proof fn lemma_judged_unit_keeps_cards(player: PlayerModel, index: i32, unit: UnitModel)
    requires
        0 <= index < player.field.len(),
        unit.card_id == player.field[index as int].card_id,
        unit.alive == player.field[index as int].alive,
    ensures
        player.with_judged_unit(index, unit).cards() == player.cards(),
        player.with_unit(index, unit).cards() == player.cards(),
{
    let was = card_if_alive(player.field[index as int]);
    let kept = player.field.update(index as int, unit);
    let judged = player.field.update(index as int, unit.judged());
    lemma_live_cards_update(player.field, index as int, unit);
    lemma_live_cards_update(player.field, index as int, unit.judged());
    assert(card_if_alive(unit) == was);
    assert forall|card: i32| live_cards(kept).count(card) == live_cards(player.field).count(card) by {
        assert(live_cards(kept).add(was).count(card) == live_cards(player.field).add(was).count(card));
    }
    assert(live_cards(kept) =~= live_cards(player.field));
    assert forall|card: i32|
        live_cards(judged).count(card) + was.count(card) == live_cards(player.field).count(card)
            + card_if_alive(unit.judged()).count(card) by {
        assert(live_cards(judged).add(was).count(card) == live_cards(player.field).add(
            card_if_alive(unit.judged()),
        ).count(card));
    }
    assert(player.with_judged_unit(index, unit).cards() =~= player.cards());
    assert(player.with_unit(index, unit).cards() =~= player.cards());
}

/// A blow on every unit with the death judgment that follows keeps the cards
/// of the player.
pub proof fn lemma_sweep_keeps_cards(
    player: PlayerModel,
    damage: i32,
    effects: Seq<ExtraStatusEffect>,
    spare_immune: bool,
)
    ensures
        player.swept(damage, effects, spare_immune).cards() == player.cards(),
{
    let struck = all_struck(player.field, damage, effects, spare_immune);
    lemma_live_cards_agree(player.field, struck);
    lemma_judgment_moves_the_doomed(struck);
    assert(player.swept(damage, effects, spare_immune).cards() =~= player.cards());
}

/// The damage of statuses at the end of a turn with the death judgment that
/// follows keeps the cards of the player.
pub proof fn lemma_tick_keeps_cards(player: PlayerModel)
    ensures
        player.ticked().cards() == player.cards(),
{
    let worn = all_ticked(player.field);
    lemma_live_cards_agree(player.field, worn);
    lemma_judgment_moves_the_doomed(worn);
    assert(player.ticked().cards() =~= player.cards());
}

/// The start of a turn keeps the cards of the player.
pub proof fn lemma_turn_start_keeps_cards(player: PlayerModel, grant: i32, draw: i32)
    ensures
        player.turn_begun(grant, draw).cards() == player.cards(),
{
    let drawn = player.granted(grant).drew(draw);
    lemma_drawing_keeps_cards(player.granted(grant), draw);
    lemma_live_cards_agree(drawn.field, all_refreshed(drawn.field));
}

/// An effect of a passive skill keeps the cards of both players.
pub proof fn lemma_effect_keeps_cards(
    me: PlayerModel,
    foe: PlayerModel,
    caster: i32,
    effect: PassiveSkillEffect,
    target: Option<i32>,
)
    ensures
        after_effect(me, foe, caster, effect, target).0.cards() == me.cards(),
        after_effect(me, foe, caster, effect, target).1.cards() == foe.cards(),
{
    match effect {
        PassiveSkillEffect::TargetDamage { damage } => {
            if crate::skill::in_reach(foe, target) {
                let t = target.unwrap();
                lemma_judged_unit_keeps_cards(foe, t, foe.field[t as int].damaged(damage));
            }
        },
        PassiveSkillEffect::NonTargetingDamage { damage } => {
            lemma_sweep_keeps_cards(foe, damage, caster_effects(me, caster), true);
        },
        PassiveSkillEffect::AttachExtraEffect { effect } => {
            if crate::field::occupied(me.field, caster) {
                lemma_judged_unit_keeps_cards(me, caster, me.field[caster as int].empowered(effect));
            }
        },
        PassiveSkillEffect::CatastrophicDamage { damage } => {
            lemma_sweep_keeps_cards(foe, damage, Seq::empty(), false);
        },
    }
}

/// A run of effects keeps the cards of both players.
pub proof fn lemma_effects_keep_cards(
    me: PlayerModel,
    foe: PlayerModel,
    caster: i32,
    effects: Seq<PassiveSkillEffect>,
)
    ensures
        after_effects(me, foe, caster, effects).0.cards() == me.cards(),
        after_effects(me, foe, caster, effects).1.cards() == foe.cards(),
    decreases effects.len(),
{
    if effects.len() > 0 {
        lemma_effects_keep_cards(me, foe, caster, effects.drop_last());
        let before = after_effects(me, foe, caster, effects.drop_last());
        lemma_effect_keeps_cards(before.0, before.1, caster, effects.last(), None);
    }
}

/// The first free slot of a field holds no live unit.
pub proof fn lemma_first_free_is_free(field: Seq<UnitModel>, from: int)
    requires
        0 <= from <= field.len(),
    ensures
        crate::field::first_free_from(field, from) < field.len() ==> !field[crate::field::first_free_from(
            field,
            from,
        )].alive,
    decreases field.len() - from,
{
    if from < field.len() && field[from].alive {
        lemma_first_free_is_free(field, from + 1);
    }
}

/// A basic attack keeps the cards of both players.
pub proof fn lemma_attack_keeps_cards(battle: BattleModel, account: i32, attacker_index: i32, target_index: i32)
    requires
        battle.attack_rejection(account, attacker_index, target_index).is_none(),
    ensures
        battle.after_attack(account, attacker_index, target_index).first.cards() == battle.first.cards(),
        battle.after_attack(account, attacker_index, target_index).second.cards() == battle.second.cards(),
{
    let me = battle.me(account);
    let foe = battle.foe(account);
    let attacker = me.field[attacker_index as int];
    let target = foe.field[target_index as int];
    lemma_judged_unit_keeps_cards(me, attacker_index, crate::combat::attacker_after_blow(attacker, target));
    lemma_judged_unit_keeps_cards(foe, target_index, crate::combat::target_after_blow(attacker, target));
}

/// An attack on the main character moves no card.
pub proof fn lemma_main_character_attack_keeps_cards(battle: BattleModel, account: i32, attacker_index: i32)
    requires
        battle.main_character_attack_rejection(account, attacker_index).is_none(),
    ensures
        battle.after_main_character_attack(account, attacker_index).first.cards() == battle.first.cards(),
        battle.after_main_character_attack(account, attacker_index).second.cards() == battle.second.cards(),
{
    let me = battle.me(account);
    lemma_judged_unit_keeps_cards(me, attacker_index, me.field[attacker_index as int].acted());
}

/// A passive skill keeps the cards of both players.
pub proof fn lemma_skill_keeps_cards(
    battle: BattleModel,
    catalog: CardCatalog,
    account: i32,
    unit_index: i32,
    skill_index: i32,
    target: Option<i32>,
)
    requires
        battle.wf(),
        battle.skill_rejection(catalog, account, unit_index, skill_index, target).is_none(),
    ensures
        battle.after_skill(catalog, account, unit_index, skill_index, target).first.cards()
            == battle.first.cards(),
        battle.after_skill(catalog, account, unit_index, skill_index, target).second.cards()
            == battle.second.cards(),
{
    let me = battle.me(account);
    let foe = battle.foe(account);
    let effect = battle.skill_effect(catalog, account, unit_index, skill_index);
    let done = after_effect(me, foe, unit_index, effect, target);
    lemma_effect_keeps_cards(me, foe, unit_index, effect, target);
    crate::skill::lemma_effect_keeps_wf(me, foe, unit_index, effect, target);
    assert(0 <= unit_index < done.0.field.len());
    let cost = me.field[unit_index as int].required_energy.of_skill(skill_index);
    lemma_judged_unit_keeps_cards(done.0, unit_index, done.0.field[unit_index as int].acted());
    assert(done.0.cast_done(unit_index, cost).cards() =~= done.0.with_unit(
        unit_index,
        done.0.field[unit_index as int].acted(),
    ).cards());
}

/// The end of a turn keeps the cards of both players.
pub proof fn lemma_turn_end_keeps_cards(battle: BattleModel, account: i32)
    requires
        battle.turn_end_rejection(account).is_none(),
    ensures
        battle.after_turn_end(account).first.cards() == battle.first.cards(),
        battle.after_turn_end(account).second.cards() == battle.second.cards(),
{
    lemma_tick_keeps_cards(battle.me(account));
    lemma_turn_start_keeps_cards(battle.foe(account), TURN_ENERGY_GRANT, TURN_DRAW_COUNT);
}

/// A change of cards of the hand keeps the cards of both players.
pub proof fn lemma_mulligan_keeps_cards(battle: BattleModel, account: i32, cards: Seq<i32>)
    requires
        battle.mulligan_rejection(account, cards).is_none(),
    ensures
        battle.after_mulligan(account, cards).first.cards() == battle.first.cards(),
        battle.after_mulligan(account, cards).second.cards() == battle.second.cards(),
{
    let me = battle.me(account);
    let put = PlayerModel { hand: without_all(me.hand, cards), deck: me.deck + cards, ..me };
    lemma_without_all_takes_those(me.hand, cards);
    lemma_multiset_commutative(me.deck, cards);
    assert(put.cards() =~= me.cards());
    lemma_drawing_keeps_cards(put, redraw_count(cards.len()));
}

/// A deployment keeps the cards of both players: the card moves from the
/// hand to the field.
pub proof fn lemma_deploy_keeps_cards(battle: BattleModel, catalog: CardCatalog, account: i32, card_id: i32)
    requires
        battle.wf(),
        battle.deploy_rejection(catalog, account, card_id).is_none(),
    ensures
        battle.after_deploy(catalog, account, card_id).first.cards() == battle.first.cards(),
        battle.after_deploy(catalog, account, card_id).second.cards() == battle.second.cards(),
{
    let me = battle.me(account);
    let stats = catalog.stats_of(card_id).unwrap();
    let index = first_free(me.field);
    lemma_first_free_in_range(me.field, 0);
    let unit = fresh_unit(card_id, account, index as i32, stats, battle.turn.round);
    let entered = PlayerModel {
        hand: without_first(me.hand, card_id),
        field: placed(me.field, index, unit),
        ..me
    };
    lemma_first_free_is_free(me.field, 0);
    lemma_without_first_takes_one(me.hand, card_id);
    assert(unit.alive && unit.card_id == card_id);
    if index < me.field.len() {
        lemma_live_cards_update(me.field, index, unit);
        assert(card_if_alive(me.field[index]) == Multiset::<i32>::empty());
        assert forall|card: i32|
            live_cards(entered.field).count(card) == live_cards(me.field).count(card) + card_if_alive(
                unit,
            ).count(card) by {
            assert(live_cards(entered.field).add(card_if_alive(me.field[index])).count(card) == live_cards(
                me.field,
            ).add(card_if_alive(unit)).count(card));
        }
    } else {
        lemma_live_cards_push(me.field, unit);
    }
    assert forall|card: i32| entered.cards().count(card) == me.cards().count(card) by {
        assert(without_first(me.hand, card_id).to_multiset().insert(card_id).count(card)
            == me.hand.to_multiset().count(card));
    }
    assert(entered.cards() =~= me.cards());
    lemma_effects_keep_cards(
        entered,
        battle.foe(account),
        index as i32,
        deploy_effects(stats, catalog.skills_of(card_id), battle.turn.round),
    );
}

} // verus!
