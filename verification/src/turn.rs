//! Ending a turn and changing cards of the hand.
//!
//! A turn ends in a fixed order: the statuses on the units of the player who
//! ends it deal their damage and the dead are judged and buried; the turn
//! passes to the opponent; the round goes up once both players have ended a
//! turn in it; the new owner of the turn is granted energy, draws, and its
//! units get their action back.

use vstd::prelude::*;
use crate::battle::{ActionError, Battle, BattleModel, PlayerModel, PlayerState, TurnState};
use crate::field::{all_ticked, doomed_cards};
use crate::mulligan_request_form::{redraw_count, MulliganRequestForm};
use crate::session::numbers_of;
use crate::stores::{drawn_count, holds_all, without_all};
use crate::turn_end_request_form::{TurnEndRequestForm, TURN_DRAW_COUNT, TURN_ENERGY_GRANT};

verus! {

/// What the end of a turn brought about.
#[derive(Debug)]
pub struct TurnEndOutcome {
    /// The cards of the units that died of their statuses, in the order of
    /// their indices.
    pub dead_unit_list: Vec<i32>,
    /// The cards that the new owner of the turn drew.
    pub drawn_card_list: Vec<i32>,
    /// The new owner of the turn.
    pub turn_owner: i32,
    /// The round after the turn has passed.
    pub round: i32,
}

impl PlayerModel {
    /// The player at the start of its turn: granted `grant` energy, with
    /// `draw` cards drawn, and with the action of every unit given back.
    pub open spec fn turn_begun(self, grant: i32, draw: i32) -> PlayerModel {
        self.granted(grant).drew(draw).refreshed()
    }

    /// The player after the cards `cards` of its hand went under the deck and
    /// `count` cards were drawn.
    pub open spec fn exchanged(self, cards: Seq<i32>, count: i32) -> PlayerModel {
        (PlayerModel { hand: without_all(self.hand, cards), deck: self.deck + cards, ..self }).drew(count)
    }
}

impl BattleModel {
    /// Why `account` may not end the turn, if it may not.
    pub open spec fn turn_end_rejection(self, account: i32) -> Option<ActionError> {
        if !self.has(account) {
            Some(ActionError::AuthenticationFailure)
        } else if self.turn.owner != account {
            Some(ActionError::RuleViolation)
        } else {
            None
        }
    }

    /// The match after `account` has ended its turn and its opponent has
    /// begun the next with a grant of `grant` energy and a draw of `draw`
    /// cards.
    pub open spec fn after_turn_passed(self, account: i32, grant: i32, draw: i32) -> BattleModel {
        self.seated(
            account,
            self.me(account).ticked(),
            self.foe(account).turn_begun(grant, draw),
            self.turn.passed_to(self.foe(account).account),
        )
    }

    /// The match after `account` has ended its turn: its opponent is granted
    /// one energy and draws one card.
    pub open spec fn after_turn_end(self, account: i32) -> BattleModel {
        self.after_turn_passed(account, TURN_ENERGY_GRANT, TURN_DRAW_COUNT)
    }

    /// Why `account` may not change the cards `cards`, if it may not.
    pub open spec fn mulligan_rejection(self, account: i32, cards: Seq<i32>) -> Option<ActionError> {
        if !self.has(account) {
            Some(ActionError::AuthenticationFailure)
        } else if !holds_all(self.me(account).hand, cards) {
            Some(ActionError::ProtocolViolation)
        } else {
            None
        }
    }

    /// The match after `account` has changed the cards `cards`.
    pub open spec fn after_mulligan(self, account: i32, cards: Seq<i32>) -> BattleModel {
        self.seated(
            account,
            self.me(account).exchanged(cards, redraw_count(cards.len())),
            self.foe(account),
            self.turn,
        )
    }
}

/// The turn state after its owner has ended the turn and `next` takes over.
pub fn next_turn(turn: TurnState, next: i32) -> (r: TurnState)
    ensures
        r == turn.passed_to(next),
{
    let round: i32 = if turn.half_round_done && turn.round < i32::MAX {
        turn.round + 1
    } else {
        turn.round
    };
    TurnState { owner: next, round, half_round_done: !turn.half_round_done }
}

impl PlayerState {
    /// Begins the player's turn: the player is granted `grant` energy, draws
    /// `draw` cards, or as many as the deck holds, and its units get their
    /// action back. Returns the cards drawn.
    pub fn begin_turn(&mut self, grant: i32, draw: i32) -> (r: Vec<i32>)
        requires
            old(self).wf(),
        ensures
            final(self)@ == old(self)@.turn_begun(grant, draw),
            r@ == old(self)@.deck.take(drawn_count(old(self)@.deck.len(), draw)),
            final(self).wf(),
    {
        self.add_field_energy(grant);
        let drawn = self.draw_cards_from_deck(draw);
        self.reset_turn_action();
        drawn
    }

    /// Puts the cards `cards`, which the hand holds, under the deck and draws
    /// `count` cards. Returns the cards drawn.
    pub fn exchange_cards(&mut self, cards: &Vec<i32>, count: i32) -> (r: Vec<i32>)
        requires
            holds_all(old(self)@.hand, cards@),
        ensures
            final(self)@ == old(self)@.exchanged(cards@, count),
            r@ == (old(self)@.deck + cards@).take(drawn_count((old(self)@.deck + cards@).len(), count)),
    {
        self.hand.use_cards(cards);
        self.deck.put_cards(cards);
        self.draw_cards_from_deck(count)
    }
}

impl Battle {
    /// Ends the turn of `account_unique_id`, with a grant of `grant` energy
    /// and a draw of `draw` cards for the opponent.
    ///
    /// The request is refused, and nothing changes, when the account takes no
    /// part in the match or does not own the turn. Otherwise, in this order:
    /// the statuses on the units of the account deal their damage, and the
    /// units that die of it are judged and buried; the turn passes to the
    /// opponent; the round goes up if this was the second turn to end in it;
    /// the opponent is granted the energy and draws the cards, or as many as
    /// its deck holds; and the opponent's units get their action back.
    pub fn pass_turn(&mut self, account_unique_id: i32, grant: i32, draw: i32) -> (r: Result<
        TurnEndOutcome,
        ActionError,
    >)
        requires
            old(self).wf(),
        ensures
            final(self).wf(),
            match r {
                Ok(outcome) => {
                    &&& old(self)@.turn_end_rejection(account_unique_id).is_none()
                    &&& final(self)@ == old(self)@.after_turn_passed(account_unique_id, grant, draw)
                    &&& outcome.dead_unit_list@ == doomed_cards(
                        all_ticked(old(self)@.me(account_unique_id).field),
                    )
                    &&& outcome.drawn_card_list@ == old(self)@.foe(account_unique_id).deck.take(
                        drawn_count(old(self)@.foe(account_unique_id).deck.len(), draw),
                    )
                    &&& outcome.turn_owner == final(self)@.turn.owner
                    &&& outcome.round == final(self)@.turn.round
                },
                Err(e) => {
                    &&& old(self)@.turn_end_rejection(account_unique_id) == Some(e)
                    &&& final(self)@ == old(self)@
                },
            },
    {
        let opponent: i32 = match self.find_opponent_by_account_unique_id(account_unique_id) {
            Some(opponent) => opponent,
            None => {
                return Err(ActionError::AuthenticationFailure);
            },
        };
        if !self.is_this_your_turn(account_unique_id) {
            return Err(ActionError::RuleViolation);
        }
        let dead = if account_unique_id == self.first.account_unique_id {
            self.first.apply_status_effect_damage_iteratively()
        } else {
            self.second.apply_status_effect_damage_iteratively()
        };
        self.turn = next_turn(self.turn, opponent);
        let drawn = if opponent == self.first.account_unique_id {
            self.first.begin_turn(grant, draw)
        } else {
            self.second.begin_turn(grant, draw)
        };
        Ok(
            TurnEndOutcome {
                dead_unit_list: dead,
                drawn_card_list: drawn,
                turn_owner: self.turn.owner,
                round: self.turn.round,
            },
        )
    }

    /// Ends the turn of `account_unique_id`.
    ///
    /// The request is refused, and nothing changes, when the account takes no
    /// part in the match or does not own the turn. Otherwise, in this order:
    /// the statuses on the units of the account deal their damage, and the
    /// units that die of it are judged and buried; the turn passes to the
    /// opponent; the round goes up if this was the second turn to end in it;
    /// the opponent is granted one energy and draws one card, or none from an
    /// empty deck; and the opponent's units get their action back.
    pub fn end_turn(&mut self, account_unique_id: i32) -> (r: Result<TurnEndOutcome, ActionError>)
        requires
            old(self).wf(),
        ensures
            final(self).wf(),
            match r {
                Ok(outcome) => {
                    &&& old(self)@.turn_end_rejection(account_unique_id).is_none()
                    &&& final(self)@ == old(self)@.after_turn_end(account_unique_id)
                    &&& outcome.dead_unit_list@ == doomed_cards(
                        all_ticked(old(self)@.me(account_unique_id).field),
                    )
                    &&& outcome.drawn_card_list@ == old(self)@.foe(account_unique_id).deck.take(
                        drawn_count(old(self)@.foe(account_unique_id).deck.len(), TURN_DRAW_COUNT),
                    )
                    &&& outcome.turn_owner == final(self)@.turn.owner
                    &&& outcome.round == final(self)@.turn.round
                },
                Err(e) => {
                    &&& old(self)@.turn_end_rejection(account_unique_id) == Some(e)
                    &&& final(self)@ == old(self)@
                },
            },
    {
        self.pass_turn(account_unique_id, TURN_ENERGY_GRANT, TURN_DRAW_COUNT)
    }

    /// Serves the request of `account_unique_id` to end its turn, with the
    /// grant and the draw that the form asks for the opponent: see
    /// [`Battle::end_turn`].
    pub fn request_turn_end(&mut self, form: &TurnEndRequestForm, account_unique_id: i32) -> (r: Result<
        TurnEndOutcome,
        ActionError,
    >)
        requires
            old(self).wf(),
        ensures
            final(self).wf(),
            match r {
                Ok(outcome) => {
                    &&& old(self)@.turn_end_rejection(account_unique_id).is_none()
                    &&& final(self)@ == old(self)@.after_turn_end(account_unique_id)
                    &&& outcome.dead_unit_list@ == doomed_cards(
                        all_ticked(old(self)@.me(account_unique_id).field),
                    )
                    &&& outcome.drawn_card_list@ == old(self)@.foe(account_unique_id).deck.take(
                        drawn_count(old(self)@.foe(account_unique_id).deck.len(), TURN_DRAW_COUNT),
                    )
                    &&& outcome.turn_owner == final(self)@.turn.owner
                    &&& outcome.round == final(self)@.turn.round
                },
                Err(e) => {
                    &&& old(self)@.turn_end_rejection(account_unique_id) == Some(e)
                    &&& final(self)@ == old(self)@
                },
            },
    {
        let find_opponent = form.to_find_opponent_by_account_id_request(account_unique_id);
        let opponent: i32 = match self.find_opponent_by_account_unique_id(find_opponent.account_unique_id) {
            Some(opponent) => opponent,
            None => {
                return Err(ActionError::AuthenticationFailure);
            },
        };
        let pass = form.to_next_turn_request(account_unique_id);
        let grant = form.to_add_field_energy_request(opponent);
        let draw = form.to_draw_cards_from_deck_request(opponent);
        self.pass_turn(pass.account_unique_id, grant.amount, draw.draw_count)
    }

    /// Changes cards of the hand of `account_unique_id`: the cards
    /// `replace_card_ids` go from the hand under the deck, in their order,
    /// and as many cards are drawn from the front of the deck.
    ///
    /// The request is refused, and nothing changes, when the account takes no
    /// part in the match or when its hand does not hold every card named, a
    /// card named twice twice. Returns the cards drawn.
    pub fn mulligan(&mut self, account_unique_id: i32, replace_card_ids: &Vec<i32>) -> (r: Result<
        Vec<i32>,
        ActionError,
    >)
        requires
            old(self).wf(),
        ensures
            final(self).wf(),
            match r {
                Ok(drawn) => {
                    &&& old(self)@.mulligan_rejection(account_unique_id, replace_card_ids@).is_none()
                    &&& final(self)@ == old(self)@.after_mulligan(account_unique_id, replace_card_ids@)
                    &&& drawn@ == (old(self)@.me(account_unique_id).deck + replace_card_ids@).take(
                        drawn_count(
                            (old(self)@.me(account_unique_id).deck + replace_card_ids@).len(),
                            redraw_count(replace_card_ids@.len()),
                        ),
                    )
                },
                Err(e) => {
                    &&& old(self)@.mulligan_rejection(account_unique_id, replace_card_ids@) == Some(e)
                    &&& final(self)@ == old(self)@
                },
            },
    {
        if !self.is_participant(account_unique_id) {
            return Err(ActionError::AuthenticationFailure);
        }
        if !self.player(account_unique_id).hand.holds_every(replace_card_ids) {
            return Err(ActionError::ProtocolViolation);
        }
        let count: i32 = if replace_card_ids.len() > 0x7fff_ffff {
            0x7fff_ffff
        } else {
            replace_card_ids.len() as i32
        };
        let drawn = if account_unique_id == self.first.account_unique_id {
            self.first.exchange_cards(replace_card_ids, count)
        } else {
            self.second.exchange_cards(replace_card_ids, count)
        };
        Ok(drawn)
    }

    /// Serves the request of `account_unique_id` to change the cards that the
    /// form names: see [`Battle::mulligan`]. A card that the form writes as
    /// no number is read as the card -1.
    pub fn execute_mulligan_procedure(&mut self, form: &MulliganRequestForm, account_unique_id: i32) -> (r:
        Result<Vec<i32>, ActionError>)
        requires
            old(self).wf(),
        ensures
            final(self).wf(),
            match r {
                Ok(drawn) => {
                    &&& old(self)@.mulligan_rejection(account_unique_id, numbers_of(form.cards())).is_none()
                    &&& final(self)@ == old(self)@.after_mulligan(account_unique_id, numbers_of(form.cards()))
                    &&& drawn@ == (old(self)@.me(account_unique_id).deck + numbers_of(form.cards())).take(
                        drawn_count(
                            (old(self)@.me(account_unique_id).deck + numbers_of(form.cards())).len(),
                            redraw_count(form.cards().len()),
                        ),
                    )
                },
                Err(e) => {
                    &&& old(self)@.mulligan_rejection(account_unique_id, numbers_of(form.cards())) == Some(e)
                    &&& final(self)@ == old(self)@
                },
            },
    {
        let check = form.to_check_cards_from_hand_request();
        self.mulligan(account_unique_id, &check.hand_card_list)
    }
}

} // verus!
