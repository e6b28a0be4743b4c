//! The request to change cards of the opening hand, and the requests it makes
//! of the engine.

use vstd::prelude::*;
use crate::request::{
    CheckCardsFromHandRequest, GameDeckCardRedrawRequest, GetValueWithKeyRequest, PutCardsOnDeckRequest,
};
use crate::session::{numbers_of, vector_string_to_vector_i32};

verus! {

/// The number of cards to draw again for `count` cards put back: `count`,
/// or the largest number an `i32` holds where `count` is beyond it.
pub open spec fn redraw_count(count: nat) -> i32 {
    if count > i32::MAX {
        i32::MAX
    } else {
        count as i32
    }
}

/// A player's request to put cards of the hand back and draw as many again.
#[derive(Debug)]
pub struct MulliganRequestForm {
    session_id: String,
    will_be_changed_card_list: Vec<String>,
}

impl MulliganRequestForm {
    /// The session that makes the request.
    pub closed spec fn session(&self) -> Seq<char> {
        self.session_id@
    }

    /// The cards to change, as the request writes them.
    pub closed spec fn cards(&self) -> Seq<String> {
        self.will_be_changed_card_list@
    }

    pub fn new(session_id: String, will_be_changed_card_list: Vec<String>) -> (r: Self)
        ensures
            r.session() == session_id@,
            r.cards() == will_be_changed_card_list@,
    {
        MulliganRequestForm { session_id, will_be_changed_card_list }
    }

    pub fn to_put_cards_on_deck_request(&self) -> (r: PutCardsOnDeckRequest)
        ensures
            r.session_id@ == self.session(),
            r.will_be_changed_card_list@ == self.cards(),
    {
        let cards = self.will_be_changed_card_list.clone();
        assert(cards@ =~= self.will_be_changed_card_list@);
        PutCardsOnDeckRequest::new(self.session_id.clone(), cards)
    }

    pub fn to_shuffle_and_redraw_card_request(&self) -> (r: GameDeckCardRedrawRequest)
        ensures
            r.session_id@ == self.session(),
            r.redraw_card_count == redraw_count(self.cards().len()),
    {
        let count: i32 = if self.will_be_changed_card_list.len() > 0x7fff_ffff {
            0x7fff_ffff
        } else {
            self.will_be_changed_card_list.len() as i32
        };
        GameDeckCardRedrawRequest::new(self.session_id.clone(), count)
    }

    pub fn to_get_value_with_key_request(&self) -> (r: GetValueWithKeyRequest)
        ensures
            r.key@ == self.session(),
    {
        GetValueWithKeyRequest::new(self.session_id.clone())
    }

    /// The cards to change as card ids, with -1 for one that is no number.
    pub fn to_check_cards_from_hand_request(&self) -> (r: CheckCardsFromHandRequest)
        ensures
            r.session_id@ == self.session(),
            r.hand_card_list@ == numbers_of(self.cards()),
    {
        let maybe_hand_card_list = vector_string_to_vector_i32(&self.will_be_changed_card_list);
        CheckCardsFromHandRequest::new(self.session_id.clone(), maybe_hand_card_list)
    }
}

} // verus!
