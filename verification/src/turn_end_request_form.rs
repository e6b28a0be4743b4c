//! The request to end a turn, and the requests it makes of the engine.

use vstd::prelude::*;
use crate::request::{
    AddFieldEnergyWithAmountRequest, ApplyStatusEffectDamageIterativelyRequest, DrawCardsFromDeckRequest,
    FindOpponentByAccountIdRequest, GetValueWithKeyRequest, NextGameRoundRequest, NextTurnRequest,
};

verus! {

/// The number of cards that the new owner of the turn draws.
pub const TURN_DRAW_COUNT: i32 = 1;

/// The field energy that the new owner of the turn is granted.
pub const TURN_ENERGY_GRANT: i32 = 1;

/// A player's request to end the turn.
#[derive(Debug)]
pub struct TurnEndRequestForm {
    session_id: String,
}

impl TurnEndRequestForm {
    /// The session that makes the request.
    pub closed spec fn session(&self) -> Seq<char> {
        self.session_id@
    }

    pub fn new(session_id: String) -> (r: Self)
        ensures
            r.session() == session_id@,
    {
        TurnEndRequestForm { session_id }
    }

    pub fn get_session_id(&self) -> (r: &str)
        ensures
            r@ == self.session(),
    {
        self.session_id.as_str()
    }

    pub fn to_session_validation_request(&self) -> (r: GetValueWithKeyRequest)
        ensures
            r.key@ == self.session(),
    {
        GetValueWithKeyRequest::new(self.session_id.clone())
    }

    pub fn to_find_opponent_by_account_id_request(&self, account_unique_id: i32) -> (r:
        FindOpponentByAccountIdRequest)
        ensures
            r == (FindOpponentByAccountIdRequest { account_unique_id }),
    {
        FindOpponentByAccountIdRequest::new(account_unique_id)
    }

    pub fn to_apply_status_effect_damage_iteratively_request(&self, account_unique_id: i32) -> (r:
        ApplyStatusEffectDamageIterativelyRequest)
        ensures
            r == (ApplyStatusEffectDamageIterativelyRequest { account_unique_id }),
    {
        ApplyStatusEffectDamageIterativelyRequest::new(account_unique_id)
    }

    pub fn to_next_turn_request(&self, account_unique_id: i32) -> (r: NextTurnRequest)
        ensures
            r == (NextTurnRequest { account_unique_id }),
    {
        NextTurnRequest::new(account_unique_id)
    }

    pub fn to_next_round_request(&self) -> (r: NextGameRoundRequest)
        ensures
            r.session_id@ == self.session(),
    {
        NextGameRoundRequest::new(self.session_id.clone())
    }

    /// The new owner of the turn draws one card.
    pub fn to_draw_cards_from_deck_request(&self, opponent_account_unique_id: i32) -> (r:
        DrawCardsFromDeckRequest)
        ensures
            r == (DrawCardsFromDeckRequest {
                account_unique_id: opponent_account_unique_id,
                draw_count: TURN_DRAW_COUNT,
            }),
    {
        DrawCardsFromDeckRequest::new(opponent_account_unique_id, TURN_DRAW_COUNT)
    }

    /// The new owner of the turn is granted one field energy.
    pub fn to_add_field_energy_request(&self, opponent_account_unique_id: i32) -> (r:
        AddFieldEnergyWithAmountRequest)
        ensures
            r == (AddFieldEnergyWithAmountRequest {
                account_unique_id: opponent_account_unique_id,
                amount: TURN_ENERGY_GRANT,
            }),
    {
        AddFieldEnergyWithAmountRequest::new(opponent_account_unique_id, TURN_ENERGY_GRANT)
    }
}

} // verus!
