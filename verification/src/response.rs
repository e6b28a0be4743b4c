//! The answers of the engine's parts that a response form is made from.

use vstd::prelude::*;
use crate::ui_data::PlayerIndexMap;

verus! {

/// Why a request was answered with a failure, as the remote player is told.
#[derive(Clone, Copy, Debug, PartialEq, Eq, Structural)]
pub enum FalseMessage {
    Dummy,
    MythicalCardRoundLimit,
    NotYourTurn,
    NotEnoughEnergy,
    UnitAlreadyActed,
    PhysicalImmunity,
}

impl FalseMessage {
    /// The number that stands for the message: its place among the messages,
    /// counted from 0.
    pub open spec fn number(self) -> i32 {
        match self {
            FalseMessage::Dummy => 0,
            FalseMessage::MythicalCardRoundLimit => 1,
            FalseMessage::NotYourTurn => 2,
            FalseMessage::NotEnoughEnergy => 3,
            FalseMessage::UnitAlreadyActed => 4,
            FalseMessage::PhysicalImmunity => 5,
        }
    }

    /// Computes [`FalseMessage::number`].
    pub fn code(&self) -> (r: i32)
        ensures
            r == self.number(),
    {
        match self {
            FalseMessage::Dummy => 0,
            FalseMessage::MythicalCardRoundLimit => 1,
            FalseMessage::NotYourTurn => 2,
            FalseMessage::NotEnoughEnergy => 3,
            FalseMessage::UnitAlreadyActed => 4,
            FalseMessage::PhysicalImmunity => 5,
        }
    }
}

/// Whether the use of a card from the hand could be shown.
#[derive(Clone, Debug, PartialEq, Eq)]
pub struct GenerateUseMyHandCardDataResponse {
    pub is_success_for_response: bool,
}

/// The cards found in a deck, by the side of the field they belong to.
#[derive(Clone, Debug, PartialEq, Eq)]
pub struct GenerateSearchMyDeckDataResponse {
    pub player_search_card_list_map_for_response: PlayerIndexMap<Vec<i32>>,
}

/// The cards of a deck.
#[derive(Clone, Debug, PartialEq, Eq)]
pub struct GameDeckCardListResponse {
    pub deck_card_list: Vec<i32>,
}

} // verus!
