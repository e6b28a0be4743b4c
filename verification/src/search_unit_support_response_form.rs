//! The answer to the use of a support card that searches the deck for units.

use vstd::prelude::*;
use crate::response::{
    FalseMessage, GameDeckCardListResponse, GenerateSearchMyDeckDataResponse,
    GenerateUseMyHandCardDataResponse,
};
use crate::ui_data::PlayerIndexMap;

verus! {

/// The number that an answer carries when there is no message.
pub const NO_FALSE_MESSAGE: i32 = -1;

/// What the player who searched is told: whether it worked, why not, the
/// cards found and the deck as it is now.
#[derive(Clone, Debug)]
pub struct SearchUnitSupportResponseForm {
    is_success: bool,
    false_message_enum: i32,
    player_search_card_list_map: PlayerIndexMap<Vec<i32>>,
    updated_deck_card_list: Vec<i32>,
}

impl SearchUnitSupportResponseForm {
    pub closed spec fn success(&self) -> bool {
        self.is_success
    }

    pub closed spec fn false_message(&self) -> i32 {
        self.false_message_enum
    }

    pub closed spec fn search_card_list_map(&self) -> PlayerIndexMap<Vec<i32>> {
        self.player_search_card_list_map
    }

    pub closed spec fn deck_card_list(&self) -> Seq<i32> {
        self.updated_deck_card_list@
    }

    /// The form is a failure that carries `message` and nothing else.
    pub open spec fn is_failure_with(&self, message: i32) -> bool {
        &&& !self.success()
        &&& self.false_message() == message
        &&& self.search_card_list_map().you.is_none()
        &&& self.search_card_list_map().opponent.is_none()
        &&& self.deck_card_list() == Seq::<i32>::empty()
    }

    pub fn new(
        is_success: bool,
        false_message_enum: i32,
        player_search_card_list_map: PlayerIndexMap<Vec<i32>>,
        updated_deck_card_list: Vec<i32>,
    ) -> (r: Self)
        ensures
            r.success() == is_success,
            r.false_message() == false_message_enum,
            r.search_card_list_map() == player_search_card_list_map,
            r.deck_card_list() == updated_deck_card_list@,
    {
        SearchUnitSupportResponseForm {
            is_success,
            false_message_enum,
            player_search_card_list_map,
            updated_deck_card_list,
        }
    }

    /// The answer made of what the engine's parts answered: it succeeds as
    /// the use of the card did, and carries no message.
    pub fn from_response(
        generate_use_my_hand_card_data_response: GenerateUseMyHandCardDataResponse,
        generate_search_my_deck_data_response: GenerateSearchMyDeckDataResponse,
        game_deck_card_list_response: GameDeckCardListResponse,
    ) -> (r: SearchUnitSupportResponseForm)
        ensures
            r.success() == generate_use_my_hand_card_data_response.is_success_for_response,
            r.false_message() == NO_FALSE_MESSAGE,
            r.search_card_list_map()
                == generate_search_my_deck_data_response.player_search_card_list_map_for_response,
            r.deck_card_list() == game_deck_card_list_response.deck_card_list@,
    {
        SearchUnitSupportResponseForm::new(
            generate_use_my_hand_card_data_response.is_success_for_response,
            NO_FALSE_MESSAGE,
            generate_search_my_deck_data_response.player_search_card_list_map_for_response,
            game_deck_card_list_response.deck_card_list,
        )
    }

    /// The failure without a message.
    pub fn default() -> (r: SearchUnitSupportResponseForm)
        ensures
            r.is_failure_with(NO_FALSE_MESSAGE),
    {
        SearchUnitSupportResponseForm::new(false, NO_FALSE_MESSAGE, PlayerIndexMap::new(), Vec::new())
    }

    /// The failure that carries `false_message`.
    pub fn from_false_response_with_message(false_message: FalseMessage) -> (r:
        SearchUnitSupportResponseForm)
        ensures
            r.is_failure_with(false_message.number()),
    {
        SearchUnitSupportResponseForm::new(false, false_message.code(), PlayerIndexMap::new(), Vec::new())
    }

    pub fn is_success(&self) -> (r: bool)
        ensures
            r == self.success(),
    {
        self.is_success
    }

    pub fn get_false_message_enum(&self) -> (r: i32)
        ensures
            r == self.false_message(),
    {
        self.false_message_enum
    }

    pub fn get_player_search_card_list_map(&self) -> (r: &PlayerIndexMap<Vec<i32>>)
        ensures
            *r == self.search_card_list_map(),
    {
        &self.player_search_card_list_map
    }

    pub fn get_updated_deck_card_list(&self) -> (r: &Vec<i32>)
        ensures
            r@ == self.deck_card_list(),
    {
        &self.updated_deck_card_list
    }
}

} // verus!
