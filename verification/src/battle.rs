//! One match between two paired accounts: the state of both players, whose
//! turn it is and which round is played.

use vstd::prelude::*;
use vstd::multiset::Multiset;
use crate::field::{field_wf, FieldUnitTable};
use crate::stores::{Deck, EnergyPool, Hand, MainCharacter, Tomb};
use crate::unit::UnitModel;

verus! {

/// Why an action was refused.
#[derive(Clone, Copy, Debug, PartialEq, Eq, Structural)]
pub enum ActionError {
    /// No valid session: the account takes no part in this match.
    AuthenticationFailure,
    /// The request names a card the player does not hold or a card of the
    /// wrong kind, or cannot be read.
    ProtocolViolation,
    /// A rule of the game forbids the action now.
    RuleViolation,
    /// The unit or the card that the request names does not exist.
    NotFound,
}

/// From this round on mythical units may be deployed.
pub const MYTHICAL_UNIT_ROUND: i32 = 5;

/// Everything one player owns in a match.
#[derive(Debug)]
pub struct PlayerState {
    pub account_unique_id: i32,
    pub hand: Hand,
    pub deck: Deck,
    pub tomb: Tomb,
    pub field: FieldUnitTable,
    pub energy: EnergyPool,
    pub main_character: MainCharacter,
}

/// The mathematical value of a [`PlayerState`].
pub struct PlayerModel {
    pub account: i32,
    pub hand: Seq<i32>,
    pub deck: Seq<i32>,
    pub tomb: Multiset<i32>,
    pub field: Seq<UnitModel>,
    pub energy: i32,
    pub main_character: MainCharacter,
}

impl PlayerModel {
    /// The account id is a real one, the energy is not negative and the
    /// field is well formed.
    pub open spec fn wf(self) -> bool {
        &&& self.account >= 0
        &&& self.energy >= 0
        &&& field_wf(self.field, self.account)
    }
}

impl View for PlayerState {
    type V = PlayerModel;

    open spec fn view(&self) -> PlayerModel {
        PlayerModel {
            account: self.account_unique_id,
            hand: self.hand@,
            deck: self.deck@,
            tomb: self.tomb@,
            field: self.field@,
            energy: self.energy.count,
            main_character: self.main_character,
        }
    }
}

impl PlayerState {
    /// Whether the player is well formed.
    pub fn is_well_formed(&self) -> (r: bool)
        ensures
            r == self@.wf(),
    {
        self.account_unique_id >= 0 && self.energy.count >= 0 && self.field.is_well_formed(
            self.account_unique_id,
        )
    }

    /// A player at the start of a match: nothing on the field, nothing in
    /// the tomb, no energy.
    pub fn new(account_unique_id: i32, hand: Vec<i32>, deck: Vec<i32>, main_character_health: i32) -> (r: Self)
        ensures
            r@ == (PlayerModel {
                account: account_unique_id,
                hand: hand@,
                deck: deck@,
                tomb: Multiset::empty(),
                field: Seq::empty(),
                energy: 0,
                main_character: MainCharacter::fresh(main_character_health),
            }),
    {
        PlayerState {
            account_unique_id,
            hand: Hand::new(hand),
            deck: Deck::new(deck),
            tomb: Tomb::new(),
            field: FieldUnitTable::new(),
            energy: EnergyPool::new(),
            main_character: MainCharacter::new(main_character_health),
        }
    }
}

/// Whose turn it is and which round is played.
#[derive(Clone, Copy, Debug, PartialEq, Eq, Structural)]
pub struct TurnState {
    /// The account whose turn it is.
    pub owner: i32,
    /// The round, counted from 1.
    pub round: i32,
    /// One account has ended its turn in this round.
    pub half_round_done: bool,
}

impl TurnState {
    /// The turn state after `owner` has ended the turn and `next` takes
    /// over: the round goes up when this was the second turn to end in it.
    pub open spec fn passed_to(self, next: i32) -> TurnState {
        TurnState {
            owner: next,
            round: if self.half_round_done && self.round < i32::MAX {
                (self.round + 1) as i32
            } else {
                self.round
            },
            half_round_done: !self.half_round_done,
        }
    }
}

/// A match.
#[derive(Debug)]
pub struct Battle {
    pub first: PlayerState,
    pub second: PlayerState,
    pub turn: TurnState,
}

/// The mathematical value of a [`Battle`].
pub struct BattleModel {
    pub first: PlayerModel,
    pub second: PlayerModel,
    pub turn: TurnState,
}

impl BattleModel {
    /// Both players are well formed and are two accounts, one of them owns
    /// the turn, and rounds count from 1.
    pub open spec fn wf(self) -> bool {
        &&& self.first.wf()
        &&& self.second.wf()
        &&& self.first.account != self.second.account
        &&& (self.turn.owner == self.first.account || self.turn.owner == self.second.account)
        &&& self.turn.round >= 1
    }

    /// `account` is one of the two players.
    pub open spec fn has(self, account: i32) -> bool {
        account == self.first.account || account == self.second.account
    }

    /// The player `account`.
    pub open spec fn me(self, account: i32) -> PlayerModel {
        if account == self.first.account {
            self.first
        } else {
            self.second
        }
    }

    /// The opponent of `account`.
    pub open spec fn foe(self, account: i32) -> PlayerModel {
        if account == self.first.account {
            self.second
        } else {
            self.first
        }
    }

    /// The match in which `account` has become `me`, its opponent `foe`, and
    /// the turn state `turn`.
    pub open spec fn seated(self, account: i32, me: PlayerModel, foe: PlayerModel, turn: TurnState) -> BattleModel {
        if account == self.first.account {
            BattleModel { first: me, second: foe, turn }
        } else {
            BattleModel { first: foe, second: me, turn }
        }
    }

    /// Every unit on either field has an alive flag that says what its
    /// health says.
    pub open spec fn every_unit_consistent(self) -> bool {
        &&& forall|i: int| 0 <= i < self.first.field.len() ==> (#[trigger] self.first.field[i]).consistent()
        &&& forall|i: int|
            0 <= i < self.second.field.len() ==> (#[trigger] self.second.field[i]).consistent()
    }
}

impl View for Battle {
    type V = BattleModel;

    open spec fn view(&self) -> BattleModel {
        BattleModel { first: self.first@, second: self.second@, turn: self.turn }
    }
}

impl Battle {
    pub open spec fn wf(&self) -> bool {
        self@.wf()
    }

    /// Opens a match between two players. The first player owns the first
    /// turn of round 1. There is no match between an account and itself, nor
    /// with an account id below zero, nor with a player who already has units
    /// on the field or an energy count below zero.
    pub fn new(first: PlayerState, second: PlayerState) -> (r: Option<Battle>)
        ensures
            r.is_some() == (first@.wf() && second@.wf() && first@.field.len() == 0
                && second@.field.len() == 0 && first@.account != second@.account),
            r.is_some() ==> {
                &&& r.unwrap()@ == (BattleModel {
                    first: first@,
                    second: second@,
                    turn: TurnState { owner: first@.account, round: 1, half_round_done: false },
                })
                &&& r.unwrap().wf()
            },
    {
        if first.account_unique_id < 0 || second.account_unique_id < 0 || first.account_unique_id
            == second.account_unique_id {
            return None;
        }
        if first.energy.count < 0 || second.energy.count < 0 {
            return None;
        }
        if first.field.units.len() != 0 || second.field.units.len() != 0 {
            return None;
        }
        let owner: i32 = first.account_unique_id;
        Some(Battle { first, second, turn: TurnState { owner, round: 1, half_round_done: false } })
    }

    /// Whether the match is well formed.
    pub fn is_well_formed(&self) -> (r: bool)
        ensures
            r == self.wf(),
    {
        self.first.is_well_formed() && self.second.is_well_formed() && self.first.account_unique_id
            != self.second.account_unique_id && (self.turn.owner == self.first.account_unique_id
            || self.turn.owner == self.second.account_unique_id) && self.turn.round >= 1
    }

    /// Whether `account_unique_id` is one of the two players.
    pub fn is_participant(&self, account_unique_id: i32) -> (r: bool)
        ensures
            r == self@.has(account_unique_id),
    {
        account_unique_id == self.first.account_unique_id || account_unique_id
            == self.second.account_unique_id
    }

    /// The opponent of a player of this match.
    pub fn find_opponent_by_account_unique_id(&self, account_unique_id: i32) -> (r: Option<i32>)
        ensures
            r == if self@.has(account_unique_id) {
                Some(self@.foe(account_unique_id).account)
            } else {
                None
            },
    {
        if account_unique_id == self.first.account_unique_id {
            Some(self.second.account_unique_id)
        } else if account_unique_id == self.second.account_unique_id {
            Some(self.first.account_unique_id)
        } else {
            None
        }
    }

    /// Whether `account_unique_id` owns the turn.
    pub fn is_this_your_turn(&self, account_unique_id: i32) -> (r: bool)
        ensures
            r == (self@.has(account_unique_id) && self@.turn.owner == account_unique_id),
    {
        self.is_participant(account_unique_id) && self.turn.owner == account_unique_id
    }

    /// The state of the player `account_unique_id`, who takes part.
    pub fn player(&self, account_unique_id: i32) -> (r: &PlayerState)
        requires
            self@.has(account_unique_id),
        ensures
            r@ == self@.me(account_unique_id),
    {
        if account_unique_id == self.first.account_unique_id {
            &self.first
        } else {
            &self.second
        }
    }

    /// The state of the opponent of `account_unique_id`, who takes part.
    pub fn opponent(&self, account_unique_id: i32) -> (r: &PlayerState)
        requires
            self@.has(account_unique_id),
        ensures
            r@ == self@.foe(account_unique_id),
    {
        if account_unique_id == self.first.account_unique_id {
            &self.second
        } else {
            &self.first
        }
    }

    pub fn get_round(&self) -> (r: i32)
        ensures
            r == self@.turn.round,
    {
        self.turn.round
    }

    pub fn get_turn_owner(&self) -> (r: i32)
        ensures
            r == self@.turn.owner,
    {
        self.turn.owner
    }
}

} // verus!
