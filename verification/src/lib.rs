//! Server-side rules of a two-player, turn-based card battle.
//!
//! The crate owns the state of one match (fields, hands, decks, tombs, energy,
//! turn and round) and resolves the actions that change it: deploying a unit,
//! attacking with one, using a passive skill, ending a turn. Every executable
//! function carries a contract over the mathematical model of that state, and
//! [`laws`] states what holds of the rules as a whole.
//!
//! An action names the account that asks for it. Resolving a session to an
//! account, locking a match and sending notices are left to the caller.

// The cards and what stands on the table.
pub mod card;
pub mod unit;
pub mod field;
pub mod stores;
pub mod battle;
pub mod player;

// The rules.
pub mod validator;
pub mod skill;
pub mod combat;
pub mod passive;
pub mod turn;
pub mod laws;
pub mod conservation;

// What the players are told.
pub mod ui_data;
pub mod notify;
pub mod notify_player_action_info;

// Requests, answers and the forms they come in.
pub mod request;
pub mod response;
pub mod deploy_non_targeting_attack_passive_skill_request_form;
pub mod mulligan_request_form;
pub mod search_unit_support_response_form;
pub mod turn_end_request_form;

// Sessions, accounts and the choice of a service.
pub mod account;
pub mod dispatch;
pub mod session;
