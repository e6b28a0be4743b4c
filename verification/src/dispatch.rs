//! Which service a request is for, by the protocol number it carries.

use vstd::prelude::*;

verus! {

#[verifier::external_type_specification]
#[verifier::external_body]
pub struct ExJsonValue(serde_json::Value);

/// The member of a request that carries the protocol number.
pub const PROTOCOL_NUMBER_KEY: &'static str = "protocolNumber";

/// Calls `serde_json::Value::get` with a text key, which finds a member only
/// in a JSON object, and hands the member out as the integer that
/// `serde_json::Value::as_i64` makes of it. The contract claims that this is
/// the entry of [`json_integers`] under the key, if there is one.
#[verifier::external_body]
fn json_integer_member(data: &serde_json::Value, key: &str) -> (r: Option<i64>)
    ensures
        r == (if json_integers(*data).contains_key(key@) {
            Some(json_integers(*data)[key@])
        } else {
            None
        }),
{
    data.get(key).and_then(|member| member.as_i64())
}

/// A service that a request can be for.
#[derive(Clone, Copy, Debug, PartialEq, Eq, Structural)]
pub enum ServiceCall {
    AccountRegister,
    AccountLogin,
    AccountSessionLogin,
    BattleMatch,
    ClientProgramExit,
}

/// The service that a protocol number stands for: 1 registers an account, 2
/// logs in, 3 logs in with a session, 12 asks for a match and 4444 leaves
/// the program. No other number, and no request without a number, is served.
pub open spec fn service_of(protocol_number: Option<i64>) -> Option<ServiceCall> {
    match protocol_number {
        Some(number) => if number == 1 {
            Some(ServiceCall::AccountRegister)
        } else if number == 2 {
            Some(ServiceCall::AccountLogin)
        } else if number == 3 {
            Some(ServiceCall::AccountSessionLogin)
        } else if number == 12 {
            Some(ServiceCall::BattleMatch)
        } else if number == 4444 {
            Some(ServiceCall::ClientProgramExit)
        } else {
            None
        },
        None => None,
    }
}

/// The service that a protocol number stands for.
pub fn service_for_protocol_number(protocol_number: Option<i64>) -> (r: Option<ServiceCall>)
    ensures
        r == service_of(protocol_number),
{
    match protocol_number {
        Some(1) => Some(ServiceCall::AccountRegister),
        Some(2) => Some(ServiceCall::AccountLogin),
        Some(3) => Some(ServiceCall::AccountSessionLogin),
        Some(12) => Some(ServiceCall::BattleMatch),
        Some(4444) => Some(ServiceCall::ClientProgramExit),
        _ => None,
    }
}

/// The protocol number that a request carries, if it carries one.
fn read_protocol_number(data: &serde_json::Value) -> (r: Option<i64>)
    ensures
        r == protocol_number_of(json_integers(*data)),
{
    json_integer_member(data, PROTOCOL_NUMBER_KEY)
}

/// The service that a request is for: the one that its protocol number
/// stands for, and none where the request carries no such number.
pub fn select_service(data: &serde_json::Value) -> (r: Option<ServiceCall>)
    ensures
        r == service_of(protocol_number_of(json_integers(*data))),
{
    let number = read_protocol_number(data);
    service_for_protocol_number(number)
}

/// What a JSON value holds of integers: for each member of a JSON object
/// whose value is an integer that an `i64` can hold, that integer under the
/// member's key. A JSON value that is no object holds none.
pub uninterp spec fn json_integers(data: serde_json::Value) -> Map<Seq<char>, i64>;

/// The protocol number among the integer members of a request: the entry
/// under [`PROTOCOL_NUMBER_KEY`], if there is one.
pub open spec fn protocol_number_of(integers: Map<Seq<char>, i64>) -> Option<i64> {
    if integers.contains_key(PROTOCOL_NUMBER_KEY@) {
        Some(integers[PROTOCOL_NUMBER_KEY@])
    } else {
        None
    }
}

} // verus!
