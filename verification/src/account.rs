//! Logging an account in: the stored password hash decides, and a session
//! token stands for the account from then on.

use vstd::prelude::*;

verus! {

/// What `bcrypt::verify` makes of a password and a stored hash: whether the
/// password is the one that was hashed, or nothing where the hash is not a
/// bcrypt hash.
pub uninterp spec fn bcrypt_verified(password: Seq<char>, hash: Seq<char>) -> Option<bool>;

/// Calls `bcrypt::verify`, which reads cost and salt from the hash, hashes the
/// password with them and compares. The contract claims no more than that
/// the outcome depends on the two texts alone; a hash that the call rejects
/// gives `None`.
#[verifier::external_body]
fn verify_password(password: &str, hash: &str) -> (r: Option<bool>)
    ensures
        r == bcrypt_verified(password@, hash@),
{
    bcrypt::verify(password, hash).ok()
}

/// Calls `uuid::Uuid::new_v4` and writes the random id as text. Nothing is
/// claimed of the result.
#[verifier::external_body]
fn new_session_token() -> (r: String) {
    uuid::Uuid::new_v4().to_string()
}

/// An account as it is stored: its id, its user id and the hash of its
/// password.
#[derive(Clone, Debug)]
pub struct StoredAccount {
    pub id: i32,
    pub user_id: String,
    pub password: String,
}

/// A session that was opened for an account.
#[derive(Clone, Debug)]
pub struct SessionGrant {
    pub redis_token: String,
    pub account_unique_id: i32,
}

/// The answer to a login: the session token, or an empty text for a login
/// that failed.
#[derive(Clone, Debug)]
pub struct AccountLoginResponse {
    pub redis_token: String,
}

/// A login is granted to an account that was found and whose stored hash
/// is that of the password given.
pub open spec fn login_granted(found: bool, verified: Option<bool>) -> bool {
    found && verified == Some(true)
}

/// Whether a login is granted, given whether the account was found and what
/// the comparison of the password with its stored hash gave.
pub fn is_login_granted(found: bool, verified: Option<bool>) -> (r: bool)
    ensures
        r == login_granted(found, verified),
{
    match verified {
        Some(matches) => found && matches,
        None => false,
    }
}

/// Logs in with `password` to the account that was found for the user id, if
/// one was. A session is granted, under a fresh token, exactly when an
/// account was found and the password is the one its hash was made of.
pub fn account_login(found_account: Option<&StoredAccount>, password: &str) -> (r: Option<SessionGrant>)
    ensures
        r.is_some() == (found_account.is_some() && login_granted(
            true,
            bcrypt_verified(password@, found_account.unwrap().password@),
        )),
        r.is_some() ==> r.unwrap().account_unique_id == found_account.unwrap().id,
{
    match found_account {
        Some(account) => {
            let verified = verify_password(password, account.password.as_str());
            if is_login_granted(true, verified) {
                Some(SessionGrant { redis_token: new_session_token(), account_unique_id: account.id })
            } else {
                None
            }
        },
        None => None,
    }
}

/// The answer to a login: the token of the session that was granted, or an
/// empty text.
pub fn login_response(grant: Option<SessionGrant>) -> (r: AccountLoginResponse)
    ensures
        r.redis_token@ == match grant {
            Some(session) => session.redis_token@,
            None => Seq::<char>::empty(),
        },
{
    match grant {
        Some(session) => AccountLoginResponse { redis_token: session.redis_token },
        None => AccountLoginResponse { redis_token: String::new() },
    }
}

} // verus!
