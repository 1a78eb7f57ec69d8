//! The credential verifier: hashes passwords and checks them against a
//! stored hash.
//!
//! The hashing is bcrypt's, from the `bcrypt` crate: salted, deliberately
//! slow, with the salt and the cost held in the hash itself.

use crate::error::{AppError, AppErrorView};
use vstd::prelude::*;
use vstd::string::*;

verus! {

/// The cost of hashing a password: the work doubles with each step.
pub const HASH_COST: u32 = 12;

/// Lowest cost bcrypt accepts.
pub const MIN_HASH_COST: u32 = 4;

/// Highest cost bcrypt accepts.
pub const MAX_HASH_COST: u32 = 31;

/// What `bcrypt::verify` says of a password and a stored hash: whether
/// they match, or nothing where it rejects the hash as malformed.
pub uninterp spec fn bcrypt_verdict(password: Seq<char>, hash: Seq<char>) -> Option<bool>;

/// Hashes a password with `bcrypt::hash`, which draws a fresh salt.
///
/// Not proved: that `bcrypt::verify` accepts the password against the hash
/// that comes back. Nothing is said of when hashing succeeds, nor of which
/// hash is made: two calls on one password give different hashes.
#[verifier::external_body]
fn bcrypt_hash(password: &str, cost: u32) -> (hash: Result<String, String>)
    ensures
        hash matches Ok(h) ==> bcrypt_verdict(password@, h@) == Some(true),
{
    bcrypt::hash(password, cost).map_err(|e| e.to_string())
}

/// Checks a password against a stored hash with `bcrypt::verify`.
///
/// Not proved: the result is the crate's, known here by name only.
#[verifier::external_body]
fn bcrypt_verify(password: &str, hash: &str) -> (verdict: Result<bool, String>)
    ensures
        match verdict {
            Ok(accepted) => bcrypt_verdict(password@, hash@) == Some(accepted),
            Err(_) => bcrypt_verdict(password@, hash@) is None,
        },
{
    bcrypt::verify(password, hash).map_err(|e| e.to_string())
}

/// The outcome of checking a password, from what the hashing library said:
/// its verdict, or an internal error where it rejected the stored hash.
pub open spec fn password_check(verdict: Option<bool>) -> Result<bool, AppErrorView> {
    match verdict {
        Some(accepted) => Ok(accepted),
        None => Err(AppErrorView::Internal("Failed to verify password"@)),
    }
}

/// Hashes a password at the given cost. The hash that comes back holds its
/// salt and matches the password.
///
/// Fails with an internal error only where the hashing library reports a
/// fault, as it does for a cost outside 4 to 31.
pub fn hash_password_with_cost(password: &str, cost: u32) -> (hash: Result<String, AppError>)
    ensures
        match hash {
            Ok(h) => bcrypt_verdict(password@, h@) == Some(true),
            Err(e) => {
                &&& e@ matches AppErrorView::Internal(m)
                &&& "Failed to hash password: "@.is_prefix_of(m)
            },
        },
{
    match bcrypt_hash(password, cost) {
        Ok(hash) => Ok(hash),
        Err(cause) => {
            let message = String::from_str("Failed to hash password: ").concat(cause.as_str());
            Err(AppError::Internal(message))
        },
    }
}

/// Hashes a password at the standard cost.
pub fn hash_password(password: &str) -> (hash: Result<String, AppError>)
    ensures
        match hash {
            Ok(h) => bcrypt_verdict(password@, h@) == Some(true),
            Err(e) => {
                &&& e@ matches AppErrorView::Internal(m)
                &&& "Failed to hash password: "@.is_prefix_of(m)
            },
        },
{
    hash_password_with_cost(password, HASH_COST)
}

/// Turns the hashing library's answer into the outcome of the check: a
/// mismatch is an ordinary `false`, a malformed hash an internal error.
pub fn password_verdict(answer: Option<bool>) -> (verdict: Result<bool, AppError>)
    ensures
        match verdict {
            Ok(accepted) => password_check(answer) == Ok::<bool, AppErrorView>(accepted),
            Err(e) => password_check(answer) == Err::<bool, AppErrorView>(e@),
        },
{
    match answer {
        Some(accepted) => Ok(accepted),
        None => Err(AppError::Internal(String::from_str("Failed to verify password"))),
    }
}

/// Checks a password against a stored hash.
pub fn verify_password(password: &str, hash: &str) -> (verdict: Result<bool, AppError>)
    ensures
        match verdict {
            Ok(accepted) => password_check(bcrypt_verdict(password@, hash@))
                == Ok::<bool, AppErrorView>(accepted),
            Err(e) => password_check(bcrypt_verdict(password@, hash@))
                == Err::<bool, AppErrorView>(e@),
        },
{
    let answer = match bcrypt_verify(password, hash) {
        Ok(accepted) => Some(accepted),
        Err(_) => None,
    };
    password_verdict(answer)
}

} // verus!
