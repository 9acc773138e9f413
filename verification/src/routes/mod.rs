//! The decisions of the HTTP route handlers.
//!
//! Each handler of the API reads from and writes to the database around a
//! decision: whether a username is free, whether a password matches, which
//! records a new character or game changes, how game records add up on the
//! leaderboard, which events a stream forwards. Those decisions, and the error
//! each failure is answered with, are here; the handlers in the application
//! make the database calls.
use vstd::prelude::*;
use vstd::string::StringExecFns;

use crate::error::AppError;

pub mod auth;
pub mod character;
pub mod game;
pub mod session;

verus! {

/// `prefix + middle + suffix` as a new string.
pub fn concat3(prefix: &str, middle: &str, suffix: &str) -> (r: String)
    ensures
        r@ == prefix@ + middle@ + suffix@,
{
    let mut s = String::from_str(prefix);
    s.append(middle);
    s.append(suffix);
    s
}

/// The value, or a not-found error with the given message.
pub fn require<T>(value: Option<T>, message: String) -> (r: Result<T, AppError>)
    ensures
        match value {
            Some(v) => r == Ok::<T, AppError>(v),
            None => r == Err::<T, AppError>(AppError::NotFound(message)),
        },
{
    match value {
        Some(v) => Ok(v),
        None => Err(AppError::NotFound(message)),
    }
}

} // verus!
