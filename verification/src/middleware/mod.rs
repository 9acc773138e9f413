//! Request middleware rules.
//!
//! Currently provides [`auth`] for request authentication.
pub mod auth;
