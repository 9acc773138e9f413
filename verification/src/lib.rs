//! Turn-based RPG game server library: the domain model, the enemy behaviours,
//! the combat engine that resolves turns, and the request-handling rules of the
//! HTTP API (authentication, account and character creation, leaderboards).
//!
//! Everything that talks to the network, the database or the clock lives in the
//! application crate; this library holds the logic and its proofs.
pub mod config;
pub mod enemys;
pub mod error;
pub mod game;
pub mod middleware;
pub mod models;
pub mod providers;
pub mod routes;
