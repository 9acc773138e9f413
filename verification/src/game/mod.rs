//! The live game loop: the combat engine that resolves turns.
pub mod laws;
pub mod runner;
