//! Domain model types shared across the application.
//!
//! Defines [`Action`], the combat action taken by a player or enemy during
//! their turn, and the user, character and game records.
use vstd::prelude::*;

use crate::providers::{is_hyphenated_uuid, uuid_now_v7, uuid_text};

pub mod character;
pub mod game;
pub mod user;

verus! {

/// A combat action that can be taken during a turn.
///
/// The `i64` payload in each variant is a *stat value* (power, defense, etc.)
/// that the game engine scales into an actual damage/block/heal amount using a
/// random multiplier.
#[derive(Debug, Clone, Copy, PartialEq, Eq, Structural)]
pub enum Action {
    /// Deal damage to the opponent scaled from the attacker's power stat.
    Attack(i64),
    /// Set a block value scaled from the defender's defense stat, absorbing
    /// incoming damage until the block is consumed or the turn ends.
    Defend(i64),
    /// Restore HP to the acting combatant scaled from their defense stat.
    Heal(i64),
    /// Pass the turn without taking any action (`"None"` on the wire).
    NoAction,
}

/// A fresh unique identifier: the hyphenated text of a new UUID v7.
pub fn new_id() -> (r: String)
    ensures
        is_hyphenated_uuid(r@),
{
    uuid_text(&uuid_now_v7())
}

} // verus!
