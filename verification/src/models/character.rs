//! Player character model.
//!
//! A [`Character`] belongs to exactly one [`crate::models::user::User`] and
//! accumulates a list of games it has participated in. Combat stats are
//! stored in a nested [`Stats`] struct.
use vstd::prelude::*;

use crate::{models::new_id, providers::is_hyphenated_uuid};

verus! {

/// A player character stored in the database.
#[derive(Debug, Clone)]
pub struct Character {
    /// Unique character identifier (UUID v7).
    pub id: String,
    /// ID of the [`crate::models::user::User`] who owns this character.
    pub owner: String,
    /// Display name chosen by the player.
    pub name: String,
    /// Combat statistics that influence game-engine calculations.
    pub stats: Stats,
    /// IDs of all games this character has been used in.
    pub games: Vec<String>,
}

/// Combat statistics for a [`Character`].
///
/// All values are used as *scaling factors* inside the game engine rather than
/// absolute numbers.
#[derive(Debug, Clone, Copy, PartialEq, Eq, Structural)]
pub struct Stats {
    /// Scales attack damage output.
    pub power: i64,
    /// Determines how frequently the character acts (lower turn interval =
    /// faster).
    pub speed: i64,
    /// Scales block and heal amounts.
    pub defense: i64,
}

/// Request body for the `POST /character/new` endpoint.
#[derive(Debug, Clone)]
pub struct CreateCharacterRequest {
    /// ID of the owning user.
    pub player_id: String,
    /// Display name for the new character.
    pub character_name: String,
    /// Initial power stat.
    pub power: i64,
    /// Initial speed stat.
    pub speed: i64,
    /// Initial defense stat.
    pub defense: i64,
}

/// Response body returned after a successful `POST /character/new`.
#[derive(Debug, Clone)]
pub struct CreateCharacterResponse {
    /// ID of the newly created character.
    pub character_id: String,
}

impl Character {
    /// Construct a new character with a generated UUID v7 identifier.
    pub fn new(owner: String, name: String, power: i64, speed: i64, defense: i64) -> (r: Self)
        ensures
            is_hyphenated_uuid(r.id@),
            r.owner == owner,
            r.name == name,
            r.stats == (Stats { power, speed, defense }),
            r.games@.len() == 0,
    {
        Character {
            id: new_id(),
            owner,
            name,
            stats: Stats { power, speed, defense },
            games: Vec::new(),
        }
    }
}

} // verus!
