//! Character routes: listing a user's characters, fetching one, and creating
//! a new one linked to its owner.
use vstd::prelude::*;

use crate::{
    error::AppError,
    models::{
        character::{Character, CreateCharacterRequest, Stats},
        user::User,
    },
    providers::is_hyphenated_uuid,
    routes::{concat3, require},
};

verus! {

/// The message of the error answering a request about an unknown user.
pub open spec fn unknown_user_id_message(user_id: Seq<char>) -> Seq<char> {
    "User with id, "@ + user_id + ", Does not exist."@
}

/// The message of the error answering a request about an unknown character.
pub open spec fn unknown_character_message(character_id: Seq<char>) -> Seq<char> {
    "Character with id, "@ + character_id + ", Does not exist."@
}

/// The message of the error answering a character creation for an unknown
/// owner.
pub open spec fn unknown_owner_message(player_id: Seq<char>) -> Seq<char> {
    "User with id, "@ + player_id + ", Does Not Exist."@
}

/// The IDs of the characters of the user found under `user_id` (if any), to
/// be fetched for `GET /character/all/:user_id`.
///
/// # Errors
///
/// - [`AppError::NotFound`] if no user exists with the given ID.
pub fn characters_of(user: Option<User>, user_id: &String) -> (r: Result<Vec<String>, AppError>)
    ensures
        match user {
            Some(u) => r == Ok::<Vec<String>, AppError>(u.characters),
            None => r matches Err(AppError::NotFound(m)) && m@ == unknown_user_id_message(
                user_id@,
            ),
        },
{
    let user = require(user, concat3("User with id, ", user_id.as_str(), ", Does not exist."))?;
    Ok(user.characters)
}

/// The character found under `character_id` for `GET /character/:character_id`.
///
/// # Errors
///
/// - [`AppError::NotFound`] if no character exists with the given ID.
pub fn found_character(character: Option<Character>, character_id: &String) -> (r: Result<
    Character,
    AppError,
>)
    ensures
        match character {
            Some(c) => r == Ok::<Character, AppError>(c),
            None => r matches Err(AppError::NotFound(m)) && m@ == unknown_character_message(
                character_id@,
            ),
        },
{
    require(character, concat3("Character with id, ", character_id.as_str(), ", Does not exist."))
}

/// Create a new character and register it on the owning user's character
/// list, given the user found under the request's `player_id` (if any).
/// Returns the character to insert and the user to store.
///
/// # Errors
///
/// - [`AppError::NotFound`] if the specified `player_id` does not correspond
///   to an existing user.
pub fn create_character_for(request: CreateCharacterRequest, player: Option<User>) -> (r: Result<
    (Character, User),
    AppError,
>)
    ensures
        match player {
            Some(p) => r matches Ok((c, p2)) && {
                &&& is_hyphenated_uuid(c.id@)
                &&& c.owner == request.player_id
                &&& c.name == request.character_name
                &&& c.stats == (Stats {
                    power: request.power,
                    speed: request.speed,
                    defense: request.defense,
                })
                &&& c.games@.len() == 0
                &&& p2.id == p.id
                &&& p2.username == p.username
                &&& p2.password_hash == p.password_hash
                &&& p2.secret == p.secret
                &&& p2.characters@ == p.characters@.push(c.id)
            },
            None => r matches Err(AppError::NotFound(m)) && m@ == unknown_owner_message(
                request.player_id@,
            ),
        },
{
    let character = Character::new(
        request.player_id.clone(),
        request.character_name,
        request.power,
        request.speed,
        request.defense,
    );
    let mut player = require(
        player,
        concat3("User with id, ", request.player_id.as_str(), ", Does Not Exist."),
    )?;
    player.characters.push(character.id.clone());
    Ok((character, player))
}

} // verus!
