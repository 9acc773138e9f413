//! Game session routes: starting a live session, stopping it, sending the
//! player's actions, and streaming the session's events.
use vstd::prelude::*;

use crate::{
    error::AppError,
    models::game::{is_fresh_fighting_enemy, Game, Health, PlayerState},
    routes::concat3,
};
use vstd::string::StringExecFns;

verus! {

/// The message of the error answering a session start for an unknown game.
pub open spec fn unknown_game_message(game_id: Seq<char>) -> Seq<char> {
    "Game not found with id, '"@ + game_id + "'"@
}

/// The message of the error answering a session start whose character is
/// missing.
pub open spec fn missing_character_message(user_id: Seq<char>, character_id: Seq<char>) -> Seq<
    char,
> {
    "User or Character not found, '"@ + user_id + "' '"@ + character_id + "'"@
}

/// The message of the error answering a stop or an action for a game without
/// an active session.
pub open spec fn no_session_message(game_id: Seq<char>) -> Seq<char> {
    "No active session with id, '"@ + game_id + "'"@
}

/// The message of the error answering a stream request for a game without an
/// active session.
pub open spec fn no_stream_message(game_id: Seq<char>) -> Seq<char> {
    "No active session for user '"@ + game_id + "'"@
}

/// The not-found error answering a session start for an unknown game.
pub fn unknown_game(game_id: &String) -> (r: AppError)
    ensures
        r matches AppError::NotFound(m) && m@ == unknown_game_message(game_id@),
{
    AppError::NotFound(concat3("Game not found with id, '", game_id.as_str(), "'"))
}

/// The not-found error answering a session start whose character is missing.
pub fn missing_character(user_id: &String, character_id: &String) -> (r: AppError)
    ensures
        r matches AppError::NotFound(m) && m@ == missing_character_message(
            user_id@,
            character_id@,
        ),
{
    let mut m = concat3("User or Character not found, '", user_id.as_str(), "' '");
    m.append(character_id.as_str());
    m.append("'");
    AppError::NotFound(m)
}

/// The not-found error answering a stop or an action without a session.
pub fn no_session(game_id: &String) -> (r: AppError)
    ensures
        r matches AppError::NotFound(m) && m@ == no_session_message(game_id@),
{
    AppError::NotFound(concat3("No active session with id, '", game_id.as_str(), "'"))
}

/// The not-found error answering a stream request without a session.
pub fn no_stream(game_id: &String) -> (r: AppError)
    ensures
        r matches AppError::NotFound(m) && m@ == no_stream_message(game_id@),
{
    AppError::NotFound(concat3("No active session for user '", game_id.as_str(), "'"))
}

/// Prepare a loaded game record for a new session: a record whose player has
/// no maximum HP yet is set up (full HP and a fresh random enemy); any other
/// record is resumed as it is.
pub fn prepare_game(game: Game) -> (r: Game)
    ensures
        game.player_state.health.max == 0 ==> {
            &&& r.player_state == (PlayerState {
                next_turn: None,
                health: Health { current: 100, max: 100 },
                ..game.player_state
            })
            &&& is_fresh_fighting_enemy(r.enemy_state)
            &&& r.id == game.id
            &&& r.complete == game.complete
            &&& r.win == game.win
            &&& r.round == game.round
            &&& r.turn == game.turn
            &&& r.enemies_defeated == game.enemies_defeated
        },
        game.player_state.health.max != 0 ==> r == game,
{
    let mut game = game;
    if game.player_state.health.max == 0 {
        game.set_up();
    }
    game
}

/// Whether a stream whose snapshot carries sequence number `snapshot_seq`
/// forwards the event numbered `event_seq`: only events after the snapshot
/// are forwarded, the others being covered by it.
pub fn forwards_event(event_seq: u64, snapshot_seq: u64) -> (r: bool)
    ensures
        r == (event_seq > snapshot_seq),
{
    event_seq > snapshot_seq
}

} // verus!
