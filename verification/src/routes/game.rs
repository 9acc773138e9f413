//! Game record routes: fetching games, creating a game for a character, and
//! aggregating all games into the leaderboard.
use vstd::prelude::*;

use crate::{
    error::AppError,
    models::{
        character::Character,
        game::{
            fits_i64, is_fresh_fighting_enemy, CreateGameRequest, Game, GameResponse,
            LeaderboardEntry, PlayerState,
        },
    },
    providers::is_hyphenated_uuid,
    routes::{concat3, require},
};
use vstd::string::StringExecFns;

verus! {

broadcast use vstd::std_specs::hash::group_hash_axioms;

/// The message of the error answering a request for an unknown game.
pub open spec fn unknown_game_id_message(game_id: Seq<char>) -> Seq<char> {
    "Game with id, "@ + game_id + ", Does not exist."@
}

/// The message of the error answering a game creation for an unknown
/// character.
pub open spec fn unknown_game_character_message(character_id: Seq<char>) -> Seq<char> {
    "Character Not Found with id "@ + character_id
}

/// The response for `GET /game/:game_id`, given the game found under the ID
/// (if any).
///
/// # Errors
///
/// - [`AppError::NotFound`] if no game exists with the given ID.
pub fn game_response(game: Option<Game>, game_id: &String) -> (r: Result<GameResponse, AppError>)
    ensures
        match game {
            Some(g) => r == Ok::<GameResponse, AppError>(GameResponse::of(g)),
            None => r matches Err(AppError::NotFound(m)) && m@ == unknown_game_id_message(
                game_id@,
            ),
        },
{
    let game = require(game, concat3("Game with id, ", game_id.as_str(), ", Does not exist."))?;
    Ok(GameResponse::from(game))
}

/// The responses for `GET /games`, one per game, in order.
pub fn game_responses(games: Vec<Game>) -> (r: Vec<GameResponse>)
    ensures
        r@.len() == games@.len(),
        forall|i: int| 0 <= i < games@.len() ==> #[trigger] r@[i] == GameResponse::of(games@[i]),
{
    let mut games = games;
    let ghost all = games@;
    let mut out: Vec<GameResponse> = Vec::new();
    let n = games.len();
    let mut rest: Vec<Game> = Vec::new();
    // take the games from the back, then restore their order
    while games.len() > 0
        invariant
            games@.len() + rest@.len() == n,
            n == all.len(),
            games@ == all.subrange(0, games@.len() as int),
            forall|i: int| 0 <= i < rest@.len() ==> #[trigger] rest@[i] == all[n - 1 - i],
        decreases games.len(),
    {
        let g = games.pop().unwrap();
        rest.push(g);
    }
    while rest.len() > 0
        invariant
            out@.len() + rest@.len() == n,
            n == all.len(),
            forall|i: int| 0 <= i < rest@.len() ==> #[trigger] rest@[i] == all[n - 1 - i],
            forall|i: int| 0 <= i < out@.len() ==> #[trigger] out@[i] == GameResponse::of(all[i]),
        decreases rest.len(),
    {
        let g = rest.pop().unwrap();
        out.push(GameResponse::from(g));
    }
    out
}

/// Create a new game for the request's player and character, and link it to
/// the character found under the request's `character_id` (if any). Returns
/// the game to insert and the character to store.
///
/// # Errors
///
/// - [`AppError::NotFound`] if the specified `character_id` does not exist.
pub fn create_game_for(request: CreateGameRequest, character: Option<Character>) -> (r: Result<
    (Game, Character),
    AppError,
>)
    ensures
        match character {
            Some(c) => r matches Ok((g, c2)) && {
                &&& is_hyphenated_uuid(g.id@)
                &&& !g.complete && g.win is None && g.round == 0 && g.turn == 0
                &&& g.player_state == PlayerState::starting(
                    request.player_id,
                    request.character_id,
                )
                &&& is_fresh_fighting_enemy(g.enemy_state)
                &&& g.enemies_defeated@ == Map::<u64, i64>::empty()
                &&& c2.id == c.id
                &&& c2.owner == c.owner
                &&& c2.name == c.name
                &&& c2.stats == c.stats
                &&& c2.games@ == c.games@.push(g.id)
            },
            None => r matches Err(AppError::NotFound(m)) && m@ == unknown_game_character_message(
                request.character_id@,
            ),
        },
{
    let new_game = Game::new(request.player_id, request.character_id.clone());
    let mut message = String::from_str("Character Not Found with id ");
    message.append(request.character_id.as_str());
    let mut character = require(character, message)?;
    character.games.push(new_game.id.clone());
    Ok((new_game, character))
}

/// The number of distinct enemy types the game's player defeated.
pub open spec fn defeated_kinds(g: Game) -> i64 {
    g.enemies_defeated@.len() as i64
}

/// `entry` with the game `g` added: a win if the game was won, its rounds, the
/// damage its player dealt and the enemy types it defeated.
pub open spec fn with_game(entry: LeaderboardEntry, g: Game) -> LeaderboardEntry {
    LeaderboardEntry {
        wins: (entry.wins + if g.win == Some(true) {
            1int
        } else {
            0
        }) as i64,
        rounds: (entry.rounds + g.round) as i64,
        damage_dealt: (entry.damage_dealt + g.player_state.damage_dealt) as i64,
        enemies_defeated: (entry.enemies_defeated + defeated_kinds(g)) as i64,
        ..entry
    }
}

/// Whether adding the game `g` to `entry` stays within `i64`.
pub open spec fn with_game_fits(entry: LeaderboardEntry, g: Game) -> bool {
    &&& fits_i64(entry.wins + 1)
    &&& fits_i64(entry.rounds + g.round)
    &&& fits_i64(entry.damage_dealt + g.player_state.damage_dealt)
    &&& fits_i64(entry.enemies_defeated + defeated_kinds(g))
}

/// `after` is the leaderboard `before` with the game `game` added, the
/// player's name being `username` when it was looked up: the player's entry
/// takes the game in; a player without an entry gets a new one under the
/// name; a game whose player has neither is skipped.
pub open spec fn game_added(before: Leaderboard, after: Leaderboard, game: Game, username: Option<
    String,
>) -> bool {
    let id = game.player_state.player_id@;
    if before.has_player(id) {
        &&& after.player_ids@ == before.player_ids@
        &&& exists|i: int|
            0 <= i < before.player_ids@.len() && #[trigger] before.player_ids@[i]@
                == id && after.entries@ == before.entries@.update(
                i,
                with_game(before.entries@[i], game),
            )
    } else {
        match username {
            Some(name) => {
                &&& after.player_ids@ == before.player_ids@.push(
                    game.player_state.player_id,
                )
                &&& after.entries@ == before.entries@.push(
                    with_game(
                        LeaderboardEntry {
                            player_name: name,
                            wins: 0,
                            rounds: 0,
                            damage_dealt: 0,
                            enemies_defeated: 0,
                        },
                        game,
                    ),
                )
            },
            None => after == before,
        }
    }
}

/// The leaderboard being built from all game records, one entry per player,
/// in the order the players first appear.
#[derive(Debug)]
pub struct Leaderboard {
    /// The player ID of each entry.
    pub player_ids: Vec<String>,
    /// The entries, aligned with `player_ids`.
    pub entries: Vec<LeaderboardEntry>,
}

impl Leaderboard {
    /// One entry per player ID, no player twice.
    pub open spec fn wf(self) -> bool {
        &&& self.player_ids@.len() == self.entries@.len()
        &&& forall|i: int, j: int|
            0 <= i < j < self.player_ids@.len() ==> #[trigger] self.player_ids@[i]@
                != #[trigger] self.player_ids@[j]@
    }

    /// The index of the player's entry, if the player has one.
    pub open spec fn has_player(self, player_id: Seq<char>) -> bool {
        exists|i: int| 0 <= i < self.player_ids@.len() && #[trigger] self.player_ids@[i]@ == player_id
    }

    /// An empty leaderboard.
    pub fn new() -> (r: Self)
        ensures
            r.wf(),
            r.player_ids@.len() == 0,
    {
        Leaderboard { player_ids: Vec::new(), entries: Vec::new() }
    }

    fn find(&self, player_id: &String) -> (r: Option<usize>)
        requires
            self.wf(),
        ensures
            match r {
                Some(i) => i < self.player_ids@.len() && self.player_ids@[i as int]@ == player_id@,
                None => !self.has_player(player_id@),
            },
    {
        let mut i: usize = 0;
        while i < self.player_ids.len()
            invariant
                0 <= i <= self.player_ids@.len(),
                forall|j: int| 0 <= j < i ==> #[trigger] self.player_ids@[j]@ != player_id@,
            decreases self.player_ids.len() - i,
        {
            if self.player_ids[i] == *player_id {
                return Some(i);
            }
            i = i + 1;
        }
        None
    }

    /// Whether the player has no entry yet, so that the player's name must be
    /// looked up before the game can be added.
    pub fn needs_lookup(&self, player_id: &String) -> (r: bool)
        requires
            self.wf(),
        ensures
            r == !self.has_player(player_id@),
    {
        self.find(player_id).is_none()
    }

    /// Whether [`Leaderboard::add_game`] can add `game` without overflow.
    pub open spec fn add_fits(self, game: Game) -> bool {
        forall|i: int|
            0 <= i < self.player_ids@.len() && #[trigger] self.player_ids@[i]@
                == game.player_state.player_id@ ==> with_game_fits(self.entries@[i], game)
    }

    /// Whether [`Leaderboard::add_game`] can add `game` without overflow.
    pub fn can_add_game(&self, game: &Game) -> (r: bool)
        requires
            self.wf(),
        ensures
            r == self.add_fits(*game),
    {
        match self.find(&game.player_state.player_id) {
            Some(i) => {
                let e = &self.entries[i];
                let kinds = game.enemies_defeated.len() as i64;
                e.wins < i64::MAX && in_range(e.rounds as i128 + game.round as i128) && in_range(
                    e.damage_dealt as i128 + game.player_state.damage_dealt as i128,
                ) && in_range(e.enemies_defeated as i128 + kinds as i128)
            },
            None => true,
        }
    }

    /// Add one game record: to the player's entry if the player has one;
    /// otherwise, if the player's name was found, as a new entry for the
    /// player; a game whose player has no entry and no name is skipped.
    pub fn add_game(&mut self, game: &Game, username: Option<String>)
        requires
            old(self).wf(),
            old(self).add_fits(*game),
        ensures
            final(self).wf(),
            game_added(*old(self), *final(self), *game, username),
    {
        let kinds = game.enemies_defeated.len() as i64;
        match self.find(&game.player_state.player_id) {
            Some(i) => {
                // Add values to leaderboard entry for existing player
                let mut lb = self.entries[i].clone();
                if game.win == Some(true) {
                    lb.wins = lb.wins + 1;
                }
                lb.rounds = lb.rounds + game.round;
                lb.damage_dealt = lb.damage_dealt + game.player_state.damage_dealt;
                lb.enemies_defeated = lb.enemies_defeated + kinds;
                self.entries.set(i, lb);
            },
            None => {
                match username {
                    Some(name) => {
                        let mut lb = LeaderboardEntry::new(name);
                        if game.win == Some(true) {
                            lb.wins = 1;
                        }
                        lb.rounds = game.round;
                        lb.damage_dealt = game.player_state.damage_dealt;
                        lb.enemies_defeated = kinds;
                        self.player_ids.push(game.player_state.player_id.clone());
                        self.entries.push(lb);
                    },
                    // If user does not exist for some reason, just ignore it
                    None => {},
                }
            },
        }
    }

    /// The leaderboard entries.
    pub fn into_entries(self) -> (r: Vec<LeaderboardEntry>)
        ensures
            r == self.entries,
    {
        self.entries
    }
}

/// Whether an `i128` value is representable as an `i64`.
fn in_range(x: i128) -> (r: bool)
    ensures
        r == fits_i64(x as int),
{
    i64::MIN as i128 <= x && x <= i64::MAX as i128
}

/// Adding a game to the leaderboard counts it into its player's entry: a won
/// game adds exactly one win and any other game none, and the game's rounds,
/// damage dealt and number of distinct enemy types defeated are added to the
/// player's totals; the name and every other entry stay. A player without an
/// entry but with a found name gets a new last entry holding just this game
/// (one win if it was won, none otherwise); a player with neither leaves the
/// leaderboard unchanged.
pub proof fn lemma_leaderboard_counts_each_game(
    before: Leaderboard,
    after: Leaderboard,
    game: Game,
    username: Option<String>,
)
    requires
        before.wf(),
        before.add_fits(game),
        game_added(before, after, game, username),
    ensures
        ({
            let id = game.player_state.player_id@;
            let won: int = if game.win == Some(true) {
                1
            } else {
                0
            };
            let kinds = game.enemies_defeated@.len() as i64;
            &&& forall|i: int|
                0 <= i < before.player_ids@.len() && #[trigger] before.player_ids@[i]@ == id ==> {
                    &&& after.player_ids@ == before.player_ids@
                    &&& after.entries@.len() == before.entries@.len()
                    &&& after.entries@[i].wins == before.entries@[i].wins + won
                    &&& after.entries@[i].rounds == before.entries@[i].rounds + game.round
                    &&& after.entries@[i].damage_dealt == before.entries@[i].damage_dealt
                        + game.player_state.damage_dealt
                    &&& after.entries@[i].enemies_defeated == before.entries@[i].enemies_defeated
                        + kinds
                    &&& after.entries@[i].player_name == before.entries@[i].player_name
                    &&& forall|j: int|
                        0 <= j < before.entries@.len() && j != i ==> #[trigger] after.entries@[j]
                            == before.entries@[j]
                }
            &&& (!before.has_player(id) && username is Some) ==> {
                let n = before.entries@.len();
                &&& after.player_ids@.len() == n + 1
                &&& after.player_ids@[n as int]@ == id
                &&& after.entries@.len() == n + 1
                &&& after.entries@[n as int].player_name == username->0
                &&& after.entries@[n as int].wins == won
                &&& after.entries@[n as int].rounds == game.round
                &&& after.entries@[n as int].damage_dealt == game.player_state.damage_dealt
                &&& after.entries@[n as int].enemies_defeated == kinds
                &&& forall|j: int| 0 <= j < n ==> #[trigger] after.entries@[j] == before.entries@[j]
            }
            &&& (!before.has_player(id) && username is None) ==> after == before
        }),
{
    let id = game.player_state.player_id@;
    if before.has_player(id) {
        let k = choose|k: int|
            0 <= k < before.player_ids@.len() && #[trigger] before.player_ids@[k]@ == id
                && after.entries@ == before.entries@.update(k, with_game(before.entries@[k], game));
        assert forall|i: int|
            0 <= i < before.player_ids@.len() && #[trigger] before.player_ids@[i]@ == id implies i
            == k by {
            if i != k {
                if i < k {
                    assert(before.player_ids@[i]@ != before.player_ids@[k]@);
                } else {
                    assert(before.player_ids@[k]@ != before.player_ids@[i]@);
                }
            }
        }
        assert(with_game_fits(before.entries@[k], game));
    }
}

} // verus!
