//! The turn-based combat engine of a game session.
//!
//! [`Engine`] holds everything that a running session decides on: the
//! character's stats, the enemy being fought, the game record and the event
//! sequence number. The application drives it in a loop: it asks whose turn
//! it is ([`Engine::start_turn`]), waits for the player's action when it is
//! the player's turn ([`Engine::play_player_turn`]) or lets the enemy act
//! ([`Engine::play_enemy_turn`]), broadcasts the events each turn produced,
//! and on leaving the loop emits the final event ([`Engine::cleanup`]).
//!
//! Where the arithmetic of a turn would overflow, or a stat leaves an empty
//! range to draw a random amount from, the engine reports a [`TurnError`]
//! instead of panicking.
use vstd::prelude::*;

use crate::{
    enemys::{
        enemy_type_code, get_enemy_by_type, get_random_enemy, is_fighting_enemy, AnyEnemy, Enemy,
        EnemyMessage,
    },
    models::{
        character::Character,
        game::{fits_i64, Combatant, EnemyState, Game, GameEvent, PlayerState, SequencedEvent},
        Action,
    },
    game::laws::{
        lemma_end_turn_keeps_health, lemma_enemy_turn_keeps_health,
        lemma_player_turn_keeps_health, lemma_turn_order_keeps_health,
    },
    providers::random_in_range,
};

verus! {

broadcast use vstd::std_specs::hash::group_hash_axioms;

/// Why a turn could not be resolved; the game loop stops on either.
#[derive(Debug, Clone, Copy, PartialEq, Eq, Structural)]
pub enum TurnError {
    /// An action's stat leaves an empty range to draw the random amount from
    /// (for example an attack with power 0).
    EmptyRange,
    /// A value of the game would leave the range of `i64` (or the event
    /// sequence number that of `u64`).
    Overflow,
}

/// `a / b` rounded toward zero, as Rust's integer division does.
pub open spec fn div_toward_zero(a: int, b: int) -> int {
    if a >= 0 {
        a / b
    } else {
        -((-a) / b)
    }
}

/// The number of turns between two actions of a character of the given
/// speed: `(19 - speed) / 3`.
pub open spec fn player_turn_increment(speed: i64) -> int {
    div_toward_zero(19 - speed, 3)
}

/// After both combatants' next turns are known (`players_next` and
/// `enemy_next`, already recorded in `g`): the earlier one acts (the player on
/// a tie), the counter moves to its turn and its next turn is scheduled.
pub open spec fn pick_next_actor(
    g: Game,
    enemy: AnyEnemy,
    players_next: i64,
    enemy_next: i64,
    increment: int,
) -> Option<(Game, AnyEnemy, bool)> {
    if players_next <= enemy_next {
        let after = players_next + increment;
        if fits_i64(after) {
            Some(
                (
                    Game {
                        player_state: PlayerState { next_turn: Some(after as i64), ..g.player_state },
                        turn: players_next,
                        ..g
                    },
                    enemy,
                    true,
                ),
            )
        } else {
            None
        }
    } else {
        match enemy.next_turn_result(g) {
            Some((e2, g2, interval)) => {
                let after = enemy_next + interval;
                if fits_i64(after) {
                    Some(
                        (
                            Game {
                                enemy_state: EnemyState {
                                    next_turn: Some(after as i64),
                                    ..g2.enemy_state
                                },
                                turn: enemy_next,
                                ..g2
                            },
                            e2,
                            false,
                        ),
                    )
                } else {
                    None
                }
            },
            None => None,
        }
    }
}

/// What [`handle_turn_order`] does: missing next turns are scheduled from the
/// current turn (the player's from its speed, the enemy's from its own
/// interval), then [`pick_next_actor`]. `None` where the arithmetic overflows.
pub open spec fn turn_order_result(game: Game, speed: i64, enemy: AnyEnemy) -> Option<
    (Game, AnyEnemy, bool),
> {
    let increment = player_turn_increment(speed);
    let current = game.turn;
    if !fits_i64(19 - speed) {
        None
    } else {
        let (players_next, g1) = match game.player_state.next_turn {
            Some(t) => (t as int, game),
            None => (
                current + increment,
                Game {
                    player_state: PlayerState {
                        next_turn: Some((current + increment) as i64),
                        ..game.player_state
                    },
                    ..game
                },
            ),
        };
        if !fits_i64(players_next) {
            None
        } else {
            match g1.enemy_state.next_turn {
                Some(t) => pick_next_actor(g1, enemy, players_next as i64, t, increment),
                None => match enemy.next_turn_result(g1) {
                    Some((e2, g2, interval)) => {
                        let enemy_next = current + interval;
                        if fits_i64(enemy_next) {
                            pick_next_actor(
                                Game {
                                    enemy_state: EnemyState {
                                        next_turn: Some(enemy_next as i64),
                                        ..g2.enemy_state
                                    },
                                    ..g2
                                },
                                e2,
                                players_next as i64,
                                enemy_next as i64,
                                increment,
                            )
                        } else {
                            None
                        }
                    },
                    None => None,
                },
            }
        }
    }
}

/// Determine whose turn it is and advance the turn counter.
///
/// Returns `Ok(true)` if it is the player's turn, `Ok(false)` if it is the
/// enemy's. Each combatant's next scheduled turn is calculated from their
/// speed stats and `game.turn` advances to whichever is earliest.
pub fn handle_turn_order(game: &mut Game, character_speed: i64, enemy: &mut AnyEnemy) -> (r: Result<
    bool,
    TurnError,
>)
    ensures
        match turn_order_result(*old(game), character_speed, *old(enemy)) {
            Some((g, e, players_turn)) => r == Ok::<bool, TurnError>(players_turn)
                && *final(game) == g && *final(enemy) == e,
            None => r == Err::<bool, TurnError>(TurnError::Overflow),
        },
{
    if character_speed < 19 - i64::MAX {
        return Err(TurnError::Overflow);
    }
    // Gets current turn, player's next turn and enemy's next turn.
    let character_turn_increment = (19 - character_speed) / 3;
    let current_turn = game.turn;
    let players_next_turn = match game.player_state.next_turn {
        Some(turn) => turn,
        None => {
            if (current_turn >= 0 && character_turn_increment > i64::MAX - current_turn) || (
            current_turn < 0 && character_turn_increment < i64::MIN - current_turn) {
                return Err(TurnError::Overflow);
            }
            let next = current_turn + character_turn_increment;
            game.player_state.next_turn = Some(next);
            next
        },
    };
    let enemy_next_turn = match game.enemy_state.next_turn {
        Some(turn) => turn,
        None => {
            if !enemy.can_next_turn(game) {
                return Err(TurnError::Overflow);
            }
            let interval = enemy.next_turn(game);
            if (current_turn >= 0 && interval > i64::MAX - current_turn) || (current_turn < 0
                && interval < i64::MIN - current_turn) {
                return Err(TurnError::Overflow);
            }
            let next = current_turn + interval;
            game.enemy_state.next_turn = Some(next);
            next
        },
    };
    // Finds out whose turn is next.
    if players_next_turn <= enemy_next_turn {
        if (players_next_turn >= 0 && character_turn_increment > i64::MAX - players_next_turn) || (
        players_next_turn < 0 && character_turn_increment < i64::MIN - players_next_turn) {
            return Err(TurnError::Overflow);
        }
        // player's turn is next, update next_turn and current turn in state.
        game.player_state.next_turn = Some(players_next_turn + character_turn_increment);
        game.turn = players_next_turn;
        return Ok(true);
    }
    // Enemy's turn, update next_turn and current turn in state.
    if !enemy.can_next_turn(game) {
        return Err(TurnError::Overflow);
    }
    let interval = enemy.next_turn(game);
    if (enemy_next_turn >= 0 && interval > i64::MAX - enemy_next_turn) || (enemy_next_turn < 0
        && interval < i64::MIN - enemy_next_turn) {
        return Err(TurnError::Overflow);
    }
    game.enemy_state.next_turn = Some(enemy_next_turn + interval);
    game.turn = enemy_next_turn;
    Ok(false)
}

/// The range `lo..hi` from which the amount of an action is drawn: damage
/// from `2*power..5*power`, block from `3*defense..5*defense` (for a negative
/// defense, such as Maestro's reload, the negative block `5*defense..3*defense`),
/// healing from `2*defense..4*defense`. `None` for passing.
pub open spec fn roll_range(action: Action) -> Option<(int, int)> {
    match action {
        Action::Attack(power) => Some((2 * power, 5 * power)),
        Action::Defend(defense) => if defense >= 0 {
            Some((3 * defense, 5 * defense))
        } else {
            Some((5 * defense, 3 * defense))
        },
        Action::Heal(defense) => Some((2 * defense, 4 * defense)),
        Action::NoAction => None,
    }
}

/// Whether `roll` can be the amount drawn for `action`.
pub open spec fn is_roll_of(action: Action, roll: i64) -> bool {
    match roll_range(action) {
        Some((lo, hi)) => lo <= roll < hi,
        None => roll == 0,
    }
}

/// Whether the bounds of the action's range are representable as `i64`.
pub open spec fn roll_range_fits(action: Action) -> bool {
    match roll_range(action) {
        Some((lo, hi)) => fits_i64(lo) && fits_i64(hi),
        None => true,
    }
}

/// Whether the action's range holds no value.
pub open spec fn roll_range_empty(action: Action) -> bool {
    match roll_range(action) {
        Some((lo, hi)) => lo >= hi,
        None => false,
    }
}

/// The attacker and defender after `action` with the drawn amount `roll`:
/// the attacker's block is cleared first; an attack damages the defender and
/// records the HP it lost as damage dealt by the attacker; a defence sets the
/// attacker's block; a heal heals the attacker.
pub open spec fn action_result<A: Combatant, D: Combatant>(
    action: Action,
    roll: i64,
    attacker: A,
    defender: D,
) -> Option<(A, D)> {
    let a0 = attacker.with_block(0);
    match action {
        Action::Attack(_) => match defender.take_damage_result(roll) {
            Some((d1, dealt)) => match a0.deal_damage_result(dealt) {
                Some(a1) => Some((a1, d1)),
                None => None,
            },
            None => None,
        },
        Action::Defend(_) => Some((a0.with_block(roll), defender)),
        Action::Heal(_) => match a0.heal_damage_result(roll) {
            Some(a1) => Some((a1, defender)),
            None => None,
        },
        Action::NoAction => Some((a0, defender)),
    }
}

/// Apply a single combat action from `attacker` to `defender`, with `roll`
/// as the drawn amount.
pub fn apply_action<A: Combatant, D: Combatant>(
    action: &Action,
    roll: i64,
    attacker: &mut A,
    defender: &mut D,
)
    requires
        action_result(*action, roll, *old(attacker), *old(defender)) is Some,
    ensures
        action_result(*action, roll, *old(attacker), *old(defender)) == Some(
            (*final(attacker), *final(defender)),
        ),
{
    attacker.reset_block();
    // logic for handling each action held in Combatant class.
    match action {
        Action::Attack(_) => {
            let dealt_dmg = defender.take_damage(roll);
            attacker.deal_damage(dealt_dmg);
        },
        Action::Defend(_) => {
            attacker.set_block(roll);
        },
        Action::Heal(_) => {
            attacker.heal_damage(roll);
        },
        Action::NoAction => {},
    }
}

/// The bounds of the action's range, or `None` when they overflow `i64`.
fn roll_bounds(action: &Action) -> (r: Option<(i64, i64)>)
    ensures
        match roll_range(*action) {
            Some((lo, hi)) => if fits_i64(lo) && fits_i64(hi) {
                r == Some((lo as i64, hi as i64))
            } else {
                r is None
            },
            None => r == Some((0i64, 1i64)),
        },
{
    let (lo, hi): (i128, i128) = match action {
        Action::Attack(power) => (2 * (*power as i128), 5 * (*power as i128)),
        Action::Defend(defense) => if *defense >= 0 {
            (3 * (*defense as i128), 5 * (*defense as i128))
        } else {
            (5 * (*defense as i128), 3 * (*defense as i128))
        },
        Action::Heal(defense) => (2 * (*defense as i128), 4 * (*defense as i128)),
        Action::NoAction => (0, 1),
    };
    if lo < i64::MIN as i128 || lo > i64::MAX as i128 || hi < i64::MIN as i128 || hi
        > i64::MAX as i128 {
        None
    } else {
        Some((lo as i64, hi as i64))
    }
}

/// Apply a single combat action from `attacker` to `defender`.
///
/// Resets the attacker's block at the start of the turn, then dispatches to
/// the appropriate [`Combatant`] method based on the action variant. Damage
/// amounts are randomised within the range [`roll_range`] derives from the
/// stat payload.
pub fn handle_turn<A: Combatant, D: Combatant>(
    action: &Action,
    attacker: &mut A,
    defender: &mut D,
) -> (r: Result<(), TurnError>)
    ensures
        match r {
            Ok(()) => exists|roll: i64|
                is_roll_of(*action, roll) && action_result(
                    *action,
                    roll,
                    *old(attacker),
                    *old(defender),
                ) == Some((*final(attacker), *final(defender))),
            Err(TurnError::EmptyRange) => roll_range_fits(*action) && roll_range_empty(*action),
            Err(TurnError::Overflow) => !roll_range_fits(*action) || exists|roll: i64|
                is_roll_of(*action, roll) && action_result(
                    *action,
                    roll,
                    *old(attacker),
                    *old(defender),
                ) is None,
        },
        // success is owed when every amount that can be drawn resolves
        roll_range_fits(*action) && !roll_range_empty(*action) && (forall|roll: i64|
            is_roll_of(*action, roll) ==> #[trigger] action_result(
                *action,
                roll,
                *old(attacker),
                *old(defender),
            ) is Some) ==> r is Ok,
{
    let (lo, hi) = match roll_bounds(action) {
        Some(b) => b,
        None => {
            return Err(TurnError::Overflow);
        },
    };
    if lo >= hi {
        return Err(TurnError::EmptyRange);
    }
    let roll = match action {
        Action::NoAction => 0,
        _ => random_in_range(lo, hi),
    };
    assert(is_roll_of(*action, roll));
    attacker.reset_block();
    match action {
        Action::Attack(_) => {
            if !defender.can_take_damage(roll) {
                return Err(TurnError::Overflow);
            }
            let dealt_dmg = defender.take_damage(roll);
            if !attacker.can_deal_damage(dealt_dmg) {
                return Err(TurnError::Overflow);
            }
            attacker.deal_damage(dealt_dmg);
        },
        Action::Defend(_) => {
            attacker.set_block(roll);
        },
        Action::Heal(_) => {
            if !attacker.can_heal_damage(roll) {
                return Err(TurnError::Overflow);
            }
            attacker.heal_damage(roll);
        },
        Action::NoAction => {},
    }
    Ok(())
}


/// The tally of defeated enemies after one more defeat of the type with the
/// given code.
pub open spec fn record_defeat(tally: Map<u64, i64>, code: u64) -> Map<u64, i64> {
    tally.insert(
        code,
        if tally.contains_key(code) {
            (tally[code] + 1) as i64
        } else {
            1
        },
    )
}

/// Whether one more defeat can be counted without overflow.
pub open spec fn defeat_fits(tally: Map<u64, i64>, code: u64) -> bool {
    tally.contains_key(code) ==> tally[code] < i64::MAX
}

/// `after` is `g` moved on to the next round against `next_enemy`: the round
/// counter grows by one, the defeated enemy is counted, the turn counter and
/// the player's schedule restart, and the new enemy starts fresh.
pub open spec fn is_next_round(g: Game, after: Game, next_enemy: AnyEnemy) -> bool {
    &&& after.id == g.id
    &&& after.complete == g.complete
    &&& after.win == g.win
    &&& after.round == g.round + 1
    &&& after.turn == 0
    &&& after.player_state == PlayerState { next_turn: None, ..g.player_state }
    &&& after.enemy_state == next_enemy.new_state_spec()
    &&& after.enemies_defeated@ == record_defeat(
        g.enemies_defeated@,
        enemy_type_code(g.enemy_state.enemy_type),
    )
}

/// Both combatants' HP is within `[0, max]`.
pub open spec fn health_valid(g: Game) -> bool {
    g.player_state.health.is_valid() && g.enemy_state.health.is_valid()
}

/// Which combatant acts next, or that the game is over.
#[derive(Debug, Clone, Copy, PartialEq, Eq, Structural)]
pub enum TurnStart {
    /// The game is complete; the loop ends.
    GameComplete,
    /// The player acts: the loop waits for the player's action.
    PlayersTurn,
    /// The enemy acts.
    EnemysTurn,
}

/// The events one turn produced, in order, and whether the game loop ends
/// because the player died.
#[derive(Debug)]
pub struct TurnReport {
    /// Events to broadcast, numbered consecutively.
    pub events: Vec<SequencedEvent>,
    /// The player died: the loop ends and the session is cleaned up.
    pub game_over: bool,
}

/// The state of a running game session that the game loop decides on.
///
/// Holds the character whose stats drive the player's turn order, the enemy
/// being fought, the game record and the sequence number of the last event.
#[derive(Debug)]
pub struct Engine {
    /// The character the player is using.
    pub character: Character,
    /// The enemy of the current round.
    pub enemy: AnyEnemy,
    /// The game record.
    pub game_state: Game,
    /// Sequence number of the last event emitted.
    pub seq: u64,
}

/// The events of one step of a session, in the order they are sent, are
/// numbered `seq + 1, seq + 2, ...`, and the counter ends at `after_seq`, the
/// number of the last of them (`seq` itself when there are none).
pub open spec fn numbered_step(seq: int, after_seq: int, events: Seq<SequencedEvent>) -> bool {
    &&& after_seq == seq + events.len()
    &&& forall|i: int| 0 <= i < events.len() ==> #[trigger] events[i].seq == seq + i + 1
}

/// `ev` is the final event of a session on the game `g`: a copy of the game
/// as [`GameEvent::GameOver`] if it is complete, as [`GameEvent::GameStopped`]
/// otherwise.
pub open spec fn is_session_end(g: Game, ev: SequencedEvent) -> bool {
    if g.complete {
        ev.event matches GameEvent::GameOver(copy) && copy.is_copy_of(g)
    } else {
        ev.event matches GameEvent::GameStopped(copy) && copy.is_copy_of(g)
    }
}

/// `after` follows `before` by one step of the engine that emitted `events`:
/// a step that emits nothing and keeps the counter (finding whose turn it
/// is, moving to the next round), a resolved turn, or the session's final
/// event, which leaves the game as it is.
pub open spec fn is_engine_step(before: Engine, after: Engine, events: Seq<SequencedEvent>) -> bool {
    ||| events.len() == 0 && after.seq == before.seq
    ||| exists|g: Game, e: AnyEnemy, report: TurnReport|
        #[trigger] ended_turn(g, e, before.seq, after, report) && report.events@ == events
    ||| {
        &&& events.len() == 1
        &&& after.seq == before.seq + 1
        &&& events[0].seq == after.seq
        &&& after.game_state == before.game_state
        &&& is_session_end(after.game_state, events[0])
    }
}

/// Whether the last `n` events of `events` are numbered `seq + 1 ..`
/// consecutively from index `start`.
pub open spec fn numbered_from(events: Seq<SequencedEvent>, start: int, seq: int) -> bool {
    forall|i: int| start <= i < events.len() ==> #[trigger] events[i].seq == seq + (i - start) + 1
}

/// The number of events that ending the turn on `g` emits: the enemy's
/// message if it has one, then the resolved turn unless the player died.
pub open spec fn end_turn_event_count(g: Game, enemy: AnyEnemy) -> int {
    (if enemy.pending_message() is Some {
        1int
    } else {
        0
    }) + (if g.player_state.health.current == 0 {
        0int
    } else {
        1
    })
}

/// Whether ending the turn on `g` can be done without overflow: the sequence
/// numbers of its events fit in `u64`, and a defeated enemy can be counted and
/// the round advanced.
pub open spec fn end_turn_fits(g: Game, enemy: AnyEnemy, seq: u64) -> bool {
    &&& seq + end_turn_event_count(g, enemy) <= u64::MAX
    &&& (g.player_state.health.current != 0 && g.enemy_state.health.current == 0) ==> {
        &&& fits_i64(g.round + 1)
        &&& defeat_fits(g.enemies_defeated@, enemy_type_code(g.enemy_state.enemy_type))
    }
}

/// What ending a turn does, from the game `g` and enemy `enemy` as the turn
/// left them and the last sequence number `seq`, to the engine `after` and the
/// report: the enemy's queued message is announced first; if the player is
/// dead the game is complete (won if more than 3 rounds were played) and the
/// loop ends; otherwise, if the enemy is dead, the game moves on to the next
/// round against a fresh enemy of one of the five fighting types, and the
/// resolved turn is announced with a copy of the game.
pub open spec fn ended_turn(g: Game, enemy: AnyEnemy, seq: u64, after: Engine, report: TurnReport) -> bool {
    let events = report.events@;
    let first = if enemy.pending_message() is Some {
        1int
    } else {
        0
    };
    &&& events.len() == end_turn_event_count(g, enemy)
    &&& after.seq == seq + events.len()
    &&& numbered_from(events, 0, seq as int)
    &&& (enemy.pending_message() matches Some(m) ==> (events[0].event matches GameEvent::GameMessage(
        text,
    ) && text@ == m.text_spec()))
    &&& if g.player_state.health.current == 0 {
        &&& report.game_over
        &&& after.enemy == enemy.without_message()
        &&& after.game_state == Game { complete: true, win: Some(g.round > 3), ..g }
    } else {
        &&& !report.game_over
        &&& (events[first].event matches GameEvent::TurnResolved(copy) && copy.is_copy_of(
            after.game_state,
        ))
        &&& if g.enemy_state.health.current == 0 {
            &&& is_fighting_enemy(after.game_state.enemy_state.enemy_type)
            &&& after.enemy == AnyEnemy::fresh(after.game_state.enemy_state.enemy_type)
            &&& is_next_round(g, after.game_state, after.enemy)
        } else {
            &&& after.enemy == enemy.without_message()
            &&& after.game_state == g
        }
    }
}

/// The game and enemy after the player's `action` with the drawn amount
/// `roll`, and the enemy's reaction to it.
pub open spec fn player_turn_result(game: Game, enemy: AnyEnemy, action: Action, roll: i64) -> Option<
    (Game, AnyEnemy),
> {
    match action_result(action, roll, game.player_state, game.enemy_state) {
        Some((p, e)) => match enemy.after_players_turn_result(
            Game { player_state: p, enemy_state: e, ..game },
            action,
        ) {
            Some((enemy2, g2)) => Some((g2, enemy2)),
            None => None,
        },
        None => None,
    }
}

/// The game, the enemy and the action the enemy chose, after the enemy's turn
/// with the drawn amount `roll`.
pub open spec fn enemy_turn_result(game: Game, enemy: AnyEnemy, roll: i64) -> Option<
    (Game, AnyEnemy, Action),
> {
    match enemy.choose_action_result(game) {
        Some((enemy2, g1, action)) => match action_result(
            action,
            roll,
            g1.enemy_state,
            g1.player_state,
        ) {
            Some((e, p)) => Some((Game { enemy_state: e, player_state: p, ..g1 }, enemy2, action)),
            None => None,
        },
        None => None,
    }
}

/// Count one more defeat of the enemy type with code `code`.
fn count_defeat(tally: &mut std::collections::HashMap<u64, i64>, code: u64)
    requires
        defeat_fits(old(tally)@, code),
    ensures
        final(tally)@ == record_defeat(old(tally)@, code),
{
    match tally.get(&code) {
        Some(count) => {
            let next = *count + 1;
            tally.insert(code, next);
        },
        None => {
            tally.insert(code, 1);
        },
    }
}

impl Engine {
    /// Construct the engine for `game_state` using the given `character`
    /// stats, resolving the current enemy from the game state.
    pub fn new(character: Character, game_state: Game) -> (r: Self)
        ensures
            r.character == character,
            r.game_state == game_state,
            r.enemy == AnyEnemy::fresh(game_state.enemy_state.enemy_type),
            r.seq == 0,
    {
        // generates enemy off of type in game state.
        let enemy = get_enemy_by_type(game_state.enemy_state.enemy_type);
        Engine { character, enemy, game_state, seq: 0 }
    }

    /// Determine whose turn it is, advancing the turn counter, or report that
    /// the game is complete.
    pub fn start_turn(&mut self) -> (r: Result<TurnStart, TurnError>)
        ensures
            final(self).character == old(self).character,
            final(self).seq == old(self).seq,
            is_engine_step(*old(self), *final(self), Seq::empty()),
            old(self).game_state.complete ==> r == Ok::<TurnStart, TurnError>(
                TurnStart::GameComplete,
            ) && final(self).game_state == old(self).game_state && final(self).enemy == old(
                self,
            ).enemy,
            !old(self).game_state.complete ==> match turn_order_result(
                old(self).game_state,
                old(self).character.stats.speed,
                old(self).enemy,
            ) {
                Some((g, e, players_turn)) => {
                    &&& r == Ok::<TurnStart, TurnError>(
                        if players_turn {
                            TurnStart::PlayersTurn
                        } else {
                            TurnStart::EnemysTurn
                        },
                    )
                    &&& final(self).game_state == g
                    &&& final(self).enemy == e
                },
                None => r == Err::<TurnStart, TurnError>(TurnError::Overflow),
            },
            r is Ok && health_valid(old(self).game_state) ==> health_valid(final(self).game_state),
    {
        if self.game_state.complete {
            return Ok(TurnStart::GameComplete);
        }
        let speed = self.character.stats.speed;
        proof {
            if turn_order_result(self.game_state, speed, self.enemy) is Some {
                lemma_turn_order_keeps_health(self.game_state, speed, self.enemy);
            }
        }
        match handle_turn_order(&mut self.game_state, speed, &mut self.enemy) {
            Ok(true) => Ok(TurnStart::PlayersTurn),
            Ok(false) => Ok(TurnStart::EnemysTurn),
            Err(e) => Err(e),
        }
    }

    /// Move on to the next round against `next_enemy`, counting the defeated
    /// enemy.
    pub fn next_round(&mut self, next_enemy: AnyEnemy) -> (r: Result<(), TurnError>)
        ensures
            final(self).character == old(self).character,
            final(self).seq == old(self).seq,
            is_engine_step(*old(self), *final(self), Seq::empty()),
            match r {
                Ok(()) => {
                    &&& final(self).enemy == next_enemy
                    &&& is_next_round(old(self).game_state, final(self).game_state, next_enemy)
                },
                Err(e) => e == TurnError::Overflow && !(fits_i64(old(self).game_state.round + 1)
                    && defeat_fits(
                    old(self).game_state.enemies_defeated@,
                    enemy_type_code(old(self).game_state.enemy_state.enemy_type),
                )),
            },
    {
        let dead_type = self.game_state.enemy_state.enemy_type;
        let code = dead_type.code();
        if self.game_state.round == i64::MAX {
            return Err(TurnError::Overflow);
        }
        match self.game_state.enemies_defeated.get(&code) {
            Some(count) => {
                if *count == i64::MAX {
                    return Err(TurnError::Overflow);
                }
            },
            None => {},
        }
        count_defeat(&mut self.game_state.enemies_defeated, code);
        // Increment round generate new enemy.
        self.game_state.round = self.game_state.round + 1;
        self.game_state.turn = 0;
        self.game_state.player_state.next_turn = None;
        self.enemy = next_enemy;
        self.game_state.enemy_state = self.enemy.get_new_state();
        Ok(())
    }

    /// Check post-turn win/loss and round-progression conditions, and emit
    /// the turn's events.
    ///
    /// The enemy's queued message is broadcast first. If the player died the
    /// game is complete and the loop should exit. If the enemy died, a new
    /// random enemy is spawned and the round counter is incremented. Unless
    /// the player died, the resolved turn is broadcast.
    fn end_turn(&mut self) -> (r: Result<TurnReport, TurnError>)
        ensures
            final(self).character == old(self).character,
            match r {
                Ok(report) => ended_turn(
                    old(self).game_state,
                    old(self).enemy,
                    old(self).seq,
                    *final(self),
                    report,
                ),
                Err(e) => e == TurnError::Overflow && !end_turn_fits(
                    old(self).game_state,
                    old(self).enemy,
                    old(self).seq,
                ),
            },
            end_turn_fits(old(self).game_state, old(self).enemy, old(self).seq) ==> r is Ok,
    {
        let ghost g = self.game_state;
        let ghost enemy0 = self.enemy;
        let player_dead = self.game_state.player_state.health.current == 0;
        let enemy_dead = self.game_state.enemy_state.health.current == 0;
        // check that every number this step produces fits
        let mut needed: u64 = 0;
        if !player_dead {
            needed = 1;
        }
        if (match &self.enemy {
            AnyEnemy::Dummy(_) => false,
            AnyEnemy::RoseBuddies(e) => e.set_message.is_some(),
            AnyEnemy::CopperSides(e) => e.set_message.is_some(),
            AnyEnemy::Maestro(e) => e.set_message.is_some(),
            AnyEnemy::IronLotus(e) => e.set_message.is_some(),
            AnyEnemy::Bomb(e) => e.set_message.is_some(),
        }) {
            needed = needed + 1;
        }
        if self.seq > u64::MAX - needed {
            return Err(TurnError::Overflow);
        }
        if !player_dead && enemy_dead {
            let code = self.game_state.enemy_state.enemy_type.code();
            if self.game_state.round == i64::MAX {
                return Err(TurnError::Overflow);
            }
            match self.game_state.enemies_defeated.get(&code) {
                Some(count) => {
                    if *count == i64::MAX {
                        return Err(TurnError::Overflow);
                    }
                },
                None => {},
            }
        }
        let mut events: Vec<SequencedEvent> = Vec::new();
        if let Some(m) = self.enemy.message() {
            self.seq = self.seq + 1;
            events.push(SequencedEvent { seq: self.seq, event: GameEvent::GameMessage(m) });
        }
        // Check if player or enemy died
        if player_dead {
            self.game_state.complete = true;
            self.game_state.win = Some(self.game_state.round > 3);
            return Ok(TurnReport { events, game_over: true });
        }
        if enemy_dead {
            let next_enemy = get_random_enemy();
            let res = self.next_round(next_enemy);
            assert(res is Ok);
        }
        self.seq = self.seq + 1;
        let copy = self.game_state.clone();
        events.push(SequencedEvent { seq: self.seq, event: GameEvent::TurnResolved(copy) });
        Ok(TurnReport { events, game_over: false })
    }

    /// Resolve the player's turn with `action`: apply it (with a random
    /// amount), let the enemy react, then end the turn.
    pub fn play_player_turn(&mut self, action: Action) -> (r: Result<TurnReport, TurnError>)
        ensures
            final(self).character == old(self).character,
            r matches Ok(report) ==> is_engine_step(*old(self), *final(self), report.events@),
            match r {
                Ok(report) => exists|roll: i64|
                    is_roll_of(action, roll) && match player_turn_result(
                        old(self).game_state,
                        old(self).enemy,
                        action,
                        roll,
                    ) {
                        Some((g, e)) => ended_turn(g, e, old(self).seq, *final(self), report),
                        None => false,
                    },
                Err(TurnError::EmptyRange) => roll_range_fits(action) && roll_range_empty(action),
                Err(TurnError::Overflow) => true,
            },
            roll_range_fits(action) && !roll_range_empty(action) && (forall|roll: i64|
                is_roll_of(action, roll) ==> match #[trigger] player_turn_result(
                    old(self).game_state,
                    old(self).enemy,
                    action,
                    roll,
                ) {
                    Some((g, e)) => end_turn_fits(g, e, old(self).seq),
                    None => false,
                }) ==> r is Ok,
            r is Ok && health_valid(old(self).game_state) ==> health_valid(final(self).game_state),
    {
        let ghost g0 = self.game_state;
        proof {
            if forall|roll: i64|
                is_roll_of(action, roll) ==> match #[trigger] player_turn_result(
                    g0,
                    old(self).enemy,
                    action,
                    roll,
                ) {
                    Some((g, e)) => end_turn_fits(g, e, old(self).seq),
                    None => false,
                } {
                assert forall|roll: i64| is_roll_of(action, roll) implies #[trigger] action_result(
                    action,
                    roll,
                    g0.player_state,
                    g0.enemy_state,
                ) is Some by {
                    assert(player_turn_result(g0, old(self).enemy, action, roll) is Some);
                }
            }
        }
        let res = handle_turn(&action, &mut self.game_state.player_state, &mut self.game_state.enemy_state);
        match res {
            Ok(()) => {},
            Err(e) => {
                return Err(e);
            },
        }
        let ghost roll = choose|roll: i64|
            is_roll_of(action, roll) && action_result(
                action,
                roll,
                g0.player_state,
                g0.enemy_state,
            ) == Some((self.game_state.player_state, self.game_state.enemy_state));
        if !self.enemy.can_after_players_turn(&self.game_state, &action) {
            return Err(TurnError::Overflow);
        }
        self.enemy.after_players_turn(&mut self.game_state, &action);
        assert(player_turn_result(g0, old(self).enemy, action, roll) == Some(
            (self.game_state, self.enemy),
        ));
        proof {
            if health_valid(g0) {
                lemma_player_turn_keeps_health(g0, old(self).enemy, action, roll);
            }
        }
        let ghost g1 = self.game_state;
        let ghost e1 = self.enemy;
        let ghost s1 = self.seq;
        let r = self.end_turn();
        proof {
            if r is Ok && health_valid(g1) {
                lemma_end_turn_keeps_health(g1, e1, s1, *self, r->Ok_0);
            }
            if r is Ok {
                assert(ended_turn(g1, e1, s1, *self, r->Ok_0));
            }
        }
        r
    }

    /// Resolve the enemy's turn: it chooses an action, which is applied (with
    /// a random amount), then the turn ends.
    pub fn play_enemy_turn(&mut self) -> (r: Result<TurnReport, TurnError>)
        ensures
            final(self).character == old(self).character,
            r matches Ok(report) ==> is_engine_step(*old(self), *final(self), report.events@),
            match r {
                Ok(report) => exists|roll: i64|
                    match #[trigger] enemy_turn_result(old(self).game_state, old(self).enemy, roll) {
                        Some((g, e, action)) => is_roll_of(action, roll) && ended_turn(
                            g,
                            e,
                            old(self).seq,
                            *final(self),
                            report,
                        ),
                        None => false,
                    },
                Err(TurnError::EmptyRange) => old(self).enemy.choose_action_result(
                    old(self).game_state,
                ) matches Some((_, _, a)) && roll_range_fits(a) && roll_range_empty(a),
                Err(TurnError::Overflow) => true,
            },
            // success is owed when the enemy can choose and every amount that
            // can be drawn for its action resolves and ends the turn
            (match old(self).enemy.choose_action_result(old(self).game_state) {
                Some((_, _, a)) => roll_range_fits(a) && !roll_range_empty(a) && forall|roll: i64|
                    is_roll_of(a, roll) ==> match #[trigger] enemy_turn_result(
                        old(self).game_state,
                        old(self).enemy,
                        roll,
                    ) {
                        Some((g, e, _)) => end_turn_fits(g, e, old(self).seq),
                        None => false,
                    },
                None => false,
            }) ==> r is Ok,
            r is Ok && health_valid(old(self).game_state) ==> health_valid(final(self).game_state),
    {
        let ghost g0 = self.game_state;
        let ghost e0 = self.enemy;
        let ghost s0 = self.seq;
        if !self.enemy.can_choose_action(&self.game_state) {
            return Err(TurnError::Overflow);
        }
        let enemys_action = self.enemy.choose_action(&mut self.game_state);
        let ghost g1 = self.game_state;
        proof {
            if roll_range_fits(enemys_action) && !roll_range_empty(enemys_action) && forall|roll: i64|
                is_roll_of(enemys_action, roll) ==> match #[trigger] enemy_turn_result(g0, e0, roll) {
                    Some((g, e, _)) => end_turn_fits(g, e, s0),
                    None => false,
                } {
                assert forall|roll: i64| is_roll_of(enemys_action, roll) implies #[trigger] action_result(
                    enemys_action,
                    roll,
                    g1.enemy_state,
                    g1.player_state,
                ) is Some by {
                    assert(enemy_turn_result(g0, e0, roll) is Some);
                }
            }
        }
        let res = handle_turn(
            &enemys_action,
            &mut self.game_state.enemy_state,
            &mut self.game_state.player_state,
        );
        match res {
            Ok(()) => {},
            Err(e) => {
                return Err(e);
            },
        }
        let ghost roll = choose|roll: i64|
            is_roll_of(enemys_action, roll) && action_result(
                enemys_action,
                roll,
                g1.enemy_state,
                g1.player_state,
            ) == Some((self.game_state.enemy_state, self.game_state.player_state));
        assert(enemy_turn_result(g0, old(self).enemy, roll) == Some(
            (self.game_state, self.enemy, enemys_action),
        ));
        proof {
            if health_valid(g0) {
                lemma_enemy_turn_keeps_health(g0, old(self).enemy, roll);
            }
        }
        let ghost g2 = self.game_state;
        let ghost e2 = self.enemy;
        let ghost s2 = self.seq;
        let r = self.end_turn();
        proof {
            if r is Ok && health_valid(g2) {
                lemma_end_turn_keeps_health(g2, e2, s2, *self, r->Ok_0);
            }
            if r is Ok {
                assert(ended_turn(g2, e2, s2, *self, r->Ok_0));
            }
        }
        r
    }

    /// The final event of a session: [`GameEvent::GameOver`] if the game is
    /// complete, [`GameEvent::GameStopped`] otherwise, with a copy of the game
    /// and the next sequence number.
    pub fn cleanup(&mut self) -> (r: Result<SequencedEvent, TurnError>)
        ensures
            final(self).character == old(self).character,
            r matches Ok(ev) ==> is_engine_step(*old(self), *final(self), seq![ev]),
            final(self).enemy == old(self).enemy,
            final(self).game_state == old(self).game_state,
            match r {
                Ok(ev) => {
                    &&& final(self).seq == old(self).seq + 1
                    &&& ev.seq == final(self).seq
                    &&& if old(self).game_state.complete {
                        ev.event matches GameEvent::GameOver(copy) && copy.is_copy_of(
                            old(self).game_state,
                        )
                    } else {
                        ev.event matches GameEvent::GameStopped(copy) && copy.is_copy_of(
                            old(self).game_state,
                        )
                    }
                },
                Err(e) => e == TurnError::Overflow && old(self).seq == u64::MAX,
            },
    {
        if self.seq == u64::MAX {
            return Err(TurnError::Overflow);
        }
        self.seq = self.seq + 1;
        let copy = self.game_state.clone();
        let event = if self.game_state.complete {
            GameEvent::GameOver(copy)
        } else {
            GameEvent::GameStopped(copy)
        };
        Ok(SequencedEvent { seq: self.seq, event })
    }
}

} // verus!
