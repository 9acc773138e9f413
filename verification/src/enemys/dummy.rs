//! Dummy enemy — a passive stand-in used as a placeholder and fallback.
//!
//! The Dummy never takes an action, always waits 100 turns before its next
//! turn, and does not react to the player. It is returned by
//! [`crate::enemys::get_enemy_by_type`] for [`crate::enemys::EnemyType::Unknown`].
use vstd::prelude::*;

use crate::{
    enemys::{Enemy, EnemyMessage, EnemyType},
    models::{
        game::{EnemyState, Game, Health},
        Action,
    },
};

verus! {

/// A passive enemy that takes no action.
///
/// Useful as a safe default and for testing the game loop without combat.
#[derive(Debug, Clone, Copy, PartialEq, Eq)]
pub struct DummyEnemy {}

impl DummyEnemy {
    /// The dummy as [`DummyEnemy::new`] builds it.
    pub open spec fn initial() -> Self {
        DummyEnemy {  }
    }

    /// Create a new DummyEnemy.
    pub fn new() -> (r: Self)
        ensures
            r == Self::initial(),
    {
        DummyEnemy {  }
    }
}

impl Enemy for DummyEnemy {
    open spec fn new_state_spec(self) -> EnemyState {
        EnemyState {
            next_turn: None,
            state: 0,
            health: Health { current: 100, max: 100 },
            block: 0,
            enemy_type: EnemyType::Dummy,
        }
    }

    open spec fn next_turn_result(self, game: Game) -> Option<(Self, Game, i64)> {
        Some((self, game, 100))
    }

    open spec fn choose_action_result(self, game: Game) -> Option<(Self, Game, Action)> {
        Some((self, game, Action::NoAction))
    }

    open spec fn after_players_turn_result(self, game: Game, prev_action: Action) -> Option<
        (Self, Game),
    > {
        Some((self, game))
    }

    open spec fn pending_message(self) -> Option<EnemyMessage> {
        None
    }

    open spec fn without_message(self) -> Self {
        self
    }

    fn get_new_state(&mut self) -> (r: EnemyState) {
        EnemyState {
            next_turn: None,
            state: 0,
            health: Health { current: 100, max: 100 },
            block: 0,
            enemy_type: EnemyType::Dummy,
        }
    }

    fn next_turn(&mut self, state: &mut Game) -> (r: i64) {
        100
    }

    fn choose_action(&mut self, state: &mut Game) -> (r: Action) {
        Action::NoAction
    }

    fn after_players_turn(&mut self, state: &mut Game, prev_action: &Action) {
    }

    fn message(&mut self) -> (r: Option<String>) {
        None
    }

    fn can_next_turn(&self, state: &Game) -> (r: bool) {
        true
    }

    fn can_choose_action(&self, state: &Game) -> (r: bool) {
        true
    }

    fn can_after_players_turn(&self, state: &Game, prev_action: &Action) -> (r: bool) {
        true
    }
}

} // verus!
