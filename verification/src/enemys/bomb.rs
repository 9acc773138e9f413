//! Bomb enemy — a countdown detonator.
//!
//! The Bomb has only 1 HP and counts down 20 turns before detonating. If the
//! player attacks the Bomb before it detonates, it explodes immediately for 20
//! damage. When it detonates naturally (turn counter expires) it attacks for a
//! base power of 5, sets its own HP to 0, and is defeated.
use vstd::prelude::*;

use crate::{
    enemys::{take_message, Enemy, EnemyMessage, EnemyType},
    models::{
        game::{Combatant, EnemyState, Game, Health},
        Action,
    },
};

verus! {

/// Damage the bomb's explosion deals to a player who attacks it.
pub const EXPLOSION_DAMAGE: i64 = 20;

/// A fragile enemy that detonates after 20 turns or when struck.
///
/// **Detonation mechanic:** waits 20 turns, then self-destructs with an
/// `Attack(5)` action (killing itself). If the player attacks at any point
/// before detonation, the bomb explodes immediately dealing 20 damage to the
/// player.
#[derive(Debug, Clone, Copy, PartialEq, Eq)]
pub struct BombEnemy {
    pub set_message: Option<EnemyMessage>,
}

impl BombEnemy {
    /// The bomb as [`BombEnemy::new`] builds it.
    pub open spec fn initial() -> Self {
        BombEnemy { set_message: None }
    }

    /// Create a new BombEnemy.
    pub fn new() -> (r: Self)
        ensures
            r == Self::initial(),
    {
        BombEnemy { set_message: None }
    }
}

impl Enemy for BombEnemy {
    open spec fn new_state_spec(self) -> EnemyState {
        EnemyState {
            next_turn: None,
            state: 0,
            health: Health { current: 1, max: 1 },
            block: 0,
            enemy_type: EnemyType::Bomb,
        }
    }

    open spec fn next_turn_result(self, game: Game) -> Option<(Self, Game, i64)> {
        Some((BombEnemy { set_message: Some(EnemyMessage::Countdown) }, game, 20))
    }

    /// The bomb self-destructs when its turn arrives.
    open spec fn choose_action_result(self, game: Game) -> Option<(Self, Game, Action)> {
        Some(
            (
                BombEnemy { set_message: Some(EnemyMessage::Kaboom) },
                Game {
                    enemy_state: EnemyState {
                        health: Health { current: 0, ..game.enemy_state.health },
                        ..game.enemy_state
                    },
                    ..game
                },
                Action::Attack(5),
            ),
        )
    }

    /// The bomb explodes on the player who attacks it.
    open spec fn after_players_turn_result(self, game: Game, prev_action: Action) -> Option<
        (Self, Game),
    > {
        match prev_action {
            Action::Attack(_) => match game.player_state.take_damage_result(EXPLOSION_DAMAGE) {
                Some((p, _)) => Some(
                    (
                        BombEnemy { set_message: Some(EnemyMessage::Kaboom) },
                        Game { player_state: p, ..game },
                    ),
                ),
                None => None,
            },
            _ => Some((self, game)),
        }
    }

    open spec fn pending_message(self) -> Option<EnemyMessage> {
        self.set_message
    }

    open spec fn without_message(self) -> Self {
        BombEnemy { set_message: None }
    }

    fn get_new_state(&mut self) -> (r: EnemyState) {
        EnemyState {
            next_turn: None,
            state: 0,
            health: Health { current: 1, max: 1 },
            block: 0,
            enemy_type: EnemyType::Bomb,
        }
    }

    fn next_turn(&mut self, state: &mut Game) -> (r: i64) {
        self.set_message = Some(EnemyMessage::Countdown);
        20
    }

    fn choose_action(&mut self, state: &mut Game) -> (r: Action) {
        // Bomb self-destructs when its turn arrives
        state.enemy_state.health.current = 0;
        self.set_message = Some(EnemyMessage::Kaboom);
        Action::Attack(5)
    }

    fn after_players_turn(&mut self, state: &mut Game, prev_action: &Action) {
        // Bomb detonates immediately if the player attacks it
        if let Action::Attack(_) = prev_action {
            self.set_message = Some(EnemyMessage::Kaboom);
            state.player_state.take_damage(EXPLOSION_DAMAGE);
        }
    }

    fn message(&mut self) -> (r: Option<String>) {
        take_message(&mut self.set_message)
    }

    fn can_next_turn(&self, state: &Game) -> (r: bool) {
        true
    }

    fn can_choose_action(&self, state: &Game) -> (r: bool) {
        true
    }

    fn can_after_players_turn(&self, state: &Game, prev_action: &Action) -> (r: bool) {
        match prev_action {
            Action::Attack(_) => state.player_state.can_take_damage(EXPLOSION_DAMAGE),
            _ => true,
        }
    }
}

} // verus!
