//! Maestro enemy — an ammo-based ranged attacker.
//!
//! Maestro fires up to 6 shots before needing to reload. Each shot is
//! slightly stronger than the last (power increases as ammo decreases). The
//! final shot deals double power damage. Reloading uses a *negative* defense
//! value, which means the "defend" action actually costs Maestro HP instead of
//! gaining block — representing the vulnerability of reloading. Maestro also
//! speeds up as its HP falls.
//!
//! Authors: Sam Plemmons and James Wall
use vstd::prelude::*;

use crate::{
    enemys::{take_message, Enemy, EnemyMessage, EnemyType},
    models::{
        game::{fits_i64, EnemyState, Game, Health},
        Action,
    },
};

verus! {

/// A gunslinging enemy that grows more dangerous as it approaches its last
/// shot.
///
/// **Ammo mechanic:** starts with 6 shots. Each shot reduces ammo by 1 and
/// deals `power - ammo` damage (so later shots hit harder). When ammo reaches
/// 1 the final "super shot" fires at `power * 2`. When ammo hits 0 Maestro
/// reloads (defends with a negative value) and the cycle resets.
#[derive(Debug, Clone, Copy, PartialEq, Eq)]
pub struct MaestroEnemy {
    pub power: i64,
    pub ammo: i64,
    pub defense: i64,
    pub speed: i64,
    pub set_message: Option<EnemyMessage>,
}

impl MaestroEnemy {
    /// Maestro as [`MaestroEnemy::new`] builds it.
    pub open spec fn initial() -> Self {
        MaestroEnemy { power: 8, ammo: 6, defense: -5i64, speed: 4, set_message: None }
    }

    /// Create a new MaestroEnemy with default stats.
    pub fn new() -> (r: Self)
        ensures
            r == Self::initial(),
    {
        MaestroEnemy { power: 8, ammo: 6, defense: -5, speed: 4, set_message: None }
    }

    /// The turn interval: shorter below 20 HP, shorter still below 10 HP.
    pub open spec fn interval(self, game: Game) -> int {
        if game.enemy_state.health.current < 10 {
            6 - self.speed
        } else if game.enemy_state.health.current < 20 {
            8 - self.speed
        } else {
            10 - self.speed
        }
    }
}

impl Enemy for MaestroEnemy {
    open spec fn new_state_spec(self) -> EnemyState {
        EnemyState {
            next_turn: None,
            state: 0,
            health: Health { current: 30, max: 30 },
            block: 0,
            enemy_type: EnemyType::Maestro,
        }
    }

    open spec fn next_turn_result(self, game: Game) -> Option<(Self, Game, i64)> {
        if fits_i64(self.interval(game)) {
            Some((self, game, self.interval(game) as i64))
        } else {
            None
        }
    }

    /// Fire a shot of `power - ammo` while more than one round is left, a
    /// double-power shot with the last round, and reload (defending with the
    /// negative defense) when empty.
    open spec fn choose_action_result(self, game: Game) -> Option<(Self, Game, Action)> {
        if self.ammo > 1 {
            let ammo = self.ammo - 1;
            let shot = self.power - ammo;
            if fits_i64(shot) {
                Some(
                    (
                        MaestroEnemy {
                            ammo: ammo as i64,
                            set_message: Some(EnemyMessage::RoundsLeft(ammo as u64)),
                            ..self
                        },
                        game,
                        Action::Attack(shot as i64),
                    ),
                )
            } else {
                None
            }
        } else if self.ammo == 1 {
            let shot = self.power * 2;
            if fits_i64(shot) {
                Some(
                    (
                        MaestroEnemy {
                            ammo: 0,
                            set_message: Some(EnemyMessage::FinalShot),
                            ..self
                        },
                        game,
                        Action::Attack(shot as i64),
                    ),
                )
            } else {
                None
            }
        } else {
            Some(
                (
                    MaestroEnemy { ammo: 6, set_message: Some(EnemyMessage::Reload), ..self },
                    game,
                    Action::Defend(self.defense),
                ),
            )
        }
    }

    open spec fn after_players_turn_result(self, game: Game, prev_action: Action) -> Option<
        (Self, Game),
    > {
        Some((self, game))
    }

    open spec fn pending_message(self) -> Option<EnemyMessage> {
        self.set_message
    }

    open spec fn without_message(self) -> Self {
        MaestroEnemy { set_message: None, ..self }
    }

    fn get_new_state(&mut self) -> (r: EnemyState) {
        EnemyState {
            next_turn: None,
            state: 0,
            health: Health { current: 30, max: 30 },
            block: 0,
            enemy_type: EnemyType::Maestro,
        }
    }

    fn next_turn(&mut self, state: &mut Game) -> (r: i64) {
        // Gets faster as health drops
        if state.enemy_state.health.current < 10 {
            6 - self.speed
        } else if state.enemy_state.health.current < 20 {
            8 - self.speed
        } else {
            10 - self.speed
        }
    }

    fn choose_action(&mut self, state: &mut Game) -> (r: Action) {
        // if they still have ammo, use basic attack
        if self.ammo > 1 {
            self.ammo = self.ammo - 1;  // reduce ammo count
            self.set_message = Some(EnemyMessage::RoundsLeft(self.ammo as u64));
            Action::Attack(self.power - self.ammo)
            // super attack with final round

        } else if self.ammo == 1 {
            self.ammo = self.ammo - 1;
            self.set_message = Some(EnemyMessage::FinalShot);
            Action::Attack(self.power * 2)
            // reload but takes more damage

        } else {
            self.ammo = 6;
            self.set_message = Some(EnemyMessage::Reload);
            Action::Defend(self.defense)
        }
    }

    fn after_players_turn(&mut self, state: &mut Game, prev_action: &Action) {
    }

    fn message(&mut self) -> (r: Option<String>) {
        take_message(&mut self.set_message)
    }

    fn can_next_turn(&self, state: &Game) -> (r: bool) {
        if state.enemy_state.health.current < 10 {
            self.speed >= 6 - i64::MAX
        } else if state.enemy_state.health.current < 20 {
            self.speed >= 8 - i64::MAX
        } else {
            self.speed >= 10 - i64::MAX
        }
    }

    fn can_choose_action(&self, state: &Game) -> (r: bool) {
        if self.ammo > 1 {
            let shot = self.power as i128 - (self.ammo as i128 - 1);
            i64::MIN as i128 <= shot && shot <= i64::MAX as i128
        } else if self.ammo == 1 {
            let shot = self.power as i128 * 2;
            i64::MIN as i128 <= shot && shot <= i64::MAX as i128
        } else {
            true
        }
    }

    fn can_after_players_turn(&self, state: &Game, prev_action: &Action) -> (r: bool) {
        true
    }
}

} // verus!
