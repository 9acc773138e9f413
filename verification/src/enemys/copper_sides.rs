//! Copper Sides enemy.
//!
//! A tanky enemy with a strict attack/defend cycle. On its defend turn it
//! emits a "CHARGING!" message and its power permanently increases by 1,
//! making each subsequent attack hit harder. Power also scales with the
//! current round, so it is stronger in later rounds.
use vstd::prelude::*;

use crate::{
    enemys::{take_message, Enemy, EnemyMessage, EnemyType},
    models::{
        game::{fits_i64, EnemyState, Game, Health},
        Action,
    },
};

verus! {

/// A heavily-armoured enemy that alternates attacking and defending.
///
/// **Attack/defend cycle:** attacks, then defends (gaining +1 power each
/// cycle). Initial power is boosted by the current round number, making this
/// enemy more dangerous in later rounds.
#[derive(Debug, Clone, Copy, PartialEq, Eq)]
pub struct CopperSidesEnemy {
    pub power: i64,
    pub defense: i64,
    pub set_message: Option<EnemyMessage>,
}

impl CopperSidesEnemy {
    /// Copper Sides as [`CopperSidesEnemy::new`] builds it.
    pub open spec fn initial() -> Self {
        CopperSidesEnemy { power: 1, defense: 6, set_message: None }
    }

    /// Create a new CopperSidesEnemy with default stats.
    pub fn new() -> (r: Self)
        ensures
            r == Self::initial(),
    {
        CopperSidesEnemy { power: 1, defense: 6, set_message: None }
    }
}

impl Enemy for CopperSidesEnemy {
    open spec fn new_state_spec(self) -> EnemyState {
        EnemyState {
            next_turn: None,
            state: 2,
            health: Health { current: 50, max: 50 },
            block: 20,
            enemy_type: EnemyType::CopperSides,
        }
    }

    /// The interval is always 8; on the first call of an encounter (state 2)
    /// the power grows by the current round and the cycle starts at state 0.
    open spec fn next_turn_result(self, game: Game) -> Option<(Self, Game, i64)> {
        if game.enemy_state.state == 2 {
            let power = self.power + game.round;
            if fits_i64(power) {
                Some(
                    (
                        CopperSidesEnemy { power: power as i64, ..self },
                        Game { enemy_state: EnemyState { state: 0, ..game.enemy_state }, ..game },
                        8,
                    ),
                )
            } else {
                None
            }
        } else {
            Some((self, game, 8))
        }
    }

    /// On state 0: attack and schedule the follow-up turn right after this
    /// one; otherwise: defend, gain 1 power and announce the charge.
    open spec fn choose_action_result(self, game: Game) -> Option<(Self, Game, Action)> {
        if game.enemy_state.state == 0 {
            let next = game.turn + 1;
            if fits_i64(next) {
                Some(
                    (
                        self,
                        Game {
                            enemy_state: EnemyState {
                                next_turn: Some(next as i64),
                                state: 1,
                                ..game.enemy_state
                            },
                            ..game
                        },
                        Action::Attack(self.power),
                    ),
                )
            } else {
                None
            }
        } else {
            let power = self.power + 1;
            if fits_i64(power) {
                Some(
                    (
                        CopperSidesEnemy {
                            power: power as i64,
                            set_message: Some(EnemyMessage::Charging),
                            ..self
                        },
                        Game { enemy_state: EnemyState { state: 0, ..game.enemy_state }, ..game },
                        Action::Defend(self.defense),
                    ),
                )
            } else {
                None
            }
        }
    }

    open spec fn after_players_turn_result(self, game: Game, prev_action: Action) -> Option<
        (Self, Game),
    > {
        Some((self, game))
    }

    open spec fn pending_message(self) -> Option<EnemyMessage> {
        self.set_message
    }

    open spec fn without_message(self) -> Self {
        CopperSidesEnemy { set_message: None, ..self }
    }

    fn get_new_state(&mut self) -> (r: EnemyState) {
        EnemyState {
            next_turn: None,
            state: 2,
            health: Health { current: 50, max: 50 },
            block: 20,
            enemy_type: EnemyType::CopperSides,
        }
    }

    fn next_turn(&mut self, state: &mut Game) -> (r: i64) {
        // On first call, adjust initial power depending on the current round
        if state.enemy_state.state == 2 {
            self.power = self.power + state.round;
            state.enemy_state.state = 0;
        }
        8
    }

    fn choose_action(&mut self, state: &mut Game) -> (r: Action) {
        // Enemy attacks on state 0, then defends and charges on state 1
        if state.enemy_state.state == 0 {
            state.enemy_state.next_turn = Some(state.turn + 1);
            state.enemy_state.state = 1;
            Action::Attack(self.power)
        } else {
            state.enemy_state.state = 0;
            self.power = self.power + 1;
            self.set_message = Some(EnemyMessage::Charging);
            Action::Defend(self.defense)
        }
    }

    fn after_players_turn(&mut self, state: &mut Game, prev_action: &Action) {
    }

    fn message(&mut self) -> (r: Option<String>) {
        take_message(&mut self.set_message)
    }

    fn can_next_turn(&self, state: &Game) -> (r: bool) {
        if state.enemy_state.state == 2 {
            let power = self.power as i128 + state.round as i128;
            i64::MIN as i128 <= power && power <= i64::MAX as i128
        } else {
            true
        }
    }

    fn can_choose_action(&self, state: &Game) -> (r: bool) {
        if state.enemy_state.state == 0 {
            state.turn < i64::MAX
        } else {
            self.power < i64::MAX
        }
    }

    fn can_after_players_turn(&self, state: &Game, prev_action: &Action) -> (r: bool) {
        true
    }
}

} // verus!
