//! Iron Lotus enemy — a burn-stacking attacker.
//!
//! Iron Lotus applies passive burn damage to the player at the end of every
//! turn. Burn stacks increase each time Iron Lotus attacks (and ramp up faster
//! below half health). If the player heals, burn increases by an additional 3,
//! punishing recovery. Once per encounter, when Iron Lotus's HP falls below
//! the current burn value, it heals itself and the player simultaneously while
//! announcing a narrative message.
//!
//! The burn and the heal change the player's HP directly; like every other
//! HP change they keep it within `[0, max]`.
//!
//! Authors: Sam Plemmons and James Wall
use vstd::prelude::*;

use crate::{
    enemys::{take_message, Enemy, EnemyMessage, EnemyType},
    models::{
        game::{fits_i64, EnemyState, Game, Health},
        Action,
    },
};

verus! {

/// `x / 2`, rounded toward zero as Rust's integer division does.
pub open spec fn half_toward_zero(x: i64) -> int {
    if x >= 0 {
        x / 2
    } else {
        -((-x) / 2)
    }
}

/// `hp + change`, kept within `[0, max]`.
pub open spec fn clamp_hp(hp: int, max: i64) -> int {
    if hp < 0 {
        0
    } else if hp > max {
        max as int
    } else {
        hp
    }
}

/// An enemy that builds escalating burn damage over time.
///
/// **Burn mechanic:** `burn` starts at 0 and increases by 1 each time Iron
/// Lotus attacks (+2 per attack below half health). At the end of every
/// player turn, `burn` HP is dealt to the player. Healing increases `burn`
/// by 3. Speed is fixed at a turn interval of 6.
#[derive(Debug, Clone, Copy, PartialEq, Eq)]
pub struct IronLotusEnemy {
    pub power: i64,
    pub burn: i64,
    pub set_message: Option<EnemyMessage>,
}

impl IronLotusEnemy {
    /// Iron Lotus as [`IronLotusEnemy::new`] builds it.
    pub open spec fn initial() -> Self {
        IronLotusEnemy { power: 4, burn: 0, set_message: None }
    }

    /// Create a new IronLotusEnemy with zero initial burn.
    pub fn new() -> (r: Self)
        ensures
            r == Self::initial(),
    {
        IronLotusEnemy { power: 4, burn: 0, set_message: None }
    }

    /// The burn stacks.
    pub open spec fn burn_of(self) -> i64 {
        self.burn
    }
}

/// `hp` kept within `[0, max]`.
fn clamped(hp: i64, max: i64) -> (r: i64)
    ensures
        r == clamp_hp(hp as int, max),
{
    if hp < 0 {
        0
    } else if hp > max {
        max
    } else {
        hp
    }
}

impl Enemy for IronLotusEnemy {
    open spec fn new_state_spec(self) -> EnemyState {
        EnemyState {
            next_turn: None,
            state: 1,
            health: Health { current: 40, max: 40 },
            block: 0,
            enemy_type: EnemyType::IronLotus,
        }
    }

    open spec fn next_turn_result(self, game: Game) -> Option<(Self, Game, i64)> {
        Some((self, game, 6))
    }

    /// Once (state 1), when its HP is below the burn: heal the player by the
    /// burn and heal itself with the burn as stat. Otherwise attack, growing
    /// the burn by 1, or by 2 below half health.
    open spec fn choose_action_result(self, game: Game) -> Option<(Self, Game, Action)> {
        let e = game.enemy_state;
        let p = game.player_state;
        if e.state == 1 && e.health.current < self.burn {
            let hp = p.health.current + self.burn;
            if fits_i64(hp) {
                Some(
                    (
                        IronLotusEnemy { set_message: Some(EnemyMessage::SearingFlames), ..self },
                        Game {
                            enemy_state: EnemyState { state: 0, ..e },
                            player_state: crate::models::game::PlayerState {
                                health: Health {
                                    current: clamp_hp(hp, p.health.max) as i64,
                                    ..p.health
                                },
                                ..p
                            },
                            ..game
                        },
                        Action::Heal(self.burn),
                    ),
                )
            } else {
                None
            }
        } else {
            let burn = if e.health.current < half_toward_zero(e.health.max) {
                self.burn + 2
            } else {
                self.burn + 1
            };
            if fits_i64(burn) {
                Some((IronLotusEnemy { burn: burn as i64, ..self }, game, Action::Attack(self.power)))
            } else {
                None
            }
        }
    }

    /// Burn the player; if the player healed, grow the burn by 3.
    open spec fn after_players_turn_result(self, game: Game, prev_action: Action) -> Option<
        (Self, Game),
    > {
        let p = game.player_state;
        let hp = p.health.current - self.burn;
        let burned = Game {
            player_state: crate::models::game::PlayerState {
                health: Health { current: clamp_hp(hp, p.health.max) as i64, ..p.health },
                ..p
            },
            ..game
        };
        if !fits_i64(hp) {
            None
        } else {
            match prev_action {
                Action::Heal(_) => if fits_i64(self.burn + 3) {
                    Some(
                        (
                            IronLotusEnemy {
                                burn: (self.burn + 3) as i64,
                                set_message: Some(EnemyMessage::GrowingFlames),
                                ..self
                            },
                            burned,
                        ),
                    )
                } else {
                    None
                },
                _ => Some((self, burned)),
            }
        }
    }

    open spec fn pending_message(self) -> Option<EnemyMessage> {
        self.set_message
    }

    open spec fn without_message(self) -> Self {
        IronLotusEnemy { set_message: None, ..self }
    }

    fn get_new_state(&mut self) -> (r: EnemyState) {
        EnemyState {
            next_turn: None,
            state: 1,
            health: Health { current: 40, max: 40 },
            block: 0,
            enemy_type: EnemyType::IronLotus,
        }
    }

    fn next_turn(&mut self, state: &mut Game) -> (r: i64) {
        // speed is always 6
        6
    }

    fn choose_action(&mut self, state: &mut Game) -> (r: Action) {
        // heal self and player to keep the flames growing (only once)
        if state.enemy_state.state == 1 && state.enemy_state.health.current < self.burn {
            state.enemy_state.state = state.enemy_state.state - 1;
            self.set_message = Some(EnemyMessage::SearingFlames);
            state.player_state.health.current = clamped(
                state.player_state.health.current + self.burn,
                state.player_state.health.max,
            );
            Action::Heal(self.burn)
            // basic attack which builds up burn

        } else {
            self.burn = self.burn + 1;
            // ramp up burn when below half health
            if state.enemy_state.health.current < (state.enemy_state.health.max / 2) {
                self.burn = self.burn + 1;
            }
            Action::Attack(self.power)
        }
    }

    fn after_players_turn(&mut self, state: &mut Game, prev_action: &Action) {
        // At end of turn, deal burn damage to player
        state.player_state.health.current = clamped(
            state.player_state.health.current - self.burn,
            state.player_state.health.max,
        );
        // if player healed, increase burn damage
        if let Action::Heal(_) = prev_action {
            self.burn = self.burn + 3;
            self.set_message = Some(EnemyMessage::GrowingFlames);
        }
    }

    fn message(&mut self) -> (r: Option<String>) {
        take_message(&mut self.set_message)
    }

    fn can_next_turn(&self, state: &Game) -> (r: bool) {
        true
    }

    fn can_choose_action(&self, state: &Game) -> (r: bool) {
        if state.enemy_state.state == 1 && state.enemy_state.health.current < self.burn {
            let hp = state.player_state.health.current as i128 + self.burn as i128;
            i64::MIN as i128 <= hp && hp <= i64::MAX as i128
        } else if state.enemy_state.health.current < (state.enemy_state.health.max / 2) {
            self.burn < i64::MAX - 1
        } else {
            self.burn < i64::MAX
        }
    }

    fn can_after_players_turn(&self, state: &Game, prev_action: &Action) -> (r: bool) {
        let hp = state.player_state.health.current as i128 - self.burn as i128;
        if hp < i64::MIN as i128 || hp > i64::MAX as i128 {
            false
        } else {
            match prev_action {
                Action::Heal(_) => self.burn <= i64::MAX - 3,
                _ => true,
            }
        }
    }
}

} // verus!
