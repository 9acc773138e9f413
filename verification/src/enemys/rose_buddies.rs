//! Rose Buddies enemy.
//!
//! A fast attacker that cycles between attacking (twice) and healing. When the
//! player attacks, Rose Buddies retaliates with a "Thorns" proc that deals 1
//! damage back. It speeds up when below half health.
use vstd::prelude::*;

use crate::{
    enemys::{take_message, Enemy, EnemyMessage, EnemyType},
    models::{
        game::{fits_i64, Combatant, EnemyState, Game, Health},
        Action,
    },
};

verus! {

/// Damage the thorns deal to a player who attacks Rose Buddies.
pub const THORNS_DAMAGE: i64 = 1;

/// A thorny, self-healing enemy that punishes attackers.
///
/// **Attack pattern:** attacks twice, then heals once (cycle repeats). When
/// below 20 HP the turn interval decreases, making it act more frequently.
#[derive(Debug, Clone, Copy, PartialEq, Eq)]
pub struct RoseBuddiesEnemy {
    pub power: i64,
    pub defense: i64,
    pub speed: i64,
    pub set_message: Option<EnemyMessage>,
}

impl RoseBuddiesEnemy {
    /// Rose Buddies as [`RoseBuddiesEnemy::new`] builds them.
    pub open spec fn initial() -> Self {
        RoseBuddiesEnemy { power: 4, defense: 2, speed: 5, set_message: None }
    }

    /// Create a new RoseBuddiesEnemy with default stats.
    pub fn new() -> (r: Self)
        ensures
            r == Self::initial(),
    {
        RoseBuddiesEnemy { power: 4, defense: 2, speed: 5, set_message: None }
    }

    /// The turn interval: shorter below 20 HP.
    pub open spec fn interval(self, game: Game) -> int {
        if game.enemy_state.health.current < 20 {
            8 - self.speed
        } else {
            10 - self.speed
        }
    }
}

impl Enemy for RoseBuddiesEnemy {
    open spec fn new_state_spec(self) -> EnemyState {
        EnemyState {
            next_turn: None,
            state: 0,
            health: Health { current: 40, max: 40 },
            block: 0,
            enemy_type: EnemyType::RoseBuddies,
        }
    }

    open spec fn next_turn_result(self, game: Game) -> Option<(Self, Game, i64)> {
        if fits_i64(self.interval(game)) {
            Some((self, game, self.interval(game) as i64))
        } else {
            None
        }
    }

    /// Attack while the cycle counter is below 2 (counting up), then heal and
    /// restart the cycle.
    open spec fn choose_action_result(self, game: Game) -> Option<(Self, Game, Action)> {
        if game.enemy_state.state < 2 {
            Some(
                (
                    self,
                    Game {
                        enemy_state: EnemyState {
                            state: (game.enemy_state.state + 1) as i64,
                            ..game.enemy_state
                        },
                        ..game
                    },
                    Action::Attack(self.power),
                ),
            )
        } else {
            Some(
                (
                    self,
                    Game { enemy_state: EnemyState { state: 0, ..game.enemy_state }, ..game },
                    Action::Heal(self.defense),
                ),
            )
        }
    }

    /// Thorns hurt the player who attacked.
    open spec fn after_players_turn_result(self, game: Game, prev_action: Action) -> Option<
        (Self, Game),
    > {
        match prev_action {
            Action::Attack(_) => match game.player_state.take_damage_result(THORNS_DAMAGE) {
                Some((p, _)) => Some(
                    (
                        RoseBuddiesEnemy { set_message: Some(EnemyMessage::Thorns), ..self },
                        Game { player_state: p, ..game },
                    ),
                ),
                None => None,
            },
            _ => Some((self, game)),
        }
    }

    open spec fn pending_message(self) -> Option<EnemyMessage> {
        self.set_message
    }

    open spec fn without_message(self) -> Self {
        RoseBuddiesEnemy { set_message: None, ..self }
    }

    fn get_new_state(&mut self) -> (r: EnemyState) {
        EnemyState {
            next_turn: None,
            state: 0,
            health: Health { current: 40, max: 40 },
            block: 0,
            enemy_type: EnemyType::RoseBuddies,
        }
    }

    fn next_turn(&mut self, state: &mut Game) -> (r: i64) {
        if state.enemy_state.health.current < 20 {
            8 - self.speed
        } else {
            10 - self.speed
        }
    }

    fn choose_action(&mut self, state: &mut Game) -> (r: Action) {
        if state.enemy_state.state < 2 {
            // Base state -> attack with power
            state.enemy_state.state = state.enemy_state.state + 1;  // attack twice then heal.
            Action::Attack(self.power)
        } else {
            // second state -> heal with defense
            state.enemy_state.state = 0;
            Action::Heal(self.defense)
        }
    }

    fn after_players_turn(&mut self, state: &mut Game, prev_action: &Action) {
        // When player attacks, Rose Buddies hurts player with "Thorns"
        if let Action::Attack(_) = prev_action {
            state.player_state.take_damage(THORNS_DAMAGE);
            self.set_message = Some(EnemyMessage::Thorns);
        }
    }

    fn message(&mut self) -> (r: Option<String>) {
        take_message(&mut self.set_message)
    }

    fn can_next_turn(&self, state: &Game) -> (r: bool) {
        if state.enemy_state.health.current < 20 {
            self.speed >= 8 - i64::MAX
        } else {
            self.speed >= 10 - i64::MAX
        }
    }

    fn can_choose_action(&self, state: &Game) -> (r: bool) {
        true
    }

    fn can_after_players_turn(&self, state: &Game, prev_action: &Action) -> (r: bool) {
        match prev_action {
            Action::Attack(_) => state.player_state.can_take_damage(THORNS_DAMAGE),
            _ => true,
        }
    }
}

} // verus!
