//! Rose Buddies enemy of the card-based model.
//!
//! A fast attacker that cycles between attacking (twice) and healing. When the
//! player attacks, Rose Buddies retaliates with a "Thorns" proc that deals 1
//! damage back. It speeds up when below 20 HP.
use vstd::prelude::*;

use crate::{
    enemys::{take_message, EnemyMessage},
    models::{
        game::{fits_i64, Combatant, EnemyState, Game},
        Action,
    },
};

verus! {

/// Damage the thorns deal to a player who attacks Rose Buddies.
pub const THORNS: i64 = 1;

/// A thorny, self-healing enemy that punishes attackers.
///
/// **Attack pattern:** attacks twice, then heals once (cycle repeats). When
/// below 20 HP the turn interval decreases, making it act more frequently.
#[derive(Debug, Clone, Copy, PartialEq, Eq)]
pub struct RoseBuddies {
    pub power: i64,
    pub defense: i64,
    pub speed: i64,
    pub set_message: Option<EnemyMessage>,
}

impl RoseBuddies {
    /// Create a new Rose Buddies with default stats.
    pub fn new() -> (r: Self)
        ensures
            r == (RoseBuddies { power: 4, defense: 2, speed: 5, set_message: None }),
    {
        RoseBuddies { power: 4, defense: 2, speed: 5, set_message: None }
    }

    /// The turn interval on `game`: `8 - speed` below 20 HP, `10 - speed`
    /// otherwise.
    pub open spec fn interval(self, game: Game) -> int {
        if game.enemy_state.health.current < 20 {
            8 - self.speed
        } else {
            10 - self.speed
        }
    }

    /// The turn interval: shorter below 20 HP.
    pub fn next_turn(&mut self, state: &mut Game) -> (r: i64)
        requires
            fits_i64(old(self).interval(*old(state))),
        ensures
            r == old(self).interval(*old(state)),
            *final(self) == *old(self),
            *final(state) == *old(state),
    {
        if state.enemy_state.health.current < 20 {
            8 - self.speed
        } else {
            10 - self.speed
        }
    }

    /// Attack while the cycle counter is below 2, counting it up; at 2, heal
    /// and restart the cycle.
    pub fn choose_action(&mut self, state: &mut Game) -> (r: Action)
        ensures
            *final(self) == *old(self),
            old(state).enemy_state.state < 2 ==> {
                &&& r == Action::Attack(old(self).power)
                &&& *final(state) == (Game {
                    enemy_state: EnemyState {
                        state: (old(state).enemy_state.state + 1) as i64,
                        ..old(state).enemy_state
                    },
                    ..*old(state)
                })
            },
            old(state).enemy_state.state >= 2 ==> {
                &&& r == Action::Heal(old(self).defense)
                &&& *final(state) == (Game {
                    enemy_state: EnemyState { state: 0, ..old(state).enemy_state },
                    ..*old(state)
                })
            },
    {
        if state.enemy_state.state < 2 {
            // Base state -> attack with power
            state.enemy_state.state = state.enemy_state.state + 1;  // attack twice then heal.
            Action::Attack(self.power)
        } else {
            // second state -> heal with defense
            state.enemy_state.state = 0;
            Action::Heal(self.defense)
        }
    }

    /// When the player attacked, the thorns hurt the player and are announced;
    /// any other action changes nothing.
    pub fn after_players_turn(&mut self, state: &mut Game, prev_action: &Action)
        requires
            prev_action is Attack ==> old(state).player_state.take_damage_result(THORNS) is Some,
        ensures
            prev_action is Attack ==> {
                &&& *final(state) == (Game {
                    player_state: (old(state).player_state.take_damage_result(THORNS)->0).0,
                    ..*old(state)
                })
                &&& *final(self) == (RoseBuddies {
                    set_message: Some(EnemyMessage::Thorns),
                    ..*old(self)
                })
            },
            !(prev_action is Attack) ==> *final(state) == *old(state) && *final(self) == *old(
                self,
            ),
    {
        // When player attacks, Rose Buddies hurts player with "Thorns"
        if let Action::Attack(_) = prev_action {
            state.player_state.take_damage(THORNS);
            self.set_message = Some(EnemyMessage::Thorns);
        }
    }

    /// Return a queued narrative message (if any) and clear it.
    pub fn message(&mut self) -> (r: Option<String>)
        ensures
            *final(self) == (RoseBuddies { set_message: None, ..*old(self) }),
            r is Some <==> old(self).set_message is Some,
            r matches Some(s) ==> s@ == old(self).set_message->0.text_spec(),
    {
        take_message(&mut self.set_message)
    }
}

} // verus!
