//! Combatants of the card-based combat model: their hit points with block,
//! their cumulative statistics, and what kind of combatant each is.
use vstd::prelude::*;

use crate::{
    enemys::EnemyType,
    models::game::{combatant::hero::Hero, fits_i64},
};

pub mod action;
pub mod enemy;
pub mod hero;

verus! {

/// A combatant of the card-based model.
#[derive(Debug, Clone, Copy, PartialEq, Eq, Structural)]
pub struct Combatant {
    /// Current and maximum hit points, and the block.
    pub health: Health,
    /// Cumulative statistics.
    pub state: CombatantState,
    /// The turn on which the combatant next acts, if scheduled.
    pub next_turn: Option<i64>,
}

/// What a combatant is: a hero with its deck, or an enemy of some type.
#[derive(Debug, Clone)]
pub enum CombatantType {
    Hero(Hero),
    Enemy(EnemyType),
}

/// Cumulative statistics of a combatant.
///
/// Includes cumulative statistics used to build a post-game summary.
#[derive(Debug, Clone, Copy, PartialEq, Eq, Structural)]
pub struct CombatantState {
    /// Cumulative HP lost over the entire game. (Or round for an enemy)
    pub damage_taken: i64,
    /// Cumulative HP restored over the entire game. (Or round for an enemy)
    pub damage_healed: i64,
    /// Cumulative damage prevented by blocking over the entire game.
    /// (Or round for an enemy)
    pub damage_blocked: i64,
    /// Cumulative damage avoided through dodge mechanics over the entire game.
    /// (Or round for an enemy)
    pub damage_dodged: i64,
    /// Cumulative damage dealt to enemies over the entire game.
    /// (Or round for an enemy)
    pub damage_dealt: i64,
}

/// Current and maximum hit points for a combatant.
#[derive(Debug, Clone, Copy, PartialEq, Eq, Structural)]
pub struct Health {
    /// Current HP. Clamped to `[0, max]` by the combat engine.
    pub current: i64,
    /// Maximum HP.
    pub max: i64,
    /// Damage the player will absorb before taking HP loss this turn.
    pub block: i64,
}

impl Health {
    /// `0 <= current <= max`.
    pub open spec fn is_valid(self) -> bool {
        0 <= self.current <= self.max
    }

    /// The health after healing by `health`: HP grows, capped at the maximum.
    /// `None` where the sum overflows.
    pub open spec fn heal_result(self, health: i64) -> Option<Health> {
        let sum = self.current + health;
        if !fits_i64(sum) {
            None
        } else if sum > self.max {
            Some(Health { current: self.max, ..self })
        } else {
            Some(Health { current: sum as i64, ..self })
        }
    }

    /// The health after `damage`: the block absorbs what it can; damage
    /// beyond the block lowers HP (never below 0) and uses the block up.
    /// `None` where the arithmetic overflows.
    pub open spec fn hurt_result(self, damage: i64) -> Option<Health> {
        if self.block >= damage {
            let rest = self.block - damage;
            if fits_i64(rest) {
                Some(Health { block: rest as i64, ..self })
            } else {
                None
            }
        } else {
            let hp = self.current - (damage - self.block);
            if fits_i64(damage - self.block) && fits_i64(hp) {
                Some(
                    Health {
                        current: if hp < 0 {
                            0
                        } else {
                            hp as i64
                        },
                        block: 0,
                        ..self
                    },
                )
            } else {
                None
            }
        }
    }

    /// Full health with no block.
    pub fn set(max: i64) -> (r: Self)
        ensures
            r == (Health { current: max, max, block: 0 }),
    {
        Health { current: max, max, block: 0 }
    }

    /// Restore `health` HP, capped at the maximum.
    pub fn heal(&mut self, health: i64)
        requires
            old(self).heal_result(health) is Some,
        ensures
            old(self).heal_result(health) == Some(*final(self)),
    {
        self.current = self.current + health;
        if self.current > self.max {
            self.current = self.max;
        }
    }

    /// Take `damage`, the block absorbing what it can.
    pub fn hurt(&mut self, damage: i64)
        requires
            old(self).hurt_result(damage) is Some,
        ensures
            old(self).hurt_result(damage) == Some(*final(self)),
    {
        if self.block >= damage {
            self.block = self.block - damage;
        } else {
            self.current = self.current - (damage - self.block);
            self.block = 0;
            if self.current < 0 {
                self.current = 0;
            }
        }
    }

    /// Set the block to `defense`.
    pub fn defend(&mut self, defense: i64)
        ensures
            *final(self) == (Health { block: defense, ..*old(self) }),
    {
        self.block = defense;
    }
}

/// Hurting keeps HP within `[0, max]`, never raises it, and damage no larger
/// than the block costs no HP.
pub proof fn lemma_hurt_keeps_health(h: Health, damage: i64)
    requires
        h.is_valid(),
        h.hurt_result(damage) is Some,
    ensures
        h.hurt_result(damage)->0.is_valid(),
        h.hurt_result(damage)->0.current <= h.current,
        damage <= h.block ==> h.hurt_result(damage)->0.current == h.current,
{
}

/// Healing by a non-negative amount keeps HP within `[0, max]` and never
/// lowers it.
pub proof fn lemma_heal_keeps_health(h: Health, health: i64)
    requires
        h.is_valid(),
        health >= 0,
        h.heal_result(health) is Some,
    ensures
        h.heal_result(health)->0.is_valid(),
        h.heal_result(health)->0.current >= h.current,
{
}

} // verus!
