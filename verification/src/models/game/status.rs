//! Status effects of the card-based combat model: effects registered to run
//! before or after each turn, aimed at a target.
use vstd::prelude::*;

use crate::models::game::combatant::action::Target;

verus! {

/// The effects a status can apply.
#[derive(Debug, Clone, Copy, PartialEq, Eq, Structural)]
pub enum StatusEffect {
    /// A bomb at 0 HP explodes.
    TriggerExplosion,
}

/// The status effects registered on a game, by when they apply.
#[derive(Debug)]
pub struct StatusEffects {
    pub before_turn: Vec<Status>,
    pub after_turn: Vec<Status>,
}

/// A status effect registered to apply before or after each turn.
#[derive(Debug)]
pub enum StatusType {
    Before(Status),
    After(Status),
}

/// An effect applied to a target.
#[derive(Debug)]
pub struct Status {
    pub target: Target,
    pub apply: StatusEffect,
}

impl StatusEffects {
    /// No status effects.
    pub fn new() -> (r: Self)
        ensures
            r.before_turn@.len() == 0,
            r.after_turn@.len() == 0,
    {
        StatusEffects { before_turn: Vec::new(), after_turn: Vec::new() }
    }

    fn add_status(&mut self, status_type: StatusType)
        ensures
            match status_type {
                StatusType::Before(s) => final(self).before_turn@ == old(self).before_turn@.push(s)
                    && final(self).after_turn@ == old(self).after_turn@,
                StatusType::After(s) => final(self).after_turn@ == old(self).after_turn@.push(s)
                    && final(self).before_turn@ == old(self).before_turn@,
            },
    {
        match status_type {
            StatusType::Before(status) => {
                self.before_turn.push(status);
            },
            StatusType::After(status) => {
                self.after_turn.push(status);
            },
        }
    }

    /// Register an effect to apply to `target` before each turn.
    pub fn add_before_turn(&mut self, target: Target, apply: StatusEffect)
        ensures
            final(self).before_turn@ == old(self).before_turn@.push(Status { target, apply }),
            final(self).after_turn@ == old(self).after_turn@,
    {
        self.add_status(StatusType::Before(Status { target, apply }));
    }

    /// Register an effect to apply to `target` after each turn.
    pub fn add_after_turn(&mut self, target: Target, apply: StatusEffect)
        ensures
            final(self).after_turn@ == old(self).after_turn@.push(Status { target, apply }),
            final(self).before_turn@ == old(self).before_turn@,
    {
        self.add_status(StatusType::After(Status { target, apply }));
    }
}

impl Status {
    /// An effect aimed at `target`.
    pub fn new(target: Target, apply: StatusEffect) -> (r: Self)
        ensures
            r == (Status { target, apply }),
    {
        Status { target, apply }
    }
}

} // verus!
