//! Copper Sides enemy of the card-based model.
//!
//! A tanky enemy with a strict attack/defend cycle: it alternates an attack
//! on every hero with a charging block, and each charge emits "CHARGING!" and
//! permanently increases its power by 1, so each following attack hits
//! harder.
use vstd::prelude::*;
use vstd::string::StringExecFns;

use crate::{
    enemys::{take_message, EnemyMessage},
    models::game::{
        combatant::action::{is_single_card, ActionCard, ActionType, Target},
        fits_i64,
    },
};

verus! {

/// A heavily-armoured enemy that alternates attacking and defending.
#[derive(Debug, Clone, Copy, PartialEq, Eq)]
pub struct CopperSides {
    /// 0 before an attack, 1 before a charge.
    pub stage: i64,
    pub power: i64,
    pub defense: i64,
    pub set_message: Option<EnemyMessage>,
}

/// The attack card: "Pummel!" on every hero with the given power.
pub open spec fn is_pummel_card(c: ActionCard, power: i64) -> bool {
    is_single_card(c, "Pummel!"@, Target::AllHeros, ActionType::Attack(power))
}

/// The charging card: "Charging!", a block for itself with the given defence.
pub open spec fn is_charging_card(c: ActionCard, defense: i64) -> bool {
    is_single_card(c, "Charging!"@, Target::CombatantSelf, ActionType::Block(defense))
}

impl CopperSides {
    /// Create a new Copper Sides with default stats, starting with a charge.
    pub fn new() -> (r: Self)
        ensures
            r == (CopperSides { stage: 1, power: 5, defense: 15, set_message: None }),
    {
        CopperSides { stage: 1, power: 5, defense: 15, set_message: None }
    }

    /// The turn interval: 8 before a charge, 1 before the attack that
    /// follows it.
    pub fn next_turn(&self) -> (r: i64)
        ensures
            r == if self.stage == 1 {
                8i64
            } else {
                1i64
            },
    {
        if self.stage == 1 {
            8
        } else {
            1
        }
    }

    /// Attack on stage 0; otherwise charge: block, gain 1 power and announce
    /// it.
    pub fn choose_action(&mut self) -> (r: ActionCard)
        requires
            old(self).stage != 0 ==> fits_i64(old(self).power + 1),
        ensures
            old(self).stage == 0 ==> {
                &&& is_pummel_card(r, old(self).power)
                &&& *final(self) == (CopperSides { stage: 1, ..*old(self) })
            },
            old(self).stage != 0 ==> {
                &&& is_charging_card(r, old(self).defense)
                &&& *final(self) == (CopperSides {
                    stage: 0,
                    power: (old(self).power + 1) as i64,
                    set_message: Some(EnemyMessage::Charging),
                    ..*old(self)
                })
            },
    {
        // Enemy attacks on state 0, then defends and charges on state 1
        if self.stage == 0 {
            self.stage = 1;
            self.attack_card()
        } else {
            self.stage = 0;
            self.power = self.power + 1;
            self.set_message = Some(EnemyMessage::Charging);
            self.defend_card()
        }
    }

    /// Return a queued narrative message (if any) and clear it.
    pub fn message(&mut self) -> (r: Option<String>)
        ensures
            *final(self) == (CopperSides { set_message: None, ..*old(self) }),
            r is Some <==> old(self).set_message is Some,
            r matches Some(s) ==> s@ == old(self).set_message->0.text_spec(),
    {
        take_message(&mut self.set_message)
    }

    fn attack_card(&self) -> (r: ActionCard)
        ensures
            is_pummel_card(r, self.power),
    {
        ActionCard::create_card(String::from_str("Pummel!"), Target::AllHeros, ActionType::Attack(self.power))
    }

    fn defend_card(&self) -> (r: ActionCard)
        ensures
            is_charging_card(r, self.defense),
    {
        ActionCard::create_card(
            String::from_str("Charging!"),
            Target::CombatantSelf,
            ActionType::Block(self.defense),
        )
    }
}

} // verus!
