//! Heroes of the card-based combat model: a class and the deck it plays.
use vstd::prelude::*;

use crate::models::game::combatant::action::ActionDeck;

pub mod fighter;

verus! {

/// A hero: its class and its deck.
#[derive(Debug, Clone)]
pub struct Hero {
    pub class: HeroClass,
    pub deck: ActionDeck,
}

/// The classes a hero can have.
#[derive(Debug, Clone, Copy, PartialEq, Eq, Structural)]
pub enum HeroClass {
    Fighter,
}

impl Hero {
    /// A hero of the given class, with the class's base deck.
    pub fn new(class: HeroClass) -> (r: Self)
        ensures
            r.class == class,
            fighter::is_fighter_deck(r.deck),
    {
        Hero { class, deck: class.create_base_deck() }
    }
}

impl HeroClass {
    /// The deck a hero of this class starts with.
    pub fn create_base_deck(self) -> (r: ActionDeck)
        ensures
            fighter::is_fighter_deck(r),
    {
        match self {
            Self::Fighter => fighter::get_fighter_deck(),
        }
    }
}

} // verus!
