//! Action cards of the card-based combat model.
//!
//! An [`ActionCard`] bundles one or more [`Action`]s, each an
//! [`ActionType`] aimed at a [`Target`]; an [`ActionDeck`] holds a
//! combatant's cards and the piles they move between.
use vstd::prelude::*;
use vstd::string::StringExecFns;

use crate::models::game::combatant::{Combatant, Health};

pub mod attack;
pub mod block;
pub mod heal;

verus! {

/// A combatant's cards: the whole deck and the piles the cards move between.
#[derive(Debug, Clone)]
pub struct ActionDeck {
    pub total_deck: Vec<ActionCard>,
    pub in_hand: Vec<ActionCard>,
    pub draw_pile: Vec<ActionCard>,
    pub discarded: Vec<ActionCard>,
    pub destroyed: Vec<ActionCard>,
}

/// A card: a title and the actions playing it performs.
#[derive(Debug)]
pub struct ActionCard {
    pub title: String,
    pub actions: Vec<Action>,
}

/// One action of a card: what it does, and to whom.
#[derive(Debug)]
pub struct Action {
    pub target: Target,
    pub action_type: ActionType,
}

impl Clone for Action {
    fn clone(&self) -> (r: Self)
        ensures
            r == *self,
    {
        Action { target: self.target.clone(), action_type: self.action_type }
    }
}

/// Whom an action is aimed at.
#[derive(Debug)]
pub enum Target {
    CombatantSelf,
    Hero(Option<String>),
    Enemy(Option<String>),
    AllEnemies,
    AllHeros,
    AllCombatants,
}

impl Clone for Target {
    fn clone(&self) -> (r: Self)
        ensures
            r == *self,
    {
        match self {
            Target::CombatantSelf => Target::CombatantSelf,
            Target::Hero(r) => Target::Hero(
                match r {
                    Some(s) => Some(s.clone()),
                    None => None,
                },
            ),
            Target::Enemy(r) => Target::Enemy(
                match r {
                    Some(s) => Some(s.clone()),
                    None => None,
                },
            ),
            Target::AllEnemies => Target::AllEnemies,
            Target::AllHeros => Target::AllHeros,
            Target::AllCombatants => Target::AllCombatants,
        }
    }
}

/// What an action does, with its amount.
#[derive(Debug, Clone, Copy, PartialEq, Eq, Structural)]
pub enum ActionType {
    NoAction,
    Block(i64),
    Attack(i64),
    Heal(i64),
}

impl ActionType {
    /// A target's health after this action.
    pub open spec fn applied_to(self, h: Health) -> Option<Health> {
        match self {
            ActionType::Block(def) => Some(Health { block: def, ..h }),
            ActionType::Attack(atk) => h.hurt_result(atk),
            ActionType::Heal(heal) => h.heal_result(heal),
            ActionType::NoAction => Some(h),
        }
    }

    /// Perform this action on every target: a block sets the target's block,
    /// an attack hurts it, a heal heals it.
    pub fn complete_action(&self, targets: &mut Vec<Combatant>)
        requires
            forall|i: int|
                0 <= i < old(targets)@.len() ==> self.applied_to(#[trigger] old(targets)@[i].health)
                    is Some,
        ensures
            final(targets)@.len() == old(targets)@.len(),
            forall|i: int|
                0 <= i < old(targets)@.len() ==> #[trigger] final(targets)@[i] == (Combatant {
                    health: self.applied_to(old(targets)@[i].health)->0,
                    ..old(targets)@[i]
                }),
    {
        let mut i: usize = 0;
        while i < targets.len()
            invariant
                0 <= i <= targets@.len(),
                targets@.len() == old(targets)@.len(),
                forall|j: int|
                    i <= j < targets@.len() ==> #[trigger] targets@[j] == old(targets)@[j],
                forall|j: int|
                    0 <= j < old(targets)@.len() ==> self.applied_to(
                        #[trigger] old(targets)@[j].health,
                    ) is Some,
                forall|j: int|
                    0 <= j < i ==> #[trigger] targets@[j] == (Combatant {
                        health: self.applied_to(old(targets)@[j].health)->0,
                        ..old(targets)@[j]
                    }),
            decreases targets.len() - i,
        {
            let mut target = targets[i];
            match self {
                ActionType::Block(def) => {
                    block::basic_block(&mut target.health, *def);
                },
                ActionType::Attack(atk) => {
                    attack::basic_attack(&mut target.health, *atk);
                },
                ActionType::Heal(heal) => {
                    heal::basic_heal(&mut target.health, *heal);
                },
                ActionType::NoAction => {},
            }
            targets.set(i, target);
            i = i + 1;
        }
    }
}

/// `c` is titled `title` and performs exactly one action, `action_type`
/// aimed at `target`.
pub open spec fn is_single_card(c: ActionCard, title: Seq<char>, target: Target, action_type: ActionType) -> bool {
    &&& c.title@ == title
    &&& c.actions@ == seq![Action { target, action_type }]
}

impl Clone for ActionCard {
    fn clone(&self) -> (r: Self)
        ensures
            r.title == self.title,
            r.actions@ == self.actions@,
    {
        let mut actions: Vec<Action> = Vec::new();
        let mut i: usize = 0;
        while i < self.actions.len()
            invariant
                0 <= i <= self.actions@.len(),
                actions@ == self.actions@.take(i as int),
            decreases self.actions.len() - i,
        {
            actions.push(self.actions[i].clone());
            proof {
                assert(self.actions@.take(i + 1) =~= self.actions@.take(i as int).push(
                    self.actions@[i as int],
                ));
            }
            i = i + 1;
        }
        proof {
            assert(self.actions@.take(self.actions@.len() as int) =~= self.actions@);
        }
        ActionCard { title: self.title.clone(), actions }
    }
}

impl ActionCard {
    /// A card titled `title` with one action.
    pub fn create_card(title: String, target: Target, action_type: ActionType) -> (r: Self)
        ensures
            r.title == title,
            r.actions@ == seq![Action { target, action_type }],
    {
        let mut actions: Vec<Action> = Vec::new();
        actions.push(Action { target, action_type });
        ActionCard { title, actions }
    }

    /// Add one more action to the card.
    pub fn add_action(&mut self, target: Target, action_type: ActionType)
        ensures
            final(self).title == old(self).title,
            final(self).actions@ == old(self).actions@.push(Action { target, action_type }),
    {
        self.actions.push(Action { target, action_type });
    }

    /// The card's actions, in order.
    pub fn get_actions(self) -> (r: Vec<Action>)
        ensures
            r@ == self.actions@,
    {
        self.actions
    }
}

impl ActionDeck {
    /// A deck of the given cards, with every pile empty.
    pub fn new(total_deck: Vec<ActionCard>) -> (r: Self)
        ensures
            r.total_deck == total_deck,
            r.in_hand@.len() == 0,
            r.draw_pile@.len() == 0,
            r.discarded@.len() == 0,
            r.destroyed@.len() == 0,
    {
        ActionDeck {
            total_deck,
            in_hand: Vec::new(),
            draw_pile: Vec::new(),
            discarded: Vec::new(),
            destroyed: Vec::new(),
        }
    }
}

/// The card that does nothing.
pub fn no_action_card() -> (r: ActionCard)
    ensures
        is_single_card(r, "No Action"@, Target::CombatantSelf, ActionType::NoAction),
{
    ActionCard::create_card(String::from_str("No Action"), Target::CombatantSelf, ActionType::NoAction)
}

} // verus!
