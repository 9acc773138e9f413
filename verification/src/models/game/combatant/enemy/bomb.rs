//! Bomb enemy of the card-based model — a countdown detonator.
//!
//! The bomb has only 1 HP and counts down 20 turns before detonating. When it
//! detonates naturally (its turn comes) it attacks for a base power of 5 and
//! sets its own HP to 0. When registered on a game it adds a status effect
//! that explodes the bomb once its HP reaches 0, hitting every combatant for
//! 20 with its explosion card.
use vstd::prelude::*;
use vstd::string::StringExecFns;

use crate::{
    enemys::{take_message, EnemyMessage},
    models::game::{
        combatant::{
            action::{is_single_card, ActionCard, ActionType, Target},
            Health,
        },
        status::{Status, StatusEffect, StatusEffects},
    },
};

verus! {

/// A fragile enemy that detonates after 20 turns or when struck.
#[derive(Debug)]
pub struct Bomb {
    /// The key under which the game holds this bomb.
    pub reference: String,
    /// 0 before the countdown started, 1 after.
    pub stage: i64,
    /// The message queued for announcement.
    pub set_message: Option<EnemyMessage>,
}

/// The bomb's explosion: an attack of 20 on every combatant.
pub open spec fn is_explode_card(c: ActionCard) -> bool {
    is_single_card(c, "Explosion!"@, Target::AllCombatants, ActionType::Attack(20))
}

/// The bomb's self-destruct: its explosion card with the base power of 5.
pub open spec fn is_self_destruct_card(c: ActionCard) -> bool {
    is_single_card(c, "Explosion!"@, Target::AllCombatants, ActionType::Attack(5))
}

impl Bomb {
    /// Create a new bomb held under `reference`.
    pub fn new(reference: String) -> (r: Self)
        ensures
            r.reference == reference,
            r.stage == 0,
            r.set_message is None,
    {
        Bomb { reference, stage: 0, set_message: None }
    }

    /// The turn interval, always 20; the first call starts the countdown and
    /// announces it.
    pub fn next_turn(&mut self) -> (r: i64)
        ensures
            r == 20,
            final(self).reference == old(self).reference,
            final(self).stage == 1,
            final(self).set_message == if old(self).stage == 0 {
                Some(EnemyMessage::Countdown)
            } else {
                old(self).set_message
            },
    {
        if self.stage == 0 {
            self.set_message = Some(EnemyMessage::Countdown);
        }
        self.stage = 1;
        20
    }

    /// Register the bomb's explosion on the game's after-turn effects.
    pub fn set_up(self, status_effects: &mut StatusEffects)
        ensures
            final(status_effects).after_turn@ == old(status_effects).after_turn@.push(
                Status { target: Target::Enemy(Some(self.reference)), apply: StatusEffect::TriggerExplosion },
            ),
            final(status_effects).before_turn@ == old(status_effects).before_turn@,
    {
        status_effects.add_after_turn(
            Target::Enemy(Some(self.reference)),
            StatusEffect::TriggerExplosion,
        );
    }

    /// The bomb self-destructs when its turn arrives: it attacks with power 5,
    /// its own HP (`health`, as the game holds it) drops to 0, and "KABOOM!"
    /// is queued.
    pub fn choose_action(&mut self, health: &mut Health) -> (r: ActionCard)
        ensures
            is_self_destruct_card(r),
            *final(health) == (Health { current: 0, ..*old(health) }),
            final(self).set_message == Some(EnemyMessage::Kaboom),
            final(self).reference == old(self).reference,
            final(self).stage == old(self).stage,
    {
        // Bomb self-destructs when its turn arrives
        health.current = 0;
        self.set_message = Some(EnemyMessage::Kaboom);
        ActionCard::create_card(
            String::from_str("Explosion!"),
            Target::AllCombatants,
            ActionType::Attack(5),
        )
    }

    /// Return a queued narrative message (if any) and clear it.
    pub fn message(&mut self) -> (r: Option<String>)
        ensures
            final(self).set_message is None,
            final(self).reference == old(self).reference,
            final(self).stage == old(self).stage,
            r is Some <==> old(self).set_message is Some,
            r matches Some(s) ==> s@ == old(self).set_message->0.text_spec(),
    {
        take_message(&mut self.set_message)
    }
}

/// The bomb's explosion card.
pub fn explode_card() -> (r: ActionCard)
    ensures
        is_explode_card(r),
{
    ActionCard::create_card(
        String::from_str("Explosion!"),
        Target::AllCombatants,
        ActionType::Attack(20),
    )
}

} // verus!
