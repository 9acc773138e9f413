//! The fighter's deck.
use vstd::prelude::*;
use vstd::string::StringExecFns;

use crate::models::game::combatant::action::{
    is_single_card, ActionCard, ActionDeck, ActionType, Target,
};

verus! {

/// The fighter's single-enemy attack card.
pub open spec fn is_base_attack_card(c: ActionCard) -> bool {
    is_single_card(c, "Slice and Dice!"@, Target::Enemy(None), ActionType::Attack(8))
}

/// The fighter's attack card that hits every enemy.
pub open spec fn is_multi_attack_card(c: ActionCard) -> bool {
    is_single_card(c, "The Long Slice!"@, Target::AllEnemies, ActionType::Attack(6))
}

/// The fighter's defence card that blocks for every hero.
pub open spec fn is_multi_defend_card(c: ActionCard) -> bool {
    is_single_card(c, "Hold The Line!"@, Target::AllHeros, ActionType::Block(12))
}

/// The fighter's card that heals the fighter.
pub open spec fn is_base_heal_card(c: ActionCard) -> bool {
    is_single_card(c, "Stay Strong!"@, Target::CombatantSelf, ActionType::Heal(8))
}

/// The fighter's starting deck: four single attacks, two attacks on all
/// enemies, four defences for all heroes and two heals, in that order, with
/// every pile empty.
pub open spec fn is_fighter_deck(d: ActionDeck) -> bool {
    let cards = d.total_deck@;
    &&& cards.len() == 12
    &&& forall|i: int| 0 <= i < 4 ==> is_base_attack_card(#[trigger] cards[i])
    &&& forall|i: int| 4 <= i < 6 ==> is_multi_attack_card(#[trigger] cards[i])
    &&& forall|i: int| 6 <= i < 10 ==> is_multi_defend_card(#[trigger] cards[i])
    &&& forall|i: int| 10 <= i < 12 ==> is_base_heal_card(#[trigger] cards[i])
    &&& d.in_hand@.len() == 0
    &&& d.draw_pile@.len() == 0
    &&& d.discarded@.len() == 0
    &&& d.destroyed@.len() == 0
}

/// The fighter's starting deck.
pub fn get_fighter_deck() -> (r: ActionDeck)
    ensures
        is_fighter_deck(r),
{
    let mut total_deck: Vec<ActionCard> = Vec::new();
    total_deck.push(base_attack_card());
    total_deck.push(base_attack_card());
    total_deck.push(base_attack_card());
    total_deck.push(base_attack_card());
    total_deck.push(multi_attack_card());
    total_deck.push(multi_attack_card());
    total_deck.push(multi_defend_card());
    total_deck.push(multi_defend_card());
    total_deck.push(multi_defend_card());
    total_deck.push(multi_defend_card());
    total_deck.push(base_heal_card());
    total_deck.push(base_heal_card());
    ActionDeck::new(total_deck)
}

fn base_attack_card() -> (r: ActionCard)
    ensures
        is_base_attack_card(r),
{
    ActionCard::create_card(
        String::from_str("Slice and Dice!"),
        Target::Enemy(None),
        ActionType::Attack(8),
    )
}

fn multi_attack_card() -> (r: ActionCard)
    ensures
        is_multi_attack_card(r),
{
    ActionCard::create_card(
        String::from_str("The Long Slice!"),
        Target::AllEnemies,
        ActionType::Attack(6),
    )
}

fn multi_defend_card() -> (r: ActionCard)
    ensures
        is_multi_defend_card(r),
{
    ActionCard::create_card(
        String::from_str("Hold The Line!"),
        Target::AllHeros,
        ActionType::Block(12),
    )
}

fn base_heal_card() -> (r: ActionCard)
    ensures
        is_base_heal_card(r),
{
    ActionCard::create_card(
        String::from_str("Stay Strong!"),
        Target::CombatantSelf,
        ActionType::Heal(8),
    )
}

/// A card that attacks one enemy and blocks for the fighter.
pub fn attack_defensivly_card() -> (r: ActionCard)
    ensures
        r.title@ == "Attack Defensivly!"@,
        r.actions@ == seq![
            crate::models::game::combatant::action::Action {
                target: Target::Enemy(None),
                action_type: ActionType::Attack(6),
            },
            crate::models::game::combatant::action::Action {
                target: Target::CombatantSelf,
                action_type: ActionType::Block(6),
            },
        ],
{
    let mut card = ActionCard::create_card(
        String::from_str("Attack Defensivly!"),
        Target::Enemy(None),
        ActionType::Attack(6),
    );
    card.add_action(Target::CombatantSelf, ActionType::Block(6));
    card
}

} // verus!
