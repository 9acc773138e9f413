use rpg_server::enemys::EnemyMessage;
use rpg_server::models::game::combatant::action::attack::basic_attack;
use rpg_server::models::game::combatant::action::block::basic_block;
use rpg_server::models::game::combatant::action::heal::basic_heal;
use rpg_server::models::game::combatant::action::{no_action_card, ActionCard, ActionDeck, ActionType, Target};
use rpg_server::models::game::combatant::enemy::bomb::{explode_card, Bomb};
use rpg_server::models::game::combatant::enemy::copper_sides::CopperSides;
use rpg_server::models::game::combatant::hero::fighter::{attack_defensivly_card, get_fighter_deck};
use rpg_server::models::game::combatant::hero::{Hero, HeroClass};
use rpg_server::models::game::combatant::{Combatant, CombatantState, Health};
use rpg_server::models::game::combatant::enemy::rose_buddies::RoseBuddies;
use rpg_server::models::game::status::{Status, StatusEffect, StatusEffects};
use rpg_server::enemys::EnemyType;
use rpg_server::models::game::{EnemyState, Game, Health as Hp, PlayerState};
use rpg_server::models::Action;
use std::collections::HashMap;

fn rose_game(enemy_hp: i64, player_block: i64) -> Game {
    Game {
        id: "g".to_string(),
        complete: false,
        win: None,
        round: 0,
        turn: 0,
        player_state: PlayerState {
            player_id: "p".to_string(),
            character_id: "c".to_string(),
            next_turn: None,
            health: Hp { current: 50, max: 100 },
            block: player_block,
            damage_taken: 0,
            damage_healed: 0,
            damage_blocked: 0,
            damage_dodged: 0,
            damage_dealt: 0,
        },
        enemy_state: EnemyState {
            next_turn: None,
            state: 0,
            health: Hp { current: enemy_hp, max: 40 },
            block: 0,
            enemy_type: EnemyType::RoseBuddies,
        },
        enemies_defeated: HashMap::new(),
    }
}

fn combatant(current: i64, max: i64, block: i64) -> Combatant {
    Combatant {
        health: Health { current, max, block },
        state: CombatantState {
            damage_taken: 0,
            damage_healed: 0,
            damage_blocked: 0,
            damage_dodged: 0,
            damage_dealt: 0,
        },
        next_turn: None,
    }
}

#[test]
fn health_set_is_full_with_no_block() {
    assert_eq!(Health::set(70), Health { current: 70, max: 70, block: 0 });
}

#[test]
fn health_hurt_uses_block_first() {
    let mut h = Health { current: 30, max: 40, block: 10 };
    h.hurt(4);
    assert_eq!(h, Health { current: 30, max: 40, block: 6 });
    h.hurt(10);
    assert_eq!(h, Health { current: 26, max: 40, block: 0 });
    h.hurt(100);
    assert_eq!(h, Health { current: 0, max: 40, block: 0 });
}

#[test]
fn health_heal_caps_at_max() {
    let mut h = Health { current: 30, max: 40, block: 3 };
    h.heal(5);
    assert_eq!(h.current, 35);
    h.heal(50);
    assert_eq!(h, Health { current: 40, max: 40, block: 3 });
}

#[test]
fn health_defend_sets_block() {
    let mut h = Health { current: 30, max: 40, block: 3 };
    h.defend(12);
    assert_eq!(h, Health { current: 30, max: 40, block: 12 });
}

#[test]
fn basic_actions_on_health() {
    let mut h = Health { current: 20, max: 40, block: 0 };
    basic_block(&mut h, 5);
    assert_eq!(h.block, 5);
    basic_attack(&mut h, 8);
    assert_eq!(h, Health { current: 17, max: 40, block: 0 });
    basic_heal(&mut h, 30);
    assert_eq!(h.current, 40);
}

#[test]
fn complete_action_hits_every_target() {
    let mut targets = vec![combatant(30, 30, 0), combatant(10, 50, 15), combatant(5, 5, 0)];
    ActionType::Attack(20).complete_action(&mut targets);
    assert_eq!(targets[0].health.current, 10);
    assert_eq!(targets[1].health, Health { current: 5, max: 50, block: 0 });
    assert_eq!(targets[2].health.current, 0);
    ActionType::Block(6).complete_action(&mut targets);
    assert!(targets.iter().all(|c| c.health.block == 6));
    ActionType::Heal(7).complete_action(&mut targets);
    assert_eq!(targets[0].health.current, 17);
    assert_eq!(targets[2].health.current, 5);
    let before = targets.clone();
    ActionType::NoAction.complete_action(&mut targets);
    assert_eq!(targets, before);
}

#[test]
fn cards_hold_their_actions_in_order() {
    let mut card = ActionCard::create_card("Combo".to_string(), Target::AllEnemies, ActionType::Attack(3));
    card.add_action(Target::CombatantSelf, ActionType::Block(2));
    assert_eq!(card.title, "Combo");
    let actions = card.get_actions();
    assert_eq!(actions.len(), 2);
    assert!(matches!(actions[0].target, Target::AllEnemies));
    assert_eq!(actions[0].action_type, ActionType::Attack(3));
    assert!(matches!(actions[1].target, Target::CombatantSelf));
    assert_eq!(actions[1].action_type, ActionType::Block(2));
}

#[test]
fn no_action_card_does_nothing() {
    let c = no_action_card();
    assert_eq!(c.title, "No Action");
    assert_eq!(c.actions.len(), 1);
    assert_eq!(c.actions[0].action_type, ActionType::NoAction);
}

#[test]
fn new_deck_has_empty_piles() {
    let d = ActionDeck::new(vec![no_action_card()]);
    assert_eq!(d.total_deck.len(), 1);
    assert!(d.in_hand.is_empty() && d.draw_pile.is_empty() && d.discarded.is_empty() && d.destroyed.is_empty());
}

#[test]
fn fighter_deck_layout() {
    let d = get_fighter_deck();
    let titles: Vec<&str> = d.total_deck.iter().map(|c| c.title.as_str()).collect();
    assert_eq!(
        titles,
        vec![
            "Slice and Dice!",
            "Slice and Dice!",
            "Slice and Dice!",
            "Slice and Dice!",
            "The Long Slice!",
            "The Long Slice!",
            "Hold The Line!",
            "Hold The Line!",
            "Hold The Line!",
            "Hold The Line!",
            "Stay Strong!",
            "Stay Strong!",
        ]
    );
    assert_eq!(d.total_deck[0].actions[0].action_type, ActionType::Attack(8));
    assert_eq!(d.total_deck[4].actions[0].action_type, ActionType::Attack(6));
    assert_eq!(d.total_deck[6].actions[0].action_type, ActionType::Block(12));
    assert_eq!(d.total_deck[11].actions[0].action_type, ActionType::Heal(8));
    let h = Hero::new(HeroClass::Fighter);
    assert_eq!(h.class, HeroClass::Fighter);
    assert_eq!(h.deck.total_deck.len(), 12);
}

#[test]
fn attack_defensively_attacks_then_blocks() {
    let c = attack_defensivly_card();
    assert_eq!(c.title, "Attack Defensivly!");
    assert_eq!(c.actions.len(), 2);
    assert_eq!(c.actions[0].action_type, ActionType::Attack(6));
    assert_eq!(c.actions[1].action_type, ActionType::Block(6));
}

#[test]
fn card_bomb_counts_down_once_and_self_destructs() {
    let mut b = Bomb::new("bomb-1".to_string());
    assert_eq!(b.next_turn(), 20);
    assert_eq!(b.message(), Some("T-20 turns!".to_string()));
    assert_eq!(b.next_turn(), 20);
    assert_eq!(b.message(), None);
    let mut hp = Health::set(1);
    let card = b.choose_action(&mut hp);
    assert_eq!(card.title, "Explosion!");
    assert_eq!(card.actions.len(), 1);
    assert!(matches!(card.actions[0].target, Target::AllCombatants));
    assert_eq!(card.actions[0].action_type, ActionType::Attack(5));
    assert_eq!(hp, Health { current: 0, max: 1, block: 0 });
    assert_eq!(b.set_message, Some(EnemyMessage::Kaboom));
    assert_eq!(b.message(), Some("KABOOM!".to_string()));
    // the explosion a struck bomb sets off hits everyone for 20
    let boom = explode_card();
    assert_eq!(boom.title, "Explosion!");
    assert!(matches!(boom.actions[0].target, Target::AllCombatants));
    assert_eq!(boom.actions[0].action_type, ActionType::Attack(20));
}

#[test]
fn card_bomb_registers_its_explosion() {
    let mut effects = StatusEffects::new();
    effects.add_before_turn(Target::AllHeros, StatusEffect::TriggerExplosion);
    Bomb::new("bomb-7".to_string()).set_up(&mut effects);
    assert_eq!(effects.before_turn.len(), 1);
    assert_eq!(effects.after_turn.len(), 1);
    match &effects.after_turn[0].target {
        Target::Enemy(Some(r)) => assert_eq!(r, "bomb-7"),
        other => panic!("unexpected target {other:?}"),
    }
    assert_eq!(effects.after_turn[0].apply, StatusEffect::TriggerExplosion);
    let s = Status::new(Target::AllEnemies, StatusEffect::TriggerExplosion);
    assert!(matches!(s.target, Target::AllEnemies));
}

#[test]
fn card_copper_sides_charges_then_pummels() {
    let mut c = CopperSides::new();
    assert_eq!((c.stage, c.power, c.defense), (1, 5, 15));
    assert_eq!(c.next_turn(), 8);
    let charge = c.choose_action();
    assert_eq!(charge.title, "Charging!");
    assert_eq!(charge.actions[0].action_type, ActionType::Block(15));
    assert_eq!(c.power, 6);
    assert_eq!(c.message(), Some("CHARGING!".to_string()));
    assert_eq!(c.next_turn(), 1);
    let pummel = c.choose_action();
    assert_eq!(pummel.title, "Pummel!");
    assert!(matches!(pummel.actions[0].target, Target::AllHeros));
    assert_eq!(pummel.actions[0].action_type, ActionType::Attack(6));
    assert_eq!(c.message(), None);
    assert_eq!(c.stage, 1);
    // the next charge adds one more
    c.choose_action();
    assert_eq!(c.power, 7);
}

#[test]
fn card_rose_buddies_cycle_and_speed() {
    let mut r = RoseBuddies::new();
    assert_eq!((r.power, r.defense, r.speed), (4, 2, 5));
    let mut g = rose_game(40, 0);
    assert_eq!(r.next_turn(&mut g), 5);
    let mut low = rose_game(19, 0);
    assert_eq!(r.next_turn(&mut low), 3);
    assert_eq!(r.choose_action(&mut g), Action::Attack(4));
    assert_eq!(r.choose_action(&mut g), Action::Attack(4));
    assert_eq!(g.enemy_state.state, 2);
    assert_eq!(r.choose_action(&mut g), Action::Heal(2));
    assert_eq!(g.enemy_state.state, 0);
}

#[test]
fn card_rose_buddies_thorns() {
    let mut r = RoseBuddies::new();
    let mut g = rose_game(40, 0);
    r.after_players_turn(&mut g, &Action::Defend(3));
    assert_eq!(g.player_state.health.current, 50);
    assert_eq!(r.message(), None);
    r.after_players_turn(&mut g, &Action::Attack(3));
    assert_eq!(g.player_state.health.current, 49);
    assert_eq!(g.player_state.damage_taken, 1);
    assert_eq!(r.message(), Some("Thorns!".to_string()));
    assert_eq!(r.message(), None);
    // a block absorbs the thorns
    let mut g = rose_game(40, 5);
    r.after_players_turn(&mut g, &Action::Attack(1));
    assert_eq!(g.player_state.health.current, 50);
    assert_eq!(g.player_state.block, 4);
}
