use std::collections::HashMap;

use rpg_server::enemys::bomb::BombEnemy;
use rpg_server::enemys::copper_sides::CopperSidesEnemy;
use rpg_server::enemys::dummy::DummyEnemy;
use rpg_server::enemys::iron_lotus::IronLotusEnemy;
use rpg_server::enemys::maestro::MaestroEnemy;
use rpg_server::enemys::rose_buddies::RoseBuddiesEnemy;
use rpg_server::enemys::{get_enemy_by_type, get_random_enemy, AnyEnemy, Enemy, EnemyMessage, EnemyType};
use rpg_server::models::game::{EnemyState, Game, Health, PlayerState};
use rpg_server::models::Action;

fn game_with(enemy_state: EnemyState) -> Game {
    Game {
        id: "g1".to_string(),
        complete: false,
        win: None,
        round: 0,
        turn: 0,
        player_state: PlayerState {
            player_id: "p1".to_string(),
            character_id: "c1".to_string(),
            next_turn: None,
            health: Health { current: 100, max: 100 },
            block: 0,
            damage_taken: 0,
            damage_healed: 0,
            damage_blocked: 0,
            damage_dodged: 0,
            damage_dealt: 0,
        },
        enemy_state,
        enemies_defeated: HashMap::new(),
    }
}

#[test]
fn new_states_match_the_enemy_table() {
    let s = DummyEnemy::new().get_new_state();
    assert_eq!((s.health, s.state, s.block, s.enemy_type), (Health { current: 100, max: 100 }, 0, 0, EnemyType::Dummy));
    let s = RoseBuddiesEnemy::new().get_new_state();
    assert_eq!((s.health.max, s.enemy_type), (40, EnemyType::RoseBuddies));
    let s = CopperSidesEnemy::new().get_new_state();
    assert_eq!((s.health.max, s.state, s.block, s.enemy_type), (50, 2, 20, EnemyType::CopperSides));
    let s = MaestroEnemy::new().get_new_state();
    assert_eq!((s.health.max, s.enemy_type), (30, EnemyType::Maestro));
    let s = IronLotusEnemy::new().get_new_state();
    assert_eq!((s.health.max, s.state, s.enemy_type), (40, 1, EnemyType::IronLotus));
    let s = BombEnemy::new().get_new_state();
    assert_eq!((s.health, s.enemy_type), (Health { current: 1, max: 1 }, EnemyType::Bomb));
    assert_eq!(s.next_turn, None);
}

#[test]
fn dummy_never_acts() {
    let mut d = DummyEnemy::new();
    let mut g = game_with(d.get_new_state());
    assert_eq!(d.next_turn(&mut g), 100);
    assert_eq!(d.choose_action(&mut g), Action::NoAction);
    d.after_players_turn(&mut g, &Action::Attack(3));
    assert_eq!(g.player_state.health.current, 100);
    assert_eq!(d.message(), None);
}

#[test]
fn rose_buddies_attack_twice_then_heal() {
    let mut r = RoseBuddiesEnemy::new();
    let mut g = game_with(r.get_new_state());
    assert_eq!(r.choose_action(&mut g), Action::Attack(4));
    assert_eq!(r.choose_action(&mut g), Action::Attack(4));
    assert_eq!(r.choose_action(&mut g), Action::Heal(2));
    assert_eq!(g.enemy_state.state, 0);
    assert_eq!(r.choose_action(&mut g), Action::Attack(4));
}

#[test]
fn rose_buddies_speed_up_below_twenty_hp() {
    let mut r = RoseBuddiesEnemy::new();
    let mut g = game_with(r.get_new_state());
    assert_eq!(r.next_turn(&mut g), 5);
    g.enemy_state.health.current = 19;
    assert_eq!(r.next_turn(&mut g), 3);
}

#[test]
fn rose_buddies_thorns_hurt_an_attacking_player() {
    let mut r = RoseBuddiesEnemy::new();
    let mut g = game_with(r.get_new_state());
    r.after_players_turn(&mut g, &Action::Defend(2));
    assert_eq!(r.message(), None);
    r.after_players_turn(&mut g, &Action::Attack(2));
    assert_eq!(g.player_state.health.current, 99);
    assert_eq!(g.player_state.damage_taken, 1);
    assert_eq!(r.message(), Some("Thorns!".to_string()));
    assert_eq!(r.message(), None);
}

#[test]
fn copper_sides_scale_with_round_and_charge() {
    let mut c = CopperSidesEnemy::new();
    let mut g = game_with(c.get_new_state());
    g.round = 3;
    g.turn = 7;
    assert_eq!(c.next_turn(&mut g), 8);
    assert_eq!(g.enemy_state.state, 0);
    assert_eq!(c.power, 4);
    // second call does not scale again
    assert_eq!(c.next_turn(&mut g), 8);
    assert_eq!(c.power, 4);
    assert_eq!(c.choose_action(&mut g), Action::Attack(4));
    assert_eq!(g.enemy_state.next_turn, Some(8));
    assert_eq!(c.choose_action(&mut g), Action::Defend(6));
    assert_eq!(c.message(), Some("CHARGING!".to_string()));
    assert_eq!(c.choose_action(&mut g), Action::Attack(5));
}

#[test]
fn maestro_shoots_six_then_reloads() {
    let mut m = MaestroEnemy::new();
    let mut g = game_with(m.get_new_state());
    let mut actions = Vec::new();
    let mut messages = Vec::new();
    for _ in 0..8 {
        actions.push(m.choose_action(&mut g));
        messages.push(m.message().unwrap());
    }
    assert_eq!(
        actions,
        vec![
            Action::Attack(3),
            Action::Attack(4),
            Action::Attack(5),
            Action::Attack(6),
            Action::Attack(7),
            Action::Attack(16),
            Action::Defend(-5),
            Action::Attack(3),
        ]
    );
    assert_eq!(messages[0], "5 Rounds Left!");
    assert_eq!(messages[4], "1 Rounds Left!");
    assert_eq!(messages[5], "This one's bound finish the fight!");
    assert_eq!(messages[6], "Reload!");
}

#[test]
fn maestro_speeds_up_as_hp_drops() {
    let mut m = MaestroEnemy::new();
    let mut g = game_with(m.get_new_state());
    assert_eq!(m.next_turn(&mut g), 6);
    g.enemy_state.health.current = 19;
    assert_eq!(m.next_turn(&mut g), 4);
    g.enemy_state.health.current = 9;
    assert_eq!(m.next_turn(&mut g), 2);
}

#[test]
fn iron_lotus_burn_grows_and_burns_the_player() {
    let mut l = IronLotusEnemy::new();
    let mut g = game_with(l.get_new_state());
    assert_eq!(l.next_turn(&mut g), 6);
    assert_eq!(l.choose_action(&mut g), Action::Attack(4));
    assert_eq!(l.burn, 1);
    l.after_players_turn(&mut g, &Action::Attack(1));
    assert_eq!(g.player_state.health.current, 99);
    // below half health the burn grows by two
    g.enemy_state.health.current = 19;
    l.choose_action(&mut g);
    assert_eq!(l.burn, 3);
    // healing grows the burn by three
    l.after_players_turn(&mut g, &Action::Heal(1));
    assert_eq!(g.player_state.health.current, 96);
    assert_eq!(l.burn, 6);
    assert_eq!(l.message(), Some("Do you also wish for the flames to grow?".to_string()));
}

#[test]
fn iron_lotus_heals_once_when_below_its_burn() {
    let mut l = IronLotusEnemy::new();
    let mut g = game_with(l.get_new_state());
    l.burn = 8;
    g.enemy_state.health.current = 5;
    g.player_state.health.current = 50;
    assert_eq!(l.choose_action(&mut g), Action::Heal(8));
    assert_eq!(g.player_state.health.current, 58);
    assert_eq!(g.enemy_state.state, 0);
    assert_eq!(l.message(), Some("May you overcome the searing flames!".to_string()));
    // only once
    assert_eq!(l.choose_action(&mut g), Action::Attack(4));
}

#[test]
fn iron_lotus_keeps_player_hp_in_range() {
    let mut l = IronLotusEnemy::new();
    let mut g = game_with(l.get_new_state());
    l.burn = 30;
    g.player_state.health.current = 10;
    l.after_players_turn(&mut g, &Action::Attack(1));
    assert_eq!(g.player_state.health.current, 0);
    let mut l = IronLotusEnemy::new();
    let mut g = game_with(l.get_new_state());
    l.burn = 30;
    g.enemy_state.health.current = 3;
    g.player_state.health.current = 90;
    l.choose_action(&mut g);
    assert_eq!(g.player_state.health.current, 100);
}

#[test]
fn bomb_counts_down_and_detonates() {
    let mut b = BombEnemy::new();
    let mut g = game_with(b.get_new_state());
    assert_eq!(b.next_turn(&mut g), 20);
    assert_eq!(b.message(), Some("T-20 turns!".to_string()));
    assert_eq!(b.choose_action(&mut g), Action::Attack(5));
    assert_eq!(g.enemy_state.health.current, 0);
    assert_eq!(b.message(), Some("KABOOM!".to_string()));
}

#[test]
fn bomb_explodes_on_an_attacking_player() {
    let mut b = BombEnemy::new();
    let mut g = game_with(b.get_new_state());
    b.after_players_turn(&mut g, &Action::Heal(3));
    assert_eq!(g.player_state.health.current, 100);
    b.after_players_turn(&mut g, &Action::Attack(3));
    assert_eq!(g.player_state.health.current, 80);
    assert_eq!(b.message(), Some("KABOOM!".to_string()));
}

#[test]
fn enemy_by_type_and_unknown_is_dummy() {
    assert!(matches!(get_enemy_by_type(EnemyType::Unknown), AnyEnemy::Dummy(_)));
    assert!(matches!(get_enemy_by_type(EnemyType::Dummy), AnyEnemy::Dummy(_)));
    assert!(matches!(get_enemy_by_type(EnemyType::Maestro), AnyEnemy::Maestro(_)));
    assert!(matches!(get_enemy_by_type(EnemyType::IronLotus), AnyEnemy::IronLotus(_)));
    assert!(matches!(get_enemy_by_type(EnemyType::RoseBuddies), AnyEnemy::RoseBuddies(_)));
    assert!(matches!(get_enemy_by_type(EnemyType::CopperSides), AnyEnemy::CopperSides(_)));
    assert!(matches!(get_enemy_by_type(EnemyType::Bomb), AnyEnemy::Bomb(_)));
}

#[test]
fn random_enemy_is_never_the_dummy() {
    let mut seen = std::collections::HashSet::new();
    for _ in 0..300 {
        let mut e = get_random_enemy();
        let t = e.get_new_state().enemy_type;
        assert!(t != EnemyType::Dummy && t != EnemyType::Unknown);
        seen.insert(t.code());
    }
    assert_eq!(seen.len(), 5);
}

#[test]
fn enemy_type_codes_round_trip() {
    for t in [
        EnemyType::Dummy,
        EnemyType::RoseBuddies,
        EnemyType::CopperSides,
        EnemyType::Maestro,
        EnemyType::IronLotus,
        EnemyType::Bomb,
        EnemyType::Unknown,
    ] {
        assert_eq!(EnemyType::from_code(t.code()), t);
    }
    assert_eq!(EnemyType::from_code(99), EnemyType::Unknown);
}

#[test]
fn message_texts() {
    assert_eq!(EnemyMessage::RoundsLeft(12).text(), "12 Rounds Left!");
    assert_eq!(EnemyMessage::RoundsLeft(0).text(), "0 Rounds Left!");
    assert_eq!(EnemyMessage::Countdown.text(), "T-20 turns!");
    assert_eq!(EnemyMessage::Charging.text(), "CHARGING!");
}
