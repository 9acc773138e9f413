use std::collections::HashMap;

use rpg_server::enemys::bomb::BombEnemy;
use rpg_server::enemys::dummy::DummyEnemy;
use rpg_server::enemys::{AnyEnemy, Enemy, EnemyType};
use rpg_server::game::runner::{Engine, TurnError, TurnStart};
use rpg_server::models::character::{Character, Stats};
use rpg_server::models::game::{EnemyState, GameEvent, Game, Health, PlayerState};
use rpg_server::models::Action;

fn character(speed: i64) -> Character {
    Character {
        id: "c1".to_string(),
        owner: "p1".to_string(),
        name: "Hero".to_string(),
        stats: Stats { power: 10, speed, defense: 5 },
        games: Vec::new(),
    }
}

fn game_against(enemy_state: EnemyState, player_hp: i64) -> Game {
    Game {
        id: "g1".to_string(),
        complete: false,
        win: None,
        round: 0,
        turn: 0,
        player_state: PlayerState {
            player_id: "p1".to_string(),
            character_id: "c1".to_string(),
            next_turn: None,
            health: Health { current: player_hp, max: 100 },
            block: 0,
            damage_taken: 0,
            damage_healed: 0,
            damage_blocked: 0,
            damage_dodged: 0,
            damage_dealt: 0,
        },
        enemy_state,
        enemies_defeated: HashMap::new(),
    }
}

fn dummy_game() -> Game {
    game_against(DummyEnemy::new().get_new_state(), 100)
}

fn bomb_game(player_hp: i64) -> Game {
    game_against(BombEnemy::new().get_new_state(), player_hp)
}

fn is_fighting(t: EnemyType) -> bool {
    !matches!(t, EnemyType::Dummy | EnemyType::Unknown)
}

#[test]
fn engine_new_resolves_enemy_from_game() {
    let e = Engine::new(character(10), bomb_game(100));
    assert!(matches!(e.enemy, AnyEnemy::Bomb(_)));
    assert_eq!(e.seq, 0);
    let e = Engine::new(character(10), dummy_game());
    assert!(matches!(e.enemy, AnyEnemy::Dummy(_)));
}

#[test]
fn start_turn_on_complete_game_reports_completion() {
    let mut g = dummy_game();
    g.complete = true;
    let mut e = Engine::new(character(10), g);
    assert_eq!(e.start_turn(), Ok(TurnStart::GameComplete));
    assert_eq!(e.game_state.turn, 0);
    assert_eq!(e.game_state.player_state.next_turn, None);
}

#[test]
fn start_turn_schedules_player_by_speed() {
    // speed 10: the player acts every (19 - 10) / 3 = 3 turns; the dummy every 100
    let mut e = Engine::new(character(10), dummy_game());
    assert_eq!(e.start_turn(), Ok(TurnStart::PlayersTurn));
    assert_eq!(e.game_state.turn, 3);
    assert_eq!(e.game_state.player_state.next_turn, Some(6));
    assert_eq!(e.game_state.enemy_state.next_turn, Some(100));
    assert_eq!(e.start_turn(), Ok(TurnStart::PlayersTurn));
    assert_eq!(e.game_state.turn, 6);
    assert_eq!(e.game_state.player_state.next_turn, Some(9));
}

#[test]
fn start_turn_gives_enemy_its_turn_when_earlier() {
    // speed -200: the player acts every 73 turns; the bomb after 20
    let mut e = Engine::new(character(-200), bomb_game(100));
    assert_eq!(e.start_turn(), Ok(TurnStart::EnemysTurn));
    assert_eq!(e.game_state.turn, 20);
    assert_eq!(e.game_state.enemy_state.next_turn, Some(40));
    assert_eq!(e.game_state.player_state.next_turn, Some(73));
}

#[test]
fn start_turn_ties_go_to_the_player() {
    let mut g = dummy_game();
    g.player_state.next_turn = Some(7);
    g.enemy_state.next_turn = Some(7);
    let mut e = Engine::new(character(13), g);
    assert_eq!(e.start_turn(), Ok(TurnStart::PlayersTurn));
    assert_eq!(e.game_state.turn, 7);
    assert_eq!(e.game_state.player_state.next_turn, Some(9));
}

#[test]
fn start_turn_increment_rounds_toward_zero() {
    // speed 24: (19 - 24) / 3 = -1 in Rust's integer division
    let mut e = Engine::new(character(24), dummy_game());
    assert_eq!(e.start_turn(), Ok(TurnStart::PlayersTurn));
    assert_eq!(e.game_state.turn, -1);
    assert_eq!(e.game_state.player_state.next_turn, Some(-2));
}

#[test]
fn start_turn_overflow_is_an_error() {
    let mut g = dummy_game();
    g.player_state.next_turn = Some(i64::MAX);
    g.enemy_state.next_turn = Some(i64::MAX);
    let mut e = Engine::new(character(10), g);
    assert_eq!(e.start_turn(), Err(TurnError::Overflow));
}

#[test]
fn player_turn_against_dummy_resolves_one_event() {
    let mut e = Engine::new(character(10), dummy_game());
    let report = e.play_player_turn(Action::NoAction).unwrap();
    assert!(!report.game_over);
    assert_eq!(report.events.len(), 1);
    assert_eq!(report.events[0].seq, 1);
    match &report.events[0].event {
        GameEvent::TurnResolved(g) => assert_eq!(g.enemy_state.health.current, 100),
        other => panic!("unexpected event {other:?}"),
    }
    let report = e.play_player_turn(Action::Attack(3)).unwrap();
    assert_eq!(report.events[0].seq, 2);
    assert_eq!(e.seq, 2);
    let hp = e.game_state.enemy_state.health.current;
    assert!((85..=94).contains(&hp), "hp {hp}");
    assert_eq!(e.game_state.player_state.damage_dealt, 100 - hp);
}

#[test]
fn player_turn_with_empty_range_is_an_error() {
    let mut e = Engine::new(character(10), dummy_game());
    assert!(matches!(e.play_player_turn(Action::Attack(0)), Err(TurnError::EmptyRange)));
    assert!(matches!(e.play_player_turn(Action::Heal(-1)), Err(TurnError::EmptyRange)));
}

#[test]
fn attacking_the_bomb_wins_the_round_and_explodes() {
    let mut e = Engine::new(character(10), bomb_game(100));
    let report = e.play_player_turn(Action::Attack(10)).unwrap();
    assert!(!report.game_over);
    assert_eq!(report.events.len(), 2);
    assert_eq!(report.events[0].seq, 1);
    assert_eq!(report.events[1].seq, 2);
    match &report.events[0].event {
        GameEvent::GameMessage(m) => assert_eq!(m, "KABOOM!"),
        other => panic!("unexpected event {other:?}"),
    }
    match &report.events[1].event {
        GameEvent::TurnResolved(g) => {
            assert_eq!(g.round, 1);
            assert_eq!(g.turn, 0);
        }
        other => panic!("unexpected event {other:?}"),
    }
    // the explosion hurt the player; the round moved on
    assert_eq!(e.game_state.player_state.health.current, 80);
    assert_eq!(e.game_state.round, 1);
    assert_eq!(e.game_state.turn, 0);
    assert_eq!(e.game_state.player_state.next_turn, None);
    assert_eq!(e.game_state.enemies_defeated.get(&EnemyType::Bomb.code()), Some(&1));
    assert!(is_fighting(e.game_state.enemy_state.enemy_type));
    assert_eq!(e.game_state.enemy_state.health.current, e.game_state.enemy_state.health.max);
    assert_eq!(e.seq, 2);
}

#[test]
fn bomb_detonation_kills_a_weak_player_and_ends_the_game() {
    let mut e = Engine::new(character(10), bomb_game(5));
    let report = e.play_enemy_turn().unwrap();
    assert!(report.game_over);
    assert_eq!(report.events.len(), 1);
    match &report.events[0].event {
        GameEvent::GameMessage(m) => assert_eq!(m, "KABOOM!"),
        other => panic!("unexpected event {other:?}"),
    }
    assert_eq!(e.game_state.player_state.health.current, 0);
    assert!(e.game_state.complete);
    // three rounds or fewer: a loss
    assert_eq!(e.game_state.win, Some(false));
    assert_eq!(e.start_turn(), Ok(TurnStart::GameComplete));
}

#[test]
fn dying_after_more_than_three_rounds_is_a_win() {
    let mut g = bomb_game(5);
    g.round = 4;
    let mut e = Engine::new(character(10), g);
    let report = e.play_enemy_turn().unwrap();
    assert!(report.game_over);
    assert_eq!(e.game_state.win, Some(true));
    let mut g = bomb_game(5);
    g.round = 3;
    let mut e = Engine::new(character(10), g);
    e.play_enemy_turn().unwrap();
    assert_eq!(e.game_state.win, Some(false));
}

#[test]
fn next_round_counts_the_defeat_and_resets_turns() {
    let mut g = bomb_game(100);
    g.turn = 40;
    g.player_state.next_turn = Some(43);
    g.enemies_defeated.insert(EnemyType::Bomb.code(), 2);
    let mut e = Engine::new(character(10), g);
    assert_eq!(e.next_round(AnyEnemy::Dummy(DummyEnemy::new())), Ok(()));
    assert_eq!(e.game_state.round, 1);
    assert_eq!(e.game_state.turn, 0);
    assert_eq!(e.game_state.player_state.next_turn, None);
    assert_eq!(e.game_state.enemies_defeated.get(&EnemyType::Bomb.code()), Some(&3));
    assert_eq!(e.game_state.enemy_state.enemy_type, EnemyType::Dummy);
    assert!(matches!(e.enemy, AnyEnemy::Dummy(_)));
}

#[test]
fn next_round_overflow_is_an_error() {
    let mut g = bomb_game(100);
    g.round = i64::MAX;
    let mut e = Engine::new(character(10), g);
    assert_eq!(e.next_round(AnyEnemy::Dummy(DummyEnemy::new())), Err(TurnError::Overflow));
}

#[test]
fn cleanup_emits_game_over_or_stopped() {
    let mut e = Engine::new(character(10), dummy_game());
    e.seq = 4;
    let ev = e.cleanup().unwrap();
    assert_eq!(ev.seq, 5);
    assert!(matches!(ev.event, GameEvent::GameStopped(_)));
    let mut g = dummy_game();
    g.complete = true;
    let mut e = Engine::new(character(10), g);
    let ev = e.cleanup().unwrap();
    assert_eq!(ev.seq, 1);
    assert!(matches!(ev.event, GameEvent::GameOver(_)));
    e.seq = u64::MAX;
    assert!(matches!(e.cleanup(), Err(TurnError::Overflow)));
}

#[test]
fn enemy_turn_messages_come_before_the_resolved_turn() {
    // a bomb whose countdown was just announced: the next enemy turn
    // detonates it, and a strong player survives the blast
    let mut e = Engine::new(character(10), bomb_game(100));
    assert_eq!(e.start_turn(), Ok(TurnStart::PlayersTurn));
    let report = e.play_enemy_turn().unwrap();
    assert_eq!(report.events.len(), 2);
    match &report.events[0].event {
        GameEvent::GameMessage(m) => assert_eq!(m, "KABOOM!"),
        other => panic!("unexpected event {other:?}"),
    }
    assert!(matches!(report.events[1].event, GameEvent::TurnResolved(_)));
    let hp = e.game_state.player_state.health.current;
    assert!((75..=90).contains(&hp), "hp {hp}");
    assert_eq!(e.game_state.round, 1);
}

#[test]
fn a_whole_session_numbers_its_events_without_gaps() {
    let mut e = Engine::new(character(10), bomb_game(100));
    let mut seqs = Vec::new();
    for _ in 0..6 {
        match e.start_turn().unwrap() {
            TurnStart::GameComplete => break,
            TurnStart::PlayersTurn => {
                let report = e.play_player_turn(Action::Defend(2)).unwrap();
                seqs.extend(report.events.iter().map(|ev| ev.seq));
            }
            TurnStart::EnemysTurn => {
                let report = e.play_enemy_turn().unwrap();
                seqs.extend(report.events.iter().map(|ev| ev.seq));
            }
        }
    }
    let last = e.cleanup().unwrap();
    seqs.push(last.seq);
    let expected: Vec<u64> = (1..=seqs.len() as u64).collect();
    assert_eq!(seqs, expected);
    assert_eq!(e.seq, seqs.len() as u64);
    assert!(matches!(last.event, GameEvent::GameStopped(_)));
}
