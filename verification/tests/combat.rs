use rpg_server::enemys::EnemyType;
use rpg_server::game::runner::{apply_action, handle_turn, TurnError};
use rpg_server::models::game::{Combatant, EnemyState, Health, PlayerState};
use rpg_server::models::Action;

fn player(current: i64, max: i64, block: i64) -> PlayerState {
    PlayerState {
        player_id: "p1".to_string(),
        character_id: "c1".to_string(),
        next_turn: None,
        health: Health { current, max },
        block,
        damage_taken: 0,
        damage_healed: 0,
        damage_blocked: 0,
        damage_dodged: 0,
        damage_dealt: 0,
    }
}

fn enemy(current: i64, max: i64, block: i64) -> EnemyState {
    EnemyState {
        next_turn: None,
        state: 0,
        health: Health { current, max },
        block,
        enemy_type: EnemyType::Dummy,
    }
}

#[test]
fn player_take_damage_beyond_block_logs_block_and_hp_loss() {
    let mut p = player(50, 100, 4);
    let taken = p.take_damage(10);
    assert_eq!(taken, 6);
    assert_eq!(p.health.current, 44);
    assert_eq!(p.block, 0);
    assert_eq!(p.damage_blocked, 4);
    assert_eq!(p.damage_taken, 6);
}

#[test]
fn player_take_damage_fully_blocked_keeps_rest_of_block() {
    let mut p = player(50, 100, 10);
    let taken = p.take_damage(4);
    assert_eq!(taken, 0);
    assert_eq!(p.health.current, 50);
    assert_eq!(p.block, 6);
    // all of the damage was prevented by the block
    assert_eq!(p.damage_blocked, 4);
    let taken = p.take_damage(6);
    assert_eq!(taken, 0);
    assert_eq!(p.block, 0);
    assert_eq!(p.damage_blocked, 10);
}

#[test]
fn player_take_damage_caps_at_zero_hp_and_logs_only_hp_lost() {
    let mut p = player(5, 100, 0);
    let taken = p.take_damage(30);
    assert_eq!(taken, 5);
    assert_eq!(p.health.current, 0);
    assert_eq!(p.damage_taken, 5);
}

#[test]
fn player_heal_caps_at_max_and_logs_hp_gained() {
    let mut p = player(95, 100, 0);
    p.heal_damage(10);
    assert_eq!(p.health.current, 100);
    assert_eq!(p.damage_healed, 5);
    let mut p = player(50, 100, 0);
    p.heal_damage(10);
    assert_eq!(p.health.current, 60);
    assert_eq!(p.damage_healed, 10);
}

#[test]
fn player_deal_damage_logs_damage_dealt() {
    let mut p = player(50, 100, 0);
    p.deal_damage(7);
    p.deal_damage(3);
    assert_eq!(p.damage_dealt, 10);
}

#[test]
fn enemy_take_damage_and_heal() {
    let mut e = enemy(40, 40, 3);
    assert_eq!(e.take_damage(10), 7);
    assert_eq!(e.health.current, 33);
    assert_eq!(e.block, 0);
    assert_eq!(e.take_damage(100), 33);
    assert_eq!(e.health.current, 0);
    e.heal_damage(100);
    assert_eq!(e.health.current, 40);
    e.deal_damage(5);
    assert_eq!(e.health.current, 40);
}

#[test]
fn negative_block_adds_damage() {
    // Maestro's reload leaves a negative block: the next hit lands harder
    let mut e = enemy(30, 30, -15);
    assert_eq!(e.take_damage(5), 20);
    assert_eq!(e.health.current, 10);
}

#[test]
fn block_set_and_reset() {
    let mut p = player(50, 100, 0);
    p.set_block(12);
    assert_eq!(p.block, 12);
    p.reset_block();
    assert_eq!(p.block, 0);
}

#[test]
fn can_checks_report_overflow() {
    let p = player(50, 100, i64::MIN);
    assert!(!p.can_take_damage(1));
    let p = player(50, 100, 0);
    assert!(p.can_take_damage(10));
    let mut p2 = player(50, 100, 0);
    p2.damage_dealt = i64::MAX;
    assert!(!p2.can_deal_damage(1));
    assert!(!player(i64::MAX, i64::MAX, 0).can_heal_damage(1));
}

#[test]
fn apply_action_attack_records_damage_dealt() {
    let mut p = player(50, 100, 9);
    let mut e = enemy(40, 40, 2);
    apply_action(&Action::Attack(3), 10, &mut p, &mut e);
    // attacker's block is cleared at the start of its turn
    assert_eq!(p.block, 0);
    assert_eq!(e.health.current, 32);
    assert_eq!(p.damage_dealt, 8);
}

#[test]
fn apply_action_defend_and_heal() {
    let mut p = player(50, 100, 9);
    let mut e = enemy(40, 40, 0);
    apply_action(&Action::Defend(4), 13, &mut p, &mut e);
    assert_eq!(p.block, 13);
    apply_action(&Action::Heal(4), 9, &mut p, &mut e);
    assert_eq!(p.block, 0);
    assert_eq!(p.health.current, 59);
    apply_action(&Action::NoAction, 0, &mut p, &mut e);
    assert_eq!(e.health.current, 40);
}

#[test]
fn handle_turn_attack_rolls_between_two_and_five_times_power() {
    for _ in 0..50 {
        let mut p = player(100, 100, 0);
        let mut e = enemy(1000, 1000, 0);
        assert_eq!(handle_turn(&Action::Attack(10), &mut p, &mut e), Ok(()));
        let dmg = 1000 - e.health.current;
        assert!((20..50).contains(&dmg), "damage {dmg}");
        assert_eq!(p.damage_dealt, dmg);
    }
}

#[test]
fn handle_turn_defend_and_heal_ranges() {
    for _ in 0..50 {
        let mut p = player(10, 1000, 0);
        let mut e = enemy(100, 100, 0);
        handle_turn(&Action::Defend(4), &mut p, &mut e).unwrap();
        assert!((12..20).contains(&p.block));
        handle_turn(&Action::Heal(5), &mut p, &mut e).unwrap();
        assert!((10..20).contains(&(p.health.current - 10)));
        assert_eq!(p.block, 0);
    }
}

#[test]
fn handle_turn_negative_defense_gives_negative_block() {
    for _ in 0..50 {
        let mut e = enemy(30, 30, 0);
        let mut p = player(100, 100, 0);
        handle_turn(&Action::Defend(-5), &mut e, &mut p).unwrap();
        assert!((-25..-15).contains(&e.block), "block {}", e.block);
    }
}

#[test]
fn handle_turn_empty_ranges_are_errors() {
    let mut p = player(100, 100, 0);
    let mut e = enemy(100, 100, 0);
    assert_eq!(handle_turn(&Action::Attack(0), &mut p, &mut e), Err(TurnError::EmptyRange));
    assert_eq!(handle_turn(&Action::Attack(-3), &mut p, &mut e), Err(TurnError::EmptyRange));
    assert_eq!(handle_turn(&Action::Heal(0), &mut p, &mut e), Err(TurnError::EmptyRange));
    assert_eq!(handle_turn(&Action::Defend(0), &mut p, &mut e), Err(TurnError::EmptyRange));
    assert_eq!(handle_turn(&Action::NoAction, &mut p, &mut e), Ok(()));
    assert_eq!(e.health.current, 100);
}

#[test]
fn handle_turn_overflowing_stat_is_an_error() {
    let mut p = player(100, 100, 0);
    let mut e = enemy(100, 100, 0);
    assert_eq!(handle_turn(&Action::Attack(i64::MAX / 2), &mut p, &mut e), Err(TurnError::Overflow));
}
