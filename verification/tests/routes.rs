use std::collections::HashMap;

use rpg_server::enemys::EnemyType;
use rpg_server::error::AppError;
use rpg_server::models::character::{Character, CreateCharacterRequest, Stats};
use rpg_server::models::game::{CreateGameRequest, EnemyState, Game, GameResponse, Health, PlayerState};
use rpg_server::models::user::User;
use rpg_server::routes::character::{characters_of, create_character_for, found_character};
use rpg_server::routes::game::{create_game_for, game_response, game_responses, Leaderboard};
use rpg_server::routes::session::{forwards_event, missing_character, no_session, no_stream, prepare_game, unknown_game};
use rpg_server::routes::{concat3, require};

fn user() -> User {
    User {
        id: "u1".to_string(),
        username: "alice".to_string(),
        password_hash: "h".to_string(),
        secret: "s".to_string(),
        characters: vec!["c0".to_string()],
    }
}

fn character() -> Character {
    Character {
        id: "c1".to_string(),
        owner: "u1".to_string(),
        name: "Hero".to_string(),
        stats: Stats { power: 3, speed: 4, defense: 5 },
        games: vec!["g0".to_string()],
    }
}

fn game(id: &str, player: &str, win: Option<bool>, round: i64, dealt: i64, kinds: u64) -> Game {
    let mut defeated = HashMap::new();
    for k in 0..kinds {
        defeated.insert(k, 1);
    }
    Game {
        id: id.to_string(),
        complete: win.is_some(),
        win,
        round,
        turn: 7,
        player_state: PlayerState {
            player_id: player.to_string(),
            character_id: "c1".to_string(),
            next_turn: Some(9),
            health: Health { current: 40, max: 100 },
            block: 0,
            damage_taken: 1,
            damage_healed: 2,
            damage_blocked: 3,
            damage_dodged: 4,
            damage_dealt: dealt,
        },
        enemy_state: EnemyState {
            next_turn: None,
            state: 0,
            health: Health { current: 10, max: 30 },
            block: 0,
            enemy_type: EnemyType::Maestro,
        },
        enemies_defeated: defeated,
    }
}

#[test]
fn concat3_joins_in_order() {
    assert_eq!(concat3("a", "bc", "d"), "abcd");
    assert_eq!(concat3("", "", ""), "");
}

#[test]
fn require_maps_none_to_not_found() {
    assert_eq!(require(Some(3), "m".to_string()), Ok(3));
    assert_eq!(require::<i32>(None, "gone".to_string()), Err(AppError::NotFound("gone".to_string())));
}

#[test]
fn characters_of_user_or_not_found() {
    assert_eq!(characters_of(Some(user()), &"u1".to_string()), Ok(vec!["c0".to_string()]));
    assert_eq!(
        characters_of(None, &"u9".to_string()),
        Err(AppError::NotFound("User with id, u9, Does not exist.".to_string()))
    );
}

#[test]
fn found_character_or_not_found() {
    assert_eq!(found_character(Some(character()), &"c1".to_string()).unwrap().name, "Hero");
    assert_eq!(
        found_character(None, &"c9".to_string()).unwrap_err(),
        AppError::NotFound("Character with id, c9, Does not exist.".to_string())
    );
}

#[test]
fn create_character_links_it_to_its_owner() {
    let req = CreateCharacterRequest {
        player_id: "u1".to_string(),
        character_name: "Zed".to_string(),
        power: 7,
        speed: 8,
        defense: 9,
    };
    let (c, u) = create_character_for(req, Some(user())).unwrap();
    assert_eq!(c.owner, "u1");
    assert_eq!(c.name, "Zed");
    assert_eq!(c.stats, Stats { power: 7, speed: 8, defense: 9 });
    assert!(c.games.is_empty());
    assert_eq!(c.id.len(), 36);
    assert_eq!(u.characters, vec!["c0".to_string(), c.id.clone()]);
    assert_eq!(u.id, "u1");
}

#[test]
fn create_character_for_unknown_owner_is_not_found() {
    let req = CreateCharacterRequest {
        player_id: "u404".to_string(),
        character_name: "Zed".to_string(),
        power: 1,
        speed: 1,
        defense: 1,
    };
    assert_eq!(
        create_character_for(req, None).unwrap_err(),
        AppError::NotFound("User with id, u404, Does Not Exist.".to_string())
    );
}

#[test]
fn create_game_links_it_to_its_character() {
    let req = CreateGameRequest { player_id: "u1".to_string(), character_id: "c1".to_string() };
    let (g, c) = create_game_for(req, Some(character())).unwrap();
    assert!(!g.complete);
    assert_eq!(g.win, None);
    assert_eq!((g.round, g.turn), (0, 0));
    assert_eq!(g.player_state.player_id, "u1");
    assert_eq!(g.player_state.character_id, "c1");
    assert_eq!(g.player_state.health, Health { current: 100, max: 100 });
    assert_eq!(g.player_state.next_turn, None);
    assert!(g.enemies_defeated.is_empty());
    assert!(!matches!(g.enemy_state.enemy_type, EnemyType::Dummy | EnemyType::Unknown));
    assert_eq!(g.enemy_state.health.current, g.enemy_state.health.max);
    assert_eq!(c.games, vec!["g0".to_string(), g.id.clone()]);
    assert_eq!(c.id, "c1");
}

#[test]
fn create_game_for_unknown_character_is_not_found() {
    let req = CreateGameRequest { player_id: "u1".to_string(), character_id: "c404".to_string() };
    assert_eq!(
        create_game_for(req, None).unwrap_err(),
        AppError::NotFound("Character Not Found with id c404".to_string())
    );
}

#[test]
fn game_response_mirrors_the_game() {
    let r = game_response(Some(game("g1", "u1", None, 2, 5, 1)), &"g1".to_string()).unwrap();
    assert_eq!(r.id, "g1");
    assert_eq!(r.round, 2);
    assert_eq!(r.turn, 7);
    assert_eq!(r.player_state.damage_dealt, 5);
    assert_eq!(r.enemy_state.enemy_type, EnemyType::Maestro);
    assert_eq!(r.enemies_defeated.len(), 1);
    assert_eq!(
        game_response(None, &"g9".to_string()).unwrap_err(),
        AppError::NotFound("Game with id, g9, Does not exist.".to_string())
    );
    let direct = GameResponse::from(game("g2", "u1", Some(true), 1, 0, 0));
    assert_eq!(direct.win, Some(true));
    assert!(direct.complete);
}

#[test]
fn game_responses_keep_order() {
    let rs = game_responses(vec![game("a", "u", None, 1, 0, 0), game("b", "u", None, 2, 0, 0), game("c", "u", None, 3, 0, 0)]);
    let ids: Vec<&str> = rs.iter().map(|r| r.id.as_str()).collect();
    assert_eq!(ids, vec!["a", "b", "c"]);
    assert!(game_responses(vec![]).is_empty());
}

#[test]
fn leaderboard_aggregates_per_player() {
    let mut lb = Leaderboard::new();
    let g1 = game("g1", "u1", Some(true), 5, 30, 2);
    assert!(lb.needs_lookup(&"u1".to_string()));
    assert!(lb.can_add_game(&g1));
    lb.add_game(&g1, Some("alice".to_string()));
    assert!(!lb.needs_lookup(&"u1".to_string()));
    let g2 = game("g2", "u2", Some(false), 1, 4, 0);
    lb.add_game(&g2, Some("bob".to_string()));
    let g3 = game("g3", "u1", Some(false), 2, 10, 1);
    // the name is only used for a new entry
    lb.add_game(&g3, Some("ignored".to_string()));
    let g4 = game("g4", "u3", Some(true), 9, 9, 3);
    // a player whose name was not found is skipped
    lb.add_game(&g4, None);
    let entries = lb.into_entries();
    assert_eq!(entries.len(), 2);
    assert_eq!(entries[0].player_name, "alice");
    assert_eq!((entries[0].wins, entries[0].rounds, entries[0].damage_dealt, entries[0].enemies_defeated), (1, 7, 40, 3));
    assert_eq!(entries[1].player_name, "bob");
    assert_eq!((entries[1].wins, entries[1].rounds, entries[1].damage_dealt, entries[1].enemies_defeated), (0, 1, 4, 0));
}

#[test]
fn leaderboard_refuses_overflowing_game() {
    let mut lb = Leaderboard::new();
    lb.add_game(&game("g1", "u1", Some(true), i64::MAX, 0, 0), Some("alice".to_string()));
    assert!(!lb.can_add_game(&game("g2", "u1", None, 1, 0, 0)));
    assert!(lb.can_add_game(&game("g3", "u2", None, i64::MAX, 0, 0)));
}

#[test]
fn session_errors_carry_their_messages() {
    let id = "g7".to_string();
    assert_eq!(unknown_game(&id), AppError::NotFound("Game not found with id, 'g7'".to_string()));
    assert_eq!(
        missing_character(&"u1".to_string(), &"c2".to_string()),
        AppError::NotFound("User or Character not found, 'u1' 'c2'".to_string())
    );
    assert_eq!(no_session(&id), AppError::NotFound("No active session with id, 'g7'".to_string()));
    assert_eq!(no_stream(&id), AppError::NotFound("No active session for user 'g7'".to_string()));
}

#[test]
fn prepare_game_sets_up_only_unstarted_records() {
    let mut g = game("g1", "u1", None, 3, 0, 1);
    g.player_state.health = Health { current: 0, max: 0 };
    let p = prepare_game(g);
    assert_eq!(p.player_state.health, Health { current: 100, max: 100 });
    assert_eq!(p.player_state.next_turn, None);
    assert_eq!(p.round, 3);
    assert_eq!(p.turn, 7);
    assert_eq!(p.player_state.damage_healed, 2);
    assert!(!matches!(p.enemy_state.enemy_type, EnemyType::Dummy | EnemyType::Unknown));
    let resumed = prepare_game(game("g2", "u1", None, 3, 0, 1));
    assert_eq!(resumed.player_state.health, Health { current: 40, max: 100 });
    assert_eq!(resumed.enemy_state.enemy_type, EnemyType::Maestro);
    assert_eq!(resumed.player_state.next_turn, Some(9));
}

#[test]
fn streams_forward_only_events_after_the_snapshot() {
    assert!(forwards_event(5, 4));
    assert!(!forwards_event(4, 4));
    assert!(!forwards_event(3, 4));
}
