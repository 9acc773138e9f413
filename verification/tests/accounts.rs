use rpg_server::error::AppError;
use rpg_server::models::new_id;
use rpg_server::models::user::{hex_lower, new_secret, CreateUserRequest, LogInRequest, User};
use rpg_server::routes::auth::{
    contains_username, log_in_response, login_decision, login_user, register_user,
};

fn is_lower_hex(s: &str) -> bool {
    s.chars().all(|c| c.is_ascii_digit() || ('a'..='f').contains(&c))
}

fn is_uuid_text(s: &str) -> bool {
    let parts: Vec<&str> = s.split('-').collect();
    parts.len() == 5
        && parts.iter().map(|p| p.len()).collect::<Vec<_>>() == vec![8, 4, 4, 4, 12]
        && parts.iter().all(|p| p.chars().all(|c| c.is_ascii_hexdigit()))
}

fn plain_user(password_hash: &str) -> User {
    User {
        id: "u1".to_string(),
        username: "alice".to_string(),
        password_hash: password_hash.to_string(),
        secret: "old".to_string(),
        characters: vec!["c1".to_string()],
    }
}

#[test]
fn hex_lower_encodes_each_byte_as_two_digits() {
    assert_eq!(hex_lower(&vec![0x00, 0x0f, 0xa5, 0xff, 0x10]), "000fa5ff10");
    assert_eq!(hex_lower(&vec![]), "");
}

#[test]
fn new_secrets_are_64_hex_digits_and_differ() {
    let a = new_secret();
    let b = new_secret();
    assert_eq!(a.len(), 64);
    assert!(is_lower_hex(&a));
    assert_ne!(a, b);
}

#[test]
fn new_ids_are_hyphenated_uuids() {
    let id = new_id();
    assert!(is_uuid_text(&id), "{id}");
    // version 7
    assert_eq!(&id[14..15], "7");
    assert_ne!(new_id(), id);
}

#[test]
fn new_user_hashes_password_and_checks_it() {
    let u = User::new("alice".to_string(), "hunter2".to_string()).unwrap();
    assert_eq!(u.username, "alice");
    assert_ne!(u.password_hash, "hunter2");
    // bcrypt's version, then the cost of 10
    assert!(u.password_hash.starts_with("$2b$10$"), "{}", u.password_hash);
    assert_eq!(u.secret.len(), 64);
    assert!(is_uuid_text(&u.id));
    assert!(u.characters.is_empty());
    assert_eq!(u.check_password("hunter2".to_string()), Ok(true));
    assert_eq!(u.check_password("hunter3".to_string()), Ok(false));
}

#[test]
fn check_password_against_a_malformed_hash_is_internal_error() {
    let u = plain_user("not a bcrypt hash");
    assert!(matches!(u.check_password("x".to_string()), Err(AppError::Internal(_))));
}

#[test]
fn generate_secret_rotates_only_the_secret() {
    let mut u = plain_user("h");
    u.generate_secret();
    assert_ne!(u.secret, "old");
    assert_eq!(u.secret.len(), 64);
    assert_eq!((u.id.as_str(), u.username.as_str(), u.password_hash.as_str()), ("u1", "alice", "h"));
    assert_eq!(u.characters, vec!["c1".to_string()]);
}

#[test]
fn contains_username_matches_exactly() {
    let names = vec!["alice".to_string(), "bob".to_string()];
    assert!(contains_username(&names, &"bob".to_string()));
    assert!(!contains_username(&names, &"Bob".to_string()));
    assert!(!contains_username(&vec![], &"bob".to_string()));
}

#[test]
fn register_rejects_a_taken_username() {
    let names = vec!["alice".to_string()];
    let r = register_user(&names, CreateUserRequest { username: "alice".to_string(), password: "pw".to_string() });
    assert_eq!(r.unwrap_err(), AppError::BadRequest("Username, alice, is already taken.".to_string()));
}

#[test]
fn register_then_login_with_the_same_password() {
    let names = vec!["bob".to_string()];
    let u = register_user(&names, CreateUserRequest { username: "carol".to_string(), password: "s3cret".to_string() }).unwrap();
    assert_eq!(u.username, "carol");
    let before = u.secret.clone();
    let logged = login_user(Some(u.clone()), LogInRequest { username: "carol".to_string(), password: "s3cret".to_string() }).unwrap();
    assert_ne!(logged.secret, before);
    assert_eq!(logged.id, u.id);
    assert_eq!(logged.password_hash, u.password_hash);
    let resp = log_in_response(&logged);
    assert_eq!(resp.user_id, logged.id);
    assert_eq!(resp.secret, logged.secret);
    let wrong = login_user(Some(u), LogInRequest { username: "carol".to_string(), password: "nope".to_string() });
    assert_eq!(wrong.unwrap_err(), AppError::Unauthorized);
}

#[test]
fn login_of_unknown_user_is_not_found() {
    let r = login_user(None, LogInRequest { username: "dave".to_string(), password: "pw".to_string() });
    assert_eq!(r.unwrap_err(), AppError::NotFound("User, dave, Does not exist.".to_string()));
}

#[test]
fn login_with_unreadable_hash_is_internal_error() {
    let r = login_user(Some(plain_user("garbage")), LogInRequest { username: "alice".to_string(), password: "pw".to_string() });
    assert!(matches!(r, Err(AppError::Internal(_))));
}

#[test]
fn login_decision_per_check_result() {
    let u = login_decision(plain_user("h"), Ok(true)).unwrap();
    assert_ne!(u.secret, "old");
    assert_eq!(login_decision(plain_user("h"), Ok(false)).unwrap_err(), AppError::Unauthorized);
    assert_eq!(
        login_decision(plain_user("h"), Err(AppError::Internal("x".to_string()))).unwrap_err(),
        AppError::Internal("x".to_string())
    );
}

#[test]
fn from_hash_builds_the_account_or_reports_the_failure() {
    let u = User::from_hash("erin".to_string(), Ok("$2b$10$abc".to_string())).unwrap();
    assert_eq!(u.username, "erin");
    assert_eq!(u.password_hash, "$2b$10$abc");
    assert_eq!(u.secret.len(), 64);
    assert!(is_lower_hex(&u.secret));
    assert!(is_uuid_text(&u.id));
    assert!(u.characters.is_empty());
    let failed = User::from_hash("erin".to_string(), Err(bcrypt::BcryptError::CostNotAllowed(3)));
    assert_eq!(failed.unwrap_err(), AppError::Internal("ERROR HASHING PASSWORD".to_string()));
}
