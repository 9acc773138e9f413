use rpg_server::config::{parse_port, Config, DEFAULT_PORT};
use rpg_server::error::AppError;
use rpg_server::middleware::auth::{check_secret, parse_authorization};

#[test]
fn parse_port_follows_u16_parsing() {
    assert_eq!(parse_port("8080"), Some(8080));
    assert_eq!(parse_port("0"), Some(0));
    assert_eq!(parse_port("65535"), Some(65535));
    assert_eq!(parse_port("+80"), Some(80));
    assert_eq!(parse_port("0080"), Some(80));
    assert_eq!(parse_port("65536"), None);
    assert_eq!(parse_port("99999999999"), None);
    assert_eq!(parse_port("-1"), None);
    assert_eq!(parse_port(""), None);
    assert_eq!(parse_port("+"), None);
    assert_eq!(parse_port("80a"), None);
    assert_eq!(parse_port(" 80"), None);
    for p in ["1", "443", "5000", "12345", "+7", "60000"] {
        assert_eq!(parse_port(p), p.parse::<u16>().ok(), "{p}");
    }
}

#[test]
fn config_defaults() {
    let c = Config::from_vars(None, None, None, None);
    assert_eq!(c.host, "0.0.0.0");
    assert_eq!(c.port, 5000);
    assert_eq!(DEFAULT_PORT, 5000);
    assert_eq!(c.firestore_project_id, None);
    assert_eq!(c.mongodb_uri, "mongodb://localhost:27017");
}

#[test]
fn config_takes_given_values_and_falls_back_on_bad_port() {
    let c = Config::from_vars(
        Some("127.0.0.1".to_string()),
        Some("8081".to_string()),
        Some("proj".to_string()),
        Some("mongodb://db:1".to_string()),
    );
    assert_eq!(c.host, "127.0.0.1");
    assert_eq!(c.port, 8081);
    assert_eq!(c.firestore_project_id, Some("proj".to_string()));
    assert_eq!(c.mongodb_uri, "mongodb://db:1");
    let c = Config::from_vars(None, Some("http".to_string()), None, None);
    assert_eq!(c.port, 5000);
    let c = Config::from_vars(None, Some("70000".to_string()), None, None);
    assert_eq!(c.port, 5000);
}

#[test]
fn authorization_splits_at_the_first_colon() {
    assert_eq!(parse_authorization(Some("u1:abc")), Ok(("u1".to_string(), "abc".to_string())));
    assert_eq!(parse_authorization(Some("u1:a:b")), Ok(("u1".to_string(), "a:b".to_string())));
    assert_eq!(parse_authorization(Some(":s")), Ok(("".to_string(), "s".to_string())));
    assert_eq!(parse_authorization(Some("u1:")), Ok(("u1".to_string(), "".to_string())));
    assert_eq!(parse_authorization(Some("no-colon")), Err(AppError::Unauthorized));
    assert_eq!(parse_authorization(Some("")), Err(AppError::Unauthorized));
    assert_eq!(parse_authorization(None), Err(AppError::Unauthorized));
}

#[test]
fn secrets_are_checked_against_the_stored_one() {
    let id = "u1".to_string();
    assert_eq!(check_secret(Some("s".to_string()), &id, &"s".to_string()), Ok(()));
    assert_eq!(check_secret(Some("s".to_string()), &id, &"t".to_string()), Err(AppError::Unauthorized));
    assert_eq!(
        check_secret(None, &id, &"s".to_string()),
        Err(AppError::NotFound("Username 'u1' not found".to_string()))
    );
}

#[test]
fn errors_map_to_status_and_client_message() {
    assert_eq!(AppError::NotFound("x".to_string()).status_and_message(), (404, "x".to_string()));
    assert_eq!(
        AppError::Database("conn reset".to_string()).status_and_message(),
        (500, "A database error occurred".to_string())
    );
    assert_eq!(AppError::Unauthorized.status_and_message(), (401, "Unauthorized".to_string()));
    assert_eq!(AppError::BadRequest("bad".to_string()).status_and_message(), (400, "bad".to_string()));
    assert_eq!(
        AppError::Internal("boom".to_string()).status_and_message(),
        (500, "An internal error occurred".to_string())
    );
    assert_eq!(AppError::NotImplemented.status_and_message(), (501, "Not Implemented".to_string()));
}

#[test]
fn only_database_and_internal_errors_are_logged() {
    assert!(AppError::Database("d".to_string()).is_logged());
    assert!(AppError::Internal("i".to_string()).is_logged());
    assert!(!AppError::NotFound("n".to_string()).is_logged());
    assert!(!AppError::Unauthorized.is_logged());
    assert!(!AppError::BadRequest("b".to_string()).is_logged());
    assert!(!AppError::NotImplemented.is_logged());
}
