use std::time::{SystemTime, UNIX_EPOCH};

use strava::api::ApiError;
use strava::auth::{
    interpret_token_response, parse_login, AccessToken, Login, RefreshToken,
};

fn make_login(expires_at: u64) -> Login {
    Login {
        access_token: AccessToken("foo".to_string()),
        refresh_token: RefreshToken("bar".to_string()),
        expires_at,
    }
}

fn epoch_now() -> u64 {
    SystemTime::now()
        .duration_since(UNIX_EPOCH)
        .unwrap()
        .as_secs()
}

#[test]
fn valid_login_is_not_expired() {
    let now = epoch_now();
    let valid_login = make_login(now + 60);
    assert!(!valid_login.is_expired(now));
}

#[test]
fn old_login_is_expired() {
    let now = epoch_now();
    let login = make_login(now - 60);
    assert!(login.is_expired(now));
}

#[test]
fn will_expire_soon_default() {
    let now = epoch_now();
    let over_10_minutes = make_login(now + 12 * 60);
    let under_10_minutes = make_login(now + 8 * 60);
    assert!(!over_10_minutes.will_expire_soon(now, None));
    assert!(under_10_minutes.will_expire_soon(now, None));
}

#[test]
fn will_expire_soon_custom_timeout() {
    let now = epoch_now();
    let over_30_minutes = make_login(now + 32 * 60);
    let under_30_minutes = make_login(now + 28 * 60);
    let timeout = 30 * 60;
    assert!(!over_30_minutes.will_expire_soon(now, Some(timeout)));
    assert!(under_30_minutes.will_expire_soon(now, Some(timeout)));
}

#[test]
fn deserialize_login() {
    let json = r#"{
      "access_token":   "foobar",
      "refresh_token":  "eggspam",
      "expires_at":     1234567890
    }"#;
    let login: Login = parse_login(json).unwrap();
    assert_eq!(login.access_token.0, "foobar");
    assert_eq!(login.refresh_token.0, "eggspam");
    assert_eq!(login.expires_at, 1234567890);
}

#[test]
fn expiry_boundary_is_strict() {
    let now = epoch_now();
    assert!(!make_login(now).is_expired(now));
    assert!(make_login(now - 1).is_expired(now));
}

#[test]
fn expiry_timeout_boundary_is_strict() {
    let now = epoch_now();
    assert!(!make_login(now + 600).will_expire_soon(now, None));
    assert!(make_login(now + 599).will_expire_soon(now, None));
}

#[test]
fn deserialize_login_any_member_order() {
    let json = r#"{"expires_at": 77, "refresh_token": "r", "access_token": "a"}"#;
    let login = parse_login(json).unwrap();
    assert_eq!(login.access_token.0, "a");
    assert_eq!(login.refresh_token.0, "r");
    assert_eq!(login.expires_at, 77);
}

#[test]
fn deserialize_login_ignores_unknown_members() {
    let json = r#"{"access_token": "a", "token_type": "Bearer", "expires_in": 21600,
                   "refresh_token": "r", "expires_at": 3}"#;
    let login = parse_login(json).unwrap();
    assert_eq!(login.access_token.0, "a");
    assert_eq!(login.refresh_token.0, "r");
    assert_eq!(login.expires_at, 3);
}

#[test]
fn deserialize_login_missing_member_fails() {
    let json = r#"{"access_token": "a", "refresh_token": "r"}"#;
    assert_eq!(parse_login(json), Err(ApiError::Deserialization));
}

#[test]
fn deserialize_login_duplicate_member_fails() {
    let json = r#"{"access_token": "a", "access_token": "b",
                   "refresh_token": "r", "expires_at": 3}"#;
    assert_eq!(parse_login(json), Err(ApiError::Deserialization));
}

#[test]
fn deserialize_login_wrong_member_shape_fails() {
    let json = r#"{"access_token": 5, "refresh_token": "r", "expires_at": 3}"#;
    assert_eq!(parse_login(json), Err(ApiError::Deserialization));
    let json = r#"{"access_token": "a", "refresh_token": "r", "expires_at": "soon"}"#;
    assert_eq!(parse_login(json), Err(ApiError::Deserialization));
}

#[test]
fn deserialize_login_trailing_text_fails() {
    let json = r#"{"access_token": "a", "refresh_token": "r", "expires_at": 3} x"#;
    assert_eq!(parse_login(json), Err(ApiError::Deserialization));
}

#[test]
fn deserialize_login_huge_expiry_fails() {
    // one past u64::MAX
    let json = r#"{"access_token": "a", "refresh_token": "r",
                   "expires_at": 18446744073709551616}"#;
    assert_eq!(parse_login(json), Err(ApiError::Deserialization));
}

#[test]
fn deserialize_login_largest_expiry_is_kept() {
    let json = r#"{"access_token": "a", "refresh_token": "r",
                   "expires_at": 18446744073709551615}"#;
    let login = parse_login(json).unwrap();
    assert_eq!(login.expires_at, u64::MAX);
}

#[test]
fn deserialize_login_empty_body_fails() {
    assert_eq!(parse_login(""), Err(ApiError::Deserialization));
    assert_eq!(parse_login("{}"), Err(ApiError::Deserialization));
}

#[test]
fn token_response_ok_yields_login() {
    let json = r#"{"access_token": "a", "refresh_token": "r", "expires_at": 9}"#;
    let login = interpret_token_response(200, json).unwrap();
    assert_eq!(login.access_token.0, "a");
    assert_eq!(login.refresh_token.0, "r");
    assert_eq!(login.expires_at, 9);
}

#[test]
fn token_response_unauthorized_is_transport_error() {
    let json = r#"{"access_token": "a", "refresh_token": "r", "expires_at": 9}"#;
    assert_eq!(interpret_token_response(401, json), Err(ApiError::Transport));
    assert_eq!(interpret_token_response(500, json), Err(ApiError::Transport));
}

#[test]
fn token_response_bad_body_is_deserialization_error() {
    assert_eq!(
        interpret_token_response(200, "not json"),
        Err(ApiError::Deserialization)
    );
}
