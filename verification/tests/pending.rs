use auth_core::clock::CLOCK_LIMIT;
use auth_core::error::ErrorMessage;
use auth_core::models::{User, UserRole};
use auth_core::pending::{consume, consume_at, issue, issue_at, TokenKind, TOKEN_WINDOW_SECONDS};

fn pending_user(token: &str, expires_at: i64) -> User {
    User::registered(
        7,
        "U".to_string(),
        "a@x.com".to_string(),
        "hash".to_string(),
        token.to_string(),
        expires_at,
    )
}

#[test]
fn window_is_a_day() {
    assert_eq!(TOKEN_WINDOW_SECONDS, 24 * 60 * 60);
}

#[test]
fn issue_at_expires_a_day_later() {
    let t = issue_at(TokenKind::Reset, "abc".to_string(), 1_700_000_000).unwrap();
    assert_eq!(t.kind, TokenKind::Reset);
    assert_eq!(t.token, "abc");
    assert_eq!(t.expires_at, 1_700_086_400);
}

#[test]
fn issue_at_fails_where_the_expiry_does_not_fit() {
    assert_eq!(
        issue_at(TokenKind::Verification, "abc".to_string(), i64::MAX - 86_399).err(),
        Some(ErrorMessage::ServerError)
    );
    assert!(issue_at(TokenKind::Verification, "abc".to_string(), i64::MAX - 86_400).is_ok());
}

#[test]
fn issue_gives_a_fresh_random_token() {
    let first = issue(TokenKind::Verification);
    let second = issue(TokenKind::Reset);
    assert_eq!(first.kind, TokenKind::Verification);
    assert_eq!(second.kind, TokenKind::Reset);
    assert_eq!(first.token.len(), 36);
    assert_eq!(second.token.len(), 36);
    assert_ne!(first.token, second.token);
    assert!(uuid::Uuid::parse_str(&first.token).is_ok());
    assert!(first.expires_at >= 1_700_000_000 + TOKEN_WINDOW_SECONDS);
    assert!(first.expires_at < CLOCK_LIMIT + TOKEN_WINDOW_SECONDS);
}

#[test]
fn consume_succeeds_exactly_once() {
    let user = pending_user("T1", 2000);
    let mut consumed = consume_at(Some(user), "T1", 1000).unwrap();
    assert_eq!(consumed.id, 7);
    consumed.mark_verified();
    assert!(consumed.verified);
    assert_eq!(consumed.verification_token, None);
    assert_eq!(consumed.token_expires_at, None);
    assert!(!consumed.holds_token("T1"));
    assert_eq!(consume_at(Some(consumed), "T1", 1000).err(), Some(ErrorMessage::InvalidToken));
    assert_eq!(consume_at(None, "T1", 1000).err(), Some(ErrorMessage::InvalidToken));
}

#[test]
fn consume_after_expiry_is_token_expired() {
    let user = pending_user("T1", 2000);
    assert!(user.holds_token("T1"));
    assert_eq!(consume_at(Some(user), "T1", 2001).err(), Some(ErrorMessage::TokenExpired));
}

#[test]
fn consume_at_the_expiry_still_succeeds() {
    let user = pending_user("T1", 2000);
    assert!(consume_at(Some(user), "T1", 2000).is_ok());
}

#[test]
fn consume_with_another_token_is_invalid() {
    let user = pending_user("T1", 2000);
    assert_eq!(consume_at(Some(user), "T2", 1000).err(), Some(ErrorMessage::InvalidToken));
    let user = pending_user("T1", 2000);
    assert_eq!(consume_at(Some(user), "", 1000).err(), Some(ErrorMessage::InvalidToken));
}

#[test]
fn consume_without_expiry_is_invalid() {
    let mut user = pending_user("T1", 2000);
    user.token_expires_at = None;
    assert!(!user.holds_token("T1"));
    assert_eq!(consume_at(Some(user), "T1", 1000).err(), Some(ErrorMessage::InvalidToken));
}

#[test]
fn consume_now_reads_the_clock() {
    let user = pending_user("T1", i64::MAX);
    assert!(consume(Some(user), "T1").is_ok());
    let user = pending_user("T1", 1);
    assert_eq!(consume(Some(user), "T1").err(), Some(ErrorMessage::TokenExpired));
}

#[test]
fn new_token_replaces_the_pending_one() {
    let mut user = pending_user("T1", 2000);
    user.set_pending_token("T2".to_string(), 3000);
    assert!(user.holds_token("T2"));
    assert!(!user.holds_token("T1"));
    assert_eq!(user.token_expires_at, Some(3000));
    assert_eq!(consume_at(Some(user), "T1", 1000).err(), Some(ErrorMessage::InvalidToken));
}

#[test]
fn replace_password_empties_the_slot() {
    let mut user = pending_user("T1", 2000);
    user.replace_password("new-hash".to_string());
    assert_eq!(user.password, "new-hash");
    assert_eq!(user.verification_token, None);
    assert_eq!(user.token_expires_at, None);
    assert!(!user.verified);
}

#[test]
fn registered_user_is_pending_and_ordinary() {
    let user = pending_user("T1", 2000);
    assert!(!user.verified);
    assert_eq!(user.role, UserRole::User);
    assert_eq!(user.email, "a@x.com");
    assert_eq!(user.verification_token.as_deref(), Some("T1"));
    assert_eq!(user.token_expires_at, Some(2000));
}

#[test]
fn defaults_and_clone() {
    let user = User::default();
    assert_eq!(user.id, 0);
    assert_eq!(user.role, UserRole::User);
    assert_eq!(UserRole::default(), UserRole::User);
    let user = pending_user("T1", 2000);
    let copy = user.clone();
    assert_eq!(copy.token_expires_at, Some(2000));
    assert_eq!(copy.id, user.id);
    assert_eq!(copy.email, user.email);
    assert_eq!(copy.verification_token, user.verification_token);
}

#[test]
fn role_names() {
    assert_eq!(UserRole::Admin.to_str(), "admin");
    assert_eq!(UserRole::User.to_str(), "user");
}
