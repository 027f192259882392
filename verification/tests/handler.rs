use auth_core::config::Config;
use auth_core::cookie::{logout_cookie, session_cookie};
use auth_core::error::{ErrorMessage, HttpError};
use auth_core::guard::{authenticate, authenticate_at};
use auth_core::handler::auth::{
    check_login, forgot_password, forgot_password_at, login, login_at, logout, open_session,
    open_session_at, password_reset_done, register, register_at, registered, reset_link_sent,
    reset_password, reset_password_at, verification_link, verify_email, verify_email_at,
    SaveOutcome,
};
use auth_core::models::{User, UserRole};
use auth_core::password::{compare, hash};

const KEY: &[u8] = b"my-signing-secret";
const ID: u128 = 0x67e5504410b1426f9247bb680e5fe0c8;

fn config(maxage: i64) -> Config {
    Config::from_settings("postgres://db".to_string(), "my-signing-secret".to_string(), maxage)
}

fn verified_user(password: &str) -> User {
    let mut u = User::registered(
        ID,
        "U".to_string(),
        "a@x.com".to_string(),
        hash(password).unwrap(),
        "T0".to_string(),
        0,
    );
    u.mark_verified();
    u
}

fn pending_user(token: &str, expires_at: i64) -> User {
    User::registered(
        ID,
        "U".to_string(),
        "a@x.com".to_string(),
        hash("Secret123").unwrap(),
        token.to_string(),
        expires_at,
    )
}

fn failure<T>(r: Result<T, HttpError>) -> (String, u16) {
    match r {
        Ok(_) => panic!("expected a failure"),
        Err(e) => (e.message, e.status),
    }
}

#[test]
fn register_verify_then_token_is_spent() {
    let now = 1_700_000_000;
    let reg = register_at("Secret123", "T1".to_string(), now).unwrap();
    assert_eq!(reg.verification_token, "T1");
    assert_eq!(reg.token_expires_at, now + 24 * 3600);
    assert_eq!(compare("Secret123", &reg.password_hash), Ok(true));
    assert_eq!(registered(SaveOutcome::Saved).unwrap().status, 201);

    let stored = User::registered(
        ID,
        "U".to_string(),
        "a@x.com".to_string(),
        reg.password_hash,
        reg.verification_token,
        reg.token_expires_at,
    );
    assert!(!stored.verified);
    let verified = verify_email_at(Some(stored), "T1", now + 10).unwrap();
    assert!(verified.verified);
    assert_eq!(verified.verification_token, None);
    assert_eq!(verified.token_expires_at, None);

    // the slot is empty, so the lookup by token finds nobody
    assert!(!verified.holds_token("T1"));
    assert_eq!(failure(verify_email_at(None, "T1", now + 20)), ("Invalid token".to_string(), 400));
    assert_eq!(
        failure(verify_email_at(Some(verified), "T1", now + 20)),
        ("Invalid verification token".to_string(), 400)
    );
}

#[test]
fn registration_at_a_given_time_with_a_given_token() {
    // 2026-01-01T00:00:00Z
    let now = 1_767_225_600;
    let reg = register_at("Secret123", "T1".to_string(), now).unwrap();
    assert_eq!(reg.verification_token, "T1");
    // 2026-01-02T00:00:00Z
    assert_eq!(reg.token_expires_at, 1_767_312_000);
    assert_ne!(reg.password_hash, "Secret123");
    assert_eq!(compare("Secret123", &reg.password_hash), Ok(true));
    let created = registered(SaveOutcome::Saved).unwrap();
    assert_eq!(created.status, 201);
}

#[test]
fn reset_leaves_an_unverified_user_unverified() {
    let user = pending_user("R1", 2000);
    let id = user.id;
    let updated = reset_password_at(Some(user), "R1", "NewSecret1", 2000).unwrap();
    assert!(!updated.verified);
    assert_eq!(updated.id, id);
    assert_eq!(updated.email, "a@x.com");
    assert_eq!(updated.name, "U");
    assert_eq!(updated.role, UserRole::User);
    assert_ne!(updated.password, "NewSecret1");
    assert_eq!(compare("NewSecret1", &updated.password), Ok(true));
    assert_eq!(updated.verification_token, None);
    assert_eq!(updated.token_expires_at, None);
}

#[test]
fn register_rejects_passwords_against_the_policy() {
    assert_eq!(
        failure(register_at("", "T1".to_string(), 0)),
        ("Password is required".to_string(), 400)
    );
    let long = "a".repeat(65);
    assert_eq!(
        failure(register_at(&long, "T1".to_string(), 0)),
        ("Passwrd must be at most 64 characters".to_string(), 400)
    );
}

#[test]
fn register_fails_where_the_expiry_does_not_fit() {
    assert_eq!(
        failure(register_at("Secret123", "T1".to_string(), i64::MAX)),
        ("Iternal server error".to_string(), 500)
    );
}

#[test]
fn register_now_draws_a_token() {
    let first = register("Secret123").unwrap();
    let second = register("Secret123").unwrap();
    assert_eq!(first.verification_token.len(), 36);
    assert_ne!(first.verification_token, second.verification_token);
    assert!(first.token_expires_at > 1_700_000_000);
}

#[test]
fn registered_answers_each_store_outcome() {
    let ok = registered(SaveOutcome::Saved).unwrap();
    assert_eq!(ok.status, 201);
    assert_eq!(
        ok.message,
        "Registration successful! Please check your email to verify your account"
    );
    assert_eq!(
        failure(registered(SaveOutcome::DuplicateEmail)),
        ("Email already exists".to_string(), 409)
    );
    assert_eq!(
        failure(registered(SaveOutcome::Failed)),
        ("Iternal server error".to_string(), 500)
    );
}

#[test]
fn login_of_unverified_user_fails_though_the_password_matches() {
    let user = pending_user("T1", 2000);
    assert_eq!(compare("Secret123", &user.password), Ok(true));
    assert_eq!(
        failure(login_at(Some(user), "Secret123", KEY, 3600, 1000)),
        ("User not verified".to_string(), 401)
    );
}

#[test]
fn wrong_password_on_unverified_account_answers_as_unknown_email() {
    let unknown = failure(login_at(None, "Secret124", KEY, 3600, 1000));
    let unverified = failure(login_at(Some(pending_user("T1", 2000)), "Secret124", KEY, 3600, 1000));
    assert_eq!(unknown, ("Wrong credentials".to_string(), 400));
    assert_eq!(unverified, unknown);
    assert_eq!(
        failure(check_login(Some(pending_user("T1", 2000)), "")),
        ("Wrong credentials".to_string(), 400)
    );
    assert_eq!(
        failure(check_login(Some(pending_user("T1", 2000)), "Secret123")),
        ("User not verified".to_string(), 401)
    );
}

#[test]
fn login_with_the_stored_password_is_never_a_server_error() {
    for secret in ["a", "Secret123", "\u{20ac}uro pass", &"z".repeat(64)] {
        let first = login_at(Some(verified_user(secret)), secret, KEY, 3600, 1000).unwrap();
        let second = login_at(Some(verified_user(secret)), secret, KEY, 3600, 1000).unwrap();
        // signing draws nothing at random: the same claims give the same token
        assert_eq!(first.token, second.token);
        assert_eq!(authenticate_at(Some(&first.token), KEY, 1000), Ok(ID));
    }
}

#[test]
fn verification_link_carries_the_token() {
    assert_eq!(verification_link("T1"), "http://localhost:8000/api/auth/verify?token=T1");
    assert_eq!(verification_link(""), "http://localhost:8000/api/auth/verify?token=");
}

#[test]
fn login_opens_a_session_the_guard_accepts() {
    let session = login_at(Some(verified_user("Secret123")), "Secret123", KEY, 3600, 1000).unwrap();
    assert_eq!(
        session.cookie,
        format!("token={}; HttpOnly; Path=/; Max-Age=3600", session.token)
    );
    assert_eq!(authenticate_at(Some(&session.token), KEY, 1000), Ok(ID));
    assert_eq!(authenticate_at(Some(&session.token), KEY, 4600), Ok(ID));
    assert_eq!(authenticate_at(Some(&session.token), KEY, 4601), Err(ErrorMessage::InvalidToken));
}

#[test]
fn login_failures_do_not_tell_email_from_password() {
    let unknown = failure(login_at(None, "Secret123", KEY, 3600, 1000));
    let wrong = failure(login_at(Some(verified_user("Secret123")), "Secret124", KEY, 3600, 1000));
    assert_eq!(unknown, ("Wrong credentials".to_string(), 400));
    assert_eq!(wrong, unknown);
    let mut broken = verified_user("Secret123");
    broken.password = "not a hash".to_string();
    assert_eq!(failure(login_at(Some(broken), "Secret123", KEY, 3600, 1000)), unknown);
}

#[test]
fn check_login_returns_the_record() {
    let user = check_login(Some(verified_user("Secret123")), "Secret123").unwrap();
    assert_eq!(user.id, ID);
    assert_eq!(user.role, UserRole::User);
}

#[test]
fn login_under_a_configuration() {
    let session = login(Some(verified_user("Secret123")), "Secret123", &config(1)).unwrap();
    assert!(session.cookie.ends_with("; HttpOnly; Path=/; Max-Age=3600"));
    assert_eq!(authenticate(Some(&session.token), KEY), Ok(ID));
    assert_eq!(
        failure(login(Some(verified_user("Secret123")), "Secret123", &config(i64::MAX))),
        ("Iternal server error".to_string(), 500)
    );
}

#[test]
fn open_session_signs_the_id_text() {
    let user = verified_user("Secret123");
    let session = open_session_at(&user, KEY, 60, 1000).unwrap();
    assert_eq!(
        auth_core::token::decode_token_at(&session.token, KEY, 1000),
        Ok("67e55044-10b1-426f-9247-bb680e5fe0c8".to_string())
    );
    assert_eq!(
        failure(open_session_at(&user, KEY, 1, i64::MAX)),
        ("Iternal server error".to_string(), 500)
    );
    let session = open_session(&user, &config(2)).unwrap();
    assert!(session.cookie.ends_with("Max-Age=7200"));
}

#[test]
fn verify_email_names_each_failure() {
    assert_eq!(failure(verify_email_at(None, "T1", 0)), ("Invalid token".to_string(), 400));
    assert_eq!(
        failure(verify_email_at(Some(pending_user("T1", 2000)), "T1", 2001)),
        ("Verification token has expired".to_string(), 400)
    );
    let mut no_expiry = pending_user("T1", 2000);
    no_expiry.token_expires_at = None;
    assert_eq!(
        failure(verify_email_at(Some(no_expiry), "T1", 0)),
        ("Invalid verification token".to_string(), 400)
    );
    assert!(verify_email(Some(pending_user("T1", i64::MAX)), "T1").unwrap().verified);
    assert_eq!(
        failure(verify_email(Some(pending_user("T1", 1)), "T1")),
        ("Verification token has expired".to_string(), 400)
    );
}

#[test]
fn forgot_password_puts_a_reset_token_in_the_slot() {
    let request =
        forgot_password_at(Some(verified_user("Secret123")), "R1".to_string(), 1000).unwrap();
    assert_eq!(request.link, "http://localhost:5173/reset-password?token=R1");
    assert_eq!(request.user.verification_token.as_deref(), Some("R1"));
    assert_eq!(request.user.token_expires_at, Some(1000 + 86_400));
    assert!(request.user.verified);
    assert_eq!(
        failure(forgot_password_at(None, "R1".to_string(), 1000)),
        ("Email not found!".to_string(), 400)
    );
    assert_eq!(
        failure(forgot_password_at(Some(verified_user("Secret123")), "R1".to_string(), i64::MAX)),
        ("Iternal server error".to_string(), 500)
    );
    let sent = reset_link_sent();
    assert_eq!(sent.status, 200);
    assert_eq!(sent.message, "Password reset link has been sent to your email!");
}

#[test]
fn forgot_password_overwrites_a_pending_verification() {
    let request = forgot_password_at(Some(pending_user("T1", 2000)), "R1".to_string(), 1000).unwrap();
    assert!(!request.user.holds_token("T1"));
    assert!(request.user.holds_token("R1"));
    let fresh = forgot_password(Some(verified_user("Secret123"))).unwrap();
    let token = fresh.user.verification_token.clone().unwrap();
    assert_eq!(token.len(), 36);
    assert_eq!(fresh.link, format!("http://localhost:5173/reset-password?token={}", token));
}

#[test]
fn reset_password_replaces_the_hash_and_spends_the_token() {
    let request =
        forgot_password_at(Some(verified_user("Secret123")), "R1".to_string(), 1000).unwrap();
    let updated = reset_password_at(Some(request.user), "R1", "NewSecret1", 2000).unwrap();
    assert_eq!(compare("NewSecret1", &updated.password), Ok(true));
    assert_eq!(compare("Secret123", &updated.password), Ok(false));
    assert_eq!(updated.verification_token, None);
    assert_eq!(updated.token_expires_at, None);
    assert_eq!(
        failure(reset_password_at(Some(updated), "R1", "Again12345", 2000)),
        ("Invalid verification token".to_string(), 400)
    );
    let done = password_reset_done();
    assert_eq!(done.status, 200);
    assert_eq!(done.message, "Password has been successfully reset!");
}

#[test]
fn reset_password_names_each_failure() {
    assert_eq!(
        failure(reset_password_at(None, "R1", "NewSecret1", 0)),
        ("Invalid or expired token".to_string(), 400)
    );
    assert_eq!(
        failure(reset_password_at(Some(pending_user("R1", 2000)), "R1", "NewSecret1", 2001)),
        ("Verification token has expired".to_string(), 400)
    );
    assert_eq!(
        failure(reset_password_at(Some(pending_user("R1", 2000)), "R1", "", 1000)),
        ("Password is required".to_string(), 400)
    );
    assert_eq!(
        failure(reset_password(Some(pending_user("R1", 1)), "R1", "NewSecret1")),
        ("Verification token has expired".to_string(), 400)
    );
    assert!(reset_password(Some(pending_user("R1", i64::MAX)), "R1", "NewSecret1").is_ok());
}

#[test]
fn logout_asks_the_client_to_drop_the_cookie() {
    assert_eq!(logout(), "token=; HttpOnly; Path=/; Max-Age=-60");
    assert_eq!(logout_cookie(), "token=; HttpOnly; Path=/; Max-Age=-60");
}

#[test]
fn logout_does_not_end_the_token() {
    let session = login_at(Some(verified_user("Secret123")), "Secret123", KEY, 3600, 1000).unwrap();
    let _ = logout();
    assert_eq!(authenticate_at(Some(&session.token), KEY, 1001), Ok(ID));
}

#[test]
fn session_cookie_text() {
    assert_eq!(session_cookie("abc", 3600), "token=abc; HttpOnly; Path=/; Max-Age=3600");
    assert_eq!(session_cookie("abc", 0), "token=abc; HttpOnly; Path=/; Max-Age=0");
    assert_eq!(session_cookie("", -7), "token=; HttpOnly; Path=/; Max-Age=-7");
}
