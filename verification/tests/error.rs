use auth_core::config::{Config, DEFAULT_PORT};
use auth_core::error::{rejection, ErrorMessage, HttpError};
use auth_core::mail::render_template;
use auth_core::text::{decimal, same_text};

#[test]
fn every_message_has_its_text() {
    assert_eq!(ErrorMessage::EmptyPassword.to_str(), "Password is required");
    assert_eq!(
        ErrorMessage::ExceededMaxPasswordLength(64).to_str(),
        "Passwrd must be at most 64 characters"
    );
    assert_eq!(
        ErrorMessage::ExceededMaxPasswordLength(0).to_str(),
        "Passwrd must be at most 0 characters"
    );
    assert_eq!(ErrorMessage::InvalidHashFormat.to_str(), "Invalid password hash format");
    assert_eq!(ErrorMessage::HashingError.to_str(), "Error while hashing password");
    assert_eq!(ErrorMessage::InvalidToken.to_str(), "Invalid token");
    assert_eq!(ErrorMessage::TokenExpired.to_str(), "Verification token has expired");
    assert_eq!(ErrorMessage::ServerError.to_str(), "Iternal server error");
    assert_eq!(ErrorMessage::WrongCredential.to_str(), "Wrong credentials");
    assert_eq!(ErrorMessage::EmailExist.to_str(), "Email already exists");
    assert_eq!(ErrorMessage::UserNoLongerExist.to_str(), "User no longer exists");
    assert_eq!(ErrorMessage::TokenNotProvided.to_str(), "Token not provided");
    assert_eq!(ErrorMessage::PermissionDenied.to_str(), "Permission denied");
    assert_eq!(ErrorMessage::UserNotAuthenticated.to_str(), "User not authenticated");
    assert_eq!(ErrorMessage::UserNotVerified.to_str(), "User not verified");
}

#[test]
fn to_string_is_to_str() {
    assert_eq!(ErrorMessage::WrongCredential.to_string(), "Wrong credentials");
    assert_eq!(
        ErrorMessage::ExceededMaxPasswordLength(usize::MAX).to_string(),
        format!("Passwrd must be at most {} characters", usize::MAX)
    );
}

#[test]
fn http_errors_carry_their_status() {
    assert_eq!(HttpError::new("m".to_string(), 418), HttpError { message: "m".to_string(), status: 418 });
    assert_eq!(HttpError::server_error("m".to_string()).status, 500);
    assert_eq!(HttpError::bad_request("m".to_string()).status, 400);
    assert_eq!(HttpError::unique_constraint_violation("m".to_string()).status, 409);
    assert_eq!(HttpError::unauthorized("m".to_string()).status, 401);
    assert_eq!(HttpError::bad_request("m".to_string()).message, "m");
    assert_eq!(
        HttpError::of(ErrorMessage::EmailExist, 409),
        HttpError { message: "Email already exists".to_string(), status: 409 }
    );
}

#[test]
fn http_response_body_says_fail() {
    let (status, body) = HttpError::unauthorized("Token not provided".to_string()).into_http_response();
    assert_eq!(status, 401);
    assert_eq!(body.status, "fail");
    assert_eq!(body.message, "Token not provided");
}

#[test]
fn rejections_tell_identity_from_permission() {
    assert_eq!(rejection(ErrorMessage::TokenNotProvided).status, 401);
    assert_eq!(rejection(ErrorMessage::InvalidToken).status, 401);
    assert_eq!(rejection(ErrorMessage::UserNoLongerExist).status, 401);
    assert_eq!(rejection(ErrorMessage::PermissionDenied).status, 403);
    assert_eq!(rejection(ErrorMessage::PermissionDenied).message, "Permission denied");
}

#[test]
fn decimal_writes_numbers() {
    assert_eq!(decimal(0), "0");
    assert_eq!(decimal(7), "7");
    assert_eq!(decimal(10), "10");
    assert_eq!(decimal(1234567890), "1234567890");
    assert_eq!(decimal(u64::MAX), "18446744073709551615");
}

#[test]
fn same_text_compares() {
    assert!(same_text("abc", "abc"));
    assert!(!same_text("abc", "abd"));
    assert!(!same_text("abc", "ab"));
    assert!(same_text("", ""));
}

#[test]
fn template_placeholders_are_filled_in_order() {
    let placeholders = vec![
        ("{{name}}".to_string(), "Ann".to_string()),
        ("{{link}}".to_string(), "http://x/{{name}}".to_string()),
    ];
    assert_eq!(
        render_template("Hi {{name}}, go to {{link}}. Bye {{name}}", &placeholders),
        "Hi Ann, go to http://x/{{name}}. Bye Ann"
    );
    assert_eq!(render_template("Hi {{name}}", &vec![]), "Hi {{name}}");
    let chained = vec![("a".to_string(), "b".to_string()), ("b".to_string(), "c".to_string())];
    assert_eq!(render_template("aab", &chained), "ccc");
}

#[test]
fn replacing_does_not_overlap_and_takes_the_empty_key() {
    assert_eq!(render_template("aaa", &vec![("aa".to_string(), "b".to_string())]), "ba");
    assert_eq!(render_template("abc", &vec![("".to_string(), "-".to_string())]), "-a-b-c-");
    assert_eq!(render_template("", &vec![("".to_string(), "-".to_string())]), "-");
    assert_eq!(render_template("ab", &vec![("abc".to_string(), "x".to_string())]), "ab");
}

#[test]
fn config_from_settings() {
    let c = Config::from_settings("db".to_string(), "secret".to_string(), 60);
    assert_eq!(c.database_url, "db");
    assert_eq!(c.jwt_secret, "secret");
    assert_eq!(c.jwt_maxage, 60);
    assert_eq!(c.port, 8000);
    assert_eq!(DEFAULT_PORT, 8000);
    assert_eq!(c.session_validity(), Some(216_000));
    let c = Config::from_settings("db".to_string(), "secret".to_string(), i64::MAX / 3600 + 1);
    assert_eq!(c.session_validity(), None);
    let c = Config::from_settings("db".to_string(), "secret".to_string(), -1);
    assert_eq!(c.session_validity(), Some(-3600));
}

#[test]
fn parse_i64_reads_what_the_standard_parser_reads() {
    let samples = [
        "0", "7", "60", "+60", "-60", "007", "-0", "+0", "9223372036854775807",
        "9223372036854775808", "-9223372036854775808", "-9223372036854775809",
        "99999999999999999999", "", "+", "-", " 60", "60 ", "6 0", "1_000", "0x10", "--1", "+-1",
        "12a", "a12", "1.5", "\u{0661}\u{0662}", "\u{20ac}", "000000000000000000000000001",
    ];
    for text in samples {
        assert_eq!(auth_core::text::parse_i64(text), text.parse::<i64>().ok(), "{:?}", text);
    }
    assert_eq!(auth_core::text::parse_i64("-9223372036854775808"), Some(i64::MIN));
    assert_eq!(auth_core::text::parse_i64("60"), Some(60));
}

#[test]
fn config_from_vars_needs_a_number() {
    let c = Config::from_vars("db".to_string(), "secret".to_string(), "60").unwrap();
    assert_eq!(c.jwt_maxage, 60);
    assert_eq!(c.port, 8000);
    assert_eq!(c.database_url, "db");
    assert_eq!(c.jwt_secret, "secret");
    assert!(Config::from_vars("db".to_string(), "secret".to_string(), "sixty").is_none());
    assert!(Config::from_vars("db".to_string(), "secret".to_string(), "").is_none());
}
