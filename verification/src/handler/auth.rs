//! The decisions of the authentication requests. The store and the mailer
//! are outside: each function takes what the store returned and gives back
//! what is to be stored and answered.

use vstd::prelude::*;
use vstd::string::*;
use vstd::utf8::encode_utf8;
use crate::clock::{clock_reading, unix_now, CLOCK_LIMIT};
use crate::config::{validity_of, Config};
use crate::cookie::{logout_cookie, logout_cookie_text, session_cookie, session_cookie_text};
use crate::guard::authenticated;
use crate::error::{
    ErrorMessage, HttpError, HttpErrorView, BAD_REQUEST, CONFLICT, INTERNAL_SERVER_ERROR,
    UNAUTHORIZED,
};
use crate::ids::{lemma_uuid_text_len, uuid_parsed, uuid_text, uuid_to_text};
use crate::models::{User, UserView};
use crate::password::{check_policy, compare, compare_spec, hash, hash_of, policy_error};
use crate::pending::{
    consume_at, consume_spec, issue, issue_at, issued_from, view_of, window_fits, EphemeralToken,
    TokenKind, TOKEN_WINDOW_SECONDS,
};
use crate::token::{claims_at, create_token_at, expiry_fits, issued, jwt_claims};

verus! {

/// 200 OK.
pub const OK: u16 = 200;

/// 201 Created.
pub const CREATED: u16 = 201;

/// A successful answer: its HTTP status and its message.
#[derive(Debug, PartialEq, Eq)]
pub struct Success {
    pub status: u16,
    pub message: String,
}

/// A session that was opened: the token, and the `Set-Cookie` header value
/// that carries it.
#[derive(Debug, PartialEq, Eq)]
pub struct Session {
    pub token: String,
    pub cookie: String,
}

/// What the store said when it was asked to create a user.
#[derive(Debug, Clone, Copy, PartialEq, Eq, Structural)]
pub enum SaveOutcome {
    Saved,
    DuplicateEmail,
    Failed,
}

/// What registration hands to the store, beside name and email.
#[derive(Debug, PartialEq, Eq)]
pub struct Registration {
    pub password_hash: String,
    pub verification_token: String,
    pub token_expires_at: i64,
}

pub open spec fn registered_message() -> Seq<char> {
    "Registration successful! Please check your email to verify your account"@
}

pub open spec fn email_not_found_message() -> Seq<char> {
    "Email not found!"@
}

pub open spec fn invalid_verification_message() -> Seq<char> {
    "Invalid verification token"@
}

pub open spec fn invalid_or_expired_message() -> Seq<char> {
    "Invalid or expired token"@
}

pub open spec fn verification_link_prefix() -> Seq<char> {
    "http://localhost:8000/api/auth/verify?token="@
}

pub open spec fn reset_link_prefix() -> Seq<char> {
    "http://localhost:5173/reset-password?token="@
}

pub open spec fn reset_done_message() -> Seq<char> {
    "Password has been successfully reset!"@
}

pub open spec fn reset_sent_message() -> Seq<char> {
    "Password reset link has been sent to your email!"@
}

/// The status a failure to hash is answered with: a password against the
/// policy is the client's error, a failure of the primitive the server's.
pub open spec fn hash_failure_status(reason: ErrorMessage) -> u16 {
    if reason == ErrorMessage::HashingError {
        INTERNAL_SERVER_ERROR
    } else {
        BAD_REQUEST
    }
}

/// The failure of a result, as a mathematical value.
pub open spec fn failure_of<T>(r: Result<T, HttpError>) -> Option<HttpErrorView> {
    match r {
        Ok(_) => None,
        Err(e) => Some(e@),
    }
}

fn hash_failure(reason: ErrorMessage) -> (r: HttpError)
    ensures
        r@ == HttpErrorView::of(reason, hash_failure_status(reason)),
{
    if reason == ErrorMessage::HashingError {
        HttpError::of(reason, INTERNAL_SERVER_ERROR)
    } else {
        HttpError::of(reason, BAD_REQUEST)
    }
}

/// What `register_at` returns: the policy error as a bad request; a server
/// error where the token's expiry cannot be held; else the registration,
/// with the token, its expiry after 24 hours and a hash made from the
/// password.
pub open spec fn register_outcome(
    password: Seq<char>,
    token: Seq<char>,
    now: i64,
    r: Result<Registration, HttpError>,
) -> bool {
    match policy_error(password) {
        Some(reason) => failure_of(r) == Some(HttpErrorView::of(reason, BAD_REQUEST)),
        None => if !window_fits(now) {
            failure_of(r) == Some(
                HttpErrorView::of(ErrorMessage::ServerError, INTERNAL_SERVER_ERROR),
            )
        } else {
            r matches Ok(reg) && reg.verification_token@ == token && reg.token_expires_at == now
                + TOKEN_WINDOW_SECONDS && hash_of(password, reg.password_hash@)
        },
    }
}

fn complete_registration(password: &str, pending: EphemeralToken) -> (r: Result<
    Registration,
    HttpError,
>)
    requires
        policy_error(password@) is None,
    ensures
        r matches Ok(reg) && reg.verification_token == pending.token && reg.token_expires_at
            == pending.expires_at && hash_of(password@, reg.password_hash@),
{
    match hash(password) {
        Ok(password_hash) => Ok(
            Registration {
                password_hash,
                verification_token: pending.token,
                token_expires_at: pending.expires_at,
            },
        ),
        Err(reason) => Err(hash_failure(reason)),
    }
}

/// Prepares a registration at the time `now`, with `token` as the text of
/// the verification token: the token is issued for 24 hours and the password
/// is hashed.
pub fn register_at(password: &str, token: String, now: i64) -> (r: Result<Registration, HttpError>)
    ensures
        register_outcome(password@, token@, now, r),
{
    match check_policy(password) {
        Err(reason) => {
            return Err(HttpError::of(reason, BAD_REQUEST));
        },
        Ok(()) => {},
    }
    match issue_at(TokenKind::Verification, token, now) {
        Ok(pending) => complete_registration(password, pending),
        Err(_) => Err(HttpError::of(ErrorMessage::ServerError, INTERNAL_SERVER_ERROR)),
    }
}

/// Prepares a registration at the present time, with a freshly issued
/// verification token.
pub fn register(password: &str) -> (r: Result<Registration, HttpError>)
    ensures
        exists|token: Seq<char>, now: i64|
            clock_reading(now) && token.len() == 36 && #[trigger] register_outcome(
                password@,
                token,
                now,
                r,
            ),
{
    match check_policy(password) {
        Err(reason) => {
            let r = Err(HttpError::of(reason, BAD_REQUEST));
            proof {
                lemma_uuid_text_len(0);
                assert(register_outcome(password@, uuid_text(0), 0, r));
            }
            return r;
        },
        Ok(()) => {},
    }
    let pending = issue(TokenKind::Verification);
    let ghost text = pending.token@;
    let r = complete_registration(password, pending);
    proof {
        let (id, now) = choose|id: u128, now: i64|
            clock_reading(now) && #[trigger] issued_from(pending, id, now);
        assert(register_outcome(password@, text, now, r));
    }
    r
}

/// The link that the verification mail carries.
pub fn verification_link(token: &str) -> (r: String)
    ensures
        r@ == verification_link_prefix() + token@,
{
    let mut link = String::from_str("http://localhost:8000/api/auth/verify?token=");
    link.append(token);
    link
}

/// The answer to a registration, once the store was asked to create the
/// user: created, or a conflict on the email, or a server error that shows
/// nothing of the store's words.
pub fn registered(outcome: SaveOutcome) -> (r: Result<Success, HttpError>)
    ensures
        match outcome {
            SaveOutcome::Saved => r matches Ok(s) && s.status == CREATED && s.message@
                == registered_message(),
            SaveOutcome::DuplicateEmail => failure_of(r) == Some(
                HttpErrorView::of(ErrorMessage::EmailExist, CONFLICT),
            ),
            SaveOutcome::Failed => failure_of(r) == Some(
                HttpErrorView::of(ErrorMessage::ServerError, INTERNAL_SERVER_ERROR),
            ),
        },
{
    match outcome {
        SaveOutcome::Saved => Ok(
            Success {
                status: CREATED,
                message: String::from_str(
                    "Registration successful! Please check your email to verify your account",
                ),
            },
        ),
        SaveOutcome::DuplicateEmail => Err(HttpError::of(ErrorMessage::EmailExist, CONFLICT)),
        SaveOutcome::Failed => Err(HttpError::of(ErrorMessage::ServerError, INTERNAL_SERVER_ERROR)),
    }
}

/// What opening a session for the user `id` at `now` returns. Where the
/// token is issued, the session holds it, in a cookie whose max-age is the
/// validity; its subject is the id's text, which reads back as the id. Where
/// it is not, the answer is a server error.
pub open spec fn session_outcome(
    id: u128,
    secret: Seq<u8>,
    validity: i64,
    now: i64,
    r: Result<Session, HttpError>,
) -> bool {
    match issued(uuid_text(id), secret, validity, now) {
        Ok(token) => {
            &&& r matches Ok(s)
            &&& s.token@ == token
            &&& s.cookie@ == session_cookie_text(token, validity)
            &&& jwt_claims(token, secret) == Some(claims_at(uuid_text(id), now, validity))
            &&& uuid_parsed(uuid_text(id)) == Some(id)
        },
        Err(_) => failure_of(r) == Some(
            HttpErrorView::of(ErrorMessage::ServerError, INTERNAL_SERVER_ERROR),
        ),
    }
}

/// Opens a session for a user at the time `now`.
pub fn open_session_at(user: &User, secret: &[u8], validity: i64, now: i64) -> (r: Result<
    Session,
    HttpError,
>)
    ensures
        session_outcome(user.id, secret@, validity, now, r),
{
    let subject = uuid_to_text(user.id);
    match create_token_at(subject.as_str(), secret, validity, now) {
        Ok(token) => {
            let cookie = session_cookie(token.as_str(), validity);
            Ok(Session { token, cookie })
        },
        Err(_) => Err(HttpError::of(ErrorMessage::ServerError, INTERNAL_SERVER_ERROR)),
    }
}

/// What a session takes from the configuration: the signing secret's bytes
/// and the validity setting.
pub struct SessionSettings {
    pub secret: Seq<u8>,
    pub jwt_maxage: i64,
}

/// The session settings of a configuration.
pub open spec fn settings(config: &Config) -> SessionSettings {
    SessionSettings { secret: encode_utf8(config.jwt_secret@), jwt_maxage: config.jwt_maxage }
}

/// What `open_session` returns under a configuration: a server error where
/// the validity setting is out of range, else the session opened at some
/// reading of the clock, which is a session whenever the validity leaves
/// room for every reading.
pub open spec fn configured_session(
    id: u128,
    config: SessionSettings,
    r: Result<Session, HttpError>,
) -> bool {
    match validity_of(config.jwt_maxage) {
        Some(validity) => {
            &&& exists|now: i64|
                clock_reading(now) && #[trigger] session_outcome(
                    id,
                    config.secret,
                    validity,
                    now,
                    r,
                )
            &&& validity + CLOCK_LIMIT <= i64::MAX ==> r is Ok
        },
        None => failure_of(r) == Some(
            HttpErrorView::of(ErrorMessage::ServerError, INTERNAL_SERVER_ERROR),
        ),
    }
}

/// Opens a session for a user at the present time, signed with the
/// configured secret and valid for the configured duration.
pub fn open_session(user: &User, config: &Config) -> (r: Result<Session, HttpError>)
    ensures
        configured_session(user.id, settings(config), r),
{
    match config.session_validity() {
        Some(validity) => {
            let now: i64 = unix_now();
            let r = open_session_at(user, config.jwt_secret.as_str().as_bytes(), validity, now);
            assert(session_outcome(user.id, settings(config).secret, validity, now, r));
            r
        },
        None => Err(HttpError::of(ErrorMessage::ServerError, INTERNAL_SERVER_ERROR)),
    }
}

/// Whether a login may go on, given the record found for the email: the
/// record, or the failure. The password is looked at first, so that an
/// unknown email and a wrong password give the same answer whatever the
/// state of the account; only who holds the password learns that the account
/// is not verified.
pub open spec fn login_gate(found: Option<UserView>, password: Seq<char>) -> Result<
    UserView,
    HttpErrorView,
> {
    match found {
        None => Err(HttpErrorView::of(ErrorMessage::WrongCredential, BAD_REQUEST)),
        Some(user) => if compare_spec(password, user.password) != Ok::<bool, ErrorMessage>(true) {
            Err(HttpErrorView::of(ErrorMessage::WrongCredential, BAD_REQUEST))
        } else if !user.verified {
            Err(HttpErrorView::of(ErrorMessage::UserNotVerified, UNAUTHORIZED))
        } else {
            Ok(user)
        },
    }
}

/// Checks a login against the record found for the email.
pub fn check_login(found: Option<User>, password: &str) -> (r: Result<User, HttpError>)
    ensures
        match login_gate(view_of(found), password@) {
            Ok(user) => r matches Ok(u) && u@ == user,
            Err(e) => failure_of(r) == Some(e),
        },
{
    match found {
        None => Err(HttpError::of(ErrorMessage::WrongCredential, BAD_REQUEST)),
        Some(user) => match compare(password, user.password.as_str()) {
            Ok(true) => {
                if user.verified {
                    Ok(user)
                } else {
                    Err(HttpError::of(ErrorMessage::UserNotVerified, UNAUTHORIZED))
                }
            },
            _ => Err(HttpError::of(ErrorMessage::WrongCredential, BAD_REQUEST)),
        },
    }
}

/// What a login at `now` returns: the failure that `login_gate` gives, or
/// the session opened for the record that it lets through.
pub open spec fn login_outcome(
    found: Option<UserView>,
    password: Seq<char>,
    secret: Seq<u8>,
    validity: i64,
    now: i64,
    r: Result<Session, HttpError>,
) -> bool {
    match login_gate(found, password) {
        Ok(user) => session_outcome(user.id, secret, validity, now, r),
        Err(e) => failure_of(r) == Some(e),
    }
}

/// Logs a user in at the time `now`: `found` is the record the store holds
/// for the email.
pub fn login_at(found: Option<User>, password: &str, secret: &[u8], validity: i64, now: i64) -> (r:
    Result<Session, HttpError>)
    ensures
        login_outcome(view_of(found), password@, secret@, validity, now, r),
{
    match check_login(found, password) {
        Ok(user) => open_session_at(&user, secret, validity, now),
        Err(e) => Err(e),
    }
}

/// Logs a user in at the present time, under the configuration.
pub fn login(found: Option<User>, password: &str, config: &Config) -> (r: Result<
    Session,
    HttpError,
>)
    ensures
        match login_gate(view_of(found), password@) {
            Ok(user) => configured_session(user.id, settings(config), r),
            Err(e) => failure_of(r) == Some(e),
        },
{
    match check_login(found, password) {
        Ok(user) => open_session(&user, config),
        Err(e) => Err(e),
    }
}

/// The outcome of an email verification at `now`, given the record found by
/// the token: the record as it is to be stored, verified and with an empty
/// slot, or the failure.
pub open spec fn verify_email_spec(found: Option<UserView>, token: Seq<char>, now: i64) -> Result<
    UserView,
    HttpErrorView,
> {
    match found {
        None => Err(HttpErrorView::of(ErrorMessage::InvalidToken, BAD_REQUEST)),
        Some(_) => match consume_spec(found, token, now) {
            Ok(user) => Ok(user.verified_now()),
            Err(reason) => if reason == ErrorMessage::TokenExpired {
                Err(HttpErrorView::of(ErrorMessage::TokenExpired, BAD_REQUEST))
            } else {
                Err(HttpErrorView { message: invalid_verification_message(), status: BAD_REQUEST })
            },
        },
    }
}

/// The mathematical value of a result that holds a record.
pub open spec fn record_result(r: Result<User, HttpError>) -> Result<UserView, HttpErrorView> {
    match r {
        Ok(user) => Ok(user@),
        Err(e) => Err(e@),
    }
}

fn consume_failure(reason: ErrorMessage) -> (r: HttpError)
    ensures
        r@ == if reason == ErrorMessage::TokenExpired {
            HttpErrorView::of(ErrorMessage::TokenExpired, BAD_REQUEST)
        } else {
            HttpErrorView { message: invalid_verification_message(), status: BAD_REQUEST }
        },
{
    if reason == ErrorMessage::TokenExpired {
        HttpError::of(ErrorMessage::TokenExpired, BAD_REQUEST)
    } else {
        HttpError::bad_request(String::from_str("Invalid verification token"))
    }
}

/// Verifies an email at the time `now`: consumes the token and gives the
/// record back as the store is to hold it from now on.
pub fn verify_email_at(found: Option<User>, token: &str, now: i64) -> (r: Result<User, HttpError>)
    ensures
        record_result(r) == verify_email_spec(view_of(found), token@, now),
{
    match found {
        None => Err(HttpError::of(ErrorMessage::InvalidToken, BAD_REQUEST)),
        Some(user) => match consume_at(Some(user), token, now) {
            Ok(user) => {
                let mut user = user;
                user.mark_verified();
                Ok(user)
            },
            Err(reason) => Err(consume_failure(reason)),
        },
    }
}

/// Verifies an email at the present time.
pub fn verify_email(found: Option<User>, token: &str) -> (r: Result<User, HttpError>)
    ensures
        exists|now: i64|
            clock_reading(now) && record_result(r) == #[trigger] verify_email_spec(
                view_of(found),
                token@,
                now,
            ),
{
    let now: i64 = unix_now();
    let ghost before = view_of(found);
    let r = verify_email_at(found, token, now);
    assert(record_result(r) == verify_email_spec(before, token@, now));
    r
}

/// A request to reset a password that was accepted: the record as the store
/// is to hold it, and the link to mail.
#[derive(Debug)]
pub struct ResetRequest {
    pub user: User,
    pub link: String,
}

/// What `forgot_password_at` returns: a bad request where no record was
/// found; a server error where the expiry cannot be held; else the record
/// with the token in its slot, and the link that carries the token.
pub open spec fn forgot_password_spec(
    found: Option<UserView>,
    token: Seq<char>,
    now: i64,
    r: Result<ResetRequest, HttpError>,
) -> bool {
    match found {
        None => failure_of(r) == Some(
            HttpErrorView { message: email_not_found_message(), status: BAD_REQUEST },
        ),
        Some(user) => if !window_fits(now) {
            failure_of(r) == Some(
                HttpErrorView::of(ErrorMessage::ServerError, INTERNAL_SERVER_ERROR),
            )
        } else {
            r matches Ok(request) && request.user@ == user.with_pending(
                token,
                (now + TOKEN_WINDOW_SECONDS) as i64,
            ) && request.link@ == reset_link_prefix() + token
        },
    }
}

fn reset_request(user: User, pending: EphemeralToken) -> (r: ResetRequest)
    ensures
        r.user@ == user@.with_pending(pending.token@, pending.expires_at),
        r.link@ == reset_link_prefix() + pending.token@,
{
    let mut link = String::from_str("http://localhost:5173/reset-password?token=");
    link.append(pending.token.as_str());
    let mut user = user;
    user.set_pending_token(pending.token, pending.expires_at);
    ResetRequest { user, link }
}

/// Accepts a request to reset a password at the time `now`, with `token` as
/// the text of the reset token: the token is issued for 24 hours and
/// replaces whatever the slot held.
pub fn forgot_password_at(found: Option<User>, token: String, now: i64) -> (r: Result<
    ResetRequest,
    HttpError,
>)
    ensures
        forgot_password_spec(view_of(found), token@, now, r),
{
    match found {
        None => Err(HttpError::bad_request(String::from_str("Email not found!"))),
        Some(user) => match issue_at(TokenKind::Reset, token, now) {
            Ok(pending) => Ok(reset_request(user, pending)),
            Err(_) => Err(HttpError::of(ErrorMessage::ServerError, INTERNAL_SERVER_ERROR)),
        },
    }
}

/// Accepts a request to reset a password at the present time, with a
/// freshly issued reset token.
pub fn forgot_password(found: Option<User>) -> (r: Result<ResetRequest, HttpError>)
    ensures
        exists|token: Seq<char>, now: i64|
            clock_reading(now) && token.len() == 36 && #[trigger] forgot_password_spec(
                view_of(found),
                token,
                now,
                r,
            ),
{
    match found {
        None => {
            let r = Err(HttpError::bad_request(String::from_str("Email not found!")));
            proof {
                lemma_uuid_text_len(0);
                assert(forgot_password_spec(None, uuid_text(0), 0, r));
            }
            r
        },
        Some(user) => {
            let pending = issue(TokenKind::Reset);
            let ghost text = pending.token@;
            let ghost before = user@;
            let r = Ok(reset_request(user, pending));
            proof {
                let (id, now) = choose|id: u128, now: i64|
                    clock_reading(now) && #[trigger] issued_from(pending, id, now);
                assert(forgot_password_spec(Some(before), text, now, r));
            }
            r
        },
    }
}

/// The answer once the reset link was handed to the mailer. Whether the
/// mail went out does not change it.
pub fn reset_link_sent() -> (r: Success)
    ensures
        r.status == OK,
        r.message@ == reset_sent_message(),
{
    Success {
        status: OK,
        message: String::from_str("Password reset link has been sent to your email!"),
    }
}

/// What `reset_password_at` returns: the failure of the token or of the
/// password policy as a bad request; else the record with a hash made from
/// the new password in place of the old one and with an empty slot, all else
/// as it was.
pub open spec fn reset_password_spec(
    found: Option<UserView>,
    token: Seq<char>,
    new_password: Seq<char>,
    now: i64,
    r: Result<User, HttpError>,
) -> bool {
    match found {
        None => failure_of(r) == Some(
            HttpErrorView { message: invalid_or_expired_message(), status: BAD_REQUEST },
        ),
        Some(_) => match consume_spec(found, token, now) {
            Err(reason) => failure_of(r) == Some(
                if reason == ErrorMessage::TokenExpired {
                    HttpErrorView::of(ErrorMessage::TokenExpired, BAD_REQUEST)
                } else {
                    HttpErrorView { message: invalid_verification_message(), status: BAD_REQUEST }
                },
            ),
            Ok(user) => match policy_error(new_password) {
                Some(reason) => failure_of(r) == Some(HttpErrorView::of(reason, BAD_REQUEST)),
                None => r matches Ok(updated) && updated@ == user.with_password(updated.password@)
                    && hash_of(new_password, updated.password@),
            },
        },
    }
}

/// Resets a password at the time `now`: consumes the token, hashes the new
/// password and gives the record back as the store is to hold it.
pub fn reset_password_at(found: Option<User>, token: &str, new_password: &str, now: i64) -> (r:
    Result<User, HttpError>)
    ensures
        reset_password_spec(view_of(found), token@, new_password@, now, r),
{
    match found {
        None => Err(HttpError::bad_request(String::from_str("Invalid or expired token"))),
        Some(user) => match consume_at(Some(user), token, now) {
            Err(reason) => Err(consume_failure(reason)),
            Ok(user) => match hash(new_password) {
                Err(reason) => Err(hash_failure(reason)),
                Ok(password_hash) => {
                    let mut user = user;
                    user.replace_password(password_hash);
                    Ok(user)
                },
            },
        },
    }
}

/// Resets a password at the present time.
pub fn reset_password(found: Option<User>, token: &str, new_password: &str) -> (r: Result<
    User,
    HttpError,
>)
    ensures
        exists|now: i64|
            clock_reading(now) && #[trigger] reset_password_spec(
                view_of(found),
                token@,
                new_password@,
                now,
                r,
            ),
{
    let now: i64 = unix_now();
    let ghost before = view_of(found);
    let r = reset_password_at(found, token, new_password, now);
    assert(reset_password_spec(before, token@, new_password@, now, r));
    r
}

/// The answer to a password reset that went through.
pub fn password_reset_done() -> (r: Success)
    ensures
        r.status == OK,
        r.message@ == reset_done_message(),
{
    Success { status: OK, message: String::from_str("Password has been successfully reset!") }
}

/// Logs out: the `Set-Cookie` header value that makes the client drop its
/// token.
pub fn logout() -> (r: String)
    ensures
        r@ == logout_cookie_text(),
{
    logout_cookie()
}

/// A session verifies as its user, under the secret it was opened with,
/// from the moment it was opened until its validity has run out; after that
/// it is an invalid token.
pub proof fn lemma_session_authenticates(
    id: u128,
    secret: Seq<u8>,
    validity: i64,
    opened_at: i64,
    session: Session,
    now: i64,
)
    requires
        session_outcome(id, secret, validity, opened_at, Ok(session)),
    ensures
        now <= opened_at + validity ==> authenticated(Some(session.token@), secret, now) == Ok::<
            u128,
            ErrorMessage,
        >(id),
        now > opened_at + validity ==> authenticated(Some(session.token@), secret, now) == Err::<
            u128,
            ErrorMessage,
        >(ErrorMessage::InvalidToken),
{
}

/// A user who is not verified cannot log in, though the password matches.
pub proof fn lemma_unverified_login_refused(user: UserView, password: Seq<char>)
    requires
        !user.verified,
        compare_spec(password, user.password) == Ok::<bool, ErrorMessage>(true),
    ensures
        login_gate(Some(user), password) == Err::<UserView, HttpErrorView>(
            HttpErrorView::of(ErrorMessage::UserNotVerified, UNAUTHORIZED),
        ),
{
}

/// A password that does not match is answered as an unknown email is,
/// whether the account is verified or not, and opens no session.
pub proof fn lemma_login_failures_alike(
    user: UserView,
    password: Seq<char>,
    secret: Seq<u8>,
    validity: i64,
    now: i64,
    r: Result<Session, HttpError>,
)
    requires
        compare_spec(password, user.password) != Ok::<bool, ErrorMessage>(true),
        login_outcome(Some(user), password, secret, validity, now, r),
    ensures
        login_gate(Some(user), password) == login_gate(None, password),
        failure_of(r) == Some(HttpErrorView::of(ErrorMessage::WrongCredential, BAD_REQUEST)),
{
}

/// A verified user whose password matches gets a session: the login fails
/// in one case only, the expiry cannot be held, and then with a server
/// error. The session authenticates as the user while it is valid.
pub proof fn lemma_login_is_owed(
    user: UserView,
    password: Seq<char>,
    secret: Seq<u8>,
    validity: i64,
    now: i64,
    r: Result<Session, HttpError>,
)
    requires
        user.verified,
        compare_spec(password, user.password) == Ok::<bool, ErrorMessage>(true),
        login_outcome(Some(user), password, secret, validity, now, r),
    ensures
        r is Err <==> !expiry_fits(now, validity),
        r matches Err(e) ==> e@ == HttpErrorView::of(
            ErrorMessage::ServerError,
            INTERNAL_SERVER_ERROR,
        ),
        r matches Ok(session) ==> authenticated(Some(session.token@), secret, now) == (if validity
            >= 0 {
            Ok::<u128, ErrorMessage>(user.id)
        } else {
            Err::<u128, ErrorMessage>(ErrorMessage::InvalidToken)
        }),
{
}

/// A user who registered, verified the email and logs in with the password
/// of the registration gets a session: the hash that registration made is
/// one the password matches.
pub proof fn lemma_registered_password_logs_in(
    password: Seq<char>,
    token: Seq<char>,
    registered_at: i64,
    registration: Result<Registration, HttpError>,
    user: UserView,
    secret: Seq<u8>,
    validity: i64,
    now: i64,
    r: Result<Session, HttpError>,
)
    requires
        register_outcome(password, token, registered_at, registration),
        registration matches Ok(reg) && user.password == reg.password_hash@,
        user.verified,
        expiry_fits(now, validity),
        login_outcome(Some(user), password, secret, validity, now, r),
    ensures
        r is Ok,
{
}

/// A registration succeeds for every password within the policy, at every
/// time that leaves room for the token's 24 hours, and what it stores is not
/// the password.
pub proof fn lemma_registration_is_owed(
    password: Seq<char>,
    token: Seq<char>,
    now: i64,
    r: Result<Registration, HttpError>,
)
    requires
        register_outcome(password, token, now, r),
    ensures
        r is Ok <==> policy_error(password) is None && window_fits(now),
        r matches Ok(reg) ==> reg.password_hash@ != password && compare_spec(
            password,
            reg.password_hash@,
        ) == Ok::<bool, ErrorMessage>(true),
{
}

/// A reset succeeds whenever the token is held and not expired and the new
/// password is within the policy. It touches the password and the slot
/// alone: an unverified user stays unverified, and what it stores is not the
/// new password.
pub proof fn lemma_reset_is_owed(
    user: UserView,
    token: Seq<char>,
    new_password: Seq<char>,
    now: i64,
    r: Result<User, HttpError>,
)
    requires
        user.holds(token),
        now <= user.token_expires_at->0,
        policy_error(new_password) is None,
        reset_password_spec(Some(user), token, new_password, now, r),
    ensures
        r matches Ok(updated) && updated@ == user.with_password(updated.password@)
            && updated.verified == user.verified && updated@.slot_empty() && updated.password@
            != new_password && compare_spec(new_password, updated.password@) == Ok::<
            bool,
            ErrorMessage,
        >(true),
{
}

/// A token that verified an email or reset a password cannot be used again:
/// the record that comes back holds no token.
pub proof fn lemma_token_spent(
    found: Option<UserView>,
    token: Seq<char>,
    now: i64,
    later: i64,
)
    requires
        verify_email_spec(found, token, now) is Ok,
    ensures
        verify_email_spec(found, token, now)->Ok_0.verified,
        verify_email_spec(found, token, now)->Ok_0.slot_empty(),
        verify_email_spec(Some(verify_email_spec(found, token, now)->Ok_0), token, later) is Err,
{
}

} // verus!
