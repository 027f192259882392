//! Single-use, time-bound tokens for email verification and password reset.
//! A token is an opaque random string with an absolute expiry; it lives in
//! the pending-token slot of one user record until it is consumed.

use vstd::prelude::*;
use vstd::string::*;
use vstd::pervasive::unreached;
use crate::clock::{clock_reading, unix_now};
use crate::error::ErrorMessage;
use crate::ids::{lemma_uuid_text_len, random_uuid, uuid_parsed, uuid_text, uuid_to_text};
use crate::models::{User, UserView};

verus! {

/// How long a pending token stays valid, in seconds: 24 hours.
pub const TOKEN_WINDOW_SECONDS: i64 = 86_400;

/// What a pending token is for. The kind routes the email and the action
/// that follows consumption; the token itself does not depend on it.
#[derive(Debug, Clone, Copy, PartialEq, Eq, Structural)]
pub enum TokenKind {
    Verification,
    Reset,
}

/// A freshly issued pending token.
#[derive(Debug)]
pub struct EphemeralToken {
    pub kind: TokenKind,
    pub token: String,
    pub expires_at: i64,
}

/// Whether a token issued at `now` has an expiry that can be held.
pub open spec fn window_fits(now: i64) -> bool {
    now + TOKEN_WINDOW_SECONDS <= i64::MAX
}

/// Gives a token text its expiry: `TOKEN_WINDOW_SECONDS` after `now`.
pub fn issue_at(kind: TokenKind, token: String, now: i64) -> (r: Result<
    EphemeralToken,
    ErrorMessage,
>)
    ensures
        match r {
            Ok(t) => window_fits(now) && t.kind == kind && t.token == token && t.expires_at == now
                + TOKEN_WINDOW_SECONDS,
            Err(e) => !window_fits(now) && e == ErrorMessage::ServerError,
        },
{
    match now.checked_add(TOKEN_WINDOW_SECONDS) {
        Some(expires_at) => Ok(EphemeralToken { kind, token, expires_at }),
        None => Err(ErrorMessage::ServerError),
    }
}

/// Whether a token is the one issued at `now` from the random value `id`:
/// its text is the value's UUID text, its expiry `TOKEN_WINDOW_SECONDS`
/// after `now`.
pub open spec fn issued_from(t: EphemeralToken, id: u128, now: i64) -> bool {
    t.token@ == uuid_text(id) && t.expires_at == now + TOKEN_WINDOW_SECONDS
}

/// Issues a pending token: the text of a random UUID, expiring
/// `TOKEN_WINDOW_SECONDS` after the present time. No reading of the clock is
/// so late that the expiry could not be held.
pub fn issue(kind: TokenKind) -> (t: EphemeralToken)
    ensures
        t.kind == kind,
        t.token@.len() == 36,
        uuid_parsed(t.token@) is Some,
        exists|id: u128, now: i64| clock_reading(now) && #[trigger] issued_from(t, id, now),
{
    let id: u128 = random_uuid();
    let token = uuid_to_text(id);
    proof {
        lemma_uuid_text_len(id);
    }
    let now: i64 = unix_now();
    match issue_at(kind, token, now) {
        Ok(t) => {
            assert(issued_from(t, id, now));
            t
        },
        Err(_) => unreached(),
    }
}

/// The outcome of consuming `token` at `now`, given the record that the
/// lookup by token value found: `InvalidToken` where no record was found or
/// the record does not hold the token with an expiry; `TokenExpired` where
/// `now` is past the expiry; else the record.
pub open spec fn consume_spec(found: Option<UserView>, token: Seq<char>, now: i64) -> Result<
    UserView,
    ErrorMessage,
> {
    match found {
        Some(user) => if user.verification_token != Some(token) {
            Err(ErrorMessage::InvalidToken)
        } else {
            match user.token_expires_at {
                Some(expires_at) => if now > expires_at {
                    Err(ErrorMessage::TokenExpired)
                } else {
                    Ok(user)
                },
                None => Err(ErrorMessage::InvalidToken),
            }
        },
        None => Err(ErrorMessage::InvalidToken),
    }
}

/// The mathematical value of an optional record.
pub open spec fn view_of(found: Option<User>) -> Option<UserView> {
    match found {
        Some(user) => Some(user@),
        None => None,
    }
}

/// The mathematical value of a result that holds a record.
pub open spec fn view_result(r: Result<User, ErrorMessage>) -> Result<UserView, ErrorMessage> {
    match r {
        Ok(user) => Ok(user@),
        Err(e) => Err(e),
    }
}

/// Consumes a pending token at the time `now`. `found` is what the store's
/// lookup by token value returned. On success the caller empties the slot in
/// the same operation that uses the token (`User::mark_verified`,
/// `User::replace_password`).
pub fn consume_at(found: Option<User>, token: &str, now: i64) -> (r: Result<User, ErrorMessage>)
    ensures
        view_result(r) == consume_spec(view_of(found), token@, now),
{
    match found {
        Some(user) => {
            if !user.holds_token(token) {
                Err(ErrorMessage::InvalidToken)
            } else {
                match user.token_expires_at {
                    Some(expires_at) => if now > expires_at {
                        Err(ErrorMessage::TokenExpired)
                    } else {
                        Ok(user)
                    },
                    None => Err(ErrorMessage::InvalidToken),
                }
            }
        },
        None => Err(ErrorMessage::InvalidToken),
    }
}

/// Consumes a pending token at the present time.
pub fn consume(found: Option<User>, token: &str) -> (r: Result<User, ErrorMessage>)
    ensures
        exists|now: i64|
            clock_reading(now) && view_result(r) == #[trigger] consume_spec(
                view_of(found),
                token@,
                now,
            ),
{
    let now: i64 = unix_now();
    let ghost before = view_of(found);
    let r = consume_at(found, token, now);
    assert(view_result(r) == consume_spec(before, token@, now));
    r
}

/// A pending token is consumed once: while it is held and not expired,
/// consuming succeeds with the record; after the slot was emptied, by
/// verification or by a password reset, the same token value fails with
/// `InvalidToken` at every time, as it does where the lookup finds no record.
pub proof fn lemma_consume_once(
    user: UserView,
    token: Seq<char>,
    now: i64,
    later: i64,
    password: Seq<char>,
)
    requires
        user.holds(token),
        now <= user.token_expires_at->0,
    ensures
        consume_spec(Some(user), token, now) == Ok::<UserView, ErrorMessage>(user),
        user.verified_now().slot_empty(),
        user.with_password(password).slot_empty(),
        consume_spec(Some(user.verified_now()), token, later) == Err::<UserView, ErrorMessage>(
            ErrorMessage::InvalidToken,
        ),
        consume_spec(Some(user.with_password(password)), token, later) == Err::<
            UserView,
            ErrorMessage,
        >(ErrorMessage::InvalidToken),
        consume_spec(None, token, later) == Err::<UserView, ErrorMessage>(
            ErrorMessage::InvalidToken,
        ),
{
}

/// A token whose expiry has passed fails with `TokenExpired`, though it
/// still matches the stored value.
pub proof fn lemma_expired_token_rejected(user: UserView, token: Seq<char>, now: i64)
    requires
        user.holds(token),
        now > user.token_expires_at->0,
    ensures
        consume_spec(Some(user), token, now) == Err::<UserView, ErrorMessage>(
            ErrorMessage::TokenExpired,
        ),
{
}

/// Issuing a new token replaces the one in the slot, of whatever kind: the
/// earlier token value is no longer held.
pub proof fn lemma_reissue_replaces(
    user: UserView,
    old_token: Seq<char>,
    new_token: Seq<char>,
    expires_at: i64,
    now: i64,
)
    requires
        old_token != new_token,
    ensures
        user.with_pending(new_token, expires_at).holds(new_token),
        consume_spec(Some(user.with_pending(new_token, expires_at)), old_token, now) == Err::<
            UserView,
            ErrorMessage,
        >(ErrorMessage::InvalidToken),
{
}

} // verus!
