//! The guard in front of protected operations: it takes the session token
//! from the request, verifies it, resolves the user and checks the role.

use vstd::prelude::*;
use vstd::string::*;
use crate::clock::{clock_reading, unix_now};
use crate::error::ErrorMessage;
use crate::ids::{uuid_from_text, uuid_parsed};
use crate::models::{text_of, User, UserRole, UserView};
use crate::pending::view_of;
use crate::text::same_text;
use crate::token::{decode_token_at, jwt_claims, subject_at};

verus! {

/// How the guard ends: the request goes on with the resolved user, or it is
/// rejected with a reason.
#[derive(Debug)]
pub enum GuardOutcome {
    Admit(User),
    Reject(ErrorMessage),
}

/// The mathematical value of a `GuardOutcome`.
pub open spec fn outcome_view(outcome: GuardOutcome) -> Result<UserView, ErrorMessage> {
    match outcome {
        GuardOutcome::Admit(user) => Ok(user@),
        GuardOutcome::Reject(reason) => Err(reason),
    }
}

/// The token in an `Authorization` header value: what follows `Bearer `.
pub open spec fn bearer_of(header: Seq<char>) -> Option<Seq<char>> {
    if header.len() >= 7 && header.subrange(0, 7) == "Bearer "@ {
        Some(header.subrange(7, header.len() as int))
    } else {
        None
    }
}

/// The candidate token of a request: the cookie's value where there is a
/// cookie, else the bearer token of the header.
pub open spec fn candidate(cookie: Option<Seq<char>>, authorization: Option<Seq<char>>) -> Option<
    Seq<char>,
> {
    match cookie {
        Some(value) => Some(value),
        None => match authorization {
            Some(header) => bearer_of(header),
            None => None,
        },
    }
}

/// The user id that a candidate token proves at `now`: `TokenNotProvided`
/// without a token; `InvalidToken` where the token does not verify, has
/// expired, or names no user id.
pub open spec fn authenticated(token: Option<Seq<char>>, secret: Seq<u8>, now: i64) -> Result<
    u128,
    ErrorMessage,
> {
    match token {
        None => Err(ErrorMessage::TokenNotProvided),
        Some(t) => match subject_at(jwt_claims(t, secret), now) {
            Ok(subject) => match uuid_parsed(subject) {
                Some(id) => Ok(id),
                None => Err(ErrorMessage::InvalidToken),
            },
            Err(_) => Err(ErrorMessage::InvalidToken),
        },
    }
}

/// Whether a role is among those an operation admits; every role is, where
/// the operation declares none.
pub open spec fn role_admitted(role: UserRole, required: Option<Seq<UserRole>>) -> bool {
    match required {
        Some(roles) => roles.contains(role),
        None => true,
    }
}

/// The outcome for an authenticated id, given the record the store returned
/// for it: `UserNoLongerExist` where there is none with that id,
/// `PermissionDenied` where its role is not admitted, else the record.
pub open spec fn authorized(found: Option<UserView>, id: u128, required: Option<Seq<UserRole>>)
    -> Result<UserView, ErrorMessage> {
    match found {
        Some(user) => if user.id != id {
            Err(ErrorMessage::UserNoLongerExist)
        } else if !role_admitted(user.role, required) {
            Err(ErrorMessage::PermissionDenied)
        } else {
            Ok(user)
        },
        None => Err(ErrorMessage::UserNoLongerExist),
    }
}

/// The roles of an optional list.
pub open spec fn roles_of(required: Option<&Vec<UserRole>>) -> Option<Seq<UserRole>> {
    match required {
        Some(roles) => Some(roles@),
        None => None,
    }
}

/// The text of an optional string slice.
pub open spec fn str_of(s: Option<&str>) -> Option<Seq<char>> {
    match s {
        Some(t) => Some(t@),
        None => None,
    }
}

/// Takes the bearer token out of an `Authorization` header value.
pub fn bearer_token(header: &str) -> (r: Option<String>)
    ensures
        text_of(r) == bearer_of(header@),
{
    let n: usize = header.unicode_len();
    if n < 7 {
        return None;
    }
    let prefix = header.substring_char(0, 7);
    if same_text(prefix, "Bearer ") {
        Some(header.substring_char(7, n).to_owned())
    } else {
        None
    }
}

/// Takes the candidate token out of the request's cookie value and
/// `Authorization` header.
pub fn extract_token(cookie: Option<&str>, authorization: Option<&str>) -> (r: Option<String>)
    ensures
        text_of(r) == candidate(str_of(cookie), str_of(authorization)),
{
    match cookie {
        Some(value) => Some(value.to_owned()),
        None => match authorization {
            Some(header) => bearer_token(header),
            None => None,
        },
    }
}

/// Verifies the candidate token at the time `now` and yields the user id it
/// proves.
pub fn authenticate_at(token: Option<&str>, secret: &[u8], now: i64) -> (r: Result<
    u128,
    ErrorMessage,
>)
    ensures
        r == authenticated(str_of(token), secret@, now),
{
    match token {
        None => Err(ErrorMessage::TokenNotProvided),
        Some(t) => match decode_token_at(t, secret, now) {
            Ok(subject) => match uuid_from_text(subject.as_str()) {
                Some(id) => Ok(id),
                None => Err(ErrorMessage::InvalidToken),
            },
            Err(_) => Err(ErrorMessage::InvalidToken),
        },
    }
}

/// Verifies the candidate token at the present time.
pub fn authenticate(token: Option<&str>, secret: &[u8]) -> (r: Result<u128, ErrorMessage>)
    ensures
        exists|now: i64|
            clock_reading(now) && r == #[trigger] authenticated(str_of(token), secret@, now),
{
    let now: i64 = unix_now();
    let r = authenticate_at(token, secret, now);
    assert(r == authenticated(str_of(token), secret@, now));
    r
}

/// Whether `role` is in `roles`.
pub fn has_role(roles: &Vec<UserRole>, role: UserRole) -> (r: bool)
    ensures
        r == roles@.contains(role),
{
    let mut i: usize = 0;
    while i < roles.len()
        invariant
            i <= roles.len(),
            forall|j: int| 0 <= j < i ==> roles@[j] != role,
        decreases roles.len() - i,
    {
        if roles[i] == role {
            return true;
        }
        i = i + 1;
    }
    false
}

/// Admits or rejects an authenticated request. `found` is what the store
/// returned for `id`; `required` the roles the operation admits, if it
/// declares any.
pub fn authorize(found: Option<User>, id: u128, required: Option<&Vec<UserRole>>) -> (r:
    GuardOutcome)
    ensures
        outcome_view(r) == authorized(view_of(found), id, roles_of(required)),
{
    match found {
        Some(user) => {
            if user.id != id {
                return GuardOutcome::Reject(ErrorMessage::UserNoLongerExist);
            }
            let admitted = match required {
                Some(roles) => has_role(roles, user.role),
                None => true,
            };
            if admitted {
                GuardOutcome::Admit(user)
            } else {
                GuardOutcome::Reject(ErrorMessage::PermissionDenied)
            }
        },
        None => GuardOutcome::Reject(ErrorMessage::UserNoLongerExist),
    }
}

/// The guard never admits without a token that verifies: whatever the store
/// returns, a request whose token is missing or invalid is rejected before
/// the store is asked.
pub proof fn lemma_no_token_no_entry(secret: Seq<u8>, now: i64, bad: Seq<char>)
    requires
        subject_at(jwt_claims(bad, secret), now) is Err,
    ensures
        authenticated(None, secret, now) == Err::<u128, ErrorMessage>(
            ErrorMessage::TokenNotProvided,
        ),
        authenticated(Some(bad), secret, now) == Err::<u128, ErrorMessage>(
            ErrorMessage::InvalidToken,
        ),
{
}

/// An admitted user is the one whose id the token proved, and holds an
/// admitted role.
pub proof fn lemma_admitted_user(found: Option<UserView>, id: u128, required: Option<Seq<UserRole>>)
    requires
        authorized(found, id, required) is Ok,
    ensures
        found == Some(authorized(found, id, required)->Ok_0),
        authorized(found, id, required)->Ok_0.id == id,
        role_admitted(authorized(found, id, required)->Ok_0.role, required),
{
}

} // verus!
