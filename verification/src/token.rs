//! Session tokens: signed, self-contained bearer credentials that carry a
//! subject and an expiry. Expiry is the only way a token ends.

use vstd::prelude::*;
use vstd::string::*;
use jsonwebtoken::{Algorithm, DecodingKey, EncodingKey, Header, Validation};
use crate::clock::{clock_reading, unix_now, CLOCK_LIMIT};
use crate::error::ErrorMessage;

verus! {

/// The claims of a session token. Times are whole seconds since the Unix
/// epoch.
#[derive(Debug)]
pub struct TokenClaims {
    pub sub: String,
    pub iat: i64,
    pub exp: i64,
}

/// The mathematical value of `TokenClaims`.
pub struct ClaimsView {
    pub sub: Seq<char>,
    pub iat: i64,
    pub exp: i64,
}

impl View for TokenClaims {
    type V = ClaimsView;

    open spec fn view(&self) -> ClaimsView {
        ClaimsView { sub: self.sub@, iat: self.iat, exp: self.exp }
    }
}

/// The error type of the `jsonwebtoken` crate, carried from signing to
/// `signed`.
#[verifier::external_type_specification]
#[verifier::external_body]
pub struct ExJwtError(jsonwebtoken::errors::Error);

/// The claims that a token text carries under a secret: `None` where
/// decoding refuses the text, as it does where it is not three parts, where
/// its header does not say HS256 and where its signature is not the one the
/// secret gives, and where the payload has no string `sub` and integer `iat`
/// and `exp`.
pub uninterp spec fn jwt_claims(token: Seq<char>, secret: Seq<u8>) -> Option<ClaimsView>;

/// The token text that signing claims under a secret gives. The header is
/// fixed and HMAC-SHA256 draws nothing at random, so the text depends on the
/// claims and the secret alone.
pub uninterp spec fn jwt_signed(claims: ClaimsView, secret: Seq<u8>) -> Seq<char>;

/// `jsonwebtoken::encode` with `Header::default()` (HS256), a JSON object of
/// the three claims and `EncodingKey::from_secret`. The contract claims
/// three things. Signing succeeds: the key is of the header's family, a JSON
/// object of a string and two integers is always written, and HMAC signing
/// returns no error. The token is the named text. And decoding it under the
/// same secret gives the claims back: `decode` signs the first two parts
/// again and compares, and JSON keeps strings and 64-bit integers as they
/// are.
#[verifier::external_body]
fn jwt_encode(claims: &TokenClaims, secret: &[u8]) -> (r: Result<
    String,
    jsonwebtoken::errors::Error,
>)
    ensures
        r is Ok,
        r matches Ok(t) ==> t@ == jwt_signed(claims@, secret@) && jwt_claims(t@, secret@) == Some(
            claims@,
        ),
{
    let mut payload = serde_json::Map::new();
    payload.insert("sub".to_string(), serde_json::Value::from(claims.sub.as_str()));
    payload.insert("iat".to_string(), serde_json::Value::from(claims.iat));
    payload.insert("exp".to_string(), serde_json::Value::from(claims.exp));
    jsonwebtoken::encode(&Header::default(), &payload, &EncodingKey::from_secret(secret))
}

/// `jsonwebtoken::decode` to a JSON value with `DecodingKey::from_secret`
/// and a validation that admits HS256 alone and leaves the expiry to the
/// caller, so that the outcome depends on the token and the secret alone.
/// The three claims are then taken out of the value.
#[verifier::external_body]
fn jwt_decode(token: &str, secret: &[u8]) -> (r: Option<TokenClaims>)
    ensures
        match r {
            Some(claims) => jwt_claims(token@, secret@) == Some(claims@),
            None => jwt_claims(token@, secret@) is None,
        },
{
    let mut validation = Validation::new(Algorithm::HS256);
    validation.validate_exp = false;
    validation.required_spec_claims.clear();
    let key = DecodingKey::from_secret(secret);
    let data = jsonwebtoken::decode::<serde_json::Value>(token, &key, &validation).ok()?;
    let sub = data.claims.get("sub")?.as_str()?.to_string();
    let iat = data.claims.get("iat")?.as_i64()?;
    let exp = data.claims.get("exp")?.as_i64()?;
    Some(TokenClaims { sub, iat, exp })
}

/// The claims of a token issued at `now` for `validity` seconds.
pub open spec fn claims_at(subject: Seq<char>, now: i64, validity: i64) -> ClaimsView
    recommends
        i64::MIN <= now + validity <= i64::MAX,
{
    ClaimsView { sub: subject, iat: now, exp: (now + validity) as i64 }
}

/// Whether `now + validity` is a time the claims can hold.
pub open spec fn expiry_fits(now: i64, validity: i64) -> bool {
    i64::MIN <= now + validity <= i64::MAX
}

/// The token issued at `now`: the text that signing the claims
/// `claims_at(subject, now, validity)` gives; `ServerError` where the expiry
/// cannot be held, and there alone.
pub open spec fn issued(subject: Seq<char>, secret: Seq<u8>, validity: i64, now: i64) -> Result<
    Seq<char>,
    ErrorMessage,
> {
    if expiry_fits(now, validity) {
        Ok(jwt_signed(claims_at(subject, now, validity), secret))
    } else {
        Err(ErrorMessage::ServerError)
    }
}

/// What issuing at `now` returns: the result is `issued`, and a token that
/// was issued carries exactly its claims under the secret.
pub open spec fn issue_outcome(
    subject: Seq<char>,
    secret: Seq<u8>,
    validity: i64,
    now: i64,
    r: Result<String, ErrorMessage>,
) -> bool {
    &&& text_result(r) == issued(subject, secret, validity, now)
    &&& r matches Ok(t) ==> jwt_claims(t@, secret) == Some(claims_at(subject, now, validity))
}

/// The subject that claims yield at `now`: theirs while `now` has not passed
/// the expiry; `InvalidToken` after it, and where there are no claims.
pub open spec fn subject_at(claims: Option<ClaimsView>, now: i64) -> Result<
    Seq<char>,
    ErrorMessage,
> {
    match claims {
        Some(c) => if now <= c.exp {
            Ok(c.sub)
        } else {
            Err(ErrorMessage::InvalidToken)
        },
        None => Err(ErrorMessage::InvalidToken),
    }
}

/// The text of a result that holds a string.
pub open spec fn text_result(r: Result<String, ErrorMessage>) -> Result<Seq<char>, ErrorMessage> {
    match r {
        Ok(s) => Ok(s@),
        Err(e) => Err(e),
    }
}

/// The claims for a subject at `now`; `None` where the expiry would not fit.
pub fn session_claims(user_id: &str, validity: i64, now: i64) -> (r: Option<TokenClaims>)
    ensures
        match r {
            Some(claims) => expiry_fits(now, validity) && claims@ == claims_at(
                user_id@,
                now,
                validity,
            ),
            None => !expiry_fits(now, validity),
        },
{
    match now.checked_add(validity) {
        Some(exp) => Some(TokenClaims { sub: user_id.to_owned(), iat: now, exp }),
        None => None,
    }
}

/// Turns what signing returned into the library's result: the token as it
/// is, any failure as `ServerError`.
pub fn signed(primitive: Result<String, jsonwebtoken::errors::Error>) -> (r: Result<
    String,
    ErrorMessage,
>)
    ensures
        match primitive {
            Ok(t) => r == Ok::<String, ErrorMessage>(t),
            Err(_) => r == Err::<String, ErrorMessage>(ErrorMessage::ServerError),
        },
{
    match primitive {
        Ok(t) => Ok(t),
        Err(_) => Err(ErrorMessage::ServerError),
    }
}

/// Issues a token for `user_id` at the time `now`, valid for `validity`
/// seconds.
pub fn create_token_at(user_id: &str, secret: &[u8], validity: i64, now: i64) -> (r: Result<
    String,
    ErrorMessage,
>)
    ensures
        issue_outcome(user_id@, secret@, validity, now, r),
{
    match session_claims(user_id, validity, now) {
        Some(claims) => signed(jwt_encode(&claims, secret)),
        None => Err(ErrorMessage::ServerError),
    }
}

/// Issues a token for `user_id` at the present time, valid for `validity`
/// seconds.
pub fn create_token(user_id: &str, secret: &[u8], validity: i64) -> (r: Result<
    String,
    ErrorMessage,
>)
    ensures
        exists|now: i64|
            clock_reading(now) && #[trigger] issue_outcome(user_id@, secret@, validity, now, r),
        validity + CLOCK_LIMIT <= i64::MAX ==> r is Ok,
{
    let now: i64 = unix_now();
    let r = create_token_at(user_id, secret, validity, now);
    assert(issue_outcome(user_id@, secret@, validity, now, r));
    r
}

/// The subject of decoded claims at `now`.
pub fn subject_of(claims: Option<TokenClaims>, now: i64) -> (r: Result<String, ErrorMessage>)
    ensures
        text_result(r) == subject_at(
            match claims {
                Some(c) => Some(c@),
                None => None,
            },
            now,
        ),
{
    match claims {
        Some(c) => if now <= c.exp {
            Ok(c.sub)
        } else {
            Err(ErrorMessage::InvalidToken)
        },
        None => Err(ErrorMessage::InvalidToken),
    }
}

/// Verifies a token at the time `now` and yields its subject. A bad
/// signature, a malformed token and a passed expiry all give
/// `InvalidToken`.
pub fn decode_token_at(token: &str, secret: &[u8], now: i64) -> (r: Result<String, ErrorMessage>)
    ensures
        text_result(r) == subject_at(jwt_claims(token@, secret@), now),
{
    subject_of(jwt_decode(token, secret), now)
}

/// Verifies a token at the present time and yields its subject.
pub fn decode_token(token: &str, secret: &[u8]) -> (r: Result<String, ErrorMessage>)
    ensures
        exists|now: i64|
            clock_reading(now) && text_result(r) == #[trigger] subject_at(
                jwt_claims(token@, secret@),
                now,
            ),
{
    let now: i64 = unix_now();
    let r = decode_token_at(token, secret, now);
    assert(text_result(r) == subject_at(jwt_claims(token@, secret@), now));
    r
}

/// A token verifies to its subject, under the secret it was issued with,
/// from its issuance until its validity has run out.
pub proof fn lemma_issued_token_verifies(
    subject: Seq<char>,
    secret: Seq<u8>,
    validity: i64,
    issued_at: i64,
    token: String,
    now: i64,
)
    requires
        issue_outcome(subject, secret, validity, issued_at, Ok(token)),
        now <= issued_at + validity,
    ensures
        subject_at(jwt_claims(token@, secret), now) == Ok::<Seq<char>, ErrorMessage>(subject),
        validity >= 0 ==> subject_at(jwt_claims(token@, secret), issued_at) == Ok::<
            Seq<char>,
            ErrorMessage,
        >(subject),
{
}

/// Issuing fails in one case only: the expiry cannot be held. The same
/// subject, secret, validity and time give the same token.
pub proof fn lemma_issue_is_owed(
    subject: Seq<char>,
    secret: Seq<u8>,
    validity: i64,
    now: i64,
    first: Result<String, ErrorMessage>,
    second: Result<String, ErrorMessage>,
)
    requires
        issue_outcome(subject, secret, validity, now, first),
        issue_outcome(subject, secret, validity, now, second),
    ensures
        text_result(first) == text_result(second),
        first is Err <==> !expiry_fits(now, validity),
{
}

} // verus!
