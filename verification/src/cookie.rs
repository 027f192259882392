//! The `Set-Cookie` header value that carries the session token.

use vstd::prelude::*;
use vstd::string::*;
use axum_extra::extract::cookie::Cookie;
use crate::text::signed_decimal;

verus! {

/// The text of a cookie with a path and a max-age, marked `HttpOnly` or not.
pub open spec fn set_cookie_text(
    name: Seq<char>,
    value: Seq<char>,
    path: Seq<char>,
    max_age: i64,
    http_only: bool,
) -> Seq<char> {
    name + "="@ + value + (if http_only {
        "; HttpOnly"@
    } else {
        Seq::<char>::empty()
    }) + "; Path="@ + path + "; Max-Age="@ + signed_decimal(max_age as int)
}

/// `Cookie::build((name, value))` with `path`, `max_age` of
/// `time::Duration::seconds(max_age)` and `http_only`, written with its
/// `Display`: name and value as they are, then the attributes that are set,
/// in the order `HttpOnly`, `Path`, `Max-Age`, the age in whole seconds.
#[verifier::external_body]
fn cookie_text(name: &str, value: &str, path: &str, max_age: i64, http_only: bool) -> (r: String)
    ensures
        r@ == set_cookie_text(name@, value@, path@, max_age, http_only),
{
    Cookie::build((name, value))
        .path(path)
        .max_age(time::Duration::seconds(max_age))
        .http_only(http_only)
        .build()
        .to_string()
}

/// The cookie that carries a session token for `max_age` seconds: named
/// `token`, for every path, hidden from scripts.
pub open spec fn session_cookie_text(token: Seq<char>, max_age: i64) -> Seq<char> {
    set_cookie_text("token"@, token, "/"@, max_age, true)
}

/// The cookie that asks the client to drop its session token: empty, with a
/// max-age of minus one minute.
pub open spec fn logout_cookie_text() -> Seq<char> {
    set_cookie_text("token"@, ""@, "/"@, -60i64, true)
}

/// Builds the cookie that carries a session token.
pub fn session_cookie(token: &str, max_age: i64) -> (r: String)
    ensures
        r@ == session_cookie_text(token@, max_age),
{
    cookie_text("token", token, "/", max_age, true)
}

/// Builds the cookie that ends a session on the client. The token itself
/// stays valid until it expires: there is no revocation.
pub fn logout_cookie() -> (r: String)
    ensures
        r@ == logout_cookie_text(),
{
    cookie_text("token", "", "/", -60, true)
}

} // verus!
