//! Password credentials: the length policy, one-way hashing and verification
//! against a stored hash.

use vstd::prelude::*;
use vstd::string::*;
use vstd::utf8::encode_utf8;
use argon2::password_hash::rand_core::OsRng;
use argon2::password_hash::{PasswordHash, PasswordHasher, PasswordVerifier, SaltString};
use argon2::Argon2;
use crate::error::ErrorMessage;

verus! {

/// The longest password, in bytes, that is hashed.
pub const MAX_PASSWORD_LENGTH: usize = 64;

/// The length, in bytes, of every hash text: `$argon2id`, `$v=19`,
/// `$m=19456,t=2,p=1`, then `$` and the 22 characters of the salt, then `$`
/// and the 43 characters of the digest.
pub const HASH_TEXT_LENGTH: usize = 97;

/// The error type of the `password-hash` crate, carried from the hashing
/// primitive to `hashed`.
#[verifier::external_type_specification]
#[verifier::external_body]
pub struct ExPasswordHashError(argon2::password_hash::Error);

/// What checking `password` against the stored hash text `stored` gives:
/// `None` where `stored` is no PHC hash string, else whether the password
/// matches it.
pub uninterp spec fn argon2_verdict(password: Seq<char>, stored: Seq<char>) -> Option<bool>;

/// `PasswordHash::new` on `stored`, then `Argon2::default().verify_password`
/// on the password's bytes and the parsed hash. Both depend on their
/// arguments alone; the contract names the outcome and says nothing more.
#[verifier::external_body]
fn argon2_verify(password: &str, stored: &str) -> (r: Option<bool>)
    ensures
        r == argon2_verdict(password@, stored@),
{
    match PasswordHash::new(stored) {
        Ok(parsed) => Some(Argon2::default().verify_password(password.as_bytes(), &parsed).is_ok()),
        Err(_) => None,
    }
}

/// `Argon2::default().hash_password` with a salt from
/// `SaltString::generate(&mut OsRng)`, rendered as a PHC string. The salt is
/// random, so the hash is not named. The contract claims three things.
/// Hashing a password within the policy succeeds: Argon2 refuses a password
/// only beyond 4 GiB, and the salt of 16 bytes and the default parameters
/// are within its bounds. The text has the length that the default
/// algorithm, version, parameters, salt and digest sizes give it. And the
/// text verifies against the password it was made from, which is how
/// `verify_password` works: it hashes again with the salt and the parameters
/// found in the text and compares.
#[verifier::external_body]
fn argon2_hash(password: &str) -> (r: Result<String, argon2::password_hash::Error>)
    ensures
        encode_utf8(password@).len() <= MAX_PASSWORD_LENGTH ==> r is Ok,
        r matches Ok(h) ==> argon2_verdict(password@, h@) == Some(true) && encode_utf8(h@).len()
            == HASH_TEXT_LENGTH,
{
    let salt = SaltString::generate(&mut OsRng);
    match Argon2::default().hash_password(password.as_bytes(), &salt) {
        Ok(h) => Ok(h.to_string()),
        Err(e) => Err(e),
    }
}

/// The policy error of a password, if it has one: empty, or longer than
/// `MAX_PASSWORD_LENGTH` bytes in UTF-8.
pub open spec fn policy_error(password: Seq<char>) -> Option<ErrorMessage> {
    if password.len() == 0 {
        Some(ErrorMessage::EmptyPassword)
    } else if encode_utf8(password).len() > MAX_PASSWORD_LENGTH {
        Some(ErrorMessage::ExceededMaxPasswordLength(MAX_PASSWORD_LENGTH))
    } else {
        None
    }
}

/// Whether a text is a hash made from a password: it has the length of a
/// hash text, so it is not the password, and the password verifies against
/// it.
pub open spec fn hash_of(password: Seq<char>, h: Seq<char>) -> bool {
    encode_utf8(h).len() == HASH_TEXT_LENGTH && argon2_verdict(password, h) == Some(true)
}

/// What `hash` returns for a password: the policy error where there is one,
/// else a hash made from the password.
pub open spec fn hash_outcome(password: Seq<char>, r: Result<String, ErrorMessage>) -> bool {
    match policy_error(password) {
        Some(e) => r == Err::<String, ErrorMessage>(e),
        None => r matches Ok(h) && hash_of(password, h@),
    }
}

/// The result of comparing a password with a stored hash.
pub open spec fn compare_spec(password: Seq<char>, stored: Seq<char>) -> Result<
    bool,
    ErrorMessage,
> {
    match argon2_verdict(password, stored) {
        Some(matched) => Ok(matched),
        None => Err(ErrorMessage::InvalidHashFormat),
    }
}

/// Checks the length policy, before any hashing.
pub fn check_policy(password: &str) -> (r: Result<(), ErrorMessage>)
    ensures
        match policy_error(password@) {
            Some(e) => r == Err::<(), ErrorMessage>(e),
            None => r is Ok,
        },
{
    if password.is_empty() {
        Err(ErrorMessage::EmptyPassword)
    } else if password.as_bytes().len() > MAX_PASSWORD_LENGTH {
        Err(ErrorMessage::ExceededMaxPasswordLength(MAX_PASSWORD_LENGTH))
    } else {
        Ok(())
    }
}

/// Turns what the hashing primitive returned into the library's result: the
/// hash as it is, any failure as `HashingError`.
pub fn hashed(primitive: Result<String, argon2::password_hash::Error>) -> (r: Result<
    String,
    ErrorMessage,
>)
    ensures
        match primitive {
            Ok(h) => r == Ok::<String, ErrorMessage>(h),
            Err(_) => r == Err::<String, ErrorMessage>(ErrorMessage::HashingError),
        },
{
    match primitive {
        Ok(h) => Ok(h),
        Err(_) => Err(ErrorMessage::HashingError),
    }
}

/// Hashes a password for storage. The policy is enforced first; the hash
/// embeds algorithm, cost and a fresh salt.
pub fn hash(password: &str) -> (r: Result<String, ErrorMessage>)
    ensures
        hash_outcome(password@, r),
{
    match check_policy(password) {
        Err(e) => Err(e),
        Ok(()) => hashed(argon2_hash(password)),
    }
}

/// Turns the verdict of the verification primitive into the library's
/// result: a mismatch is `Ok(false)`, an unreadable hash an error.
pub fn verdict(outcome: Option<bool>) -> (r: Result<bool, ErrorMessage>)
    ensures
        r == match outcome {
            Some(matched) => Ok::<bool, ErrorMessage>(matched),
            None => Err::<bool, ErrorMessage>(ErrorMessage::InvalidHashFormat),
        },
{
    match outcome {
        Some(matched) => Ok(matched),
        None => Err(ErrorMessage::InvalidHashFormat),
    }
}

/// Compares a password with a stored hash.
pub fn compare(password: &str, hashed_password: &str) -> (r: Result<bool, ErrorMessage>)
    ensures
        r == compare_spec(password@, hashed_password@),
{
    verdict(argon2_verify(password, hashed_password))
}

/// Every password within the policy is hashed, to a text that is not the
/// password, and compares as matching against the hash that was made from
/// it.
pub proof fn lemma_hash_then_compare(password: Seq<char>, r: Result<String, ErrorMessage>)
    requires
        0 < password.len(),
        encode_utf8(password).len() <= MAX_PASSWORD_LENGTH,
        hash_outcome(password, r),
    ensures
        r matches Ok(h) && h@ != password && compare_spec(password, h@) == Ok::<
            bool,
            ErrorMessage,
        >(true),
{
}

/// An empty password and one over the limit are never hashed: `hash` fails
/// for them, with the policy error, and for no other password.
pub proof fn lemma_policy_rejections(password: Seq<char>, r: Result<String, ErrorMessage>)
    requires
        hash_outcome(password, r),
    ensures
        password.len() == 0 ==> r == Err::<String, ErrorMessage>(ErrorMessage::EmptyPassword),
        password.len() > 0 && encode_utf8(password).len() > MAX_PASSWORD_LENGTH ==> r == Err::<
            String,
            ErrorMessage,
        >(ErrorMessage::ExceededMaxPasswordLength(MAX_PASSWORD_LENGTH)),
        r is Ok <==> 0 < password.len() && encode_utf8(password).len() <= MAX_PASSWORD_LENGTH,
{
}

} // verus!
