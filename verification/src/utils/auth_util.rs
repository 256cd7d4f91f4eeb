//! Passwords and reset tokens. Hashing and checking are `argon2`'s, the
//! random characters are `rand`'s.

use crate::text::text_of_chars;
use vstd::prelude::*;
use vstd::string::StringExecFns;

verus! {

/// `argon2::password_hash::Error`, the error of hashing and checking. The
/// proofs do not look inside one.
#[verifier::external_type_specification]
#[verifier::external_body]
pub struct ExPasswordHashError(argon2::password_hash::Error);

/// Why a password could not be hashed or checked.
#[derive(Debug, Clone, Copy, PartialEq, Eq, Structural)]
pub enum PasswordError {
    /// Hashing failed.
    Hashing,
    /// The stored hash is no password hash string.
    InvalidHash,
}

/// Whether `password` is the password that the hash string `hash` was made
/// from; `None` where `hash` is no password hash string.
pub uninterp spec fn password_verdict(password: Seq<char>, hash: Seq<char>) -> Option<bool>;

/// Whether `c` is an ASCII letter or digit.
pub open spec fn is_token_char(c: char) -> bool {
    ('0' <= c <= '9') || ('a' <= c <= 'z') || ('A' <= c <= 'Z')
}

/// Calls `argon2::password_hash::SaltString::generate` with the operating
/// system's random numbers, then `hash_password` of
/// `argon2::Argon2::default()` and `to_string` on the hash. The salt is
/// random, so the text differs from call to call. Trusted: whatever the
/// salt, the text is a hash string that the password verifies against.
#[verifier::external_body]
fn argon2_hash(password: &str) -> (hash: Result<String, argon2::password_hash::Error>)
    ensures
        hash matches Ok(text) ==> password_verdict(password@, text@) == Some(true),
{
    let salt = argon2::password_hash::SaltString::generate(&mut rand::rngs::OsRng);
    let hasher = argon2::Argon2::default();
    let hash = argon2::PasswordHasher::hash_password(&hasher, password.as_bytes(), &salt)?;
    Ok(hash.to_string())
}

/// Calls `argon2::PasswordHash::new` on the hash string and then
/// `verify_password` of `argon2::Argon2::default()`. Trusted: the call fails
/// exactly where the hash string cannot be read, and tells otherwise whether
/// the password verifies.
#[verifier::external_body]
fn argon2_verify(password: &str, hash: &str) -> (verdict: Result<
    bool,
    argon2::password_hash::Error,
>)
    ensures
        verdict.is_ok() == password_verdict(password@, hash@).is_some(),
        verdict is Ok ==> verdict.unwrap() == password_verdict(password@, hash@).unwrap(),
{
    let parsed = argon2::PasswordHash::new(hash)?;
    let hasher = argon2::Argon2::default();
    Ok(argon2::PasswordVerifier::verify_password(&hasher, password.as_bytes(), &parsed).is_ok())
}

/// Calls `rand::thread_rng` and samples `rand::distributions::Alphanumeric`
/// once. Trusted: the byte is an ASCII letter or digit.
#[verifier::external_body]
fn random_alphanumeric() -> (byte: u8)
    ensures
        is_token_char(byte as char),
{
    rand::Rng::sample(&mut rand::thread_rng(), rand::distributions::Alphanumeric)
}

/// Hashes a password with a fresh random salt. The hash is one that the
/// password verifies against.
pub fn hash_password(password: &str) -> (hash: Result<String, PasswordError>)
    ensures
        hash matches Ok(text) ==> password_verdict(password@, text@) == Some(true),
        hash is Err ==> hash == Err::<String, PasswordError>(PasswordError::Hashing),
{
    match argon2_hash(password) {
        Ok(hash) => Ok(hash),
        Err(_) => Err(PasswordError::Hashing),
    }
}

/// Checks a password against a stored hash.
pub fn verify_password(password: &str, hash: &str) -> (verdict: Result<bool, PasswordError>)
    ensures
        verdict == match password_verdict(password@, hash@) {
            Some(valid) => Ok::<bool, PasswordError>(valid),
            None => Err::<bool, PasswordError>(PasswordError::InvalidHash),
        },
{
    match argon2_verify(password, hash) {
        Ok(valid) => Ok(valid),
        Err(_) => Err(PasswordError::InvalidHash),
    }
}

/// A random token of `length` ASCII letters and digits.
pub fn generate_reset_token(length: usize) -> (token: String)
    ensures
        token@.len() == length,
        forall|i: int| 0 <= i < token@.len() ==> is_token_char(#[trigger] token@[i]),
{
    let mut chars: Vec<char> = Vec::new();
    let mut i: usize = 0;
    while i < length
        invariant
            i <= length,
            chars@.len() == i,
            forall|j: int| 0 <= j < chars@.len() ==> is_token_char(#[trigger] chars@[j]),
        decreases length - i,
    {
        let byte = random_alphanumeric();
        chars.push(byte as char);
        i += 1;
    }
    text_of_chars(&chars)
}

/// The link that a user follows to set a new password.
pub open spec fn reset_link_text(token: Seq<char>) -> Seq<char> {
    "http://localhost:5173/reset-password/"@ + token
}

/// Writes the link for a reset token.
pub fn reset_link(token: &str) -> (link: String)
    ensures
        link@ == reset_link_text(token@),
{
    "http://localhost:5173/reset-password/".to_owned().concat(token)
}

/// Writes the body of the e-mail that carries the link.
pub fn reset_email_body(token: &str) -> (body: String)
    ensures
        body@ == "Visit this link to reset your password: "@ + reset_link_text(token@),
{
    let link = reset_link(token);
    "Visit this link to reset your password: ".to_owned().concat(link.as_str())
}

} // verus!
