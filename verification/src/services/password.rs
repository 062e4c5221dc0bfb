//! Password hashing with Argon2 (PHC string format, random salt).
use argon2::password_hash::SaltString;
use argon2::{Argon2, PasswordHash, PasswordHasher, PasswordVerifier};
use vstd::prelude::*;

use crate::errors::AppError;

verus! {

/// Whether `password` matches the Argon2 PHC string `phc`, as `argon2`'s
/// `verify_password` decides it; `None` where `PasswordHash::new` cannot read `phc`.
pub uninterp spec fn spec_password_matches(password: Seq<char>, phc: Seq<char>) -> Option<bool>;

/// Whether `text` is written in the PHC string format for Argon2id, version 19 (0x13):
/// it opens with `$argon2id$v=19$`, followed by the parameters, the salt and the hash.
pub open spec fn is_argon2id_phc(text: Seq<char>) -> bool {
    "$argon2id$v=19$"@.is_prefix_of(text)
}

/// Calls `Argon2::default().hash_password` with a salt drawn from the operating
/// system (`SaltString::generate(OsRng)`) and writes the PHC string. Trusted: the salt
/// is random, so the text is not determined; a hash that comes back verifies the
/// password it was made from, and is written for Argon2id version 19 (the defaults of
/// `Argon2::default`), as `PasswordHash`'s `Display` writes it. With the default parameters and a 16-byte salt the only
/// failure is a password longer than `MAX_PWD_LEN` (0xFFFFFFFF) bytes; on failure the
/// error's text comes back.
#[verifier::external_body]
fn argon2_hash(password: &str) -> (phc: Result<String, String>)
    ensures
        phc matches Ok(h) ==> spec_password_matches(password@, h@) == Some(true),
        phc matches Ok(h) ==> is_argon2id_phc(h@),
        vstd::utf8::encode_utf8(password@).len() <= 0xFFFF_FFFF ==> phc is Ok,
{
    let salt = SaltString::generate(&mut rand::rngs::OsRng);
    match Argon2::default().hash_password(password.as_bytes(), &salt) {
        Ok(h) => Ok(h.to_string()),
        Err(e) => Err(e.to_string()),
    }
}

/// Calls `PasswordHash::new` and `Argon2::default().verify_password`. Trusted: the
/// result is the named decision `spec_password_matches`; an unreadable hash comes
/// back as the parse error's text.
#[verifier::external_body]
fn argon2_verify(password: &str, phc: &str) -> (ok: Result<bool, String>)
    ensures
        match ok {
            Ok(b) => spec_password_matches(password@, phc@) == Some(b),
            Err(_) => spec_password_matches(password@, phc@) is None,
        },
{
    match PasswordHash::new(phc) {
        Ok(parsed) => Ok(Argon2::default().verify_password(password.as_bytes(), &parsed).is_ok()),
        Err(e) => Err(e.to_string()),
    }
}

/// Hash a password for storage. The stored text is an Argon2id PHC string, never the
/// password in clear (unless the password is itself written like such a string).
pub fn hash_password(password: &str) -> (hashed: Result<String, AppError>)
    ensures
        hashed matches Ok(h) ==> spec_password_matches(password@, h@) == Some(true),
        hashed matches Ok(h) ==> is_argon2id_phc(h@),
        hashed matches Ok(h) ==> (!is_argon2id_phc(password@) ==> h@ != password@),
        hashed matches Err(e) ==> e is Internal,
        vstd::utf8::encode_utf8(password@).len() <= 0xFFFF_FFFF ==> hashed is Ok,
{
    match argon2_hash(password) {
        Ok(h) => Ok(h),
        Err(detail) => {
            let mut m = "Password hash error: ".to_owned();
            m.append(detail.as_str());
            Err(AppError::Internal(m))
        },
    }
}

/// The outcome of checking `password` against the stored hash `hashed`: the match
/// decision, or an internal error where the hash cannot be read.
pub open spec fn is_password_verdict(password: Seq<char>, hashed: Seq<char>, ok: Result<bool, AppError>) -> bool {
    match ok {
        Ok(b) => spec_password_matches(password, hashed) == Some(b),
        Err(e) => spec_password_matches(password, hashed) is None && e is Internal,
    }
}

/// Check a password against its stored hash.
pub fn verify_password(password: &str, hashed: &str) -> (ok: Result<bool, AppError>)
    ensures
        is_password_verdict(password@, hashed@, ok),
{
    match argon2_verify(password, hashed) {
        Ok(b) => Ok(b),
        Err(detail) => {
            let mut m = "Invalid password hash: ".to_owned();
            m.append(detail.as_str());
            Err(AppError::Internal(m))
        },
    }
}

/// A hash that `hash_password` made from a password verifies that password: checking
/// the password against it comes out `Ok(true)`.
pub proof fn law_hash_then_verify(password: Seq<char>, hashed: Seq<char>, ok: Result<bool, AppError>)
    requires
        spec_password_matches(password, hashed) == Some(true),
        is_password_verdict(password, hashed, ok),
    ensures
        ok matches Ok(b) && b,
{
}

} // verus!
