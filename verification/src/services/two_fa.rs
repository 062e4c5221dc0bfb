//! One-time codes for the second login step: generation, hashing, checking.
use rand::Rng;
use sha2::Digest;
use vstd::prelude::*;

use crate::text::{decimal, decimal_string, hex_lower, lemma_six_digit_numeral, all_digits};

verus! {

/// The SHA-256 digest of `data`, as the `sha2` crate computes it.
pub uninterp spec fn spec_sha256(data: Seq<u8>) -> Seq<u8>;

/// Calls `sha2::Sha256::digest`. Trusted: the result is the SHA-256 digest of
/// `data` (named `spec_sha256`) and is 32 bytes long, the output size of `Sha256`.
#[verifier::external_body]
fn sha256_digest(data: &[u8]) -> (digest: Vec<u8>)
    ensures
        digest@ == spec_sha256(data@),
        digest@.len() == 32,
{
    sha2::Sha256::digest(data).to_vec()
}

/// Calls `hex::encode`. Trusted: the result is the lower-case hexadecimal text of
/// `data`, two characters per byte, high nibble first (the crate's `HEX_CHARS_LOWER` table).
#[verifier::external_body]
fn hex_encode(data: &[u8]) -> (text: String)
    ensures
        text@ == hex_lower(data@),
{
    hex::encode(data)
}

/// Calls `rand::thread_rng().gen_range(low..=high)`. Trusted: the result lies in
/// `low..=high`; which value comes out is left to chance. The range must not be empty
/// (`gen_range` panics on an empty range).
#[verifier::external_body]
fn random_u32_in(low: u32, high: u32) -> (r: u32)
    requires
        low <= high,
    ensures
        low <= r <= high,
{
    rand::thread_rng().gen_range(low..=high)
}

/// The stored form of a code: lower-case hex of the SHA-256 digest of its UTF-8 bytes.
pub open spec fn spec_hash_code(code: Seq<char>) -> Seq<char> {
    hex_lower(spec_sha256(vstd::utf8::encode_utf8(code)))
}

/// Whether `code` is the text of a six-digit one-time code.
pub open spec fn is_six_digit_code(code: Seq<char>) -> bool {
    exists|n: nat| 100_000 <= n <= 999_999 && code == decimal(n)
}

/// Generate a 6-digit one-time code.
pub fn generate_code() -> (code: String)
    ensures
        is_six_digit_code(code@),
        code@.len() == 6,
        all_digits(code@),
{
    let n = random_u32_in(100_000, 999_999);
    proof {
        lemma_six_digit_numeral(n as nat);
    }
    decimal_string(n as u64)
}

/// Hash a code with SHA-256 before storing; plain-text codes are never stored.
pub fn hash_code(code: &str) -> (hash: String)
    ensures
        hash@ == spec_hash_code(code@),
        hash@.len() == 64,
{
    let digest = sha256_digest(code.as_bytes());
    hex_encode(digest.as_slice())
}

/// Whether a submitted code matches a stored hash.
pub open spec fn code_matches(submitted: Seq<char>, stored_hash: Seq<char>) -> bool {
    spec_hash_code(submitted) == stored_hash
}

/// Compare a submitted code against the stored hash.
pub fn verify_code(submitted: &str, stored_hash: &str) -> (ok: bool)
    ensures
        ok == code_matches(submitted@, stored_hash@),
{
    let hash = hash_code(submitted);
    let stored = stored_hash.to_owned();
    hash == stored
}

/// A code always matches the hash made from it.
pub proof fn law_code_matches_own_hash(code: Seq<char>)
    ensures
        code_matches(code, spec_hash_code(code)),
{
}

} // verus!
