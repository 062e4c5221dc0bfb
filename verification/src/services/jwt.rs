//! Signed access tokens (HS256 JWT) carrying a user's identity and role.
use jsonwebtoken::{decode, encode, DecodingKey, EncodingKey, Header, Validation};
use serde_json::value::RawValue;
use vstd::prelude::*;

use crate::clock::{add_seconds, in_chrono_range, is_clock_instant, now_utc, Timestamp};
use crate::errors::AppError;
use crate::models::JwtClaims;
use crate::text::{decimal, decimal_string, hex_digit};

verus! {

/// How `serde_json` writes one character inside a string literal: quote, backslash
/// and the control characters below U+0020 are escaped (short forms for backspace,
/// tab, line feed, form feed and carriage return, `\u00xx` with lower-case hex for the
/// rest); every other character stands for itself.
pub open spec fn json_char(c: char) -> Seq<char> {
    if c == '"' {
        seq!['\\', '"']
    } else if c == '\\' {
        seq!['\\', '\\']
    } else if c == '\u{8}' {
        seq!['\\', 'b']
    } else if c == '\t' {
        seq!['\\', 't']
    } else if c == '\n' {
        seq!['\\', 'n']
    } else if c == '\u{c}' {
        seq!['\\', 'f']
    } else if c == '\r' {
        seq!['\\', 'r']
    } else if (c as int) < 0x20 {
        seq!['\\', 'u', '0', '0', hex_digit(c as int / 16), hex_digit(c as int % 16)]
    } else {
        seq![c]
    }
}

/// The escaped characters of a string literal.
pub open spec fn json_escaped(s: Seq<char>) -> Seq<char>
    decreases s.len(),
{
    if s.len() == 0 {
        Seq::empty()
    } else {
        json_char(s[0]) + json_escaped(s.drop_first())
    }
}

/// The JSON string literal that `serde_json` writes for `s`: quoted and escaped.
pub open spec fn spec_json_string(s: Seq<char>) -> Seq<char> {
    seq!['"'] + json_escaped(s) + seq!['"']
}

/// The token that `jsonwebtoken::encode` makes with the default header (HS256) for
/// the given JSON claims text and secret, or `None` where it fails.
pub uninterp spec fn spec_jwt_encode(claims_json: Seq<char>, secret: Seq<char>) -> Option<Seq<char>>;

/// The JSON text of the claims of `token`, where it is a well-formed token whose HS256
/// signature verifies under `secret`; `None` otherwise.
pub uninterp spec fn spec_jwt_signed_claims(token: Seq<char>, secret: Seq<char>) -> Option<Seq<char>>;

/// Whether `claims_json` is claims text as this library writes it.
pub open spec fn is_claims_text(claims_json: Seq<char>) -> bool {
    exists|sub: Seq<char>, email: Seq<char>, role: Seq<char>, exp: nat|
        #![trigger spec_claims_json(sub, email, role, exp)]
        claims_json == spec_claims_json(sub, email, role, exp)
}

/// The earliest expiry that `jsonwebtoken`'s default validation accepts when the clock
/// reads `clock_secs`: it refuses a token whose expiry is below `now - leeway`, with a
/// leeway of 60 seconds, computed in `u64`. Before the first minute of 1970 that
/// subtraction wraps (where overflow is not checked; where it is, `decode` panics and
/// does not return), so the bound is then the wrapped value.
pub open spec fn earliest_accepted_expiry(clock_secs: u64) -> int {
    if clock_secs >= 60 {
        clock_secs - 60
    } else {
        clock_secs - 60 + 0x1_0000_0000_0000_0000
    }
}

/// How `jsonwebtoken::decode` with `Validation::default()` judges a token whose signed
/// claims are claims text as this library writes it, when the clock reads `clock_secs`
/// seconds since the epoch: accepted exactly when the expiry is not below
/// `earliest_accepted_expiry` (at most 60 seconds, the default leeway, before the clock).
pub open spec fn decode_judged_at(token: Seq<char>, secret: Seq<char>, clock_secs: u64, accepted: bool) -> bool {
    forall|sub: Seq<char>, email: Seq<char>, role: Seq<char>, exp: nat|
        #![trigger spec_claims_json(sub, email, role, exp)]
        spec_jwt_signed_claims(token, secret) == Some(spec_claims_json(sub, email, role, exp))
            && exp <= u64::MAX ==> (accepted <==> exp >= earliest_accepted_expiry(clock_secs))
}

/// Calls `serde_json::to_string` on a string slice. Trusted: the result is the
/// literal `spec_json_string` (serde_json's `ESCAPE` table and `write_char_escape`);
/// serialising a string cannot fail.
#[verifier::external_body]
fn json_string(s: &str) -> (lit: String)
    ensures
        lit@ == spec_json_string(s@),
{
    match serde_json::to_string(s) {
        Ok(t) => t,
        Err(_) => String::new(),
    }
}

/// Calls `jsonwebtoken::encode` with `Header::default()` and
/// `EncodingKey::from_secret`, the claims passed as raw JSON (`RawValue::from_string`).
/// Trusted: the result is the named token `spec_jwt_encode`; claims text as this
/// library writes it is valid JSON, which HS256 encoding cannot refuse; for claims
/// text without surrounding whitespace, the token carries that text and its
/// signature verifies under the same secret. On failure the error's text comes back.
#[verifier::external_body]
fn jwt_encode(claims_json: &str, secret: &str) -> (token: Result<String, String>)
    ensures
        match token {
            Ok(t) => spec_jwt_encode(claims_json@, secret@) == Some(t@),
            Err(_) => spec_jwt_encode(claims_json@, secret@) is None,
        },
        is_claims_text(claims_json@) ==> token is Ok,
        token matches Ok(t) ==> ((claims_json@.len() > 0 && claims_json@[0] == '{'
            && claims_json@.last() == '}') ==> spec_jwt_signed_claims(t@, secret@) == Some(
            claims_json@,
        )),
{
    let raw = match RawValue::from_string(claims_json.to_string()) {
        Ok(r) => r,
        Err(e) => return Err(e.to_string()),
    };
    match encode(&Header::default(), &raw, &EncodingKey::from_secret(secret.as_bytes())) {
        Ok(t) => Ok(t),
        Err(e) => Err(e.to_string()),
    }
}

/// Calls `jsonwebtoken::decode` with `DecodingKey::from_secret` and
/// `Validation::default()` (HS256, expiry required, a leeway of 60 seconds), the
/// claims read as raw JSON. Trusted: accepted claims are the named signed claims of
/// the token; the expiry is judged against one reading of the clock
/// (`get_current_timestamp`), as `decode_judged_at` states for claims text written
/// by this library. Which instant the clock reads is not stated, nor how tokens with
/// other claims text are judged. On failure the error's text comes back.
#[verifier::external_body]
fn jwt_decode(token: &str, secret: &str) -> (claims: Result<String, String>)
    ensures
        claims matches Ok(c) ==> spec_jwt_signed_claims(token@, secret@) == Some(c@),
        exists|clock_secs: u64| #[trigger] decode_judged_at(token@, secret@, clock_secs, claims is Ok),
{
    match decode::<Box<RawValue>>(token, &DecodingKey::from_secret(secret.as_bytes()), &Validation::default()) {
        Ok(data) => Ok(data.claims.get().to_string()),
        Err(e) => Err(e.to_string()),
    }
}

/// The JSON text of a set of claims, fields in the order `sub`, `email`, `role`, `exp`.
pub open spec fn spec_claims_json(sub: Seq<char>, email: Seq<char>, role: Seq<char>, exp: nat) -> Seq<char> {
    "{\"sub\":"@ + spec_json_string(sub) + ",\"email\":"@ + spec_json_string(email) + ",\"role\":"@
        + spec_json_string(role) + ",\"exp\":"@ + decimal(exp) + "}"@
}

/// The JSON text of the claims, as the token carries them.
pub fn claims_json(claims: &JwtClaims) -> (json: String)
    ensures
        json@ == spec_claims_json(claims.sub@, claims.email@, claims.role@, claims.exp as nat),
{
    let mut json = "{\"sub\":".to_owned();
    json.append(json_string(claims.sub.as_str()).as_str());
    json.append(",\"email\":");
    json.append(json_string(claims.email.as_str()).as_str());
    json.append(",\"role\":");
    json.append(json_string(claims.role.as_str()).as_str());
    json.append(",\"exp\":");
    json.append(decimal_string(claims.exp as u64).as_str());
    json.append("}");
    json
}

/// The expiry (seconds since the epoch, as `usize`) of a token made at `now` that
/// lasts `expiry_hours` hours: the hours taken as a signed number (`as i64`), 3600
/// seconds each, added to `now`; `None` where `now` or the sum lies outside
/// `chrono`'s range.
pub open spec fn spec_jwt_expiry(now: Timestamp, expiry_hours: u64) -> Option<usize> {
    let sum = now.secs + (expiry_hours as i64) * 3600;
    if in_chrono_range(now.secs as int) && in_chrono_range(sum) {
        Some(sum as usize)
    } else {
        None
    }
}

/// The expiry of a token made at `now` lasting `expiry_hours` hours.
pub fn jwt_expiry(now: Timestamp, expiry_hours: u64) -> (exp: Option<usize>)
    requires
        now.nanos < 1_000_000_000,
    ensures
        exp == spec_jwt_expiry(now, expiry_hours),
{
    let hours = expiry_hours as i64;
    let secs = match hours.checked_mul(3600) {
        Some(s) => s,
        None => return None,
    };
    match add_seconds(now, secs) {
        Some(t) => Some(t.secs as usize),
        None => None,
    }
}

/// The outcome of making a token at instant `now`: the token that `jsonwebtoken` makes
/// for the claims (user, e-mail, role, expiry), which carries those claims; an internal
/// error where the expiry falls outside `chrono`'s range. The expiry is `now` plus
/// 3600 seconds per hour.
pub open spec fn is_jwt_outcome(
    user_id: Seq<char>,
    email: Seq<char>,
    role: Seq<char>,
    secret: Seq<char>,
    expiry_hours: u64,
    now: Timestamp,
    token: Result<String, AppError>,
) -> bool {
    match spec_jwt_expiry(now, expiry_hours) {
        None => token matches Err(e) && e is Internal,
        Some(exp) => token matches Ok(s) && spec_jwt_encode(
            spec_claims_json(user_id, email, role, exp as nat),
            secret,
        ) == Some(s@) && spec_jwt_signed_claims(s@, secret) == Some(
            spec_claims_json(user_id, email, role, exp as nat),
        ),
    }
}

/// Make a token for the user at instant `now`.
pub fn create_jwt_at(
    user_id: &str,
    email: &str,
    role: &str,
    secret: &str,
    expiry_hours: u64,
    now: Timestamp,
) -> (token: Result<String, AppError>)
    requires
        now.nanos < 1_000_000_000,
    ensures
        is_jwt_outcome(user_id@, email@, role@, secret@, expiry_hours, now, token),
{
    let exp = match jwt_expiry(now, expiry_hours) {
        Some(e) => e,
        None => return Err(AppError::Internal("JWT encode error: expiry out of range".to_owned())),
    };
    let claims = JwtClaims {
        sub: user_id.to_owned(),
        email: email.to_owned(),
        role: role.to_owned(),
        exp,
    };
    let json = claims_json(&claims);
    proof {
        reveal_strlit("{\"sub\":");
        reveal_strlit("}");
    }
    match jwt_encode(json.as_str(), secret) {
        Ok(t) => Ok(t),
        Err(detail) => {
            let mut m = "JWT encode error: ".to_owned();
            m.append(detail.as_str());
            Err(AppError::Internal(m))
        },
    }
}

/// Make a token for the user, expiring `expiry_hours` hours from now.
pub fn create_jwt(user_id: &str, email: &str, role: &str, secret: &str, expiry_hours: u64) -> (token: Result<String, AppError>)
    ensures
        exists|now: Timestamp| #![trigger is_jwt_outcome(user_id@, email@, role@, secret@, expiry_hours, now, token)]
            is_clock_instant(now) && is_jwt_outcome(user_id@, email@, role@, secret@, expiry_hours, now, token),
{
    let now = now_utc();
    create_jwt_at(user_id, email, role, secret, expiry_hours, now)
}

/// The outcome of checking `token` when the clock reads `clock_secs`: accepted claims
/// are its signed claims; a token carrying this library's claims text is accepted
/// exactly while its expiry is not below `earliest_accepted_expiry` (until 60 seconds
/// after the expiry, for a clock past the first minute of 1970); a refusal is
/// Unauthorized, with a message that starts "Invalid token: ".
pub open spec fn is_token_verdict_at(
    token: Seq<char>,
    secret: Seq<char>,
    clock_secs: u64,
    claims: Result<String, AppError>,
) -> bool {
    &&& claims matches Ok(c) ==> spec_jwt_signed_claims(token, secret) == Some(c@)
    &&& decode_judged_at(token, secret, clock_secs, claims is Ok)
    &&& claims matches Err(e) ==> (e matches AppError::Unauthorized(m) && "Invalid token: "@.is_prefix_of(m@))
}

/// Check a token's signature and expiry, giving back the JSON text of its claims.
/// The expiry is judged against one reading of the clock, as `is_token_verdict_at`
/// states for that reading; which instant the clock reads is not stated.
pub fn verify_jwt(token: &str, secret: &str) -> (claims: Result<String, AppError>)
    ensures
        exists|clock_secs: u64| #[trigger] is_token_verdict_at(token@, secret@, clock_secs, claims),
{
    let decoded = jwt_decode(token, secret);
    let ghost clock_secs = choose|n: u64| #[trigger] decode_judged_at(token@, secret@, n, decoded is Ok);
    let verdict = match decoded {
        Ok(c) => Ok(c),
        Err(detail) => {
            let mut m = "Invalid token: ".to_owned();
            m.append(detail.as_str());
            proof {
                reveal_strlit("Invalid token: ");
                assert("Invalid token: "@.is_prefix_of(m@));
            }
            Err(AppError::Unauthorized(m))
        },
    };
    assert(is_token_verdict_at(token@, secret@, clock_secs, verdict));
    verdict
}

/// A token made for a user at `now` lasting `expiry_hours`, checked when the clock
/// reads no later than 60 seconds after its expiry (`now` plus 3600 seconds per hour),
/// is accepted and gives back exactly the claims it was made with: the user's
/// identifier, e-mail address and role, and that expiry.
pub proof fn law_fresh_token_accepted(
    user_id: Seq<char>,
    email: Seq<char>,
    role: Seq<char>,
    secret: Seq<char>,
    expiry_hours: u64,
    now: Timestamp,
    token: String,
    clock_secs: u64,
    claims: Result<String, AppError>,
)
    requires
        is_jwt_outcome(user_id, email, role, secret, expiry_hours, now, Ok(token)),
        now.nanos < 1_000_000_000,
        0 <= now.secs + (expiry_hours as i64) * 3600 <= usize::MAX,
        60 <= clock_secs <= now.secs + (expiry_hours as i64) * 3600 + 60,
        is_token_verdict_at(token@, secret, clock_secs, claims),
    ensures
        claims matches Ok(c) && c@ == spec_claims_json(
            user_id,
            email,
            role,
            (now.secs + (expiry_hours as i64) * 3600) as nat,
        ),
{
    let exp = spec_jwt_expiry(now, expiry_hours).unwrap();
    assert(exp as int == now.secs + (expiry_hours as i64) * 3600);
    assert(spec_claims_json(user_id, email, role, exp as nat) == spec_claims_json(
        user_id,
        email,
        role,
        (now.secs + (expiry_hours as i64) * 3600) as nat,
    ));
}

/// A token made for a user at `now` and checked by `verify_jwt` gives back exactly the
/// claims it was made with, or is refused at a clock reading more than 60 seconds
/// after its expiry (or within the first minute of 1970, where `jsonwebtoken`'s bound
/// wraps).
pub proof fn law_checked_token_is_fresh_or_expired(
    user_id: Seq<char>,
    email: Seq<char>,
    role: Seq<char>,
    secret: Seq<char>,
    expiry_hours: u64,
    now: Timestamp,
    token: String,
    claims: Result<String, AppError>,
)
    requires
        is_jwt_outcome(user_id, email, role, secret, expiry_hours, now, Ok(token)),
        now.nanos < 1_000_000_000,
        0 <= now.secs + (expiry_hours as i64) * 3600 <= usize::MAX,
        exists|clock_secs: u64| #[trigger] is_token_verdict_at(token@, secret, clock_secs, claims),
    ensures
        claims matches Ok(c) ==> c@ == spec_claims_json(
            user_id,
            email,
            role,
            (now.secs + (expiry_hours as i64) * 3600) as nat,
        ),
        claims is Err ==> exists|clock_secs: u64| #[trigger]
            is_token_verdict_at(token@, secret, clock_secs, claims) && (clock_secs < 60
                || clock_secs > now.secs + (expiry_hours as i64) * 3600 + 60),
{
    let clock_secs = choose|n: u64| #[trigger] is_token_verdict_at(token@, secret, n, claims);
    let sum = now.secs + (expiry_hours as i64) * 3600;
    let exp = spec_jwt_expiry(now, expiry_hours).unwrap();
    assert(exp as int == sum);
    assert(spec_claims_json(user_id, email, role, exp as nat) == spec_claims_json(
        user_id,
        email,
        role,
        sum as nat,
    ));
    if 60 <= clock_secs <= sum + 60 {
        law_fresh_token_accepted(user_id, email, role, secret, expiry_hours, now, token, clock_secs, claims);
    }
}

/// A token made at a clock instant `now` is made (its expiry does not overflow)
/// wherever `now` plus 3600 seconds per hour lies within `chrono`'s range.
pub proof fn law_token_is_made(
    user_id: Seq<char>,
    email: Seq<char>,
    role: Seq<char>,
    secret: Seq<char>,
    expiry_hours: u64,
    now: Timestamp,
    token: Result<String, AppError>,
)
    requires
        is_jwt_outcome(user_id, email, role, secret, expiry_hours, now, token),
        is_clock_instant(now),
        expiry_hours <= i64::MAX,
        now.secs + (expiry_hours as i64) * 3600 <= 8_210_266_876_799,
    ensures
        token is Ok,
{
}

} // verus!
