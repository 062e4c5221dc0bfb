//! The two login steps: password check that issues a one-time-code challenge, and
//! redemption of the challenge for an access token.
use vstd::prelude::*;

use crate::clock::{is_clock_instant, is_clock_text, now_utc, spec_parse_rfc3339, Timestamp};
use crate::errors::{spec_message, spec_status, AppError};
use crate::models::{expired_at, AuthTokenResponse, EmailLog, LoginChallenge, LoginChallengeResponse, User};
use crate::services::email::{spec_verification_body, spec_verification_subject, verification_email};
use crate::services::jwt::{create_jwt_at, is_jwt_outcome, spec_claims_json, spec_jwt_expiry, spec_jwt_signed_claims};
use crate::services::password::{spec_password_matches, verify_password};
use crate::text::is_uuid_v4_text;
use crate::services::two_fa::{
    code_matches, generate_code, hash_code, is_six_digit_code, law_code_matches_own_hash, spec_hash_code, verify_code,
};

verus! {

/// Message of a refused login.
pub open spec fn spec_invalid_login() -> Seq<char> {
    "Invalid email or password"@
}

/// The outcome of checking `password` for the account `found` by e-mail address.
pub open spec fn is_auth_verdict(found: Option<User>, password: Seq<char>, user: Result<User, AppError>) -> bool {
    match found {
        None => user matches Err(AppError::Unauthorized(m)) && m@ == spec_invalid_login(),
        Some(u) => match spec_password_matches(password, u.hashed_password@) {
            Some(true) => user matches Ok(v) && v == u,
            Some(false) => user matches Err(AppError::Unauthorized(m)) && m@ == spec_invalid_login(),
            None => user matches Err(e) && e is Internal,
        },
    }
}

/// Step 1 of login, first half: the account found for the e-mail address must exist
/// and the password must match its stored hash.
pub fn authenticate(found: Option<User>, password: &str) -> (user: Result<User, AppError>)
    ensures
        is_auth_verdict(found, password@, user),
{
    let u = match found {
        Some(u) => u,
        None => return Err(AppError::Unauthorized("Invalid email or password".to_owned())),
    };
    if !verify_password(password, u.hashed_password.as_str())? {
        return Err(AppError::Unauthorized("Invalid email or password".to_owned()));
    }
    Ok(u)
}

/// The outcome of a successful password check: the one-time code, the challenge to
/// store, the e-mail that carries the code, and the answer to the caller (which holds
/// the challenge's identifier, not a token).
pub struct LoginStart {
    pub user: User,
    pub code: String,
    pub challenge: LoginChallenge,
    pub email: EmailLog,
    pub response: LoginChallengeResponse,
}

/// Message of the answer to a successful password check.
pub open spec fn spec_code_sent(email: Seq<char>) -> Seq<char> {
    "Verification code sent to "@ + email + ". Check console or GET /dev/email-logs/latest"@
}

/// What a successful password check for `u` yields.
pub open spec fn started_for(s: LoginStart, u: User, expiry_minutes: i64, now: Timestamp) -> bool {
    &&& s.user == u
    &&& is_six_digit_code(s.code@)
    &&& LoginChallenge::made_at(s.challenge, u.id@, spec_hash_code(s.code@), expiry_minutes, now)
    &&& s.email.to_email@ == u.email@
    &&& s.email.subject@ == spec_verification_subject()
    &&& s.email.body@ == spec_verification_body(s.code@)
    &&& is_uuid_v4_text(s.email.id@)
    &&& is_clock_text(s.email.sent_at@)
    &&& s.response.login_challenge_id@ == s.challenge.id@
    &&& s.response.message@ == spec_code_sent(u.email@)
}

/// The outcome of step 1 of login at instant `now` for the account `found` and
/// `password`: refused as in `is_auth_verdict`; else started for the account, or an
/// internal error where the challenge's expiry falls outside `chrono`'s range.
pub open spec fn is_login_outcome(
    found: Option<User>,
    password: Seq<char>,
    expiry_minutes: i64,
    now: Timestamp,
    started: Result<LoginStart, AppError>,
) -> bool {
    match found {
        None => started matches Err(AppError::Unauthorized(m)) && m@ == spec_invalid_login(),
        Some(u) => match spec_password_matches(password, u.hashed_password@) {
            Some(true) => if LoginChallenge::can_expire(now, expiry_minutes) {
                started matches Ok(s) && started_for(s, u, expiry_minutes, now)
            } else {
                started matches Err(e) && e is Internal
            },
            Some(false) => started matches Err(AppError::Unauthorized(m)) && m@ == spec_invalid_login(),
            None => started matches Err(e) && e is Internal,
        },
    }
}

/// POST /auth/login at instant `now`, without the storage: checks the password, then
/// makes a one-time code, its hashed challenge valid for `expiry_minutes`, and the
/// e-mail that carries it.
pub fn start_login_at(found: Option<User>, password: &str, expiry_minutes: i64, now: Timestamp) -> (started: Result<LoginStart, AppError>)
    requires
        now.nanos < 1_000_000_000,
    ensures
        is_login_outcome(found, password@, expiry_minutes, now, started),
{
    let user = authenticate(found, password)?;
    let code = generate_code();
    let code_hash = hash_code(code.as_str());
    let challenge = match LoginChallenge::new_at(user.id.as_str(), code_hash.as_str(), expiry_minutes, now) {
        Some(c) => c,
        None => return Err(AppError::Internal("Challenge expiry out of range".to_owned())),
    };
    let email = verification_email(user.email.as_str(), code.as_str());
    let mut message = "Verification code sent to ".to_owned();
    message.append(user.email.as_str());
    message.append(". Check console or GET /dev/email-logs/latest");
    let response = LoginChallengeResponse { login_challenge_id: challenge.id.clone(), message };
    Ok(LoginStart { user, code, challenge, email, response })
}

/// POST /auth/login, without the storage: step 1 of login applied now.
pub fn start_login(found: Option<User>, password: &str, expiry_minutes: i64) -> (started: Result<LoginStart, AppError>)
    ensures
        exists|now: Timestamp| #![trigger is_login_outcome(found, password@, expiry_minutes, now, started)]
            is_clock_instant(now) && is_login_outcome(found, password@, expiry_minutes, now, started),
{
    let now = now_utc();
    start_login_at(found, password, expiry_minutes, now)
}

/// Redemption rule of a challenge at instant `now`, in order: it must exist, be
/// unused, not have expired, and the code must match the stored hash; a challenge
/// that passes is handed back. An unreadable expiry counts as `unreadable_expiry`.
pub open spec fn is_challenge_verdict(
    challenge: Option<LoginChallenge>,
    code: Seq<char>,
    unreadable_expiry: Timestamp,
    now: Timestamp,
    verdict: Result<LoginChallenge, AppError>,
) -> bool {
    match challenge {
        None => verdict matches Err(AppError::BadRequest(m)) && m@ == "Challenge not found"@,
        Some(c) => if c.used != 0 {
            verdict matches Err(AppError::BadRequest(m)) && m@ == "Code has already been used"@
        } else if expired_at(spec_parse_rfc3339(c.expires_at@), unreadable_expiry, now) {
            verdict matches Err(AppError::BadRequest(m)) && m@ == "Code has expired"@
        } else if !code_matches(code, c.code_hash@) {
            verdict matches Err(AppError::Unauthorized(m)) && m@ == "Invalid verification code"@
        } else {
            verdict == Ok::<LoginChallenge, AppError>(c)
        },
    }
}

/// POST /auth/verify-2fa, the checks at instant `now` (an unreadable expiry counting
/// as `unreadable_expiry`).
pub fn check_challenge_at(
    challenge: Option<LoginChallenge>,
    code: &str,
    unreadable_expiry: Timestamp,
    now: Timestamp,
) -> (verdict: Result<LoginChallenge, AppError>)
    ensures
        is_challenge_verdict(challenge, code@, unreadable_expiry, now, verdict),
{
    let c = match challenge {
        Some(c) => c,
        None => return Err(AppError::BadRequest("Challenge not found".to_owned())),
    };
    if c.used != 0 {
        return Err(AppError::BadRequest("Code has already been used".to_owned()));
    }
    if c.is_expired_at(unreadable_expiry, now) {
        return Err(AppError::BadRequest("Code has expired".to_owned()));
    }
    if !verify_code(code, c.code_hash.as_str()) {
        return Err(AppError::Unauthorized("Invalid verification code".to_owned()));
    }
    Ok(c)
}

/// POST /auth/verify-2fa, the checks applied now.
pub fn check_challenge(challenge: Option<LoginChallenge>, code: &str) -> (verdict: Result<LoginChallenge, AppError>)
    ensures
        exists|unreadable_expiry: Timestamp, now: Timestamp|
            #![trigger is_challenge_verdict(challenge, code@, unreadable_expiry, now, verdict)]
            is_clock_instant(unreadable_expiry) && is_clock_instant(now) && is_challenge_verdict(
                challenge,
                code@,
                unreadable_expiry,
                now,
                verdict,
            ),
{
    let unreadable_expiry = now_utc();
    let now = now_utc();
    check_challenge_at(challenge, code, unreadable_expiry, now)
}

/// POST /auth/verify-2fa, claiming the challenge: the store marks it used only where
/// it was still unused; when no row changed, another request redeemed it first.
pub fn check_challenge_claimed(rows_affected: u64) -> (r: Result<(), AppError>)
    ensures
        rows_affected == 0 ==> (r matches Err(AppError::BadRequest(m)) && m@ == "Code has already been used"@),
        rows_affected != 0 ==> r is Ok,
{
    if rows_affected == 0 {
        return Err(AppError::BadRequest("Code has already been used".to_owned()));
    }
    Ok(())
}

/// POST /auth/verify-2fa, the answer at instant `now`: a Bearer token for the user.
pub fn issue_token_at(user: &User, secret: &str, expiry_hours: u64, now: Timestamp) -> (answer: Result<AuthTokenResponse, AppError>)
    requires
        now.nanos < 1_000_000_000,
    ensures
        answer matches Ok(r) ==> r.token_type@ == "Bearer"@,
        is_jwt_outcome(user.id@, user.email@, user.role@, secret@, expiry_hours, now, token_of(answer)),
{
    let token = create_jwt_at(user.id.as_str(), user.email.as_str(), user.role.as_str(), secret, expiry_hours, now)?;
    Ok(AuthTokenResponse { access_token: token, token_type: "Bearer".to_owned() })
}

/// The token of an answer (or its error).
pub open spec fn token_of(answer: Result<AuthTokenResponse, AppError>) -> Result<String, AppError> {
    match answer {
        Ok(r) => Ok(r.access_token),
        Err(e) => Err(e),
    }
}

/// POST /auth/verify-2fa, the answer: a Bearer token for the user, made now.
pub fn issue_token(user: &User, secret: &str, expiry_hours: u64) -> (answer: Result<AuthTokenResponse, AppError>)
    ensures
        answer matches Ok(r) ==> r.token_type@ == "Bearer"@,
        exists|now: Timestamp| #![trigger is_jwt_outcome(user.id@, user.email@, user.role@, secret@, expiry_hours, now, token_of(answer))]
            is_clock_instant(now) && is_jwt_outcome(user.id@, user.email@, user.role@, secret@, expiry_hours, now, token_of(answer)),
{
    let now = now_utc();
    issue_token_at(user, secret, expiry_hours, now)
}

/// An unknown e-mail address or a wrong password is answered 401 Unauthorized, with
/// the same message in both cases; login then yields no challenge.
pub proof fn law_wrong_password_is_401(
    found: Option<User>,
    password: Seq<char>,
    expiry_minutes: i64,
    now: Timestamp,
    started: Result<LoginStart, AppError>,
)
    requires
        is_login_outcome(found, password, expiry_minutes, now, started),
        found matches Some(u) ==> spec_password_matches(password, u.hashed_password@) == Some(false),
    ensures
        started matches Err(e) && spec_status(e) == 401 && spec_message(e)
            == "Unauthorized: "@ + spec_invalid_login(),
{
}

/// An account whose stored hash was made from its password (as the seed makes it)
/// passes the password check with that password.
pub proof fn law_right_password_passes(u: User, password: Seq<char>, user: Result<User, AppError>)
    requires
        spec_password_matches(password, u.hashed_password@) == Some(true),
        is_auth_verdict(Some(u), password, user),
    ensures
        user == Ok::<User, AppError>(u),
{
}

/// Login and redemption as the functions that read the clock state them: after a
/// login that `start_login` started, `check_challenge` with the e-mailed code either
/// accepts the challenge or refuses it as expired; no other refusal can come.
pub proof fn law_emailed_code_only_expires(
    u: User,
    password: Seq<char>,
    expiry_minutes: i64,
    started: Result<LoginStart, AppError>,
    verdict: Result<LoginChallenge, AppError>,
)
    requires
        exists|created: Timestamp| #![trigger is_login_outcome(Some(u), password, expiry_minutes, created, started)]
            is_clock_instant(created) && is_login_outcome(Some(u), password, expiry_minutes, created, started),
        started matches Ok(s) && exists|unreadable_expiry: Timestamp, now: Timestamp|
            #![trigger is_challenge_verdict(Some(s.challenge), s.code@, unreadable_expiry, now, verdict)]
            is_clock_instant(unreadable_expiry) && is_clock_instant(now) && is_challenge_verdict(
                Some(s.challenge),
                s.code@,
                unreadable_expiry,
                now,
                verdict,
            ),
    ensures
        started matches Ok(s) && (verdict == Ok::<LoginChallenge, AppError>(s.challenge) || (verdict matches Err(
            AppError::BadRequest(m),
        ) && m@ == "Code has expired"@)),
{
    let s = started.unwrap();
    law_code_matches_own_hash(s.code@);
}

/// A challenge made at `created` for the hash of `code`, redeemed with `code` before
/// its expiry (expiry in the years 0000 to 9999), is accepted.
pub proof fn law_fresh_challenge_redeems(
    c: LoginChallenge,
    user_id: Seq<char>,
    code: Seq<char>,
    expiry_minutes: i64,
    created: Timestamp,
    unreadable_expiry: Timestamp,
    now: Timestamp,
    verdict: Result<LoginChallenge, AppError>,
)
    requires
        LoginChallenge::made_at(c, user_id, spec_hash_code(code), expiry_minutes, created),
        LoginChallenge::expiry_of(created, expiry_minutes).in_four_digit_years(),
        !now.is_after(LoginChallenge::expiry_of(created, expiry_minutes).pair()),
        is_challenge_verdict(Some(c), code, unreadable_expiry, now, verdict),
    ensures
        verdict == Ok::<LoginChallenge, AppError>(c),
{
}

/// The code e-mailed by a login started at `created` redeems its challenge until the
/// expiry (expiry in the years 0000 to 9999).
pub proof fn law_login_code_redeems(
    s: LoginStart,
    u: User,
    expiry_minutes: i64,
    created: Timestamp,
    unreadable_expiry: Timestamp,
    now: Timestamp,
    verdict: Result<LoginChallenge, AppError>,
)
    requires
        started_for(s, u, expiry_minutes, created),
        LoginChallenge::expiry_of(created, expiry_minutes).in_four_digit_years(),
        !now.is_after(LoginChallenge::expiry_of(created, expiry_minutes).pair()),
        is_challenge_verdict(Some(s.challenge), s.code@, unreadable_expiry, now, verdict),
    ensures
        verdict == Ok::<LoginChallenge, AppError>(s.challenge),
        s.response.login_challenge_id@ == s.challenge.id@,
{
    law_fresh_challenge_redeems(s.challenge, u.id@, s.code@, expiry_minutes, created, unreadable_expiry, now, verdict);
}

/// Login end to end: a login started at `created` for an account whose password
/// matched, with the challenge's expiry before the year 10000, yields a challenge; its
/// e-mailed code, redeemed at a clock instant `now` no later than the expiry, is
/// accepted; and the token then made at `now` (lasting `expiry_hours`, ending within
/// `chrono`'s range) is made and carries the account's identifier, e-mail address and
/// role, with the expiry `now` plus 3600 seconds per hour.
pub proof fn law_login_then_token(
    u: User,
    password: Seq<char>,
    expiry_minutes: i64,
    created: Timestamp,
    started: Result<LoginStart, AppError>,
    unreadable_expiry: Timestamp,
    now: Timestamp,
    verdict: Result<LoginChallenge, AppError>,
    secret: Seq<char>,
    expiry_hours: u64,
    token: Result<String, AppError>,
)
    requires
        is_login_outcome(Some(u), password, expiry_minutes, created, started),
        spec_password_matches(password, u.hashed_password@) == Some(true),
        LoginChallenge::expiry_of(created, expiry_minutes).in_four_digit_years(),
        !now.is_after(LoginChallenge::expiry_of(created, expiry_minutes).pair()),
        started matches Ok(s) && is_challenge_verdict(Some(s.challenge), s.code@, unreadable_expiry, now, verdict),
        is_clock_instant(now),
        expiry_hours <= i64::MAX,
        now.secs + (expiry_hours as i64) * 3600 <= 8_210_266_876_799,
        now.secs + (expiry_hours as i64) * 3600 <= usize::MAX,
        is_jwt_outcome(u.id@, u.email@, u.role@, secret, expiry_hours, now, token),
    ensures
        started matches Ok(s) && verdict == Ok::<LoginChallenge, AppError>(s.challenge),
        token matches Ok(t) && spec_jwt_signed_claims(t@, secret) == Some(
            spec_claims_json(u.id@, u.email@, u.role@, (now.secs + (expiry_hours as i64) * 3600) as nat),
        ),
{
    let s = started.unwrap();
    law_login_code_redeems(s, u, expiry_minutes, created, unreadable_expiry, now, verdict);
    let exp = spec_jwt_expiry(now, expiry_hours).unwrap();
    assert(exp as int == now.secs + (expiry_hours as i64) * 3600);
}

/// After its expiry a challenge is refused as expired, whatever code comes with it.
pub proof fn law_expired_challenge_refused(
    c: LoginChallenge,
    user_id: Seq<char>,
    code_hash: Seq<char>,
    code: Seq<char>,
    expiry_minutes: i64,
    created: Timestamp,
    unreadable_expiry: Timestamp,
    now: Timestamp,
    verdict: Result<LoginChallenge, AppError>,
)
    requires
        LoginChallenge::made_at(c, user_id, code_hash, expiry_minutes, created),
        LoginChallenge::expiry_of(created, expiry_minutes).in_four_digit_years(),
        now.is_after(LoginChallenge::expiry_of(created, expiry_minutes).pair()),
        is_challenge_verdict(Some(c), code, unreadable_expiry, now, verdict),
    ensures
        verdict matches Err(AppError::BadRequest(m)) && m@ == "Code has expired"@,
{
}

/// A challenge that has been redeemed (marked used) is refused, whatever the code and
/// the instant: a code works once.
pub proof fn law_used_challenge_refused(
    c: LoginChallenge,
    code: Seq<char>,
    unreadable_expiry: Timestamp,
    now: Timestamp,
    verdict: Result<LoginChallenge, AppError>,
)
    requires
        c.used != 0,
        is_challenge_verdict(Some(c), code, unreadable_expiry, now, verdict),
    ensures
        verdict matches Err(AppError::BadRequest(m)) && m@ == "Code has already been used"@,
        verdict matches Err(e) && spec_status(e) == 400,
{
}

/// An unused, unexpired challenge redeemed with a code whose hash differs from the
/// stored one is answered 401 Unauthorized.
pub proof fn law_wrong_code_refused(
    c: LoginChallenge,
    code: Seq<char>,
    unreadable_expiry: Timestamp,
    now: Timestamp,
    verdict: Result<LoginChallenge, AppError>,
)
    requires
        c.used == 0,
        !expired_at(spec_parse_rfc3339(c.expires_at@), unreadable_expiry, now),
        !code_matches(code, c.code_hash@),
        is_challenge_verdict(Some(c), code, unreadable_expiry, now, verdict),
    ensures
        verdict matches Err(AppError::Unauthorized(m)) && m@ == "Invalid verification code"@,
        verdict matches Err(e) && spec_status(e) == 401,
{
}

} // verus!
