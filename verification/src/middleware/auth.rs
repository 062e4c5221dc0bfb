//! Bearer-token authentication and the admin guard.
use vstd::prelude::*;

use crate::errors::{spec_status, AppError};
use crate::models::JwtClaims;
use crate::services::jwt::{is_token_verdict_at, verify_jwt};
use crate::text::{same_text, starts_with_text};

verus! {

/// An authenticated caller: the claims of a valid Bearer token.
#[derive(Debug, Clone)]
pub struct AuthUser(pub JwtClaims);

/// The token of an `Authorization` header value of the form `Bearer <token>`.
pub open spec fn spec_bearer_token(header: Seq<char>) -> Option<Seq<char>> {
    if "Bearer "@.is_prefix_of(header) {
        Some(header.skip(7))
    } else {
        None
    }
}

/// The token carried by the `Authorization` header (`None`: no such header, or one
/// that is not visible ASCII text).
pub fn bearer_token(header: Option<&str>) -> (token: Result<String, AppError>)
    ensures
        match header {
            None => token matches Err(AppError::Unauthorized(m)) && m@ == "Missing Authorization header"@,
            Some(h) => match spec_bearer_token(h@) {
                Some(t) => token matches Ok(s) && s@ == t,
                None => token matches Err(AppError::Unauthorized(m))
                    && m@ == "Authorization header must start with 'Bearer '"@,
            },
        },
{
    let value = match header {
        Some(v) => v,
        None => return Err(AppError::Unauthorized("Missing Authorization header".to_owned())),
    };
    proof {
        reveal_strlit("Bearer ");
    }
    if starts_with_text(value, "Bearer ") {
        let rest = value.substring_char(7, value.unicode_len());
        assert(rest@ =~= value@.skip(7));
        Ok(rest.to_owned())
    } else {
        Err(AppError::Unauthorized("Authorization header must start with 'Bearer '".to_owned()))
    }
}

/// The outcome of authenticating with the `Authorization` header value `header` when
/// the clock reads `clock_secs`: a missing header, or one without the Bearer prefix,
/// is refused; otherwise the token is judged as `is_token_verdict_at` states.
pub open spec fn is_header_verdict_at(
    header: Option<&str>,
    secret: Seq<char>,
    clock_secs: u64,
    claims: Result<String, AppError>,
) -> bool {
    match header {
        None => claims matches Err(AppError::Unauthorized(m)) && m@ == "Missing Authorization header"@,
        Some(h) => match spec_bearer_token(h@) {
            None => claims matches Err(AppError::Unauthorized(m)) && m@
                == "Authorization header must start with 'Bearer '"@,
            Some(t) => is_token_verdict_at(t, secret, clock_secs, claims),
        },
    }
}

/// Pulls the Bearer token out of the `Authorization` header and checks it with the
/// secret, giving back the JSON text of its claims. The expiry is judged against the
/// clock.
pub fn extract_claims(header: Option<&str>, secret: &str) -> (claims: Result<String, AppError>)
    ensures
        exists|clock_secs: u64| #[trigger] is_header_verdict_at(header, secret@, clock_secs, claims),
        claims matches Err(e) ==> e is Unauthorized,
{
    let token = match bearer_token(header) {
        Ok(t) => t,
        Err(e) => {
            assert(is_header_verdict_at(header, secret@, 0, Err(e)));
            return Err(e);
        },
    };
    let verdict = verify_jwt(token.as_str(), secret);
    let ghost clock_secs = choose|n: u64| #[trigger] is_token_verdict_at(token@, secret@, n, verdict);
    assert(is_header_verdict_at(header, secret@, clock_secs, verdict));
    verdict
}

/// Whether the role is the admin role.
pub open spec fn is_admin_role(role: Seq<char>) -> bool {
    role == "admin"@
}

/// The admin guard's decision for a caller with `role`.
pub open spec fn is_admin_verdict(role: Seq<char>, r: Result<(), AppError>) -> bool {
    if is_admin_role(role) {
        r is Ok
    } else {
        r matches Err(AppError::Forbidden(m)) && m@ == "Only admins can perform this action"@
    }
}

/// Guard helper: returns Forbidden if the user role is not admin.
pub fn require_admin(claims: &JwtClaims) -> (r: Result<(), AppError>)
    ensures
        is_admin_verdict(claims.role@, r),
{
    if !same_text(claims.role.as_str(), "admin") {
        return Err(AppError::Forbidden("Only admins can perform this action".to_owned()));
    }
    Ok(())
}

/// Only the admin role passes the guard; everyone else is answered 403 Forbidden.
pub proof fn law_only_admins_pass(role: Seq<char>, r: Result<(), AppError>)
    requires
        is_admin_verdict(role, r),
    ensures
        r is Ok <==> role == "admin"@,
        r matches Err(e) ==> spec_status(e) == 403,
{
}

} // verus!
