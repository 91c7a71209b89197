//! Who a request comes from: the bearer token's claims.

use vstd::prelude::*;

use crate::authentication::auth::{
    expired_at, jwt_hs256, jwt_signed_claims, signed_ok, timestamp_in_range, verdict_at, verify_jwt, Claims,
    TokenData, EXPIRY_LEEWAY, MAX_UNIX_TIMESTAMP,
};
use crate::authentication::errors::AppError;

verus! {

/// The claims of the access token that a request bore.
#[derive(Debug)]
pub struct AuthUser(pub Claims);

/// `claims` are the ones that `token` was issued with, if it was issued
/// under `secret`.
pub open spec fn claims_as_issued(secret: Seq<char>, token: Seq<char>, claims: Claims) -> bool {
    forall|sub: Seq<char>, role: Seq<char>, exp: i64|
        #[trigger] jwt_hs256(secret, sub, role, exp) == token ==> claims.spec_eq(sub, role, exp)
}

/// The caller that a verifier's answer names: an accepted token's claims;
/// a refused token is unauthorized.
pub fn caller_from_verification(verdict: Result<TokenData, String>) -> (r: Result<AuthUser, AppError>)
    ensures
        match verdict {
            Ok(d) => r matches Ok(a) && a.0 == d.claims,
            Err(_) => r matches Err(AppError::Unauthorized),
        },
{
    match verdict {
        Ok(d) => Ok(AuthUser(d.claims)),
        Err(_) => Err(AppError::Unauthorized),
    }
}

/// Who `authenticate` let in under `secret` with `token`, as far as the
/// time decides it, at Unix time `now`: a caller admitted has a token that
/// has not expired at `now`, and a token issued under `secret` (with an
/// `exp` that is not negative) admits exactly its claims as the caller
/// unless it has expired at `now`, whatever its role.
pub open spec fn admitted_at(secret: Seq<char>, token: Seq<char>, now: int, r: Result<AuthUser, AppError>) -> bool {
    &&& (r matches Ok(a) ==> !expired_at(a.0.exp as int, now))
    &&& forall|sub: Seq<char>, role: Seq<char>, exp: i64|
        #[trigger] jwt_hs256(secret, sub, role, exp) == token && exp >= 0 ==> {
            &&& (expired_at(exp as int, now) ==> r is Err)
            &&& (!expired_at(exp as int, now) ==> (r matches Ok(a) && a.0.spec_eq(sub, role, exp)))
        }
}

/// The caller of a request: with no service settings at hand, or no bearer
/// token, the request is unauthorized; otherwise the bearer token is
/// verified under the settings' secret, and the caller is what
/// `caller_from_verification` makes of the answer. Whether a sound token is
/// accepted depends on the clock.
pub fn authenticate(jwt_secret: Option<&str>, bearer_token: Option<&str>) -> (r: Result<
    AuthUser,
    AppError,
>)
    ensures
        r matches Err(e) ==> e is Unauthorized,
        jwt_secret is None || bearer_token is None ==> r is Err,
        r matches Ok(a) ==> match (jwt_secret, bearer_token) {
            (Some(s), Some(t)) => {
                &&& claims_as_issued(s@, t@, a.0)
                &&& jwt_signed_claims(s@, t@) == signed_ok(Some(a.0.sub@), Some(a.0.role@), Some(a.0.exp))
                &&& a.0.exp >= 0
            },
            _ => false,
        },
        match (jwt_secret, bearer_token) {
            (Some(s), Some(t)) => exists|now: int| #[trigger] admitted_at(s@, t@, now, r) && timestamp_in_range(now),
            _ => true,
        },
{
    let secret = match jwt_secret {
        None => return Err(AppError::Unauthorized),
        Some(s) => s,
    };
    let token = match bearer_token {
        None => return Err(AppError::Unauthorized),
        Some(t) => t,
    };
    let verdict = verify_jwt(secret, token);
    let ghost gv = verdict;
    let r = caller_from_verification(verdict);
    proof {
        let now = choose|now: int| #[trigger] verdict_at(secret@, token@, now, gv) && timestamp_in_range(now);
        assert(admitted_at(secret@, token@, now, r));
    }
    r
}

/// A request that bears a token issued under the service's secret, whose
/// expiry lies beyond every moment the clock can read (plus the leeway),
/// is let in with exactly the token's claims as its caller, whatever the
/// role in them.
pub proof fn lasting_token_authenticates_as_its_claims(
    secret: Seq<char>,
    token: Seq<char>,
    sub: Seq<char>,
    role: Seq<char>,
    exp: i64,
    r: Result<AuthUser, AppError>,
)
    requires
        token == jwt_hs256(secret, sub, role, exp),
        exp > MAX_UNIX_TIMESTAMP + EXPIRY_LEEWAY,
        exists|now: int| #[trigger] admitted_at(secret, token, now, r) && timestamp_in_range(now),
    ensures
        r matches Ok(a) && a.0.spec_eq(sub, role, exp),
{
    let now = choose|now: int| #[trigger] admitted_at(secret, token, now, r) && timestamp_in_range(now);
    assert(jwt_hs256(secret, sub, role, exp) == token);
    assert(!expired_at(exp as int, now));
}

} // verus!
