//! The settings of the authentication service.

use vstd::prelude::*;

use crate::authentication::auth::view_opt;
use crate::text::{decimal_i64, parse_i64};

verus! {

/// The service's token settings; the database pool stands beside them in
/// the running service.
#[derive(Debug)]
pub struct AuthSettings {
    pub jwt_secret: String,
    pub jwt_exp_minutes: i64,
    pub refresh_token_exp_days: i64,
}

/// A setting read as a decimal integer, or `default` where it is missing or
/// is no such integer.
pub open spec fn integer_setting(value: Option<Seq<char>>, default: i64) -> i64 {
    match value {
        Some(v) => match decimal_i64(v) {
            Some(n) => n,
            None => default,
        },
        None => default,
    }
}

fn integer_or(value: Option<String>, default: i64) -> (r: i64)
    ensures
        r == integer_setting(view_opt(value), default),
{
    match value {
        Some(v) => match parse_i64(v.as_str()) {
            Some(n) => n,
            None => default,
        },
        None => default,
    }
}

impl AuthSettings {
    /// The settings from the values of `JWT_SECRET`, `JWT_EXP_MINUTES` and
    /// `REFRESH_TOKEN_EXP_DAYS` (each `None` where unset): the secret
    /// defaults to `secret`, the access-token lifetime to 15 minutes and the
    /// refresh-token lifetime to 30 days.
    pub fn from_env_values(
        jwt_secret: Option<String>,
        jwt_exp_minutes: Option<String>,
        refresh_token_exp_days: Option<String>,
    ) -> (r: AuthSettings)
        ensures
            r.jwt_secret@ == match jwt_secret {
                Some(s) => s@,
                None => "secret"@,
            },
            r.jwt_exp_minutes == integer_setting(view_opt(jwt_exp_minutes), 15),
            r.refresh_token_exp_days == integer_setting(view_opt(refresh_token_exp_days), 30),
    {
        let secret = match jwt_secret {
            Some(s) => s,
            None => "secret".to_owned(),
        };
        AuthSettings {
            jwt_secret: secret,
            jwt_exp_minutes: integer_or(jwt_exp_minutes, 15),
            refresh_token_exp_days: integer_or(refresh_token_exp_days, 30),
        }
    }
}

} // verus!
