use vstd::prelude::*;

verus! {

/// How long a session token stays valid: seven days, in milliseconds.
pub const SESSION_MILLIS: usize = 604800000;

/// The claims of a session token.
#[derive(Debug, Clone)]
pub struct JwtPayload {
    pub user_id: i64,
    /// Issued-at, in milliseconds since the Unix epoch.
    pub iat: usize,
    /// The issuer, always `krfx-web-rust`.
    pub iss: String,
    /// Expiry, in milliseconds since the Unix epoch.
    pub exp: usize,
}

impl JwtPayload {
    /// The claims of a token for a user, issued at `issued_at`, expiring seven days
    /// after `expiry_from` (the sum wraps around as `usize` addition does in a
    /// release build).
    pub fn issue(user_id: i64, issued_at: usize, expiry_from: usize) -> (claims: Self)
        ensures
            claims.user_id == user_id,
            claims.iat == issued_at,
            claims.iss@ == "krfx-web-rust"@,
            claims.exp == expiry_from.wrapping_add(SESSION_MILLIS),
    {
        JwtPayload {
            user_id,
            iat: issued_at,
            iss: String::from_str("krfx-web-rust"),
            exp: expiry_from.wrapping_add(SESSION_MILLIS),
        }
    }
}

/// The user a request acts for, given the claims of its token when it carried a
/// token that decoded and validated.
pub fn session_user(claims: Option<JwtPayload>) -> (user_id: Option<i64>)
    ensures
        user_id == (match claims {
            Some(c) => Some(c.user_id),
            None => None,
        }),
{
    match claims {
        Some(c) => Some(c.user_id),
        None => None,
    }
}

/// A token issued from one clock reading expires exactly seven days after it was
/// issued, unless that sum does not fit in a `usize`.
pub proof fn lemma_session_lasts_seven_days(now: usize)
    requires
        now + SESSION_MILLIS <= usize::MAX,
    ensures
        now.wrapping_add(SESSION_MILLIS) - now == 7 * 24 * 60 * 60 * 1000,
{
}

} // verus!
