//! Process-wide configuration for the engine.
//!
//! The signing secret and the cookie policy are loaded once at startup by
//! the surrounding application and handed in by reference; the engine never
//! reads the environment itself.

use vstd::prelude::*;

verus! {

/// Number of seconds a refresh token stays valid after it is stored.
pub const REFRESH_TOKEN_TTL_SECONDS: u64 = 1209600;

/// Number of seconds an authorization code stays valid after it is issued.
pub const AUTH_CODE_TTL_SECONDS: u64 = 600;

/// Immutable per-process configuration.
///
/// `jwt_secret` is `None` when the deployment forgot to configure a signing
/// secret; every signing attempt then fails with a configuration error.
pub struct AuthConfig {
    pub jwt_secret: Option<String>,
    pub access_token_ttl: u64,
    pub cookie_secure: bool,
}

impl AuthConfig {
    pub fn new(jwt_secret: Option<String>, access_token_ttl: u64, cookie_secure: bool) -> (r:
        AuthConfig)
        ensures
            r.jwt_secret == jwt_secret,
            r.access_token_ttl == access_token_ttl,
            r.cookie_secure == cookie_secure,
    {
        AuthConfig { jwt_secret, access_token_ttl, cookie_secure }
    }
}

} // verus!
