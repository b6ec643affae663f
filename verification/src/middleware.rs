//! The request-pipeline steps around every request.
//!
//! Pre-processing establishes the caller's identity from the request's
//! cookies: a valid access token authenticates, an expired one is
//! silently renewed when the refresh-token cookie matches an unexpired
//! stored record, and everything else degrades to a guest.
//! Post-processing turns the pending renewed token, when one was minted,
//! into the one and only place a fresh `jwt` cookie is written.

use vstd::prelude::*;

use crate::auth::{
    build_token_cookie, generate_jwt, is_guest, is_identity_of, jwt_claims, jwt_of, verify_jwt,
    AuthError, Claims, ClaimsView, CookieSpec, JwtVerification, UserReqData,
};
use crate::config::AuthConfig;
use crate::refresh_store::{RefreshToken, RefreshTokenStore, RefreshTokenView};
use crate::utils::auth_client_id;

verus! {

/// The pending-renewal flag: a freshly minted access token that the
/// post-processing step must attach to the response.
pub struct NewJwtObj {
    token: String,
}

impl NewJwtObj {
    /// The token carried by the flag.
    pub closed spec fn spec_token(self) -> Seq<char> {
        self.token@
    }

    pub fn new(token: String) -> (r: NewJwtObj)
        ensures
            r.spec_token() == token@,
    {
        NewJwtObj { token }
    }

    pub fn get_token(&self) -> (r: &String)
        ensures
            r@ == self.spec_token(),
    {
        &self.token
    }
}

/// What pre-processing hands to the route handlers: the request identity,
/// and the pending renewed token if one was minted.
pub struct SessionOutcome {
    pub identity: UserReqData,
    pub new_jwt: Option<NewJwtObj>,
}

/// The value of an optional cookie.
pub open spec fn cookie_view(c: Option<&String>) -> Option<Seq<char>> {
    match c {
        Some(s) => Some(s@),
        None => None,
    }
}

/// The record behind an optional store hit.
pub open spec fn stored_view(s: Option<&RefreshToken>) -> Option<RefreshTokenView> {
    match s {
        Some(rec) => Some(rec@),
        None => None,
    }
}

/// The renewal conditions of the pipeline: a refresh-token cookie is
/// present, a record is stored for the pair, the cookie equals the stored
/// token byte for byte, and the record's own expiry has not passed.
pub open spec fn refresh_token_accepted(
    cookie: Option<Seq<char>>,
    stored: Option<RefreshTokenView>,
    now: int,
) -> bool {
    cookie matches Some(cv) && stored matches Some(s) && cv == s.token && now <= s.expires
}

/// Try to mint a replacement access token from an expired-but-authentic
/// claim set.
///
/// Succeeds with a fresh token — same subject, username and role, new
/// expiry — exactly when the refresh-token cookie matches the stored,
/// unexpired record and a signing secret is configured; yields `None`
/// when any of the refresh checks fails; and fails outright only when
/// the checks pass but the signing secret is absent.
pub fn attempt_renewal(
    config: &AuthConfig,
    claims: &Claims,
    refresh_cookie: Option<&String>,
    stored: Option<&RefreshToken>,
    now: u64,
) -> (r: Result<Option<String>, AuthError>)
    requires
        now + config.access_token_ttl <= u64::MAX,
    ensures
        r matches Ok(Some(t)) ==> (refresh_token_accepted(
            cookie_view(refresh_cookie),
            stored_view(stored),
            now as int,
        ) && (config.jwt_secret matches Some(sec) && t@ == jwt_of(
            sec@,
            claims@.sub,
            claims@.username,
            claims@.role,
            now + config.access_token_ttl,
        ) && jwt_claims(sec@, t@) == Some(
            ClaimsView {
                sub: claims@.sub,
                username: claims@.username,
                role: claims@.role,
                exp: now + config.access_token_ttl,
            },
        ))),
        !refresh_token_accepted(cookie_view(refresh_cookie), stored_view(stored), now as int)
            ==> (r matches Ok(rr) && rr is None),
        r matches Ok(rr) && rr is None ==> !refresh_token_accepted(
            cookie_view(refresh_cookie),
            stored_view(stored),
            now as int,
        ),
        (refresh_token_accepted(cookie_view(refresh_cookie), stored_view(stored), now as int)
            && config.jwt_secret is Some) ==> (r matches Ok(rr) && rr is Some),
        r matches Err(e) ==> (e == AuthError::MissingJwtSecret && config.jwt_secret is None
            && refresh_token_accepted(
            cookie_view(refresh_cookie),
            stored_view(stored),
            now as int,
        )),
{
    let cookie = match refresh_cookie {
        Some(c) => c,
        None => { return Ok(None) },
    };
    let record = match stored {
        Some(s) => s,
        None => { return Ok(None) },
    };
    if !(*cookie == *record.get_token()) {
        return Ok(None);
    }
    if record.is_expired(now) {
        return Ok(None);
    }
    match generate_jwt(
        config,
        claims.get_sub(),
        claims.get_username().clone(),
        claims.get_role().clone(),
        now,
    ) {
        Ok(token) => Ok(Some(token)),
        Err(e) => Err(e),
    }
}

/// Pre-processing: establish the request identity from the `jwt` and
/// `refresh_token` cookies and the stored refresh tokens.
///
/// No access-token cookie, an invalid token, or a failed renewal check
/// all yield the guest identity and no pending token.  A valid token
/// authenticates as is.  An expired token whose refresh check passes
/// authenticates from the expired claims and always leaves a pending
/// renewed token for post-processing: an authentic token proves the
/// secret is configured, so the renewal cannot fail.
pub fn pre_process(
    config: &AuthConfig,
    store: &RefreshTokenStore,
    jwt_cookie: Option<&String>,
    refresh_cookie: Option<&String>,
    now: u64,
) -> (r: SessionOutcome)
    requires
        store.wf(),
        now + config.access_token_ttl <= u64::MAX,
    ensures
        jwt_cookie is None ==> is_guest(r.identity) && r.new_jwt is None,
        config.jwt_secret is None ==> is_guest(r.identity) && r.new_jwt is None,
        (config.jwt_secret matches Some(sec) && jwt_cookie matches Some(jc) && jwt_claims(
            sec@,
            jc@,
        ) is None) ==> is_guest(r.identity) && r.new_jwt is None,
        config.jwt_secret matches Some(sec) ==> (jwt_cookie matches Some(jc) ==> (jwt_claims(
            sec@,
            jc@,
        ) matches Some(cv) ==> {
            if cv.exp >= now {
                is_identity_of(r.identity, cv) && r.new_jwt is None
            } else if refresh_token_accepted(
                cookie_view(refresh_cookie),
                store.spec_lookup(cv.sub, "auth_site"@),
                now as int,
            ) {
                is_identity_of(r.identity, cv) && (r.new_jwt matches Some(nj) && nj.spec_token()
                    == jwt_of(sec@, cv.sub, cv.username, cv.role, now + config.access_token_ttl)
                    && jwt_claims(sec@, nj.spec_token()) == Some(
                    ClaimsView {
                        sub: cv.sub,
                        username: cv.username,
                        role: cv.role,
                        exp: now + config.access_token_ttl,
                    },
                ))
            } else {
                is_guest(r.identity) && r.new_jwt is None
            }
        })),
{
    let token_cookie = match jwt_cookie {
        Some(c) => c,
        None => {
            return SessionOutcome { identity: UserReqData::new(None), new_jwt: None };
        },
    };
    match verify_jwt(config, token_cookie.as_str(), now) {
        JwtVerification::Invalid => SessionOutcome {
            identity: UserReqData::new(None),
            new_jwt: None,
        },
        JwtVerification::Valid(claims) => SessionOutcome {
            identity: UserReqData::new(Some(claims)),
            new_jwt: None,
        },
        JwtVerification::Expired(claims) => {
            let this_site = auth_client_id();
            let stored = store.get(claims.get_sub(), &this_site);
            match attempt_renewal(config, &claims, refresh_cookie, stored, now) {
                Err(_) => {
                    // an authentic token implies a configured secret, so
                    // the renewal cannot have failed
                    proof {
                        assert(false);
                    }
                    SessionOutcome { identity: UserReqData::new(None), new_jwt: None }
                },
                Ok(None) => SessionOutcome { identity: UserReqData::new(None), new_jwt: None },
                Ok(Some(token)) => SessionOutcome {
                    identity: UserReqData::new(Some(claims)),
                    new_jwt: Some(NewJwtObj::new(token)),
                },
            }
        },
    }
}

/// Post-processing: when pre-processing left a pending renewed token,
/// build the `jwt` cookie that carries it; otherwise do nothing.  This is
/// the only place a renewed access-token cookie is written.
pub fn post_process(config: &AuthConfig, pending: Option<&NewJwtObj>) -> (r: Option<CookieSpec>)
    ensures
        pending matches Some(p) ==> (r matches Some(c) && c.name@ == "jwt"@ && c.value@
            == p.spec_token() && c.http_only && c.secure == config.cookie_secure && c.same_site_lax
            && c.path@ == "/"@ && !c.max_age_zero),
        pending is None ==> r is None,
{
    match pending {
        Some(obj) => Some(
            build_token_cookie(obj.get_token().clone(), "jwt".to_owned(), config.cookie_secure),
        ),
        None => None,
    }
}

} // verus!
