//! Login, registration and logout completion.
//!
//! Once a password has been verified (or a fresh account created), a
//! login targeting the identity provider's own site mints an access
//! token and replaces the refresh token, and hands both back as cookies;
//! a login targeting an external site issues an authorization code and
//! hands back the client's redirect URI with the code appended, minting
//! no local session.

use vstd::prelude::*;

use crate::auth::{
    build_cleared_cookie, build_token_cookie, generate_auth_code, generate_jwt,
    generate_refresh_token, jwt_claims, jwt_of, AuthError, ClaimsView, CookieSpec,
};
use crate::auth_codes::AuthCodeStore;
use crate::clients::ClientDirectory;
use crate::config::{AuthConfig, AUTH_CODE_TTL_SECONDS, REFRESH_TOKEN_TTL_SECONDS};
use crate::passwords::{password_matches, verify_password};
use crate::payloads::{FreshLoginData, FullRedirectUri, LogoutData};
use crate::refresh_store::RefreshTokenStore;
use crate::users::{User, UserDirectory};
use crate::utils::auth_client_id;

verus! {

/// The two cookies of a local session: the signed access token and the
/// opaque refresh token.
pub struct TwoAuthCookies {
    pub jwt_cookie: CookieSpec,
    pub refresh_token_cookie: CookieSpec,
}

/// How a completed login answers: a local session, or a redirect into an
/// external client site.
pub enum LoginOutcome {
    Local(TwoAuthCookies, FreshLoginData),
    External(FullRedirectUri),
}

/// Mint the two session cookies for an authenticated user: a fresh
/// access token, and a fresh refresh token that replaces the stored one
/// for (user, own site).
///
/// Fails exactly when the signing secret is absent, and then changes
/// nothing.
pub fn get_user_auth_cookies(
    user: &User,
    config: &AuthConfig,
    refresh: &mut RefreshTokenStore,
    now: u64,
) -> (r: Result<TwoAuthCookies, AuthError>)
    requires
        old(refresh).wf(),
        now + config.access_token_ttl <= u64::MAX,
        now + REFRESH_TOKEN_TTL_SECONDS <= u64::MAX,
    ensures
        final(refresh).wf(),
        r matches Ok(tc) ==> ((config.jwt_secret matches Some(sec) && tc.jwt_cookie.value@
            == jwt_of(
            sec@,
            user@.id,
            user@.username,
            user@.role,
            now + config.access_token_ttl,
        ) && jwt_claims(sec@, tc.jwt_cookie.value@) == Some(
            ClaimsView {
                sub: user@.id,
                username: user@.username,
                role: user@.role,
                exp: now + config.access_token_ttl,
            },
        )) && tc.jwt_cookie.name@ == "jwt"@ && tc.jwt_cookie.http_only && tc.jwt_cookie.secure
            == config.cookie_secure && tc.jwt_cookie.same_site_lax && !tc.jwt_cookie.max_age_zero
            && tc.refresh_token_cookie.name@ == "refresh_token"@
            && tc.refresh_token_cookie.http_only && tc.refresh_token_cookie.secure
            == config.cookie_secure && tc.refresh_token_cookie.same_site_lax
            && !tc.refresh_token_cookie.max_age_zero && (final(refresh).spec_lookup(
            user@.id,
            "auth_site"@,
        ) matches Some(rt) && rt.token == tc.refresh_token_cookie.value@ && rt.created == now as int
            && rt.expires == now + REFRESH_TOKEN_TTL_SECONDS) && (forall|u: int, c: Seq<char>|
            !(u == user@.id && c == "auth_site"@) ==> final(refresh).spec_lookup(u, c) == old(
                refresh,
            ).spec_lookup(u, c))),
        r matches Err(e) ==> (e == AuthError::MissingJwtSecret && *final(refresh) == *old(refresh)),
        r is Err <==> config.jwt_secret is None,
{
    let jwt = match generate_jwt(
        config,
        user.get_id(),
        user.get_username().clone(),
        user.get_role().clone(),
        now,
    ) {
        Ok(token) => token,
        Err(e) => { return Err(e) },
    };
    let stored = refresh.upsert(user.get_id(), auth_client_id(), generate_refresh_token(), now);
    let jwt_cookie = build_token_cookie(jwt, "jwt".to_owned(), config.cookie_secure);
    let refresh_token_cookie = build_token_cookie(
        stored,
        "refresh_token".to_owned(),
        config.cookie_secure,
    );
    Ok(TwoAuthCookies { jwt_cookie, refresh_token_cookie })
}

/// The first failure the login meets on this request, if any: unknown
/// user, then wrong password.
pub open spec fn spec_login_user_error(
    users: UserDirectory,
    username: Seq<char>,
    password: Seq<char>,
) -> Option<AuthError> {
    if users.spec_user_by_username(username) is None {
        Some(AuthError::NotFound)
    } else if !password_matches(
        password,
        users.spec_user_by_username(username)->Some_0.password_hash,
    ) {
        Some(AuthError::AuthenticationFailed)
    } else {
        None
    }
}

/// Complete a login: verify the password, then either open a local
/// session (target is the identity provider's own site) or issue an
/// authorization code and return the external client's redirect URI.
pub fn login(
    users: &UserDirectory,
    clients: &ClientDirectory,
    refresh: &mut RefreshTokenStore,
    codes: &mut AuthCodeStore,
    config: &AuthConfig,
    username: &String,
    password: &String,
    client_id: &String,
    now: u64,
) -> (r: Result<LoginOutcome, AuthError>)
    requires
        users.wf(),
        clients.wf(),
        old(refresh).wf(),
        old(codes).wf(),
        now + config.access_token_ttl <= u64::MAX,
        now + REFRESH_TOKEN_TTL_SECONDS <= u64::MAX,
        now + AUTH_CODE_TTL_SECONDS <= u64::MAX,
    ensures
        final(refresh).wf(),
        final(codes).wf(),
        spec_login_user_error(*users, username@, password@) matches Some(e) ==> (r matches Err(e2)
            && e2 == e && *final(refresh) == *old(refresh) && *final(codes) == *old(codes)),
        (spec_login_user_error(*users, username@, password@) is None && client_id@ == "auth_site"@)
            ==> ({
            let uv = users.spec_user_by_username(username@)->Some_0;
            &&& *final(codes) == *old(codes)
            &&& (config.jwt_secret is Some ==> r is Ok)
            &&& (r matches Ok(o) ==> (o matches LoginOutcome::Local(tc, body) && (
            config.jwt_secret matches Some(sec) && tc.jwt_cookie.value@ == jwt_of(
                sec@,
                uv.id,
                uv.username,
                uv.role,
                now + config.access_token_ttl,
            ) && jwt_claims(sec@, tc.jwt_cookie.value@) == Some(
                ClaimsView {
                    sub: uv.id,
                    username: uv.username,
                    role: uv.role,
                    exp: now + config.access_token_ttl,
                },
            )) && (final(refresh).spec_lookup(uv.id, "auth_site"@) matches Some(rt) && rt.token
                == tc.refresh_token_cookie.value@ && rt.created == now as int && rt.expires == now
                + REFRESH_TOKEN_TTL_SECONDS) && body.username@ == uv.username))
            &&& (r matches Err(e) ==> (e == AuthError::MissingJwtSecret && *final(refresh) == *old(
                refresh,
            )))
        }),
        (spec_login_user_error(*users, username@, password@) is None && client_id@ != "auth_site"@)
            ==> ({
            let uv = users.spec_user_by_username(username@)->Some_0;
            &&& *final(refresh) == *old(refresh)
            &&& (clients.spec_lookup(client_id@) is None ==> (r matches Err(e) && e
                == AuthError::NotFound && *final(codes) == *old(codes)))
            &&& (clients.spec_lookup(client_id@) matches Some(cd) ==> (r matches Ok(o) && (o
                matches LoginOutcome::External(redirect) && exists|code: Seq<char>|
                (redirect.redirect_uri@ == cd.redirect_uri@ + "?code="@ + code
                    && ((#[trigger] final(codes).spec_lookup(code)) matches Some(acv)
                    && acv.user_id == uv.id && acv.client_id == client_id@ && acv.expires == now
                    + AUTH_CODE_TTL_SECONDS)))))
        }),
{
    let user = match users.get_user_by_username(username) {
        Some(u) => u,
        None => { return Err(AuthError::NotFound) },
    };
    if !verify_password(password, user.get_password_hash()) {
        return Err(AuthError::AuthenticationFailed);
    }
    let this_site = auth_client_id();
    if *client_id == this_site {
        match get_user_auth_cookies(user, config, refresh, now) {
            Ok(tc) => Ok(
                LoginOutcome::Local(tc, FreshLoginData { username: user.get_username().clone() }),
            ),
            Err(e) => Err(e),
        }
    } else {
        let redirect_uri = match clients.get_redirect_uri(client_id) {
            Some(u) => u,
            None => { return Err(AuthError::NotFound) },
        };
        let code = generate_auth_code();
        codes.insert(user.get_id(), client_id.clone(), code.clone(), now);
        let redirect = crate::broker::build_redirect_uri(&redirect_uri, &code);
        Ok(LoginOutcome::External(redirect))
    }
}

/// Complete a registration: create the account with the default role,
/// then open a local session for it.
///
/// Succeeds exactly when a signing secret is configured and a fresh user
/// id remains; the secret is checked first, so a refused registration
/// changes neither store.  The caller has already checked the input
/// shapes and that username and email address are free.
pub fn register_user(
    users: &mut UserDirectory,
    refresh: &mut RefreshTokenStore,
    config: &AuthConfig,
    username: &String,
    email: &String,
    password: String,
    now: u64,
) -> (r: Result<(TwoAuthCookies, FreshLoginData), AuthError>)
    requires
        old(users).wf(),
        old(refresh).wf(),
        !old(users).spec_has_username(username@),
        !old(users).spec_has_email(email@),
        password@.len() <= 0x3FFFFFFF,
        now + config.access_token_ttl <= u64::MAX,
        now + REFRESH_TOKEN_TTL_SECONDS <= u64::MAX,
    ensures
        final(users).wf(),
        final(refresh).wf(),
        r matches Ok(pair) ==> ((final(users).spec_user_by_username(username@) matches Some(uv)
            && uv.email == email@ && uv.role == "player"@ && password_matches(
            password@,
            uv.password_hash,
        ) && pair.1.username@ == username@ && (config.jwt_secret matches Some(sec)
            && pair.0.jwt_cookie.value@ == jwt_of(
            sec@,
            uv.id,
            username@,
            "player"@,
            now + config.access_token_ttl,
        ) && jwt_claims(sec@, pair.0.jwt_cookie.value@) == Some(
            ClaimsView {
                sub: uv.id,
                username: username@,
                role: "player"@,
                exp: now + config.access_token_ttl,
            },
        )) && (final(refresh).spec_lookup(uv.id, "auth_site"@) matches Some(rt) && rt.token
            == pair.0.refresh_token_cookie.value@ && rt.created == now as int && rt.expires == now
            + REFRESH_TOKEN_TTL_SECONDS))),
        r is Err <==> (config.jwt_secret is None || !old(users).spec_has_free_id()),
        config.jwt_secret is None ==> r == Result::<(TwoAuthCookies, FreshLoginData), AuthError>::Err(
            AuthError::MissingJwtSecret,
        ),
        r matches Err(e) ==> (e == AuthError::MissingJwtSecret || e == AuthError::StorageError),
        r matches Err(e) ==> (*final(users) == *old(users) && *final(refresh) == *old(refresh)),
{
    if config.jwt_secret.is_none() {
        // fail fast, before anything is stored: a process without a
        // signing secret must not create accounts it cannot sign for
        return Err(AuthError::MissingJwtSecret);
    }
    let user_id = match users.add_user(username, email, password) {
        Ok(id) => id,
        Err(e) => { return Err(e) },
    };
    let user = match users.get_user_by_id(user_id) {
        Some(u) => u,
        None => {
            proof {
                assert(false);
            }
            return Err(AuthError::StorageError);
        },
    };
    match get_user_auth_cookies(user, config, refresh, now) {
        Ok(tc) => Ok((tc, FreshLoginData { username: user.get_username().clone() })),
        Err(e) => Err(e),
    }
}

/// Log a user out: clear both cookies and delete every refresh token of
/// the user, for every client site.
pub fn logout(user_id: i32, refresh: &mut RefreshTokenStore) -> (r: (TwoAuthCookies, LogoutData))
    requires
        old(refresh).wf(),
    ensures
        final(refresh).wf(),
        r.0.jwt_cookie.name@ == "jwt"@ && r.0.jwt_cookie.value@ =~= Seq::<char>::empty()
            && r.0.jwt_cookie.max_age_zero && r.0.jwt_cookie.http_only,
        r.0.refresh_token_cookie.name@ == "refresh_token"@ && r.0.refresh_token_cookie.value@
            =~= Seq::<char>::empty() && r.0.refresh_token_cookie.max_age_zero
            && r.0.refresh_token_cookie.http_only,
        forall|c: Seq<char>| final(refresh).spec_lookup(user_id as int, c) is None,
        forall|u: int, c: Seq<char>|
            u != user_id as int ==> final(refresh).spec_lookup(u, c) == old(refresh).spec_lookup(
                u,
                c,
            ),
        r.1.logout,
{
    let jwt_cookie = build_cleared_cookie("jwt".to_owned());
    let refresh_token_cookie = build_cleared_cookie("refresh_token".to_owned());
    let _deleted = refresh.delete_all(user_id);
    (TwoAuthCookies { jwt_cookie, refresh_token_cookie }, LogoutData::new())
}

} // verus!
