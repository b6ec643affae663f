//! The authorization-code broker: hands an authenticated session to an
//! external client site without exposing the password or another site's
//! refresh token.
//!
//! At login time a short-lived code bound to (user, client) is persisted
//! and delivered inside the client's redirect URI.  The client's backend
//! then exchanges code + client credential for the user's identity and a
//! fresh refresh token; each code works exactly once.  Separately, a
//! client can check a cached refresh token.

use vstd::prelude::*;

use crate::auth::{generate_refresh_token, AuthError};
use crate::auth_code_shared::{AuthCodeRequest, AuthCodeSuccess};
use crate::auth_codes::AuthCodeStore;
use crate::clients::ClientDirectory;
use crate::config::REFRESH_TOKEN_TTL_SECONDS;
use crate::passwords::{password_matches, verify_password};
use crate::payloads::FullRedirectUri;
use crate::refresh_store::RefreshTokenStore;
use crate::users::UserDirectory;

verus! {

/// The first failure the exchange protocol meets on this request, if
/// any: unknown code, expired code, unknown client, wrong secret or
/// mismatched client id, unknown user — in that order.
pub open spec fn spec_exchange_error(
    codes: AuthCodeStore,
    users: UserDirectory,
    clients: ClientDirectory,
    req: AuthCodeRequest,
    now: int,
) -> Option<AuthError> {
    if codes.spec_lookup(req.code@) is None {
        Some(AuthError::NotFound)
    } else {
        let cv = codes.spec_lookup(req.code@)->Some_0;
        if now > cv.expires {
            Some(AuthError::AuthenticationFailed)
        } else if clients.spec_lookup(req.client_id@) is None {
            Some(AuthError::NotFound)
        } else {
            let cd = clients.spec_lookup(req.client_id@)->Some_0;
            if !password_matches(req.client_secret@, cd.hashed_client_secret@) || cv.client_id
                != req.client_id@ {
                Some(AuthError::AuthenticationFailed)
            } else if users.spec_user_by_id(cv.user_id) is None {
                Some(AuthError::NotFound)
            } else {
                None
            }
        }
    }
}

/// Exchange an authorization code plus client credential for the user's
/// identity and a fresh refresh token.
///
/// Fails exactly as `spec_exchange_error` says, leaving both stores
/// untouched.  On success the code is consumed — it can never be
/// exchanged again — and the refresh token for (user, client) is
/// replaced with the fresh one that is returned.
pub fn exchange(
    codes: &mut AuthCodeStore,
    refresh: &mut RefreshTokenStore,
    users: &UserDirectory,
    clients: &ClientDirectory,
    req: &AuthCodeRequest,
    now: u64,
) -> (r: Result<AuthCodeSuccess, AuthError>)
    requires
        old(codes).wf(),
        old(refresh).wf(),
        users.wf(),
        clients.wf(),
        now + REFRESH_TOKEN_TTL_SECONDS <= u64::MAX,
    ensures
        final(codes).wf(),
        final(refresh).wf(),
        spec_exchange_error(*old(codes), *users, *clients, *req, now as int) matches Some(e) ==> (r
            matches Err(e2) && e2 == e && *final(codes) == *old(codes) && *final(refresh) == *old(
            refresh,
        )),
        spec_exchange_error(*old(codes), *users, *clients, *req, now as int) is None ==> (r
            matches Ok(s) && {
            let cv = old(codes).spec_lookup(req.code@)->Some_0;
            let uv = users.spec_user_by_id(cv.user_id)->Some_0;
            &&& s.user_id as int == cv.user_id
            &&& s.username@ == uv.username
            &&& s.user_role@ == uv.role
            &&& final(refresh).spec_lookup(cv.user_id, cv.client_id) matches Some(rt)
                && rt.token == s.refresh_token@ && rt.created == now as int && rt.expires == now
                + REFRESH_TOKEN_TTL_SECONDS
            &&& forall|u: int, c: Seq<char>|
                !(u == cv.user_id && c == cv.client_id) ==> final(refresh).spec_lookup(u, c)
                    == old(refresh).spec_lookup(u, c)
            &&& final(codes).spec_lookup(req.code@) is None
            &&& forall|c: Seq<char>|
                c != req.code@ ==> final(codes).spec_lookup(c) == old(codes).spec_lookup(c)
        }),
{
    let (code_user_id, code_client_id, code_expired) = match codes.get(&req.code) {
        Some(data) => (data.get_user_id(), data.get_client_id().clone(), data.is_expired(now)),
        None => { return Err(AuthError::NotFound) },
    };
    if code_expired {
        return Err(AuthError::AuthenticationFailed);
    }
    let secret_obj = match clients.get_client_secret(&req.client_id) {
        Some(secret_obj) => secret_obj,
        None => { return Err(AuthError::NotFound) },
    };
    let secrets_match = verify_password(&req.client_secret, &secret_obj.hashed_client_secret);
    let client_ids_match = req.client_id == code_client_id;
    if !(secrets_match && client_ids_match) {
        return Err(AuthError::AuthenticationFailed);
    }
    let (username, user_role) = match users.get_user_by_id(code_user_id) {
        Some(user) => (user.get_username().clone(), user.get_role().clone()),
        None => { return Err(AuthError::NotFound) },
    };
    let _consumed = codes.take(&req.code);
    let refresh_token = refresh.upsert(code_user_id, code_client_id, generate_refresh_token(), now);
    Ok(AuthCodeSuccess { user_id: code_user_id, username, user_role, refresh_token })
}

/// Law: the exchange refuses a client whose claimed id does not match
/// the id the code was bound to, even when the supplied secret is the
/// client's correct one.
pub proof fn lemma_exchange_client_mismatch(
    codes: AuthCodeStore,
    users: UserDirectory,
    clients: ClientDirectory,
    req: AuthCodeRequest,
    now: int,
)
    requires
        codes.spec_lookup(req.code@) matches Some(cv) && now <= cv.expires && cv.client_id
            != req.client_id@,
        clients.spec_lookup(req.client_id@) is Some,
    ensures
        spec_exchange_error(codes, users, clients, req, now) == Some(
            AuthError::AuthenticationFailed,
        ),
{
}

/// Law: a consumed code is simply absent, so a second exchange with the
/// same code is refused as not found.
pub proof fn lemma_exchange_single_use(
    codes: AuthCodeStore,
    users: UserDirectory,
    clients: ClientDirectory,
    req: AuthCodeRequest,
    now: int,
)
    requires
        codes.spec_lookup(req.code@) is None,
    ensures
        spec_exchange_error(codes, users, clients, req, now) == Some(AuthError::NotFound),
{
}

/// True iff the store holds a token for the pair that equals the
/// supplied one byte for byte and has not expired.
pub fn check_refresh(
    store: &RefreshTokenStore,
    user_id: i32,
    client_id: &String,
    token: &String,
    now: u64,
) -> (r: bool)
    requires
        store.wf(),
    ensures
        r == (store.spec_lookup(user_id as int, client_id@) matches Some(rec) && rec.token
            == token@ && now <= rec.expires),
{
    match store.get(user_id, client_id) {
        Some(record) => *token == *record.get_token() && !record.is_expired(now),
        None => false,
    }
}

/// Append the `?code=` query to a client's redirect URI; the caller
/// delivers the result as a browser redirect.
pub fn build_redirect_uri(redirect_uri: &String, code: &String) -> (r: FullRedirectUri)
    ensures
        r.redirect_uri@ == redirect_uri@ + "?code="@ + code@,
{
    let mut uri = redirect_uri.clone();
    uri.append("?code=");
    uri.append(code.as_str());
    FullRedirectUri { redirect_uri: uri }
}

} // verus!
