//! Access tokens, their claims, and the identity derived from them.
//!
//! An access token is a signed JWT carrying the claims of one user.  The
//! signing and signature-checking calls go through trusted wrappers around
//! the `jsonwebtoken` crate; everything around them — expiry
//! classification, identity derivation, cookie construction — is verified.

use vstd::prelude::*;

use crate::config::AuthConfig;

verus! {

/// Mathematical image of one claim set.
pub struct ClaimsView {
    pub sub: int,
    pub username: Seq<char>,
    pub role: Seq<char>,
    pub exp: int,
}

/// The data encoded into one access token: subject id, username, role and
/// expiry (seconds since the Unix epoch).  Immutable once signed.
pub struct Claims {
    sub: i32,
    role: String,
    username: String,
    exp: u64,
}

impl View for Claims {
    type V = ClaimsView;

    closed spec fn view(&self) -> ClaimsView {
        ClaimsView {
            sub: self.sub as int,
            username: self.username@,
            role: self.role@,
            exp: self.exp as int,
        }
    }
}

impl Claims {
    pub fn get_sub(&self) -> (r: i32)
        ensures
            r as int == self@.sub,
    {
        self.sub
    }

    pub fn get_role(&self) -> (r: &String)
        ensures
            r@ == self@.role,
    {
        &self.role
    }

    pub fn get_username(&self) -> (r: &String)
        ensures
            r@ == self@.username,
    {
        &self.username
    }

    pub fn get_exp(&self) -> (r: u64)
        ensures
            r as int == self@.exp,
    {
        self.exp
    }
}

/// The three-way outcome of checking an access token.  `Expired` still
/// carries the claims: the signature proved them authentic, only the
/// expiry lies in the past.
pub enum JwtVerification {
    Valid(Claims),
    Expired(Claims),
    Invalid,
}

/// Abstract error kinds of the engine; no storage or library error text
/// ever leaves the engine.
#[derive(Clone, Copy, PartialEq, Eq, Structural, Debug)]
pub enum AuthError {
    /// The signing secret is absent or signing failed: a fatal
    /// configuration error.
    MissingJwtSecret,
    /// A credential check failed; the caller is never told which one.
    AuthenticationFailed,
    /// An id, code or record the caller named does not exist.
    NotFound,
    /// The storage collaborator reported a failure.
    StorageError,
}

impl AuthError {
    pub open spec fn spec_error_code(self) -> u16 {
        match self {
            AuthError::MissingJwtSecret => 500,
            AuthError::AuthenticationFailed => 401,
            AuthError::NotFound => 406,
            AuthError::StorageError => 500,
        }
    }

    pub fn error_code(&self) -> (r: u16)
        ensures
            r == self.spec_error_code(),
    {
        match self {
            AuthError::MissingJwtSecret => 500,
            AuthError::AuthenticationFailed => 401,
            AuthError::NotFound => 406,
            AuthError::StorageError => 500,
        }
    }

    /// A generic message for the caller; deliberately does not reveal
    /// which sub-check failed.
    pub fn message(&self) -> (r: String)
        ensures
            *self == AuthError::MissingJwtSecret ==> r@ == "Missing JWT Secret"@,
            *self == AuthError::AuthenticationFailed ==> r@ == "Authentication required"@,
            *self == AuthError::NotFound ==> r@ == "Not Found"@,
            *self == AuthError::StorageError ==> r@ == "Internal server error"@,
    {
        match self {
            AuthError::MissingJwtSecret => "Missing JWT Secret".to_owned(),
            AuthError::AuthenticationFailed => "Authentication required".to_owned(),
            AuthError::NotFound => "Not Found".to_owned(),
            AuthError::StorageError => "Internal server error".to_owned(),
        }
    }
}

/// Request-scoped identity, rebuilt from the access token (or defaulted to
/// a guest) on every request and read by the route handlers.
#[derive(Clone)]
pub struct UserReqData {
    pub id: Option<i32>,
    pub username: Option<String>,
    pub role: String,
    pub logged_in: bool,
}

/// The guest identity: no id, no username, role "guest", not logged in.
pub open spec fn is_guest(r: UserReqData) -> bool {
    &&& r.id is None
    &&& r.username is None
    &&& r.role@ == "guest"@
    &&& !r.logged_in
}

/// The identity derived from an authenticated claim set.
pub open spec fn is_identity_of(r: UserReqData, c: ClaimsView) -> bool {
    &&& r.id matches Some(i) && i as int == c.sub
    &&& r.username matches Some(u) && u@ == c.username
    &&& r.role@ == c.role
    &&& r.logged_in
}

impl UserReqData {
    /// Build the identity for a request: from a claim set when one was
    /// authenticated, else the guest identity.
    pub fn new(claims_option: Option<Claims>) -> (r: UserReqData)
        ensures
            claims_option matches Some(c) ==> is_identity_of(r, c@),
            claims_option is None ==> is_guest(r),
    {
        match claims_option {
            Some(claims) => UserReqData {
                id: Some(claims.get_sub()),
                username: Some(claims.get_username().clone()),
                role: claims.get_role().clone(),
                logged_in: true,
            },
            None => UserReqData {
                id: None,
                username: None,
                role: "guest".to_owned(),
                logged_in: false,
            },
        }
    }

    /// Whether this request runs with the admin role.
    pub fn is_admin(&self) -> (r: bool)
        ensures
            r == (self.role@ == "admin"@),
    {
        let admin: String = "admin".to_owned();
        self.role == admin
    }
}

/// What the check in front of an admin page decides for a request.
pub enum AdminAccess {
    /// No user id at all: send the caller to the login page.
    SendToLogin,
    /// Logged in without the admin role: send to the forbidden page.
    Forbidden,
    /// An admin: let the request through.
    Allowed,
}

/// Decide how an admin-only page answers this request's identity.
pub fn admin_access(user: &UserReqData) -> (r: AdminAccess)
    ensures
        user.id is None ==> r is SendToLogin,
        user.id is Some && user.role@ != "admin"@ ==> r is Forbidden,
        user.id is Some && user.role@ == "admin"@ ==> r is Allowed,
{
    if user.id.is_none() {
        AdminAccess::SendToLogin
    } else if !user.is_admin() {
        AdminAccess::Forbidden
    } else {
        AdminAccess::Allowed
    }
}

/// The signed, encoded token that `jsonwebtoken::encode` produces for the
/// given secret and claim fields under HS256.  Stated as a name only: the
/// encoding is a pure function of these arguments, and nothing else is
/// assumed of it.
pub uninterp spec fn jwt_of(
    secret: Seq<char>,
    sub: int,
    username: Seq<char>,
    role: Seq<char>,
    exp: int,
) -> Seq<char>;

/// The claim set that `jsonwebtoken::decode` under HS256 recovers from a
/// token whose signature verifies against `secret` — `None` for every
/// string whose signature does not.  A pure function of secret and
/// token; stated as a name only.
pub uninterp spec fn jwt_claims(secret: Seq<char>, token: Seq<char>) -> Option<ClaimsView>;

/// `token` carries the authentic claim set `c` under `secret`.
pub open spec fn is_token_for(token: Seq<char>, secret: Seq<char>, c: ClaimsView) -> bool {
    jwt_claims(secret, token) == Some(c)
}

/// Relies on `jsonwebtoken::encode` with `Header::default()` (HS256) and
/// `EncodingKey::from_secret`: signing an HMAC over a string-keyed map
/// cannot fail, the result is a pure function of the secret and the
/// claim fields, named `jwt_of`, and decoding it under the same secret
/// recovers exactly the claims that went in.
#[verifier::external_body]
fn jwt_encode(secret: &str, sub: i32, username: &str, role: &str, exp: u64) -> (r: Option<String>)
    ensures
        r is Some,
        r matches Some(t) ==> t@ == jwt_of(secret@, sub as int, username@, role@, exp as int),
        r matches Some(t) ==> jwt_claims(secret@, t@) == Some(
            ClaimsView { sub: sub as int, username: username@, role: role@, exp: exp as int },
        ),
{
    let mut claims = serde_json::Map::new();
    claims.insert(String::from("sub"), serde_json::Value::from(sub));
    claims.insert(String::from("username"), serde_json::Value::from(username));
    claims.insert(String::from("role"), serde_json::Value::from(role));
    claims.insert(String::from("exp"), serde_json::Value::from(exp));
    let key = jsonwebtoken::EncodingKey::from_secret(secret.as_bytes());
    jsonwebtoken::encode(&jsonwebtoken::Header::default(), &claims, &key).ok()
}

/// Relies on `jsonwebtoken::decode` with HS256 and `validate_exp` turned
/// off: it recovers the claims of exactly the tokens whose signature
/// checks out under `secret` — the function of secret and token that
/// `jwt_claims` names.  Expiry is not examined here.
#[verifier::external_body]
fn jwt_decode(secret: &str, token: &str) -> (r: Option<Claims>)
    ensures
        r matches Some(c) ==> jwt_claims(secret@, token@) == Some(c@),
        r is None ==> jwt_claims(secret@, token@) is None,
{
    let mut validation = jsonwebtoken::Validation::new(jsonwebtoken::Algorithm::HS256);
    validation.validate_exp = false;
    let key = jsonwebtoken::DecodingKey::from_secret(secret.as_bytes());
    let data = jsonwebtoken::decode::<serde_json::Map<String, serde_json::Value>>(
        token,
        &key,
        &validation,
    ).ok()?;
    let sub = i32::try_from(data.claims.get("sub")?.as_i64()?).ok()?;
    let username = data.claims.get("username")?.as_str()?.to_owned();
    let role = data.claims.get("role")?.as_str()?.to_owned();
    let exp = data.claims.get("exp")?.as_u64()?;
    Some(Claims { sub, username, role, exp })
}

/// Mint a signed access token for the given user, expiring
/// `config.access_token_ttl` seconds after `now`.
///
/// Fails with `MissingJwtSecret` exactly when the secret is absent:
/// signing itself cannot fail.
pub fn generate_jwt(config: &AuthConfig, user_id: i32, username: String, role: String, now: u64) -> (r:
    Result<String, AuthError>)
    requires
        now + config.access_token_ttl <= u64::MAX,
    ensures
        r matches Ok(t) ==> (config.jwt_secret matches Some(s) && t@ == jwt_of(
            s@,
            user_id as int,
            username@,
            role@,
            now + config.access_token_ttl,
        ) && jwt_claims(s@, t@) == Some(
            ClaimsView {
                sub: user_id as int,
                username: username@,
                role: role@,
                exp: now + config.access_token_ttl,
            },
        )),
        config.jwt_secret is None ==> r == Result::<String, AuthError>::Err(
            AuthError::MissingJwtSecret,
        ),
        config.jwt_secret is Some ==> r is Ok,
        r matches Err(e) ==> e == AuthError::MissingJwtSecret,
{
    let exp: u64 = now + config.access_token_ttl;
    match &config.jwt_secret {
        Some(secret) => {
            match jwt_encode(secret.as_str(), user_id, username.as_str(), role.as_str(), exp) {
                Some(token) => Ok(token),
                None => Err(AuthError::MissingJwtSecret),
            }
        },
        None => Err(AuthError::MissingJwtSecret),
    }
}

/// Check an access token and classify it three ways.
///
/// The signature is checked first; a sound signature with an expiry in the
/// past yields `Expired` with the claims intact, and every other failure —
/// bad signature, malformed token, missing secret — yields `Invalid`.
pub fn verify_jwt(config: &AuthConfig, token: &str, now: u64) -> (r: JwtVerification)
    ensures
        r matches JwtVerification::Valid(c) ==> (config.jwt_secret matches Some(s) && is_token_for(
            token@,
            s@,
            c@,
        ) && c@.exp >= now),
        r matches JwtVerification::Expired(c) ==> (config.jwt_secret matches Some(s)
            && is_token_for(token@, s@, c@) && c@.exp < now),
        config.jwt_secret matches Some(s) ==> (jwt_claims(s@, token@) matches Some(cv) ==> (if cv.exp
            >= now {
            r matches JwtVerification::Valid(c) && c@ == cv
        } else {
            r matches JwtVerification::Expired(c) && c@ == cv
        })),
        config.jwt_secret matches Some(s) ==> (jwt_claims(s@, token@) is None ==> r is Invalid),
        config.jwt_secret is None ==> r is Invalid,
{
    let secret = match &config.jwt_secret {
        Some(s) => s,
        None => { return JwtVerification::Invalid },
    };
    match jwt_decode(secret.as_str(), token) {
        None => JwtVerification::Invalid,
        Some(claims) => {
            if claims.get_exp() >= now {
                JwtVerification::Valid(claims)
            } else {
                JwtVerification::Expired(claims)
            }
        },
    }
}

/// True of the characters the opaque-token alphabet may contain:
/// ASCII letters and digits.
pub open spec fn is_alphanumeric_ascii(c: char) -> bool {
    ||| ('a' as u32) <= (c as u32) <= ('z' as u32)
    ||| ('A' as u32) <= (c as u32) <= ('Z' as u32)
    ||| ('0' as u32) <= (c as u32) <= ('9' as u32)
}

/// Relies on `rand::rng().sample_iter(&Alphanumeric)`: each sampled
/// character is an ASCII letter or digit, and `take(len)` yields exactly
/// `len` of them.  The result is random, so nothing more is promised.
#[verifier::external_body]
fn random_alphanumeric(len: usize) -> (r: String)
    ensures
        r@.len() == len as int,
        forall|i: int| 0 <= i < r@.len() ==> is_alphanumeric_ascii(#[trigger] r@[i]),
{
    rand::Rng::sample_iter(rand::rng(), &rand::distr::Alphanumeric).take(len).map(
        char::from,
    ).collect()
}

/// A fresh opaque refresh token: 64 random alphanumeric characters.
pub fn generate_refresh_token() -> (r: String)
    ensures
        r@.len() == 64,
        forall|i: int| 0 <= i < r@.len() ==> is_alphanumeric_ascii(#[trigger] r@[i]),
{
    random_alphanumeric(64)
}

/// A fresh opaque authorization code: 64 random alphanumeric characters.
pub fn generate_auth_code() -> (r: String)
    ensures
        r@.len() == 64,
        forall|i: int| 0 <= i < r@.len() ==> is_alphanumeric_ascii(#[trigger] r@[i]),
{
    random_alphanumeric(64)
}

/// A cookie to be attached to the outgoing response.  The engine never
/// touches the network; the surrounding application turns this value into
/// a real `Set-Cookie` header.
pub struct CookieSpec {
    pub name: String,
    pub value: String,
    pub http_only: bool,
    pub secure: bool,
    pub same_site_lax: bool,
    pub path: String,
    pub max_age_zero: bool,
}

/// Build the cookie that carries a token: HttpOnly, Secure when the
/// deployment says so, SameSite=Lax, path "/".
pub fn build_token_cookie(token: String, name: String, secure: bool) -> (c: CookieSpec)
    ensures
        c.name@ == name@,
        c.value@ == token@,
        c.http_only,
        c.secure == secure,
        c.same_site_lax,
        c.path@ == "/"@,
        !c.max_age_zero,
{
    CookieSpec {
        name,
        value: token,
        http_only: true,
        secure,
        same_site_lax: true,
        path: "/".to_owned(),
        max_age_zero: false,
    }
}

/// Build the cookie that clears a token at logout: empty value,
/// `max-age=0`, HttpOnly, path "/".
pub fn build_cleared_cookie(name: String) -> (c: CookieSpec)
    ensures
        c.name@ == name@,
        c.value@ =~= Seq::<char>::empty(),
        c.http_only,
        !c.secure,
        !c.same_site_lax,
        c.path@ == "/"@,
        c.max_age_zero,
{
    CookieSpec {
        name,
        value: String::new(),
        http_only: true,
        secure: false,
        same_site_lax: false,
        path: "/".to_owned(),
        max_age_zero: true,
    }
}

/// A string whose signature verifies to no claim set at all — a tampered
/// or foreign token — is always classified `Invalid`, never `Valid` or
/// `Expired`.
pub proof fn lemma_unsigned_token_invalid(
    r: JwtVerification,
    token: Seq<char>,
    secret: Seq<char>,
    now: u64,
)
    requires
        jwt_claims(secret, token) is None,
        r matches JwtVerification::Valid(c) ==> is_token_for(token, secret, c@),
        r matches JwtVerification::Expired(c) ==> is_token_for(token, secret, c@),
    ensures
        r is Invalid,
{
}

} // verus!
