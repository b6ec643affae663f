//! The wire shapes shared between the identity provider and the client
//! applications' backends: the exchange of an authorization code for a
//! refresh token, and the refresh-token check.
//!
//! The surrounding application owns serialization; a response is a
//! success payload or an error payload, told apart by which fields are
//! present.

use vstd::prelude::*;

verus! {

/// What an external client sends to exchange an authorization code.
pub struct AuthCodeRequest {
    pub client_id: String,
    pub client_secret: String,
    pub code: String,
}

/// What a successful exchange returns: the identity and a fresh refresh
/// token.
pub struct AuthCodeSuccess {
    pub user_id: i32,
    pub username: String,
    pub user_role: String,
    pub refresh_token: String,
}

/// The error payload of a failed exchange.
pub struct AuthCodeError {
    pub error_code: u16,
    pub message: String,
}

/// The unified exchange response.
pub enum AuthCodeResponse {
    Success(AuthCodeSuccess),
    Failure(AuthCodeError),
}

/// What an external client sends to check a cached refresh token.
pub struct RefreshCheckRequest {
    pub token: String,
    pub user_id: i32,
    pub client_id: String,
    pub client_secret: String,
}

/// The verdict on a checked refresh token.
pub struct RefreshCheckSuccess {
    is_valid: bool,
}

impl RefreshCheckSuccess {
    /// The verdict carried by the payload.
    pub closed spec fn spec_is_valid(self) -> bool {
        self.is_valid
    }

    pub fn new(is_valid: bool) -> (r: RefreshCheckSuccess)
        ensures
            r.spec_is_valid() == is_valid,
    {
        RefreshCheckSuccess { is_valid }
    }

    pub fn get_is_valid(&self) -> (r: bool)
        ensures
            r == self.spec_is_valid(),
    {
        self.is_valid
    }
}

/// The error payload of a failed refresh-token check.
pub struct RefreshCheckError {
    pub error_code: u16,
    pub message: String,
}

/// The unified refresh-check response.
pub enum RefreshCheckResponse {
    Success(RefreshCheckSuccess),
    Failure(RefreshCheckError),
}

} // verus!
