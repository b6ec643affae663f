//! Request and response payloads of the engine's routes.
//!
//! The engine computes these as plain values; the surrounding
//! application serializes them.

use vstd::prelude::*;

use crate::utils::{trim_str, trimmed};

verus! {

/// A generic error payload: message and status code.
pub struct ErrorResponse {
    pub error: String,
    pub code: u16,
}

/// The optional pre-selected client id of the login page.
pub struct LoginQuery {
    pub client_id: Option<String>,
}

/// A request naming a client site.
pub struct ClientDataReq {
    pub client_id: String,
}

/// The form fields for creating or updating a client site.
pub struct ClientInputs {
    pub site_domain: String,
    pub site_name: String,
    pub client_id: String,
    pub redirect_uri: String,
    pub logo_url: String,
    pub description: String,
    pub category: String,
    pub client_type: String,
    pub is_active: bool,
}

impl ClientInputs {
    /// Trim leading and trailing whitespace off every text field.
    pub fn trim_all_strings(&mut self)
        ensures
            final(self).client_id@ == trimmed(old(self).client_id@),
            final(self).site_domain@ == trimmed(old(self).site_domain@),
            final(self).site_name@ == trimmed(old(self).site_name@),
            final(self).redirect_uri@ == trimmed(old(self).redirect_uri@),
            final(self).logo_url@ == trimmed(old(self).logo_url@),
            final(self).client_type@ == trimmed(old(self).client_type@),
            final(self).description@ == trimmed(old(self).description@),
            final(self).category@ == trimmed(old(self).category@),
            final(self).is_active == old(self).is_active,
    {
        self.client_id = trim_str(self.client_id.as_str());
        self.site_domain = trim_str(self.site_domain.as_str());
        self.site_name = trim_str(self.site_name.as_str());
        self.redirect_uri = trim_str(self.redirect_uri.as_str());
        self.logo_url = trim_str(self.logo_url.as_str());
        self.client_type = trim_str(self.client_type.as_str());
        self.description = trim_str(self.description.as_str());
        self.category = trim_str(self.category.as_str());
    }
}

/// Which registration inputs were unacceptable, and why the request was
/// turned away.
pub struct BadRegistrationInputs {
    pub email_valid: bool,
    pub username_valid: bool,
    pub password_valid: bool,
    pub code: u16,
}

/// Tells the caller the submitted names were unacceptable.
pub struct BadNames {
    pub names_valid: bool,
    pub code: u16,
}

impl BadNames {
    pub fn new(code: u16) -> (r: BadNames)
        ensures
            r.code == code,
            !r.names_valid,
    {
        BadNames { code, names_valid: false }
    }
}

/// Tells the caller the submitted password was unacceptable.
pub struct BadPassword {
    pub password_valid: bool,
    pub code: u16,
}

impl BadPassword {
    pub fn new(code: u16) -> (r: BadPassword)
        ensures
            r.code == code,
            !r.password_valid,
    {
        BadPassword { code, password_valid: false }
    }
}

/// Tells the front end to move to the error page for `code`.
pub struct SendToError {
    pub send_to_error_page: bool,
    pub code: u16,
}

impl SendToError {
    pub fn new(code: u16) -> (r: SendToError)
        ensures
            r.code == code,
            r.send_to_error_page,
    {
        SendToError { code, send_to_error_page: true }
    }
}

/// Confirms a logout to the front end.
pub struct LogoutData {
    pub logout: bool,
}

impl LogoutData {
    pub fn new() -> (r: LogoutData)
        ensures
            r.logout,
    {
        LogoutData { logout: true }
    }
}

/// Reports whether an update took effect.
pub struct UpdateData {
    pub success: bool,
}

impl UpdateData {
    pub fn new(success: bool) -> (r: UpdateData)
        ensures
            r.success == success,
    {
        UpdateData { success }
    }
}

/// What a fresh login or registration returns: the username and nothing
/// else — no password material, no numeric id.
pub struct FreshLoginData {
    pub username: String,
}

/// The fully qualified redirect target handed back after an external
/// login, with the authorization code appended.
pub struct FullRedirectUri {
    pub redirect_uri: String,
}

/// A raw, unhashed client secret, shown to the admin exactly once.
pub struct RawClientSecret {
    pub raw_client_secret: String,
}

} // verus!
