//! Records exchanged with the client and kept in the cache.

use vstd::prelude::*;

verus! {

/// Request that starts a device login.
#[derive(Debug, Clone, PartialEq, Eq)]
pub struct CliAuthStartRequest {
    /// Friendly name of the device that asks.
    pub device_name: Option<String>,
    /// Operating system of the device.
    pub os: Option<String>,
    /// Version of the command-line client.
    pub cli_version: Option<String>,
}

/// Answer to a start request: where the user signs in, and for how long the request waits.
#[derive(Debug, Clone, PartialEq, Eq)]
pub struct CliAuthStartResponse {
    pub auth_url: String,
    /// Seconds until the pending request expires.
    pub expires_in: u64,
}

/// A pending authorization request, kept under its state token.
#[derive(Debug, Clone, PartialEq, Eq)]
pub struct CliAuthState {
    pub device_name: Option<String>,
    pub os: Option<String>,
    pub cli_version: Option<String>,
    /// Seconds since the Unix epoch at which the request was made.
    pub created_at: i64,
}

/// Tokens returned by the identity provider's token endpoint.
#[derive(Debug, Clone, PartialEq, Eq)]
pub struct TokenResponse {
    pub access_token: String,
    pub id_token: String,
    /// Present when the provider issued a (new) refresh token.
    pub refresh_token: Option<String>,
    pub expires_in: u64,
    pub token_type: String,
}

/// Claims of a validated identity token.
#[derive(Debug, Clone, PartialEq, Eq)]
pub struct IdTokenClaims {
    /// Stable identifier of the user.
    pub sub: String,
    pub email: Option<String>,
    pub iss: String,
    pub aud: String,
    pub exp: usize,
}

/// Query of a status poll.
#[derive(Debug, Clone, PartialEq, Eq)]
pub struct CliStatusQuery {
    /// The state token handed out when the login started.
    pub state: String,
}

/// Query of the provider's redirect back to the service.
#[derive(Debug, Clone, PartialEq, Eq)]
pub struct AuthCallbackQuery {
    /// Authorization code issued by the provider.
    pub code: String,
    /// The state token of the login.
    pub state: String,
}

/// Request to renew credentials with a refresh token.
#[derive(Debug, Clone, PartialEq, Eq)]
pub struct CliRenewRequest {
    pub refresh_token: String,
}

/// Session of a subject, kept after a successful login.
#[derive(Debug, Clone, PartialEq, Eq)]
pub struct CliSessionData {
    pub user_sub: String,
    pub email: Option<String>,
    pub device_name: Option<String>,
    /// Refresh token used to obtain new identity tokens.
    pub refresh_token: Option<String>,
    /// Credentials are issued only while this holds.
    pub active: bool,
}

/// Value of `active` for a stored session that does not carry the field.
pub fn default_active() -> (r: bool)
    ensures
        r,
{
    true
}

/// Credentials issued by the cloud token service.
#[derive(Debug, Clone, PartialEq, Eq)]
pub struct IssuedCredentials {
    pub access_key_id: String,
    pub secret_access_key: String,
    pub session_token: String,
    /// Seconds since the Unix epoch at which the credentials expire.
    pub expires_at: i64,
}

/// Answer to a status poll or a renewal.
#[allow(non_camel_case_types)]
#[derive(Debug, Clone, PartialEq, Eq)]
pub enum CliAuthResponse {
    /// The user has not completed the login yet.
    PENDING,
    /// The login request is unknown or has expired.
    EXPIRED,
    /// The session has been deactivated.
    DENIED,
    /// Credentials were issued.
    AUTHORIZED {
        access_key_id: String,
        secret_access_key: String,
        session_token: String,
        expires_at: i64,
        /// Refresh token the client keeps for later renewals.
        refresh_token: Option<String>,
    },
}

/// A copy of an optional string.
pub fn copy_opt_string(s: &Option<String>) -> (r: Option<String>)
    ensures
        r == *s,
{
    match s {
        Some(v) => Some(v.clone()),
        None => None,
    }
}

impl CliAuthState {
    /// A copy of this record.
    pub fn copy(&self) -> (r: Self)
        ensures
            r == *self,
    {
        CliAuthState {
            device_name: copy_opt_string(&self.device_name),
            os: copy_opt_string(&self.os),
            cli_version: copy_opt_string(&self.cli_version),
            created_at: self.created_at,
        }
    }
}

impl CliSessionData {
    /// A copy of this record.
    pub fn copy(&self) -> (r: Self)
        ensures
            r == *self,
    {
        CliSessionData {
            user_sub: self.user_sub.clone(),
            email: copy_opt_string(&self.email),
            device_name: copy_opt_string(&self.device_name),
            refresh_token: copy_opt_string(&self.refresh_token),
            active: self.active,
        }
    }
}

} // verus!
