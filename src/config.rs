//! Configuration, built once at startup and handed to every step.

use vstd::prelude::*;

verus! {

/// Everything the service is configured with.
#[derive(Debug, Clone)]
pub struct AppArgs {
    pub redis: RedisConfig,
    pub server: ServerConfig,
    pub cognito: CognitoConfig,
    pub sts: StsConfig,
}

/// Where the cache lives.
#[derive(Debug, Clone)]
pub struct RedisConfig {
    /// Connection URL of the cache.
    pub url: String,
}

/// Where the service listens.
#[derive(Debug, Clone)]
pub struct ServerConfig {
    /// Address the HTTP server binds to.
    pub addr: String,
}

/// The identity provider.
#[derive(Debug, Clone)]
pub struct CognitoConfig {
    /// Base URL of the provider's hosted login and token endpoints.
    pub domain: String,
    /// Client id registered with the provider; also the expected audience of identity tokens.
    pub client_id: String,
    /// Redirect URI registered with the provider.
    pub redirect_uri: String,
    /// User pool whose signing keys validate identity tokens.
    pub user_pool_id: String,
    /// Region of the user pool.
    pub region: String,
}

/// Whether a completed login hands out credentials once, or to every poll until the
/// pointer expires.
#[derive(Debug, Clone, Copy, PartialEq, Eq)]
pub enum IssuePolicy {
    SingleUse,
    Repeatable,
}

/// The cloud token service.
#[derive(Debug, Clone)]
pub struct StsConfig {
    /// Role assumed on behalf of authenticated users.
    pub role_arn: String,
    /// Secret shared with the role's trust policy, if any.
    pub external_id: Option<String>,
    /// How often a completed login can be polled for credentials.
    pub policy: IssuePolicy,
}

} // verus!
