//! Failures of the handshake's one-shot steps, and how each is answered.

use vstd::prelude::*;
use crate::provider::ExchangeError;
use crate::token::ValidationError;

verus! {

/// Why a step of the handshake failed.
#[derive(Debug, Clone, Copy, PartialEq, Eq)]
pub enum AuthError {
    /// The provider's token endpoint failed to exchange an authorization code.
    Exchange(ExchangeError),
    /// The state token of a callback is unknown or has expired.
    InvalidState,
    /// The provider's signing keys could not be fetched or read.
    KeySetUnavailable,
    /// The identity token is not valid.
    InvalidToken(ValidationError),
    /// The provider did not accept a refresh token.
    RefreshRejected,
    /// The store could not be reached.
    Storage,
    /// The cloud token service issued no credentials.
    Issuer,
}

/// The HTTP status that answers an error.
pub open spec fn status_code_of(e: AuthError) -> u16 {
    match e {
        AuthError::Exchange(ExchangeError::Rejected) => 400,
        AuthError::Exchange(_) => 502,
        AuthError::InvalidState => 400,
        AuthError::KeySetUnavailable => 500,
        AuthError::InvalidToken(_) => 401,
        AuthError::RefreshRejected => 401,
        AuthError::Storage => 500,
        AuthError::Issuer => 500,
    }
}

impl AuthError {
    /// The HTTP status that answers this error: a bad request for a rejected code or an
    /// unknown state, unauthorized for an invalid token or refresh token, a bad gateway
    /// when the provider fails, and an internal error otherwise.
    pub fn status_code(&self) -> (r: u16)
        ensures
            r == status_code_of(*self),
    {
        match self {
            AuthError::Exchange(ExchangeError::Rejected) => 400,
            AuthError::Exchange(_) => 502,
            AuthError::InvalidState => 400,
            AuthError::KeySetUnavailable => 500,
            AuthError::InvalidToken(_) => 401,
            AuthError::RefreshRejected => 401,
            AuthError::Storage => 500,
            AuthError::Issuer => 500,
        }
    }
}

} // verus!
