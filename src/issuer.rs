//! What the cloud token service is asked for, and what its answer becomes.

use vstd::prelude::*;
use crate::config::StsConfig;
use crate::errors::AuthError;
use crate::keys::{get_role_session_name, role_session_name_of};
use crate::schemas::{copy_opt_string, IssuedCredentials};

verus! {

/// A request to assume the configured role on behalf of a subject.
#[derive(Debug, Clone, PartialEq, Eq)]
pub struct AssumeRoleRequest {
    pub role_arn: String,
    pub role_session_name: String,
    pub external_id: Option<String>,
}

/// `req` asks for the configured role, under the role session name of `sub`.
pub open spec fn requests_role_for(req: AssumeRoleRequest, sub: Seq<char>, sts: StsConfig) -> bool {
    &&& req.role_arn@ == sts.role_arn@
    &&& req.role_session_name@ == role_session_name_of(sub)
    &&& req.external_id == sts.external_id
}

/// Builds the request that assumes the configured role for `user_sub`.
pub fn assume_role_request(user_sub: &str, sts: &StsConfig) -> (r: AssumeRoleRequest)
    ensures
        requests_role_for(r, user_sub@, *sts),
{
    AssumeRoleRequest {
        role_arn: sts.role_arn.clone(),
        role_session_name: get_role_session_name(user_sub),
        external_id: copy_opt_string(&sts.external_id),
    }
}

/// The credentials of the service's answer; an answer without them, or no answer at
/// all (`None`), is a failure of the request.
pub fn credentials_outcome(creds: Option<IssuedCredentials>) -> (r: Result<
    IssuedCredentials,
    AuthError,
>)
    ensures
        r == match creds {
            Some(c) => Ok::<IssuedCredentials, AuthError>(c),
            None => Err(AuthError::Issuer),
        },
{
    match creds {
        Some(c) => Ok(c),
        None => Err(AuthError::Issuer),
    }
}

} // verus!
