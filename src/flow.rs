//! The device-login handshake: start, provider callback, status poll and renewal.
//!
//! Each step is split where the service must talk to the outside (the store, the
//! identity provider, the cloud token service): a step takes what came back as plain
//! values, and returns the answer, what to ask next, or the changes to make to the store.

use vstd::prelude::*;
use crate::config::{CognitoConfig, IssuePolicy, StsConfig};
use crate::errors::AuthError;
use crate::issuer::{assume_role_request, requests_role_for, AssumeRoleRequest};
use crate::keys::{
    get_cli_pointer_key, get_cli_session_key, get_cli_state_key, lemma_key_spaces_disjoint,
    pointer_key_of, session_key_of, state_key_of,
};
use crate::provider::{authorize_url_of, build_auth_url, url_encoded, ExchangeError};
use crate::schemas::{
    copy_opt_string, CliAuthResponse, CliAuthStartRequest, CliAuthStartResponse, CliAuthState,
    CliSessionData, IdTokenClaims, IssuedCredentials, TokenResponse,
};
use crate::store::{deletes, lemma_apply_two, puts, MemoryStore, StoreModel, StoreOp, StoredValue};
use crate::token::{validate_id_token, validates, ValidationError};
use jsonwebtoken::jwk::JwkSet;

verus! {

/// Seconds a pending authorization request lives.
pub const STATE_TTL_SECS: u64 = 300;

/// Seconds the pointer from a completed login to its subject lives.
pub const POINTER_TTL_SECS: u64 = 600;

/// Seconds a session lives: thirty days.
pub const SESSION_TTL_SECS: u64 = 2592000;

/// Relies on `uuid::Uuid::new_v4` and its simple text form: 122 random bits as 32
/// hexadecimal digits.
#[verifier::external_body]
fn random_uuid_hex() -> (r: String)
    ensures
        r@.len() == 32,
{
    uuid::Uuid::new_v4().simple().to_string()
}

/// A fresh state token: two random UUIDs side by side, 244 random bits in 64 hexadecimal
/// digits.
fn new_state_token() -> (r: String)
    ensures
        r@.len() == 64,
{
    let first = random_uuid_hex();
    let second = random_uuid_hex();
    first.concat(second.as_str())
}

/// What a start step does: the state token it handed out, the change to the store, and
/// the answer.
#[derive(Debug, Clone, PartialEq, Eq)]
pub struct StartPlan {
    pub state: String,
    pub op: StoreOp,
    pub response: CliAuthStartResponse,
}

/// The pending request that a start stores.
pub open spec fn start_record(payload: CliAuthStartRequest, now: i64) -> CliAuthState {
    CliAuthState {
        device_name: payload.device_name,
        os: payload.os,
        cli_version: payload.cli_version,
        created_at: now,
    }
}

/// `plan` is what a start with state token `state` does: it stores the pending request
/// under the state key for `STATE_TTL_SECS`, and answers with the sign-in URL.
pub open spec fn is_start_plan(
    plan: StartPlan,
    payload: CliAuthStartRequest,
    cognito: CognitoConfig,
    state: Seq<char>,
    now: i64,
) -> bool {
    &&& plan.state@ == state
    &&& puts(
        plan.op,
        state_key_of(state),
        StoredValue::AuthState(start_record(payload, now)),
        STATE_TTL_SECS,
    )
    &&& plan.response.auth_url@ == authorize_url_of(
        cognito.domain@,
        cognito.client_id@,
        url_encoded(cognito.redirect_uri@),
        state,
    )
    &&& plan.response.expires_in == STATE_TTL_SECS
}

/// Starts a login under the given state token, at `now` seconds since the Unix epoch.
pub fn start_with_state(
    payload: &CliAuthStartRequest,
    cognito: &CognitoConfig,
    state: String,
    now: i64,
) -> (r: StartPlan)
    ensures
        is_start_plan(r, *payload, *cognito, state@, now),
{
    let record = CliAuthState {
        device_name: copy_opt_string(&payload.device_name),
        os: copy_opt_string(&payload.os),
        cli_version: copy_opt_string(&payload.cli_version),
        created_at: now,
    };
    let key = get_cli_state_key(state.as_str());
    let auth_url = build_auth_url(cognito, state.as_str());
    StartPlan {
        state,
        op: StoreOp::Put { key, value: StoredValue::AuthState(record), ttl: STATE_TTL_SECS },
        response: CliAuthStartResponse { auth_url, expires_in: STATE_TTL_SECS },
    }
}

/// Starts a login under a fresh random state token, at `now` seconds since the Unix epoch.
pub fn auth_cli_start(payload: &CliAuthStartRequest, cognito: &CognitoConfig, now: i64) -> (r:
    StartPlan)
    ensures
        is_start_plan(r, *payload, *cognito, r.state@, now),
        r.state@.len() == 64,
{
    let state = new_state_token();
    start_with_state(payload, cognito, state, now)
}

/// Takes the pending request of a callback's state token out of the store: `stored` is
/// what the state key held. An unknown or expired state is rejected, and then nothing
/// is changed.
pub fn load_and_consume_state(state: &str, stored: Option<CliAuthState>) -> (r: Result<
    (CliAuthState, StoreOp),
    AuthError,
>)
    ensures
        stored is None ==> r == Err::<(CliAuthState, StoreOp), AuthError>(AuthError::InvalidState),
        stored matches Some(s) ==> r matches Ok((rec, op)) && rec == s && deletes(
            op,
            state_key_of(state@),
        ),
{
    match stored {
        None => Err(AuthError::InvalidState),
        Some(s) => Ok((s, StoreOp::Delete { key: get_cli_state_key(state) })),
    }
}

/// The validator's result inside a step's result: a step error that is no invalid token
/// reads as `Rejected` (it does not occur once the key set was fetched).
pub open spec fn as_validation(r: Result<IdTokenClaims, AuthError>) -> Result<
    IdTokenClaims,
    ValidationError,
> {
    match r {
        Ok(c) => Ok(c),
        Err(AuthError::InvalidToken(e)) => Err(e),
        Err(_) => Err(ValidationError::Rejected),
    }
}

/// Validates the identity token of an exchange against the provider's signing keys
/// (`None` when they could not be fetched).
pub fn verify_identity(id_token: &str, jwks: Option<&JwkSet>, client_id: &str) -> (r: Result<
    IdTokenClaims,
    AuthError,
>)
    ensures
        (r == Err::<IdTokenClaims, AuthError>(AuthError::KeySetUnavailable)) <==> jwks is None,
        r matches Err(e) ==> (e == AuthError::KeySetUnavailable || e is InvalidToken),
        jwks matches Some(k) ==> validates(as_validation(r), id_token@, *k, client_id@),
        r matches Ok(c) ==> c.aud@ == client_id@,
{
    match jwks {
        None => Err(AuthError::KeySetUnavailable),
        Some(keys) => match validate_id_token(id_token, keys, client_id) {
            Ok(c) => Ok(c),
            Err(e) => Err(AuthError::InvalidToken(e)),
        },
    }
}

/// The session that a successful callback stores for its subject.
pub open spec fn callback_session(
    claims: IdTokenClaims,
    auth_state: CliAuthState,
    refresh_token: Option<String>,
) -> CliSessionData {
    CliSessionData {
        user_sub: claims.sub,
        email: claims.email,
        device_name: auth_state.device_name,
        refresh_token,
        active: true,
    }
}

/// `ops` are what a successful callback does: store the subject's session for
/// `SESSION_TTL_SECS`, then point the state token at the subject for `POINTER_TTL_SECS`.
pub open spec fn is_callback_ops(
    ops: Seq<StoreOp>,
    state: Seq<char>,
    claims: IdTokenClaims,
    auth_state: CliAuthState,
    refresh_token: Option<String>,
) -> bool {
    &&& ops.len() == 2
    &&& puts(
        ops[0],
        session_key_of(claims.sub@),
        StoredValue::Session(callback_session(claims, auth_state, refresh_token)),
        SESSION_TTL_SECS,
    )
    &&& puts(ops[1], pointer_key_of(state), StoredValue::Pointer(claims.sub), POINTER_TTL_SECS)
}

/// Records a completed login: the subject's session, active, with the refresh token the
/// provider issued, and the pointer from the state token to the subject.
pub fn mark_cli_authenticated(
    state: &str,
    claims: &IdTokenClaims,
    auth_state: &CliAuthState,
    refresh_token: Option<String>,
) -> (r: Vec<StoreOp>)
    ensures
        is_callback_ops(r@, state@, *claims, *auth_state, refresh_token),
{
    let session = CliSessionData {
        user_sub: claims.sub.clone(),
        email: copy_opt_string(&claims.email),
        device_name: copy_opt_string(&auth_state.device_name),
        refresh_token,
        active: true,
    };
    let mut ops: Vec<StoreOp> = Vec::new();
    ops.push(
        StoreOp::Put {
            key: get_cli_session_key(claims.sub.as_str()),
            value: StoredValue::Session(session),
            ttl: SESSION_TTL_SECS,
        },
    );
    ops.push(
        StoreOp::Put {
            key: get_cli_pointer_key(state),
            value: StoredValue::Pointer(claims.sub.clone()),
            ttl: POINTER_TTL_SECS,
        },
    );
    ops
}

/// The next thing a status poll or a renewal does.
#[derive(Debug, Clone, PartialEq, Eq)]
pub enum StatusStep {
    /// No login is recorded for the state token yet: read this key to learn whether the
    /// request is still pending.
    LookupState { key: String },
    /// A login is recorded: read the subject's session under this key.
    LookupSession { key: String },
    /// Answer now.
    Respond(CliAuthResponse),
    /// The session is active: ask the cloud token service with `request`.
    Issue { session: CliSessionData, request: AssumeRoleRequest },
}

/// Where a poll stands once the store has been read.
pub enum StatusOutcome {
    Respond(CliAuthResponse),
    Issue(CliSessionData),
}

/// What a loaded session leads to: no session means the login expired, an inactive one
/// is denied, an active one gets credentials.
pub open spec fn session_outcome(session: Option<CliSessionData>) -> StatusOutcome {
    match session {
        None => StatusOutcome::Respond(CliAuthResponse::EXPIRED),
        Some(s) => if s.active {
            StatusOutcome::Issue(s)
        } else {
            StatusOutcome::Respond(CliAuthResponse::DENIED)
        },
    }
}

/// `step` carries out `outcome`.
pub open spec fn step_follows(step: StatusStep, outcome: StatusOutcome, sts: StsConfig) -> bool {
    match outcome {
        StatusOutcome::Respond(resp) => step == StatusStep::Respond(resp),
        StatusOutcome::Issue(s) => step matches StatusStep::Issue { session, request } && session
            == s && requests_role_for(request, s.user_sub@, sts),
    }
}

/// Checks a loaded session: `EXPIRED` when there is none, `DENIED` when it is inactive.
pub fn validate_cli_session(session_data: Option<CliSessionData>) -> (r: Result<
    CliSessionData,
    CliAuthResponse,
>)
    ensures
        r == match session_outcome(session_data) {
            StatusOutcome::Issue(s) => Ok::<CliSessionData, CliAuthResponse>(s),
            StatusOutcome::Respond(resp) => Err(resp),
        },
{
    match session_data {
        Some(s) => {
            if !s.active {
                return Err(CliAuthResponse::DENIED);
            }
            Ok(s)
        },
        None => Err(CliAuthResponse::EXPIRED),
    }
}

/// What follows the loading of a session, in a poll or a renewal.
pub fn session_step(session_data: Option<CliSessionData>, sts: &StsConfig) -> (r: StatusStep)
    ensures
        step_follows(r, session_outcome(session_data), *sts),
{
    match validate_cli_session(session_data) {
        Ok(s) => {
            let request = assume_role_request(s.user_sub.as_str(), sts);
            StatusStep::Issue { session: s, request }
        },
        Err(resp) => StatusStep::Respond(resp),
    }
}

/// What follows the reading of the pointer key of `state` (`pointer` is the subject it
/// held).
pub fn status_on_pointer(state: &str, pointer: Option<String>) -> (r: StatusStep)
    ensures
        pointer is None ==> (r matches StatusStep::LookupState { key } && key@ == state_key_of(
            state@,
        )),
        pointer matches Some(sub) ==> (r matches StatusStep::LookupSession { key } && key@
            == session_key_of(sub@)),
{
    match pointer {
        None => StatusStep::LookupState { key: get_cli_state_key(state) },
        Some(sub) => StatusStep::LookupSession { key: get_cli_session_key(sub.as_str()) },
    }
}

/// Answer of a poll whose login is not recorded yet: `PENDING` while the request is
/// stored, `EXPIRED` once it is gone.
pub fn status_on_state(pending: bool) -> (r: CliAuthResponse)
    ensures
        r == (if pending {
            CliAuthResponse::PENDING
        } else {
            CliAuthResponse::EXPIRED
        }),
{
    if pending {
        CliAuthResponse::PENDING
    } else {
        CliAuthResponse::EXPIRED
    }
}

/// The answer that hands out credentials with a refresh token.
pub open spec fn authorized_response(
    c: IssuedCredentials,
    refresh_token: Option<String>,
) -> CliAuthResponse {
    CliAuthResponse::AUTHORIZED {
        access_key_id: c.access_key_id,
        secret_access_key: c.secret_access_key,
        session_token: c.session_token,
        expires_at: c.expires_at,
        refresh_token,
    }
}

/// How a poll reads the pointer of its state token: under single use it takes it out
/// of the store in the same step (an atomic fetch-and-delete), so that at most one poll
/// ever observes a given pointer; under the repeatable policy it only reads it.
#[derive(Debug, Clone, PartialEq, Eq)]
pub struct PointerRead {
    pub key: String,
    pub take: bool,
}

/// The first step of a poll for `state`: how to read its pointer.
pub fn pointer_read(state: &str, policy: IssuePolicy) -> (r: PointerRead)
    ensures
        r.key@ == pointer_key_of(state@),
        r.take == (policy == IssuePolicy::SingleUse),
{
    let take = match policy {
        IssuePolicy::SingleUse => true,
        IssuePolicy::Repeatable => false,
    };
    PointerRead { key: get_cli_pointer_key(state), take }
}

/// The store after a poll for `state` has read it.
pub open spec fn poll_effect(m: StoreModel, state: Seq<char>, policy: IssuePolicy) -> StoreModel {
    match policy {
        IssuePolicy::SingleUse => m.remove(pointer_key_of(state)),
        IssuePolicy::Repeatable => m,
    }
}

/// Ends a poll once the cloud token service has answered (`creds` is `None` when it
/// failed or sent no credentials): the credentials with the session's refresh token.
pub fn status_on_credentials(session: &CliSessionData, creds: Option<IssuedCredentials>) -> (r:
    Result<CliAuthResponse, AuthError>)
    ensures
        r == match creds {
            Some(c) => Ok::<CliAuthResponse, AuthError>(
                authorized_response(c, session.refresh_token),
            ),
            None => Err(AuthError::Issuer),
        },
{
    let c = match creds {
        Some(c) => c,
        None => return Err(AuthError::Issuer),
    };
    Ok(
        CliAuthResponse::AUTHORIZED {
            access_key_id: c.access_key_id,
            secret_access_key: c.secret_access_key,
            session_token: c.session_token,
            expires_at: c.expires_at,
            refresh_token: copy_opt_string(&session.refresh_token),
        },
    )
}

/// The first step of a renewal: a refresh token that the provider did not exchange, for
/// whatever reason, makes the renewal unauthorized.
pub fn renew_on_exchange(exchanged: Result<TokenResponse, ExchangeError>) -> (r: Result<
    TokenResponse,
    AuthError,
>)
    ensures
        exchanged is Err ==> r == Err::<TokenResponse, AuthError>(AuthError::RefreshRejected),
        exchanged matches Ok(t) ==> r == Ok::<TokenResponse, AuthError>(t),
{
    match exchanged {
        Ok(t) => Ok(t),
        Err(_) => Err(AuthError::RefreshRejected),
    }
}

/// The refresh token a renewal hands back: the one the provider rotated in, else the one
/// the client sent.
pub open spec fn next_refresh_token(rotated: Option<String>, presented: String) -> String {
    match rotated {
        Some(t) => t,
        None => presented,
    }
}

/// Ends a renewal once the cloud token service has answered (`creds` is `None` when it
/// failed or sent no credentials).
pub fn renew_on_credentials(
    creds: Option<IssuedCredentials>,
    rotated: Option<String>,
    presented: &String,
) -> (r: Result<CliAuthResponse, AuthError>)
    ensures
        r == match creds {
            Some(c) => Ok::<CliAuthResponse, AuthError>(
                authorized_response(c, Some(next_refresh_token(rotated, *presented))),
            ),
            None => Err(AuthError::Issuer),
        },
{
    let c = match creds {
        Some(c) => c,
        None => return Err(AuthError::Issuer),
    };
    let next = match rotated {
        Some(t) => t,
        None => presented.clone(),
    };
    Ok(
        CliAuthResponse::AUTHORIZED {
            access_key_id: c.access_key_id,
            secret_access_key: c.secret_access_key,
            session_token: c.session_token,
            expires_at: c.expires_at,
            refresh_token: Some(next),
        },
    )
}

/// The subject that the pointer of `state` names, if the store holds one.
pub open spec fn pointer_in(m: StoreModel, state: Seq<char>) -> Option<String> {
    if m.contains_key(pointer_key_of(state)) {
        match m[pointer_key_of(state)] {
            StoredValue::Pointer(sub) => Some(sub),
            _ => None,
        }
    } else {
        None
    }
}

/// The session of `sub`, if the store holds one.
pub open spec fn session_in(m: StoreModel, sub: Seq<char>) -> Option<CliSessionData> {
    if m.contains_key(session_key_of(sub)) {
        match m[session_key_of(sub)] {
            StoredValue::Session(s) => Some(s),
            _ => None,
        }
    } else {
        None
    }
}

/// Whether the pending request of `state` is stored.
pub open spec fn pending_in(m: StoreModel, state: Seq<char>) -> bool {
    m.contains_key(state_key_of(state)) && m[state_key_of(state)] is AuthState
}

/// Where a poll for `state` stands on the store `m`: without a pointer, `PENDING` or
/// `EXPIRED` as the request is stored or not; with one, what the subject's session
/// leads to.
pub open spec fn status_outcome(m: StoreModel, state: Seq<char>) -> StatusOutcome {
    match pointer_in(m, state) {
        None => StatusOutcome::Respond(
            if pending_in(m, state) {
                CliAuthResponse::PENDING
            } else {
                CliAuthResponse::EXPIRED
            },
        ),
        Some(sub) => session_outcome(session_in(m, sub@)),
    }
}

/// Runs a poll for `state` on an in-memory store at instant `now`, up to the answer or
/// the request to the cloud token service.
pub fn status_lookup(store: &mut MemoryStore, state: &String, now: u64, sts: &StsConfig) -> (r:
    StatusStep)
    ensures
        step_follows(r, status_outcome(old(store).view_at(now), state@), *sts),
        final(store).view_at(now) == poll_effect(old(store).view_at(now), state@, sts.policy),
{
    let read = pointer_read(state.as_str(), sts.policy);
    let found = if read.take {
        store.take(&read.key, now)
    } else {
        store.get(&read.key, now)
    };
    let pointer = match found {
        Some(StoredValue::Pointer(sub)) => Some(sub),
        _ => None,
    };
    proof {
        lemma_key_spaces_disjoint(state@, state@);
    }
    match status_on_pointer(state.as_str(), pointer) {
        StatusStep::LookupState { key } => {
            let pending = match store.get(&key, now) {
                Some(StoredValue::AuthState(_)) => true,
                _ => false,
            };
            StatusStep::Respond(status_on_state(pending))
        },
        StatusStep::LookupSession { key } => {
            let ghost sub = pointer->0@;
            proof {
                lemma_key_spaces_disjoint(sub, state@);
            }
            let session = match store.get(&key, now) {
                Some(StoredValue::Session(s)) => Some(s),
                _ => None,
            };
            session_step(session, sts)
        },
        other => other,
    }
}

/// The pending request of `state`, if the store holds one.
pub open spec fn request_in(m: StoreModel, state: Seq<char>) -> Option<CliAuthState> {
    if m.contains_key(state_key_of(state)) {
        match m[state_key_of(state)] {
            StoredValue::AuthState(a) => Some(a),
            _ => None,
        }
    } else {
        None
    }
}

/// The store after a successful callback for `state`: the request is consumed, the
/// subject's session stored, and the state token points at the subject.
pub open spec fn after_callback(
    m: StoreModel,
    state: Seq<char>,
    claims: IdTokenClaims,
    auth_state: CliAuthState,
    refresh_token: Option<String>,
) -> StoreModel {
    m.remove(state_key_of(state)).insert(
        session_key_of(claims.sub@),
        StoredValue::Session(callback_session(claims, auth_state, refresh_token)),
    ).insert(pointer_key_of(state), StoredValue::Pointer(claims.sub))
}

/// Runs a callback for `state` on an in-memory store at instant `now`, once the code was
/// exchanged: `identity` is what validating its identity token gave. An unknown or
/// expired state is rejected and nothing changes; otherwise the request is consumed,
/// and the session and pointer are stored only when the identity checked.
pub fn callback_on_store(
    store: &mut MemoryStore,
    state: &String,
    identity: Result<IdTokenClaims, AuthError>,
    refresh_token: Option<String>,
    now: u64,
) -> (r: Result<(), AuthError>)
    ensures
        request_in(old(store).view_at(now), state@) is None ==> r == Err::<(), AuthError>(
            AuthError::InvalidState,
        ) && final(store).view_at(now) == old(store).view_at(now),
        request_in(old(store).view_at(now), state@) matches Some(rec) ==> match identity {
            Err(e) => r == Err::<(), AuthError>(e) && final(store).view_at(now) == old(
                store,
            ).view_at(now).remove(state_key_of(state@)),
            Ok(c) => r is Ok && final(store).view_at(now) == after_callback(
                old(store).view_at(now),
                state@,
                c,
                rec,
                refresh_token,
            ),
        },
{
    let key = get_cli_state_key(state.as_str());
    let stored = match store.get(&key, now) {
        Some(StoredValue::AuthState(a)) => Some(a),
        _ => None,
    };
    let (rec, consume) = match load_and_consume_state(state.as_str(), stored) {
        Ok(found) => found,
        Err(e) => return Err(e),
    };
    store.apply(consume, now);
    let claims = match identity {
        Ok(c) => c,
        Err(e) => return Err(e),
    };
    let ghost consumed = store.view_at(now);
    let ops = mark_cli_authenticated(state.as_str(), &claims, &rec, refresh_token);
    proof {
        lemma_apply_two(consumed, ops@);
    }
    store.apply_all(ops, now);
    Ok(())
}

} // verus!
