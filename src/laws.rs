//! Properties of the handshake as a whole, over the model of the store.

use vstd::prelude::*;
use crate::config::{CognitoConfig, IssuePolicy};
use crate::flow::{
    after_callback, callback_session, is_callback_ops, is_start_plan, pointer_in, poll_effect, session_outcome,
    status_outcome, StartPlan, StatusOutcome,
};
use crate::keys::{lemma_key_spaces_disjoint, pointer_key_of, session_key_of, state_key_of};
use crate::schemas::{CliAuthResponse, CliAuthStartRequest, CliAuthState, CliSessionData, IdTokenClaims};
use crate::store::{apply_op, apply_ops, lemma_apply_two, StoreModel, StoreOp, StoredValue};

verus! {

/// A poll made right after a start, before any callback, finds the login pending.
pub proof fn lemma_pending_after_start(
    m: StoreModel,
    payload: CliAuthStartRequest,
    cognito: CognitoConfig,
    state: Seq<char>,
    now: i64,
    plan: StartPlan,
)
    requires
        is_start_plan(plan, payload, cognito, state, now),
        !m.contains_key(pointer_key_of(state)),
    ensures
        status_outcome(apply_op(m, plan.op), state) == StatusOutcome::Respond(
            CliAuthResponse::PENDING,
        ),
{
    lemma_key_spaces_disjoint(state, state);
}

/// A poll for a state token whose request and pointer are both gone finds it expired.
pub proof fn lemma_expired_when_forgotten(m: StoreModel, state: Seq<char>)
    requires
        !m.contains_key(state_key_of(state)),
        !m.contains_key(pointer_key_of(state)),
    ensures
        status_outcome(m, state) == StatusOutcome::Respond(CliAuthResponse::EXPIRED),
{
}

/// An inactive session is denied, to a poll and to a renewal alike, and neither goes on
/// to the cloud token service.
pub proof fn lemma_inactive_session_denied(
    m: StoreModel,
    state: Seq<char>,
    sub: String,
    session: CliSessionData,
)
    requires
        m.contains_key(pointer_key_of(state)),
        m[pointer_key_of(state)] == StoredValue::Pointer(sub),
        m.contains_key(session_key_of(sub@)),
        m[session_key_of(sub@)] == StoredValue::Session(session),
        !session.active,
    ensures
        status_outcome(m, state) == StatusOutcome::Respond(CliAuthResponse::DENIED),
        session_outcome(Some(session)) == StatusOutcome::Respond(CliAuthResponse::DENIED),
{
}

/// After a successful callback, a poll for its state token gets credentials for the
/// session that the callback stored.
pub proof fn lemma_authorized_after_callback(
    m: StoreModel,
    state: Seq<char>,
    claims: IdTokenClaims,
    auth_state: CliAuthState,
    refresh_token: Option<String>,
    ops: Seq<StoreOp>,
)
    requires
        is_callback_ops(ops, state, claims, auth_state, refresh_token),
    ensures
        status_outcome(apply_ops(m, ops), state) == StatusOutcome::Issue(
            callback_session(claims, auth_state, refresh_token),
        ),
{
    lemma_apply_two(m, ops);
    lemma_key_spaces_disjoint(state, claims.sub@);
}

/// After a callback has run on a store, a poll for its state token gets credentials for
/// the session that the callback stored.
pub proof fn lemma_authorized_after_callback_run(
    m: StoreModel,
    state: Seq<char>,
    claims: IdTokenClaims,
    auth_state: CliAuthState,
    refresh_token: Option<String>,
)
    ensures
        status_outcome(after_callback(m, state, claims, auth_state, refresh_token), state)
            == StatusOutcome::Issue(callback_session(claims, auth_state, refresh_token)),
{
    lemma_key_spaces_disjoint(state, claims.sub@);
}

/// Under single use a poll takes the pointer of its state token as it reads it: no later
/// poll observes that pointer, and once the callback has consumed the request, the next
/// poll finds the login expired. Under the repeatable policy a poll changes nothing.
pub proof fn lemma_poll_consumes_pointer(m: StoreModel, state: Seq<char>, policy: IssuePolicy)
    ensures
        policy == IssuePolicy::SingleUse ==> pointer_in(poll_effect(m, state, policy), state)
            is None,
        policy == IssuePolicy::SingleUse && !m.contains_key(state_key_of(state)) ==> status_outcome(
            poll_effect(m, state, policy),
            state,
        ) == StatusOutcome::Respond(CliAuthResponse::EXPIRED),
        policy == IssuePolicy::Repeatable ==> poll_effect(m, state, policy) == m,
{
    lemma_key_spaces_disjoint(state, state);
}

} // verus!
