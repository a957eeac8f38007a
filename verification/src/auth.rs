use vstd::prelude::*;

use crate::coordinator::{authorization_url, is_login_token, ExchangeError, LoginManager};
use crate::http::{
    is_found_redirect_to, is_internal_server_error, is_temporary_redirect_to, is_unauthorized,
    reply_view, HttpReply,
};
use crate::identity::Identity;
use crate::session::SessionStore;

verus! {

/// The query parameters the identity provider sends back to the callback:
/// the authorization code and the echoed `state` value.
pub struct AuthResponse {
    pub code: String,
    pub state: String,
}

/// What the callback handler decides before any network work: either respond
/// at once (the attempt is rejected), or go on to the code-for-token exchange
/// with the issued nonce.
pub enum CallbackAction {
    Respond(HttpReply),
    Exchange { code: String, nonce: String },
}

/// The stored attempt matches the callback: both login keys are present and
/// the `state` parameter equals the stored CSRF token.
pub open spec fn attempt_valid(s: SessionStore, state: Seq<char>) -> bool {
    &&& s.csrf_token matches Some(c) && c@ == state
    &&& s.nonce is Some
}

/// What login initiation guarantees: any prior identity assertion is cleared,
/// the session store holds a fresh CSRF token and nonce, and the response
/// redirects to the authorization URL built from exactly those two values.
pub open spec fn login_post(m: LoginManager, id: Identity, s: SessionStore, r: HttpReply) -> bool {
    &&& id.user is None
    &&& s.csrf_token matches Some(c) && s.nonce matches Some(n) && is_login_token(c@)
        && is_login_token(n@) && is_temporary_redirect_to(r, authorization_url(m, c@, n@))
}

/// What callback validation guarantees: the login keys are consumed whatever
/// the outcome; the exchange is entered exactly when the stored attempt
/// matches the callback, and then with the callback's code and the issued
/// nonce; otherwise the response is "unauthorized".
pub open spec fn callback_validation_post(
    old_s: SessionStore,
    q: AuthResponse,
    new_s: SessionStore,
    step: CallbackAction,
) -> bool {
    &&& new_s.is_empty()
    &&& (step is Exchange <==> attempt_valid(old_s, q.state@))
    &&& step matches CallbackAction::Exchange { code, nonce } ==> code@ == q.code@ && (
    old_s.nonce matches Some(n) && nonce@ == n@)
    &&& step matches CallbackAction::Respond(r) ==> is_unauthorized(r)
}

/// What callback completion guarantees: a successful exchange binds the
/// identity to the resolved user and redirects home; a failed one leaves the
/// identity untouched and answers with a server error.
pub open spec fn callback_completion_post(
    outcome: Result<String, ExchangeError>,
    old_id: Identity,
    new_id: Identity,
    r: HttpReply,
) -> bool {
    &&& outcome matches Ok(uid) ==> new_id.user == Some(uid) && is_temporary_redirect_to(r, "/"@)
    &&& outcome is Err ==> new_id == old_id && is_internal_server_error(r)
}

/// What logout guarantees: the identity assertion and the session store are
/// cleared, and the visitor is sent home.
pub open spec fn logout_post(id: Identity, s: SessionStore, r: HttpReply) -> bool {
    &&& id.user is None
    &&& s.is_empty()
    &&& is_found_redirect_to(r, "/"@)
}

/// Login initiation: unconditionally clear any existing identity assertion
/// (a re-initiating visitor must not keep a stale identity), mint a fresh
/// authorization request, store its CSRF token and nonce in the session, and
/// redirect to the provider.
pub fn login(
    login_manager: &mut LoginManager,
    id: &mut Identity,
    session: &mut SessionStore,
) -> (r: HttpReply)
    requires
        old(login_manager).wf(),
    ensures
        *final(login_manager) == *old(login_manager),
        login_post(*old(login_manager), *final(id), *final(session), r),
{
    id.forget();
    let (url, csrf_token, nonce) = login_manager.login();
    session.insert_csrf_token(csrf_token);
    session.insert_nonce(nonce);
    HttpReply::temporary_redirect(url)
}

/// Callback validation: read and unconditionally clear the login keys (a
/// callback, valid or not, consumes the attempt), reject unless the supplied
/// `state` exactly matches the stored CSRF token, and otherwise hand the code
/// and the issued nonce on to the exchange.
pub fn begin_callback(session: &mut SessionStore, q: &AuthResponse) -> (r: CallbackAction)
    ensures
        callback_validation_post(*old(session), *q, *final(session), r),
{
    let (csrf_token, nonce) = session.take_login_attempt();
    match (csrf_token, nonce) {
        (Some(state), Some(nonce)) => {
            if state == q.state {
                CallbackAction::Exchange { code: q.code.clone(), nonce }
            } else {
                CallbackAction::Respond(HttpReply::unauthorized())
            }
        },
        _ => CallbackAction::Respond(HttpReply::unauthorized()),
    }
}

/// Callback completion: bind a successfully exchanged identity to the
/// identity cookie and redirect home, or answer a failed exchange with a
/// server error, distinguishable from the security rejection.
pub fn finish_callback(outcome: Result<String, ExchangeError>, id: &mut Identity) -> (r: HttpReply)
    ensures
        callback_completion_post(outcome, *old(id), *final(id), r),
{
    match outcome {
        Ok(uid) => {
            id.remember(uid);
            HttpReply::temporary_redirect("/".to_owned())
        },
        Err(_) => HttpReply::internal_server_error(),
    }
}

/// Logout: unconditionally clear the identity assertion and the session
/// store, then redirect home. Logging out an anonymous visitor is a no-op
/// with the same response.
pub fn logout(id: &mut Identity, session: &mut SessionStore) -> (r: HttpReply)
    ensures
        logout_post(*final(id), *final(session), r),
{
    id.forget();
    session.clear();
    HttpReply::found("/".to_owned())
}

/// Law: a callback whose `state` matches the stored CSRF token enters the
/// exchange, and when the exchange resolves a user the identity is bound to
/// exactly that user and the visitor is redirected home.
pub proof fn lemma_valid_callback_binds_identity(
    s0: SessionStore,
    q: AuthResponse,
    s1: SessionStore,
    step: CallbackAction,
    uid: String,
    id0: Identity,
    id1: Identity,
    r: HttpReply,
)
    requires
        attempt_valid(s0, q.state@),
        callback_validation_post(s0, q, s1, step),
        callback_completion_post(Ok(uid), id0, id1, r),
    ensures
        step is Exchange,
        step matches CallbackAction::Exchange { code, nonce } ==> code@ == q.code@,
        s1.is_empty(),
        id1.user == Some(uid),
        is_temporary_redirect_to(r, "/"@),
{
}

/// Law: a callback whose `state` does not match the stored CSRF token is
/// answered "unauthorized" and consumes the login keys, so an identical
/// second callback is again answered "unauthorized": a rejected attempt
/// cannot be replayed.
pub proof fn lemma_mismatched_callback_not_replayable(
    s0: SessionStore,
    q: AuthResponse,
    s1: SessionStore,
    step1: CallbackAction,
    s2: SessionStore,
    step2: CallbackAction,
)
    requires
        !(s0.csrf_token matches Some(c) && c@ == q.state@),
        callback_validation_post(s0, q, s1, step1),
        callback_validation_post(s1, q, s2, step2),
    ensures
        step1 matches CallbackAction::Respond(r1) && is_unauthorized(r1),
        s1.is_empty(),
        step2 matches CallbackAction::Respond(r2) && is_unauthorized(r2),
        s2.is_empty(),
{
}

/// Law: a callback with no prior login initiation (empty session store) is
/// answered "unauthorized".
pub proof fn lemma_callback_without_initiation_rejected(
    s0: SessionStore,
    q: AuthResponse,
    s1: SessionStore,
    step: CallbackAction,
)
    requires
        s0.is_empty(),
        callback_validation_post(s0, q, s1, step),
    ensures
        step matches CallbackAction::Respond(r) && is_unauthorized(r),
        s1.is_empty(),
{
}

/// Law: a failed exchange answers with a server error, leaves the identity
/// assertion exactly as it was, and the login keys are already consumed.
pub proof fn lemma_failed_exchange_sets_no_identity(
    s0: SessionStore,
    q: AuthResponse,
    s1: SessionStore,
    step: CallbackAction,
    e: ExchangeError,
    id0: Identity,
    id1: Identity,
    r: HttpReply,
)
    requires
        callback_validation_post(s0, q, s1, step),
        callback_completion_post(Err(e), id0, id1, r),
    ensures
        is_internal_server_error(r),
        id1 == id0,
        id0.user is None ==> id1.user is None,
        s1.is_empty(),
{
}

/// Law: two consecutive logouts produce the same observable response and the
/// same final state — logout is idempotent.
pub proof fn lemma_logout_idempotent(
    id1: Identity,
    s1: SessionStore,
    r1: HttpReply,
    id2: Identity,
    s2: SessionStore,
    r2: HttpReply,
)
    requires
        logout_post(id1, s1, r1),
        logout_post(id2, s2, r2),
    ensures
        reply_view(r1) == reply_view(r2),
        id1.user == id2.user,
        s1.csrf_token == s2.csrf_token,
        s1.nonce == s2.nonce,
{
}

} // verus!

