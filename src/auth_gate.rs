use vstd::prelude::*;
use crate::session_state::{session_user, SessionStore, TypedSession};

verus! {

/// Where a request for a protected route goes.
pub enum GateDecision {
    /// On to the wrapped handler, on behalf of this user.
    Proceed(u128),
    /// To the login page; the route is not run.
    RedirectToLogin,
    /// The session store failed: an internal error, never a login prompt.
    InternalError(String),
}

/// The rule for protected routes, from what the session store answered for the request's
/// session: a user goes on, nobody is sent to log in, a store failure is an error.
pub fn reject_anonymous_users(lookup: Result<Option<u128>, String>) -> (r: GateDecision)
    ensures
        match lookup {
            Ok(Some(user)) => r == GateDecision::Proceed(user),
            Ok(None) => r is RedirectToLogin,
            Err(e) => r == GateDecision::InternalError(e),
        },
{
    match lookup {
        Ok(Some(user)) => GateDecision::Proceed(user),
        Ok(None) => GateDecision::RedirectToLogin,
        Err(e) => GateDecision::InternalError(e),
    }
}

/// The same rule against the in-memory store, for a request that carried the
/// session `session` or none at all. A session without a user is treated as no
/// session. Nothing is kept from one request to the next.
pub fn gate_request(session: Option<&TypedSession>, store: &SessionStore, now: u64) -> (r: GateDecision)
    ensures
        match session {
            Some(s) => match session_user(store@, s.spec_id(), now) {
                Some(user) => r == GateDecision::Proceed(user),
                None => r is RedirectToLogin,
            },
            None => r is RedirectToLogin,
        },
{
    match session {
        Some(s) => reject_anonymous_users(Ok(s.get_user_id(store, now))),
        None => GateDecision::RedirectToLogin,
    }
}

} // verus!
