use vstd::prelude::*;
use vstd::utf8::encode_utf8;
use crate::authentication::{AuthOutcome, Credentials};
use crate::redirect_signing::{encode, payload_bytes, tag_text, SignedRedirectMessage};
use crate::session_state::{logged_in, usable_fresh_id, SessionStore, TypedSession};
use crate::startup::HmacSecret;

verus! {

/// The page that logs users in.
pub const LOGIN_PATH: &'static str = "/login";

/// The page a user lands on after logging in.
pub const DASHBOARD_PATH: &'static str = "/admin/dashboard";

/// The login form as submitted.
pub struct FormData {
    pub username: String,
    pub password: String,
}

impl FormData {
    pub fn into_credentials(self) -> (r: Credentials)
        ensures
            r.username == self.username,
            r.password == self.password,
    {
        Credentials { username: self.username, password: self.password }
    }
}

/// Why a login attempt did not go through.
pub enum LoginError {
    /// The credentials were refused.
    AuthError(String),
    /// Something failed on the server's side.
    UnexpectedError(String),
}

/// The text shown to the user for a login error.
pub open spec fn login_error_text(e: LoginError) -> Seq<char> {
    match e {
        LoginError::AuthError(_) => "Authentication failed"@,
        LoginError::UnexpectedError(_) => "Something went wrong"@,
    }
}

impl LoginError {
    /// The text shown to the user; the cause stays on the server.
    pub fn message(&self) -> (r: String)
        ensures
            r@ == login_error_text(*self),
    {
        match self {
            LoginError::AuthError(_) => "Authentication failed".to_owned(),
            LoginError::UnexpectedError(_) => "Something went wrong".to_owned(),
        }
    }

    /// What caused the error, for the server's own records.
    pub fn cause(&self) -> (r: &String)
        ensures
            match self {
                LoginError::AuthError(c) => r == c,
                LoginError::UnexpectedError(c) => r == c,
            },
    {
        match self {
            LoginError::AuthError(c) => c,
            LoginError::UnexpectedError(c) => c,
        }
    }
}

/// The answer to a login submission.
pub enum LoginResponse {
    /// 303 to the dashboard: the session now carries the user.
    ToDashboard,
    /// 303 back to the login page, with the refusal as a signed message.
    BackToLogin(SignedRedirectMessage),
    /// 500: the failure is the server's.
    InternalError(LoginError),
}

/// Turns the outcome of a login attempt into the answer: a user is logged in on
/// the request's session (under the new identifier `fresh`) and sent to the
/// dashboard; a refusal goes back to the login page with "Authentication failed",
/// tagged under `secret`; an unexpected error is an internal error.
pub fn login(
    outcome: AuthOutcome,
    session: &mut TypedSession,
    store: &mut SessionStore,
    secret: &HmacSecret,
    fresh: u128,
    now: u64,
) -> (r: LoginResponse)
    ensures
        final(store).spec_ttl() == old(store).spec_ttl(),
        match outcome {
            AuthOutcome::Authenticated(user) => if usable_fresh_id(old(store)@, old(session).spec_id(), fresh) {
                &&& r is ToDashboard
                &&& final(session).spec_id() == fresh
                &&& final(store)@ == logged_in(old(store)@, old(session).spec_id(), fresh, user, now, old(store).spec_ttl())
            } else {
                &&& r matches LoginResponse::InternalError(LoginError::UnexpectedError(_))
                &&& *final(session) == *old(session)
                &&& final(store)@ == old(store)@
            },
            AuthOutcome::InvalidCredentials => {
                &&& r matches LoginResponse::BackToLogin(m) && encode_utf8(m.payload@) == payload_bytes(
                    "Authentication failed"@,
                ) && m.tag@ == tag_text(secret@, m.payload@)
                &&& *final(session) == *old(session)
                &&& final(store)@ == old(store)@
            },
            AuthOutcome::UnexpectedError(c) => {
                &&& r == LoginResponse::InternalError(LoginError::UnexpectedError(c))
                &&& *final(session) == *old(session)
                &&& final(store)@ == old(store)@
            },
        },
{
    match outcome {
        AuthOutcome::Authenticated(user) => {
            if session.login(store, user, fresh, now) {
                LoginResponse::ToDashboard
            } else {
                LoginResponse::InternalError(
                    LoginError::UnexpectedError("the new session identifier is already in use".to_owned()),
                )
            }
        },
        AuthOutcome::InvalidCredentials => {
            let e = LoginError::AuthError("unknown username or wrong password".to_owned());
            let text = e.message();
            LoginResponse::BackToLogin(encode(secret, text.as_str()))
        },
        AuthOutcome::UnexpectedError(c) => LoginResponse::InternalError(LoginError::UnexpectedError(c)),
    }
}

} // verus!
