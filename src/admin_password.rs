use vstd::prelude::*;
use crate::authentication::{
    argon2_check, has_user_id, is_password_strong, password_is_strong, validate_found, AuthOutcome,
    CredentialStore, Credentials,
};
use crate::session_state::{session_user, SessionStore, TypedSession};

verus! {

/// The form that changes the logged-in user's password.
pub struct FormData {
    pub current_password: String,
    pub new_password: String,
    pub new_password_check: String,
}

/// The answer to a password change.
pub enum ChangePasswordResponse {
    /// 303 to the login page: nobody is logged in.
    ToLogin,
    /// 303 back to the form, with this message for the user.
    BackToForm(String),
    /// 500: the failure is the server's.
    InternalError(String),
    /// Every check passed for this user; the new password may be stored.
    Accepted(u128),
}

pub open spec fn mismatch_text() -> Seq<char> {
    "You entered two different new passwords - the field values must match."@
}

pub open spec fn weak_text() -> Seq<char> {
    "Password must be between 12 and 128 characters long."@
}

pub open spec fn wrong_current_text() -> Seq<char> {
    "The current password is incorrect."@
}

/// Checks a password change for the session's user: someone must be logged in,
/// the two new passwords must agree and be strong, and the current password
/// must match the stored hash.
pub fn change_password(
    form: &FormData,
    session: &TypedSession,
    sessions: &SessionStore,
    credentials: &CredentialStore,
    now: u64,
) -> (r: ChangePasswordResponse)
    requires
        credentials.wf(),
    ensures
        match session_user(sessions@, session.spec_id(), now) {
            None => r is ToLogin,
            Some(user) => if form.new_password@ != form.new_password_check@ {
                r matches ChangePasswordResponse::BackToForm(m) && m@ == mismatch_text()
            } else if !password_is_strong(form.new_password@) {
                r matches ChangePasswordResponse::BackToForm(m) && m@ == weak_text()
            } else if !has_user_id(credentials@, user) {
                r is InternalError
            } else {
                exists|i: int|
                    0 <= i < credentials@.len() && (#[trigger] credentials@[i]).user_id == user && match argon2_check(
                        credentials@[i].password_hash@,
                        form.current_password@,
                    ) {
                        Some(true) => r == ChangePasswordResponse::Accepted(user),
                        Some(false) => r matches ChangePasswordResponse::BackToForm(m) && m@ == wrong_current_text(),
                        None => r is InternalError,
                    }
            },
        },
{
    let user: u128 = match session.get_user_id(sessions, now) {
        Some(u) => u,
        None => {
            return ChangePasswordResponse::ToLogin;
        },
    };
    if form.new_password != form.new_password_check {
        return ChangePasswordResponse::BackToForm(
            "You entered two different new passwords - the field values must match.".to_owned(),
        );
    }
    if !is_password_strong(form.new_password.as_str()) {
        return ChangePasswordResponse::BackToForm("Password must be between 12 and 128 characters long.".to_owned());
    }
    let record = match credentials.find_by_user_id(user) {
        Some(rec) => rec,
        None => {
            return ChangePasswordResponse::InternalError("the logged-in user has no stored credentials".to_owned());
        },
    };
    let attempt = Credentials { username: record.username.clone(), password: form.current_password.clone() };
    match validate_found(&attempt, Some(record)) {
        AuthOutcome::Authenticated(_) => ChangePasswordResponse::Accepted(user),
        AuthOutcome::InvalidCredentials => ChangePasswordResponse::BackToForm("The current password is incorrect.".to_owned()),
        AuthOutcome::UnexpectedError(c) => ChangePasswordResponse::InternalError(c),
    }
}

} // verus!
