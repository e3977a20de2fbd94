//! Authenticated-session gateway: credential validation that does not reveal
//! whether a username exists, a server-side session store with fixation-resistant
//! login, a gate for protected routes, and redirect messages carrying an HMAC tag.

pub mod admin_password;
pub mod auth_gate;
pub mod authentication;
pub mod login;
pub mod redirect_signing;
pub mod session_state;
pub mod startup;
