use argon2::password_hash::{PasswordHasher, SaltString};
use argon2::{Algorithm, Argon2, Params, Version};
use prod_craft::authentication::{
    is_password_strong, validate_found, validate_lookup, AuthOutcome, CredentialStore, Credentials,
    StoredCredentialRecord, DUMMY_PASSWORD_HASH,
};

fn hash(password: &str) -> String {
    let salt = SaltString::encode_b64(b"fixed-test-salt!").unwrap();
    let params = Params::new(1024, 1, 1, None).unwrap();
    Argon2::new(Algorithm::Argon2id, Version::V0x13, params)
        .hash_password(password.as_bytes(), &salt)
        .unwrap()
        .to_string()
}

fn record(user_id: u128, username: &str, password: &str) -> StoredCredentialRecord {
    StoredCredentialRecord { user_id, username: username.to_string(), password_hash: hash(password) }
}

fn creds(username: &str, password: &str) -> Credentials {
    Credentials { username: username.to_string(), password: password.to_string() }
}

fn store() -> CredentialStore {
    let mut s = CredentialStore::new();
    assert!(s.add(record(7, "alice", "correct horse battery")));
    assert!(s.add(record(9, "bob", "another long password")));
    s
}

#[test]
fn password_strength_goes_by_byte_length() {
    assert!(!is_password_strong(""));
    assert!(!is_password_strong("elevenchars"));
    assert!(is_password_strong("twelve chars"));
    assert!(is_password_strong(&"a".repeat(128)));
    assert!(!is_password_strong(&"a".repeat(129)));
    // six two-byte characters are twelve bytes
    assert!(is_password_strong("éééééé"));
    assert!(!is_password_strong("ééééé"));
}

#[test]
fn unknown_username_is_invalid_credentials() {
    let s = store();
    assert!(matches!(s.validate(&creds("random-username", "random-password")), AuthOutcome::InvalidCredentials));
    assert!(matches!(s.validate(&creds("carol", "correct horse battery")), AuthOutcome::InvalidCredentials));
}

#[test]
fn wrong_password_is_invalid_credentials() {
    let s = store();
    assert!(matches!(s.validate(&creds("alice", "wrong password!")), AuthOutcome::InvalidCredentials));
    assert!(matches!(s.validate(&creds("alice", "another long password")), AuthOutcome::InvalidCredentials));
}

#[test]
fn correct_password_authenticates_its_user() {
    let s = store();
    assert!(matches!(s.validate(&creds("alice", "correct horse battery")), AuthOutcome::Authenticated(7)));
    assert!(matches!(s.validate(&creds("bob", "another long password")), AuthOutcome::Authenticated(9)));
}

#[test]
fn unusable_stored_hash_is_unexpected_error() {
    let r = StoredCredentialRecord { user_id: 1, username: "eve".to_string(), password_hash: "not a phc string".to_string() };
    assert!(matches!(validate_found(&creds("eve", "whatever"), Some(&r)), AuthOutcome::UnexpectedError(_)));
}

#[test]
fn dummy_hash_is_usable_and_matches_nothing_typed() {
    let r = StoredCredentialRecord {
        user_id: 1,
        username: "ghost".to_string(),
        password_hash: DUMMY_PASSWORD_HASH.to_string(),
    };
    assert!(matches!(validate_found(&creds("ghost", "random-password"), Some(&r)), AuthOutcome::InvalidCredentials));
    assert!(matches!(validate_found(&creds("ghost", "random-password"), None), AuthOutcome::InvalidCredentials));
}

#[test]
fn store_failure_is_unexpected_error() {
    match validate_lookup(&creds("alice", "x"), Err("connection refused".to_string())) {
        AuthOutcome::UnexpectedError(c) => assert_eq!(c, "connection refused"),
        _ => panic!("a store failure must not be a refusal"),
    }
    assert!(matches!(validate_lookup(&creds("alice", "x"), Ok(None)), AuthOutcome::InvalidCredentials));
    let ok = validate_lookup(&creds("alice", "correct horse battery"), Ok(Some(record(7, "alice", "correct horse battery"))));
    assert!(matches!(ok, AuthOutcome::Authenticated(7)));
}

#[test]
fn store_refuses_taken_username_or_id() {
    let mut s = store();
    assert!(!s.add(record(10, "alice", "some password here")));
    assert!(!s.add(record(7, "dave", "some password here")));
    assert!(s.add(record(10, "dave", "some password here")));
    assert_eq!(s.find_by_username(&"dave".to_string()).map(|r| r.user_id), Some(10));
    assert_eq!(s.find_by_user_id(9).map(|r| r.username.clone()), Some("bob".to_string()));
    assert!(s.find_by_username(&"zed".to_string()).is_none());
    assert!(s.find_by_user_id(99).is_none());
}
