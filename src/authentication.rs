use vstd::prelude::*;
use vstd::utf8::encode_utf8;
use argon2::password_hash::PasswordHash;
use argon2::{Argon2, PasswordVerifier};

verus! {

/// Smallest accepted length of a new password, in bytes.
pub const MIN_PASSWORD_LEN: usize = 12;

/// Largest accepted length of a new password, in bytes.
pub const MAX_PASSWORD_LEN: usize = 128;

/// A password is strong when its UTF-8 encoding is between 12 and 128 bytes long.
pub open spec fn password_is_strong(password: Seq<char>) -> bool {
    MIN_PASSWORD_LEN <= encode_utf8(password).len() <= MAX_PASSWORD_LEN
}

pub fn is_password_strong(password: &str) -> (r: bool)
    ensures
        r == password_is_strong(password@),
{
    let n: usize = password.as_bytes().len();
    n >= MIN_PASSWORD_LEN && n <= MAX_PASSWORD_LEN
}

/// A login attempt: a username and the password typed for it.
pub struct Credentials {
    pub username: String,
    pub password: String,
}

/// A user as the credential store keeps it. The password is kept only as a
/// PHC hash string, which names its algorithm, salt and cost.
pub struct StoredCredentialRecord {
    pub user_id: u128,
    pub username: String,
    pub password_hash: String,
}

/// What a login attempt comes to.
pub enum AuthOutcome {
    /// The password matches the stored hash of this user.
    Authenticated(u128),
    /// Unknown username or wrong password; which of the two is not told.
    InvalidCredentials,
    /// The store or the stored hash could not be used.
    UnexpectedError(String),
}

/// What argon2 makes of `password` against the PHC string `phc`: `Some(true)`
/// when they match, `Some(false)` when they do not, `None` when the string cannot be used.
pub uninterp spec fn argon2_check(phc: Seq<char>, password: Seq<char>) -> Option<bool>;

/// Relies on argon2: `PasswordHash::new` parses the PHC string, and
/// `Argon2::verify_password` recomputes the hash with the algorithm, salt and
/// cost that it names; it fails with `Error::Password` on a mismatch. The outcome
/// depends on the two strings alone.
#[verifier::external_body]
fn verify_password_hash(phc: &str, password: &str) -> (r: Option<bool>)
    ensures
        r == argon2_check(phc@, password@),
{
    match PasswordHash::new(phc) {
        Ok(h) => match Argon2::default().verify_password(password.as_bytes(), &h) {
            Ok(()) => Some(true),
            Err(argon2::password_hash::Error::Password) => Some(false),
            Err(_) => None,
        },
        Err(_) => None,
    }
}

/// An argon2id hash of a password nobody knows, at the cost the stored hashes
/// use. It is checked when the username is unknown, so that such an attempt
/// costs the same time as a wrong password.
pub const DUMMY_PASSWORD_HASH: &'static str = "$argon2id$v=19$m=15000,t=2,p=1$gZiV/M1gPc22ElAH/Jh1Hw$CWOrkoo7oJBQ/iyh7uJ0LO2aLEfrHwTWllSAxT0zRno";

/// The outcome owed for a stored record and a typed password.
pub open spec fn record_outcome_ok(record: StoredCredentialRecord, password: Seq<char>, r: AuthOutcome) -> bool {
    match argon2_check(record.password_hash@, password) {
        Some(true) => r == AuthOutcome::Authenticated(record.user_id),
        Some(false) => r is InvalidCredentials,
        None => r is UnexpectedError,
    }
}

/// Decides a login attempt from the record found under its username, if any.
/// The password is checked against a hash in both cases (the dummy one when
/// no record was found), so that both take the same time.
pub fn validate_found(credentials: &Credentials, found: Option<&StoredCredentialRecord>) -> (r: AuthOutcome)
    ensures
        found is None ==> r is InvalidCredentials,
        found matches Some(record) ==> record_outcome_ok(*record, credentials.password@, r),
{
    let phc = match found {
        Some(record) => record.password_hash.as_str(),
        None => DUMMY_PASSWORD_HASH,
    };
    let check = verify_password_hash(phc, credentials.password.as_str());
    match found {
        None => AuthOutcome::InvalidCredentials,
        Some(record) => match check {
            Some(true) => AuthOutcome::Authenticated(record.user_id),
            Some(false) => AuthOutcome::InvalidCredentials,
            None => AuthOutcome::UnexpectedError("the stored password hash cannot be used".to_owned()),
        },
    }
}

/// Decides a login attempt from what an outside credential store answered to
/// the lookup of its username: a store failure is an unexpected error, never a
/// refusal of the credentials.
pub fn validate_lookup(credentials: &Credentials, lookup: Result<Option<StoredCredentialRecord>, String>) -> (r: AuthOutcome)
    ensures
        lookup matches Err(e) ==> r == AuthOutcome::UnexpectedError(e),
        lookup matches Ok(None) ==> r is InvalidCredentials,
        lookup matches Ok(Some(record)) ==> record_outcome_ok(record, credentials.password@, r),
{
    match lookup {
        Err(e) => AuthOutcome::UnexpectedError(e),
        Ok(None) => validate_found(credentials, None),
        Ok(Some(record)) => validate_found(credentials, Some(&record)),
    }
}

/// Whether some record is kept under `username`.
pub open spec fn has_user(records: Seq<StoredCredentialRecord>, username: Seq<char>) -> bool {
    exists|i: int| 0 <= i < records.len() && (#[trigger] records[i]).username@ == username
}

/// No two records share a username.
pub open spec fn usernames_unique(records: Seq<StoredCredentialRecord>) -> bool {
    forall|i: int, j: int|
        0 <= i < records.len() && 0 <= j < records.len() && i != j ==> (#[trigger] records[i]).username@
            != (#[trigger] records[j]).username@
}

/// No two records share a user id.
pub open spec fn user_ids_unique(records: Seq<StoredCredentialRecord>) -> bool {
    forall|i: int, j: int|
        0 <= i < records.len() && 0 <= j < records.len() && i != j ==> (#[trigger] records[i]).user_id
            != (#[trigger] records[j]).user_id
}

/// Whether some record is kept for user `user_id`.
pub open spec fn has_user_id(records: Seq<StoredCredentialRecord>, user_id: u128) -> bool {
    exists|i: int| 0 <= i < records.len() && (#[trigger] records[i]).user_id == user_id
}

/// An in-memory credential store, keyed by username and by user id.
pub struct CredentialStore {
    records: Vec<StoredCredentialRecord>,
}

impl View for CredentialStore {
    type V = Seq<StoredCredentialRecord>;

    closed spec fn view(&self) -> Seq<StoredCredentialRecord> {
        self.records@
    }
}

impl CredentialStore {
    pub open spec fn wf(&self) -> bool {
        usernames_unique(self@) && user_ids_unique(self@)
    }

    pub fn new() -> (r: CredentialStore)
        ensures
            r@ == Seq::<StoredCredentialRecord>::empty(),
            r.wf(),
    {
        CredentialStore { records: Vec::new() }
    }

    /// The record kept under `username`, if any.
    pub fn find_by_username(&self, username: &String) -> (r: Option<&StoredCredentialRecord>)
        ensures
            r is None <==> !has_user(self@, username@),
            r matches Some(record) ==> exists|i: int|
                0 <= i < self@.len() && self@[i] == *record && (#[trigger] self@[i]).username@ == username@,
    {
        let mut i: usize = 0;
        while i < self.records.len()
            invariant
                i <= self.records@.len(),
                forall|k: int| 0 <= k < i ==> (#[trigger] self.records@[k]).username@ != username@,
            decreases self.records@.len() - i,
        {
            if self.records[i].username == *username {
                assert(self@[i as int] == self.records@[i as int]);
                return Some(&self.records[i]);
            }
            i = i + 1;
        }
        None
    }

    /// The record of user `user_id`, if any.
    pub fn find_by_user_id(&self, user_id: u128) -> (r: Option<&StoredCredentialRecord>)
        ensures
            r is None <==> !has_user_id(self@, user_id),
            r matches Some(record) ==> exists|i: int|
                0 <= i < self@.len() && self@[i] == *record && (#[trigger] self@[i]).user_id == user_id,
    {
        let mut i: usize = 0;
        while i < self.records.len()
            invariant
                i <= self.records@.len(),
                forall|k: int| 0 <= k < i ==> (#[trigger] self.records@[k]).user_id != user_id,
            decreases self.records@.len() - i,
        {
            if self.records[i].user_id == user_id {
                assert(self@[i as int] == self.records@[i as int]);
                return Some(&self.records[i]);
            }
            i = i + 1;
        }
        None
    }

    /// Adds a record, unless its username or its user id is taken already; says
    /// whether it was added.
    pub fn add(&mut self, record: StoredCredentialRecord) -> (r: bool)
        requires
            old(self).wf(),
        ensures
            final(self).wf(),
            r == (!has_user(old(self)@, record.username@) && !has_user_id(old(self)@, record.user_id)),
            r ==> final(self)@ == old(self)@.push(record),
            !r ==> final(self)@ == old(self)@,
    {
        if self.find_by_username(&record.username).is_some() {
            return false;
        }
        if self.find_by_user_id(record.user_id).is_some() {
            return false;
        }
        let ghost name = record.username@;
        self.records.push(record);
        assert forall|i: int, j: int|
            0 <= i < self@.len() && 0 <= j < self@.len() && i != j implies (#[trigger] self@[i]).username@
                != (#[trigger] self@[j]).username@ && self@[i].user_id != self@[j].user_id by {
            if i == self@.len() - 1 {
                assert(old(self)@[j] == self@[j]);
            } else if j == self@.len() - 1 {
                assert(old(self)@[i] == self@[i]);
            } else {
                assert(old(self)@[i] == self@[i] && old(self)@[j] == self@[j]);
            }
        }
        true
    }

    /// Decides a login attempt against this store. An unknown username is a
    /// refusal, checked against the dummy hash so that it takes as long as a
    /// wrong password; a known one gets what its stored hash says.
    pub fn validate(&self, credentials: &Credentials) -> (r: AuthOutcome)
        requires
            self.wf(),
        ensures
            !has_user(self@, credentials.username@) ==> r is InvalidCredentials,
            forall|i: int|
                0 <= i < self@.len() && (#[trigger] self@[i]).username@ == credentials.username@
                    ==> record_outcome_ok(self@[i], credentials.password@, r),
            forall|i: int|
                0 <= i < self@.len() && (#[trigger] self@[i]).username@ == credentials.username@
                    && argon2_check(self@[i].password_hash@, credentials.password@) == Some(true)
                    ==> r == AuthOutcome::Authenticated(self@[i].user_id),
    {
        let found = self.find_by_username(&credentials.username);
        validate_found(credentials, found)
    }
}

} // verus!
