use vstd::prelude::*;
use std::collections::HashMap;

verus! {

broadcast use vstd::std_specs::hash::group_hash_axioms;

/// What the store keeps for one session.
#[derive(Clone, Copy, PartialEq, Eq, Structural)]
pub struct SessionEntry {
    /// The user logged in on this session, if any.
    pub user_id: Option<u128>,
    /// The instant from which the session counts as expired.
    pub expires_at: u64,
}

/// The instant at which a session touched at `now` expires: `now + ttl`, held at `u64::MAX`.
pub open spec fn expiry(now: u64, ttl: u64) -> u64 {
    if now + ttl > u64::MAX {
        u64::MAX
    } else {
        (now + ttl) as u64
    }
}

/// The entry of session `id` if it is kept and not yet expired at `now`.
pub open spec fn live_entry(sessions: Map<u128, SessionEntry>, id: u128, now: u64) -> Option<SessionEntry> {
    if sessions.contains_key(id) && now < sessions[id].expires_at {
        Some(sessions[id])
    } else {
        None
    }
}

/// The user logged in on session `id` at `now`, if any.
pub open spec fn session_user(sessions: Map<u128, SessionEntry>, id: u128, now: u64) -> Option<u128> {
    match live_entry(sessions, id, now) {
        Some(e) => e.user_id,
        None => None,
    }
}

/// Whether `fresh` may become a session's new identifier in place of `id`.
pub open spec fn usable_fresh_id(sessions: Map<u128, SessionEntry>, id: u128, fresh: u128) -> bool {
    fresh != id && !sessions.contains_key(fresh)
}

/// The sessions after user `user` logs in on session `id`, which moves to `fresh`.
pub open spec fn logged_in(
    sessions: Map<u128, SessionEntry>,
    id: u128,
    fresh: u128,
    user: u128,
    now: u64,
    ttl: u64,
) -> Map<u128, SessionEntry> {
    sessions.remove(id).insert(fresh, SessionEntry { user_id: Some(user), expires_at: expiry(now, ttl) })
}

/// The server-side session store: session data keyed by the identifier that
/// the client holds in its cookie, each entry living `ttl` after its last write.
pub struct SessionStore {
    sessions: HashMap<u128, SessionEntry>,
    ttl: u64,
}

impl View for SessionStore {
    type V = Map<u128, SessionEntry>;

    closed spec fn view(&self) -> Map<u128, SessionEntry> {
        self.sessions@
    }
}

impl SessionStore {
    /// How long an entry lives after its last write.
    pub closed spec fn spec_ttl(&self) -> u64 {
        self.ttl
    }

    pub fn new(ttl: u64) -> (r: SessionStore)
        ensures
            r@ == Map::<u128, SessionEntry>::empty(),
            r.spec_ttl() == ttl,
    {
        SessionStore { sessions: HashMap::new(), ttl }
    }

    pub fn ttl(&self) -> (r: u64)
        ensures
            r == self.spec_ttl(),
    {
        self.ttl
    }

    fn expiry_from(&self, now: u64) -> (r: u64)
        ensures
            r == expiry(now, self.spec_ttl()),
    {
        if self.ttl <= u64::MAX - now {
            now + self.ttl
        } else {
            u64::MAX
        }
    }

    /// The live entry of session `id` at `now`.
    pub fn get(&self, id: u128, now: u64) -> (r: Option<SessionEntry>)
        ensures
            r == live_entry(self@, id, now),
    {
        match self.sessions.get(&id) {
            Some(e) => {
                if now < e.expires_at {
                    Some(*e)
                } else {
                    None
                }
            },
            None => None,
        }
    }

    /// Writes the entry of session `id`, which then lives `ttl` from `now`.
    pub fn set(&mut self, id: u128, user_id: Option<u128>, now: u64)
        ensures
            final(self)@ == old(self)@.insert(id, SessionEntry { user_id, expires_at: expiry(now, old(self).spec_ttl()) }),
            final(self).spec_ttl() == old(self).spec_ttl(),
    {
        let expires_at: u64 = self.expiry_from(now);
        self.sessions.insert(id, SessionEntry { user_id, expires_at });
    }

    /// Drops session `id` entirely.
    pub fn remove(&mut self, id: u128)
        ensures
            final(self)@ == old(self)@.remove(id),
            final(self).spec_ttl() == old(self).spec_ttl(),
    {
        self.sessions.remove(&id);
    }

    /// Whether an entry is kept under `id`, expired or not.
    pub fn contains(&self, id: u128) -> (r: bool)
        ensures
            r == self@.contains_key(id),
    {
        self.sessions.contains_key(&id)
    }

    /// Moves the data of session `id` to the identifier `fresh`, so that `id`
    /// is no longer valid. Refused, with nothing changed, when `fresh` is `id`
    /// or already in use.
    pub fn renew(&mut self, id: u128, fresh: u128, now: u64) -> (r: bool)
        ensures
            r == usable_fresh_id(old(self)@, id, fresh),
            r ==> final(self)@ == old(self)@.remove(id).insert(
                fresh,
                SessionEntry {
                    user_id: session_user(old(self)@, id, now),
                    expires_at: expiry(now, old(self).spec_ttl()),
                },
            ),
            !r ==> final(self)@ == old(self)@,
            final(self).spec_ttl() == old(self).spec_ttl(),
    {
        if fresh == id || self.contains(fresh) {
            return false;
        }
        let user_id: Option<u128> = match self.get(id, now) {
            Some(e) => e.user_id,
            None => None,
        };
        self.remove(id);
        self.set(fresh, user_id, now);
        true
    }
}

/// One request's view of its session: the identifier from the client's cookie.
/// It caches nothing; every question goes to the store.
pub struct TypedSession {
    id: u128,
}

impl TypedSession {
    pub closed spec fn spec_id(&self) -> u128 {
        self.id
    }

    /// The session named by the identifier a client presented.
    pub fn from_id(id: u128) -> (r: TypedSession)
        ensures
            r.spec_id() == id,
    {
        TypedSession { id }
    }

    /// Opens an anonymous session under the new identifier `fresh`; refused
    /// when `fresh` is already in use.
    pub fn start(store: &mut SessionStore, fresh: u128, now: u64) -> (r: Option<TypedSession>)
        ensures
            r is Some <==> !old(store)@.contains_key(fresh),
            r matches Some(s) ==> s.spec_id() == fresh && final(store)@ == old(store)@.insert(
                fresh,
                SessionEntry { user_id: None, expires_at: expiry(now, old(store).spec_ttl()) },
            ),
            r is None ==> final(store)@ == old(store)@,
            final(store).spec_ttl() == old(store).spec_ttl(),
    {
        if store.contains(fresh) {
            return None;
        }
        store.set(fresh, None, now);
        Some(TypedSession { id: fresh })
    }

    /// The identifier to hand back to the client in its cookie.
    pub fn id(&self) -> (r: u128)
        ensures
            r == self.spec_id(),
    {
        self.id
    }

    /// The user logged in on this session at `now`, if any.
    pub fn get_user_id(&self, store: &SessionStore, now: u64) -> (r: Option<u128>)
        ensures
            r == session_user(store@, self.spec_id(), now),
    {
        match store.get(self.id, now) {
            Some(e) => e.user_id,
            None => None,
        }
    }

    /// Logs `user_id` in on this session and moves the session to the new
    /// identifier `fresh`, so that an identifier seen before the login never
    /// carries it. Refused, with nothing changed, when `fresh` is unusable.
    pub fn login(&mut self, store: &mut SessionStore, user_id: u128, fresh: u128, now: u64) -> (r: bool)
        ensures
            r == usable_fresh_id(old(store)@, old(self).spec_id(), fresh),
            r ==> final(self).spec_id() == fresh && final(store)@ == logged_in(
                old(store)@,
                old(self).spec_id(),
                fresh,
                user_id,
                now,
                old(store).spec_ttl(),
            ),
            !r ==> *final(self) == *old(self) && final(store)@ == old(store)@,
            final(store).spec_ttl() == old(store).spec_ttl(),
    {
        if fresh == self.id || store.contains(fresh) {
            return false;
        }
        store.remove(self.id);
        store.set(fresh, Some(user_id), now);
        self.id = fresh;
        true
    }

    /// Drops the whole session, so that its identifier is of no further use.
    pub fn logout(&self, store: &mut SessionStore)
        ensures
            final(store)@ == old(store)@.remove(self.spec_id()),
            final(store).spec_ttl() == old(store).spec_ttl(),
    {
        store.remove(self.id);
    }
}

/// After a login, the session answers with the user who logged in, as long as
/// the entry has not expired; after a logout it answers with nobody, at any time.
pub proof fn lemma_login_then_logout(
    sessions: Map<u128, SessionEntry>,
    id: u128,
    fresh: u128,
    user: u128,
    now: u64,
    ttl: u64,
    later: u64,
)
    requires
        usable_fresh_id(sessions, id, fresh),
        now < expiry(now, ttl),
    ensures
        session_user(logged_in(sessions, id, fresh, user, now, ttl), fresh, now) == Some(user),
        session_user(logged_in(sessions, id, fresh, user, now, ttl).remove(fresh), fresh, later) is None,
{
}

/// Logging in on a session that exists already moves it to another
/// identifier, and the old identifier no longer names any session.
pub proof fn lemma_login_renews_id(
    sessions: Map<u128, SessionEntry>,
    id: u128,
    fresh: u128,
    user: u128,
    now: u64,
    ttl: u64,
    later: u64,
)
    requires
        sessions.contains_key(id),
        usable_fresh_id(sessions, id, fresh),
    ensures
        fresh != id,
        !logged_in(sessions, id, fresh, user, now, ttl).contains_key(id),
        session_user(logged_in(sessions, id, fresh, user, now, ttl), id, later) is None,
{
}

} // verus!
