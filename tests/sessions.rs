use prod_craft::auth_gate::{gate_request, reject_anonymous_users, GateDecision};
use prod_craft::session_state::{SessionStore, TypedSession};

#[test]
fn login_then_get_user_then_logout() {
    let mut store = SessionStore::new(3600);
    let mut s = TypedSession::start(&mut store, 1, 100).unwrap();
    assert_eq!(s.get_user_id(&store, 100), None);
    assert!(s.login(&mut store, 42, 2, 100));
    assert_eq!(s.get_user_id(&store, 100), Some(42));
    s.logout(&mut store);
    assert_eq!(s.get_user_id(&store, 100), None);
    assert!(!store.contains(s.id()));
}

#[test]
fn login_moves_session_to_new_identifier() {
    let mut store = SessionStore::new(3600);
    let mut s = TypedSession::start(&mut store, 5, 0).unwrap();
    let before = s.id();
    assert!(s.login(&mut store, 42, 6, 0));
    assert_ne!(s.id(), before);
    assert_eq!(s.id(), 6);
    assert!(!store.contains(before));
    assert_eq!(TypedSession::from_id(before).get_user_id(&store, 0), None);
}

#[test]
fn login_refuses_taken_or_same_identifier() {
    let mut store = SessionStore::new(3600);
    let mut a = TypedSession::start(&mut store, 1, 0).unwrap();
    let _b = TypedSession::start(&mut store, 2, 0).unwrap();
    assert!(!a.login(&mut store, 42, 2, 0));
    assert!(!a.login(&mut store, 42, 1, 0));
    assert_eq!(a.id(), 1);
    assert_eq!(a.get_user_id(&store, 0), None);
    assert!(TypedSession::start(&mut store, 1, 0).is_none());
}

#[test]
fn sessions_expire_after_ttl() {
    let mut store = SessionStore::new(10);
    let mut s = TypedSession::start(&mut store, 1, 100).unwrap();
    assert!(s.login(&mut store, 42, 2, 100));
    assert_eq!(s.get_user_id(&store, 109), Some(42));
    assert_eq!(s.get_user_id(&store, 110), None);
    assert!(store.get(2, 110).is_none());
    assert!(store.contains(2));
}

#[test]
fn expiry_is_held_at_the_largest_instant() {
    let mut store = SessionStore::new(u64::MAX);
    store.set(3, Some(1), 5);
    assert_eq!(store.get(3, 5).map(|e| e.expires_at), Some(u64::MAX));
    let zero = SessionStore::new(0);
    assert_eq!(zero.ttl(), 0);
}

#[test]
fn renew_keeps_data_under_new_identifier() {
    let mut store = SessionStore::new(100);
    store.set(1, Some(8), 0);
    assert!(store.renew(1, 2, 50));
    assert!(!store.contains(1));
    let e = store.get(2, 50).unwrap();
    assert_eq!(e.user_id, Some(8));
    assert_eq!(e.expires_at, 150);
    assert!(!store.renew(2, 2, 50));
    store.remove(2);
    assert!(!store.contains(2));
}

#[test]
fn gate_lets_users_through_and_sends_others_to_login() {
    assert!(matches!(reject_anonymous_users(Ok(Some(4))), GateDecision::Proceed(4)));
    assert!(matches!(reject_anonymous_users(Ok(None)), GateDecision::RedirectToLogin));
    match reject_anonymous_users(Err("store down".to_string())) {
        GateDecision::InternalError(e) => assert_eq!(e, "store down"),
        _ => panic!("a store failure must not become a login prompt"),
    }
}

#[test]
fn gate_treats_anonymous_session_as_no_session() {
    let mut store = SessionStore::new(3600);
    let mut s = TypedSession::start(&mut store, 1, 0).unwrap();
    assert!(matches!(gate_request(None, &store, 0), GateDecision::RedirectToLogin));
    assert!(matches!(gate_request(Some(&s), &store, 0), GateDecision::RedirectToLogin));
    assert!(s.login(&mut store, 3, 2, 0));
    assert!(matches!(gate_request(Some(&s), &store, 0), GateDecision::Proceed(3)));
    assert!(matches!(gate_request(None, &store, 0), GateDecision::RedirectToLogin));
}
