use session_auth::backend::Auth;
use session_auth::session::{check_session, extend, later, Session, SessionError, SessionStore};
use session_auth::user::{
    check_login, decide_login, describe_with, password_too_long, AuthError, Credentials, RegisterError, StoreUnavailable,
    User, UserStore,
};

fn creds(username: &str, password: &str) -> Credentials {
    Credentials { username: username.to_string(), password: password.to_string(), next: None }
}

fn user_with_hash(id: u128, name: &str, hash: String) -> User {
    User { id, username: name.to_string(), email: format!("{}@example.com", name), password: hash }
}

#[test]
fn alice_scenario() {
    let mut auth = Auth::new(3600);
    let id = auth.users.register("alice", "alice@example.com", "correct-horse").unwrap();
    let ok = auth.authenticate(&creds("alice", "correct-horse")).unwrap();
    assert_eq!(ok.username, "alice");
    assert_eq!(ok.id(), id);
    assert_eq!(auth.authenticate(&creds("alice", "wrong")).err(), Some(AuthError::InvalidCredentials));
    let (token, user) = auth.login_at(&creds("alice", "correct-horse"), 1_000).unwrap();
    assert_eq!(user.id, id);
    assert_eq!(auth.whoami_at(token, 1_001).map(|u| u.username), Some("alice".to_string()));
    assert!(auth.users.set_password(id, "battery-staple"));
    assert!(auth.whoami_at(token, 1_002).is_none());
    assert!(auth.authenticate(&creds("alice", "battery-staple")).is_ok());
    assert!(auth.authenticate(&creds("alice", "correct-horse")).is_err());
}

#[test]
fn unknown_user_and_wrong_password_are_the_same_error() {
    let mut store = UserStore::new();
    store.register("bob", "bob@example.com", "hunter2").unwrap();
    let wrong = store.authenticate(&creds("bob", "hunter3")).err();
    let unknown = store.authenticate(&creds("carol", "hunter2")).err();
    assert_eq!(wrong, Some(AuthError::InvalidCredentials));
    assert_eq!(wrong, unknown);
}

#[test]
fn every_registered_user_authenticates() {
    let mut store = UserStore::new();
    let pairs = [("ann", "pw-one"), ("ben", "pw-two"), ("cat", "")];
    for (name, pw) in pairs.iter() {
        store.register(name, "x@example.com", pw).unwrap();
    }
    for (name, pw) in pairs.iter() {
        let u = store.authenticate(&creds(name, pw)).unwrap();
        assert_eq!(u.username, *name);
    }
}

#[test]
fn stored_hash_is_not_the_plaintext() {
    let mut store = UserStore::new();
    let id = store.register("dan", "dan@example.com", "plain-secret").unwrap();
    let u = store.get_user(id).unwrap();
    assert_ne!(u.password, "plain-secret");
    assert_eq!(u.session_auth_hash(), &u.password);
    assert_eq!(u.email, "dan@example.com");
}

#[test]
fn duplicate_username_is_refused() {
    let mut store = UserStore::new();
    store.register("eve", "e@example.com", "a").unwrap();
    assert_eq!(store.register("eve", "other@example.com", "b"), Err(RegisterError::UsernameTaken));
    assert_eq!(store.users.len(), 1);
}

#[test]
fn duplicate_id_is_refused() {
    let mut store = UserStore::new();
    store.insert_user(user_with_hash(7, "fay", "h1".to_string())).unwrap();
    assert_eq!(store.insert_user(user_with_hash(7, "gus", "h2".to_string())), Err(RegisterError::IdTaken));
    assert_eq!(store.insert_user(user_with_hash(8, "fay", "h3".to_string())), Err(RegisterError::UsernameTaken));
    assert!(store.insert_user(user_with_hash(8, "gus", "h4".to_string())).is_ok());
    assert_eq!(store.find_by_username("gus").unwrap().id, 8);
    assert!(store.find_by_username("hal").is_none());
    assert!(store.get_user(9).is_none());
}

#[test]
fn password_length_limit() {
    assert!(!password_too_long(""));
    assert!(!password_too_long("short"));
}

#[test]
fn set_password_on_missing_user() {
    let mut store = UserStore::new();
    assert!(!store.set_password(42, "x"));
    assert!(!store.set_password_hash(42, "h".to_string()));
}

#[test]
fn decision_from_lookup() {
    let u = user_with_hash(1, "ida", "h".to_string());
    assert_eq!(decide_login(Err(StoreUnavailable), true).err(), Some(AuthError::BackendUnavailable));
    assert_eq!(decide_login(Ok(None), true).err(), Some(AuthError::InvalidCredentials));
    assert_eq!(decide_login(Ok(Some(u.duplicate())), false).err(), Some(AuthError::InvalidCredentials));
    assert_eq!(decide_login(Ok(Some(u)), true).unwrap().id, 1);
}

#[test]
fn check_login_verifies_the_hash() {
    let hash = password_auth::generate_hash("jay-pass");
    let u = user_with_hash(2, "jay", hash);
    assert_eq!(check_login(Ok(Some(u.duplicate())), "jay-pass").unwrap().id, 2);
    assert_eq!(check_login(Ok(Some(u.duplicate())), "nope").err(), Some(AuthError::InvalidCredentials));
    let raw = user_with_hash(3, "kim", "kim-pass".to_string());
    assert_eq!(check_login(Ok(Some(raw)), "kim-pass").err(), Some(AuthError::InvalidCredentials));
    assert_eq!(check_login(Err(StoreUnavailable), "jay-pass").err(), Some(AuthError::BackendUnavailable));
}

#[test]
fn begin_then_resolve() {
    let mut store = UserStore::new();
    let id = store.register("lee", "l@example.com", "pw").unwrap();
    let lee = store.get_user(id).unwrap();
    let mut sessions = SessionStore::new(100);
    let token = sessions.begin_session(&lee, 50).unwrap();
    assert_eq!(sessions.records.get(&token).unwrap().expiry, 150);
    assert_eq!(sessions.resolve(token, &store, 50).unwrap().id, id);
}

#[test]
fn end_session_is_idempotent() {
    let mut store = UserStore::new();
    let id = store.register("max", "m@example.com", "pw").unwrap();
    let max = store.get_user(id).unwrap();
    let mut sessions = SessionStore::new(100);
    sessions.begin_session_with(5, &max, 0).unwrap();
    sessions.end_session(5);
    assert!(sessions.resolve(5, &store, 1).is_none());
    sessions.end_session(5);
    assert!(sessions.records.is_empty());
}

#[test]
fn changed_hash_revokes_session() {
    let mut store = UserStore::new();
    store.insert_user(user_with_hash(10, "ned", "hash-a".to_string())).unwrap();
    let ned = store.get_user(10).unwrap();
    let mut sessions = SessionStore::new(100);
    sessions.begin_session_with(77, &ned, 0).unwrap();
    assert!(store.set_password_hash(10, "hash-b".to_string()));
    assert!(sessions.resolve(77, &store, 1).is_none());
    assert!(sessions.records.get(&77).is_none());
}

#[test]
fn deleted_user_ends_session() {
    let mut store = UserStore::new();
    store.insert_user(user_with_hash(11, "oli", "h".to_string())).unwrap();
    let oli = store.get_user(11).unwrap();
    let mut sessions = SessionStore::new(100);
    sessions.begin_session_with(1, &oli, 0).unwrap();
    let empty = UserStore::new();
    assert!(sessions.resolve(1, &empty, 1).is_none());
    assert!(sessions.records.is_empty());
}

#[test]
fn expired_session_resolves_to_none() {
    let mut store = UserStore::new();
    store.insert_user(user_with_hash(12, "pam", "h".to_string())).unwrap();
    let pam = store.get_user(12).unwrap();
    let mut sessions = SessionStore::new(100);
    sessions.begin_session_with(3, &pam, 0).unwrap();
    assert!(sessions.resolve(3, &store, 101).is_none());
    assert!(sessions.records.is_empty());
}

#[test]
fn resolve_slides_expiry() {
    let mut store = UserStore::new();
    store.insert_user(user_with_hash(13, "quin", "h".to_string())).unwrap();
    let quin = store.get_user(13).unwrap();
    let mut sessions = SessionStore::new(100);
    sessions.begin_session_with(4, &quin, 0).unwrap();
    assert!(sessions.resolve(4, &store, 60).is_some());
    assert_eq!(sessions.records.get(&4).unwrap().expiry, 160);
    assert!(sessions.resolve(4, &store, 130).is_some());
    assert!(sessions.resolve(4, &store, 229).is_some());
    assert!(sessions.resolve(4, &store, 400).is_none());
}

#[test]
fn expiry_is_held_at_the_clock_limit() {
    assert_eq!(extend(10, 5), 15);
    assert_eq!(extend(i64::MAX - 1, 5), i64::MAX);
}

#[test]
fn one_day_window() {
    let sessions = SessionStore::with_days(1);
    assert_eq!(sessions.inactivity_timeout, 86_400);
    assert_eq!(SessionStore::with_days(3).inactivity_timeout, 259_200);
}

#[test]
fn logout_then_whoami() {
    let mut auth = Auth::new(100);
    auth.users.register("rae", "r@example.com", "pw").unwrap();
    let (token, _) = auth.login(&creds("rae", "pw")).unwrap();
    assert_eq!(auth.whoami(token).map(|u| u.username), Some("rae".to_string()));
    auth.logout(token);
    assert!(auth.whoami(token).is_none());
    auth.logout(token);
    assert!(auth.login(&creds("rae", "bad")).is_err());
    assert!(auth.sessions.records.is_empty());
    assert!(auth.get_user(0).is_none());
}

#[test]
fn description_leaves_out_the_hash() {
    let u = user_with_hash(0xa1a2a3a4b1b2c1c2d1d2d3d4d5d6d7d8, "una", "secret-hash".to_string());
    let text = u.describe();
    assert_eq!(
        text,
        "User { id: a1a2a3a4-b1b2-c1c2-d1d2-d3d4d5d6d7d8, username: \"una\", email: \"una@example.com\", password: \"[redacted]\" }"
    );
    assert!(!text.contains("secret-hash"));
}

#[test]
fn description_escapes_like_debug() {
    let u = user_with_hash(0, "a\"b\\c", "h".to_string());
    assert_eq!(
        u.describe(),
        "User { id: 00000000-0000-0000-0000-000000000000, username: \"a\\\"b\\\\c\", email: \"a\\\"b\\\\c@example.com\", password: \"[redacted]\" }"
    );
    assert_eq!(
        describe_with(1, "N", "E"),
        "User { id: 00000000-0000-0000-0000-000000000001, username: N, email: E, password: \"[redacted]\" }"
    );
}

#[test]
fn session_valid_until_its_expiry_passes() {
    let mut store = UserStore::new();
    store.insert_user(user_with_hash(14, "ray", "h".to_string())).unwrap();
    let ray = store.get_user(14).unwrap();
    let mut sessions = SessionStore::new(100);
    sessions.begin_session_with(6, &ray, 0).unwrap();
    assert!(sessions.resolve(6, &store, 100).is_some());
    assert_eq!(sessions.records.get(&6).unwrap().expiry, 200);
}

#[test]
fn token_in_use_is_refused() {
    let mut store = UserStore::new();
    store.insert_user(user_with_hash(15, "sue", "h".to_string())).unwrap();
    store.insert_user(user_with_hash(16, "tom", "h".to_string())).unwrap();
    let sue = store.get_user(15).unwrap();
    let tom = store.get_user(16).unwrap();
    let mut sessions = SessionStore::new(100);
    sessions.begin_session_with(9, &sue, 0).unwrap();
    assert_eq!(sessions.begin_session_with(9, &tom, 0), Err(SessionError::TokenInUse));
    assert_eq!(sessions.resolve(9, &store, 1).unwrap().id, 15);
}

#[test]
fn resolve_never_shortens_expiry() {
    let mut store = UserStore::new();
    store.insert_user(user_with_hash(17, "uma", "h".to_string())).unwrap();
    let mut sessions = SessionStore::new(100);
    sessions.records.insert(8, Session { token: 8, user_id: 17, auth_hash: "h".to_string(), expiry: 1_000 });
    assert!(sessions.resolve(8, &store, 10).is_some());
    assert_eq!(sessions.records.get(&8).unwrap().expiry, 1_000);
    assert_eq!(later(3, 7), 7);
    assert_eq!(later(7, 3), 7);
}

#[test]
fn session_at_the_clock_limit() {
    let mut store = UserStore::new();
    store.insert_user(user_with_hash(18, "vic", "h".to_string())).unwrap();
    let vic = store.get_user(18).unwrap();
    let mut sessions = SessionStore::new(100);
    sessions.begin_session_with(2, &vic, i64::MAX).unwrap();
    assert!(sessions.resolve(2, &store, i64::MAX).is_some());
}

#[test]
fn session_decision_from_store_answers() {
    let rec = Session { token: 1, user_id: 20, auth_hash: "h".to_string(), expiry: 50 };
    let u = user_with_hash(20, "wes", "h".to_string());
    let other = user_with_hash(20, "wes", "h2".to_string());
    assert_eq!(check_session(&rec, Ok(Some(u.duplicate())), 50).unwrap().unwrap().id, 20);
    assert!(check_session(&rec, Ok(Some(u)), 51).unwrap().is_none());
    assert!(check_session(&rec, Ok(Some(other)), 10).unwrap().is_none());
    assert!(check_session(&rec, Ok(None), 10).unwrap().is_none());
    assert_eq!(check_session(&rec, Err(StoreUnavailable), 10).err(), Some(StoreUnavailable));
    assert!(check_session(&rec, Err(StoreUnavailable), 60).unwrap().is_none());
}

#[test]
fn register_on_an_empty_store_succeeds() {
    let mut store = UserStore::new();
    let id = store.register("xia", "x@example.com", "pw").unwrap();
    assert_eq!(store.get_user(id).unwrap().username, "xia");
}
