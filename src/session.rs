//! Sessions: opaque tokens bound to identities, with sliding expiry and
//! revocation when the identity's password hash no longer matches.
use std::collections::HashMap;
use vstd::prelude::*;
use crate::user::{StoreUnavailable, User, UserStore};

verus! {

broadcast use vstd::std_specs::hash::group_hash_axioms;

/// Largest whole number of days whose length in seconds fits in an `i64`.
pub const MAX_DAYS: i64 = 106_751_991_167_300;

/// Relies on `time::Duration::days` and `whole_seconds`: a span of `days`
/// days is `days * 86_400` seconds. `days` panics only on overflow.
#[verifier::external_body]
fn days_to_seconds(days: i64) -> (r: i64)
    requires
        -MAX_DAYS <= days <= MAX_DAYS,
    ensures
        r == days * 86_400,
{
    time::Duration::days(days).whole_seconds()
}

/// Relies on `tower_sessions::session::Id::default`: a random 128-bit
/// session identifier, of which nothing is known in advance.
#[verifier::external_body]
fn random_token() -> (r: u128) {
    tower_sessions::session::Id::default().0 as u128
}

/// Relies on `time::OffsetDateTime::now_utc` and `unix_timestamp`: the
/// current time in seconds since the Unix epoch, of which nothing is known
/// in advance.
#[verifier::external_body]
pub(crate) fn unix_now() -> (r: i64) {
    time::OffsetDateTime::now_utc().unix_timestamp()
}

/// How many fresh tokens a new session tries before giving up.
pub const TOKEN_DRAWS: usize = 4;

/// Why no session was opened.
#[derive(PartialEq, Eq, Structural, Debug, Clone, Copy)]
pub enum SessionError {
    /// The token is already in use by another session.
    TokenInUse,
}

/// A session record.
pub struct Session {
    pub token: u128,
    pub user_id: u128,
    /// The user's password hash when the session began.
    pub auth_hash: String,
    /// Unix time, in seconds, after which the session is no longer valid.
    pub expiry: i64,
}

/// `now + timeout`, held at `i64::MAX`.
pub open spec fn expiry_after(now: i64, timeout: i64) -> i64 {
    if now + timeout > i64::MAX {
        i64::MAX
    } else {
        (now + timeout) as i64
    }
}

/// What a session record and the store's answer for its user give at time
/// `now`: no one where the session has expired, its user is gone, or the
/// user's password hash is no longer the one the session began with; the
/// store's failure where it could not answer.
pub open spec fn session_outcome(
    record: Session,
    found: Result<Option<User>, StoreUnavailable>,
    now: i64,
) -> Result<Option<User>, StoreUnavailable> {
    if now > record.expiry {
        Ok(None)
    } else {
        match found {
            Err(e) => Err(e),
            Ok(None) => Ok(None),
            Ok(Some(u)) => if u.password@ == record.auth_hash@ {
                Ok(Some(u))
            } else {
                Ok(None)
            },
        }
    }
}

/// The identity a token stands for at time `now`: none where the token is
/// unknown, the session has expired, its user is gone, or the user's
/// password hash is no longer the one the session began with.
pub open spec fn resolved(sessions: Map<u128, Session>, users: UserStore, token: u128, now: i64) -> Option<User> {
    if !sessions.contains_key(token) {
        None
    } else {
        let s = sessions[token];
        if now > s.expiry {
            None
        } else {
            match users.by_id(s.user_id) {
                Some(u) => if u.password@ == s.auth_hash@ {
                    Some(u)
                } else {
                    None
                },
                None => None,
            }
        }
    }
}

/// The later of two expiries.
pub open spec fn later_expiry(a: i64, b: i64) -> i64 {
    if a >= b {
        a
    } else {
        b
    }
}

/// The sessions after resolving `token` at `now`: a valid session has its
/// expiry pushed to `now + timeout` (never earlier than it was), any other
/// record under the token goes.
pub open spec fn after_resolve(
    sessions: Map<u128, Session>,
    users: UserStore,
    token: u128,
    now: i64,
    timeout: i64,
) -> Map<u128, Session> {
    match resolved(sessions, users, token, now) {
        Some(_) => sessions.insert(
            token,
            Session { expiry: later_expiry(sessions[token].expiry, expiry_after(now, timeout)), ..sessions[token] },
        ),
        None => sessions.remove(token),
    }
}

/// The record `begin_session` makes for `user` at `now`.
pub open spec fn fresh_session(token: u128, user: User, now: i64, timeout: i64) -> Session {
    Session { token, user_id: user.id, auth_hash: user.password, expiry: expiry_after(now, timeout) }
}

/// Session records by token, with a sliding inactivity window in seconds.
pub struct SessionStore {
    pub records: HashMap<u128, Session>,
    pub inactivity_timeout: i64,
}

impl SessionStore {
    /// Each record sits under its own token; the window is positive.
    pub open spec fn wf(&self) -> bool {
        &&& self.inactivity_timeout > 0
        &&& forall|t: u128| #[trigger] self.records@.contains_key(t) ==> self.records@[t].token == t
    }

    /// An empty store whose sessions lapse after `inactivity_timeout`
    /// seconds without use.
    pub fn new(inactivity_timeout: i64) -> (r: SessionStore)
        requires
            inactivity_timeout > 0,
        ensures
            r.wf(),
            r.records@ == Map::<u128, Session>::empty(),
            r.inactivity_timeout == inactivity_timeout,
    {
        SessionStore { records: HashMap::new(), inactivity_timeout }
    }

    /// An empty store whose sessions lapse after `days` days without use.
    pub fn with_days(days: i64) -> (r: SessionStore)
        requires
            1 <= days <= MAX_DAYS,
        ensures
            r.wf(),
            r.records@ == Map::<u128, Session>::empty(),
            r.inactivity_timeout == days * 86_400,
    {
        SessionStore::new(days_to_seconds(days))
    }

    /// Opens a session for `user` under `token` at time `now`, unless the
    /// token is already in use.
    pub fn begin_session_with(&mut self, token: u128, user: &User, now: i64) -> (r: Result<(), SessionError>)
        requires
            old(self).wf(),
        ensures
            final(self).wf(),
            final(self).inactivity_timeout == old(self).inactivity_timeout,
            r is Ok == !old(self).records@.contains_key(token),
            r is Ok ==> final(self).records@ == old(self).records@.insert(
                token,
                fresh_session(token, *user, now, old(self).inactivity_timeout),
            ),
            r is Err ==> r == Err::<(), SessionError>(SessionError::TokenInUse) && final(self).records@
                == old(self).records@,
    {
        if self.records.contains_key(&token) {
            return Err(SessionError::TokenInUse);
        }
        let expiry = extend(now, self.inactivity_timeout);
        let s = Session { token, user_id: user.id, auth_hash: user.password.clone(), expiry };
        self.records.insert(token, s);
        Ok(())
    }

    /// Opens a session for `user` at time `now` under a fresh random token,
    /// which it returns; it gives up after `TOKEN_DRAWS` tokens already in
    /// use.
    pub fn begin_session(&mut self, user: &User, now: i64) -> (r: Result<u128, SessionError>)
        requires
            old(self).wf(),
        ensures
            final(self).wf(),
            final(self).inactivity_timeout == old(self).inactivity_timeout,
            match r {
                Ok(token) => !old(self).records@.contains_key(token) && final(self).records@
                    == old(self).records@.insert(
                    token,
                    fresh_session(token, *user, now, old(self).inactivity_timeout),
                ),
                Err(e) => e == SessionError::TokenInUse && final(self).records@ == old(self).records@
                    && old(self).records@.dom().len() > 0,
            },
    {
        let mut draws: usize = 0;
        while draws < TOKEN_DRAWS
            invariant
                self.wf(),
                self.records@ == old(self).records@,
                self.inactivity_timeout == old(self).inactivity_timeout,
                draws <= TOKEN_DRAWS,
                draws > 0 ==> old(self).records@.dom().len() > 0,
            decreases TOKEN_DRAWS - draws,
        {
            let token = random_token();
            match self.begin_session_with(token, user, now) {
                Ok(()) => return Ok(token),
                Err(_) => {
                    proof {
                        assert(old(self).records@.dom().contains(token));
                        vstd::set_lib::lemma_set_empty_equivalency_len(old(self).records@.dom());
                    }
                },
            }
            draws = draws + 1;
        }
        Err(SessionError::TokenInUse)
    }

    /// The identity behind `token` at time `now`, if the session is still
    /// valid; a valid session's expiry slides forward, any other record under
    /// the token is dropped.
    pub fn resolve(&mut self, token: u128, users: &UserStore, now: i64) -> (r: Option<User>)
        requires
            old(self).wf(),
            users.wf(),
        ensures
            final(self).wf(),
            final(self).inactivity_timeout == old(self).inactivity_timeout,
            r == resolved(old(self).records@, *users, token, now),
            final(self).records@ == after_resolve(old(self).records@, *users, token, now, old(self).inactivity_timeout),
    {
        let (user_id, auth_hash, expiry) = match self.records.get(&token) {
            Some(s) => (s.user_id, s.auth_hash.clone(), s.expiry),
            None => {
                proof {
                    assert(self.records@.remove(token) == self.records@);
                }
                return None;
            },
        };
        let record = Session { token, user_id, auth_hash, expiry };
        let found = users.get_user(user_id);
        match check_session(&record, Ok(found), now) {
            Ok(Some(u)) => {
                let expiry = later(expiry, extend(now, self.inactivity_timeout));
                self.records.insert(token, Session { expiry, ..record });
                Some(u)
            },
            _ => {
                self.records.remove(&token);
                None
            },
        }
    }

    /// Ends the session under `token`, if there is one.
    pub fn end_session(&mut self, token: u128)
        requires
            old(self).wf(),
        ensures
            final(self).wf(),
            final(self).inactivity_timeout == old(self).inactivity_timeout,
            final(self).records@ == old(self).records@.remove(token),
    {
        self.records.remove(&token);
    }
}

/// Decides a session from its record and the store's answer for its user.
pub fn check_session(record: &Session, found: Result<Option<User>, StoreUnavailable>, now: i64) -> (r: Result<
    Option<User>,
    StoreUnavailable,
>)
    ensures
        r == session_outcome(*record, found, now),
{
    if now > record.expiry {
        return Ok(None);
    }
    match found {
        Err(e) => Err(e),
        Ok(None) => Ok(None),
        Ok(Some(u)) => if u.password == record.auth_hash {
            Ok(Some(u))
        } else {
            Ok(None)
        },
    }
}

/// The later of two expiries.
pub fn later(a: i64, b: i64) -> (r: i64)
    ensures
        r == later_expiry(a, b),
{
    if a >= b {
        a
    } else {
        b
    }
}

/// `now + timeout`, held at `i64::MAX`.
pub fn extend(now: i64, timeout: i64) -> (r: i64)
    requires
        timeout > 0,
    ensures
        r == expiry_after(now, timeout),
{
    if now > i64::MAX - timeout {
        i64::MAX
    } else {
        now + timeout
    }
}

} // verus!
