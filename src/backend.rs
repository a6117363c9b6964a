//! The authentication backend: the credential store and the session store
//! side by side, and the laws that tie their operations together.
use vstd::prelude::*;
use crate::session::{
    after_resolve, expiry_after, fresh_session, later_expiry, resolved, unix_now, Session, SessionStore,
};
use crate::user::{password_matches, AuthError, Credentials, User, UserStore};

verus! {

/// Users and their sessions.
pub struct Auth {
    pub users: UserStore,
    pub sessions: SessionStore,
}

impl Auth {
    pub open spec fn wf(&self) -> bool {
        self.users.wf() && self.sessions.wf()
    }

    /// No users and no sessions; sessions lapse after `inactivity_timeout`
    /// seconds without use.
    pub fn new(inactivity_timeout: i64) -> (r: Auth)
        requires
            inactivity_timeout > 0,
        ensures
            r.wf(),
            r.users.users@.len() == 0,
            r.sessions.records@ == Map::<u128, Session>::empty(),
            r.sessions.inactivity_timeout == inactivity_timeout,
    {
        Auth { users: UserStore::new(), sessions: SessionStore::new(inactivity_timeout) }
    }

    /// Verifies submitted credentials against the store.
    pub fn authenticate(&self, creds: &Credentials) -> (r: Result<User, AuthError>)
        requires
            self.wf(),
        ensures
            r == self.users.authenticate_spec(creds.username@, creds.password@),
    {
        self.users.authenticate(creds)
    }

    /// The user with identifier `id`.
    pub fn get_user(&self, id: u128) -> (r: Option<User>)
        requires
            self.wf(),
        ensures
            r == self.users.by_id(id),
    {
        self.users.get_user(id)
    }

    /// Verifies the credentials and, where they hold, opens a session at
    /// time `now`; returns its token and the user.
    pub fn login_at(&mut self, creds: &Credentials, now: i64) -> (r: Result<(u128, User), AuthError>)
        requires
            old(self).wf(),
        ensures
            final(self).wf(),
            final(self).users == old(self).users,
            final(self).sessions.inactivity_timeout == old(self).sessions.inactivity_timeout,
            match r {
                Ok((token, user)) => {
                    &&& old(self).users.authenticate_spec(creds.username@, creds.password@) == Ok::<User, AuthError>(user)
                    &&& !old(self).sessions.records@.contains_key(token)
                    &&& final(self).sessions.records@ == old(self).sessions.records@.insert(
                        token,
                        fresh_session(token, user, now, old(self).sessions.inactivity_timeout),
                    )
                },
                Err(e) => {
                    &&& final(self).sessions.records@ == old(self).sessions.records@
                    &&& if old(self).users.authenticate_spec(creds.username@, creds.password@) is Ok {
                        e == AuthError::SessionUnavailable && old(self).sessions.records@.dom().len() > 0
                    } else {
                        old(self).users.authenticate_spec(creds.username@, creds.password@) == Err::<User, AuthError>(e)
                    }
                },
            },
    {
        match self.users.authenticate(creds) {
            Ok(user) => match self.sessions.begin_session(&user, now) {
                Ok(token) => Ok((token, user)),
                Err(_) => Err(AuthError::SessionUnavailable),
            },
            Err(e) => Err(e),
        }
    }

    /// `login_at` at the current time.
    pub fn login(&mut self, creds: &Credentials) -> (r: Result<(u128, User), AuthError>)
        requires
            old(self).wf(),
        ensures
            final(self).wf(),
            final(self).users == old(self).users,
            final(self).sessions.inactivity_timeout == old(self).sessions.inactivity_timeout,
            match r {
                Ok((token, user)) => {
                    &&& old(self).users.authenticate_spec(creds.username@, creds.password@) == Ok::<User, AuthError>(user)
                    &&& !old(self).sessions.records@.contains_key(token)
                    &&& exists|now: i64| final(self).sessions.records@ == old(self).sessions.records@.insert(
                        token,
                        #[trigger] fresh_session(token, user, now, old(self).sessions.inactivity_timeout),
                    )
                },
                Err(e) => {
                    &&& final(self).sessions.records@ == old(self).sessions.records@
                    &&& if old(self).users.authenticate_spec(creds.username@, creds.password@) is Ok {
                        e == AuthError::SessionUnavailable && old(self).sessions.records@.dom().len() > 0
                    } else {
                        old(self).users.authenticate_spec(creds.username@, creds.password@) == Err::<User, AuthError>(e)
                    }
                },
            },
    {
        let now = unix_now();
        self.login_at(creds, now)
    }

    /// Ends the session under `token`; ending one that is gone is no error.
    pub fn logout(&mut self, token: u128)
        requires
            old(self).wf(),
        ensures
            final(self).wf(),
            final(self).users == old(self).users,
            final(self).sessions.inactivity_timeout == old(self).sessions.inactivity_timeout,
            final(self).sessions.records@ == old(self).sessions.records@.remove(token),
    {
        self.sessions.end_session(token)
    }

    /// The user behind `token` at time `now`, if any.
    pub fn whoami_at(&mut self, token: u128, now: i64) -> (r: Option<User>)
        requires
            old(self).wf(),
        ensures
            final(self).wf(),
            final(self).users == old(self).users,
            final(self).sessions.inactivity_timeout == old(self).sessions.inactivity_timeout,
            r == resolved(old(self).sessions.records@, old(self).users, token, now),
            final(self).sessions.records@ == after_resolve(
                old(self).sessions.records@,
                old(self).users,
                token,
                now,
                old(self).sessions.inactivity_timeout,
            ),
    {
        self.sessions.resolve(token, &self.users, now)
    }

    /// `whoami_at` at the current time.
    pub fn whoami(&mut self, token: u128) -> (r: Option<User>)
        requires
            old(self).wf(),
        ensures
            final(self).wf(),
            final(self).users == old(self).users,
            final(self).sessions.inactivity_timeout == old(self).sessions.inactivity_timeout,
            exists|now: i64| {
                &&& r == #[trigger] resolved(old(self).sessions.records@, old(self).users, token, now)
                &&& final(self).sessions.records@ == after_resolve(
                    old(self).sessions.records@,
                    old(self).users,
                    token,
                    now,
                    old(self).sessions.inactivity_timeout,
                )
            },
    {
        let now = unix_now();
        self.whoami_at(token, now)
    }
}

/// A stored user whose password is given gets that user back from
/// `authenticate`.
pub proof fn registered_user_authenticates(store: UserStore, i: int, password: Seq<char>)
    requires
        store.wf(),
        0 <= i < store.users@.len(),
        password_matches(password, store.users@[i].password@),
    ensures
        store.authenticate_spec(store.users@[i].username@, password) == Ok::<User, AuthError>(store.users@[i]),
{
    let name = store.users@[i].username@;
    assert(store.users@[i].username@ == name);
    let j = choose|j: int| 0 <= j < store.users@.len() && #[trigger] store.users@[j].username@ == name;
    if j != i {
        assert(store.users@[j] != store.users@[i]);
    }
}

/// An unknown username and a wrong password are refused with the same
/// error.
pub proof fn refusals_are_indistinguishable(store: UserStore, username: Seq<char>, password: Seq<char>)
    requires
        store.wf(),
        match store.by_name(username) {
            None => true,
            Some(u) => !password_matches(password, u.password@),
        },
    ensures
        store.authenticate_spec(username, password) == Err::<User, AuthError>(AuthError::InvalidCredentials),
{
}

/// A stored user is found by its identifier.
proof fn stored_user_by_id(users: UserStore, user: User)
    requires
        users.wf(),
        users.users@.contains(user),
    ensures
        users.by_id(user.id) == Some(user),
{
    let i = choose|i: int| 0 <= i < users.users@.len() && users.users@[i] == user;
    assert(users.users@[i].id == user.id);
    let j = choose|j: int| 0 <= j < users.users@.len() && #[trigger] users.users@[j].id == user.id;
    if j != i {
        assert(users.users@[j] != users.users@[i]);
    }
}

/// A session just begun for a stored user resolves to that user.
pub proof fn begun_session_resolves(
    store: SessionStore,
    users: UserStore,
    token: u128,
    user: User,
    now: i64,
)
    requires
        store.wf(),
        users.wf(),
        users.users@.contains(user),
    ensures
        resolved(
            store.records@.insert(token, fresh_session(token, user, now, store.inactivity_timeout)),
            users,
            token,
            now,
        ) == Some(user),
{
    stored_user_by_id(users, user);
}

/// After a session ends, its token resolves to no one, and ending it again
/// changes nothing.
pub proof fn ended_session_is_gone(sessions: Map<u128, Session>, users: UserStore, token: u128, now: i64)
    ensures
        resolved(sessions.remove(token), users, token, now) == None::<User>,
        sessions.remove(token).remove(token) == sessions.remove(token),
{
    assert(sessions.remove(token).remove(token) =~= sessions.remove(token));
}

/// Once the user's password hash differs from the one a session began with,
/// the session resolves to no one, at any time.
pub proof fn password_change_revokes(
    sessions: Map<u128, Session>,
    users: UserStore,
    token: u128,
    user: User,
    begun: i64,
    timeout: i64,
    now: i64,
)
    requires
        users.wf(),
        match users.by_id(user.id) {
            Some(current) => current.password@ != user.password@,
            None => true,
        },
    ensures
        resolved(sessions.insert(token, fresh_session(token, user, begun, timeout)), users, token, now) == None::<User>,
{
}

/// A session whose expiry has passed resolves to no one.
pub proof fn expired_session_is_gone(sessions: Map<u128, Session>, users: UserStore, token: u128, now: i64)
    requires
        sessions.contains_key(token),
        now > sessions[token].expiry,
    ensures
        resolved(sessions, users, token, now) == None::<User>,
{
}

/// Resolving a valid session at `first` keeps it valid until `first`
/// plus the window, past the expiry it had before, and never shortens it.
pub proof fn resolving_slides_expiry(
    sessions: Map<u128, Session>,
    users: UserStore,
    token: u128,
    first: i64,
    second: i64,
    timeout: i64,
)
    requires
        resolved(sessions, users, token, first) is Some,
        first <= second,
        second <= first + timeout,
    ensures
        resolved(after_resolve(sessions, users, token, first, timeout), users, token, second)
            == resolved(sessions, users, token, first),
        after_resolve(sessions, users, token, first, timeout)[token].expiry == later_expiry(
            sessions[token].expiry,
            expiry_after(first, timeout),
        ),
        after_resolve(sessions, users, token, first, timeout)[token].expiry >= sessions[token].expiry,
        after_resolve(sessions, users, token, first, timeout)[token].expiry >= expiry_after(first, timeout),
{
}

/// A session opened for the user that `authenticate` returned resolves to
/// that user at the moment it was opened.
pub proof fn logged_in_session_resolves(
    store: SessionStore,
    users: UserStore,
    token: u128,
    username: Seq<char>,
    password: Seq<char>,
    user: User,
    now: i64,
)
    requires
        store.wf(),
        users.wf(),
        users.authenticate_spec(username, password) == Ok::<User, AuthError>(user),
    ensures
        resolved(
            store.records@.insert(token, fresh_session(token, user, now, store.inactivity_timeout)),
            users,
            token,
            now,
        ) == Some(user),
{
    let i = choose|i: int| 0 <= i < users.users@.len() && #[trigger] users.users@[i].username@ == username;
    assert(users.users@[i] == user);
    assert(users.users@.contains(user));
    begun_session_resolves(store, users, token, user, now);
}

} // verus!
