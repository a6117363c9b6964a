//! Identities, the credential store and the authenticator.
use vstd::prelude::*;
use vstd::arithmetic::power::pow;
use vstd::string::{StringExecFns, StringSliceAdditionalSpecFns};

verus! {

/// Whether `password` verifies against the stored PHC string `hash`.
pub uninterp spec fn password_matches(password: Seq<char>, hash: Seq<char>) -> bool;

/// Longest password, in UTF-8 bytes, that the hasher takes.
pub const MAX_PASSWORD_BYTES: usize = 0xffff_ffff;

/// Relies on `password_auth::verify_password`: `Ok` exactly when the hash
/// parses and the password verifies against it, which depends on the two
/// strings alone.
#[verifier::external_body]
fn password_verifies(password: &str, hash: &str) -> (r: bool)
    ensures
        r == password_matches(password@, hash@),
{
    password_auth::verify_password(password, hash).is_ok()
}

/// Relies on `password_auth::generate_hash`: a freshly salted hash of the
/// password, which `verify_password` accepts for that password. It panics
/// only where the hasher refuses the input, beyond `u32::MAX` bytes
/// (argon2's `MAX_PWD_LEN`), or where the system's random source fails,
/// which no input decides.
#[verifier::external_body]
fn hash_password(password: &str) -> (r: String)
    requires
        password.spec_bytes().len() <= MAX_PASSWORD_BYTES,
    ensures
        password_matches(password@, r@),
{
    password_auth::generate_hash(password)
}

/// Relies on `uuid::Uuid::new_v4`: a random identifier, of which nothing is
/// known in advance.
#[verifier::external_body]
fn random_user_id() -> (r: u128) {
    uuid::Uuid::new_v4().as_u128()
}

/// Lower-case hex digit of `d`, for `0 <= d < 16`.
pub open spec fn hex_char(d: int) -> char {
    seq!['0', '1', '2', '3', '4', '5', '6', '7', '8', '9', 'a', 'b', 'c', 'd', 'e', 'f'][d]
}

/// The `k`-th of the 32 hex digits of `id`, most significant first.
pub open spec fn hex_digit_of(id: u128, k: int) -> char {
    hex_char((id as int / pow(16, (31 - k) as nat)) % 16)
}

/// Number of hyphens before position `i` of the hyphenated form.
pub open spec fn hyphens_before(i: int) -> int {
    if i < 9 {
        0
    } else if i < 14 {
        1
    } else if i < 19 {
        2
    } else if i < 24 {
        3
    } else {
        4
    }
}

/// The hyphenated lower-case form of a UUID: its 32 hex digits, most
/// significant first, grouped 8-4-4-4-12.
pub open spec fn uuid_text(id: u128) -> Seq<char> {
    Seq::new(
        36,
        |i: int|
            if i == 8 || i == 13 || i == 18 || i == 23 {
                '-'
            } else {
                hex_digit_of(id, i - hyphens_before(i))
            },
    )
}

/// Relies on `uuid::Uuid::from_u128` (the value's big-endian bytes) and
/// `Uuid`'s `Display`, which writes the hyphenated lower-case form.
#[verifier::external_body]
fn hyphenated(id: u128) -> (r: String)
    ensures
        r@ == uuid_text(id),
{
    uuid::Uuid::from_u128(id).to_string()
}

/// How `Debug` writes a string: quoted, with quotes, backslashes and
/// unprintable characters escaped.
pub uninterp spec fn debug_of(s: Seq<char>) -> Seq<char>;

/// Relies on `str`'s `Debug` (through `format!`): the quoted, escaped form,
/// which depends on the characters alone.
#[verifier::external_body]
fn debug_text(s: &str) -> (r: String)
    ensures
        r@ == debug_of(s@),
{
    format!("{:?}", s)
}

/// The description of a user with identifier `id`, given the `Debug` forms
/// of the username and email; the password shows as `"[redacted]"`.
pub open spec fn user_description(id: u128, username_debug: Seq<char>, email_debug: Seq<char>) -> Seq<char> {
    "User { id: "@ + uuid_text(id) + ", username: "@ + username_debug + ", email: "@ + email_debug
        + ", password: \"[redacted]\" }"@
}

/// Puts a user's description together from the `Debug` forms of its
/// username and email.
pub fn describe_with(id: u128, username_debug: &str, email_debug: &str) -> (r: String)
    ensures
        r@ == user_description(id, username_debug@, email_debug@),
{
    proof {
        reveal_strlit("User { id: ");
        reveal_strlit(", username: ");
        reveal_strlit(", email: ");
        reveal_strlit(", password: \"[redacted]\" }");
    }
    let mut r = String::from_str("User { id: ");
    r.append(hyphenated(id).as_str());
    r.append(", username: ");
    r.append(username_debug);
    r.append(", email: ");
    r.append(email_debug);
    r.append(", password: \"[redacted]\" }");
    r
}

/// An authenticated principal.
pub struct User {
    pub id: u128,
    pub username: String,
    pub email: String,
    /// PHC string of the password hash; never the plaintext.
    pub password: String,
}

impl User {
    /// The identifier that sessions refer to.
    pub fn id(&self) -> (r: u128)
        ensures
            r == self.id,
    {
        self.id
    }

    /// What a session records at login: the password hash, so that a new
    /// password ends every session opened under the old one.
    pub fn session_auth_hash(&self) -> (r: &String)
        ensures
            r == &self.password,
    {
        &self.password
    }

    /// A description for logs, as `Debug` writes a struct, with the
    /// password hash left out.
    pub fn describe(&self) -> (r: String)
        ensures
            r@ == user_description(self.id, debug_of(self.username@), debug_of(self.email@)),
    {
        let username = debug_text(self.username.as_str());
        let email = debug_text(self.email.as_str());
        describe_with(self.id, username.as_str(), email.as_str())
    }

    /// A field-by-field copy.
    pub fn duplicate(&self) -> (r: User)
        ensures
            r == *self,
    {
        User {
            id: self.id,
            username: self.username.clone(),
            email: self.email.clone(),
            password: self.password.clone(),
        }
    }
}

/// What a login form submits.
pub struct Credentials {
    pub username: String,
    pub password: String,
    /// Where to go after logging in.
    pub next: Option<String>,
}

/// Why a login was refused.
#[derive(PartialEq, Eq, Structural, Debug, Clone, Copy)]
pub enum AuthError {
    /// Unknown username or wrong password; the two are not told apart.
    InvalidCredentials,
    /// The credential store could not be reached.
    BackendUnavailable,
    /// The credentials held, but no session could be opened: every token
    /// drawn was already in use.
    SessionUnavailable,
}

/// Why a registration was refused.
#[derive(PartialEq, Eq, Structural, Debug, Clone, Copy)]
pub enum RegisterError {
    UsernameTaken,
    IdTaken,
    PasswordTooLong,
}

/// The credential store could not be reached.
#[derive(PartialEq, Eq, Structural, Debug, Clone, Copy)]
pub struct StoreUnavailable;

/// The outcome of a login, given what the store returned for the username
/// and, where a user was found, whether the password verified against it.
pub open spec fn login_decision(found: Result<Option<User>, StoreUnavailable>, verified: bool) -> Result<User, AuthError> {
    match found {
        Err(_) => Err(AuthError::BackendUnavailable),
        Ok(None) => Err(AuthError::InvalidCredentials),
        Ok(Some(u)) => if verified {
            Ok(u)
        } else {
            Err(AuthError::InvalidCredentials)
        },
    }
}

/// The outcome of a login against the store's answer for the username.
pub open spec fn login_outcome(found: Result<Option<User>, StoreUnavailable>, password: Seq<char>) -> Result<User, AuthError> {
    match found {
        Ok(Some(u)) => login_decision(found, password_matches(password, u.password@)),
        _ => login_decision(found, false),
    }
}

/// Decides a login once the lookup and the password check are done.
pub fn decide_login(found: Result<Option<User>, StoreUnavailable>, verified: bool) -> (r: Result<User, AuthError>)
    ensures
        r == login_decision(found, verified),
{
    match found {
        Err(_) => Err(AuthError::BackendUnavailable),
        Ok(None) => Err(AuthError::InvalidCredentials),
        Ok(Some(u)) => if verified {
            Ok(u)
        } else {
            Err(AuthError::InvalidCredentials)
        },
    }
}

/// Checks a password against the store's answer for the username.
pub fn check_login(found: Result<Option<User>, StoreUnavailable>, password: &str) -> (r: Result<User, AuthError>)
    ensures
        r == login_outcome(found, password@),
{
    let verified = match &found {
        Ok(Some(u)) => password_verifies(password, u.password.as_str()),
        _ => false,
    };
    decide_login(found, verified)
}

/// The credential store: users with distinct ids and distinct usernames.
pub struct UserStore {
    pub users: Vec<User>,
}

/// Whether some user in `users` is named `name`.
pub open spec fn has_name(users: Seq<User>, name: Seq<char>) -> bool {
    exists|i: int| 0 <= i < users.len() && #[trigger] users[i].username@ == name
}

/// Whether some user in `users` has identifier `id`.
pub open spec fn has_id(users: Seq<User>, id: u128) -> bool {
    exists|i: int| 0 <= i < users.len() && #[trigger] users[i].id == id
}

impl UserStore {
    /// Ids and usernames are unique.
    pub open spec fn wf(&self) -> bool {
        forall|i: int, j: int|
            #![trigger self.users@[i], self.users@[j]]
            0 <= i < self.users@.len() && 0 <= j < self.users@.len() && i != j ==> {
                &&& self.users@[i].id != self.users@[j].id
                &&& self.users@[i].username@ != self.users@[j].username@
            }
    }

    /// The user named `name`.
    pub open spec fn by_name(&self, name: Seq<char>) -> Option<User> {
        if has_name(self.users@, name) {
            Some(
                self.users@[choose|i: int|
                    0 <= i < self.users@.len() && #[trigger] self.users@[i].username@ == name],
            )
        } else {
            None
        }
    }

    /// The user with identifier `id`.
    pub open spec fn by_id(&self, id: u128) -> Option<User> {
        if has_id(self.users@, id) {
            Some(self.users@[choose|i: int| 0 <= i < self.users@.len() && #[trigger] self.users@[i].id == id])
        } else {
            None
        }
    }

    /// What `authenticate` answers.
    pub open spec fn authenticate_spec(&self, username: Seq<char>, password: Seq<char>) -> Result<User, AuthError> {
        login_outcome(Ok(self.by_name(username)), password)
    }

    pub fn new() -> (r: UserStore)
        ensures
            r.wf(),
            r.users@.len() == 0,
    {
        UserStore { users: Vec::new() }
    }

    /// Index of the user named `name`.
    fn position_of_name(&self, name: &String) -> (r: Option<usize>)
        requires
            self.wf(),
        ensures
            match r {
                Some(i) => i < self.users@.len() && self.users@[i as int].username@ == name@
                    && self.by_name(name@) == Some(self.users@[i as int]),
                None => !has_name(self.users@, name@) && self.by_name(name@).is_none(),
            },
    {
        let mut i: usize = 0;
        while i < self.users.len()
            invariant
                self.wf(),
                i <= self.users@.len(),
                forall|k: int| 0 <= k < i ==> #[trigger] self.users@[k].username@ != name@,
            decreases self.users@.len() - i,
        {
            if self.users[i].username == *name {
                proof {
                    assert(self.users@[i as int].username@ == name@);
                    assert(has_name(self.users@, name@));
                    let j = choose|j: int|
                        0 <= j < self.users@.len() && #[trigger] self.users@[j].username@ == name@;
                    if j != i as int {
                        assert(self.users@[j] != self.users@[i as int]);
                    }
                }
                return Some(i);
            }
            i = i + 1;
        }
        None
    }

    /// Index of the user with identifier `id`.
    fn position_of_id(&self, id: u128) -> (r: Option<usize>)
        requires
            self.wf(),
        ensures
            match r {
                Some(i) => i < self.users@.len() && self.users@[i as int].id == id
                    && self.by_id(id) == Some(self.users@[i as int]),
                None => !has_id(self.users@, id) && self.by_id(id).is_none(),
            },
    {
        let mut i: usize = 0;
        while i < self.users.len()
            invariant
                self.wf(),
                i <= self.users@.len(),
                forall|k: int| 0 <= k < i ==> #[trigger] self.users@[k].id != id,
            decreases self.users@.len() - i,
        {
            if self.users[i].id == id {
                proof {
                    assert(self.users@[i as int].id == id);
                    assert(has_id(self.users@, id));
                    let j = choose|j: int| 0 <= j < self.users@.len() && #[trigger] self.users@[j].id == id;
                    if j != i as int {
                        assert(self.users@[j] != self.users@[i as int]);
                    }
                }
                return Some(i);
            }
            i = i + 1;
        }
        None
    }

    /// Looks a user up by username.
    pub fn find_by_username(&self, name: &str) -> (r: Option<User>)
        requires
            self.wf(),
        ensures
            r == self.by_name(name@),
    {
        match self.position_of_name(&name.to_owned()) {
            Some(i) => Some(self.users[i].duplicate()),
            None => None,
        }
    }

    /// Looks a user up by identifier.
    pub fn get_user(&self, id: u128) -> (r: Option<User>)
        requires
            self.wf(),
        ensures
            r == self.by_id(id),
    {
        match self.position_of_id(id) {
            Some(i) => Some(self.users[i].duplicate()),
            None => None,
        }
    }

    /// Verifies submitted credentials: the user they name, or
    /// `InvalidCredentials` for an unknown name and a wrong password alike.
    pub fn authenticate(&self, creds: &Credentials) -> (r: Result<User, AuthError>)
        requires
            self.wf(),
        ensures
            r == self.authenticate_spec(creds.username@, creds.password@),
    {
        let found = self.find_by_username(creds.username.as_str());
        check_login(Ok(found), creds.password.as_str())
    }

    /// Adds a user whose identifier and password hash are already made.
    pub fn insert_user(&mut self, user: User) -> (r: Result<(), RegisterError>)
        requires
            old(self).wf(),
        ensures
            final(self).wf(),
            match r {
                Ok(()) => !has_name(old(self).users@, user.username@) && !has_id(old(self).users@, user.id)
                    && final(self).users@ == old(self).users@.push(user),
                Err(e) => final(self).users@ == old(self).users@ && (
                    if has_name(old(self).users@, user.username@) {
                        e == RegisterError::UsernameTaken
                    } else {
                        has_id(old(self).users@, user.id) && e == RegisterError::IdTaken
                    }),
            },
    {
        if self.position_of_name(&user.username).is_some() {
            return Err(RegisterError::UsernameTaken);
        }
        if self.position_of_id(user.id).is_some() {
            return Err(RegisterError::IdTaken);
        }
        self.users.push(user);
        proof {
            let s = self.users@;
            assert forall|i: int, j: int| 0 <= i < s.len() && 0 <= j < s.len() && i != j implies {
                &&& #[trigger] s[i].id != #[trigger] s[j].id
                &&& s[i].username@ != s[j].username@
            } by {
                if i == s.len() - 1 {
                    assert(old(self).users@[j] == s[j]);
                } else if j == s.len() - 1 {
                    assert(old(self).users@[i] == s[i]);
                }
            }
        }
        Ok(())
    }

    /// Registers a new user under a fresh random identifier, storing a salted
    /// hash of the password.
    pub fn register(&mut self, username: &str, email: &str, password: &str) -> (r: Result<u128, RegisterError>)
        requires
            old(self).wf(),
        ensures
            final(self).wf(),
            match r {
                Ok(id) => !has_name(old(self).users@, username@) && final(self).users@.len() == old(self).users@.len() + 1
                    && final(self).users@.drop_last() == old(self).users@ && ({
                        let u = final(self).users@.last();
                        &&& u.id == id
                        &&& u.username@ == username@
                        &&& u.email@ == email@
                        &&& password_matches(password@, u.password@)
                    }),
                Err(e) => final(self).users@ == old(self).users@ && (
                    if password.spec_bytes().len() > MAX_PASSWORD_BYTES {
                        e == RegisterError::PasswordTooLong
                    } else if has_name(old(self).users@, username@) {
                        e == RegisterError::UsernameTaken
                    } else {
                        e == RegisterError::IdTaken && old(self).users@.len() > 0
                    }),
            },
    {
        if password_too_long(password) {
            return Err(RegisterError::PasswordTooLong);
        }
        let hash = hash_password(password);
        let user = User { id: random_user_id(), username: username.to_string(), email: email.to_string(), password: hash };
        let ghost before = self.users@;
        let id = user.id;
        match self.insert_user(user) {
            Ok(()) => {
                assert(self.users@.drop_last() =~= before);
                Ok(id)
            },
            Err(e) => Err(e),
        }
    }

    /// Replaces the password hash of the user `id`; false where no such user.
    pub fn set_password_hash(&mut self, id: u128, hash: String) -> (r: bool)
        requires
            old(self).wf(),
        ensures
            final(self).wf(),
            r == has_id(old(self).users@, id),
            r ==> exists|i: int| 0 <= i < old(self).users@.len() && #[trigger] old(self).users@[i].id == id
                && final(self).users@ == old(self).users@.update(i, User { password: hash, ..old(self).users@[i] }),
            !r ==> final(self).users@ == old(self).users@,
    {
        match self.position_of_id(id) {
            Some(i) => {
                let old_user = self.users[i].duplicate();
                let updated = User { id: old_user.id, username: old_user.username, email: old_user.email, password: hash };
                self.users.set(i, updated);
                proof {
                    let s = self.users@;
                    assert forall|a: int, b: int| 0 <= a < s.len() && 0 <= b < s.len() && a != b implies {
                        &&& #[trigger] s[a].id != #[trigger] s[b].id
                        &&& s[a].username@ != s[b].username@
                    } by {
                        assert(old(self).users@[a].id == s[a].id && old(self).users@[b].id == s[b].id);
                        assert(old(self).users@[a].username == s[a].username);
                        assert(old(self).users@[b].username == s[b].username);
                    }
                }
                true
            },
            None => false,
        }
    }

    /// Sets a new password for the user `id`, stored as a salted hash;
    /// false where no such user.
    pub fn set_password(&mut self, id: u128, password: &str) -> (r: bool)
        requires
            old(self).wf(),
            password.spec_bytes().len() <= MAX_PASSWORD_BYTES,
        ensures
            final(self).wf(),
            r == has_id(old(self).users@, id),
            r ==> exists|i: int| 0 <= i < old(self).users@.len() && #[trigger] old(self).users@[i].id == id
                && final(self).users@.len() == old(self).users@.len()
                && password_matches(password@, final(self).users@[i].password@)
                && final(self).users@ == old(self).users@.update(i, User { password: final(self).users@[i].password, ..old(self).users@[i] }),
            !r ==> final(self).users@ == old(self).users@,
    {
        let hash = hash_password(password);
        self.set_password_hash(id, hash)
    }
}

/// Whether a password is too long to be hashed.
pub fn password_too_long(password: &str) -> (r: bool)
    ensures
        r == (password.spec_bytes().len() > MAX_PASSWORD_BYTES),
{
    password.as_bytes().len() > MAX_PASSWORD_BYTES
}

} // verus!
