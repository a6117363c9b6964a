//! What each page request answers, decided from plain values.
use vstd::prelude::*;
use crate::user::{AuthError, User};

verus! {

/// The login page: an optional message, and where to go after logging in.
pub struct LoginTemplate {
    pub message: Option<String>,
    pub next: Option<String>,
}

/// The `next` parameter of the login page's query.
pub struct NextUrl {
    pub next: Option<String>,
}

/// The restricted page, for a logged-in user.
pub struct RestrictedTemplate {
    pub username: String,
}

/// What a request answers.
pub enum Reply {
    Login(LoginTemplate),
    Restricted(RestrictedTemplate),
    /// A redirect to a path on this site.
    Redirect(String),
    ServerError,
}

/// The message shown after a refused login.
pub open spec fn invalid_credentials_message() -> Seq<char> {
    "Invalid credentials."@
}

/// Whether `b` is a path on this site: it starts with one `/`, and neither
/// `//` nor `/\`, which browsers take for another host.
pub open spec fn is_local_path(b: Seq<u8>) -> bool {
    &&& b.len() >= 1
    &&& b[0] == 0x2f
    &&& !(b.len() >= 2 && (b[1] == 0x2f || b[1] == 0x5c))
}

/// Where a successful login goes: `next` where it is a local path, else `/`.
pub open spec fn redirect_target_spec(next: Option<String>) -> Seq<char> {
    match next {
        Some(s) => if is_local_path(vstd::utf8::encode_utf8(s@)) {
            s@
        } else {
            "/"@
        },
        None => "/"@,
    }
}

/// Whether `s` is a path on this site.
pub fn is_local(s: &str) -> (r: bool)
    ensures
        r == is_local_path(vstd::utf8::encode_utf8(s@)),
{
    let b = s.as_bytes();
    if b.len() == 0 || b[0] != 0x2f {
        false
    } else if b.len() >= 2 && (b[1] == 0x2f || b[1] == 0x5c) {
        false
    } else {
        true
    }
}

/// Where a successful login goes: `next` where it is a local path, else
/// the site's root.
pub fn redirect_target(next: Option<String>) -> (r: String)
    ensures
        r@ == redirect_target_spec(next),
{
    proof {
        reveal_strlit("/");
    }
    match next {
        Some(s) => if is_local(s.as_str()) {
            s
        } else {
            "/".to_string()
        },
        None => "/".to_string(),
    }
}

/// The login page for a fresh visit.
pub fn login(query: NextUrl) -> (r: LoginTemplate)
    ensures
        r.message is None,
        r.next == query.next,
{
    LoginTemplate { message: None, next: query.next }
}

/// What a login form answers, given the outcome of the login: a redirect on
/// success, the login page with a message for refused credentials, a
/// server error where the store could not be reached or no session could
/// be opened.
pub fn post_login(outcome: Result<User, AuthError>, next: Option<String>) -> (r: Reply)
    ensures
        match outcome {
            Ok(_) => r matches Reply::Redirect(to) && to@ == redirect_target_spec(next),
            Err(AuthError::InvalidCredentials) => r matches Reply::Login(page) && (page.next == next
                && page.message is Some && page.message->0@ == invalid_credentials_message()),
            Err(_) => r is ServerError,
        },
{
    proof {
        reveal_strlit("Invalid credentials.");
    }
    match outcome {
        Ok(_) => Reply::Redirect(redirect_target(next)),
        Err(AuthError::InvalidCredentials) => Reply::Login(
            LoginTemplate { message: Some("Invalid credentials.".to_string()), next },
        ),
        Err(_) => Reply::ServerError,
    }
}

/// After logging out: back to the login page.
pub fn logout() -> (r: Reply)
    ensures
        r matches Reply::Redirect(to) && to@ == "/login"@,
{
    proof {
        reveal_strlit("/login");
    }
    Reply::Redirect("/login".to_string())
}

/// The restricted page: the user's name where someone is logged in, a
/// server error for an anonymous visitor.
pub fn restricted(user: Option<User>) -> (r: Reply)
    ensures
        match user {
            Some(u) => r matches Reply::Restricted(page) && page.username == u.username,
            None => r is ServerError,
        },
{
    match user {
        Some(u) => Reply::Restricted(RestrictedTemplate { username: u.username }),
        None => Reply::ServerError,
    }
}

} // verus!
