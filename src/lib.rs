//! Password authentication and server-side sessions.
//!
//! `user` holds the credential store and the authenticator, `session` binds
//! opaque tokens to identities with sliding expiry and revocation on a
//! password change, `backend` puts the two together behind the operations a
//! web front end needs, and `pages` decides what each request answers.
pub mod backend;
pub mod pages;
pub mod session;
pub mod user;
