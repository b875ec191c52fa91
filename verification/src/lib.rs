//! Authentication core of a member-ranking web service.
//!
//! The crate establishes a user's identity from request credentials. Tokens
//! are verified statelessly: every identity has a signing secret derived from
//! the stable state of its credential, so changing a password (or unlinking a
//! federated account) silently invalidates every outstanding token, with no
//! server-side session store or revocation list.

pub mod auth;
pub mod error;
pub mod identity;
pub mod mime;
pub mod player;
pub mod secret;
pub mod token;
