//! Single sign-on bridge: the decisions of an OpenID Connect authorization-code
//! flow, with token validation policies, a short-lived cache of exchanged codes,
//! replay protection by nonce, and refresh-token rotation.
//!
//! Network, database and file access stay with the caller: each flow is a
//! function from an event to the next action, and the caller performs the action.

use vstd::prelude::*;

pub mod text;
pub mod error;
pub mod identity;
pub mod notice;
pub mod clock;
pub mod config;
pub mod claims;
pub mod policy;
pub mod decoding;
pub mod cache;
pub mod tokens;
pub mod events;
pub mod client;
pub mod flow;
pub mod laws;

verus! {

/// The name of the cookie that carries the address to return to after sign-in.
pub const COOKIE_NAME_REDIRECT: &'static str = "sso_redirect_url";

} // verus!
