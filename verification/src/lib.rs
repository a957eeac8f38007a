//! Verified core of an OpenID Connect "Authorization Code" login flow for a
//! bookmarking service: login initiation, callback validation with CSRF and
//! nonce checks, identity binding, logout, and the response shaping of the
//! bookmark collection endpoints.
//!
//! All network and HTTP plumbing stays outside this crate; the handlers here
//! work on explicit models of the per-visitor session store, the identity
//! cookie, and the provider's verified claims.

pub mod auth;
pub mod collections;
pub mod coordinator;
pub mod http;
pub mod identity;
pub mod session;
pub mod urlenc;
