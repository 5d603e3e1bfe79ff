//! Session handoff for a browser-to-backend OAuth flow.
//!
//! A callback exchanges a one-time authorization code for an access token and
//! parks the token under a fresh session identifier; a second browser context
//! polls with that identifier and receives the token exactly once, within a
//! short time-to-live window.
//!
//! The library decides; it performs no I/O. Each handler is split into steps
//! that take plain values and say which outside action comes next.

pub mod http;
pub mod query;
pub mod json;
pub mod ident;
pub mod exchange;
pub mod session;
pub mod callback;
pub mod status;
pub mod router;
pub mod protocol;
