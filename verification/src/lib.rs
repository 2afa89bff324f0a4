//! A TLS-terminated, line-oriented broadcast relay: the hub that fans every
//! published line out to all subscribers with bounded history, the
//! per-connection session state machine, and the server credential model.

pub mod hub;
pub mod identity;
pub mod session;
