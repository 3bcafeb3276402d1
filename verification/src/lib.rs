//! Decision core of an HTTP intermediary that routes JSON-RPC tool-invocation
//! requests to backends by a tool-name prefix, rewrites the body to strip the
//! prefix, and translates between a gateway session id and backend session ids
//! with a deterministic fallback.
//!
//! The host pipeline (header/body callbacks, the asynchronous lookup transport)
//! lives outside this crate; every function here is a pure decision step from
//! the exchange state and an observed event to the next state and the actions
//! the host should take.

pub mod config;
pub mod filter;
pub mod inspector;
pub mod rewrite;
pub mod session;
pub mod headers;
pub mod routing;
pub mod text;
