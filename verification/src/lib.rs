//! A bridge between two JSON-RPC dialects: a tool-invocation protocol spoken
//! on standard input and output, and a direct-call protocol spoken by a local
//! HTTP service.
//!
//! The crate holds the decisions of the bridge: which requests are answered
//! locally, which are translated and forwarded, how replies are normalised,
//! and how damaged JSON text is repaired. Driving the streams and the HTTP
//! transport is left to the caller.

pub mod bridge;
pub mod client;
pub mod json;
pub mod laws;
pub mod router;
pub mod sanitize;
pub mod text;
pub mod types;
