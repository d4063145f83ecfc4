//! Client-side protocol core for a service-discovery and key-value
//! coordination service spoken to over HTTP with JSON payloads.
//!
//! This crate holds the verified request/response engine: request
//! construction (percent-encoded query strings, blocking-query
//! parameters), consistency-index extraction, the structured error
//! taxonomy, and the compare-and-swap result check. The transport
//! itself (sockets, TLS, the asynchronous runtime) stays outside and
//! hands this crate plain statuses, headers and bytes.

pub mod api;
pub mod client;
pub mod decimal;
pub mod encoding;
pub mod types;
