//! A small verified core for an HTTP reverse proxy that forwards one inbound
//! request to one of two fixed upstream hosts, selected by a path prefix.
//!
//! The library holds everything the proxy decides or computes: which upstream
//! host a path routes to, how the target URL is assembled from the caller's
//! query parameters, and how an upstream outcome is turned into the response
//! handed back to the caller. The network itself (the HTTP server and the
//! outbound client) lives outside the library and feeds it plain values.

pub mod handler;
pub mod query;
pub mod target;
pub mod text;
