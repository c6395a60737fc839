//! Configuration-gated bootstrap of a file-recognition API server.
//!
//! The library validates that every required external-service setting is
//! present before the HTTP listener may start, and fixes the shape and the
//! limits of the HTTP surface: the bind address and the uniform request-body
//! size ceiling.

use vstd::prelude::*;

pub mod bootstrap;
pub mod config;
pub mod report;
pub mod validate;

verus! {

/// Uniform ceiling, in bytes, on the body of any request, whatever the route.
pub const MAX_PAYLOAD_BYTES: usize = 1000000 * 250;

/// Fixed port of the single listener.
pub const SERVER_PORT: u16 = 8080;

/// Fixed loopback host the listener binds.
pub open spec fn spec_server_host() -> Seq<char> {
    "127.0.0.1"@
}

/// The host part of the one bind address: always the loopback interface.
pub fn server_host() -> (r: &'static str)
    ensures
        r@ == spec_server_host(),
{
    "127.0.0.1"
}

/// Decides whether a request body of `len` bytes is accepted by the
/// transport layer: bodies up to and including the ceiling pass, anything
/// larger is rejected before it reaches a route handler.
pub fn payload_within_limit(len: usize) -> (r: bool)
    ensures
        r == (len <= MAX_PAYLOAD_BYTES),
{
    len <= MAX_PAYLOAD_BYTES
}

} // verus!
