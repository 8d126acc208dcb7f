//! Request-handling core of a cache proxy that speaks the memcache and RESP
//! protocols towards its clients and forwards to a remote cache service.
//!
//! Everything here is a function from plain values to plain values: the
//! sockets, the timers and the remote client live with the caller, which
//! feeds their results in and carries the decisions out.

use vstd::prelude::*;

pub mod binary;
pub mod binary_laws;
pub mod bytes;
pub mod cache;
pub mod cache_backend;
pub mod commands;
pub mod config;
pub mod dispatch;
pub mod error;
pub mod frontend;
pub mod in_order;
pub mod laws;
pub mod memcache;
pub mod metrics;
pub mod request_bytes;
pub mod resp;
pub mod resp_frontend;
pub mod session;
pub mod words;
pub mod zset;
pub mod zset_args;

verus! {

/// One kibibyte.
pub const KB: usize = 1024;

/// One mebibyte.
pub const MB: usize = 1048576;

/// Page size assumed for buffer sizing.
pub const PAGESIZE: usize = 4096;

/// Initial size of a connection buffer, matched to the largest TLS fragment.
pub const INITIAL_BUFFER_SIZE: usize = 16384;

/// Upper bound on the size of a single request.
pub const MAX_REQUEST_SIZE: usize = 104857600;

/// The buffer size that a cache gets when its configuration names none.
pub fn default_buffer_size() -> (size: usize)
    ensures
        size == INITIAL_BUFFER_SIZE,
        size > 0,
{
    INITIAL_BUFFER_SIZE
}

} // verus!
