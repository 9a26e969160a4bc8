//! A verified response-caching layer for an HTTP request pipeline.
//!
//! On each request the cache tries to serve a previously stored response body
//! from an in-memory store; on a miss it forwards the request to a downstream
//! handler, captures the body the handler produced, and stores it for future
//! lookups. The store, the per-request execution state machine, and the pure
//! helpers of the surrounding middleware layers live here with full contracts;
//! the asynchronous plumbing that drives them sits outside the library.

use vstd::prelude::*;

pub mod cache;
pub mod count_char;
pub mod exec;
pub mod log_layer;
pub mod store;

verus! {

/// Derives the cache key for a request: the request's target (path plus query
/// string), verbatim. No canonicalization, and no method or header is mixed
/// in, so two requests with equal targets always collide.
pub fn derive_key(target: String) -> (key: String)
    ensures
        key@ == target@,
{
    target
}

} // verus!
