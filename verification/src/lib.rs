//! A request-coalescing response cache: a short-TTL store of upstream
//! response bodies, an in-flight tracker that elects one leader fetch per
//! key, and the decision logic that routes each request to a cache hit, a
//! follower wait, or a leader fetch.
use vstd::prelude::*;

pub mod cache;
pub mod coordinator;
pub mod inflight;
pub mod response;
pub mod state;

verus! {

/// Duration for which a cached response stays fresh, in milliseconds.
pub const TTL_MS: u64 = 3000;

/// Longest time a request waits for a response before the coordinator gives
/// up and answers with a timeout, in milliseconds.
pub const WAIT_BUDGET_MS: u64 = 5000;

/// Interval at which a follower re-reads the cache while waiting, in
/// milliseconds.
pub const POLL_INTERVAL_MS: u64 = 250;

} // verus!
