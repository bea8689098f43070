//! The process-wide shared state: the response cache, the in-flight
//! tracker, and the diagnostic request counter. The server owns one of
//! these and synchronizes each part independently; nothing here spans more
//! than one part at a time.
use vstd::prelude::*;

use crate::cache::CacheStore;
use crate::inflight::InFlightSet;

verus! {

/// The three shared structures, grouped for construction. The surrounding
/// server may place each behind its own lock; no operation of the library
/// touches more than one of them at once except the leader's publish.
pub struct AppState {
    pub response_cache: CacheStore,
    pub is_fetching_set: InFlightSet,
    pub count: u32,
}

impl AppState {
    /// Fresh state: an empty cache, an empty in-flight set, a zero counter.
    pub fn new() -> (r: AppState)
        ensures
            r.response_cache.wf(),
            r.response_cache@ == Map::<Seq<char>, (Seq<char>, u64)>::empty(),
            r.is_fetching_set.wf(),
            r.is_fetching_set@ == Set::<Seq<char>>::empty(),
            r.count == 0,
    {
        AppState {
            response_cache: CacheStore::new(),
            is_fetching_set: InFlightSet::new(),
            count: 0,
        }
    }
}

/// One tick of the request counter, returning the new value. The counter
/// only correlates log lines; it carries no correctness constraint, and the
/// caller keeps it below its limit.
pub fn incr_count(count: &mut u32) -> (r: u32)
    requires
        *old(count) < u32::MAX,
    ensures
        *final(count) == *old(count) + 1,
        r == *final(count),
{
    *count = *count + 1;
    *count
}

} // verus!
