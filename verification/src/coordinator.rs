//! The request coordinator: routes each incoming request by path prefix,
//! elects a leader or follower for a cacheable request that missed the
//! cache, decides each step of the follower's bounded wait, and settles the
//! leader's fetch by publishing its result or rendering its failure.
use vstd::prelude::*;
use vstd::string::StrSliceExecFns;

use crate::POLL_INTERVAL_MS;
use crate::WAIT_BUDGET_MS;
use crate::cache::CacheLookup;
use crate::cache::CacheStore;
use crate::inflight::InFlightSet;
use crate::response::HttpResponse;
use crate::response::STATUS_INTERNAL_SERVER_ERROR;
use crate::response::STATUS_OK;
use crate::response::body_error_response;
use crate::response::build_response;
use crate::response::leader_timeout_response;
use crate::response::transport_error_response;
use crate::response::wait_timeout_response;

verus! {

/// `p` is an initial segment of `s`.
pub open spec fn is_prefix_of(p: Seq<char>, s: Seq<char>) -> bool {
    p.len() <= s.len() && s.subrange(0, p.len() as int) == p
}

/// Whether `s` starts with `p`, decided character by character.
pub fn has_prefix(s: &str, p: &str) -> (b: bool)
    ensures
        b == is_prefix_of(p@, s@),
{
    let sl = s.unicode_len();
    let pl = p.unicode_len();
    if pl > sl {
        return false;
    }
    let mut i: usize = 0;
    while i < pl
        invariant
            pl == p@.len(),
            sl == s@.len(),
            pl <= sl,
            0 <= i <= pl,
            forall|j: int| 0 <= j < i ==> s@[j] == p@[j],
        decreases pl - i,
    {
        if s.get_char(i) != p.get_char(i) {
            proof {
                if is_prefix_of(p@, s@) {
                    assert(s@.subrange(0, p@.len() as int)[i as int] == s@[i as int]);
                }
            }
            return false;
        }
        i += 1;
    }
    proof {
        assert(s@.subrange(0, pl as int) =~= p@);
    }
    true
}

/// Where a request goes: the pass-through proxy, the caching coordinator, or
/// the debug echo.
#[derive(Clone, Copy, PartialEq, Eq, Structural, Debug)]
pub enum Route {
    Proxy,
    Cached,
    Debug,
}

/// Dispatches a request by its path: the proxy prefix wins, then the
/// cacheable prefix, and anything else is echoed back for diagnosis.
pub fn route(path: &str) -> (r: Route)
    ensures
        (r is Proxy) == is_prefix_of("/escrow"@, path@),
        (r is Cached) == (!is_prefix_of("/escrow"@, path@) && is_prefix_of("/slow"@, path@)),
        (r is Debug) == (!is_prefix_of("/escrow"@, path@) && !is_prefix_of("/slow"@, path@)),
{
    if has_prefix(path, "/escrow") {
        Route::Proxy
    } else if has_prefix(path, "/slow") {
        Route::Cached
    } else {
        Route::Debug
    }
}

/// What a cacheable request does after its first cache read and its look at
/// the in-flight tracker.
pub enum CoordinatorAction {
    RespondNow(HttpResponse),
    EnterFollowerWait,
    BecomeLeader,
}

/// A request becomes the leader exactly when it missed the cache and no
/// fetch for its key is recorded in flight.
pub open spec fn becomes_leader(lookup: CacheLookup, is_fetching: bool) -> bool {
    lookup !is Fresh && !is_fetching
}

/// The first decision of the coordinator: a fresh cache entry is answered at
/// once; otherwise the in-flight tracker decides between the follower wait
/// and the leader fetch.
pub fn initial_action(lookup: CacheLookup, is_fetching: bool) -> (r: CoordinatorAction)
    ensures
        (lookup matches CacheLookup::Fresh(b) ==> {
            &&& r matches CoordinatorAction::RespondNow(resp)
            &&& resp.status == STATUS_OK
            &&& resp.body@ == b@
        }),
        (r is EnterFollowerWait) == (lookup !is Fresh && is_fetching),
        (r is BecomeLeader) == becomes_leader(lookup, is_fetching),
{
    match lookup {
        CacheLookup::Fresh(b) => CoordinatorAction::RespondNow(build_response(&b)),
        _ => {
            if is_fetching {
                CoordinatorAction::EnterFollowerWait
            } else {
                CoordinatorAction::BecomeLeader
            }
        },
    }
}

/// What a waiting follower does after one cache read.
pub enum FollowerStep {
    Respond(HttpResponse),
    PollAgain,
}

/// A follower keeps polling exactly while it has seen no fresh entry and the
/// wait budget has not yet elapsed.
pub open spec fn keeps_waiting(lookup: CacheLookup, elapsed_ms: u64) -> bool {
    lookup !is Fresh && elapsed_ms < WAIT_BUDGET_MS
}

/// One round of the follower wait: a fresh entry is answered at once; an
/// exhausted budget is answered with the timeout response; otherwise the
/// follower sleeps one poll interval and reads again.
pub fn follower_step(lookup: CacheLookup, elapsed_ms: u64) -> (r: FollowerStep)
    ensures
        (lookup matches CacheLookup::Fresh(b) ==> {
            &&& r matches FollowerStep::Respond(resp)
            &&& resp.status == STATUS_OK
            &&& resp.body@ == b@
        }),
        (lookup !is Fresh && elapsed_ms >= WAIT_BUDGET_MS ==> {
            &&& r matches FollowerStep::Respond(resp)
            &&& resp.status == STATUS_INTERNAL_SERVER_ERROR
            &&& resp.body@ == "Timed out while getting response"@
        }),
        (r is PollAgain) == keeps_waiting(lookup, elapsed_ms),
{
    match lookup {
        CacheLookup::Fresh(b) => FollowerStep::Respond(build_response(&b)),
        _ => {
            if elapsed_ms >= WAIT_BUDGET_MS {
                FollowerStep::Respond(wait_timeout_response())
            } else {
                FollowerStep::PollAgain
            }
        },
    }
}

/// How the leader's upstream fetch ended, as seen by the coordinator: the
/// wait budget ran out first, the call failed at the transport level, the
/// body could not be read, or the full body text arrived.
pub enum UpstreamEvent {
    TimedOut,
    TransportError,
    BodyError,
    Completed(String),
}

/// Settles the leader's fetch for `key`. A completed fetch publishes: the
/// in-flight mark is cleared and the body is stored, stamped `now_ms`; the
/// caller is answered with the same body. Every other outcome leaves both
/// structures untouched — in particular the in-flight mark stays set, the
/// known starvation gap of this design — and is answered with the matching
/// failure response.
pub fn settle_leader(
    cache: &mut CacheStore,
    in_flight: &mut InFlightSet,
    key: &String,
    event: UpstreamEvent,
    now_ms: u64,
) -> (r: HttpResponse)
    requires
        old(cache).wf(),
        old(in_flight).wf(),
    ensures
        final(cache).wf(),
        final(in_flight).wf(),
        (event matches UpstreamEvent::Completed(b) ==> {
            &&& r.status == STATUS_OK && r.body@ == b@
            &&& final(cache)@ == old(cache)@.insert(key@, (b@, now_ms))
            &&& final(in_flight)@ == old(in_flight)@.remove(key@)
        }),
        (event !is Completed ==> final(cache)@ == old(cache)@ && final(in_flight)@ == old(
            in_flight,
        )@),
        (event is TimedOut ==> r.status == STATUS_INTERNAL_SERVER_ERROR && r.body@
            == "timed out"@),
        (event is TransportError ==> r.status == STATUS_INTERNAL_SERVER_ERROR && r.body@
            == "error response"@),
        (event is BodyError ==> r.status == STATUS_INTERNAL_SERVER_ERROR && r.body@
            == "error response when getting body text from "@ + key@),
{
    match event {
        UpstreamEvent::Completed(b) => {
            in_flight.set_fetching(key, false);
            cache.put(key.clone(), b.clone(), now_ms);
            build_response(&b)
        },
        UpstreamEvent::TimedOut => leader_timeout_response(),
        UpstreamEvent::TransportError => transport_error_response(),
        UpstreamEvent::BodyError => body_error_response(key),
    }
}

/// Single-flight, stated of the state a request observes: while a fetch for
/// a key is recorded in the in-flight set, a request for that key that did
/// not hit the cache never becomes a second leader — it enters the follower
/// wait. (Two requests that both read the tracker before either marks it can
/// still both lead; the tracker exposes no combined test-and-set, so the
/// guarantee is deliberately per observed state.)
pub proof fn lemma_single_flight(marked: Set<Seq<char>>, lookup: CacheLookup, key: Seq<char>)
    requires
        marked.contains(key),
        lookup !is Fresh,
    ensures
        !becomes_leader(lookup, marked.contains(key)),
{
}

/// A follower that has exhausted the wait budget never keeps waiting: its
/// next step is a response — the timeout response when no fresh entry ever
/// appeared — so the wait cannot hang.
pub proof fn lemma_follower_wait_bounded(lookup: CacheLookup, elapsed_ms: u64)
    requires
        elapsed_ms >= WAIT_BUDGET_MS,
    ensures
        !keeps_waiting(lookup, elapsed_ms),
{
}

/// The wait is bounded in polls, not only in time: once a follower has
/// slept one interval per poll often enough to cover the budget, its
/// accumulated elapsed time has reached the budget, so with
/// `lemma_follower_wait_bounded` the poll loop always ends in a response.
pub proof fn lemma_poll_count_reaches_budget(polls: u64)
    requires
        polls >= WAIT_BUDGET_MS / POLL_INTERVAL_MS,
    ensures
        (polls as int) * (POLL_INTERVAL_MS as int) >= WAIT_BUDGET_MS,
{
    assert((polls as int) * (POLL_INTERVAL_MS as int) >= ((WAIT_BUDGET_MS / POLL_INTERVAL_MS) as int)
        * (POLL_INTERVAL_MS as int)) by (nonlinear_arith)
        requires
            polls >= WAIT_BUDGET_MS / POLL_INTERVAL_MS,
    ;
    assert(((WAIT_BUDGET_MS / POLL_INTERVAL_MS) as int) * (POLL_INTERVAL_MS as int)
        >= WAIT_BUDGET_MS);
}

} // verus!
