//! End-to-end walks through the coordinator's decisions, with the clock and
//! the upstream's behaviour scripted by the test.
use slowcache::cache::{CacheLookup, CacheStore};
use slowcache::coordinator::{
    follower_step, initial_action, route, settle_leader, CoordinatorAction, FollowerStep, Route,
    UpstreamEvent,
};
use slowcache::inflight::InFlightSet;
use slowcache::response::{proxy_error_response, STATUS_INTERNAL_SERVER_ERROR, STATUS_OK};
use slowcache::POLL_INTERVAL_MS;

fn expect_respond_now(a: CoordinatorAction) -> (u16, String) {
    match a {
        CoordinatorAction::RespondNow(resp) => (resp.status, resp.body),
        _ => panic!("expected an immediate response"),
    }
}

#[test]
fn leader_fetch_then_cached_second_request() {
    // Cache empty; one request to /slow/a; the upstream answers "X" after
    // 100 ms; a second request 200 ms later is served from the cache.
    let mut cache = CacheStore::new();
    let mut in_flight = InFlightSet::new();
    let key = "/slow/a".to_string();

    assert_eq!(route(&key), Route::Cached);
    let lookup = cache.get(&key, 0);
    assert!(matches!(lookup, CacheLookup::Miss));
    let action = initial_action(lookup, in_flight.is_fetching(&key));
    assert!(matches!(action, CoordinatorAction::BecomeLeader));
    in_flight.set_fetching(&key, true);

    let resp = settle_leader(
        &mut cache,
        &mut in_flight,
        &key,
        UpstreamEvent::Completed("X".to_string()),
        100,
    );
    assert_eq!(resp.status, STATUS_OK);
    assert_eq!(resp.body, "X".to_string());

    // 200 ms after the first request: a fresh hit, no second fetch.
    let lookup2 = cache.get(&key, 200);
    assert!(matches!(lookup2, CacheLookup::Fresh(_)));
    let (status, body) = expect_respond_now(initial_action(lookup2, in_flight.is_fetching(&key)));
    assert_eq!(status, STATUS_OK);
    assert_eq!(body, "X".to_string());
}

#[test]
fn leader_times_out_when_upstream_never_answers() {
    // The upstream never responds: the wait budget loses the race and the
    // caller gets the internal timeout answer; nothing is published.
    let mut cache = CacheStore::new();
    let mut in_flight = InFlightSet::new();
    let key = "/slow/b".to_string();

    let action = initial_action(cache.get(&key, 0), in_flight.is_fetching(&key));
    assert!(matches!(action, CoordinatorAction::BecomeLeader));
    in_flight.set_fetching(&key, true);

    let resp = settle_leader(&mut cache, &mut in_flight, &key, UpstreamEvent::TimedOut, 5000);
    assert_eq!(resp.status, STATUS_INTERNAL_SERVER_ERROR);
    assert_eq!(resp.body, "timed out".to_string());
    assert!(matches!(cache.get(&key, 5000), CacheLookup::Miss));
}

#[test]
fn follower_sees_leaders_publish_within_one_poll() {
    // Two concurrent requests to /slow/c; the upstream answers "Y" after
    // 1 s. The leader responds with "Y"; the follower, polling every
    // 250 ms, picks the body up on its first read after the publish.
    let mut cache = CacheStore::new();
    let mut in_flight = InFlightSet::new();
    let key = "/slow/c".to_string();

    // First request: leader.
    let first = initial_action(cache.get(&key, 0), in_flight.is_fetching(&key));
    assert!(matches!(first, CoordinatorAction::BecomeLeader));
    in_flight.set_fetching(&key, true);

    // Second request, arriving while the fetch is in flight: follower.
    let second = initial_action(cache.get(&key, 10), in_flight.is_fetching(&key));
    assert!(matches!(second, CoordinatorAction::EnterFollowerWait));

    // The follower polls and finds nothing while the fetch runs.
    let mut elapsed: u64 = 0;
    while elapsed < 1000 {
        match follower_step(cache.get(&key, elapsed), elapsed) {
            FollowerStep::PollAgain => elapsed += POLL_INTERVAL_MS,
            FollowerStep::Respond(_) => panic!("nothing was published yet"),
        }
    }

    // The upstream answers at 1 s; the leader publishes and responds.
    let resp = settle_leader(
        &mut cache,
        &mut in_flight,
        &key,
        UpstreamEvent::Completed("Y".to_string()),
        1000,
    );
    assert_eq!(resp.status, STATUS_OK);
    assert_eq!(resp.body, "Y".to_string());
    assert!(!in_flight.is_fetching(&key));

    // The follower's next poll, one interval later, sees the fresh body.
    match follower_step(cache.get(&key, elapsed), elapsed) {
        FollowerStep::Respond(r) => {
            assert_eq!(r.status, STATUS_OK);
            assert_eq!(r.body, "Y".to_string());
        }
        FollowerStep::PollAgain => panic!("the publish must be visible"),
    }
}

#[test]
fn single_flight_holds_for_the_state_a_request_observes() {
    // Single-flight is deliberately weak: the tracker exposes no combined
    // test-and-set, so two requests that both read it before either marks
    // it would both lead. Once a leader's mark is visible, though, every
    // later request for the key is a follower.
    let mut in_flight = InFlightSet::new();
    let key = "/slow/k".to_string();

    // Both reads happen before either write: both requests would lead.
    let a = initial_action(CacheLookup::Miss, in_flight.is_fetching(&key));
    let b = initial_action(CacheLookup::Miss, in_flight.is_fetching(&key));
    assert!(matches!(a, CoordinatorAction::BecomeLeader));
    assert!(matches!(b, CoordinatorAction::BecomeLeader));

    // After the mark is set, no request for the key leads again.
    in_flight.set_fetching(&key, true);
    let c = initial_action(CacheLookup::Miss, in_flight.is_fetching(&key));
    assert!(matches!(c, CoordinatorAction::EnterFollowerWait));
}

#[test]
fn proxy_failure_answers_with_empty_body() {
    // A request to /escrow/x with the proxy's upstream down: the forward
    // fails and the caller gets an empty 500.
    assert_eq!(route("/escrow/x"), Route::Proxy);
    let resp = proxy_error_response();
    assert_eq!(resp.status, STATUS_INTERNAL_SERVER_ERROR);
    assert_eq!(resp.body, String::new());
}

#[test]
fn failed_leader_leaves_no_cache_entry() {
    // A leader whose upstream call fails never writes a cache entry, and
    // (a documented gap of this design) leaves the in-flight mark set.
    let mut cache = CacheStore::new();
    let mut in_flight = InFlightSet::new();
    let key = "/slow/d".to_string();
    in_flight.set_fetching(&key, true);

    let resp = settle_leader(
        &mut cache,
        &mut in_flight,
        &key,
        UpstreamEvent::TransportError,
        700,
    );
    assert_eq!(resp.status, STATUS_INTERNAL_SERVER_ERROR);
    assert_eq!(resp.body, "error response".to_string());
    assert!(matches!(cache.get(&key, 700), CacheLookup::Miss));
    assert!(in_flight.is_fetching(&key));

    let resp2 = settle_leader(&mut cache, &mut in_flight, &key, UpstreamEvent::BodyError, 800);
    assert_eq!(resp2.status, STATUS_INTERNAL_SERVER_ERROR);
    assert_eq!(
        resp2.body,
        "error response when getting body text from /slow/d".to_string()
    );
    assert!(matches!(cache.get(&key, 800), CacheLookup::Miss));
}
