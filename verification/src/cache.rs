//! The response cache: at most one entry per request key, each carrying the
//! body text and the monotonic time at which it was stored. An entry is
//! served only while fresh; a stale entry is reported to the caller so that
//! its removal can be scheduled out of band, as reads never mutate the store.
use vstd::prelude::*;

use crate::TTL_MS;

verus! {

/// One stored response: the key it answers, the body text, and the time (in
/// milliseconds on a monotonic clock) at which it was stored.
pub struct CacheSlot {
    pub key: String,
    pub body: String,
    pub created_at_ms: u64,
}

/// A lookup outcome: a fresh body, a stale entry whose removal should be
/// scheduled, or no entry at all.
pub enum CacheLookup {
    Fresh(String),
    Stale,
    Miss,
}

/// An entry stored at `created_at_ms` is fresh at `now_ms` while less than
/// `TTL_MS` has passed. A reading taken before the entry's own timestamp
/// (which a monotonic clock never produces) also counts as fresh, matching a
/// saturating elapsed-time computation.
pub open spec fn fresh_at(created_at_ms: u64, now_ms: u64) -> bool {
    (now_ms as int) < created_at_ms + TTL_MS
}

/// The map a sequence of slots stands for: each key maps to the body and
/// creation time of the last slot that carries it.
pub open spec fn slots_map(s: Seq<CacheSlot>) -> Map<Seq<char>, (Seq<char>, u64)>
    decreases s.len(),
{
    if s.len() == 0 {
        Map::empty()
    } else {
        slots_map(s.drop_last()).insert(
            s.last().key@,
            (s.last().body@, s.last().created_at_ms),
        )
    }
}

/// No two slots carry the same key.
pub open spec fn unique_keys(s: Seq<CacheSlot>) -> bool {
    forall|i: int, j: int| 0 <= i < j < s.len() ==> s[i].key@ != s[j].key@
}

/// What a lookup of `key` at `now_ms` may return from a cache modelled as a
/// map: the stored body if a fresh entry is present, nothing otherwise.
pub open spec fn fresh_body(
    m: Map<Seq<char>, (Seq<char>, u64)>,
    key: Seq<char>,
    now_ms: u64,
) -> Option<Seq<char>> {
    if m.contains_key(key) && fresh_at(m[key].1, now_ms) {
        Some(m[key].0)
    } else {
        None
    }
}

/// Freshness invariant: a body stored for a key is returned unchanged by
/// any lookup made within the TTL of the store.
pub proof fn lemma_put_then_get_fresh(
    m: Map<Seq<char>, (Seq<char>, u64)>,
    key: Seq<char>,
    body: Seq<char>,
    t_put: u64,
    t_get: u64,
)
    requires
        (t_get as int) < t_put + TTL_MS,
    ensures
        fresh_body(m.insert(key, (body, t_put)), key, t_get) == Some(body),
{
}

/// Expiry invariant: once the TTL has elapsed since the last store for a
/// key, a lookup never returns the stale body.
pub proof fn lemma_stale_never_served(
    m: Map<Seq<char>, (Seq<char>, u64)>,
    key: Seq<char>,
    body: Seq<char>,
    t_put: u64,
    t_get: u64,
)
    requires
        t_get >= t_put + TTL_MS,
    ensures
        fresh_body(m.insert(key, (body, t_put)), key, t_get) is None,
{
}

proof fn lemma_slots_map_contains(s: Seq<CacheSlot>, key: Seq<char>)
    ensures
        slots_map(s).contains_key(key) <==> (exists|i: int|
            0 <= i < s.len() && #[trigger] s[i].key@ == key),
    decreases s.len(),
{
    if s.len() > 0 {
        lemma_slots_map_contains(s.drop_last(), key);
        if s.last().key@ == key {
            assert(s[s.len() - 1].key@ == key);
        } else {
            if slots_map(s).contains_key(key) {
                let i = choose|i: int|
                    0 <= i < s.drop_last().len() && #[trigger] s.drop_last()[i].key@ == key;
                assert(s[i].key@ == key);
            }
            if exists|i: int| 0 <= i < s.len() && #[trigger] s[i].key@ == key {
                let i = choose|i: int| 0 <= i < s.len() && #[trigger] s[i].key@ == key;
                assert(i < s.len() - 1);
                assert(s.drop_last()[i].key@ == key);
            }
        }
    }
}

proof fn lemma_slots_map_value(s: Seq<CacheSlot>, i: int)
    requires
        unique_keys(s),
        0 <= i < s.len(),
    ensures
        slots_map(s).contains_key(s[i].key@),
        slots_map(s)[s[i].key@] == (s[i].body@, s[i].created_at_ms),
    decreases s.len(),
{
    if i < s.len() - 1 {
        assert(unique_keys(s.drop_last())) by {
            assert(forall|p: int, q: int|
                0 <= p < q < s.drop_last().len() ==> s.drop_last()[p] == s[p]
                    && s.drop_last()[q] == s[q]);
        }
        assert(s.drop_last()[i] == s[i]);
        lemma_slots_map_value(s.drop_last(), i);
        assert(s.last().key@ != s[i].key@);
    }
}

proof fn lemma_slots_map_remove_at(s: Seq<CacheSlot>, i: int)
    requires
        unique_keys(s),
        0 <= i < s.len(),
    ensures
        slots_map(s.remove(i)) == slots_map(s).remove(s[i].key@),
        unique_keys(s.remove(i)),
    decreases s.len(),
{
    assert(unique_keys(s.remove(i))) by {
        assert(forall|p: int|
            0 <= p < s.remove(i).len() ==> #[trigger] s.remove(i)[p] == (if p < i {
                s[p]
            } else {
                s[p + 1]
            }));
    }
    if i == s.len() - 1 {
        assert(s.remove(i) =~= s.drop_last());
        lemma_slots_map_contains(s.drop_last(), s[i].key@);
        assert(forall|p: int|
            0 <= p < s.drop_last().len() ==> #[trigger] s.drop_last()[p].key@ != s[i].key@);
        assert(slots_map(s.drop_last()).remove(s[i].key@) =~= slots_map(s.drop_last()));
        assert(slots_map(s).remove(s[i].key@) =~= slots_map(s.drop_last()));
    } else {
        assert(unique_keys(s.drop_last())) by {
            assert(forall|p: int|
                0 <= p < s.drop_last().len() ==> #[trigger] s.drop_last()[p] == s[p]);
        }
        lemma_slots_map_remove_at(s.drop_last(), i);
        assert(s.remove(i).drop_last() =~= s.drop_last().remove(i));
        assert(s.remove(i).last() == s.last());
        assert(s[i].key@ != s.last().key@);
        assert(slots_map(s.remove(i)) =~= slots_map(s).remove(s[i].key@));
    }
}

/// The response cache. Keys are unique; the view is the map from each key to
/// the stored body and its creation time.
pub struct CacheStore {
    slots: Vec<CacheSlot>,
}

impl View for CacheStore {
    type V = Map<Seq<char>, (Seq<char>, u64)>;

    closed spec fn view(&self) -> Map<Seq<char>, (Seq<char>, u64)> {
        slots_map(self.slots@)
    }
}

impl CacheStore {
    /// The store's internal invariant: no key occurs twice.
    pub closed spec fn wf(&self) -> bool {
        unique_keys(self.slots@)
    }

    /// An empty cache.
    pub fn new() -> (r: CacheStore)
        ensures
            r.wf(),
            r@ == Map::<Seq<char>, (Seq<char>, u64)>::empty(),
    {
        CacheStore { slots: Vec::new() }
    }

    /// Whether `now_ms` still falls inside the freshness window of an entry
    /// stored at `created_at_ms`.
    pub fn is_fresh_at(created_at_ms: u64, now_ms: u64) -> (b: bool)
        ensures
            b == fresh_at(created_at_ms, now_ms),
    {
        if now_ms <= created_at_ms {
            true
        } else {
            now_ms - created_at_ms < TTL_MS
        }
    }

    /// Looks `key` up at time `now_ms`: returns the body while the entry is
    /// fresh, reports a stale entry without touching it (the caller schedules
    /// the removal out of band), and a miss when no entry exists.
    pub fn get(&self, key: &String, now_ms: u64) -> (r: CacheLookup)
        requires
            self.wf(),
        ensures
            (r is Fresh <==> fresh_body(self@, key@, now_ms) is Some),
            (r matches CacheLookup::Fresh(b) ==> fresh_body(self@, key@, now_ms) == Some(b@)),
            (r is Stale <==> self@.contains_key(key@) && !fresh_at(self@[key@].1, now_ms)),
            (r is Miss <==> !self@.contains_key(key@)),
    {
        let n = self.slots.len();
        let mut i: usize = 0;
        while i < n
            invariant
                self.wf(),
                n == self.slots@.len(),
                0 <= i <= n,
                forall|j: int| 0 <= j < i ==> #[trigger] self.slots@[j].key@ != key@,
            decreases n - i,
        {
            if self.slots[i].key == *key {
                proof {
                    lemma_slots_map_value(self.slots@, i as int);
                }
                if Self::is_fresh_at(self.slots[i].created_at_ms, now_ms) {
                    return CacheLookup::Fresh(self.slots[i].body.clone());
                } else {
                    return CacheLookup::Stale;
                }
            }
            i += 1;
        }
        proof {
            lemma_slots_map_contains(self.slots@, key@);
        }
        CacheLookup::Miss
    }

    /// Removes the entry for `key`, if any. Used for the out-of-band removal
    /// of an entry that a read discovered stale.
    pub fn remove(&mut self, key: &String)
        requires
            old(self).wf(),
        ensures
            final(self).wf(),
            final(self)@ == old(self)@.remove(key@),
    {
        let n = self.slots.len();
        let mut i: usize = 0;
        while i < n
            invariant
                self.wf(),
                self@ == old(self)@,
                self.slots@ == old(self).slots@,
                n == self.slots@.len(),
                0 <= i <= n,
                forall|j: int| 0 <= j < i ==> #[trigger] self.slots@[j].key@ != key@,
            decreases n - i,
        {
            if self.slots[i].key == *key {
                proof {
                    lemma_slots_map_remove_at(self.slots@, i as int);
                }
                self.slots.remove(i);
                return ;
            }
            i += 1;
        }
        proof {
            lemma_slots_map_contains(self.slots@, key@);
            assert(self@.remove(key@) =~= self@);
        }
    }

    /// Inserts or overwrites the entry for `key` with `body`, stamped
    /// `now_ms`. Last writer wins; there is no merge.
    pub fn put(&mut self, key: String, body: String, now_ms: u64)
        requires
            old(self).wf(),
        ensures
            final(self).wf(),
            final(self)@ == old(self)@.insert(key@, (body@, now_ms)),
    {
        self.remove(&key);
        proof {
            lemma_slots_map_contains(self.slots@, key@);
        }
        let ghost pre = self.slots@;
        let ghost gkey = key@;
        let ghost gbody = body@;
        self.slots.push(CacheSlot { key, body, created_at_ms: now_ms });
        proof {
            assert(self.slots@.drop_last() =~= pre);
            assert(self@ =~= old(self)@.insert(gkey, (gbody, now_ms)));
        }
    }
}

} // verus!
