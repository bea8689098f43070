//! The in-flight tracker: the set of request keys whose upstream fetch is
//! currently running. A request that misses the cache consults this set to
//! decide whether it becomes the leader (and fetches) or a follower (and
//! waits for the leader's publish).
use vstd::prelude::*;

verus! {

/// The set of keys a sequence of strings stands for.
pub open spec fn keys_set(s: Seq<String>) -> Set<Seq<char>> {
    Set::new(|k: Seq<char>| exists|i: int| 0 <= i < s.len() && #[trigger] s[i]@ == k)
}

/// No key occurs twice.
pub open spec fn distinct_keys(s: Seq<String>) -> bool {
    forall|i: int, j: int| 0 <= i < j < s.len() ==> s[i]@ != s[j]@
}

/// The set of request keys currently being fetched from upstream.
pub struct InFlightSet {
    keys: Vec<String>,
}

impl View for InFlightSet {
    type V = Set<Seq<char>>;

    closed spec fn view(&self) -> Set<Seq<char>> {
        keys_set(self.keys@)
    }
}

impl InFlightSet {
    /// The tracker's internal invariant: no key is recorded twice.
    pub closed spec fn wf(&self) -> bool {
        distinct_keys(self.keys@)
    }

    /// An empty tracker.
    pub fn new() -> (r: InFlightSet)
        ensures
            r.wf(),
            r@ == Set::<Seq<char>>::empty(),
    {
        let r = InFlightSet { keys: Vec::new() };
        proof {
            assert(r@ =~= Set::<Seq<char>>::empty());
        }
        r
    }

    /// Membership test: whether a fetch for `key` is currently in flight.
    pub fn is_fetching(&self, key: &String) -> (b: bool)
        requires
            self.wf(),
        ensures
            b == self@.contains(key@),
    {
        let n = self.keys.len();
        let mut i: usize = 0;
        while i < n
            invariant
                n == self.keys@.len(),
                0 <= i <= n,
                forall|j: int| 0 <= j < i ==> #[trigger] self.keys@[j]@ != key@,
            decreases n - i,
        {
            if self.keys[i] == *key {
                return true;
            }
            i += 1;
        }
        proof {
            if self@.contains(key@) {
                let j = choose|j: int| 0 <= j < self.keys@.len() && #[trigger] self.keys@[j]@ == key@;
            }
        }
        false
    }

    /// Marks `key` as being fetched (`fetching` true) or clears the mark
    /// (`fetching` false).
    pub fn set_fetching(&mut self, key: &String, fetching: bool)
        requires
            old(self).wf(),
        ensures
            final(self).wf(),
            fetching ==> final(self)@ == old(self)@.insert(key@),
            !fetching ==> final(self)@ == old(self)@.remove(key@),
    {
        let n = self.keys.len();
        let mut i: usize = 0;
        while i < n
            invariant
                self == old(self),
                self.wf(),
                n == self.keys@.len(),
                0 <= i <= n,
                forall|j: int| 0 <= j < i ==> #[trigger] self.keys@[j]@ != key@,
            decreases n - i,
        {
            if self.keys[i] == *key {
                if fetching {
                    // Already marked: the set is unchanged.
                    proof {
                        assert(self@.contains(key@));
                        assert(self@ =~= old(self)@.insert(key@));
                    }
                } else {
                    proof {
                        lemma_keys_set_remove_at(self.keys@, i as int);
                    }
                    self.keys.remove(i);
                }
                return ;
            }
            i += 1;
        }
        proof {
            if self@.contains(key@) {
                let j = choose|j: int| 0 <= j < self.keys@.len() && #[trigger] self.keys@[j]@ == key@;
            }
        }
        if fetching {
            let ghost pre = self.keys@;
            self.keys.push(key.clone());
            proof {
                assert forall|k: Seq<char>| #[trigger]
                    keys_set(self.keys@).contains(k) implies old(self)@.insert(key@).contains(
                    k,
                ) by {
                    let j = choose|j: int|
                        0 <= j < self.keys@.len() && #[trigger] self.keys@[j]@ == k;
                    if j < pre.len() {
                        assert(pre[j]@ == k);
                    }
                }
                assert forall|k: Seq<char>| #[trigger]
                    old(self)@.insert(key@).contains(k) implies keys_set(self.keys@).contains(
                    k,
                ) by {
                    if k == key@ {
                        assert(self.keys@[pre.len() as int]@ == k);
                    } else {
                        let j = choose|j: int| 0 <= j < pre.len() && #[trigger] pre[j]@ == k;
                        assert(self.keys@[j]@ == k);
                    }
                }
                assert(self@ =~= old(self)@.insert(key@));
            }
        } else {
            // Nothing was marked: removing a missing key changes nothing.
            proof {
                assert(self@ =~= old(self)@.remove(key@));
            }
        }
    }
}

proof fn lemma_keys_set_remove_at(s: Seq<String>, i: int)
    requires
        distinct_keys(s),
        0 <= i < s.len(),
    ensures
        keys_set(s.remove(i)) == keys_set(s).remove(s[i]@),
        distinct_keys(s.remove(i)),
{
    assert(forall|p: int|
        0 <= p < s.remove(i).len() ==> #[trigger] s.remove(i)[p] == (if p < i {
            s[p]
        } else {
            s[p + 1]
        }));
    assert forall|k: Seq<char>| #[trigger]
        keys_set(s.remove(i)).contains(k) implies keys_set(s).remove(s[i]@).contains(k) by {
        let p = choose|p: int| 0 <= p < s.remove(i).len() && #[trigger] s.remove(i)[p]@ == k;
        let q: int = if p < i {
            p
        } else {
            p + 1
        };
        assert(s[q]@ == k);
        assert(k != s[i]@);
    }
    assert forall|k: Seq<char>| #[trigger]
        keys_set(s).remove(s[i]@).contains(k) implies keys_set(s.remove(i)).contains(k) by {
        let q = choose|q: int| 0 <= q < s.len() && #[trigger] s[q]@ == k;
        assert(q != i);
        let p: int = if q < i {
            q
        } else {
            q - 1
        };
        assert(s.remove(i)[p]@ == k);
    }
    assert(keys_set(s.remove(i)) =~= keys_set(s).remove(s[i]@));
}

} // verus!
