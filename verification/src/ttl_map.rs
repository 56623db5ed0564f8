//! The TTL map: a key-value store whose entries expire.
//!
//! `TDashMap` owns a concurrent store of `(value, insertion_time)` entries,
//! a time-to-live fixed at construction, and a monotonic clock. Lookups,
//! insertions and removals apply the freshness rule of `crate::fresh` at
//! the caller's observation time; `cleanup` physically evicts every stale
//! entry in one pass. Each operation comes in two forms: one that takes
//! the observation time as an argument, with an exact contract, and one
//! that reads the clock itself, whose contract states what holds for
//! whichever reading came back.

use vstd::prelude::*;

use crate::clock::MonoClock;
use crate::fresh::is_fresh;
use crate::fresh::spec_lookup;
use crate::fresh::spec_swept;
use crate::store;
use crate::store::dash_view;

verus! {

/// A map from `String` keys to `u64` values in which every entry expires
/// a fixed number of milliseconds after its insertion.
pub struct TDashMap {
    map: dashmap::DashMap<String, (u64, u64)>,
    ttl: u64,
    clock: MonoClock,
}

impl TDashMap {
    /// The physical contents: every stored entry, stale ones included.
    pub closed spec fn entries(self) -> Map<Seq<char>, (u64, u64)> {
        dash_view(self.map)
    }

    /// The time-to-live, in milliseconds, fixed at construction.
    pub closed spec fn ttl_ms(self) -> u64 {
        self.ttl
    }

    /// A lower bound on every clock reading the map will observe from now
    /// on.
    pub closed spec fn time_lb(self) -> u64 {
        self.clock.floor_ms()
    }

    /// Well-formedness: the contents are finite, and no stored timestamp
    /// lies in the future of the clock. Construction establishes this and
    /// every operation preserves it.
    pub open spec fn wf(self) -> bool {
        &&& self.entries().dom().finite()
        &&& forall|k: Seq<char>|
            #[trigger] self.entries().dom().contains(k) ==> self.entries()[k].1 <= self.time_lb()
    }

    /// What a lookup of `k` returns when observed at time `now`.
    pub open spec fn spec_get(self, k: Seq<char>, now: u64) -> Option<u64> {
        spec_lookup(self.entries(), self.ttl_ms(), k, now)
    }

    /// Creates an empty map whose entries will expire `ttl` milliseconds
    /// after insertion. A `ttl` of zero is legal: every entry is stale
    /// the moment it is inserted.
    pub fn new(ttl: u64) -> (r: TDashMap)
        ensures
            r.wf(),
            r.entries() == (Map::<Seq<char>, (u64, u64)>::empty()),
            r.ttl_ms() == ttl,
            r.time_lb() == 0,
    {
        let r = TDashMap { map: store::dash_new(), ttl, clock: MonoClock::new() };
        proof {
            assert(r.entries().dom() =~= Set::<Seq<char>>::empty());
        }
        r
    }

    /// Looks `key` up as observed at time `now`: the stored value when the
    /// entry is present and fresh, nothing when it is absent or stale. The
    /// store is not changed.
    pub fn get_at(&self, key: &String, now: u64) -> (r: Option<u64>)
        ensures
            r == self.spec_get(key@, now),
    {
        match store::dash_get(&self.map, key) {
            None => None,
            Some((v, t0)) => if is_fresh(t0, now, self.ttl) {
                Some(v)
            } else {
                None
            },
        }
    }

    /// Looks `key` up at the current time. The result is the lookup view
    /// at some clock reading no earlier than the recorded bound; in
    /// particular a hit always carries the stored value, a missing key is
    /// never reported present, and with a zero time-to-live nothing is
    /// ever returned.
    pub fn get(&self, key: &String) -> (r: Option<u64>)
        ensures
            exists|now: u64| now >= self.time_lb() && r == self.spec_get(key@, now),
            !self.entries().contains_key(key@) ==> r is None,
            self.wf() && self.ttl_ms() == 0 ==> r is None,
            r matches Some(v) ==> self.entries().contains_key(key@) && v == self.entries()[key@].0,
    {
        let now = self.clock.peek_ms();
        let r = self.get_at(key, now);
        proof {
            assert(now >= self.time_lb() && r == self.spec_get(key@, now));
            if self.wf() && self.entries().contains_key(key@) {
                assert(self.entries().dom().contains(key@));
                assert(self.entries()[key@].1 <= self.time_lb());
            }
        }
        r
    }

    /// Stores `value` under `key` with insertion time `now`, replacing any
    /// prior entry, and returns the previous logical value: the old value
    /// if it was still fresh at `now`, nothing if the key was absent or
    /// its entry had expired. Well-formedness is kept as long as the
    /// observation time does not lie in the future of the clock.
    pub fn insert_at(&mut self, key: String, value: u64, now: u64) -> (r: Option<u64>)
        ensures
            old(self).wf() && now <= old(self).time_lb() ==> final(self).wf(),
            final(self).ttl_ms() == old(self).ttl_ms(),
            final(self).time_lb() == old(self).time_lb(),
            final(self).entries() == old(self).entries().insert(key@, (value, now)),
            r == old(self).spec_get(key@, now),
    {
        let prev = store::dash_insert(&mut self.map, key, (value, now));
        proof {
            if old(self).wf() && now <= old(self).time_lb() {
                assert(self.entries().dom() =~= old(self).entries().dom().insert(key@));
                assert forall|k: Seq<char>| #[trigger]
                    self.entries().dom().contains(k) implies self.entries()[k].1
                    <= self.time_lb() by {
                    if k != key@ {
                        assert(old(self).entries().dom().contains(k));
                    }
                }
            }
        }
        match prev {
            None => None,
            Some((v, t0)) => if is_fresh(t0, now, self.ttl) {
                Some(v)
            } else {
                None
            },
        }
    }

    /// Stores `value` under `key` at the current time. The entry's clock
    /// is reset: afterwards the key holds `value` with the fresh
    /// timestamp. The previous logical value is returned under the same
    /// rule as `insert_at`; absent and expired are deliberately not told
    /// apart, both come back as nothing.
    pub fn insert(&mut self, key: String, value: u64) -> (r: Option<u64>)
        ensures
            old(self).wf() ==> final(self).wf(),
            final(self).ttl_ms() == old(self).ttl_ms(),
            final(self).time_lb() >= old(self).time_lb(),
            exists|now: u64|
                now >= old(self).time_lb() && final(self).entries() == old(
                    self,
                ).entries().insert(key@, (value, now)) && final(self).time_lb() == now && r == old(
                    self,
                ).spec_get(key@, now),
            final(self).entries().contains_key(key@),
            final(self).entries()[key@].0 == value,
            r matches Some(v) ==> old(self).entries().contains_key(key@) && v == old(
                self,
            ).entries()[key@].0,
            !old(self).entries().contains_key(key@) ==> r is None,
            old(self).wf() && old(self).ttl_ms() == 0 ==> r is None,
    {
        let now = self.clock.now_ms();
        proof {
            if old(self).wf() && old(self).entries().contains_key(key@) {
                assert(old(self).entries().dom().contains(key@));
            }
        }
        let r = self.insert_at(key, value, now);
        proof {
            assert(now >= old(self).time_lb() && self.entries() == old(self).entries().insert(
                key@,
                (value, now),
            ) && self.time_lb() == now && r == old(self).spec_get(key@, now));
        }
        r
    }

    /// Physically deletes `key`, expired or not, as observed at time
    /// `now`; afterwards the key is absent. Returns the logical value the
    /// entry held: the stored value if it was still fresh at `now`, else
    /// nothing.
    pub fn remove_at(&mut self, key: &String, now: u64) -> (r: Option<u64>)
        ensures
            old(self).wf() ==> final(self).wf(),
            final(self).ttl_ms() == old(self).ttl_ms(),
            final(self).time_lb() == old(self).time_lb(),
            final(self).entries() == old(self).entries().remove(key@),
            r == old(self).spec_get(key@, now),
    {
        let prev = store::dash_remove(&mut self.map, key);
        proof {
            if old(self).wf() {
                assert(self.entries().dom() =~= old(self).entries().dom().remove(key@));
                assert forall|k: Seq<char>| #[trigger]
                    self.entries().dom().contains(k) implies self.entries()[k].1
                    <= self.time_lb() by {
                    assert(old(self).entries().dom().contains(k));
                }
            }
        }
        match prev {
            None => None,
            Some((v, t0)) => if is_fresh(t0, now, self.ttl) {
                Some(v)
            } else {
                None
            },
        }
    }

    /// Physically deletes `key` at the current time and returns the
    /// logical value under the freshness rule: the stored value only if
    /// the entry was still fresh at the moment of removal.
    pub fn remove(&mut self, key: &String) -> (r: Option<u64>)
        ensures
            old(self).wf() ==> final(self).wf(),
            final(self).ttl_ms() == old(self).ttl_ms(),
            final(self).time_lb() == old(self).time_lb(),
            final(self).entries() == old(self).entries().remove(key@),
            exists|now: u64| now >= old(self).time_lb() && r == old(self).spec_get(key@, now),
            r matches Some(v) ==> old(self).entries().contains_key(key@) && v == old(
                self,
            ).entries()[key@].0,
            !old(self).entries().contains_key(key@) ==> r is None,
            old(self).wf() && old(self).ttl_ms() == 0 ==> r is None,
    {
        let now = self.clock.peek_ms();
        proof {
            if old(self).wf() && old(self).entries().contains_key(key@) {
                assert(old(self).entries().dom().contains(key@));
            }
        }
        let r = self.remove_at(key, now);
        r
    }

    /// One sweep as observed at time `now`: physically deletes every entry
    /// that is stale at `now` and keeps every fresh one unchanged.
    pub fn cleanup_at(&mut self, now: u64)
        ensures
            old(self).wf() ==> final(self).wf(),
            final(self).ttl_ms() == old(self).ttl_ms(),
            final(self).time_lb() == old(self).time_lb(),
            final(self).entries() == spec_swept(old(self).entries(), old(self).ttl_ms(), now),
    {
        store::dash_retain_fresh(&mut self.map, self.ttl, now);
        proof {
            assert(self.entries() =~= spec_swept(old(self).entries(), old(self).ttl_ms(), now));
            if old(self).wf() {
                assert(self.entries().dom() <= old(self).entries().dom());
                vstd::set_lib::lemma_set_subset_finite(
                    old(self).entries().dom(),
                    self.entries().dom(),
                );
                assert forall|k: Seq<char>| #[trigger]
                    self.entries().dom().contains(k) implies self.entries()[k].1
                    <= self.time_lb() by {
                    assert(old(self).entries().dom().contains(k));
                }
            }
        }
    }

    /// One sweep at the current time: physically deletes every entry that
    /// is stale at some clock reading no earlier than the recorded bound,
    /// and keeps every other entry unchanged. Logical state is untouched
    /// for every later observer; in particular no entry fresh at the sweep
    /// time is removed.
    pub fn cleanup(&mut self)
        ensures
            old(self).wf() ==> final(self).wf(),
            final(self).ttl_ms() == old(self).ttl_ms(),
            final(self).time_lb() == old(self).time_lb(),
            exists|now: u64|
                now >= old(self).time_lb() && final(self).entries() == spec_swept(
                    old(self).entries(),
                    old(self).ttl_ms(),
                    now,
                ),
    {
        let now = self.clock.peek_ms();
        self.cleanup_at(now);
    }

    /// The number of physically stored entries, stale ones included.
    pub fn len(&self) -> (r: usize)
        ensures
            r == self.entries().len(),
    {
        store::dash_len(&self.map)
    }
}

} // verus!
