//! The freshness predicate and the model of a TTL map's contents.
//!
//! A stored entry is a pair `(value, t0)` where `t0` is the millisecond
//! timestamp of its insertion. Under a time-to-live `ttl`, the entry is
//! fresh at observation time `now` exactly when `now - t0 < ttl`; a stale
//! entry may still sit in storage but counts as logically absent. This
//! module states that rule once, as a spec function and as an executable
//! check, together with the two derived views of a whole map: what a
//! lookup returns, and what a sweep leaves behind.

use vstd::prelude::*;

verus! {

/// An entry inserted at `t0` is fresh at `now` under time-to-live `ttl`
/// when less than `ttl` milliseconds have elapsed since its insertion.
/// With a `ttl` of zero no entry is ever fresh.
pub open spec fn spec_fresh(t0: u64, now: u64, ttl: u64) -> bool {
    (now as int) < t0 + ttl
}

/// Executable form of the freshness rule; the wide intermediate type
/// keeps `t0 + ttl` from overflowing.
pub fn is_fresh(t0: u64, now: u64, ttl: u64) -> (r: bool)
    ensures
        r == spec_fresh(t0, now, ttl),
{
    (now as u128) < (t0 as u128) + (ttl as u128)
}

/// What a lookup of `k` at time `now` returns over the physical contents
/// `entries`: the stored value when the key is present and fresh, nothing
/// when it is absent or stale.
pub open spec fn spec_lookup(
    entries: Map<Seq<char>, (u64, u64)>,
    ttl: u64,
    k: Seq<char>,
    now: u64,
) -> Option<u64> {
    if entries.contains_key(k) && spec_fresh(entries[k].1, now, ttl) {
        Some(entries[k].0)
    } else {
        None
    }
}

/// The physical contents after one sweep at time `now`: exactly the
/// entries that are still fresh, each kept unchanged.
pub open spec fn spec_swept(
    entries: Map<Seq<char>, (u64, u64)>,
    ttl: u64,
    now: u64,
) -> Map<Seq<char>, (u64, u64)> {
    Map::new(
        |k: Seq<char>| entries.contains_key(k) && spec_fresh(entries[k].1, now, ttl),
        |k: Seq<char>| entries[k],
    )
}

} // verus!
