//! Laws of the TTL map, proved over the model of `crate::fresh`.
//!
//! Each proof function below states a property of the lookup and sweep
//! views that the operations of `crate::ttl_map` are specified against:
//! its parameters are an arbitrary physical contents map, a time-to-live,
//! keys and observation times, so each law holds of every map state the
//! operations can produce.

use vstd::prelude::*;

use crate::fresh::spec_lookup;
use crate::fresh::spec_swept;

verus! {

/// Freshness window: once an entry for `k` with value `v` is stored with
/// insertion time `t0`, a lookup of `k` observed at time `t` returns
/// `v` exactly while `t - t0 < ttl`, and nothing from `t - t0 >= ttl`
/// on, whatever the key held before.
pub proof fn lemma_freshness_window(
    entries: Map<Seq<char>, (u64, u64)>,
    ttl: u64,
    k: Seq<char>,
    v: u64,
    t0: u64,
    t: u64,
)
    ensures
        t - t0 < ttl ==> spec_lookup(entries.insert(k, (v, t0)), ttl, k, t) == Some(v),
        t - t0 >= ttl ==> spec_lookup(entries.insert(k, (v, t0)), ttl, k, t) is None,
{
}

/// Overwriting resets the clock: when `k` already holds an entry from
/// time `t0` and is inserted again at a later time `t1`, lookups are
/// governed by `t1` alone — fresh with the new value until `t1 + ttl`,
/// empty afterwards — regardless of `t0`.
pub proof fn lemma_overwrite_resets_clock(
    entries: Map<Seq<char>, (u64, u64)>,
    ttl: u64,
    k: Seq<char>,
    v1: u64,
    t0: u64,
    v2: u64,
    t1: u64,
    t: u64,
)
    requires
        entries.contains_key(k),
        entries[k] == ((v1, t0)),
        t0 < t1,
    ensures
        t - t1 < ttl ==> spec_lookup(entries.insert(k, (v2, t1)), ttl, k, t) == Some(v2),
        t - t1 >= ttl ==> spec_lookup(entries.insert(k, (v2, t1)), ttl, k, t) is None,
{
}

/// A removed key is gone physically: after `k` is deleted from the
/// contents, a lookup of `k` returns nothing at every observation time.
pub proof fn lemma_removed_key_absent(
    entries: Map<Seq<char>, (u64, u64)>,
    ttl: u64,
    k: Seq<char>,
    t: u64,
)
    ensures
        spec_lookup(entries.remove(k), ttl, k, t) is None,
{
}

/// Sweeping is idempotent: a second sweep at the same or a later time
/// leaves exactly what a single sweep at that time leaves.
pub proof fn lemma_cleanup_idempotent(
    entries: Map<Seq<char>, (u64, u64)>,
    ttl: u64,
    now1: u64,
    now2: u64,
)
    requires
        now1 <= now2,
    ensures
        spec_swept(spec_swept(entries, ttl, now1), ttl, now2) == spec_swept(entries, ttl, now2),
{
    assert(spec_swept(spec_swept(entries, ttl, now1), ttl, now2) =~= spec_swept(
        entries,
        ttl,
        now2,
    ));
}

/// A sweep changes no logical state: every lookup observed at or after
/// the sweep time returns the same value over the swept contents as over
/// the original contents. In particular a sweep never removes an entry
/// that is still fresh at the sweep time.
pub proof fn lemma_cleanup_preserves_logical(
    entries: Map<Seq<char>, (u64, u64)>,
    ttl: u64,
    nowc: u64,
    k: Seq<char>,
    t: u64,
)
    requires
        nowc <= t,
    ensures
        spec_lookup(spec_swept(entries, ttl, nowc), ttl, k, t) == spec_lookup(entries, ttl, k, t),
{
}

/// Distinct keys do not interfere: inserting or removing under one key
/// leaves every lookup of any other key unchanged, at every observation
/// time.
pub proof fn lemma_unrelated_keys_independent(
    entries: Map<Seq<char>, (u64, u64)>,
    ttl: u64,
    k1: Seq<char>,
    e: (u64, u64),
    k2: Seq<char>,
    t: u64,
)
    requires
        k1 != k2,
    ensures
        spec_lookup(entries.insert(k1, e), ttl, k2, t) == spec_lookup(entries, ttl, k2, t),
        spec_lookup(entries.remove(k1), ttl, k2, t) == spec_lookup(entries, ttl, k2, t),
{
}

} // verus!
