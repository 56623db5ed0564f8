//! Trusted layer over the sharded concurrent map from the `dashmap` crate.
//!
//! The store keeps entries of the form `(value, insertion_time)` under
//! `String` keys. Verus sees the map only through `dash_view`, a name for
//! its contents as a mathematical `Map`, and through the wrappers below,
//! whose contracts state what each `dashmap` operation does to those
//! contents. Everything above this layer is verified against these
//! contracts.

use vstd::prelude::*;

use crate::fresh::is_fresh;
use crate::fresh::spec_fresh;

verus! {

/// Relies on `dashmap::DashMap`, a concurrent sharded hash map; values of
/// the type are carried opaquely and read only through the wrappers below.
#[verifier::external_type_specification]
#[verifier::external_body]
#[verifier::reject_recursive_types(K)]
#[verifier::reject_recursive_types(V)]
#[verifier::reject_recursive_types(S)]
pub struct ExDashMap<K, V, S>(dashmap::DashMap<K, V, S>);

/// The contents of the store: which key holds which `(value, timestamp)`
/// pair. This is the one name through which every wrapper below speaks of
/// a `dashmap::DashMap`.
pub uninterp spec fn dash_view(m: dashmap::DashMap<String, (u64, u64)>) -> Map<
    Seq<char>,
    (u64, u64),
>;

/// Relies on `dashmap::DashMap::new`: it creates a map with no entries.
#[verifier::external_body]
pub(crate) fn dash_new() -> (r: dashmap::DashMap<String, (u64, u64)>)
    ensures
        dash_view(r) == (Map::<Seq<char>, (u64, u64)>::empty()),
{
    dashmap::DashMap::new()
}

/// Relies on `dashmap::DashMap::get`: it returns the entry stored under
/// the key, if any; the guard it hands back is dropped after the entry,
/// a `Copy` pair, is read out.
#[verifier::external_body]
pub(crate) fn dash_get(m: &dashmap::DashMap<String, (u64, u64)>, key: &String) -> (r: Option<
    (u64, u64),
>)
    ensures
        dash_view(*m).contains_key(key@) ==> r == Some(dash_view(*m)[key@]),
        !dash_view(*m).contains_key(key@) ==> r is None,
{
    m.get(key).map(|e| *e.value())
}

/// Relies on `dashmap::DashMap::insert`: it stores the entry under the
/// key, replacing and returning the previous entry if there was one.
#[verifier::external_body]
pub(crate) fn dash_insert(
    m: &mut dashmap::DashMap<String, (u64, u64)>,
    key: String,
    entry: (u64, u64),
) -> (r: Option<(u64, u64)>)
    ensures
        dash_view(*final(m)) == dash_view(*old(m)).insert(key@, entry),
        dash_view(*old(m)).contains_key(key@) ==> r == Some(dash_view(*old(m))[key@]),
        !dash_view(*old(m)).contains_key(key@) ==> r is None,
{
    m.insert(key, entry)
}

/// Relies on `dashmap::DashMap::remove`: it deletes the entry stored
/// under the key, if any, and returns it.
#[verifier::external_body]
pub(crate) fn dash_remove(m: &mut dashmap::DashMap<String, (u64, u64)>, key: &String) -> (r: Option<
    (u64, u64),
>)
    ensures
        dash_view(*final(m)) == dash_view(*old(m)).remove(key@),
        dash_view(*old(m)).contains_key(key@) ==> r == Some(dash_view(*old(m))[key@]),
        !dash_view(*old(m)).contains_key(key@) ==> r is None,
{
    m.remove(key).map(|kv| kv.1)
}

/// Relies on `dashmap::DashMap::retain`: it keeps exactly the entries on
/// which the predicate returns true, here the verified freshness check at
/// a fixed observation time.
#[verifier::external_body]
pub(crate) fn dash_retain_fresh(m: &mut dashmap::DashMap<String, (u64, u64)>, ttl: u64, now: u64)
    ensures
        forall|k: Seq<char>|
            #[trigger] dash_view(*final(m)).contains_key(k) <==> (dash_view(
                *old(m),
            ).contains_key(k) && spec_fresh(dash_view(*old(m))[k].1, now, ttl)),
        forall|k: Seq<char>|
            #[trigger] dash_view(*final(m)).contains_key(k) ==> dash_view(*final(m))[k]
                == dash_view(*old(m))[k],
{
    m.retain(|_key, entry| is_fresh(entry.1, now, ttl));
}

/// Relies on `dashmap::DashMap::len`: it returns the number of stored
/// entries, stale ones included.
#[verifier::external_body]
pub(crate) fn dash_len(m: &dashmap::DashMap<String, (u64, u64)>) -> (r: usize)
    ensures
        r == dash_view(*m).len(),
{
    m.len()
}

} // verus!
