//! Rebuilding the user interface of every open window from the caches that
//! the previous interfaces left behind.
use vstd::prelude::*;
use rustc_hash::{FxBuildHasher, FxHashMap};
use crate::window_manager::WindowManager;

verus! {

/// `rustc_hash::FxBuildHasher`, the hasher builder of `FxHashMap`.
#[verifier::external_type_specification]
#[verifier::external_body]
pub struct ExFxBuildHasher(FxBuildHasher);

/// Calls `HashMap::insert` on an `FxHashMap`. As std documents it, the map
/// then maps `key` to `value` and is otherwise unchanged.
#[verifier::external_body]
fn fx_insert<V>(map: &mut FxHashMap<u64, V>, key: u64, value: V)
    ensures
        final(map)@ == old(map)@.insert(key, value),
{
    let _ = map.insert(key, value);
}

/// Calls `Vec::from_iter` on an `FxHashMap`, which walks the map once, in an
/// order that is not specified. Each entry of the map comes out exactly once.
#[verifier::external_body]
fn fx_entries<V>(map: FxHashMap<u64, V>) -> (entries: Vec<(u64, V)>)
    ensures
        forall|i: int, j: int|
            0 <= i < j < entries@.len() ==> #[trigger] entries@[i].0 != #[trigger] entries@[j].0,
        forall|i: int|
            0 <= i < entries@.len() ==> #[trigger] map@.contains_key(entries@[i].0) && map@[entries@[i].0]
                == entries@[i].1,
        forall|k: u64|
            #[trigger] map@.contains_key(k) ==> exists|i: int|
                0 <= i < entries@.len() && #[trigger] entries@[i].0 == k,
{
    Vec::from_iter(map)
}

/// Builds the user interface of every open window that left a cache: each
/// cache of a window that is no longer registered is dropped, and `build`
/// turns the cache of each open window into its new interface. `build` is
/// only ever called for an open window, with that window's own cache, and
/// at most once for each window, since the cache is moved into the call.
pub fn build_user_interfaces<C, U, F: Fn(u64, C) -> U>(
    window_manager: &WindowManager,
    cached_user_interfaces: FxHashMap<u64, C>,
    build: F,
) -> (interfaces: FxHashMap<u64, U>)
    requires
        forall|id: u64, cache: C|
            window_manager@.entries.contains_key(id) && cached_user_interfaces@.contains_key(id)
                && cache == cached_user_interfaces@[id] ==> call_requires(build, (id, cache)),
    ensures
        interfaces@.dom() == cached_user_interfaces@.dom().intersect(window_manager@.entries.dom()),
        forall|id: u64|
            #[trigger] interfaces@.contains_key(id) ==> call_ensures(
                build,
                (id, cached_user_interfaces@[id]),
                interfaces@[id],
            ),
{
    let ghost cached = cached_user_interfaces@;
    let entries = fx_entries(cached_user_interfaces);
    let mut interfaces: FxHashMap<u64, U> = FxHashMap::default();
    let mut rest = entries;
    let ghost all = rest@;
    while rest.len() > 0
        invariant
            rest@.len() <= all.len(),
            forall|i: int| 0 <= i < rest@.len() ==> #[trigger] rest@[i] == all[i],
            forall|i: int, j: int| 0 <= i < j < all.len() ==> #[trigger] all[i].0 != #[trigger] all[j].0,
            forall|i: int| 0 <= i < all.len() ==> #[trigger] cached.contains_key(all[i].0) && cached[all[i].0] == all[i].1,
            forall|k: u64| #[trigger] cached.contains_key(k) ==> exists|i: int| 0 <= i < all.len() && #[trigger] all[i].0 == k,
            forall|id: u64, cache: C|
                window_manager@.entries.contains_key(id) && cached.contains_key(id) && cache == cached[id]
                    ==> call_requires(build, (id, cache)),
            forall|id: u64|
                #[trigger] interfaces@.contains_key(id) <==> (exists|i: int|
                    rest@.len() <= i < all.len() && #[trigger] all[i].0 == id)
                    && window_manager@.entries.contains_key(id),
            forall|id: u64|
                #[trigger] interfaces@.contains_key(id) ==> call_ensures(build, (id, cached[id]), interfaces@[id]),
        decreases rest@.len(),
    {
        let ghost before = interfaces@;
        let (id, cache) = rest.pop().unwrap();
        let ghost n = rest@.len() as int;
        assert(all[n] == (id, cache));
        assert(cached.contains_key(all[n].0) && cached[id] == cache);
        let open = window_manager.get(id).is_some();
        if open {
            let ui = build(id, cache);
            fx_insert(&mut interfaces, id, ui);
        }
        proof {
            assert forall|k: u64| #[trigger] interfaces@.contains_key(k) implies call_ensures(
                build,
                (k, cached[k]),
                interfaces@[k],
            ) by {
                if k != id {
                    assert(before.contains_key(k));
                }
            }
            assert forall|k: u64| #[trigger] interfaces@.contains_key(k) <==> (exists|i: int|
                rest@.len() <= i < all.len() && #[trigger] all[i].0 == k)
                && window_manager@.entries.contains_key(k) by {
                if k == id {
                    if open {
                        assert(all[n].0 == k);
                    }
                } else {
                    if exists|i: int| rest@.len() <= i < all.len() && #[trigger] all[i].0 == k {
                        let i = choose|i: int| rest@.len() <= i < all.len() && #[trigger] all[i].0 == k;
                        assert(i != n);
                        assert(n + 1 <= i < all.len() && all[i].0 == k);
                    }
                }
            }
        }
    }
    proof {
        assert forall|id: u64| interfaces@.dom().contains(id) <==> cached.dom().intersect(window_manager@.entries.dom()).contains(id) by {
            if cached.contains_key(id) {
                let i = choose|i: int| 0 <= i < all.len() && #[trigger] all[i].0 == id;
                assert(all[i].0 == id);
            }
        }
        assert(interfaces@.dom() =~= cached.dom().intersect(window_manager@.entries.dom()));
    }
    interfaces
}

} // verus!
