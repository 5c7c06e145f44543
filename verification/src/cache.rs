//! The bounded block-extension cache.
//!
//! Maps a block hash to the extension built for that block, holding at most
//! a fixed number of entries and evicting the least-recently-accessed entry
//! under capacity pressure. The store itself is the `lru` crate's cache; its
//! behaviour is captured here as contracts over a recency-ordered sequence
//! of keys and a map of contents, against which the rest of the crate is
//! verified.

use vstd::prelude::*;

use crate::dims::BlockDimensions;

verus! {

#[verifier::external_type_specification]
#[verifier::external_body]
pub struct ExBlsScalar(dusk_plonk::prelude::BlsScalar);

#[verifier::external_type_specification]
#[verifier::external_body]
#[verifier::reject_recursive_types(K)]
#[verifier::reject_recursive_types(V)]
#[verifier::reject_recursive_types(S)]
pub struct ExLruCache<K, V, S>(lru::LruCache<K, V, S>);

/// The erasure-coded representation of one block's data: the extended
/// matrix of field scalars, tagged with the dimensions it was built for.
pub struct Extension {
    pub scalars: Vec<dusk_plonk::prelude::BlsScalar>,
    pub dims: BlockDimensions,
}

/// The cache: block hash to extension, bounded, least-recently-used.
pub type ExtCache = lru::LruCache<
    [u8; 32],
    Extension,
    std::collections::hash_map::RandomState,
>;

/// The keys of the cache in recency order, the most recently used first;
/// what the `lru` crate's internal list holds.
pub uninterp spec fn cache_keys(c: ExtCache) -> Seq<Seq<u8>>;

/// The contents of the cache: block hash to the extension stored for it.
pub uninterp spec fn cache_map(c: ExtCache) -> Map<Seq<u8>, Extension>;

/// The capacity the cache was created with.
pub uninterp spec fn cache_cap(c: ExtCache) -> nat;

/// The cache as the `lru` crate maintains it: each key at most once, the
/// contents keyed exactly by the listed keys, never more keys than the
/// capacity admits.
pub open spec fn cache_wf(c: ExtCache) -> bool {
    &&& cache_keys(c).no_duplicates()
    &&& (forall|k: Seq<u8>| #[trigger]
        cache_map(c).dom().contains(k) ==> cache_keys(c).contains(k))
    &&& (forall|k: Seq<u8>| #[trigger] cache_keys(c).contains(k) ==> cache_map(
        c,
    ).dom().contains(k))
    &&& cache_keys(c).len() <= cache_cap(c)
    &&& 1 <= cache_cap(c)
}

/// Recency order after an access of `k`: `k` moves to the front.
pub open spec fn keys_after_access(keys: Seq<Seq<u8>>, k: Seq<u8>) -> Seq<Seq<u8>> {
    seq![k] + keys.remove_value(k)
}

/// Recency order after `k` is stored: `k` moves to the front; a fresh key
/// in a full cache pushes the least-recently-used key (the last) out.
pub open spec fn keys_after_insert(keys: Seq<Seq<u8>>, k: Seq<u8>, cap: nat) -> Seq<Seq<u8>> {
    if keys.contains(k) {
        seq![k] + keys.remove_value(k)
    } else if keys.len() < cap {
        seq![k] + keys
    } else {
        seq![k] + keys.drop_last()
    }
}

/// Contents after `v` is stored under `k`: an eviction removes the
/// least-recently-used key's entry.
pub open spec fn map_after_insert(
    m: Map<Seq<u8>, Extension>,
    keys: Seq<Seq<u8>>,
    k: Seq<u8>,
    v: Extension,
    cap: nat,
) -> Map<Seq<u8>, Extension> {
    if keys.contains(k) || keys.len() < cap {
        m.insert(k, v)
    } else {
        m.remove(keys.last()).insert(k, v)
    }
}

/// Capacity is never exceeded, and storing a fresh key into a full cache
/// evicts exactly the least-recently-accessed key — the last of the
/// recency order — and no other.
pub proof fn lemma_lru_bound_and_eviction(keys: Seq<Seq<u8>>, k: Seq<u8>, cap: nat)
    requires
        keys.no_duplicates(),
        keys.len() <= cap,
        1 <= cap,
    ensures
        keys_after_insert(keys, k, cap).len() <= cap,
        (!keys.contains(k) && keys.len() == cap) ==> !keys_after_insert(keys, k, cap).contains(
            keys.last(),
        ),
        (!keys.contains(k) && keys.len() == cap) ==> keys_after_insert(keys, k, cap).contains(k),
        (!keys.contains(k) && keys.len() == cap) ==> (forall|j: Seq<u8>|
            keys.contains(j) && j != keys.last() ==> #[trigger] keys_after_insert(
                keys,
                k,
                cap,
            ).contains(j)),
{
    let after = keys_after_insert(keys, k, cap);
    if keys.contains(k) {
        keys.index_of_first_ensures(k);
        assert(after.len() == keys.len());
    } else if keys.len() < cap {
        assert(after.len() == keys.len() + 1);
    } else {
        assert(after.len() == cap);
        let evicted = keys.last();
        assert(keys[keys.len() - 1] == evicted);
        assert(after[0] == k);
        assert(after.contains(k));
        assert(!after.contains(evicted)) by {
            if after.contains(evicted) {
                let i = choose|i: int| 0 <= i < after.len() && after[i] == evicted;
                if i == 0 {
                    assert(keys[keys.len() - 1] == k);
                    assert(keys.contains(k));
                } else {
                    assert(after[i] == keys.drop_last()[i - 1]);
                    assert(keys[i - 1] == evicted);
                    assert(i - 1 < keys.len() - 1);
                }
            }
        };
        assert forall|j: Seq<u8>| keys.contains(j) && j != evicted implies #[trigger] after.contains(
            j,
        ) by {
            let i = choose|i: int| 0 <= i < keys.len() && keys[i] == j;
            assert(i != keys.len() - 1);
            assert(after[i + 1] == keys.drop_last()[i]);
            assert(after[i + 1] == j);
        };
    }
}

/// A fresh key enters the cache exactly once: after the insert it is
/// present, and the recency order still lists every key at most once.
pub proof fn lemma_insert_fresh_single(keys: Seq<Seq<u8>>, k: Seq<u8>, cap: nat)
    requires
        keys.no_duplicates(),
        !keys.contains(k),
        keys.len() <= cap,
        1 <= cap,
    ensures
        keys_after_insert(keys, k, cap).contains(k),
        keys_after_insert(keys, k, cap).no_duplicates(),
{
    let after = keys_after_insert(keys, k, cap);
    assert(after[0] == k);
    assert(after.contains(k));
    if keys.len() < cap {
        assert forall|i: int, j: int|
            0 <= i < after.len() && 0 <= j < after.len() && i != j implies after[i] != after[j] by {
            if i == 0 {
                assert(after[j] == keys[j - 1]);
                assert(keys.contains(keys[j - 1]));
            } else if j == 0 {
                assert(after[i] == keys[i - 1]);
                assert(keys.contains(keys[i - 1]));
            } else {
                assert(after[i] == keys[i - 1]);
                assert(after[j] == keys[j - 1]);
            }
        };
        assert(after.no_duplicates());
    } else {
        assert forall|i: int, j: int|
            0 <= i < after.len() && 0 <= j < after.len() && i != j implies after[i] != after[j] by {
            if i == 0 {
                assert(after[j] == keys[j - 1]);
                assert(keys.contains(keys[j - 1]));
            } else if j == 0 {
                assert(after[i] == keys[i - 1]);
                assert(keys.contains(keys[i - 1]));
            } else {
                assert(after[i] == keys[i - 1]);
                assert(after[j] == keys[j - 1]);
            }
        };
        assert(after.no_duplicates());
    }
}

/// Relies on `lru::LruCache::new`: an empty cache of the given capacity.
#[verifier::external_body]
pub(crate) fn cache_new(cap: usize) -> (c: ExtCache)
    requires
        1 <= cap,
    ensures
        cache_keys(c) == Seq::<Seq<u8>>::empty(),
        cache_map(c).dom() == Set::<Seq<u8>>::empty(),
        cache_cap(c) == cap,
        cache_wf(c),
{
    lru::LruCache::with_hasher(
        core::num::NonZeroUsize::new(cap).unwrap(),
        std::collections::hash_map::RandomState::new(),
    )
}

/// Relies on `lru::LruCache::contains`: membership without touching the
/// recency order.
#[verifier::external_body]
pub(crate) fn cache_contains(c: &ExtCache, k: &[u8; 32]) -> (r: bool)
    ensures
        r == cache_map(*c).dom().contains(k@),
{
    c.contains(k)
}

/// Relies on `lru::LruCache::len`.
#[verifier::external_body]
pub(crate) fn cache_len(c: &ExtCache) -> (n: usize)
    ensures
        n == cache_keys(*c).len(),
{
    c.len()
}

/// Relies on `lru::LruCache::put`: stores `v` under `k` at the front of the
/// recency order; a fresh key stored into a full cache evicts the
/// least-recently-used entry.
#[verifier::external_body]
pub(crate) fn cache_put(c: &mut ExtCache, k: [u8; 32], v: Extension)
    requires
        cache_wf(*old(c)),
    ensures
        cache_wf(*final(c)),
        cache_cap(*final(c)) == cache_cap(*old(c)),
        cache_keys(*final(c)) == keys_after_insert(
            cache_keys(*old(c)),
            k@,
            cache_cap(*old(c)),
        ),
        cache_map(*final(c)) == map_after_insert(
            cache_map(*old(c)),
            cache_keys(*old(c)),
            k@,
            v,
            cache_cap(*old(c)),
        ),
{
    let _ = c.put(k, v);
}

/// Relies on `lru::LruCache::get`: returns the entry stored under `k` and
/// moves `k` to the front of the recency order; absence changes nothing.
#[verifier::external_body]
pub(crate) fn cache_get<'a>(c: &'a mut ExtCache, k: &[u8; 32]) -> (r: Option<&'a Extension>)
    requires
        cache_wf(*old(c)),
    ensures
        cache_wf(*final(c)),
        cache_cap(*final(c)) == cache_cap(*old(c)),
        cache_map(*final(c)) == cache_map(*old(c)),
        match r {
            Some(v) => {
                &&& cache_map(*old(c)).dom().contains(k@)
                &&& *v == cache_map(*old(c))[k@]
                &&& cache_keys(*final(c)) == keys_after_access(cache_keys(*old(c)), k@)
            },
            None => {
                &&& !cache_map(*old(c)).dom().contains(k@)
                &&& cache_keys(*final(c)) == cache_keys(*old(c))
            },
        },
{
    c.get(k)
}

} // verus!
