//! The proof-query service: block resolution, the cache discipline around
//! the per-block extension build, and the block-length query.
//!
//! One `queryProof` call runs through these steps, its chain reads done by
//! the driver between them, all under one exclusive critical section of the
//! cache from `plan_query` on: parse the number, resolve the block (an
//! unknown number fails before the cache is touched), plan against the
//! cache with freshly fetched dimensions, build and insert on a miss,
//! fetch the now-present extension, and conclude with the engine's proof.

use vstd::prelude::*;

use crate::block::{LookupOutcome, ResolvedBlock};
use crate::cache::{cache_cap, cache_contains, cache_get, cache_keys, cache_len, cache_map,
    cache_new, cache_put, cache_wf, keys_after_access, keys_after_insert, map_after_insert,
    ExtCache, Extension};
use crate::dims::BlockDimensions;
use crate::errors::QueryError;
use crate::seed::{raw_view, seed_after_beacon, seed_after_storage, spec_resolved_seed, SeedProbe,
    VRFSeed};

verus! {

/// Bound on the number of cached block extensions.
pub const CACHE_CAPACITY: usize = 2048;

/// The proof-query service state: the bounded extension cache and a counter
/// of recorded builder invocations, kept so that the single-build-per-block
/// guarantee stays observable.
pub struct Kate {
    cache: ExtCache,
    builds: u64,
}

/// What one query must still do after the cache was consulted: the
/// dimensions fetched fresh for this block, and whether the extension must
/// be built before it can be served.
#[derive(Debug)]
pub struct QueryPlan {
    pub dims: BlockDimensions,
    pub need_build: bool,
}

impl Kate {
    /// Keys of the cached entries, the most recently used first.
    pub closed spec fn spec_keys(&self) -> Seq<Seq<u8>> {
        cache_keys(self.cache)
    }

    /// The cached entries, keyed by block hash.
    pub closed spec fn spec_entries(&self) -> Map<Seq<u8>, Extension> {
        cache_map(self.cache)
    }

    /// How many builder invocations were recorded.
    pub closed spec fn spec_builds(&self) -> u64 {
        self.builds
    }

    /// Whether an extension is cached for the given block hash.
    pub open spec fn has_entry(&self, h: Seq<u8>) -> bool {
        self.spec_entries().dom().contains(h)
    }

    /// Whether a query for the given block hash would build its extension.
    pub open spec fn needs_build(&self, h: Seq<u8>) -> bool {
        !self.has_entry(h)
    }

    /// The service is backed by a well-formed cache of the fixed capacity.
    pub closed spec fn wf(&self) -> bool {
        &&& cache_wf(self.cache)
        &&& cache_cap(self.cache) == CACHE_CAPACITY
    }

    /// A fresh service: an empty cache, no build recorded yet.
    pub fn new() -> (k: Kate)
        ensures
            k.wf(),
            k.spec_keys() == Seq::<Seq<u8>>::empty(),
            k.spec_entries().dom() == Set::<Seq<u8>>::empty(),
            k.spec_builds() == 0,
    {
        Kate { cache: cache_new(CACHE_CAPACITY), builds: 0 }
    }

    /// Number of cached entries; never above the capacity.
    pub fn len(&self) -> (n: usize)
        requires
            self.wf(),
        ensures
            n == self.spec_keys().len(),
            n <= CACHE_CAPACITY,
    {
        cache_len(&self.cache)
    }

    /// How many builder invocations were recorded so far.
    pub fn builds(&self) -> (n: u64)
        ensures
            n == self.spec_builds(),
    {
        self.builds
    }

    /// Whether an extension is cached for the given block hash; leaves the
    /// recency order untouched.
    pub fn contains(&self, hash: &[u8; 32]) -> (r: bool)
        ensures
            r == self.has_entry(hash@),
    {
        cache_contains(&self.cache, hash)
    }

    /// The padding seed for one block, resolved through the fallback chain
    /// from what the chain reads reported: the beacon value as is when the
    /// beacon answered; else the hash of present storage bytes; else the
    /// all-zero seed. Never fails.
    pub fn random_seed(&self, beacon: Option<VRFSeed>, raw: Option<Vec<u8>>) -> (s: VRFSeed)
        requires
            beacon is None ==> (raw matches Some(b) ==> b@.len() <= u32::MAX),
        ensures
            s@ == spec_resolved_seed(beacon, raw_view(raw)).0,
    {
        match seed_after_beacon(beacon) {
            SeedProbe::Resolved { seed, source: _ } => seed,
            SeedProbe::NeedStorage => {
                let (seed, _source) = seed_after_storage(raw);
                seed
            },
        }
    }

    /// Step of `queryProof` inside the critical section: take this block's
    /// freshly fetched dimensions (fetched anew on every query, cached or
    /// not) and decide whether the extension must be built. Fails
    /// `UpstreamUnavailable` exactly when the dimension fetch failed; the
    /// cache is read but never changed.
    pub fn plan_query(&self, hash: &[u8; 32], dims_fetch: Option<BlockDimensions>) -> (r: Result<
        QueryPlan,
        QueryError,
    >)
        ensures
            match r {
                Ok(plan) => dims_fetch == Some(plan.dims) && plan.need_build == self.needs_build(
                    hash@,
                ),
                Err(e) => dims_fetch is None && e == QueryError::UpstreamUnavailable,
            },
    {
        match dims_fetch {
            Some(dims) => {
                let need_build = !cache_contains(&self.cache, hash);
                Ok(QueryPlan { dims, need_build })
            },
            None => Err(QueryError::UpstreamUnavailable),
        }
    }

    /// Step of `queryProof` on a cache miss: record the builder invocation
    /// and, on success, insert the built extension under the block hash —
    /// the only way an entry enters the cache. A failed build inserts
    /// nothing: the hash stays absent, and a later query for it starts a
    /// fresh build.
    pub fn complete_build(
        &mut self,
        hash: &[u8; 32],
        dims: BlockDimensions,
        built: Option<Vec<dusk_plonk::prelude::BlsScalar>>,
    ) -> (r: Result<(), QueryError>)
        requires
            old(self).wf(),
            old(self).needs_build(hash@),
            old(self).spec_builds() < u64::MAX,
        ensures
            final(self).wf(),
            final(self).spec_keys().len() <= CACHE_CAPACITY,
            final(self).spec_builds() == old(self).spec_builds() + 1,
            match r {
                Ok(_) => built is Some && final(self).has_entry(hash@) && final(self).spec_keys()
                    == keys_after_insert(old(self).spec_keys(), hash@, CACHE_CAPACITY as nat) && (
                built matches Some(scalars) ==> final(self).spec_entries() == map_after_insert(
                    old(self).spec_entries(),
                    old(self).spec_keys(),
                    hash@,
                    (Extension { scalars, dims }),
                    CACHE_CAPACITY as nat,
                )),
                Err(e) => built is None && e == QueryError::BuildError && final(self).spec_keys()
                    == old(self).spec_keys() && final(self).spec_entries() == old(
                    self,
                ).spec_entries(),
            },
    {
        self.builds = self.builds + 1;
        match built {
            Some(scalars) => {
                cache_put(&mut self.cache, *hash, Extension { scalars, dims });
                Ok(())
            },
            None => Err(QueryError::BuildError),
        }
    }

    /// Step of `queryProof` once the extension is present: hand out the
    /// cached matrix with the dimensions it was built for, refreshing the
    /// entry's recency. The contents and the build counter do not change,
    /// so a cached block is served without ever rebuilding it.
    pub fn fetch_extension<'a>(&'a mut self, hash: &[u8; 32]) -> (r: Option<&'a Extension>)
        requires
            old(self).wf(),
        ensures
            final(self).wf(),
            final(self).spec_keys().len() <= CACHE_CAPACITY,
            final(self).spec_builds() == old(self).spec_builds(),
            final(self).spec_entries() == old(self).spec_entries(),
            match r {
                Some(ext) => old(self).has_entry(hash@) && *ext == old(self).spec_entries()[hash@]
                    && final(self).spec_keys() == keys_after_access(old(self).spec_keys(), hash@),
                None => !old(self).has_entry(hash@) && final(self).spec_keys() == old(
                    self,
                ).spec_keys(),
            },
    {
        cache_get(&mut self.cache, hash)
    }
}

/// First step of `queryProof`: the block number argument, read as an
/// unsigned number by the driver, must fit the chain's block-number width;
/// anything else is `InvalidParams`.
pub fn parse_block_number(n: Option<u64>) -> (r: Result<u32, QueryError>)
    ensures
        match r {
            Ok(v) => n == Some(v as u64),
            Err(e) => e == QueryError::InvalidParams && (match n {
                Some(x) => x > u32::MAX,
                None => true,
            }),
        },
{
    match n {
        Some(x) => {
            if x <= 0xffff_ffffu64 {
                Ok(x as u32)
            } else {
                Err(QueryError::InvalidParams)
            }
        },
        None => Err(QueryError::InvalidParams),
    }
}

/// Second step of `queryProof`: the outcome of resolving the number to a
/// block. An unknown or out-of-range number fails `NotFound` here, before
/// the cache is entered or any build considered; a chain-client fault fails
/// `UpstreamUnavailable`.
pub fn resolve_block(lookup: LookupOutcome) -> (r: Result<ResolvedBlock, QueryError>)
    ensures
        match lookup {
            LookupOutcome::Found(b) => r matches Ok(rb) && rb == b,
            LookupOutcome::Missing => r matches Err(e) && e == QueryError::NotFound,
            LookupOutcome::Unavailable => r matches Err(e) && e == QueryError::UpstreamUnavailable,
        },
{
    match lookup {
        LookupOutcome::Found(b) => Ok(b),
        LookupOutcome::Missing => Err(QueryError::NotFound),
        LookupOutcome::Unavailable => Err(QueryError::UpstreamUnavailable),
    }
}

/// Last step of `queryProof`: the commitment engine's verdict over the
/// public parameters, dimensions, cached matrix and the caller's cells —
/// passed through unvalidated, duplicates and the empty list included. The
/// proof bytes are returned as computed; an engine failure is `ProofError`.
pub fn conclude_proof(proof_bytes: Option<Vec<u8>>) -> (r: Result<Vec<u8>, QueryError>)
    ensures
        match r {
            Ok(p) => proof_bytes == Some(p),
            Err(e) => proof_bytes is None && e == QueryError::ProofError,
        },
{
    match proof_bytes {
        Some(p) => Ok(p),
        None => Err(QueryError::ProofError),
    }
}

/// `blockLength`: the dimensions configured for the current head block,
/// exactly as freshly fetched from chain configuration — never cached, and
/// independent of the extension cache, so a configuration change at the
/// head shows at once. Fails `UpstreamUnavailable` exactly when the fetch
/// failed.
pub fn query_block_length(fetched: Option<BlockDimensions>) -> (r: Result<
    BlockDimensions,
    QueryError,
>)
    ensures
        match r {
            Ok(d) => fetched == Some(d),
            Err(e) => fetched is None && e == QueryError::UpstreamUnavailable,
        },
{
    match fetched {
        Some(d) => Ok(d),
        None => Err(QueryError::UpstreamUnavailable),
    }
}

/// A block whose extension is cached is never built again: a query that
/// finds the hash present plans no build, and recording a build demands
/// the hash absent.
pub proof fn lemma_build_at_most_once(k: Kate, h: Seq<u8>)
    requires
        k.has_entry(h),
    ensures
        !k.needs_build(h),
{
}

/// One successful build for a hash serves every later query for it: cache
/// accesses leave the contents unchanged, so the hash stays present and no
/// later query for it plans a build, whatever cells it asks for and however
/// often it repeats.
pub proof fn lemma_single_build_serves_later_queries(before: Kate, after: Kate, h: Seq<u8>)
    requires
        after.spec_entries() == before.spec_entries(),
        before.has_entry(h),
    ensures
        after.has_entry(h),
        !after.needs_build(h),
{
}

/// A failed build leaves no trace: with the contents unchanged, a hash
/// absent before stays absent, and the next query for it plans a fresh
/// build.
pub proof fn lemma_failed_build_leaves_no_entry(before: Kate, after: Kate, h: Seq<u8>)
    requires
        after.spec_entries() == before.spec_entries(),
        !before.has_entry(h),
    ensures
        !after.has_entry(h),
        after.needs_build(h),
{
}

} // verus!
