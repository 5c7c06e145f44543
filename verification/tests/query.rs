use dusk_plonk::prelude::BlsScalar;
use kate_rpc::block::{Cell, ExtrinsicRecord, LookupOutcome, ResolvedBlock};
use kate_rpc::dims::BlockDimensions;
use kate_rpc::errors::QueryError;
use kate_rpc::service::{
    conclude_proof, parse_block_number, query_block_length, resolve_block, Kate,
};

fn hash_of(i: u32) -> [u8; 32] {
    let mut h = [0u8; 32];
    h[..4].copy_from_slice(&i.to_le_bytes());
    h
}

fn dims_4x4() -> BlockDimensions {
    BlockDimensions {
        rows: 4,
        cols: 4,
        chunk_size: 32,
    }
}

fn tiny_matrix() -> Vec<BlsScalar> {
    vec![BlsScalar::zero(), BlsScalar::from(1u64)]
}

#[test]
fn scenario_block_ten_two_queries_one_build() {
    // Block #10: rows=4, cols=4, chunkSize=32; extrinsics with app ids
    // [0, 1, 1] and payload lengths [10, 5, 20]; no beacon, no storage key.
    let extrinsics = vec![
        ExtrinsicRecord {
            app_id: 0,
            data: vec![0u8; 10],
        },
        ExtrinsicRecord {
            app_id: 1,
            data: vec![1u8; 5],
        },
        ExtrinsicRecord {
            app_id: 1,
            data: vec![2u8; 20],
        },
    ];
    let block = ResolvedBlock {
        number: 10,
        hash: hash_of(10),
        extrinsics,
    };
    let dims = dims_4x4();

    let mut kate = Kate::new();

    let seed = kate.random_seed(None, None);
    assert_eq!(seed, [0u8; 32]);

    // First query, cells [(0,0), (1,1)].
    let n = parse_block_number(Some(10)).unwrap();
    assert_eq!(n, 10);
    let block = resolve_block(LookupOutcome::Found(block)).unwrap();
    assert_eq!(block.number, 10);
    assert_eq!(block.extrinsics.len(), 3);
    assert_eq!(block.extrinsics[2].data.len(), 20);
    let plan = kate.plan_query(&block.hash, Some(dims)).unwrap();
    assert!(plan.need_build);
    assert_eq!(plan.dims, dims);
    // The erasure engine builds from (dims, extrinsics, seed) exactly once.
    kate.complete_build(&block.hash, plan.dims, Some(tiny_matrix()))
        .unwrap();
    let _cells = vec![Cell { row: 0, col: 0 }, Cell { row: 1, col: 1 }];
    {
        let ext = kate.fetch_extension(&block.hash).expect("entry present");
        assert_eq!(ext.dims, dims);
        assert_eq!(ext.scalars.len(), 2);
    }
    let proof1 = conclude_proof(Some(vec![1, 2, 3])).unwrap();
    assert_eq!(proof1, vec![1, 2, 3]);

    // Second query, cells [(2,2)]: served from cache, no second build.
    let plan2 = kate.plan_query(&block.hash, Some(dims)).unwrap();
    assert!(!plan2.need_build);
    let _cells2 = vec![Cell { row: 2, col: 2 }];
    {
        let ext2 = kate.fetch_extension(&block.hash).expect("entry present");
        assert_eq!(ext2.dims, dims);
    }
    let proof2 = conclude_proof(Some(vec![4, 5])).unwrap();
    assert_eq!(proof2, vec![4, 5]);

    assert_eq!(kate.builds(), 1);
}

#[test]
fn repeated_queries_build_once() {
    let mut kate = Kate::new();
    let h = hash_of(1);
    let plan = kate.plan_query(&h, Some(dims_4x4())).unwrap();
    assert!(plan.need_build);
    kate.complete_build(&h, plan.dims, Some(tiny_matrix()))
        .unwrap();
    for _ in 0..5 {
        let plan = kate.plan_query(&h, Some(dims_4x4())).unwrap();
        assert!(!plan.need_build);
        assert!(kate.fetch_extension(&h).is_some());
    }
    assert_eq!(kate.builds(), 1);
    assert_eq!(kate.len(), 1);
}

#[test]
fn capacity_bound_and_lru_eviction() {
    let mut kate = Kate::new();
    let dims = dims_4x4();
    for i in 0..2049u32 {
        kate.complete_build(&hash_of(i), dims, Some(tiny_matrix()))
            .unwrap();
    }
    assert_eq!(kate.len(), 2048);
    assert_eq!(kate.builds(), 2049);
    // The least-recently-accessed hash (the first inserted) left; all
    // younger ones stayed.
    assert!(!kate.contains(&hash_of(0)));
    assert!(kate.contains(&hash_of(1)));
    assert!(kate.contains(&hash_of(2048)));
}

#[test]
fn access_refreshes_recency() {
    let mut kate = Kate::new();
    let dims = dims_4x4();
    for i in 0..2048u32 {
        kate.complete_build(&hash_of(i), dims, Some(tiny_matrix()))
            .unwrap();
    }
    // Touch the oldest entry, then overflow: the second-oldest leaves.
    assert!(kate.fetch_extension(&hash_of(0)).is_some());
    kate.complete_build(&hash_of(60000), dims, Some(tiny_matrix()))
        .unwrap();
    assert!(kate.contains(&hash_of(0)));
    assert!(!kate.contains(&hash_of(1)));
    assert_eq!(kate.len(), 2048);
}

#[test]
fn failed_build_leaves_no_entry_and_retry_inserts_one() {
    let mut kate = Kate::new();
    let h = hash_of(3);
    let r = kate.complete_build(&h, dims_4x4(), None);
    assert_eq!(r, Err(QueryError::BuildError));
    assert!(!kate.contains(&h));
    assert_eq!(kate.len(), 0);
    assert_eq!(kate.builds(), 1);
    // A later query starts from scratch and succeeds.
    let plan = kate.plan_query(&h, Some(dims_4x4())).unwrap();
    assert!(plan.need_build);
    kate.complete_build(&h, plan.dims, Some(tiny_matrix()))
        .unwrap();
    assert!(kate.contains(&h));
    assert_eq!(kate.len(), 1);
    assert_eq!(kate.builds(), 2);
}

#[test]
fn unknown_block_number_fails_not_found_before_cache() {
    let kate = Kate::new();
    let r = resolve_block(LookupOutcome::Missing);
    assert_eq!(r.unwrap_err(), QueryError::NotFound);
    // Nothing was built or cached for it.
    assert_eq!(kate.builds(), 0);
    assert_eq!(kate.len(), 0);
}

#[test]
fn client_fault_fails_upstream() {
    let r = resolve_block(LookupOutcome::Unavailable);
    assert_eq!(r.unwrap_err(), QueryError::UpstreamUnavailable);
}

#[test]
fn block_number_parsing() {
    assert_eq!(parse_block_number(Some(10)), Ok(10));
    assert_eq!(parse_block_number(Some(u32::MAX as u64)), Ok(u32::MAX));
    assert_eq!(
        parse_block_number(Some(u32::MAX as u64 + 1)),
        Err(QueryError::InvalidParams)
    );
    assert_eq!(parse_block_number(None), Err(QueryError::InvalidParams));
}

#[test]
fn missing_dimensions_fail_upstream() {
    let kate = Kate::new();
    let r = kate.plan_query(&hash_of(4), None);
    assert_eq!(r.unwrap_err(), QueryError::UpstreamUnavailable);
}

#[test]
fn proof_conclusion_passes_bytes_through() {
    assert_eq!(conclude_proof(Some(vec![9, 9])), Ok(vec![9, 9]));
    assert_eq!(conclude_proof(None), Err(QueryError::ProofError));
}

#[test]
fn block_length_follows_head_configuration() {
    let mut kate = Kate::new();
    kate.complete_build(&hash_of(7), dims_4x4(), Some(tiny_matrix()))
        .unwrap();
    // The head's configuration is returned as fetched, whatever the cache
    // holds, and a change at the head shows at once.
    let d1 = BlockDimensions {
        rows: 4,
        cols: 4,
        chunk_size: 32,
    };
    let d2 = BlockDimensions {
        rows: 8,
        cols: 16,
        chunk_size: 64,
    };
    assert_eq!(query_block_length(Some(d1)), Ok(d1));
    assert_eq!(query_block_length(Some(d2)), Ok(d2));
    assert_eq!(
        query_block_length(None),
        Err(QueryError::UpstreamUnavailable)
    );
}
