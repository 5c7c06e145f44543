//! Plain records extracted from a resolved block.

use vstd::prelude::*;

verus! {

/// One transaction payload of a block: the application id it was submitted
/// under and its raw encoded bytes, in the order of inclusion in the block.
#[derive(Debug)]
pub struct ExtrinsicRecord {
    pub app_id: u32,
    pub data: Vec<u8>,
}

/// One (row, column) coordinate of the extended matrix whose opening proof
/// is requested. Duplicate cells and empty cell lists are passed through to
/// the commitment engine unvalidated.
#[derive(Clone, Copy, PartialEq, Eq, Structural, Debug)]
pub struct Cell {
    pub row: u32,
    pub col: u32,
}

/// A block resolved from a block number: its number, its immutable hash
/// (the cache key), and its extrinsics in inclusion order.
#[derive(Debug)]
pub struct ResolvedBlock {
    pub number: u32,
    pub hash: [u8; 32],
    pub extrinsics: Vec<ExtrinsicRecord>,
}

/// What a block lookup by number reported: the block, a definite miss
/// (unknown or out-of-range number), or a failure of the chain client.
pub enum LookupOutcome {
    Found(ResolvedBlock),
    Missing,
    Unavailable,
}

} // verus!
