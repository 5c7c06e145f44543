//! Chain-configured grid dimensions of one block.

use vstd::prelude::*;

verus! {

/// Grid capacity configured for one block: rows, columns, and the byte width
/// of one chunk. Governance can change the configuration, so the dimensions
/// may differ from block to block and are always fetched fresh from the
/// chain, never cached on their own.
#[derive(Clone, Copy, PartialEq, Eq, Structural, Debug)]
pub struct BlockDimensions {
    pub rows: u32,
    pub cols: u32,
    pub chunk_size: u32,
}

impl BlockDimensions {
    /// Total byte capacity of the configured grid.
    pub open spec fn spec_capacity(self) -> nat {
        (self.rows as nat) * (self.cols as nat) * (self.chunk_size as nat)
    }
}

} // verus!
