//! Error taxonomy of the proof-query service.

use vstd::prelude::*;

verus! {

/// Error type of the RPC api.
pub enum Error {
    /// The transaction was not decodable.
    DecodeError,
    /// The call to runtime failed.
    RuntimeError,
}

impl core::convert::From<Error> for i64 {
    fn from(e: Error) -> (r: i64) {
        match e {
            Error::RuntimeError => 1,
            Error::DecodeError => 2,
        }
    }
}

impl vstd::std_specs::convert::FromSpecImpl<Error> for i64 {
    open spec fn obeys_from_spec() -> bool {
        true
    }

    open spec fn from_spec(e: Error) -> i64 {
        match e {
            Error::RuntimeError => 1,
            Error::DecodeError => 2,
        }
    }
}

/// Why a proof query failed. Every downstream failure is mapped to one of
/// these kinds; the driver at the RPC boundary turns the kind and its block
/// context into one generic internal-error message for the wire.
#[derive(Clone, Copy, PartialEq, Eq, Structural, Debug)]
pub enum QueryError {
    /// The block number argument was malformed.
    InvalidParams,
    /// The block number does not resolve to a known block.
    NotFound,
    /// A chain read (block lookup, block length, public parameters) failed.
    UpstreamUnavailable,
    /// Chain-supplied bytes could not be decoded.
    DecodeError,
    /// Flattening or extending the block data failed in the erasure engine.
    BuildError,
    /// The commitment engine could not produce an opening proof.
    ProofError,
    /// The cache lock was poisoned; the query can be retried.
    CacheUnavailable,
}

impl QueryError {
    /// Human-readable description of the failure kind.
    pub fn message(&self) -> (m: &'static str)
        ensures
            m@ == self.spec_message(),
    {
        match self {
            QueryError::InvalidParams => "Invalid block number",
            QueryError::NotFound => "Missing block number",
            QueryError::UpstreamUnavailable => "Chain state cannot be fetched",
            QueryError::DecodeError => "Chain data cannot be decoded",
            QueryError::BuildError => "Block data extension cannot be built",
            QueryError::ProofError => "Proof cannot be generated",
            QueryError::CacheUnavailable => "Block cache lock is poisoned",
        }
    }

    pub open spec fn spec_message(self) -> Seq<char> {
        match self {
            QueryError::InvalidParams => "Invalid block number"@,
            QueryError::NotFound => "Missing block number"@,
            QueryError::UpstreamUnavailable => "Chain state cannot be fetched"@,
            QueryError::DecodeError => "Chain data cannot be decoded"@,
            QueryError::BuildError => "Block data extension cannot be built"@,
            QueryError::ProofError => "Proof cannot be generated"@,
            QueryError::CacheUnavailable => "Block cache lock is poisoned"@,
        }
    }
}

} // verus!
