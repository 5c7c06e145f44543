//! Core of a data-availability proof-query service.
//!
//! For a given block, the service turns the block's ordered transaction
//! payloads into an erasure-coded matrix of field elements, caches that
//! expensive build (at most once per block, bounded, least-recently-used
//! eviction), and serves cryptographic opening proofs for requested matrix
//! cells. The erasure-coding and commitment mathematics live in external
//! engines; this crate verifies the orchestration around them: block
//! resolution, the padding-seed fallback chain, the cache discipline, and
//! the error taxonomy. Chain reads (block bodies, runtime configuration,
//! raw storage) are performed by an unverified driver, which hands their
//! results to the decision functions of this crate.

pub mod block;
pub mod cache;

pub mod dims;
pub mod errors;
pub mod hashing;
pub mod seed;
pub mod service;

