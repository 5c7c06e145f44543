//! Per-block padding-seed resolution with graceful fallback.
//!
//! The seed is obtained from the chain's native randomness beacon when it
//! answers; otherwise from the chain's legacy raw randomness storage item,
//! hashed; otherwise it degrades to the all-zero seed rather than failing.
//! The chain reads themselves are performed by the driver; the functions
//! here decide, step by step, which read comes next and what the seed is.

use vstd::prelude::*;

use crate::hashing::{blake2b_256, blake2b_256_of, scale_bytes, scale_encode_bytes,
    spec_storage_prefix, storage_prefix};

verus! {

broadcast use vstd::array::group_array_axioms;

pub type VRFSeed = [u8; 32];

/// Which tier of the fallback chain produced a seed; reported so that each
/// fallback transition stays observable to the caller.
#[derive(Clone, Copy, PartialEq, Eq, Structural, Debug)]
pub enum SeedSource {
    /// The native randomness beacon answered.
    Beacon,
    /// The legacy raw storage item was present; its bytes were hashed.
    Storage,
    /// Neither source was available; the all-zero seed was used.
    Fallback,
}

/// State of one seed resolution after the beacon was consulted.
pub enum SeedProbe {
    /// The beacon did not answer: the raw storage item must be read next.
    NeedStorage,
    /// The seed is decided; no further chain read happens.
    Resolved { seed: VRFSeed, source: SeedSource },
}

/// The all-zero seed, used when every randomness source is exhausted.
pub open spec fn zero_seed() -> Seq<u8> {
    Seq::new(32, |i: int| 0u8)
}

/// The seed derived from the legacy raw randomness bytes: a 256-bit hash of
/// their SCALE encoding.
pub open spec fn storage_seed_bytes(raw: Seq<u8>) -> Seq<u8> {
    blake2b_256_of(scale_bytes(raw))
}

/// The seed and source that the fallback chain settles on, given what each
/// chain read would report.
pub open spec fn spec_resolved_seed(beacon: Option<VRFSeed>, raw: Option<Seq<u8>>) -> (Seq<
    u8,
>, SeedSource) {
    match beacon {
        Some(v) => (v@, SeedSource::Beacon),
        None => match raw {
            Some(b) => (storage_seed_bytes(b), SeedSource::Storage),
            None => (zero_seed(), SeedSource::Fallback),
        },
    }
}

/// View of an optional byte vector.
pub open spec fn raw_view(raw: Option<Vec<u8>>) -> Option<Seq<u8>> {
    match raw {
        Some(b) => Some(b@),
        None => None,
    }
}

/// First tier: take the beacon value when the beacon answered; otherwise
/// direct the driver to the raw storage read. A beacon value resolves the
/// probe at once, so storage is never consulted for it.
pub fn seed_after_beacon(beacon: Option<VRFSeed>) -> (r: SeedProbe)
    ensures
        match beacon {
            Some(v) => r == (SeedProbe::Resolved { seed: v, source: SeedSource::Beacon }),
            None => r is NeedStorage,
        },
{
    match beacon {
        Some(v) => SeedProbe::Resolved { seed: v, source: SeedSource::Beacon },
        None => SeedProbe::NeedStorage,
    }
}

/// Second and third tier: hash the raw randomness bytes when the storage
/// item was present; degrade to the all-zero seed when it was absent.
pub fn seed_after_storage(raw: Option<Vec<u8>>) -> (r: (VRFSeed, SeedSource))
    requires
        raw matches Some(b) ==> b@.len() <= u32::MAX,
    ensures
        (r.0@, r.1) == spec_resolved_seed(None, raw_view(raw)),
{
    match raw {
        Some(bytes) => {
            let encoded = scale_encode_bytes(&bytes);
            let digest = blake2b_256(encoded.as_slice());
            (digest, SeedSource::Storage)
        },
        None => {
            let zero: VRFSeed = [0u8; 32];
            proof {
                assert(zero@ =~= zero_seed());
            }
            (zero, SeedSource::Fallback)
        },
    }
}

/// The fallback order of the seed resolver: an available beacon value is
/// used as is and storage is not consulted; without a beacon, present
/// storage bytes are hashed; with neither source, the all-zero seed is the
/// result.
pub proof fn lemma_seed_fallback_order(beacon: Option<VRFSeed>, raw: Option<Seq<u8>>)
    ensures
        beacon matches Some(v) ==> spec_resolved_seed(beacon, raw) == (v@, SeedSource::Beacon),
        beacon is None ==> (raw matches Some(b) ==> spec_resolved_seed(beacon, raw) == (
            storage_seed_bytes(b),
            SeedSource::Storage,
        )),
        beacon is None && raw is None ==> spec_resolved_seed(beacon, raw) == (
            zero_seed(),
            SeedSource::Fallback,
        ),
{
}

/// The raw storage key of the legacy randomness item (pallet `Babe`, item
/// `Randomness`), the fixed well-known key the second tier reads.
pub open spec fn babe_randomness_key_bytes() -> Seq<u8> {
    spec_storage_prefix(
        seq![66u8, 97u8, 98u8, 101u8],
        seq![82u8, 97u8, 110u8, 100u8, 111u8, 109u8, 110u8, 101u8, 115u8, 115u8],
    )
}

/// The raw storage key holding the legacy epoch randomness.
pub fn babe_randomness_key() -> (r: Vec<u8>)
    ensures
        r@ == babe_randomness_key_bytes(),
{
    let mut pallet: Vec<u8> = Vec::new();
    pallet.push(66u8);
    pallet.push(97u8);
    pallet.push(98u8);
    pallet.push(101u8);
    let mut item: Vec<u8> = Vec::new();
    item.push(82u8);
    item.push(97u8);
    item.push(110u8);
    item.push(100u8);
    item.push(111u8);
    item.push(109u8);
    item.push(110u8);
    item.push(101u8);
    item.push(115u8);
    item.push(115u8);
    proof {
        assert(pallet@ =~= seq![66u8, 97u8, 98u8, 101u8]);
        assert(item@ =~= seq![
            82u8, 97u8, 110u8, 100u8, 111u8, 109u8, 110u8, 101u8, 115u8, 115u8,
        ]);
    }
    storage_prefix(pallet.as_slice(), item.as_slice())
}

} // verus!
