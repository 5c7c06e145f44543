//! Hashing and encoding at the chain boundary: the 256-bit digest used to
//! derive a seed from raw storage bytes, and the 128-bit TwoX digest used by
//! the chain's storage layout to address a storage item.

use blake2::Digest;
use vstd::prelude::*;

verus! {

/// Little-endian bytes of `n`, `w` bytes wide.
pub open spec fn le_bytes(n: nat, w: nat) -> Seq<u8>
    decreases w,
{
    if w == 0 {
        Seq::empty()
    } else {
        seq![(n % 256) as u8] + le_bytes(n / 256, (w - 1) as nat)
    }
}

/// SCALE compact encoding of a collection length (lengths above `u32::MAX`
/// are never encoded).
pub open spec fn compact_prefix(n: nat) -> Seq<u8>
    recommends
        n <= u32::MAX,
{
    if n < 64 {
        seq![(n * 4) as u8]
    } else if n < 16384 {
        le_bytes(n * 4 + 1, 2)
    } else if n < 0x4000_0000 {
        le_bytes(n * 4 + 2, 4)
    } else {
        seq![3u8] + le_bytes(n, 4)
    }
}

/// SCALE encoding of a byte sequence: the compact length prefix followed by
/// the bytes themselves.
pub open spec fn scale_bytes(data: Seq<u8>) -> Seq<u8> {
    compact_prefix(data.len()) + data
}

/// 256-bit Blake2b digest of `data`; a function of the bytes alone.
pub uninterp spec fn blake2b_256_of(data: Seq<u8>) -> Seq<u8>;

/// 64-bit TwoX digest of `data` under `seed`; a function of both alone.
pub uninterp spec fn xxhash64_of(data: Seq<u8>, seed: u64) -> u64;

/// Relies on blake2's `Blake2b` with 32 bytes of output: a 256-bit digest
/// of the input bytes.
#[verifier::external_body]
pub(crate) fn blake2b_256(data: &[u8]) -> (r: [u8; 32])
    ensures
        r@ == blake2b_256_of(data@),
{
    let mut hasher = blake2::Blake2b::<blake2::digest::consts::U32>::new();
    hasher.update(data);
    hasher.finalize().into()
}

/// Relies on parity-scale-codec's `Encode` for `Vec<u8>`: the compact
/// length prefix followed by the bytes (it panics above `u32::MAX` bytes).
#[verifier::external_body]
pub(crate) fn scale_encode_bytes(data: &Vec<u8>) -> (r: Vec<u8>)
    requires
        data@.len() <= u32::MAX,
    ensures
        r@ == scale_bytes(data@),
{
    parity_scale_codec::Encode::encode(data)
}

/// Relies on twox-hash's `XxHash64::oneshot`: a 64-bit digest of the input
/// bytes under the given seed.
#[verifier::external_body]
pub(crate) fn xxhash64(data: &[u8], seed: u64) -> (r: u64)
    ensures
        r == xxhash64_of(data@, seed),
{
    twox_hash::XxHash64::oneshot(seed, data)
}

/// Little-endian bytes of a 64-bit value.
pub open spec fn le8_of(n: u64) -> Seq<u8> {
    seq![
        (n & 0xff) as u8,
        ((n >> 8) & 0xff) as u8,
        ((n >> 16) & 0xff) as u8,
        ((n >> 24) & 0xff) as u8,
        ((n >> 32) & 0xff) as u8,
        ((n >> 40) & 0xff) as u8,
        ((n >> 48) & 0xff) as u8,
        ((n >> 56) & 0xff) as u8,
    ]
}

/// 128-bit TwoX digest as the chain's storage layout uses it: the 64-bit
/// digests of the same bytes under seeds 0 and 1, each little-endian.
pub open spec fn twox_128_of(data: Seq<u8>) -> Seq<u8> {
    le8_of(xxhash64_of(data, 0)) + le8_of(xxhash64_of(data, 1))
}

/// The raw storage key of a storage item: the 128-bit TwoX digests of the
/// pallet name and of the item name, concatenated.
pub open spec fn spec_storage_prefix(pallet: Seq<u8>, item: Seq<u8>) -> Seq<u8> {
    twox_128_of(pallet) + twox_128_of(item)
}

fn push_le8(out: &mut Vec<u8>, h: u64)
    ensures
        final(out)@ == old(out)@ + le8_of(h),
{
    out.push((h & 0xff) as u8);
    out.push(((h >> 8) & 0xff) as u8);
    out.push(((h >> 16) & 0xff) as u8);
    out.push(((h >> 24) & 0xff) as u8);
    out.push(((h >> 32) & 0xff) as u8);
    out.push(((h >> 40) & 0xff) as u8);
    out.push(((h >> 48) & 0xff) as u8);
    out.push(((h >> 56) & 0xff) as u8);
    proof {
        assert(out@ =~= old(out)@ + le8_of(h));
    }
}

/// 128-bit TwoX digest of `data`.
pub fn twox_128(data: &[u8]) -> (r: Vec<u8>)
    ensures
        r@ == twox_128_of(data@),
{
    let h0: u64 = xxhash64(data, 0);
    let h1: u64 = xxhash64(data, 1);
    let mut out: Vec<u8> = Vec::new();
    push_le8(&mut out, h0);
    push_le8(&mut out, h1);
    proof {
        assert(out@ =~= twox_128_of(data@));
    }
    out
}

/// The raw storage key of the storage item `item` of pallet `pallet`.
pub fn storage_prefix(pallet: &[u8], item: &[u8]) -> (r: Vec<u8>)
    ensures
        r@ == spec_storage_prefix(pallet@, item@),
{
    let mut out = twox_128(pallet);
    let mut rest = twox_128(item);
    out.append(&mut rest);
    proof {
        assert(out@ =~= spec_storage_prefix(pallet@, item@));
    }
    out
}

} // verus!
