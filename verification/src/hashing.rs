//! The two 256-bit hash functions that the library uses, from sp-core.

use vstd::prelude::*;
use sp_core::Hasher;

verus! {

/// What Blake2b with a 32-byte output gives on `data`.
pub uninterp spec fn blake2_256_of(data: Seq<u8>) -> Seq<u8>;

/// What Keccak-256 gives on `data`.
pub uninterp spec fn keccak_256_of(data: Seq<u8>) -> Seq<u8>;

/// `<sp_core::Blake2Hasher as Hasher>::hash`: the Blake2b-256 digest of `data`
/// (the hashing of the runtime's block headers), 32 bytes, a function of
/// `data` alone.
#[verifier::external_body]
pub(crate) fn blake2_256(data: &[u8]) -> (r: [u8; 32])
    ensures
        r@ == blake2_256_of(data@),
{
    <sp_core::Blake2Hasher as Hasher>::hash(data).0
}

/// `<sp_core::KeccakHasher as Hasher>::hash`: the Keccak-256 digest of
/// `data`, 32 bytes, a function of `data` alone.
#[verifier::external_body]
pub(crate) fn keccak_256(data: &[u8]) -> (r: [u8; 32])
    ensures
        r@ == keccak_256_of(data@),
{
    <sp_core::KeccakHasher as Hasher>::hash(data).0
}

} // verus!
