//! Hash functions and the comparison of hashes.

use vstd::prelude::*;

use crate::types::B256;

verus! {

/// The Keccak-256 hash of `data`.
pub uninterp spec fn keccak256_digest(data: Seq<u8>) -> B256;

/// The SHA-256 hash of `data`.
pub uninterp spec fn sha256_digest(data: Seq<u8>) -> B256;

/// Keccak-256, by `alloy_primitives::keccak256`.
///
/// Trusted: the result depends on the bytes alone.
#[verifier::external_body]
pub(crate) fn keccak256(data: &[u8]) -> (digest: B256)
    ensures
        digest == keccak256_digest(data@),
{
    alloy_primitives::keccak256(data).0
}

/// SHA-256, by `sha2::Sha256::digest`.
///
/// Trusted: the result depends on the bytes alone.
#[verifier::external_body]
pub(crate) fn sha256(data: &[u8]) -> (digest: B256)
    ensures
        digest == sha256_digest(data@),
{
    <sha2::Sha256 as sha2::Digest>::digest(data).into()
}

/// Whether two hashes are equal.
pub(crate) fn same_hash(a: &B256, b: &B256) -> (same: bool)
    ensures
        same == (*a == *b),
{
    let mut i: usize = 0;
    while i < 32
        invariant
            i <= 32,
            forall|j: int| 0 <= j < i ==> a@[j] == b@[j],
        decreases 32 - i,
    {
        if a[i] != b[i] {
            assert(a@[i as int] != b@[i as int]);
            return false;
        }
        i = i + 1;
    }
    assert(a@ =~= b@);
    assert(*a =~= *b);
    true
}

} // verus!
