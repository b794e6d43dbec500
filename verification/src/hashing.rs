//! The content hash that commits the owners to an action.

use vstd::prelude::*;
use crate::types::CallHash;

verus! {

/// The BLAKE2b digest of `data`, with a 256-bit output.
///
/// Nothing is stated of its value: two inputs may or may not collide.
pub uninterp spec fn blake2_256_digest(data: Seq<u8>) -> CallHash;

/// Calls `sp_io::hashing::blake2_256`.
///
/// Trusted: the result is the 256-bit BLAKE2b digest of `data`, a function of
/// the bytes of `data` alone.
#[verifier::external_body]
pub(crate) fn blake2_256(data: &[u8]) -> (digest: CallHash)
    ensures
        digest == blake2_256_digest(data@),
{
    sp_io::hashing::blake2_256(data)
}

/// Hashes the encoded form of an action.
pub fn hash_call(call: &[u8]) -> (digest: CallHash)
    ensures
        digest == blake2_256_digest(call@),
{
    blake2_256(call)
}

/// Compares two digests byte by byte.
pub fn same_hash(a: &CallHash, b: &CallHash) -> (same: bool)
    ensures
        same == (a@ == b@),
        same == (*a == *b),
{
    let mut i: usize = 0;
    while i < 32
        invariant
            i <= 32,
            forall|j: int| 0 <= j < i ==> a@[j] == b@[j],
        decreases 32 - i,
    {
        if a[i] != b[i] {
            return false;
        }
        i += 1;
    }
    assert(a@ =~= b@);
    assert(*a =~= *b);
    true
}

} // verus!
