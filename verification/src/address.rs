//! Derivation of a wallet's own account from its identifier.
//!
//! The account is recomputed whenever it is needed and never stored: the
//! namespace tag followed by the identifier is hashed, and the digest is read
//! as an account.

use vstd::prelude::*;
use crate::hashing::{blake2_256, blake2_256_digest};
use crate::types::{AccountId, CallHash, MultisigId};

verus! {

/// The namespace tag, the ASCII bytes of `pba/multisig`.
pub const NAMESPACE: [u8; 12] = [
    0x70, 0x62, 0x61, 0x2f, 0x6d, 0x75, 0x6c, 0x74, 0x69, 0x73, 0x69, 0x67,
];

/// The four bytes of `x`, least significant first.
pub open spec fn le_bytes_u32(x: u32) -> Seq<u8> {
    seq![
        (x % 0x100) as u8,
        ((x / 0x100) % 0x100) as u8,
        ((x / 0x1_0000) % 0x100) as u8,
        ((x / 0x100_0000) % 0x100) as u8,
    ]
}

/// The account that a digest stands for: its first eight bytes, least significant first.
pub open spec fn account_of(digest: Seq<u8>) -> AccountId
    recommends
        digest.len() >= 8,
{
    (digest[0] + digest[1] * 0x100 + digest[2] * 0x1_0000 + digest[3] * 0x100_0000
        + digest[4] * 0x1_0000_0000 + digest[5] * 0x100_0000_0000 + digest[6]
        * 0x1_0000_0000_0000 + digest[7] * 0x100_0000_0000_0000) as u64
}

/// The bytes that are hashed for wallet `seed`: the tag, then the identifier.
pub open spec fn preimage_of(seed: MultisigId) -> Seq<u8> {
    NAMESPACE@ + le_bytes_u32(seed)
}

/// The account of wallet `seed`.
pub open spec fn sovereign_account(seed: MultisigId) -> AccountId {
    account_of(blake2_256_digest(preimage_of(seed))@)
}

/// Calls `parity_scale_codec::Encode::encode` on the pair of a tag and an identifier.
///
/// Trusted: a fixed-size byte array is encoded as its bytes with no length
/// prefix, a `u32` as its four bytes in little-endian order, and a pair as the
/// first encoding followed by the second.
#[verifier::external_body]
fn scale_encode_tagged(tag: &[u8; 12], seed: u32) -> (bytes: Vec<u8>)
    ensures
        bytes@ == tag@ + le_bytes_u32(seed),
{
    parity_scale_codec::Encode::encode(&(tag, seed))
}

/// Calls `parity_scale_codec::Decode::decode` for `u64` on the digest wrapped
/// in `sp_runtime::traits::TrailingZeroInput`.
///
/// Trusted: that input never runs out, so decoding cannot fail, and a `u64` is
/// decoded from the next eight bytes in little-endian order.
#[verifier::external_body]
fn scale_decode_account(digest: &CallHash) -> (account: AccountId)
    ensures
        account == account_of(digest@),
{
    <u64 as parity_scale_codec::Decode>::decode(
        &mut sp_runtime::traits::TrailingZeroInput::new(digest.as_ref()),
    ).expect("infinite length input; no invalid inputs for type; qed")
}

/// Builds the bytes that are hashed for wallet `seed`.
pub fn derivation_preimage(seed: MultisigId) -> (bytes: Vec<u8>)
    ensures
        bytes@ == preimage_of(seed),
        bytes@.len() == 16,
{
    let tag = NAMESPACE;
    scale_encode_tagged(&tag, seed)
}

/// Reads a digest as an account. Every digest stands for some account.
pub fn account_from_digest(digest: &CallHash) -> (account: AccountId)
    ensures
        account == account_of(digest@),
{
    scale_decode_account(digest)
}

/// Derives the account of wallet `seed`.
pub fn derive_account(seed: MultisigId) -> (account: AccountId)
    ensures
        account == sovereign_account(seed),
{
    let preimage = derivation_preimage(seed);
    let digest = blake2_256(preimage.as_slice());
    account_from_digest(&digest)
}

} // verus!
