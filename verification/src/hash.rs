//! Keccak-256, as the runtime computes it.

use vstd::prelude::*;

verus! {

/// The Keccak-256 digest of `first` followed by `second`.
///
/// The digest is computed outside this crate; nothing is stated about it but
/// that it depends on the two parts alone.
pub uninterp spec fn keccak_hashv(first: Seq<u8>, second: Seq<u8>) -> [u8; 32];

/// Calls `solana_program::keccak::hashv` on the two parts, in this order. The
/// contract claims that the digest is a function of the bytes of the two
/// parts: `hashv` feeds the parts to a fresh hasher one after the other and
/// returns what the hasher holds at the end.
#[verifier::external_body]
pub(crate) fn hashv(first: &[u8], second: &[u8]) -> (digest: [u8; 32])
    ensures
        digest == keccak_hashv(first@, second@),
{
    anchor_lang::solana_program::keccak::hashv(&[first, second]).to_bytes()
}

} // verus!
