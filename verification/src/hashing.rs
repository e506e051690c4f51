use vstd::prelude::*;

verus! {

/// The Keccak-256 digest of a byte string, as computed by
/// `solana_program::keccak::hash`.
pub uninterp spec fn keccak256(data: Seq<u8>) -> Seq<u8>;

/// Calls `solana_program::keccak::hash` (re-exported by `anchor_lang`).
/// Trusted: the 32 returned bytes are the Keccak-256 digest of `data`,
/// a function of `data` alone.
#[verifier::external_body]
pub(crate) fn keccak_hash(data: &[u8]) -> (res: [u8; 32])
    ensures
        res@ == keccak256(data@),
{
    anchor_lang::solana_program::keccak::hash(data).0
}

} // verus!
