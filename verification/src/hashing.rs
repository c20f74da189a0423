//! Keccak-256, as computed by `ethers_core`.

use vstd::prelude::*;

verus! {

/// The Keccak-256 digest of a byte string.
pub uninterp spec fn keccak256_digest(bytes: Seq<u8>) -> Seq<u8>;

/// Calls `ethers_core::utils::keccak256`. Trusted: the result is the 32-byte
/// Keccak-256 digest of the input, a function of the input bytes alone.
#[verifier::external_body]
pub(crate) fn keccak256(bytes: &Vec<u8>) -> (digest: Vec<u8>)
    ensures
        digest@ == keccak256_digest(bytes@),
        digest@.len() == 32,
{
    ethers_core::utils::keccak256(bytes).to_vec()
}

} // verus!
