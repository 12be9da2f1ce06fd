//! The Keccak-256 hash, taken from the `sha3` crate.

use sha3::Digest;
use vstd::prelude::*;

verus! {

/// The 32-byte Keccak-256 digest of a byte string: Keccak with its own
/// padding, which differs from that of the later SHA3-256 standard. Its value
/// is whatever `sha3::Keccak256` computes; nothing more is assumed of it.
pub uninterp spec fn keccak256(data: Seq<u8>) -> Seq<u8>;

/// Calls `sha3::Keccak256::digest`. Trusted: the returned 32 bytes are the
/// Keccak-256 digest of `data`, a function of the bytes of `data` alone.
#[verifier::external_body]
pub(crate) fn keccak256_digest(data: &[u8]) -> (digest: [u8; 32])
    ensures
        digest@ == keccak256(data@),
{
    let hash = sha3::Keccak256::digest(data);
    let mut digest = [0u8; 32];
    digest.copy_from_slice(&hash);
    digest
}

} // verus!
