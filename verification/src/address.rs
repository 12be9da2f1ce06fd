//! Derivation of a CREATE2 address from factory, salt and init-code hash.

use crate::keccak::{keccak256, keccak256_digest};
use vstd::prelude::*;

verus! {

/// Length in bytes of a factory address and of a derived address.
pub const ADDRESS_LEN: usize = 20;

/// Length in bytes of a salt and of an init-code hash.
pub const WORD_LEN: usize = 32;

/// Why an address could not be derived.
#[derive(Clone, Copy, Debug, PartialEq, Eq, Structural)]
pub enum DeriveError {
    /// The factory is not 20 bytes, or the salt or the hash is not 32 bytes.
    InvalidInputLength,
}

/// The 85 bytes that are hashed: `0xff`, then factory, salt and hash.
pub open spec fn create2_preimage(factory: Seq<u8>, salt: Seq<u8>, code_hash: Seq<u8>) -> Seq<u8> {
    seq![0xffu8] + factory + salt + code_hash
}

/// Whether the three inputs have the lengths that the derivation asks for.
pub open spec fn valid_lengths(factory: Seq<u8>, salt: Seq<u8>, code_hash: Seq<u8>) -> bool {
    factory.len() == ADDRESS_LEN && salt.len() == WORD_LEN && code_hash.len() == WORD_LEN
}

/// The derived address: the last 20 bytes of the Keccak-256 digest of the
/// preimage.
pub open spec fn create2_address_spec(factory: Seq<u8>, salt: Seq<u8>, code_hash: Seq<u8>) -> Seq<
    u8,
> {
    keccak256(create2_preimage(factory, salt, code_hash)).subrange(12, 32)
}

/// Builds the bytes that are hashed: `0xff`, then factory, salt and hash.
pub fn build_preimage(factory: &[u8], salt: &[u8], code_hash: &[u8]) -> (preimage: Vec<u8>)
    ensures
        preimage@ == create2_preimage(factory@, salt@, code_hash@),
{
    let mut preimage: Vec<u8> = Vec::new();
    preimage.push(0xffu8);
    assert(preimage@ =~= seq![0xffu8]);
    append(&mut preimage, factory);
    append(&mut preimage, salt);
    append(&mut preimage, code_hash);
    preimage
}

/// Takes the last 20 bytes of a 32-byte digest.
pub fn address_from_digest(digest: &[u8; 32]) -> (address: [u8; 20])
    ensures
        address@ == digest@.subrange(12, 32),
{
    let mut address = [0u8; 20];
    let mut i: usize = 0;
    while i < 20
        invariant
            i <= 20,
            forall|k: int| 0 <= k < i ==> address@[k] == digest@[12 + k],
        decreases 20 - i,
    {
        address[i] = digest[12 + i];
        i += 1;
    }
    assert(address@ =~= digest@.subrange(12, 32));
    address
}

/// Hashes the preimage of the three inputs and keeps the digest's last 20
/// bytes, whatever the inputs' lengths.
pub(crate) fn hash_to_address(factory: &[u8], salt: &[u8], code_hash: &[u8]) -> (address: [u8; 20])
    ensures
        address@ == create2_address_spec(factory@, salt@, code_hash@),
{
    let preimage = build_preimage(factory, salt, code_hash);
    let digest = keccak256_digest(preimage.as_slice());
    address_from_digest(&digest)
}

/// Derives the address that a factory gives to a salt and an init-code hash.
/// The factory must be 20 bytes long, the salt and the hash 32 bytes each.
pub fn create2_address(factory: &[u8], salt: &[u8], bytecode_hash: &[u8]) -> (result: Result<
    [u8; 20],
    DeriveError,
>)
    ensures
        result is Ok <==> valid_lengths(factory@, salt@, bytecode_hash@),
        result is Ok ==> result->Ok_0@ == create2_address_spec(factory@, salt@, bytecode_hash@),
        result is Ok ==> result->Ok_0@.len() == ADDRESS_LEN,
        result is Err ==> result->Err_0 == DeriveError::InvalidInputLength,
{
    if factory.len() != ADDRESS_LEN || salt.len() != WORD_LEN || bytecode_hash.len() != WORD_LEN {
        return Err(DeriveError::InvalidInputLength);
    }
    Ok(hash_to_address(factory, salt, bytecode_hash))
}

/// The derived address depends on the three inputs alone: equal inputs give
/// equal addresses.
pub proof fn lemma_derivation_deterministic(
    factory_a: Seq<u8>,
    salt_a: Seq<u8>,
    hash_a: Seq<u8>,
    factory_b: Seq<u8>,
    salt_b: Seq<u8>,
    hash_b: Seq<u8>,
)
    requires
        factory_a == factory_b,
        salt_a == salt_b,
        hash_a == hash_b,
    ensures
        create2_address_spec(factory_a, salt_a, hash_a) == create2_address_spec(
            factory_b,
            salt_b,
            hash_b,
        ),
{
}

/// Appends the bytes of `tail` to `buf`.
pub(crate) fn append(buf: &mut Vec<u8>, tail: &[u8])
    ensures
        final(buf)@ == old(buf)@ + tail@,
{
    let mut i: usize = 0;
    while i < tail.len()
        invariant
            i <= tail.len(),
            buf@ == old(buf)@ + tail@.subrange(0, i as int),
        decreases tail.len() - i,
    {
        buf.push(tail[i]);
        i += 1;
        assert(buf@ =~= old(buf)@ + tail@.subrange(0, i as int));
    }
    assert(tail@.subrange(0, tail.len() as int) =~= tail@);
}

} // verus!
