//! The salt of a nonce: the nonce as a 64-bit big-endian number in the last
//! eight bytes of an otherwise zero 32-byte word.

use vstd::prelude::*;

verus! {

/// Byte `j` of a nonce, byte 0 being the lowest.
pub open spec fn nonce_byte(nonce: u64, j: u64) -> u8
    recommends
        j < 8,
{
    ((nonce >> (8 * j)) & 0xff) as u8
}

/// The salt of a nonce: 24 zero bytes, then the nonce's eight bytes, highest
/// first.
pub open spec fn nonce_salt(nonce: u64) -> Seq<u8> {
    Seq::new(
        32,
        |i: int|
            if i < 24 {
                0u8
            } else {
                nonce_byte(nonce, (31 - i) as u64)
            },
    )
}

/// The nonce that the last eight bytes of a salt spell.
pub open spec fn salt_nonce(salt: Seq<u8>) -> u64
    recommends
        salt.len() == 32,
{
    (salt[24] as u64) << 56 | (salt[25] as u64) << 48 | (salt[26] as u64) << 40 | (salt[27] as u64)
        << 32 | (salt[28] as u64) << 24 | (salt[29] as u64) << 16 | (salt[30] as u64) << 8 | (
    salt[31] as u64)
}

/// Byte `j` of a nonce, byte 0 being the lowest.
fn byte_of(nonce: u64, j: u64) -> (b: u8)
    requires
        j < 8,
    ensures
        b == nonce_byte(nonce, j),
{
    let shifted: u64 = nonce >> (8 * j);
    let low: u64 = shifted & 0xff;
    assert(low < 256) by (bit_vector)
        requires
            low == shifted & 0xff,
    ;
    low as u8
}

/// Encodes a nonce as its salt.
pub fn nonce_to_salt(nonce: u64) -> (salt: [u8; 32])
    ensures
        salt@ == nonce_salt(nonce),
{
    let mut salt = [0u8; 32];
    let mut j: u64 = 0;
    while j < 8
        invariant
            j <= 8,
            forall|i: int| 0 <= i < 32 - j ==> salt@[i] == 0u8,
            forall|i: int| 32 - j <= i < 32 ==> salt@[i] == nonce_byte(nonce, (31 - i) as u64),
        decreases 8 - j,
    {
        let at: usize = 31 - j as usize;
        salt[at] = byte_of(nonce, j);
        j += 1;
    }
    assert(salt@ =~= nonce_salt(nonce));
    salt
}

/// The salt of a nonce spells that nonce.
pub proof fn lemma_salt_round_trip(nonce: u64)
    ensures
        nonce_salt(nonce).len() == 32,
        salt_nonce(nonce_salt(nonce)) == nonce,
{
    let s = nonce_salt(nonce);
    assert(s[24] == nonce_byte(nonce, 7));
    assert(s[25] == nonce_byte(nonce, 6));
    assert(s[26] == nonce_byte(nonce, 5));
    assert(s[27] == nonce_byte(nonce, 4));
    assert(s[28] == nonce_byte(nonce, 3));
    assert(s[29] == nonce_byte(nonce, 2));
    assert(s[30] == nonce_byte(nonce, 1));
    assert(s[31] == nonce_byte(nonce, 0));
    assert((((nonce >> 56) & 0xff) as u8 as u64) << 56 | (((nonce >> 48) & 0xff) as u8 as u64) << 48
        | (((nonce >> 40) & 0xff) as u8 as u64) << 40 | (((nonce >> 32) & 0xff) as u8 as u64) << 32
        | (((nonce >> 24) & 0xff) as u8 as u64) << 24 | (((nonce >> 16) & 0xff) as u8 as u64) << 16
        | (((nonce >> 8) & 0xff) as u8 as u64) << 8 | (((nonce >> 0) & 0xff) as u8 as u64) == nonce)
        by (bit_vector);
}

/// Distinct nonces have distinct salts.
pub proof fn lemma_salt_injective(a: u64, b: u64)
    requires
        nonce_salt(a) == nonce_salt(b),
    ensures
        a == b,
{
    lemma_salt_round_trip(a);
    lemma_salt_round_trip(b);
}

} // verus!
