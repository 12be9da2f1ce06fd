//! Hexadecimal text: what the `hex` crate encodes and decodes, stated over
//! ASCII bytes.

use vstd::prelude::*;

verus! {

/// The lower-case hexadecimal digit, as an ASCII byte, of a value below 16.
pub open spec fn hex_digit(n: u8) -> u8
    recommends
        n < 16,
{
    if n < 10 {
        (48 + n) as u8
    } else {
        (87 + n) as u8
    }
}

/// The lower-case hexadecimal text of a byte string: two digits per byte, the
/// high half first.
pub open spec fn hex_lower(data: Seq<u8>) -> Seq<u8> {
    Seq::new(
        2 * data.len(),
        |i: int|
            if i % 2 == 0 {
                hex_digit(data[i / 2] / 16)
            } else {
                hex_digit(data[i / 2] % 16)
            },
    )
}

/// The value of a hexadecimal digit of either case, if the byte is one.
pub open spec fn hex_value(c: u8) -> Option<u8> {
    if 48 <= c <= 57 {
        Some((c - 48) as u8)
    } else if 97 <= c <= 102 {
        Some((c - 87) as u8)
    } else if 65 <= c <= 70 {
        Some((c - 55) as u8)
    } else {
        None
    }
}

/// Whether every byte of the text is a hexadecimal digit.
pub open spec fn all_hex_digits(text: Seq<u8>) -> bool {
    forall|i: int| 0 <= i < text.len() ==> (#[trigger] hex_value(text[i])) is Some
}

/// Whether the text decodes: an even number of hexadecimal digits.
pub open spec fn is_hex_text(text: Seq<u8>) -> bool {
    text.len() % 2 == 0 && all_hex_digits(text)
}

/// The bytes that a hexadecimal text stands for.
pub open spec fn hex_decoded(text: Seq<u8>) -> Seq<u8>
    recommends
        is_hex_text(text),
{
    Seq::new(
        text.len() / 2,
        |i: int| (hex_value(text[2 * i]).unwrap() * 16 + hex_value(text[2 * i + 1]).unwrap()) as u8,
    )
}

/// Calls `hex::encode`. Trusted: the text it returns holds, for each byte of
/// `data` in order, its two lower-case hexadecimal digits, high half first.
#[verifier::external_body]
pub(crate) fn hex_encode(data: &[u8]) -> (text: Vec<u8>)
    ensures
        text@ == hex_lower(data@),
{
    hex::encode(data).into_bytes()
}

/// Calls `hex::decode`. Trusted: it succeeds exactly on an even number of
/// hexadecimal digits of either case, and then returns one byte per pair of
/// digits, the first digit being the high half.
#[verifier::external_body]
pub(crate) fn hex_decode(text: &[u8]) -> (bytes: Option<Vec<u8>>)
    ensures
        bytes is Some <==> is_hex_text(text@),
        bytes is Some ==> bytes->Some_0@ == hex_decoded(text@),
{
    hex::decode(text).ok()
}

/// Writes a byte string as lower-case hexadecimal text, in ASCII bytes.
pub fn to_hex(data: &[u8]) -> (text: Vec<u8>)
    ensures
        text@ == hex_lower(data@),
        text@.len() == 2 * data@.len(),
{
    hex_encode(data)
}

/// The text of a byte string has twice its length and holds only the digits
/// `0` to `9` and `a` to `f`.
pub proof fn lemma_hex_lower_shape(data: Seq<u8>)
    ensures
        hex_lower(data).len() == 2 * data.len(),
        forall|i: int|
            0 <= i < 2 * data.len() ==> {
                let c = #[trigger] hex_lower(data)[i];
                48 <= c <= 57 || 97 <= c <= 102
            },
        all_hex_digits(hex_lower(data)),
{
    assert forall|i: int| 0 <= i < 2 * data.len() implies {
        let c = #[trigger] hex_lower(data)[i];
        (48 <= c <= 57 || 97 <= c <= 102) && hex_value(c) is Some
    } by {
        let b = data[i / 2];
        assert(b / 16 < 16 && b % 16 < 16);
    }
}

/// Decoding the text of a byte string gives the byte string back.
pub proof fn lemma_decode_encode(data: Seq<u8>)
    ensures
        is_hex_text(hex_lower(data)),
        hex_decoded(hex_lower(data)) == data,
{
    lemma_hex_lower_shape(data);
    let text = hex_lower(data);
    assert forall|i: int| 0 <= i < data.len() implies #[trigger] hex_decoded(text)[i] == data[i] by {
        let b = data[i];
        assert(text[2 * i] == hex_digit(b / 16));
        assert(text[2 * i + 1] == hex_digit(b % 16));
        assert(b / 16 < 16 && b % 16 < 16);
        assert(b == (b / 16) * 16 + b % 16);
    }
    assert(hex_decoded(text) =~= data);
}

} // verus!
