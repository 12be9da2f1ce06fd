//! Reading a search target from text: the factory address and the init-code
//! hash in hexadecimal, with or without a leading `0x`, and the two patterns.

use crate::hextext::{all_hex_digits, hex_decode, hex_decoded, hex_value, is_hex_text};
use crate::search::SearchTarget;
use vstd::prelude::*;
use vstd::slice::slice_subrange;
use vstd::string::StringSliceAdditionalSpecFns;

verus! {

/// The greatest length of a pattern: the length of an address's text.
pub const MAX_PATTERN_LEN: usize = 40;

/// Why a target could not be read.
#[derive(Clone, Copy, Debug, PartialEq, Eq, Structural)]
pub enum InputError {
    /// A field is not an even number of hexadecimal digits.
    InvalidHex,
    /// A field decodes to the wrong number of bytes.
    WrongLength,
    /// A pattern has more than 40 characters.
    PatternTooLong,
    /// A pattern holds a character that is no hexadecimal digit.
    InvalidPattern,
}

/// The text without a leading `0x`, if it has one.
pub open spec fn strip_0x(text: Seq<u8>) -> Seq<u8> {
    if text.len() >= 2 && text[0] == 48 && text[1] == 120 {
        text.subrange(2, text.len() as int)
    } else {
        text
    }
}

/// What a hexadecimal field of `expected` bytes reads as.
pub open spec fn field_spec(text: Seq<u8>, expected: int) -> Result<Seq<u8>, InputError> {
    let digits = strip_0x(text);
    if !is_hex_text(digits) {
        Err(InputError::InvalidHex)
    } else if digits.len() != 2 * expected {
        Err(InputError::WrongLength)
    } else {
        Ok(hex_decoded(digits))
    }
}

/// The fault of a pattern, if it has one.
pub open spec fn pattern_error(pattern: Seq<u8>) -> Option<InputError> {
    if pattern.len() > MAX_PATTERN_LEN {
        Some(InputError::PatternTooLong)
    } else if !all_hex_digits(pattern) {
        Some(InputError::InvalidPattern)
    } else {
        None
    }
}

/// The first fault among the four fields of a target, in the order factory,
/// hash, prefix, suffix.
pub open spec fn target_error(
    factory: Seq<u8>,
    code_hash: Seq<u8>,
    prefix: Seq<u8>,
    suffix: Seq<u8>,
) -> Option<InputError> {
    if field_spec(factory, 20) is Err {
        Some(field_spec(factory, 20)->Err_0)
    } else if field_spec(code_hash, 32) is Err {
        Some(field_spec(code_hash, 32)->Err_0)
    } else if pattern_error(prefix) is Some {
        pattern_error(prefix)
    } else {
        pattern_error(suffix)
    }
}

/// Drops a leading `0x`.
pub fn without_0x(text: &[u8]) -> (digits: &[u8])
    ensures
        digits@ == strip_0x(text@),
{
    if text.len() >= 2 && text[0] == 48 && text[1] == 120 {
        slice_subrange(text, 2, text.len())
    } else {
        text
    }
}

/// Reads a hexadecimal field that must hold `expected` bytes.
pub fn parse_hex_field(text: &str, expected: usize) -> (result: Result<Vec<u8>, InputError>)
    ensures
        match field_spec(text.spec_bytes(), expected as int) {
            Ok(bytes) => result is Ok && result->Ok_0@ == bytes && bytes.len() == expected,
            Err(fault) => result is Err && result->Err_0 == fault,
        },
{
    let digits = without_0x(text.as_bytes());
    match hex_decode(digits) {
        None => Err(InputError::InvalidHex),
        Some(bytes) => {
            if bytes.len() != expected {
                Err(InputError::WrongLength)
            } else {
                Ok(bytes)
            }
        },
    }
}

/// Tests whether a byte is a hexadecimal digit of either case.
pub fn is_hex_digit(c: u8) -> (yes: bool)
    ensures
        yes == hex_value(c) is Some,
{
    (48 <= c && c <= 57) || (97 <= c && c <= 102) || (65 <= c && c <= 70)
}

/// Checks a pattern: at most 40 characters, each a hexadecimal digit.
pub fn validate_pattern(pattern: &str) -> (result: Result<Vec<u8>, InputError>)
    ensures
        match pattern_error(pattern.spec_bytes()) {
            Some(fault) => result is Err && result->Err_0 == fault,
            None => result is Ok && result->Ok_0@ == pattern.spec_bytes(),
        },
{
    let bytes = pattern.as_bytes();
    if bytes.len() > MAX_PATTERN_LEN {
        return Err(InputError::PatternTooLong);
    }
    let mut copy: Vec<u8> = Vec::new();
    let mut i: usize = 0;
    while i < bytes.len()
        invariant
            i <= bytes.len(),
            bytes@ == pattern.spec_bytes(),
            bytes@.len() <= MAX_PATTERN_LEN,
            copy@ == bytes@.subrange(0, i as int),
            forall|k: int| 0 <= k < i ==> (#[trigger] hex_value(bytes@[k])) is Some,
        decreases bytes.len() - i,
    {
        if !is_hex_digit(bytes[i]) {
            assert(hex_value(bytes@[i as int]) is None);
            return Err(InputError::InvalidPattern);
        }
        copy.push(bytes[i]);
        i += 1;
        assert(copy@ =~= bytes@.subrange(0, i as int));
    }
    assert(bytes@.subrange(0, bytes@.len() as int) =~= bytes@);
    Ok(copy)
}

/// Copies 20 bytes into an array.
fn to_address(bytes: &[u8]) -> (out: [u8; 20])
    requires
        bytes@.len() == 20,
    ensures
        out@ == bytes@,
{
    let mut out = [0u8; 20];
    let mut i: usize = 0;
    while i < 20
        invariant
            i <= 20,
            bytes@.len() == 20,
            forall|k: int| 0 <= k < i ==> out@[k] == bytes@[k],
        decreases 20 - i,
    {
        out[i] = bytes[i];
        i += 1;
    }
    assert(out@ =~= bytes@);
    out
}

/// Copies 32 bytes into an array.
fn to_word(bytes: &[u8]) -> (out: [u8; 32])
    requires
        bytes@.len() == 32,
    ensures
        out@ == bytes@,
{
    let mut out = [0u8; 32];
    let mut i: usize = 0;
    while i < 32
        invariant
            i <= 32,
            bytes@.len() == 32,
            forall|k: int| 0 <= k < i ==> out@[k] == bytes@[k],
        decreases 32 - i,
    {
        out[i] = bytes[i];
        i += 1;
    }
    assert(out@ =~= bytes@);
    out
}

/// Reads a target from its four fields as text. The first fault, in the
/// order factory, hash, prefix, suffix, is the error returned.
pub fn parse_target(factory: &str, code_hash: &str, prefix: &str, suffix: &str) -> (result: Result<
    SearchTarget,
    InputError,
>)
    ensures
        match target_error(
            factory.spec_bytes(),
            code_hash.spec_bytes(),
            prefix.spec_bytes(),
            suffix.spec_bytes(),
        ) {
            Some(fault) => result is Err && result->Err_0 == fault,
            None => {
                &&& result is Ok
                &&& Ok::<Seq<u8>, InputError>(result->Ok_0.factory@) == field_spec(
                    factory.spec_bytes(),
                    20,
                )
                &&& Ok::<Seq<u8>, InputError>(result->Ok_0.init_code_hash@) == field_spec(
                    code_hash.spec_bytes(),
                    32,
                )
                &&& result->Ok_0.prefix@ == prefix.spec_bytes()
                &&& result->Ok_0.suffix@ == suffix.spec_bytes()
            },
        },
{
    let factory_bytes = match parse_hex_field(factory, 20) {
        Ok(bytes) => bytes,
        Err(fault) => {
            return Err(fault);
        },
    };
    let hash_bytes = match parse_hex_field(code_hash, 32) {
        Ok(bytes) => bytes,
        Err(fault) => {
            return Err(fault);
        },
    };
    let prefix_bytes = match validate_pattern(prefix) {
        Ok(bytes) => bytes,
        Err(fault) => {
            return Err(fault);
        },
    };
    let suffix_bytes = match validate_pattern(suffix) {
        Ok(bytes) => bytes,
        Err(fault) => {
            return Err(fault);
        },
    };
    Ok(
        SearchTarget {
            factory: to_address(factory_bytes.as_slice()),
            init_code_hash: to_word(hash_bytes.as_slice()),
            prefix: prefix_bytes,
            suffix: suffix_bytes,
        },
    )
}

} // verus!
