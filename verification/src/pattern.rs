//! Matching of an address's hexadecimal text against a prefix and a suffix,
//! without regard to the case of letters.

use crate::hextext::{hex_encode, hex_lower, lemma_hex_lower_shape};
use vstd::prelude::*;
use vstd::string::StringSliceAdditionalSpecFns;

verus! {

/// An ASCII byte with upper-case letters turned to lower case.
pub open spec fn fold_case(c: u8) -> u8 {
    if 65 <= c <= 90 {
        (c + 32) as u8
    } else {
        c
    }
}

/// A text with every upper-case ASCII letter turned to lower case.
pub open spec fn fold_text(text: Seq<u8>) -> Seq<u8> {
    text.map_values(|c: u8| fold_case(c))
}

/// Whether `text` starts with `pattern`, letters compared without case.
pub open spec fn starts_with_folded(text: Seq<u8>, pattern: Seq<u8>) -> bool {
    &&& pattern.len() <= text.len()
    &&& forall|i: int| 0 <= i < pattern.len() ==> fold_case(text[i]) == fold_case(#[trigger] pattern[i])
}

/// Whether `text` ends with `pattern`, letters compared without case.
pub open spec fn ends_with_folded(text: Seq<u8>, pattern: Seq<u8>) -> bool {
    &&& pattern.len() <= text.len()
    &&& forall|i: int|
        0 <= i < pattern.len() ==> fold_case(text[text.len() - pattern.len() + i]) == fold_case(
            #[trigger] pattern[i],
        )
}

/// Whether the hexadecimal text of `address` starts with `prefix` and ends
/// with `suffix`. Both tests run over the whole text, so the two windows may
/// overlap.
pub open spec fn matches_spec(address: Seq<u8>, prefix: Seq<u8>, suffix: Seq<u8>) -> bool {
    starts_with_folded(hex_lower(address), prefix) && ends_with_folded(hex_lower(address), suffix)
}

/// Turns an upper-case ASCII letter to lower case and leaves other bytes.
pub fn to_lower(c: u8) -> (folded: u8)
    ensures
        folded == fold_case(c),
{
    if 65 <= c && c <= 90 {
        c + 32
    } else {
        c
    }
}

/// Tests whether `text` starts with `pattern`, letters compared without case.
pub fn starts_with_ignore_case(text: &[u8], pattern: &[u8]) -> (found: bool)
    ensures
        found == starts_with_folded(text@, pattern@),
{
    if pattern.len() > text.len() {
        return false;
    }
    let mut i: usize = 0;
    while i < pattern.len()
        invariant
            i <= pattern.len() <= text.len(),
            forall|k: int| 0 <= k < i ==> fold_case(text@[k]) == fold_case(#[trigger] pattern@[k]),
        decreases pattern.len() - i,
    {
        if to_lower(text[i]) != to_lower(pattern[i]) {
            return false;
        }
        i += 1;
    }
    true
}

/// Tests whether `text` ends with `pattern`, letters compared without case.
pub fn ends_with_ignore_case(text: &[u8], pattern: &[u8]) -> (found: bool)
    ensures
        found == ends_with_folded(text@, pattern@),
{
    if pattern.len() > text.len() {
        return false;
    }
    let shift: usize = text.len() - pattern.len();
    let mut i: usize = 0;
    while i < pattern.len()
        invariant
            i <= pattern.len() <= text.len(),
            shift == text.len() - pattern.len(),
            forall|k: int|
                0 <= k < i ==> fold_case(text@[text@.len() - pattern@.len() + k]) == fold_case(
                    #[trigger] pattern@[k],
                ),
        decreases pattern.len() - i,
    {
        if to_lower(text[shift + i]) != to_lower(pattern[i]) {
            return false;
        }
        i += 1;
    }
    true
}

/// Tests the hexadecimal text of an address against a prefix and a suffix
/// given as ASCII bytes.
pub fn matches_bytes(address: &[u8; 20], prefix: &[u8], suffix: &[u8]) -> (matched: bool)
    ensures
        matched == matches_spec(address@, prefix@, suffix@),
{
    let text = hex_encode(address.as_slice());
    starts_with_ignore_case(text.as_slice(), prefix) && ends_with_ignore_case(
        text.as_slice(),
        suffix,
    )
}

/// Tests the hexadecimal text of an address against a prefix and a suffix.
pub fn matches(address: &[u8; 20], prefix: &str, suffix: &str) -> (matched: bool)
    ensures
        matched == matches_spec(address@, prefix.spec_bytes(), suffix.spec_bytes()),
{
    matches_bytes(address, prefix.as_bytes(), suffix.as_bytes())
}

/// The text that an address is matched against has exactly 40 characters,
/// each a lower-case hexadecimal digit.
pub proof fn lemma_address_text_shape(address: Seq<u8>)
    requires
        address.len() == 20,
    ensures
        hex_lower(address).len() == 40,
        forall|i: int|
            0 <= i < 40 ==> {
                let c = #[trigger] hex_lower(address)[i];
                48 <= c <= 57 || 97 <= c <= 102
            },
{
    lemma_hex_lower_shape(address);
}

/// Empty patterns match every address.
pub proof fn lemma_empty_patterns_match(address: Seq<u8>)
    ensures
        matches_spec(address, Seq::<u8>::empty(), Seq::<u8>::empty()),
{
}

/// Matching does not depend on the case of the patterns' letters: two
/// prefixes that agree once folded, and two suffixes that do, match the same
/// addresses.
pub proof fn lemma_match_ignores_case(
    address: Seq<u8>,
    prefix_a: Seq<u8>,
    suffix_a: Seq<u8>,
    prefix_b: Seq<u8>,
    suffix_b: Seq<u8>,
)
    requires
        fold_text(prefix_a) == fold_text(prefix_b),
        fold_text(suffix_a) == fold_text(suffix_b),
    ensures
        matches_spec(address, prefix_a, suffix_a) == matches_spec(address, prefix_b, suffix_b),
{
    let text = hex_lower(address);
    lemma_folded_patterns(text, prefix_a, prefix_b);
    lemma_folded_patterns(text, suffix_a, suffix_b);
}

/// Two patterns that agree once folded are found at the same places.
pub proof fn lemma_folded_patterns(text: Seq<u8>, a: Seq<u8>, b: Seq<u8>)
    requires
        fold_text(a) == fold_text(b),
    ensures
        starts_with_folded(text, a) == starts_with_folded(text, b),
        ends_with_folded(text, a) == ends_with_folded(text, b),
{
    assert(a.len() == fold_text(a).len());
    assert(b.len() == fold_text(b).len());
    assert forall|i: int| 0 <= i < a.len() implies fold_case(#[trigger] a[i]) == fold_case(b[i]) by {
        assert(fold_text(a)[i] == fold_case(a[i]));
        assert(fold_text(b)[i] == fold_case(b[i]));
    }
    assert forall|i: int| 0 <= i < b.len() implies fold_case(a[i]) == fold_case(#[trigger] b[i]) by {
        assert(fold_text(a)[i] == fold_case(a[i]));
        assert(fold_text(b)[i] == fold_case(b[i]));
    }
}

} // verus!
