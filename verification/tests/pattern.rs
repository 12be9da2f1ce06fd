use vanity_generator::hextext::to_hex;
use vanity_generator::pattern;
use vanity_generator::pattern::{
    ends_with_ignore_case, matches_bytes, starts_with_ignore_case, to_lower,
};

fn sample() -> [u8; 20] {
    let bytes = hex::decode("ab4a2a4c3a6fba51f3c9d28b3c60589d2b8bb4cd").unwrap();
    let mut address = [0u8; 20];
    address.copy_from_slice(&bytes);
    address
}

#[test]
fn empty_patterns_match_every_address() {
    assert!(pattern::matches(&sample(), "", ""));
    assert!(pattern::matches(&[0u8; 20], "", ""));
    assert!(pattern::matches(&[0xffu8; 20], "", ""));
}

#[test]
fn matching_ignores_case() {
    assert!(pattern::matches(&sample(), "ab", "cd"));
    assert!(pattern::matches(&sample(), "AB", "CD"));
    assert!(pattern::matches(&sample(), "aB", "Cd"));
    let other = [0x12u8; 20];
    assert_eq!(pattern::matches(&other, "ab", "cd"), pattern::matches(&other, "AB", "CD"));
    assert!(!pattern::matches(&other, "AB", "CD"));
}

#[test]
fn prefix_and_suffix_are_both_required() {
    assert!(pattern::matches(&sample(), "ab4a", ""));
    assert!(pattern::matches(&sample(), "", "b4cd"));
    assert!(!pattern::matches(&sample(), "ab4b", ""));
    assert!(!pattern::matches(&sample(), "", "b4ce"));
    assert!(!pattern::matches(&sample(), "ab", "ce"));
    assert!(!pattern::matches(&sample(), "ac", "cd"));
}

#[test]
fn text_has_forty_characters() {
    let full = "ab4a2a4c3a6fba51f3c9d28b3c60589d2b8bb4cd";
    assert!(pattern::matches(&sample(), full, ""));
    assert!(pattern::matches(&sample(), "", full));
    let longer = "ab4a2a4c3a6fba51f3c9d28b3c60589d2b8bb4cd0";
    assert!(!pattern::matches(&sample(), longer, ""));
    assert!(!pattern::matches(&sample(), "", longer));
    assert_eq!(to_hex(&sample()).len(), 40);
}

#[test]
fn overlapping_windows_are_tested_independently() {
    let full = "AB4A2A4C3A6FBA51F3C9D28B3C60589D2B8BB4CD";
    assert!(pattern::matches(&sample(), full, full));
    assert!(pattern::matches(&sample(), &full[..30], &full[10..]));
    assert!(!pattern::matches(&sample(), &full[..30], &full[..30]));
}

#[test]
fn odd_length_patterns_match_half_bytes() {
    assert!(pattern::matches(&sample(), "a", "d"));
    assert!(pattern::matches(&sample(), "ab4", "4cd"));
    assert!(!pattern::matches(&sample(), "b", "d"));
}

#[test]
fn non_hex_pattern_never_matches() {
    assert!(!pattern::matches(&sample(), "zz", ""));
    assert!(!pattern::matches(&sample(), "", "\u{e9}"));
}

#[test]
fn byte_patterns_agree_with_text_patterns() {
    assert!(matches_bytes(&sample(), b"AB4a", b"cD"));
    assert!(!matches_bytes(&sample(), b"AB4a", b"cc"));
}

#[test]
fn hex_text_is_lower_case_high_digit_first() {
    assert_eq!(to_hex(&[0x00, 0x0f, 0xab, 0xf0, 0xff, 0x19]), b"000fabf0ff19".to_vec());
    assert_eq!(to_hex(&[]), Vec::<u8>::new());
}

#[test]
fn folding_touches_upper_case_letters_only() {
    assert_eq!(to_lower(b'A'), b'a');
    assert_eq!(to_lower(b'Z'), b'z');
    assert_eq!(to_lower(b'a'), b'a');
    assert_eq!(to_lower(b'0'), b'0');
    assert_eq!(to_lower(b'@'), b'@');
    assert_eq!(to_lower(b'['), b'[');
    assert_eq!(to_lower(0xc1), 0xc1);
}

#[test]
fn starts_and_ends_without_case() {
    assert!(starts_with_ignore_case(b"deadBEEF", b"DEAD"));
    assert!(!starts_with_ignore_case(b"deadBEEF", b"BEEF"));
    assert!(ends_with_ignore_case(b"deadBEEF", b"beef"));
    assert!(!ends_with_ignore_case(b"deadBEEF", b"dead"));
    assert!(starts_with_ignore_case(b"", b""));
    assert!(!ends_with_ignore_case(b"ab", b"cab"));
}
