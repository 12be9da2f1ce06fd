use vanity_generator::input::{
    is_hex_digit, parse_hex_field, parse_target, validate_pattern, without_0x, InputError,
};

const FACTORY: &str = "695d6B3628B4701E7eAfC0bc511CbAF23f6003eE";
const CODE_HASH: &str = "6aee8051d42d987533b6f19aa86231baa9c99e2cb278656ea5481c83f917a693";

#[test]
fn field_decodes_both_cases() {
    assert_eq!(parse_hex_field("0aFf10", 3), Ok(vec![0x0a, 0xff, 0x10]));
    assert_eq!(parse_hex_field("", 0), Ok(vec![]));
}

#[test]
fn field_accepts_0x_prefix() {
    assert_eq!(parse_hex_field("0x0aff", 2), Ok(vec![0x0a, 0xff]));
    assert_eq!(parse_hex_field("0x", 0), Ok(vec![]));
    assert_eq!(without_0x(b"0xab"), b"ab");
    assert_eq!(without_0x(b"ab"), b"ab");
    assert_eq!(without_0x(b"0"), b"0");
    assert_eq!(without_0x(b"0Xab"), b"0Xab");
}

#[test]
fn field_rejects_non_hex_and_odd_length() {
    assert_eq!(parse_hex_field("0g", 1), Err(InputError::InvalidHex));
    assert_eq!(parse_hex_field("abc", 1), Err(InputError::InvalidHex));
    assert_eq!(parse_hex_field("0xabc", 1), Err(InputError::InvalidHex));
    assert_eq!(parse_hex_field("0X12", 1), Err(InputError::InvalidHex));
    assert_eq!(parse_hex_field("0x0x12", 1), Err(InputError::InvalidHex));
}

#[test]
fn field_rejects_wrong_length() {
    assert_eq!(parse_hex_field("abcd", 1), Err(InputError::WrongLength));
    assert_eq!(parse_hex_field("abcd", 3), Err(InputError::WrongLength));
    assert_eq!(parse_hex_field(FACTORY, 32), Err(InputError::WrongLength));
    assert_eq!(parse_hex_field(CODE_HASH, 20), Err(InputError::WrongLength));
}

#[test]
fn pattern_is_kept_as_written() {
    assert_eq!(validate_pattern("47Ea"), Ok(b"47Ea".to_vec()));
    assert_eq!(validate_pattern(""), Ok(vec![]));
    assert_eq!(validate_pattern(FACTORY), Ok(FACTORY.as_bytes().to_vec()));
}

#[test]
fn pattern_rejects_more_than_forty_characters() {
    let long = "0123456789abcdef0123456789abcdef012345678";
    assert_eq!(long.len(), 41);
    assert_eq!(validate_pattern(long), Err(InputError::PatternTooLong));
    assert_eq!(validate_pattern(&long[..40]), Ok(long.as_bytes()[..40].to_vec()));
}

#[test]
fn pattern_rejects_non_hex_characters() {
    assert_eq!(validate_pattern("0x47"), Err(InputError::InvalidPattern));
    assert_eq!(validate_pattern("4g"), Err(InputError::InvalidPattern));
    assert_eq!(validate_pattern(" "), Err(InputError::InvalidPattern));
}

#[test]
fn hex_digits_of_both_cases() {
    for c in b"0123456789abcdefABCDEF" {
        assert!(is_hex_digit(*c));
    }
    for c in b"gG/:@`xX -" {
        assert!(!is_hex_digit(*c));
    }
}

#[test]
fn target_holds_decoded_fields() {
    let target = parse_target(&format!("0x{}", FACTORY), CODE_HASH, "47", "EA91E").unwrap();
    assert_eq!(target.factory.to_vec(), hex::decode(FACTORY).unwrap());
    assert_eq!(target.init_code_hash.to_vec(), hex::decode(CODE_HASH).unwrap());
    assert_eq!(target.prefix, b"47".to_vec());
    assert_eq!(target.suffix, b"EA91E".to_vec());
}

#[test]
fn target_reports_first_fault() {
    assert_eq!(parse_target("zz", "zz", "zz", "zz").unwrap_err(), InputError::InvalidHex);
    assert_eq!(parse_target(CODE_HASH, CODE_HASH, "", "").unwrap_err(), InputError::WrongLength);
    assert_eq!(parse_target(FACTORY, FACTORY, "", "").unwrap_err(), InputError::WrongLength);
    assert_eq!(parse_target(FACTORY, "xy", "", "").unwrap_err(), InputError::InvalidHex);
    assert_eq!(parse_target(FACTORY, CODE_HASH, "0x", "").unwrap_err(), InputError::InvalidPattern);
    assert_eq!(
        parse_target(FACTORY, CODE_HASH, "", &format!("{}0", FACTORY)).unwrap_err(),
        InputError::PatternTooLong
    );
}

#[test]
fn combined_patterns_longer_than_forty_are_accepted() {
    let target = parse_target(FACTORY, CODE_HASH, &FACTORY[..30], &FACTORY[..30]);
    assert!(target.is_ok());
}
