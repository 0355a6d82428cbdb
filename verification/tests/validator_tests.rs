use scm_dispatch::validate::{
    check_address, check_hex, check_privkey, parse_bool_str, parse_height, parse_u64_str,
    BlockHeight, HashScheme,
};

const ADDR: &str = "0x35cf9a1b5e1d2fdcfadd73bbdca980b5fb8eb657";
const KEY: &str = "3ef2627393529fed043c7dbfd9358a4ae47a88a59949b07e7631722fd6959002";

#[test]
fn address_accepts_prefixed_20_byte_hex() {
    assert!(check_address(ADDR));
}

#[test]
fn address_accepts_bare_20_byte_hex() {
    assert!(check_address("35cf9a1b5e1d2fdcfadd73bbdca980b5fb8eb657"));
}

#[test]
fn address_accepts_uppercase_prefix_and_digits() {
    assert!(check_address("0X35CF9A1B5E1D2FDCFADD73BBDCA980B5FB8EB657"));
}

#[test]
fn address_rejects_wrong_length() {
    assert!(!check_address("0x35cf9a1b5e1d2fdcfadd73bbdca980b5fb8eb6"));
    assert!(!check_address("0x35cf9a1b5e1d2fdcfadd73bbdca980b5fb8eb65700"));
    assert!(!check_address(""));
    assert!(!check_address("0x"));
}

#[test]
fn address_rejects_non_hex() {
    assert!(!check_address("0x35cf9a1b5e1d2fdcfadd73bbdca980b5fb8eb65g"));
    assert!(!check_address("zzcf9a1b5e1d2fdcfadd73bbdca980b5fb8eb657"));
}

#[test]
fn hex_accepts_any_length() {
    assert!(check_hex("0x1"));
    assert!(check_hex("0xdeadbeef"));
    assert!(check_hex("abcdef0123456789"));
    assert!(check_hex("0x60fe47b1"));
}

#[test]
fn hex_rejects_empty_and_non_hex() {
    assert!(!check_hex(""));
    assert!(!check_hex("0x"));
    assert!(!check_hex("0xzz"));
    assert!(!check_hex("hello"));
}

#[test]
fn u64_parses_exact_values() {
    assert_eq!(parse_u64_str("0"), Some(0));
    assert_eq!(parse_u64_str("1000000"), Some(1_000_000));
    assert_eq!(parse_u64_str("10000000"), Some(10_000_000));
    assert_eq!(parse_u64_str("18446744073709551615"), Some(u64::MAX));
}

#[test]
fn u64_rejects_overflow() {
    assert_eq!(parse_u64_str("18446744073709551616"), None);
    assert_eq!(parse_u64_str("99999999999999999999999"), None);
}

#[test]
fn u64_rejects_malformed() {
    assert_eq!(parse_u64_str(""), None);
    assert_eq!(parse_u64_str("-1"), None);
    assert_eq!(parse_u64_str("12a"), None);
    assert_eq!(parse_u64_str("0x10"), None);
    assert_eq!(parse_u64_str(" 1"), None);
}

#[test]
fn height_latest_and_decimal() {
    assert_eq!(parse_height("latest"), Some(BlockHeight::Latest));
    assert_eq!(parse_height("0"), Some(BlockHeight::Number(0)));
    assert_eq!(parse_height("100"), Some(BlockHeight::Number(100)));
}

#[test]
fn height_rejects_other_words() {
    assert_eq!(parse_height("earliest"), None);
    assert_eq!(parse_height("Latest"), None);
    assert_eq!(parse_height("-1"), None);
    assert_eq!(parse_height(""), None);
}

#[test]
fn bool_parses_only_literals() {
    assert_eq!(parse_bool_str("true"), Some(true));
    assert_eq!(parse_bool_str("false"), Some(false));
    assert_eq!(parse_bool_str("notaboolean"), None);
    assert_eq!(parse_bool_str("True"), None);
    assert_eq!(parse_bool_str("1"), None);
}

#[test]
fn privkey_accepts_32_byte_hex_for_both_schemes() {
    assert!(check_privkey(KEY, HashScheme::Secp256k1));
    assert!(check_privkey(KEY, HashScheme::Sm2));
    assert!(check_privkey(&format!("0x{KEY}"), HashScheme::Secp256k1));
}

#[test]
fn privkey_rejects_wrong_length_and_non_hex() {
    assert!(!check_privkey("abcd", HashScheme::Secp256k1));
    assert!(!check_privkey("", HashScheme::Secp256k1));
    assert!(!check_privkey(&KEY[..62], HashScheme::Secp256k1));
    assert!(!check_privkey(&format!("{KEY}00"), HashScheme::Sm2));
    let bad = format!("g{}", &KEY[1..]);
    assert!(!check_privkey(&bad, HashScheme::Secp256k1));
}
