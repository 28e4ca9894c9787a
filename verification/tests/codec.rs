use mev_matchmaker::hex::{parse_hex_u128, parse_hex_u32, u128_to_hex, u64_to_hex};
use mev_matchmaker::text::u64_to_dec;

#[test]
fn hex_encode_zero() {
    assert_eq!(u64_to_hex(0), "0x0");
    assert_eq!(u128_to_hex(0), "0x0");
}

#[test]
fn hex_encode_examples() {
    assert_eq!(u64_to_hex(100), "0x64");
    assert_eq!(u64_to_hex(255), "0xff");
    assert_eq!(u64_to_hex(18_000_000), "0x112a880");
    assert_eq!(u64_to_hex(u64::MAX), "0xffffffffffffffff");
    assert_eq!(u128_to_hex(u128::MAX), "0xffffffffffffffffffffffffffffffff");
}

#[test]
fn hex_encode_matches_std_formatting() {
    for n in [0u64, 1, 15, 16, 255, 4096, 123_456_789, u64::MAX] {
        assert_eq!(u64_to_hex(n), format!("{:#x}", n));
    }
}

#[test]
fn hex_round_trip_u128() {
    for n in [0u128, 1, 15, 16, 255, 21_000, 18_000_000, u64::MAX as u128, u128::MAX] {
        let encoded = u128_to_hex(n);
        assert_eq!(parse_hex_u128(&encoded), Some(n));
    }
}

#[test]
fn hex_round_trip_u32() {
    for n in [0u32, 1, 100, 65_535, u32::MAX] {
        let encoded = u64_to_hex(n as u64);
        assert_eq!(parse_hex_u32(&encoded), Some(n));
    }
}

#[test]
fn hex_parse_accepts_uppercase_digits() {
    assert_eq!(parse_hex_u128("0xFF"), Some(255));
    assert_eq!(parse_hex_u128("0xDeadBeef"), Some(0xdead_beef));
}

#[test]
fn hex_parse_rejects_malformed() {
    assert_eq!(parse_hex_u128(""), None);
    assert_eq!(parse_hex_u128("0x"), None);
    assert_eq!(parse_hex_u128("ff"), None);
    assert_eq!(parse_hex_u128("0xg1"), None);
    assert_eq!(parse_hex_u128("0x12 34"), None);
    assert_eq!(parse_hex_u128("12x34"), None);
}

#[test]
fn hex_parse_rejects_out_of_range() {
    assert_eq!(parse_hex_u32("0xffffffff"), Some(u32::MAX));
    assert_eq!(parse_hex_u32("0x100000000"), None);
    assert_eq!(parse_hex_u128("0xffffffffffffffffffffffffffffffff"), Some(u128::MAX));
    assert_eq!(parse_hex_u128("0x100000000000000000000000000000000"), None);
}

#[test]
fn decimal_rendering() {
    assert_eq!(u64_to_dec(0), "0");
    assert_eq!(u64_to_dec(30), "30");
    assert_eq!(u64_to_dec(1234), "1234");
    assert_eq!(u64_to_dec(u64::MAX), u64::MAX.to_string());
}
