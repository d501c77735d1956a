//! Tests for the shared byte-level helpers.
use bittorrent_starter_rust::byteops::{
    ascii_to_string, push_u32_be, push_u64_dec, read_u32_be, utf8_to_string,
};

#[test]
fn u32_big_endian_round_trip() {
    let mut out = Vec::new();
    push_u32_be(&mut out, 0x0102_03FF);
    assert_eq!(out, vec![0x01, 0x02, 0x03, 0xFF]);
    assert_eq!(read_u32_be(&out, 0), 0x0102_03FF);
}

#[test]
fn u32_read_honours_offset() {
    let bytes = [9u8, 0, 0, 0, 7];
    assert_eq!(read_u32_be(&bytes, 1), 7);
}

#[test]
fn decimal_digits_are_exact() {
    let mut out = Vec::new();
    push_u64_dec(&mut out, 0);
    assert_eq!(out, b"0".to_vec());
    let mut out = Vec::new();
    push_u64_dec(&mut out, 12345);
    assert_eq!(out, b"12345".to_vec());
    let mut out = Vec::new();
    push_u64_dec(&mut out, u64::MAX);
    assert_eq!(out, b"18446744073709551615".to_vec());
}

#[test]
fn utf8_conversion_accepts_valid_bytes() {
    let s = utf8_to_string(b"p\xC3\xA9er".to_vec()).unwrap();
    assert_eq!(s, "p\u{e9}er");
}

#[test]
fn utf8_conversion_rejects_invalid_bytes() {
    assert!(utf8_to_string(vec![0xFF, 0xFE]).is_none());
}

#[test]
fn ascii_conversion_maps_bytes_to_chars() {
    assert_eq!(ascii_to_string(&b"abc 123".to_vec()), "abc 123");
}
