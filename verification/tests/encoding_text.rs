use chain_core::encoding::{bytes_clone, bytes_eq, from_hex, parse_u64, str_eq, to_hex, u64_to_string};

#[test]
fn hex_encode_bytes() {
    assert_eq!(to_hex(&[]), "");
    assert_eq!(to_hex(&[0x00, 0xff, 0x1a]), "00ff1a");
    assert_eq!(to_hex(&[0xde, 0xad, 0xbe, 0xef]), "deadbeef");
}

#[test]
fn hex_decode_cases() {
    assert_eq!(from_hex("00ff1a"), Some(vec![0x00, 0xff, 0x1a]));
    // Case-insensitive.
    assert_eq!(from_hex("DEadBEef"), Some(vec![0xde, 0xad, 0xbe, 0xef]));
    assert_eq!(from_hex(""), Some(vec![]));
    // Odd length is refused.
    assert_eq!(from_hex("abc"), None);
    // A non-hex character is refused.
    assert_eq!(from_hex("zz"), None);
    assert_eq!(from_hex("éé"), None);
}

#[test]
fn hex_round_trip_concrete() {
    let bytes = vec![3u8, 145, 0, 255, 77];
    assert_eq!(from_hex(&to_hex(&bytes)), Some(bytes));
}

#[test]
fn parse_u64_cases() {
    assert_eq!(parse_u64("0"), Some(0));
    assert_eq!(parse_u64("42"), Some(42));
    assert_eq!(parse_u64("+42"), Some(42));
    assert_eq!(parse_u64("18446744073709551615"), Some(u64::MAX));
    // One past the maximum overflows.
    assert_eq!(parse_u64("18446744073709551616"), None);
    assert_eq!(parse_u64(""), None);
    assert_eq!(parse_u64("+"), None);
    assert_eq!(parse_u64("-1"), None);
    assert_eq!(parse_u64("12a"), None);
    assert_eq!(parse_u64("4 2"), None);
}

#[test]
fn decimal_rendering() {
    assert_eq!(u64_to_string(0), "0");
    assert_eq!(u64_to_string(7), "7");
    assert_eq!(u64_to_string(1440), "1440");
    assert_eq!(u64_to_string(u64::MAX), "18446744073709551615");
}

#[test]
fn byte_helpers() {
    assert!(bytes_eq(&[1, 2, 3], &[1, 2, 3]));
    assert!(!bytes_eq(&[1, 2, 3], &[1, 2, 4]));
    assert!(!bytes_eq(&[1, 2], &[1, 2, 3]));
    assert_eq!(bytes_clone(&[9, 8]), vec![9, 8]);
    assert!(str_eq("compact", "compact"));
    assert!(!str_eq("compact", "Compact"));
}

#[test]
fn hash_from_vec_pads_and_truncates() {
    let short = chain_core::hash::Hash::from_vec(&vec![0xab, 0xcd]);
    assert_eq!(short.to_hex(), format!("abcd{}", "00".repeat(30)));
    let mut long = vec![0x11u8; 40];
    long[32] = 0x99;
    let h = chain_core::hash::Hash::from_vec(&long);
    assert_eq!(h.to_hex(), "11".repeat(32));
    let same = chain_core::hash::Hash::from_vec(&vec![0x11u8; 32]);
    assert!(h == same);
    assert!(short != same);
    let copy = h.clone();
    assert!(copy == h);
    assert_eq!(chain_core::hash::Hash::zero().to_hex(), "00".repeat(32));
}
