use meh_asus::text::parse_dec_u16;
use meh_asus::text::parse_hex_u64;
use meh_asus::text::u64_to_dec;

#[test]
fn decimal_rendering() {
    assert_eq!(u64_to_dec(0), b"0".to_vec());
    assert_eq!(u64_to_dec(9), b"9".to_vec());
    assert_eq!(u64_to_dec(10), b"10".to_vec());
    assert_eq!(u64_to_dec(1114137), b"1114137".to_vec());
    assert_eq!(u64_to_dec(u64::MAX), b"18446744073709551615".to_vec());
}

#[test]
fn hex_parsing_bounds() {
    let max = b"ffffffffffffffff";
    assert_eq!(parse_hex_u64(max, 0, max.len()), Some(u64::MAX));
    let over = b"10000000000000000";
    assert_eq!(parse_hex_u64(over, 0, over.len()), None);
    assert_eq!(parse_hex_u64(b"", 0, 0), None);
    assert_eq!(parse_hex_u64(b"1A2b", 0, 4), Some(0x1a2b));
    assert_eq!(parse_hex_u64(b"+2", 0, 2), None);
    assert_eq!(parse_hex_u64(b"0x2", 0, 3), None);  // the caller strips the prefix
}

#[test]
fn dec_parsing_bounds() {
    assert_eq!(parse_dec_u16(b"65535", 0, 5), Some(65535));
    assert_eq!(parse_dec_u16(b"65536", 0, 5), None);
    assert_eq!(parse_dec_u16(b"", 0, 0), None);
    assert_eq!(parse_dec_u16(b"12 4", 0, 4), None);
}
