use grabby::utils::{decimal_string, format_number};

#[test]
fn test_format_number() {
    assert_eq!(format_number(0), "0");
    assert_eq!(format_number(100), "100");
    assert_eq!(format_number(1000), "1,000");
    assert_eq!(format_number(10000), "10,000");
    assert_eq!(format_number(100000), "100,000");
    assert_eq!(format_number(1000000), "1,000,000");
    assert_eq!(format_number(1234567890), "1,234,567,890");
}

#[test]
fn test_mpeg_ts_magic_bytes() {
    assert_eq!([0x47, 0x40], [0x47, 0x40]);
}

#[test]
fn format_number_largest_value() {
    assert_eq!(format_number(u64::MAX), "18,446,744,073,709,551,615");
}

#[test]
fn decimal_string_writes_digits() {
    assert_eq!(decimal_string(0), "0");
    assert_eq!(decimal_string(907), "907");
}
