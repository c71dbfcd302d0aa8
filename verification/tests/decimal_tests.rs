use vlan_scanner::decimal::append_decimal;
use vlan_scanner::decimal::decimal_text;
use vlan_scanner::decimal::parse_number;

#[test]
fn decimal_text_of_zero() {
    assert_eq!(decimal_text(0), "0");
}

#[test]
fn decimal_text_has_no_leading_zeros() {
    assert_eq!(decimal_text(7), "7");
    assert_eq!(decimal_text(10), "10");
    assert_eq!(decimal_text(200), "200");
    assert_eq!(decimal_text(4094), "4094");
    assert_eq!(decimal_text(1_000_000), "1000000");
}

#[test]
fn decimal_text_of_largest_number() {
    assert_eq!(decimal_text(u64::MAX), "18446744073709551615");
}

#[test]
fn decimal_text_agrees_with_std() {
    for n in [0u64, 1, 9, 10, 11, 99, 100, 101, 255, 256, 4094, 65535, 65536, 4294967295] {
        assert_eq!(decimal_text(n), n.to_string());
    }
}

#[test]
fn append_decimal_keeps_what_was_there() {
    let mut out = String::from("eth1.");
    append_decimal(&mut out, 200);
    assert_eq!(out, "eth1.200");
    append_decimal(&mut out, 0);
    assert_eq!(out, "eth1.2000");
}

#[test]
fn parse_number_reads_digits() {
    assert_eq!(parse_number("0", 10), Some(0));
    assert_eq!(parse_number("200", 4294967295), Some(200));
    assert_eq!(parse_number("4094", 65535), Some(4094));
}

#[test]
fn parse_number_accepts_one_plus_sign() {
    assert_eq!(parse_number("+5", 65535), Some(5));
    assert_eq!(parse_number("++5", 65535), None);
    assert_eq!(parse_number("+", 65535), None);
}

#[test]
fn parse_number_accepts_leading_zeros() {
    assert_eq!(parse_number("007", 65535), Some(7));
    assert_eq!(parse_number("0000000000000000000000001", 65535), Some(1));
}

#[test]
fn parse_number_rejects_what_is_no_number() {
    assert_eq!(parse_number("", 65535), None);
    assert_eq!(parse_number("-1", 65535), None);
    assert_eq!(parse_number(" 5", 65535), None);
    assert_eq!(parse_number("5 ", 65535), None);
    assert_eq!(parse_number("1_000", 65535), None);
    assert_eq!(parse_number("12a", 65535), None);
    assert_eq!(parse_number("abc", 65535), None);
    assert_eq!(parse_number("١٢", 65535), None);
}

#[test]
fn parse_number_stops_at_the_limit() {
    assert_eq!(parse_number("65535", 65535), Some(65535));
    assert_eq!(parse_number("65536", 65535), None);
    assert_eq!(parse_number("4294967295", 4294967295), Some(4294967295));
    assert_eq!(parse_number("4294967296", 4294967295), None);
    assert_eq!(parse_number("18446744073709551615", u64::MAX), Some(u64::MAX));
    assert_eq!(parse_number("18446744073709551616", u64::MAX), None);
    assert_eq!(parse_number("99999999999999999999999999", u64::MAX), None);
    assert_eq!(parse_number("1", 0), None);
    assert_eq!(parse_number("0", 0), Some(0));
}

#[test]
fn parse_number_agrees_with_std_for_u32() {
    for text in ["0", "1", "+1", "-1", "", "+", "-", "42", "042", "4294967295", "4294967296", "1e3", " 1", "1 ", "0x10", "٣"] {
        let expected = text.parse::<u32>().ok().map(|n| n as u64);
        assert_eq!(parse_number(text, u32::MAX as u64), expected, "{:?}", text);
    }
}

#[test]
fn parse_number_agrees_with_std_for_u16() {
    for text in ["0", "3", "+3", "10", "65535", "65536", "100000", "3s", "s3", "3.0", "-0"] {
        let expected = text.parse::<u16>().ok().map(|n| n as u64);
        assert_eq!(parse_number(text, u16::MAX as u64), expected, "{:?}", text);
    }
}

#[test]
fn what_is_written_is_read_back() {
    for n in [0u64, 1, 9, 10, 200, 4094, 65535, 4294967295, u64::MAX] {
        assert_eq!(parse_number(&decimal_text(n), u64::MAX), Some(n));
    }
}
