use chain_id::text::{decimal_string, parse_decimal};

#[test]
fn decimal_string_writes_plain_numerals() {
    assert_eq!(decimal_string(0), "0");
    assert_eq!(decimal_string(7), "7");
    assert_eq!(decimal_string(10), "10");
    assert_eq!(decimal_string(1_024), "1024");
    assert_eq!(decimal_string(999_999_999), "999999999");
    assert_eq!(decimal_string(u64::MAX), "18446744073709551615");
}

#[test]
fn decimal_string_agrees_with_std() {
    let mut number: u64 = 1;
    for _ in 0..64 {
        assert_eq!(decimal_string(number), number.to_string());
        assert_eq!(decimal_string(number - 1), (number - 1).to_string());
        number = number.wrapping_mul(3).wrapping_add(1);
    }
    for number in 0..5_000u64 {
        assert_eq!(decimal_string(number), number.to_string());
    }
}

#[test]
fn parse_decimal_reads_numerals() {
    assert_eq!(parse_decimal("0"), Some(0));
    assert_eq!(parse_decimal("42"), Some(42));
    assert_eq!(parse_decimal("+42"), Some(42));
    assert_eq!(parse_decimal("007"), Some(7));
    assert_eq!(parse_decimal("18446744073709551615"), Some(u64::MAX));
    assert_eq!(parse_decimal("00018446744073709551615"), Some(u64::MAX));
}

#[test]
fn parse_decimal_rejects_everything_else() {
    assert_eq!(parse_decimal(""), None);
    assert_eq!(parse_decimal("+"), None);
    assert_eq!(parse_decimal("++1"), None);
    assert_eq!(parse_decimal("-1"), None);
    assert_eq!(parse_decimal("-0"), None);
    assert_eq!(parse_decimal("1+"), None);
    assert_eq!(parse_decimal("1 "), None);
    assert_eq!(parse_decimal(" 1"), None);
    assert_eq!(parse_decimal("1_000"), None);
    assert_eq!(parse_decimal("12a"), None);
    assert_eq!(parse_decimal("\u{661}"), None);
    assert_eq!(parse_decimal("1\u{e9}"), None);
    assert_eq!(parse_decimal("18446744073709551616"), None);
    assert_eq!(parse_decimal("18446744073709551620"), None);
    assert_eq!(parse_decimal("99999999999999999999999999"), None);
}

#[test]
fn parse_decimal_agrees_with_std() {
    let texts = [
        "", "+", "-", "0", "+0", "-0", "1", "+1", "-1", "01", "10", "1e3", "0x10", "1.0", "١",
        "18446744073709551615", "18446744073709551616", "+18446744073709551615", "184467440737095516150",
    ];
    for text in texts {
        assert_eq!(parse_decimal(text), text.parse::<u64>().ok());
    }
}

#[test]
fn numerals_round_trip() {
    for number in [0u64, 1, 9, 10, 99, 100, 12_345, 999_999_999, u64::MAX - 1, u64::MAX] {
        assert_eq!(parse_decimal(&decimal_string(number)), Some(number));
    }
}
