use blog_api::number::{decimal, parse_i32};

#[test]
fn parse_i32_reads_plain_and_signed_numbers() {
    assert_eq!(parse_i32("0"), Some(0));
    assert_eq!(parse_i32("42"), Some(42));
    assert_eq!(parse_i32("+42"), Some(42));
    assert_eq!(parse_i32("-42"), Some(-42));
    assert_eq!(parse_i32("007"), Some(7));
    assert_eq!(parse_i32("-0"), Some(0));
}

#[test]
fn parse_i32_reads_the_ends_of_the_range() {
    assert_eq!(parse_i32("2147483647"), Some(i32::MAX));
    assert_eq!(parse_i32("-2147483648"), Some(i32::MIN));
    assert_eq!(parse_i32("2147483648"), None);
    assert_eq!(parse_i32("-2147483649"), None);
    assert_eq!(parse_i32("99999999999999999999999999"), None);
    assert_eq!(parse_i32("000000000000000000000000001"), Some(1));
}

#[test]
fn parse_i32_rejects_everything_else() {
    for text in ["", "+", "-", "1a", "a1", " 1", "1 ", "1_000", "--1", "+-1", "1.0", "0x10", "\u{661}"] {
        assert_eq!(parse_i32(text), None, "{:?}", text);
    }
}

#[test]
fn parse_i32_reads_as_the_standard_library_does() {
    let samples = [
        "", "0", "-0", "+0", "12", "-12", "+12", "2147483647", "2147483648", "-2147483648",
        "-2147483649", "abc", "1e3", "\u{663}", " 7", "7\n", "+", "-", "00", "-00012",
    ];
    for text in samples {
        assert_eq!(parse_i32(text), text.parse::<i32>().ok(), "{:?}", text);
    }
}

#[test]
fn decimal_writes_digits_and_sign() {
    assert_eq!(decimal(0), "0");
    assert_eq!(decimal(7), "7");
    assert_eq!(decimal(10), "10");
    assert_eq!(decimal(-1), "-1");
    assert_eq!(decimal(1234567890), "1234567890");
    assert_eq!(decimal(i64::MAX), "9223372036854775807");
    assert_eq!(decimal(i64::MIN), "-9223372036854775808");
}

#[test]
fn decimal_writes_as_the_standard_library_does() {
    for n in [0i64, 1, -1, 9, 10, 11, 99, 100, -100, 65535, -65536, i64::MAX, i64::MIN] {
        assert_eq!(decimal(n), format!("{}", n));
    }
}

#[test]
fn parse_i32_reads_back_what_decimal_writes() {
    for n in [0i32, 1, -1, 10, -10, 12345, i32::MAX, i32::MIN] {
        assert_eq!(parse_i32(&decimal(n as i64)), Some(n));
    }
}
