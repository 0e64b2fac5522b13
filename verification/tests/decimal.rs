use tags::decimal::{append_decimal, append_signed_decimal, decimal_text, parse_u32};

#[test]
fn decimal_text_of_numbers() {
    assert_eq!(decimal_text(0), "0");
    assert_eq!(decimal_text(7), "7");
    assert_eq!(decimal_text(10), "10");
    assert_eq!(decimal_text(1999), "1999");
    assert_eq!(decimal_text(u32::MAX), "4294967295");
}

#[test]
fn append_decimal_keeps_what_was_there() {
    let mut out = String::from("year: ");
    append_decimal(&mut out, 2024);
    assert_eq!(out, "year: 2024");
}

#[test]
fn signed_decimal_text() {
    let mut out = String::new();
    append_signed_decimal(&mut out, -1);
    assert_eq!(out, "-1");
    let mut out = String::new();
    append_signed_decimal(&mut out, 0);
    assert_eq!(out, "0");
    let mut out = String::new();
    append_signed_decimal(&mut out, i32::MIN);
    assert_eq!(out, "-2147483648");
    let mut out = String::new();
    append_signed_decimal(&mut out, i32::MAX);
    assert_eq!(out, "2147483647");
}

#[test]
fn parse_accepts_digits_and_one_plus_sign() {
    assert_eq!(parse_u32("0"), Some(0));
    assert_eq!(parse_u32("1999"), Some(1999));
    assert_eq!(parse_u32("+12"), Some(12));
    assert_eq!(parse_u32("007"), Some(7));
    assert_eq!(parse_u32("4294967295"), Some(u32::MAX));
    assert_eq!(parse_u32("0000000000004294967295"), Some(u32::MAX));
}

#[test]
fn parse_rejects_everything_else() {
    assert_eq!(parse_u32(""), None);
    assert_eq!(parse_u32("+"), None);
    assert_eq!(parse_u32("-1"), None);
    assert_eq!(parse_u32("-0"), None);
    assert_eq!(parse_u32("++1"), None);
    assert_eq!(parse_u32("12a"), None);
    assert_eq!(parse_u32(" 12"), None);
    assert_eq!(parse_u32("12 "), None);
    assert_eq!(parse_u32("1.0"), None);
    assert_eq!(parse_u32("4294967296"), None);
    assert_eq!(parse_u32("99999999999999999999999"), None);
    assert_eq!(parse_u32("\u{0663}"), None);
}

#[test]
fn parse_agrees_with_the_standard_library() {
    let samples = [
        "", "+", "-", "0", "+0", "-0", "1", "42", "+42", "-42", "0042", "4294967295", "4294967296",
        "42949672950", "1e3", "0x10", "١٢٣", " 1", "1 ", "+-1", "1+",
    ];
    for sample in samples.iter() {
        assert_eq!(parse_u32(sample), sample.parse::<u32>().ok(), "{:?}", sample);
    }
}

#[test]
fn decimal_text_parses_back() {
    for n in [0u32, 1, 9, 10, 99, 100, 12345, 4294967295] {
        assert_eq!(parse_u32(&decimal_text(n)), Some(n));
        assert_eq!(decimal_text(n), n.to_string());
    }
}
