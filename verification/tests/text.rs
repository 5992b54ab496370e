use image_converter::text::{chars_of, parse_unsigned, push_decimal, push_lower_hex, same_text};

fn decimal(n: u64) -> String {
    let mut out = String::new();
    push_decimal(&mut out, n);
    out
}

fn hex(n: u64) -> String {
    let mut out = String::new();
    push_lower_hex(&mut out, n);
    out
}

#[test]
fn chars_of_keeps_every_character_in_order() {
    assert_eq!(chars_of(""), Vec::<char>::new());
    assert_eq!(chars_of("a/é\u{3000}z"), vec!['a', '/', 'é', '\u{3000}', 'z']);
}

#[test]
fn same_text_compares_character_by_character() {
    assert!(same_text("", ""));
    assert!(same_text(".avif", ".avif"));
    assert!(!same_text(".avif", ".webp"));
    assert!(!same_text(".avif", ".avi"));
    assert!(!same_text(".avi", ".avif"));
}

#[test]
fn decimal_numerals_have_no_leading_zeros() {
    assert_eq!(decimal(0), "0");
    assert_eq!(decimal(7), "7");
    assert_eq!(decimal(10), "10");
    assert_eq!(decimal(3000), "3000");
    assert_eq!(decimal(65535), "65535");
    assert_eq!(decimal(u64::MAX), "18446744073709551615");
}

#[test]
fn decimal_numerals_are_appended() {
    let mut out = String::from("port ");
    push_decimal(&mut out, 8080);
    assert_eq!(out, "port 8080");
}

#[test]
fn hexadecimal_numerals_are_lower_case() {
    assert_eq!(hex(0), "0");
    assert_eq!(hex(9), "9");
    assert_eq!(hex(10), "a");
    assert_eq!(hex(255), "ff");
    assert_eq!(hex(4096), "1000");
    assert_eq!(hex(0xdead_beef), "deadbeef");
    assert_eq!(hex(u64::MAX), "ffffffffffffffff");
}

#[test]
fn hexadecimal_numerals_agree_with_the_standard_formatter() {
    for n in [1u64, 15, 16, 17, 0x1234_5678_9abc_def0, u64::MAX - 1] {
        assert_eq!(hex(n), format!("{:x}", n));
    }
}

#[test]
fn parse_unsigned_reads_digits() {
    assert_eq!(parse_unsigned("0", 10), Some(0));
    assert_eq!(parse_unsigned("3000", 65535), Some(3000));
    assert_eq!(parse_unsigned("007", 65535), Some(7));
    assert_eq!(parse_unsigned("18446744073709551615", u64::MAX), Some(u64::MAX));
}

#[test]
fn parse_unsigned_takes_one_leading_plus() {
    assert_eq!(parse_unsigned("+5", 65535), Some(5));
    assert_eq!(parse_unsigned("++5", 65535), None);
    assert_eq!(parse_unsigned("+", 65535), None);
    assert_eq!(parse_unsigned("5+", 65535), None);
}

#[test]
fn parse_unsigned_refuses_what_is_no_numeral() {
    assert_eq!(parse_unsigned("", 65535), None);
    assert_eq!(parse_unsigned("-5", 65535), None);
    assert_eq!(parse_unsigned("-0", 65535), None);
    assert_eq!(parse_unsigned(" 5", 65535), None);
    assert_eq!(parse_unsigned("5 ", 65535), None);
    assert_eq!(parse_unsigned("12a", 65535), None);
    assert_eq!(parse_unsigned("0x10", 65535), None);
    assert_eq!(parse_unsigned("1_000", 65535), None);
    assert_eq!(parse_unsigned("٣", 65535), None);
}

#[test]
fn parse_unsigned_holds_the_number_to_its_limit() {
    assert_eq!(parse_unsigned("65535", 65535), Some(65535));
    assert_eq!(parse_unsigned("65536", 65535), None);
    assert_eq!(parse_unsigned("000065536", 65535), None);
    assert_eq!(parse_unsigned("18446744073709551616", u64::MAX), None);
    assert_eq!(parse_unsigned("99999999999999999999999999", u64::MAX), None);
    assert_eq!(parse_unsigned("9", 8), None);
    assert_eq!(parse_unsigned("0", 0), Some(0));
    assert_eq!(parse_unsigned("1", 0), None);
}

#[test]
fn parse_unsigned_agrees_with_the_standard_parser() {
    for text in ["", "+", "-", "0", "+0", "-1", "42", "+42", "0042", "65535", "65536", "4 2", "4e2"] {
        assert_eq!(
            parse_unsigned(text, u16::MAX as u64),
            text.parse::<u16>().ok().map(|n| n as u64),
            "{:?}",
            text
        );
    }
}
