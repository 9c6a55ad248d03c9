use kino::text::{decimal_string, parse, push_decimal, push_decimal_padded, trim};

#[test]
fn numbers_are_written_in_decimal() {
    assert_eq!(decimal_string(0), "0");
    assert_eq!(decimal_string(7), "7");
    assert_eq!(decimal_string(10), "10");
    assert_eq!(decimal_string(1671316859), "1671316859");
    assert_eq!(decimal_string(u64::MAX), "18446744073709551615");
    for n in (0..100_000u64).step_by(37) {
        assert_eq!(decimal_string(n), n.to_string());
    }
}

#[test]
fn numbers_are_appended() {
    let mut text = String::from("n = ");
    push_decimal(&mut text, 42);
    assert_eq!(text, "n = 42");
    push_decimal_padded(&mut text, 7);
    assert_eq!(text, "n = 4207");
    push_decimal_padded(&mut text, 0);
    push_decimal_padded(&mut text, 10);
    push_decimal_padded(&mut text, 123);
    assert_eq!(text, "n = 42070010123");
}

#[test]
fn trim_takes_white_space_from_both_ends() {
    assert_eq!(trim("  42 "), "42");
    assert_eq!(trim("42"), "42");
    assert_eq!(trim(""), "");
    assert_eq!(trim(" \t\r\n"), "");
    assert_eq!(trim("\u{a0}a b\u{3000}"), "a b");
    assert_eq!(trim(" \u{e9}t\u{e9} "), "\u{e9}t\u{e9}");
    assert_eq!(trim("\u{200b}x"), "\u{200b}x");
    let samples = [
        "", " ", "a", " a", "a ", "  a  b  ", "\u{85}x\u{1680}", "\u{2000}\u{200a}y\u{2028}",
        "\u{2029}\u{202f}\u{205f}z", "\u{b}\u{c}w", "\u{1f600} ",
    ];
    for sample in samples {
        assert_eq!(trim(sample), sample.trim());
    }
}

#[test]
fn parse_reads_numbers_up_to_the_limit() {
    assert_eq!(parse("0", 10), Some(0));
    assert_eq!(parse("10", 10), Some(10));
    assert_eq!(parse("11", 10), None);
    assert_eq!(parse("007", 10), Some(7));
    assert_eq!(parse("+7", 10), Some(7));
    assert_eq!(parse("4294967295", u32::MAX as u64), Some(4294967295));
    assert_eq!(parse("4294967296", u32::MAX as u64), None);
    assert_eq!(parse("18446744073709551615", u64::MAX), Some(u64::MAX));
    assert_eq!(parse("18446744073709551616", u64::MAX), None);
    assert_eq!(parse("99999999999999999999999", u64::MAX), None);
    assert_eq!(parse("0", 0), Some(0));
    assert_eq!(parse("1", 0), None);
}

#[test]
fn parse_rejects_what_is_no_number() {
    for text in ["", "+", "-1", "-0", "1 ", " 1", "1.5", "a", "1a", "++1", "1+", "\u{661}"] {
        assert_eq!(parse(text, u64::MAX), None, "{text:?}");
    }
}

#[test]
fn parse_agrees_with_the_standard_library() {
    let samples = [
        "0", "65535", "65536", "+65535", "+", "", "12a", "000065535", "99999", "-5", "4 2",
    ];
    for sample in samples {
        let expected = sample.parse::<u16>().ok().map(u64::from);
        assert_eq!(parse(sample, u16::MAX as u64), expected, "{sample:?}");
    }
}
