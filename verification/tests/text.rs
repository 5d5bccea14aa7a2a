use service_core::text::{parse_unsigned, render_decimal, split_commas};

#[test]
fn parse_unsigned_reads_plain_digits() {
    assert_eq!(parse_unsigned("0", u64::MAX), Some(0));
    assert_eq!(parse_unsigned("42", u64::MAX), Some(42));
    assert_eq!(parse_unsigned("007", u64::MAX), Some(7));
    assert_eq!(parse_unsigned("18446744073709551615", u64::MAX), Some(u64::MAX));
}

#[test]
fn parse_unsigned_takes_a_leading_plus() {
    assert_eq!(parse_unsigned("+5", u64::MAX), Some(5));
    assert_eq!(parse_unsigned("+", u64::MAX), None);
    assert_eq!(parse_unsigned("++5", u64::MAX), None);
    assert_eq!(parse_unsigned("5+", u64::MAX), None);
}

#[test]
fn parse_unsigned_refuses_what_is_not_a_number() {
    for text in ["", " 1", "1 ", "-1", "-0", "1_000", "0x10", "1.0", "abc", "１２", "1e3", "\u{663}"] {
        assert_eq!(parse_unsigned(text, u64::MAX), None, "{:?}", text);
    }
}

#[test]
fn parse_unsigned_refuses_numbers_above_the_bound() {
    assert_eq!(parse_unsigned("18446744073709551616", u64::MAX), None);
    assert_eq!(parse_unsigned("99999999999999999999999", u64::MAX), None);
    assert_eq!(parse_unsigned("4294967295", 4294967295), Some(4294967295));
    assert_eq!(parse_unsigned("4294967296", 4294967295), None);
    assert_eq!(parse_unsigned("5", 4), None);
    assert_eq!(parse_unsigned("4", 4), Some(4));
    assert_eq!(parse_unsigned("0", 0), Some(0));
    assert_eq!(parse_unsigned("1", 0), None);
}

#[test]
fn parse_unsigned_agrees_with_the_standard_parser() {
    let samples = [
        "", "+", "-", "0", "+0", "-0", "00", "1", "12", "+12", "-12", "12a", "a12", " 12", "12 ",
        "4294967295", "4294967296", "18446744073709551615", "18446744073709551616", "٣", "1_0",
        "+-1", "0000000000000000000000001", "9223372036854775808",
    ];
    for text in samples {
        assert_eq!(parse_unsigned(text, u64::MAX), text.parse::<u64>().ok(), "{:?}", text);
        assert_eq!(
            parse_unsigned(text, u32::MAX as u64),
            text.parse::<u32>().ok().map(|v| v as u64),
            "{:?}",
            text
        );
    }
}

#[test]
fn render_decimal_writes_digits_without_leading_zeros() {
    assert_eq!(render_decimal(0), "0");
    assert_eq!(render_decimal(7), "7");
    assert_eq!(render_decimal(10), "10");
    assert_eq!(render_decimal(404), "404");
    assert_eq!(render_decimal(65535), "65535");
    assert_eq!(render_decimal(u64::MAX), "18446744073709551615");
}

#[test]
fn render_decimal_reads_back_as_the_same_number() {
    for n in [0u64, 1, 9, 10, 99, 100, 500, 999, 1000, 123456789, u64::MAX] {
        assert_eq!(render_decimal(n), n.to_string());
        assert_eq!(parse_unsigned(&render_decimal(n), u64::MAX), Some(n));
    }
}

#[test]
fn split_commas_cuts_at_every_comma() {
    assert_eq!(split_commas("a,b,c"), vec!["a", "b", "c"]);
    assert_eq!(split_commas("https://a.example,https://b.example"), vec![
        "https://a.example",
        "https://b.example"
    ]);
    assert_eq!(split_commas("single"), vec!["single"]);
}

#[test]
fn split_commas_keeps_empty_pieces() {
    assert_eq!(split_commas(""), vec![""]);
    assert_eq!(split_commas(","), vec!["", ""]);
    assert_eq!(split_commas("a,,b"), vec!["a", "", "b"]);
    assert_eq!(split_commas(",a,"), vec!["", "a", ""]);
}

#[test]
fn split_commas_agrees_with_the_standard_split() {
    for text in ["", ",", ",,", "a", "a,b", "a,,b,", "é,ü,日本語", " a , b ", "x,y,z,w,,,"] {
        let expected: Vec<String> = text.split(',').map(String::from).collect();
        assert_eq!(split_commas(text), expected, "{:?}", text);
        assert_eq!(split_commas(text).join(","), text);
    }
}
