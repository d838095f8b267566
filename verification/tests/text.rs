use codex_native::text::{
    blank, chars_of, concat2, concat3, concat4, concat5, concat6, contains_text, decimal_int_text,
    decimal_text, first_line, is_ascii_digit, is_whitespace, join, or_text, owned, parse_signed,
    parse_unsigned, push_line, read_unsigned, split_text, split_words, strip_prefix, text_of, to_ascii_lowercase,
    trim, trim_start,
};

const SAMPLES: [&str; 9] = [
    "",
    " ",
    "plain",
    "  two  words \n",
    "\u{a0}\u{3000}wide\u{2003}space\u{85}",
    "a,b;;c\nd,",
    "ärger\u{200b} Ünder",
    "\t\r\n\u{b}\u{c}",
    "0x1F +12 -7 MiXeD",
];

#[test]
fn white_space_and_digits_are_those_of_std() {
    for c in '\0'..=char::MAX {
        assert_eq!(is_whitespace(c), c.is_whitespace(), "{:x}", c as u32);
        assert_eq!(is_ascii_digit(c), c.is_ascii_digit());
    }
}

#[test]
fn texts_are_cut_as_std_cuts_them() {
    for text in SAMPLES {
        assert_eq!(trim(text), text.trim());
        assert_eq!(trim_start(text), text.trim_start());
        assert_eq!(blank(text), text.trim().is_empty());
        assert_eq!(split_words(text), text.split_whitespace().collect::<Vec<_>>());
        assert_eq!(
            split_text(text, &[',', ';', '\n']),
            text.split([',', ';', '\n']).collect::<Vec<_>>()
        );
        assert_eq!(split_text(text, &[]), vec![text]);
        assert_eq!(chars_of(text), text.chars().collect::<Vec<_>>());
        assert_eq!(to_ascii_lowercase(text), text.to_ascii_lowercase());
        for part in ["", " ", "a", "ä", "words", "plain!", "\u{3000}wide"] {
            assert_eq!(strip_prefix(text, part), text.strip_prefix(part));
            assert_eq!(contains_text(text, part), text.contains(part));
        }
    }
    assert_eq!(text_of(&vec!['a', 'ß', 'c'], 1, 3), "ßc");
    assert_eq!(text_of(&vec!['a'], 1, 1), "");
}

#[test]
fn texts_are_put_together() {
    assert_eq!(concat2("a", ""), "a");
    assert_eq!(concat3("a", "b", "c"), "abc");
    assert_eq!(concat4("a", "b", "c", "d"), "abcd");
    assert_eq!(concat5("a", "b", "c", "d", "e"), "abcde");
    assert_eq!(concat6("a", "b", "c", "d", "e", "f"), "abcdef");
    let mut lines = first_line("one");
    push_line(&mut lines, "two".into());
    assert_eq!(join(&lines, "\n"), "one\ntwo");
    assert_eq!(join(&vec![], ", "), "");
    assert_eq!(or_text(None, "other"), "other");
    assert_eq!(or_text(Some("text"), "other"), "text");
    assert_eq!(owned(Some("x")), Some("x".to_owned()));
    assert_eq!(owned(None), None);
}

#[test]
fn numbers_are_written_as_std_writes_them() {
    for n in [0, 7, 10, 99, 100, 12345, u64::MAX] {
        assert_eq!(decimal_text(n), n.to_string());
        assert_eq!(parse_unsigned(&decimal_text(n), u64::MAX), Some(n));
    }
    for n in [0, -1, 10, -100, i64::MIN, i64::MAX] {
        assert_eq!(decimal_int_text(n), n.to_string());
        assert_eq!(parse_signed(&decimal_int_text(n)), Some(n));
    }
}

#[test]
fn numbers_are_read_as_std_reads_them() {
    for text in [
        "", "+", "-", "0", "007", "+12", "-12", "+-1", "1 ", " 1", "1a", "٣", "18446744073709551615",
        "18446744073709551616", "9223372036854775807", "9223372036854775808",
        "-9223372036854775808", "-9223372036854775809", "99999999999999999999999", "-0",
    ] {
        assert_eq!(parse_unsigned(text, u64::MAX), text.parse::<u64>().ok(), "{text}");
        assert_eq!(parse_unsigned(text, 255), text.parse::<u8>().ok().map(u64::from), "{text}");
        assert_eq!(parse_signed(text), text.parse::<i64>().ok(), "{text}");
    }
}

#[test]
fn numbers_fail_as_std_says() {
    for text in [
        "",
        "+",
        "-",
        "-1",
        "++1",
        "x",
        "1x",
        "18446744073709551615",
        "+18446744073709551615",
        "18446744073709551616",
        "184467440737095516160",
        "18446744073709551616x",
        "1844674407370955161x6",
        "00000000000000000000000000000007",
        "\u{661}",
    ] {
        let read = read_unsigned(text, u64::MAX).map_err(|error| error.to_text().to_owned());
        assert_eq!(read, text.parse::<u64>().map_err(|error| error.to_string()), "{text:?}");
    }
}
