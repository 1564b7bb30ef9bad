use switchelo::text::{
    chars_of, parse_u64, starts_with, text_eq, trim_end_slashes, u64_text,
};

#[test]
fn trailing_slashes_are_trimmed() {
    assert_eq!(trim_end_slashes("http://h/"), "http://h");
    assert_eq!(trim_end_slashes("http://h///"), "http://h");
    assert_eq!(trim_end_slashes("/a/b"), "/a/b");
    assert_eq!(trim_end_slashes("\u{e9}/"), "\u{e9}");
    assert_eq!(trim_end_slashes("///"), "");
    assert_eq!(trim_end_slashes(""), "");
}

#[test]
fn numbers_are_written_in_decimal() {
    for n in [0u64, 7, 9, 10, 42, 100, 65535, 1234567890, u64::MAX] {
        assert_eq!(u64_text(n), n.to_string());
        assert_eq!(parse_u64(&u64_text(n)), Some(n));
    }
}

#[test]
fn numbers_are_read_as_the_standard_library_reads_them() {
    let texts = [
        "", "+", "-", "0", "-0", "+0", "++1", "12", "00012", "1 ", " 1", "1_000", "0x10", "1.0",
        "\u{663}", "18446744073709551615", "18446744073709551616", "99999999999999999999",
        "+18446744073709551615", "000000000000000000000000000000000000001", "1+", "a1",
    ];
    for t in texts {
        assert_eq!(parse_u64(t), t.parse::<u64>().ok(), "{}", t);
    }
}

#[test]
fn texts_are_compared_by_their_characters() {
    assert!(text_eq("", ""));
    assert!(text_eq("a\u{e9}", "a\u{e9}"));
    assert!(!text_eq("a", "ab"));
    assert!(starts_with("http://h", "http://"));
    assert!(starts_with("x", ""));
    assert!(!starts_with("http:/", "http://"));
    assert!(!starts_with("https://h", "http://"));
    assert_eq!(chars_of("a\u{e9}b"), vec!['a', '\u{e9}', 'b']);
}
