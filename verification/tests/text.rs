use tktkgo_app::text::{
    characters, decimal_i64, decimal_u64, is_blank, is_whitespace, join, parse_i64, str_eq, trim,
    trim_trailing_slashes, without_whitespace,
};

#[test]
fn white_space_is_that_of_unicode() {
    for n in 0..=0x10FFFFu32 {
        if let Some(c) = char::from_u32(n) {
            assert_eq!(is_whitespace(c), c.is_whitespace(), "U+{n:04X}");
        }
    }
}

#[test]
fn trim_takes_white_space_from_both_ends() {
    for text in ["", " ", "a", "  a b\t", "\u{3000}标题\u{2003}", "\n\r\u{85}x", "x\u{200b}"] {
        assert_eq!(trim(text), text.trim());
    }
    assert_eq!(trim(" a "), "a");
}

#[test]
fn blank_text_trims_to_nothing() {
    for text in ["", " ", "\u{3000}\t", " a", "。"] {
        assert_eq!(is_blank(text), trim(text).is_empty());
    }
}

#[test]
fn slashes_are_trimmed_at_the_end_only() {
    assert_eq!(trim_trailing_slashes("http://a/b//"), "http://a/b");
    assert_eq!(trim_trailing_slashes("/a"), "/a");
    assert_eq!(trim_trailing_slashes("///"), "");
    assert_eq!(trim_trailing_slashes(""), "");
}

#[test]
fn white_space_is_dropped_everywhere() {
    assert_eq!(without_whitespace(" 你 好\n，\t世界　"), "你好，世界");
}

#[test]
fn parts_are_joined_with_a_separator() {
    let parts = vec!["a".to_owned(), "b".to_owned(), "c".to_owned()];
    assert_eq!(join(&parts, ", "), "a, b, c");
    assert_eq!(join(&vec!["a".to_owned()], "；"), "a");
    assert_eq!(join(&Vec::new(), "；"), "");
}

#[test]
fn integers_are_written_in_decimal() {
    for n in [0i64, 7, 10, 305, -1, -120, i64::MAX, i64::MIN] {
        assert_eq!(decimal_i64(n), n.to_string());
    }
    for n in [0u64, 9, 10, 100, u64::MAX] {
        assert_eq!(decimal_u64(n), n.to_string());
    }
}

#[test]
fn integers_are_parsed_like_std_does() {
    for text in [
        "0", "12", "-12", "+7", "", "+", "-", "1a", " 1", "1 ", "007", "９",
        "9223372036854775807", "9223372036854775808", "-9223372036854775808",
        "-9223372036854775809", "99999999999999999999999", "--1", "+-1",
    ] {
        assert_eq!(parse_i64(text), text.parse::<i64>().ok(), "{text:?}");
    }
}

#[test]
fn a_decimal_is_read_back() {
    for n in [0i64, -1, 42, i64::MIN, i64::MAX] {
        assert_eq!(parse_i64(&decimal_i64(n)), Some(n));
    }
}

#[test]
fn texts_are_compared_by_their_characters() {
    assert!(str_eq("字幕", "字幕"));
    assert!(!str_eq("字幕", "字"));
    assert!(!str_eq("a", "b"));
    assert_eq!(characters("a字"), vec!['a', '字']);
}
