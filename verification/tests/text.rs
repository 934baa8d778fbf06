use ytdlp_recorder::text::{
    chars_of, contains, ends_with, last_line, parse_u32, starts_with, strip_prefix, strip_suffix,
    trim, trim_end_matches, trim_start, trim_start_matches, white_space,
};

const SAMPLES: [&str; 14] = [
    "",
    " ",
    "a",
    "abc",
    "  abc\t",
    "\u{3000}abc\u{2028} ",
    "abcabcab",
    "\u{e9}t\u{e9}",
    "+12",
    "line\r\nnext\r\n",
    "line\nnext\r",
    "\n",
    "\r\n",
    "\u{1f600}\u{1f600}x",
];

#[test]
fn white_space_is_that_of_unicode() {
    for u in 0..0x110000u32 {
        if let Some(c) = char::from_u32(u) {
            assert_eq!(white_space(c), c.is_whitespace(), "{:x}", u);
        }
    }
}

#[test]
fn text_operations_agree_with_those_of_strings() {
    for s in SAMPLES {
        assert_eq!(chars_of(s), s.chars().collect::<Vec<char>>());
        assert_eq!(trim(s), s.trim());
        assert_eq!(trim_start(s), s.trim_start());
        assert_eq!(trim_end_matches(s, 'x'), s.trim_end_matches('x'));
        assert_eq!(last_line(s), s.lines().last());
        assert_eq!(parse_u32(s), s.parse::<u32>().ok());
        for p in SAMPLES {
            assert_eq!(contains(s, p), s.contains(p));
            assert_eq!(starts_with(s, p), s.starts_with(p));
            assert_eq!(ends_with(s, p), s.ends_with(p));
            assert_eq!(strip_prefix(s, p), s.strip_prefix(p));
            assert_eq!(strip_suffix(s, p), s.strip_suffix(p).unwrap_or(s));
            if !p.is_empty() {
                assert_eq!(trim_start_matches(s, p), s.trim_start_matches(p));
            }
        }
    }
}

#[test]
fn prefixes_are_removed_again_and_again() {
    assert_eq!(trim_start_matches("abcabcab", "abc"), "ab");
    assert_eq!(trim_end_matches("name\"\"", '"'), "name");
}

#[test]
fn numbers_are_read_where_they_fit() {
    assert_eq!(parse_u32("0"), Some(0));
    assert_eq!(parse_u32("+7"), Some(7));
    assert_eq!(parse_u32("0000000000012"), Some(12));
    assert_eq!(parse_u32("4294967295"), Some(4294967295));
    assert_eq!(parse_u32("4294967296"), None);
    assert_eq!(parse_u32("99999999999999999999999999"), None);
    assert_eq!(parse_u32(""), None);
    assert_eq!(parse_u32("+"), None);
    assert_eq!(parse_u32("-1"), None);
    assert_eq!(parse_u32("1 "), None);
    assert_eq!(parse_u32("\u{661}"), None);
}

#[test]
fn the_last_line_lacks_its_end() {
    assert_eq!(last_line(""), None);
    assert_eq!(last_line("one"), Some("one"));
    assert_eq!(last_line("one\ntwo\r\n"), Some("two"));
    assert_eq!(last_line("one\n\n"), Some(""));
    assert_eq!(last_line("one\ntwo\r"), Some("two\r"));
}
