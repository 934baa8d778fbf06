use ytdlp_recorder::framing::{Framed, LineFramer};

/// The lines that come out of the bytes, with a mark for one that is not UTF-8.
fn lines_of(bytes: &[u8], end: bool) -> Vec<String> {
    let mut framer = LineFramer::new();
    let mut input: Vec<Option<u8>> = bytes.iter().map(|b| Some(*b)).collect();
    if end {
        input.push(None);
    }
    let mut lines = Vec::new();
    for byte in input {
        match framer.feed(byte) {
            Framed::More | Framed::Blank => (),
            Framed::Line(line) => lines.push(line),
            Framed::Invalid => lines.push("INVALID".to_string()),
        }
    }
    lines
}

#[test]
fn carriage_returns_and_line_feeds_end_lines() {
    assert_eq!(lines_of(b"one\ntwo\rthree\r\nfour\n", false), ["one", "two", "three", "four"]);
}

#[test]
fn blank_lines_are_left_out() {
    assert_eq!(lines_of(b"\n\r\n\na\n\n", true), ["a"]);
}

#[test]
fn a_line_without_an_end_waits_for_the_end_of_the_input() {
    assert_eq!(lines_of(b"a\nrest", false), ["a"]);
    assert_eq!(lines_of(b"a\nrest", true), ["a", "rest"]);
}

#[test]
fn written_lines_are_read() {
    for text in ["x", "\u{e9}t\u{e9} \u{1f600}", "a b [c]"] {
        assert_eq!(lines_of(format!("{}\n", text).as_bytes(), false), [text]);
    }
}

#[test]
fn lines_that_are_not_utf8_are_invalid() {
    assert_eq!(lines_of(b"ok\n\xff\xfe\nmore\n", false), ["ok", "INVALID", "more"]);
    assert_eq!(lines_of(b"\xc3\n\xa9\n", false), ["INVALID", "INVALID"]);
}

#[test]
fn the_kinds_of_bytes() {
    let mut framer = LineFramer::new();
    assert!(matches!(framer.feed(None), Framed::Blank));
    assert!(matches!(framer.feed(Some(b'a')), Framed::More));
    assert!(matches!(framer.feed(Some(b'\r')), Framed::Line(_)));
    assert!(matches!(framer.feed(Some(b'\n')), Framed::Blank));
}
