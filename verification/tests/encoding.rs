use ytdlp_recorder::encoding::decode;

#[test]
fn utf8_is_decoded() {
    assert_eq!(decode(b"").unwrap(), "");
    assert_eq!(decode(b"x = \xc3\xa9").unwrap(), "x = \u{e9}");
}

#[test]
fn errors_tell_what_those_of_std_tell() {
    for bytes in [
        &b"x\xff"[..],
        &b"\xff"[..],
        &b"ab\xe2\x82"[..],
        &b"ab\xe2\x82x"[..],
        &b"\xf0\x9f\x98 "[..],
        &b"\xed\xa0\x80"[..],
    ] {
        let error = decode(bytes).unwrap_err();
        let expected = std::str::from_utf8(bytes).unwrap_err();
        assert_eq!(error.valid_up_to, expected.valid_up_to());
        assert_eq!(format!("{:?}", error), format!("{:?}", expected));
    }
    assert_eq!(decode(b"ab\xe2\x82x").unwrap_err().error_len, Some(2));
    assert_eq!(decode(b"ab\xe2\x82").unwrap_err().error_len, None);
}

#[test]
fn the_length_of_an_error_is_that_of_the_bytes() {
    assert_eq!(decode(b"\xf0\x9f\x98 ").unwrap_err().error_len, Some(3));
    assert_eq!(decode(b"\xed\xa0\x80").unwrap_err().error_len, Some(1));
}
