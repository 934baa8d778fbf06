//! Lines from the bytes that a process writes.
use vstd::prelude::*;
use vstd::utf8;

use crate::encoding::decode;

verus! {

pub const CARRIAGE_RETURN: u8 = 13;

pub const LINE_FEED: u8 = 10;

/// What came of reading one more byte.
#[derive(Debug)]
pub enum Framed {
    /// The line goes on.
    More,
    /// The line is over and holds nothing.
    Blank,
    /// The line is over.
    Line(String),
    /// The line is over and is not UTF-8.
    Invalid,
}

/// What came of a byte, with the text as a sequence of characters.
pub enum FramedView {
    More,
    Blank,
    Line(Seq<char>),
    Invalid,
}

impl View for Framed {
    type V = FramedView;

    open spec fn view(&self) -> FramedView {
        match *self {
            Framed::More => FramedView::More,
            Framed::Blank => FramedView::Blank,
            Framed::Line(text) => FramedView::Line(text@),
            Framed::Invalid => FramedView::Invalid,
        }
    }
}

/// Whether the byte ends a line.
pub open spec fn ends_line(byte: u8) -> bool {
    byte == CARRIAGE_RETURN || byte == LINE_FEED
}

/// What a line of these bytes comes to.
pub open spec fn framed(bytes: Seq<u8>) -> FramedView {
    if bytes.len() == 0 {
        FramedView::Blank
    } else if utf8::valid_utf8(bytes) {
        FramedView::Line(utf8::decode_utf8(bytes))
    } else {
        FramedView::Invalid
    }
}

/// What is pending, and what comes out, when `input` follows the pending bytes. `None`
/// stands for the end of the input, which ends a line too.
pub open spec fn feeding(pending: Seq<u8>, input: Option<u8>) -> (Seq<u8>, FramedView) {
    match input {
        Some(byte) => if ends_line(byte) {
            (Seq::empty(), framed(pending))
        } else {
            (pending.push(byte), FramedView::More)
        },
        None => (Seq::empty(), framed(pending)),
    }
}

/// Cuts a stream of bytes into lines.
#[derive(Debug)]
pub struct LineFramer {
    pending: Vec<u8>,
}

impl View for LineFramer {
    type V = Seq<u8>;

    closed spec fn view(&self) -> Seq<u8> {
        self.pending@
    }
}

impl LineFramer {
    /// A framer at the beginning of a line.
    pub fn new() -> (r: Self)
        ensures
            r@ == Seq::<u8>::empty(),
    {
        LineFramer { pending: Vec::new() }
    }

    /// Takes in one more byte, or `None` where there is none to be had.
    pub fn feed(&mut self, input: Option<u8>) -> (r: Framed)
        ensures
            (final(self)@, r@) == feeding(old(self)@, input),
    {
        if let Some(byte) = input {
            if byte != CARRIAGE_RETURN && byte != LINE_FEED {
                self.pending.push(byte);
                return Framed::More;
            }
        }
        if self.pending.len() == 0 {
            return Framed::Blank;
        }
        let line = decode(self.pending.as_slice());
        self.pending.clear();
        match line {
            Ok(text) => Framed::Line(text),
            Err(_) => Framed::Invalid,
        }
    }
}

/// What is pending, and what comes out line by line, when all of `input` follows the
/// pending bytes.
pub open spec fn feeding_all(pending: Seq<u8>, input: Seq<u8>) -> (Seq<u8>, Seq<FramedView>)
    decreases input.len(),
{
    if input.len() == 0 {
        (pending, Seq::empty())
    } else {
        let (before, lines) = feeding_all(pending, input.drop_last());
        let (after, out) = feeding(before, Some(input.last()));
        (after, if out is More { lines } else { lines.push(out) })
    }
}

/// The bytes of the lines, one after the other.
pub open spec fn bytes_of(lines: Seq<FramedView>) -> Seq<u8>
    decreases lines.len(),
{
    if lines.len() == 0 {
        Seq::empty()
    } else {
        match lines.last() {
            FramedView::Line(text) => bytes_of(lines.drop_last()) + utf8::encode_utf8(text),
            _ => bytes_of(lines.drop_last()),
        }
    }
}

/// `bytes` without those that end a line.
pub open spec fn without_line_ends(bytes: Seq<u8>) -> Seq<u8>
    decreases bytes.len(),
{
    if bytes.len() == 0 {
        Seq::empty()
    } else if ends_line(bytes.last()) {
        without_line_ends(bytes.drop_last())
    } else {
        without_line_ends(bytes.drop_last()).push(bytes.last())
    }
}

/// As long as all lines are UTF-8, no byte is lost or made up but for those that end a
/// line: the lines that came out and what is pending are what went in.
pub proof fn law_no_byte_is_lost(pending: Seq<u8>, input: Seq<u8>)
    requires
        forall|i: int|
            0 <= i < feeding_all(pending, input).1.len() ==> !(#[trigger] feeding_all(
                pending,
                input,
            ).1[i] is Invalid),
    ensures
        ({
            let (rest, lines) = feeding_all(pending, input);
            bytes_of(lines) + rest == pending + without_line_ends(input)
        }),
    decreases input.len(),
{
    if input.len() > 0 {
        let (before, lines) = feeding_all(pending, input.drop_last());
        let (after, out) = feeding(before, Some(input.last()));
        let all = feeding_all(pending, input).1;
        assert forall|i: int| 0 <= i < lines.len() implies !(#[trigger] lines[i] is Invalid) by {
            assert(all[i] == lines[i]);
        }
        law_no_byte_is_lost(pending, input.drop_last());
        if ends_line(input.last()) {
            assert(all.last() == out);
            assert(all.drop_last() =~= lines);
            if before.len() > 0 {
                utf8::decode_utf8_encode_utf8(before);
            }
            assert(bytes_of(all) + after =~= bytes_of(lines) + before);
        } else {
            assert(bytes_of(lines) + after =~= (bytes_of(lines) + before).push(input.last()));
            assert(pending + without_line_ends(input) =~= (pending + without_line_ends(
                input.drop_last(),
            )).push(input.last()));
        }
    }
}

/// Whether the character is the carriage return or the line feed.
pub open spec fn is_line_end(c: char) -> bool {
    c == '\r' || c == '\n'
}

/// The encoding of a character other than carriage return and line feed holds no byte
/// that ends a line; the encoding of these two is such a byte.
proof fn lemma_encoded_char(c: char)
    ensures
        is_line_end(c) ==> utf8::encode_scalar(c as u32).len() == 1 && ends_line(
            utf8::encode_scalar(c as u32)[0],
        ),
        !is_line_end(c) ==> forall|i: int|
            0 <= i < utf8::encode_scalar(c as u32).len() ==> !ends_line(
                #[trigger] utf8::encode_scalar(c as u32)[i],
            ),
        utf8::encode_scalar(c as u32).len() > 0,
{
    let u = c as u32;
    assert(u <= 0x7F ==> (u & 0x7F) as u8 == u) by (bit_vector);
    assert((0xC0u8 | ((u >> 6) & 0x1F) as u8) >= 0x80) by (bit_vector);
    assert((0xE0u8 | ((u >> 12) & 0x0F) as u8) >= 0x80) by (bit_vector);
    assert((0xF0u8 | ((u >> 18) & 0x7) as u8) >= 0x80) by (bit_vector);
    assert((0x80u8 | (u & 0x3F) as u8) >= 0x80) by (bit_vector);
    assert((0x80u8 | ((u >> 6) & 0x3F) as u8) >= 0x80) by (bit_vector);
    assert((0x80u8 | ((u >> 12) & 0x3F) as u8) >= 0x80) by (bit_vector);
}

/// The encoding of a text holds a byte that ends a line exactly where the text holds a
/// carriage return or a line feed.
proof fn lemma_encoded_text(text: Seq<char>)
    ensures
        (forall|i: int| 0 <= i < text.len() ==> !is_line_end(#[trigger] text[i])) <==> (forall|i: int|
            0 <= i < utf8::encode_utf8(text).len() ==> !ends_line(
                #[trigger] utf8::encode_utf8(text)[i],
            )),
        text.len() > 0 ==> utf8::encode_utf8(text).len() > 0,
    decreases text.len(),
{
    if text.len() > 0 {
        let first = utf8::encode_scalar(text[0] as u32);
        let rest = text.drop_first();
        let more = utf8::encode_utf8(rest);
        let all = utf8::encode_utf8(text);
        lemma_encoded_char(text[0]);
        lemma_encoded_text(rest);
        assert(all == first + more);
        if forall|i: int| 0 <= i < text.len() ==> !is_line_end(#[trigger] text[i]) {
            assert forall|i: int| 0 <= i < rest.len() implies !is_line_end(#[trigger] rest[i]) by {
                assert(rest[i] == text[i + 1]);
            }
            assert forall|i: int| 0 <= i < all.len() implies !ends_line(#[trigger] all[i]) by {
                if i < first.len() {
                    assert(all[i] == first[i]);
                } else {
                    assert(all[i] == more[i - first.len()]);
                }
            }
        }
        if forall|i: int| 0 <= i < all.len() ==> !ends_line(#[trigger] all[i]) {
            assert(all[0] == first[0]);
            assert forall|i: int| 0 <= i < more.len() implies !ends_line(#[trigger] more[i]) by {
                assert(more[i] == all[i + first.len()]);
            }
            assert forall|i: int| 0 <= i < text.len() implies !is_line_end(#[trigger] text[i]) by {
                if i > 0 {
                    assert(text[i] == rest[i - 1]);
                }
            }
        }
    }
}

/// Bytes without a line end are only collected.
proof fn lemma_collected(pending: Seq<u8>, input: Seq<u8>)
    requires
        forall|i: int| 0 <= i < input.len() ==> !ends_line(#[trigger] input[i]),
    ensures
        feeding_all(pending, input) == (pending + input, Seq::<FramedView>::empty()),
    decreases input.len(),
{
    if input.len() > 0 {
        let before = input.drop_last();
        assert forall|i: int| 0 <= i < before.len() implies !ends_line(#[trigger] before[i]) by {
            assert(before[i] == input[i]);
        }
        lemma_collected(pending, before);
        assert((pending + before).push(input.last()) =~= pending + input);
    } else {
        assert(pending + input =~= pending);
    }
}

/// A line that is written comes out as it was written: a text that is not empty and holds
/// neither carriage return nor line feed, encoded and followed by either of them, gives
/// this one line and leaves nothing pending.
pub proof fn law_written_line_is_read(text: Seq<char>, end: u8)
    requires
        text.len() > 0,
        forall|i: int| 0 <= i < text.len() ==> !is_line_end(#[trigger] text[i]),
        ends_line(end),
    ensures
        feeding_all(Seq::empty(), utf8::encode_utf8(text).push(end)) == (
            Seq::<u8>::empty(),
            seq![FramedView::Line(text)],
        ),
{
    let bytes = utf8::encode_utf8(text);
    lemma_encoded_text(text);
    lemma_collected(Seq::empty(), bytes);
    utf8::encode_utf8_valid_utf8(text);
    utf8::encode_utf8_decode_utf8(text);
    assert(Seq::<u8>::empty() + bytes =~= bytes);
    assert(bytes.push(end).drop_last() =~= bytes);
    assert(Seq::empty().push(FramedView::Line(text)) =~= seq![FramedView::Line(text)]);
}

/// No line that comes out is empty, and none holds a carriage return or a line feed.
pub proof fn law_lines_are_single(pending: Seq<u8>, input: Seq<u8>)
    requires
        forall|i: int| 0 <= i < pending.len() ==> !ends_line(#[trigger] pending[i]),
    ensures
        forall|i: int|
            0 <= i < feeding_all(pending, input).0.len() ==> !ends_line(
                #[trigger] feeding_all(pending, input).0[i],
            ),
        forall|k: int|
            0 <= k < feeding_all(pending, input).1.len() ==> (#[trigger] feeding_all(
                pending,
                input,
            ).1[k] matches FramedView::Line(text) ==> text.len() > 0 && forall|i: int|
                0 <= i < text.len() ==> !is_line_end(#[trigger] text[i])),
    decreases input.len(),
{
    if input.len() > 0 {
        let (before, lines) = feeding_all(pending, input.drop_last());
        let (after, out) = feeding(before, Some(input.last()));
        law_lines_are_single(pending, input.drop_last());
        if let FramedView::Line(text) = out {
            utf8::decode_utf8_encode_utf8(before);
            lemma_encoded_text(text);
            assert(utf8::encode_utf8(text) == before);
            if text.len() == 0 {
                assert(utf8::encode_utf8(text) =~= Seq::<u8>::empty());
            }
        }
        let all = feeding_all(pending, input).1;
        assert forall|k: int| 0 <= k < all.len() implies (#[trigger] all[k] matches FramedView::Line(
            text,
        ) ==> text.len() > 0 && forall|i: int|
            0 <= i < text.len() ==> !is_line_end(#[trigger] text[i])) by {
            if k < lines.len() {
                assert(all[k] == lines[k]);
            } else {
                assert(all[k] == out);
            }
        }
    }
}

/// A line may end with a carriage return, a line feed or the end of the input; a line feed
/// after a carriage return gives but a blank line more.
pub proof fn law_line_ends(pending: Seq<u8>)
    ensures
        feeding(pending, None) == feeding(pending, Some(LINE_FEED)),
        feeding(feeding(pending, Some(CARRIAGE_RETURN)).0, Some(LINE_FEED)) == (
            Seq::<u8>::empty(),
            FramedView::Blank,
        ),
        feeding(pending, Some(CARRIAGE_RETURN)) == feeding(pending, Some(LINE_FEED)),
{
}

/// A line ends with a carriage return or a line feed, and with no other byte; the end of the
/// input ends it too. Until then bytes are collected as they come. A line that is over holds
/// nothing, the text that its bytes encode, or no text, and leaves nothing behind.
pub proof fn law_bytes_become_lines(pending: Seq<u8>, byte: u8)
    ensures
        byte != 13 && byte != 10 ==> feeding(pending, Some(byte)) == (
            pending.push(byte),
            FramedView::More,
        ),
        byte == 13 || byte == 10 ==> feeding(pending, Some(byte)) == feeding(pending, None),
        feeding(pending, None).0.len() == 0,
        feeding(pending, None).1 is Blank <==> pending.len() == 0,
        feeding(pending, None).1 is Invalid <==> !utf8::valid_utf8(pending),
        feeding(pending, None).1 is Line <==> pending.len() > 0 && utf8::valid_utf8(pending),
        feeding(pending, None).1 matches FramedView::Line(text) ==> utf8::encode_utf8(text)
            == pending,
{
    if utf8::valid_utf8(pending) {
        utf8::decode_utf8_encode_utf8(pending);
    }
}

} // verus!
