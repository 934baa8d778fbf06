//! The regular expressions for yt-dlp's output, and their matching by the `regex` crate.
//! A pattern is compiled anew for each text that it is matched against.
use vstd::prelude::*;

use crate::text;

verus! {

/// Terminal escape sequences.
pub const ANSI_PATTERN: &'static str =
    r"[\u001B\u009B][[\\]()#;?]*(?:(?:(?:[a-zA-Z\\d]*(?:;[a-zA-Z\\d]*)*)?\u0007)|(?:(?:\\d{1,4}(?:;\\d{0,4})*)?[\\dA-PRZcf-ntqry=><~]))";

/// The count of fragments downloaded and their size.
pub const FRAGMENT_PATTERN: &'static str = r"\[download\] (\d+) fragments? downloaded \(([^)]+)\)";

/// The progress of one of several concurrent downloads: the size so far.
pub const PROGRESS_PATTERN: &'static str = r"^\d+: \[download\]\s+([\d.]+\S+) at";

/// The time at which a stream is expected to start.
pub const WAITING_TIME_PATTERN: &'static str = r"expected start time is (\S+)";

/// The formats that were chosen.
pub const FORMAT_PATTERN: &'static str = r"\[info\] \S+: Downloading \d+ format\(s\): (.+)";

/// The patterns with capture groups.
pub open spec fn is_line_pattern(pattern: Seq<char>) -> bool {
    ||| pattern == FRAGMENT_PATTERN@
    ||| pattern == PROGRESS_PATTERN@
    ||| pattern == WAITING_TIME_PATTERN@
    ||| pattern == FORMAT_PATTERN@
}

/// Whether `c` is one of the characters that a match of `ANSI_PATTERN` begins with.
pub open spec fn opens_escape(c: char) -> bool {
    c == '\u{1B}' || c == '\u{9B}'
}

/// Whether no escape sequence can begin in `line`.
pub open spec fn is_escape_free(line: Seq<char>) -> bool {
    forall|i: int| 0 <= i < line.len() ==> !opens_escape(#[trigger] line[i])
}

/// The characters of `s` at the positions where `keep` is true, in their order.
pub open spec fn kept(s: Seq<char>, keep: Seq<bool>) -> Seq<char>
    recommends
        keep.len() == s.len(),
    decreases s.len(),
{
    if s.len() == 0 {
        Seq::empty()
    } else if keep.last() {
        kept(s.drop_last(), keep.drop_last()).push(s.last())
    } else {
        kept(s.drop_last(), keep.drop_last())
    }
}

/// Whether each stretch of `s` that `keep` leaves out begins with a character that opens
/// an escape sequence.
pub open spec fn leaves_out_escapes(s: Seq<char>, keep: Seq<bool>) -> bool {
    &&& keep.len() == s.len()
    &&& forall|i: int|
        0 <= i < s.len() && !(#[trigger] keep[i]) && (i == 0 || keep[i - 1]) ==> opens_escape(s[i])
}

/// Whether `stripped` is `s` with nothing but stretches deleted that begin with a character
/// that opens an escape sequence.
pub open spec fn is_stripped(s: Seq<char>, stripped: Seq<char>) -> bool {
    exists|keep: Seq<bool>| #[trigger] leaves_out_escapes(s, keep) && kept(s, keep) == stripped
}

/// `keep`, with everything left out from position `p` on.
spec fn cut_at(keep: Seq<bool>, p: int) -> Seq<bool> {
    Seq::new(keep.len(), |i: int| i < p && keep[i])
}

/// The first `n` of the characters that are kept are those kept before some position,
/// where the next of them stands, if there is one.
proof fn lemma_kept_before(s: Seq<char>, keep: Seq<bool>, n: int) -> (p: int)
    requires
        keep.len() == s.len(),
        0 <= n <= kept(s, keep).len(),
    ensures
        0 <= p <= s.len(),
        kept(s, cut_at(keep, p)) == kept(s, keep).take(n),
        n < kept(s, keep).len() ==> p < s.len() && keep[p] && s[p] == kept(s, keep)[n],
    decreases s.len(),
{
    let all = kept(s, keep);
    if n == all.len() {
        assert(cut_at(keep, s.len() as int) =~= keep);
        assert(all.take(n) =~= all);
        s.len() as int
    } else {
        let before = kept(s.drop_last(), keep.drop_last());
        if n == before.len() {
            let p = s.len() - 1;
            assert(cut_at(keep, p).drop_last() =~= keep.drop_last());
            assert(all.take(n) =~= before);
            p
        } else {
            let p = lemma_kept_before(s.drop_last(), keep.drop_last(), n);
            assert(cut_at(keep, p).drop_last() =~= cut_at(keep.drop_last(), p));
            assert(all.take(n) =~= before.take(n));
            p
        }
    }
}

/// What is stripped stays so without its end, where that begins with a character that
/// opens an escape sequence.
pub proof fn lemma_stripped_without_end(s: Seq<char>, stripped: Seq<char>, n: int)
    requires
        is_stripped(s, stripped),
        0 <= n < stripped.len(),
        opens_escape(stripped[n]),
    ensures
        is_stripped(s, stripped.take(n)),
{
    let keep = choose|keep: Seq<bool>| #[trigger]
        leaves_out_escapes(s, keep) && kept(s, keep) == stripped;
    let p = lemma_kept_before(s, keep, n);
    let less = cut_at(keep, p);
    assert forall|i: int|
        0 <= i < s.len() && !(#[trigger] less[i]) && (i == 0 || less[i - 1]) implies opens_escape(
        s[i],
    ) by {
        if i != p {
            assert(!keep[i]);
        }
    }
    assert(leaves_out_escapes(s, less));
}

/// What `regex::Regex::captures` finds in `text` with the regular expression `pattern`:
/// `None` without a match, else for each group the text that it matched, if it took
/// part in the match. Group zero is the whole match.
pub uninterp spec fn regex_captures(pattern: Seq<char>, text: Seq<char>) -> Option<
    Seq<Option<Seq<char>>>,
>;

/// The text that `regex::Regex::replace_all` makes of `text` by putting `replacement` in
/// the place of each match of the regular expression `pattern`.
pub uninterp spec fn regex_replace_all(
    pattern: Seq<char>,
    text: Seq<char>,
    replacement: Seq<char>,
) -> Seq<char>;

/// Calls `regex::Regex::new` on one of the patterns above, all of which compile, and
/// `regex::Regex::captures`, whose result depends on the pattern and the text alone.
/// Each of these patterns has a group that takes part in every match, and
/// `FRAGMENT_PATTERN` has two. What a group matched stands in the text, and so do the
/// words that the pattern demands: each of `FRAGMENT_PATTERN` and `PROGRESS_PATTERN`
/// demands the tag of a download, `FORMAT_PATTERN` that of an information, and
/// `WAITING_TIME_PATTERN` the words before the time.
#[verifier::external_body]
pub(crate) fn captures(pattern: &str, text: &str) -> (r: Option<Vec<Option<String>>>)
    requires
        is_line_pattern(pattern@),
    ensures
        r.deep_view() == regex_captures(pattern@, text@),
        r matches Some(groups) ==> {
            &&& groups@.len() >= 2
            &&& pattern@ == FRAGMENT_PATTERN@ ==> groups@.len() >= 3
            &&& forall|i: int|
                0 <= i < groups@.len() ==> (#[trigger] groups@[i] matches Some(group)
                    && text::has_text(text@, group@))
            &&& pattern@ == FRAGMENT_PATTERN@ || pattern@ == PROGRESS_PATTERN@ ==> text::has_text(
                text@,
                "[download]"@,
            )
            &&& pattern@ == FORMAT_PATTERN@ ==> text::has_text(text@, "[info]"@)
            &&& pattern@ == WAITING_TIME_PATTERN@ ==> text::has_text(
                text@,
                "expected start time is "@,
            )
        },
{
    let regex = regex::Regex::new(pattern).expect("Failed to compile pattern");
    regex.captures(text).map(
        |groups| groups.iter().map(|group| group.map(|m| m.as_str().to_string())).collect(),
    )
}

/// Calls `regex::Regex::new` on `ANSI_PATTERN`, which compiles, and
/// `regex::Regex::replace_all`, whose result depends on its arguments alone. A text
/// without a match comes back as it is, and every match begins with one of the two
/// characters of `opens_escape`. So an empty replacement deletes stretches that begin with
/// one of them, and nothing else. The pattern looks at nothing outside of its match, so a
/// beginning free of these characters is kept, and what follows it is treated as it would
/// be alone.
#[verifier::external_body]
pub(crate) fn replace_all(pattern: &str, text: &str, replacement: &str) -> (r: String)
    requires
        pattern@ == ANSI_PATTERN@,
    ensures
        r@ == regex_replace_all(pattern@, text@, replacement@),
        is_escape_free(text@) ==> r@ == text@,
        replacement@.len() == 0 ==> is_stripped(text@, r@),
        forall|n: int|
            0 <= n <= text@.len() && is_escape_free(text@.take(n)) ==> r@ == text@.take(n)
                + regex_replace_all(pattern@, #[trigger] text@.skip(n), replacement@),
{
    let regex = regex::Regex::new(pattern).expect("Failed to compile pattern");
    regex.replace_all(text, replacement).to_string()
}

/// An escape sequence begins with the escape character or with its one-character form, and
/// with nothing else.
pub proof fn law_escape_characters(c: char)
    ensures
        opens_escape(c) <==> c == '\u{1B}' || c == '\u{9B}',
{
}

/// What is kept of a text where nothing is left out is the text.
proof fn lemma_all_kept(s: Seq<char>, keep: Seq<bool>)
    requires
        keep.len() == s.len(),
        forall|i: int| 0 <= i < keep.len() ==> #[trigger] keep[i],
    ensures
        kept(s, keep) == s,
    decreases s.len(),
{
    if s.len() > 0 {
        assert(keep[keep.len() - 1]);
        let less = keep.drop_last();
        assert forall|i: int| 0 <= i < less.len() implies #[trigger] less[i] by {
            assert(keep[i]);
        }
        lemma_all_kept(s.drop_last(), less);
        assert(s.drop_last().push(s.last()) =~= s);
    } else {
        assert(s =~= Seq::empty());
    }
}

/// Every position before which nothing is left out, in a text where nothing opens an escape
/// sequence, is kept.
proof fn lemma_kept_without_escapes(s: Seq<char>, keep: Seq<bool>, n: int)
    requires
        is_escape_free(s),
        leaves_out_escapes(s, keep),
        0 <= n <= s.len(),
    ensures
        forall|i: int| 0 <= i < n ==> #[trigger] keep[i],
    decreases n,
{
    if n > 0 {
        lemma_kept_without_escapes(s, keep, n - 1);
        assert(!opens_escape(s[n - 1]));
        assert(n > 1 ==> keep[n - 2]);
        assert(keep[n - 1]);
    }
}

/// Nothing is deleted from a text in which no escape sequence begins.
pub proof fn law_plain_text_is_not_stripped(s: Seq<char>, stripped: Seq<char>)
    requires
        is_escape_free(s),
        is_stripped(s, stripped),
    ensures
        stripped == s,
{
    let keep = choose|keep: Seq<bool>| #[trigger]
        leaves_out_escapes(s, keep) && kept(s, keep) == stripped;
    lemma_kept_without_escapes(s, keep, s.len() as int);
    lemma_all_kept(s, keep);
}

} // verus!
