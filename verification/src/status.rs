//! The status of a recording, read from the output of yt-dlp.
use vstd::prelude::*;

use crate::clock;
use crate::clock::{parse_rfc3339, utc_now, Timestamp};
use crate::patterns;
use crate::patterns::{
    captures, replace_all, ANSI_PATTERN, FORMAT_PATTERN, FRAGMENT_PATTERN, PROGRESS_PATTERN,
    WAITING_TIME_PATTERN,
};
use crate::text;

verus! {

/// What a recording is doing.
#[derive(Debug, Clone, Copy, PartialEq, Eq, Structural)]
pub enum YTAState {
    Idle,
    /// The stream has not started, with the time at which it is expected to, if known.
    Waiting(Option<Timestamp>),
    Recording,
    Muxing,
    Finished,
    AlreadyProcessed,
    Interrupted,
    Errored,
}

/// The current recording status.
#[derive(Debug)]
pub struct YTAStatus {
    pub version: Option<String>,
    pub state: YTAState,
    pub last_output: Option<String>,
    pub last_update: Timestamp,
    pub video_fragments: Option<u32>,
    pub audio_fragments: Option<u32>,
    pub total_size: Option<String>,
    pub video_quality: Option<String>,
    pub output_file: Option<String>,
}

/// A status with its texts as sequences of characters.
pub struct StatusView {
    pub version: Option<Seq<char>>,
    pub state: YTAState,
    pub last_output: Option<Seq<char>>,
    pub last_update: Timestamp,
    pub video_fragments: Option<u32>,
    pub audio_fragments: Option<u32>,
    pub total_size: Option<Seq<char>>,
    pub video_quality: Option<Seq<char>>,
    pub output_file: Option<Seq<char>>,
}

impl View for YTAStatus {
    type V = StatusView;

    open spec fn view(&self) -> StatusView {
        StatusView {
            version: self.version.deep_view(),
            state: self.state,
            last_output: self.last_output.deep_view(),
            last_update: self.last_update,
            video_fragments: self.video_fragments,
            audio_fragments: self.audio_fragments,
            total_size: self.total_size.deep_view(),
            video_quality: self.video_quality.deep_view(),
            output_file: self.output_file.deep_view(),
        }
    }
}

/// A copy of an optional text.
pub(crate) fn clone_text(text: &Option<String>) -> (r: Option<String>)
    ensures
        r.deep_view() == text.deep_view(),
{
    match text {
        Some(t) => Some(t.clone()),
        None => None,
    }
}

impl Clone for YTAStatus {
    fn clone(&self) -> (r: Self)
        ensures
            r@ == self@,
    {
        YTAStatus {
            version: clone_text(&self.version),
            state: self.state,
            last_output: clone_text(&self.last_output),
            last_update: self.last_update,
            video_fragments: self.video_fragments,
            audio_fragments: self.audio_fragments,
            total_size: clone_text(&self.total_size),
            video_quality: clone_text(&self.video_quality),
            output_file: clone_text(&self.output_file),
        }
    }
}

/// What the regular expressions find in a line.
#[derive(Debug)]
pub struct LineMatches {
    /// The time at which the stream is expected to start.
    pub start_time: Option<Timestamp>,
    /// The size so far that a concurrent download reports.
    pub progress: Option<String>,
    /// The count of fragments downloaded, and their size.
    pub fragments: Option<(String, String)>,
    /// The formats that were chosen.
    pub format: Option<String>,
}

/// The matches with their texts as sequences of characters.
pub struct MatchesView {
    pub start_time: Option<Timestamp>,
    pub progress: Option<Seq<char>>,
    pub fragments: Option<(Seq<char>, Seq<char>)>,
    pub format: Option<Seq<char>>,
}

impl View for LineMatches {
    type V = MatchesView;

    open spec fn view(&self) -> MatchesView {
        MatchesView {
            start_time: self.start_time,
            progress: self.progress.deep_view(),
            fragments: match self.fragments {
                Some((count, size)) => Some((count@, size@)),
                None => None,
            },
            format: self.format.deep_view(),
        }
    }
}

/// What a line of output tells.
#[derive(Debug)]
pub enum LineEvent {
    /// The stream has not started; its expected start, if the line names it.
    Waiting(Option<Timestamp>),
    /// A download goes to this file.
    Destination(String),
    /// The streams are being merged into this file.
    Merging(String),
    /// A concurrent download has got this much.
    Progress(String),
    /// So many fragments, if the count is a number that fits, of this size were downloaded.
    Fragments(Option<u32>, String),
    /// A fragment is being downloaded.
    FragmentStarted,
    /// These formats were chosen.
    Format(String),
    Error,
    Interrupted,
    /// The stream is over and its recording is in the archive already.
    Ended,
    /// The countdown to the next look at a stream that has not started.
    Countdown,
    /// A line of a known kind that tells nothing.
    Ignored,
    /// A line of no known kind.
    Unrecognized,
}

/// The event with its texts as sequences of characters.
pub enum LineEventView {
    Waiting(Option<Timestamp>),
    Destination(Seq<char>),
    Merging(Seq<char>),
    Progress(Seq<char>),
    Fragments(Option<u32>, Seq<char>),
    FragmentStarted,
    Format(Seq<char>),
    Error,
    Interrupted,
    Ended,
    Countdown,
    Ignored,
    Unrecognized,
}

impl View for LineEvent {
    type V = LineEventView;

    open spec fn view(&self) -> LineEventView {
        match *self {
            LineEvent::Waiting(time) => LineEventView::Waiting(time),
            LineEvent::Destination(file) => LineEventView::Destination(file@),
            LineEvent::Merging(file) => LineEventView::Merging(file@),
            LineEvent::Progress(size) => LineEventView::Progress(size@),
            LineEvent::Fragments(count, size) => LineEventView::Fragments(count, size@),
            LineEvent::FragmentStarted => LineEventView::FragmentStarted,
            LineEvent::Format(format) => LineEventView::Format(format@),
            LineEvent::Error => LineEventView::Error,
            LineEvent::Interrupted => LineEventView::Interrupted,
            LineEvent::Ended => LineEventView::Ended,
            LineEvent::Countdown => LineEventView::Countdown,
            LineEvent::Ignored => LineEventView::Ignored,
            LineEvent::Unrecognized => LineEventView::Unrecognized,
        }
    }
}

/// Whether a line that tells nothing is of a known kind nevertheless.
pub open spec fn is_noise(line: Seq<char>) -> bool {
    ||| text::trimmed(line).len() == 0
    ||| "[youtube]"@.is_prefix_of(line)
    ||| "[info]"@.is_prefix_of(line)
    ||| "[debug]"@.is_prefix_of(line)
    ||| "WARNING:"@.is_prefix_of(line)
    ||| "[download]"@.is_prefix_of(line)
    ||| "[wait]"@.is_prefix_of(line)
    ||| "frame="@.is_prefix_of(line)
    ||| "frame="@.is_prefix_of(text::trim_start_of(line))
    ||| text::has_text(line, "[https @ "@)
    ||| text::has_text(line, "[ffmpeg @ "@)
    ||| text::has_text(line, "[hls @ "@)
}

/// What the line `line`, freed from escape sequences, tells, given what the regular
/// expressions find in it. The first of the kinds that fits counts.
pub open spec fn line_event(line: Seq<char>, m: MatchesView) -> LineEventView {
    if text::has_text(line, "[youtube]"@) && text::has_text(line, "Waiting for"@) {
        LineEventView::Waiting(m.start_time)
    } else if "[hlsFfmpeg] Destination: "@.is_prefix_of(line) {
        LineEventView::Destination(text::trimmed(line.skip("[hlsFfmpeg] Destination: "@.len() as int)))
    } else if "[download] Destination: "@.is_prefix_of(line) {
        LineEventView::Destination(text::trimmed(line.skip("[download] Destination: "@.len() as int)))
    } else if "[Merger] Merging formats into \""@.is_prefix_of(line) {
        LineEventView::Merging(
            text::without_trailing(
                text::without_prefixes(line, "[Merger] Merging formats into \""@),
                '"',
            ),
        )
    } else if let Some(size) = m.progress {
        LineEventView::Progress(size)
    } else if let Some((count, size)) = m.fragments {
        LineEventView::Fragments(text::u32_of(count), size)
    } else if "[download] Downloading fragment"@.is_prefix_of(line) {
        LineEventView::FragmentStarted
    } else if let Some(format) = m.format {
        LineEventView::Format(format)
    } else if "ERROR:"@.is_prefix_of(line) {
        LineEventView::Error
    } else if text::has_text(line, "KeyboardInterrupt"@) || text::has_text(line, "User Interrupt"@) {
        LineEventView::Interrupted
    } else if text::has_text(line, "This live event has ended"@) || text::has_text(
        line,
        "This is a past livestream"@,
    ) {
        LineEventView::Ended
    } else if "[wait] "@.is_prefix_of(line) {
        LineEventView::Countdown
    } else if is_noise(line) {
        LineEventView::Ignored
    } else {
        LineEventView::Unrecognized
    }
}

impl StatusView {
    /// A status before any output, made at `now`.
    pub open spec fn initial(now: Timestamp) -> StatusView {
        StatusView {
            version: None,
            state: YTAState::Idle,
            last_output: None,
            last_update: now,
            video_fragments: None,
            audio_fragments: None,
            total_size: None,
            video_quality: None,
            output_file: None,
        }
    }

    /// The status after the line `raw`, which tells `event` and arrives at `now`.
    pub open spec fn after(self, raw: Seq<char>, event: LineEventView, now: Timestamp) -> StatusView {
        let s = StatusView { last_output: Some(raw), last_update: now, ..self };
        match event {
            LineEventView::Waiting(time) => StatusView { state: YTAState::Waiting(time), ..s },
            LineEventView::Destination(file) => StatusView {
                state: YTAState::Recording,
                output_file: Some(file),
                ..s
            },
            LineEventView::Merging(file) => StatusView {
                state: YTAState::Muxing,
                output_file: Some(file),
                ..s
            },
            LineEventView::Progress(size) => StatusView {
                state: YTAState::Recording,
                total_size: Some(size),
                ..s
            },
            LineEventView::Fragments(count, size) => StatusView {
                state: YTAState::Recording,
                video_fragments: if count is Some { count } else { s.video_fragments },
                total_size: Some(size),
                ..s
            },
            LineEventView::FragmentStarted => StatusView { state: YTAState::Recording, ..s },
            LineEventView::Format(format) => StatusView { video_quality: Some(format), ..s },
            LineEventView::Error => StatusView {
                state: if s.state is Recording || s.state is Muxing {
                    s.state
                } else {
                    YTAState::Errored
                },
                ..s
            },
            LineEventView::Interrupted => StatusView { state: YTAState::Interrupted, ..s },
            LineEventView::Ended => StatusView { state: YTAState::AlreadyProcessed, ..s },
            LineEventView::Countdown => StatusView { state: YTAState::Waiting(None), ..s },
            LineEventView::Ignored => s,
            LineEventView::Unrecognized => s,
        }
    }

    /// The status after the line `raw` of output, which arrives at `now`.
    pub open spec fn after_line(self, raw: Seq<char>, now: Timestamp) -> StatusView {
        self.after(raw, event_of(raw), now)
    }
}

/// The text of the group `i` of a match, if it took part in it.
pub open spec fn group_text(groups: Option<Seq<Option<Seq<char>>>>, i: int) -> Option<Seq<char>> {
    match groups {
        Some(g) => if 0 <= i < g.len() {
            g[i]
        } else {
            None
        },
        None => None,
    }
}

/// What the regular expressions find in `line`.
pub open spec fn matches_of(line: Seq<char>) -> MatchesView {
    let fragments = patterns::regex_captures(FRAGMENT_PATTERN@, line);
    MatchesView {
        start_time: match group_text(patterns::regex_captures(WAITING_TIME_PATTERN@, line), 1) {
            Some(time) => clock::timestamp_of(time),
            None => None,
        },
        progress: group_text(patterns::regex_captures(PROGRESS_PATTERN@, line), 1),
        fragments: match (group_text(fragments, 1), group_text(fragments, 2)) {
            (Some(count), Some(size)) => Some((count, size)),
            _ => None,
        },
        format: group_text(patterns::regex_captures(FORMAT_PATTERN@, line), 1),
    }
}

/// `line` freed from escape sequences.
pub open spec fn plain_text(line: Seq<char>) -> Seq<char> {
    text::without_suffix(patterns::regex_replace_all(ANSI_PATTERN@, line, ""@), "\u{1b}[K"@)
}

/// What the line `raw` of output tells.
pub open spec fn event_of(raw: Seq<char>) -> LineEventView {
    line_event(plain_text(raw), matches_of(plain_text(raw)))
}

/// What ends with an escape sequence keeps a beginning without any when that end is taken
/// off.
proof fn lemma_beginning_stays(beginning: Seq<char>, rest: Seq<char>)
    requires
        patterns::is_escape_free(beginning),
    ensures
        text::without_suffix(beginning + rest, "\u{1b}[K"@) == beginning + text::without_suffix(
            rest,
            "\u{1b}[K"@,
        ),
{
    reveal_strlit("\u{1b}[K");
    let end = "\u{1b}[K"@;
    let all = beginning + rest;
    let k = all.len() - 3;
    if end.is_suffix_of(all) {
        assert(all.subrange(k, all.len() as int)[0] == end[0]);
        if rest.len() < 3 {
            assert(patterns::opens_escape(beginning[k]));
        }
        assert(rest.subrange(rest.len() - 3, rest.len() as int) =~= all.subrange(
            k,
            all.len() as int,
        ));
        assert(all.take(k) =~= beginning + rest.take(rest.len() - 3));
    } else if end.is_suffix_of(rest) {
        assert(all.subrange(k, all.len() as int) =~= rest.subrange(
            rest.len() - 3,
            rest.len() as int,
        ));
    }
}

/// `s` freed from escape sequences. A text without any comes back as it is. Nothing is
/// deleted but stretches that begin with a character that opens an escape sequence, and a
/// beginning without such a character stays, whatever follows it.
pub fn strip_ansi(s: &str) -> (r: String)
    ensures
        r@ == plain_text(s@),
        patterns::is_escape_free(s@) ==> r@ == s@,
        patterns::is_stripped(s@, r@),
        forall|n: int|
            0 <= n <= s@.len() && patterns::is_escape_free(s@.take(n)) ==> r@ == s@.take(n)
                + plain_text(#[trigger] s@.skip(n)),
{
    let stripped = replace_all(ANSI_PATTERN, s, "");
    proof {
        reveal_strlit("");
        reveal_strlit("\u{1b}[K");
        let end = "\u{1b}[K"@;
        if end.is_suffix_of(stripped@) {
            let k = stripped@.len() - 3;
            assert(stripped@.subrange(k, stripped@.len() as int)[0] == end[0]);
            patterns::lemma_stripped_without_end(s@, stripped@, k);
            assert(patterns::opens_escape(stripped@[k]));
        }
        assert forall|n: int| 0 <= n <= s@.len() && patterns::is_escape_free(s@.take(n)) implies
            plain_text(s@) == s@.take(n) + plain_text(#[trigger] s@.skip(n)) by {
            lemma_beginning_stays(
                s@.take(n),
                patterns::regex_replace_all(ANSI_PATTERN@, s@.skip(n), ""@),
            );
        }
    }
    text::strip_suffix(stripped.as_str(), "\u{1b}[K").to_owned()
}

/// The text of the group `i` of a match, if it took part in it.
fn group(groups: &Option<Vec<Option<String>>>, i: usize) -> (r: Option<String>)
    ensures
        r.deep_view() == group_text(groups.deep_view(), i as int),
        r is Some <==> (groups matches Some(g) && i < g@.len() && g@[i as int] is Some),
        r matches Some(text) ==> text@ == groups->0@[i as int]->0@,
{
    match groups {
        Some(g) => if i < g.len() {
            clone_text(&g[i])
        } else {
            None
        },
        None => None,
    }
}

/// Whether the matches can be found in `line`: what a group matched stands in the line,
/// and so do the words that its pattern demands.
pub open spec fn fit(line: Seq<char>, m: MatchesView) -> bool {
    &&& m.start_time is Some ==> text::has_text(line, "expected start time is "@)
    &&& m.progress matches Some(size) ==> text::has_text(line, size) && text::has_text(
        line,
        "[download]"@,
    )
    &&& m.fragments matches Some((count, size)) ==> text::has_text(line, count) && text::has_text(
        line,
        size,
    ) && text::has_text(line, "[download]"@)
    &&& m.format matches Some(format) ==> text::has_text(line, format) && text::has_text(
        line,
        "[info]"@,
    )
}

/// What the regular expressions find in `line`. Wherever one of them matches, the groups
/// that are asked for take part in the match.
pub fn find_matches(line: &str) -> (r: LineMatches)
    ensures
        r@ == matches_of(line@),
        fit(line@, r@),
        r.progress is Some <==> patterns::regex_captures(PROGRESS_PATTERN@, line@) is Some,
        r.fragments is Some <==> patterns::regex_captures(FRAGMENT_PATTERN@, line@) is Some,
        r.format is Some <==> patterns::regex_captures(FORMAT_PATTERN@, line@) is Some,
{
    let start_time = match group(&captures(WAITING_TIME_PATTERN, line), 1) {
        Some(time) => match parse_rfc3339(time.as_str()) {
            Some((seconds, nanos)) => Some(Timestamp { seconds, nanos }),
            None => None,
        },
        None => None,
    };
    let fragments = captures(FRAGMENT_PATTERN, line);
    LineMatches {
        start_time,
        progress: group(&captures(PROGRESS_PATTERN, line), 1),
        fragments: match (group(&fragments, 1), group(&fragments, 2)) {
            (Some(count), Some(size)) => Some((count, size)),
            _ => None,
        },
        format: group(&captures(FORMAT_PATTERN, line), 1),
    }
}

/// Whether a line that tells nothing is of a known kind nevertheless.
fn noise(line: &str) -> (r: bool)
    ensures
        r == is_noise(line@),
{
    text::trim(line).is_empty() || text::starts_with(line, "[youtube]") || text::starts_with(
        line,
        "[info]",
    ) || text::starts_with(line, "[debug]") || text::starts_with(line, "WARNING:")
        || text::starts_with(line, "[download]") || text::starts_with(line, "[wait]")
        || text::starts_with(line, "frame=") || text::starts_with(text::trim_start(line), "frame=")
        || text::contains(line, "[https @ ") || text::contains(line, "[ffmpeg @ ")
        || text::contains(line, "[hls @ ")
}

/// What the line `line`, freed from escape sequences, tells, given what the regular
/// expressions find in it.
pub fn classify(line: &str, matches: LineMatches) -> (r: LineEvent)
    ensures
        r@ == line_event(line@, matches@),
{
    if text::contains(line, "[youtube]") && text::contains(line, "Waiting for") {
        return LineEvent::Waiting(matches.start_time);
    }
    if let Some(file) = text::strip_prefix(line, "[hlsFfmpeg] Destination: ") {
        return LineEvent::Destination(text::trim(file).to_owned());
    }
    if let Some(file) = text::strip_prefix(line, "[download] Destination: ") {
        return LineEvent::Destination(text::trim(file).to_owned());
    }
    if text::starts_with(line, "[Merger] Merging formats into \"") {
        proof {
            reveal_strlit("[Merger] Merging formats into \"");
        }
        let rest = text::trim_start_matches(line, "[Merger] Merging formats into \"");
        return LineEvent::Merging(text::trim_end_matches(rest, '"').to_owned());
    }
    if let Some(size) = matches.progress {
        return LineEvent::Progress(size);
    }
    if let Some((count, size)) = matches.fragments {
        return LineEvent::Fragments(text::parse_u32(count.as_str()), size);
    }
    if text::starts_with(line, "[download] Downloading fragment") {
        return LineEvent::FragmentStarted;
    }
    if let Some(format) = matches.format {
        return LineEvent::Format(format);
    }
    if text::starts_with(line, "ERROR:") {
        LineEvent::Error
    } else if text::contains(line, "KeyboardInterrupt") || text::contains(line, "User Interrupt") {
        LineEvent::Interrupted
    } else if text::contains(line, "This live event has ended") || text::contains(
        line,
        "This is a past livestream",
    ) {
        LineEvent::Ended
    } else if text::starts_with(line, "[wait] ") {
        LineEvent::Countdown
    } else if noise(line) {
        LineEvent::Ignored
    } else {
        LineEvent::Unrecognized
    }
}

/// Whether the line, freed from escape sequences, begins as an error and holds none of the
/// words that would make it something else.
pub open spec fn is_error_line(line: Seq<char>) -> bool {
    &&& "ERROR:"@.is_prefix_of(line)
    &&& !text::has_text(line, "Waiting for"@)
    &&& !text::has_text(line, "[download]"@)
    &&& !text::has_text(line, "[info]"@)
}

/// Whether the line, freed from escape sequences, is neither tagged nor begins in a way
/// that tells something.
pub open spec fn is_untagged(line: Seq<char>) -> bool {
    &&& !text::has_text(line, "[youtube]"@)
    &&& !text::has_text(line, "[download]"@)
    &&& !text::has_text(line, "[info]"@)
    &&& !"ERROR:"@.is_prefix_of(line)
    &&& !"[hlsFfmpeg] Destination: "@.is_prefix_of(line)
    &&& !"[Merger] Merging formats into \""@.is_prefix_of(line)
}

/// What a line tells by its words alone.
pub open spec fn event_by_words(line: Seq<char>) -> LineEventView {
    if text::has_text(line, "KeyboardInterrupt"@) || text::has_text(line, "User Interrupt"@) {
        LineEventView::Interrupted
    } else if text::has_text(line, "This live event has ended"@) || text::has_text(
        line,
        "This is a past livestream"@,
    ) {
        LineEventView::Ended
    } else if "[wait] "@.is_prefix_of(line) {
        LineEventView::Countdown
    } else if is_noise(line) {
        LineEventView::Ignored
    } else {
        LineEventView::Unrecognized
    }
}

/// The state to which a line leads by its words alone.
pub open spec fn state_by_words(line: Seq<char>, state: YTAState) -> YTAState {
    if text::has_text(line, "KeyboardInterrupt"@) || text::has_text(line, "User Interrupt"@) {
        YTAState::Interrupted
    } else if text::has_text(line, "This live event has ended"@) || text::has_text(
        line,
        "This is a past livestream"@,
    ) {
        YTAState::AlreadyProcessed
    } else if "[wait] "@.is_prefix_of(line) {
        YTAState::Waiting(None)
    } else {
        state
    }
}

/// What a line begins with stands in it, and so does the beginning of that.
proof fn lemma_beginning_stands(line: Seq<char>, beginning: Seq<char>, word: Seq<char>)
    requires
        beginning.is_prefix_of(line),
        word.is_prefix_of(beginning),
    ensures
        text::has_text(line, word),
{
    assert(line.subrange(0int, 0int + word.len()) =~= beginning.subrange(0, word.len() as int));
}

/// A line that begins as an error, and holds none of the words that would make it something
/// else, tells an error: it stops what is not recording or muxing, and changes nothing else.
pub proof fn law_error_line(
    s: StatusView,
    raw: Seq<char>,
    line: Seq<char>,
    m: MatchesView,
    now: Timestamp,
)
    requires
        is_error_line(line),
        fit(line, m),
    ensures
        line_event(line, m) is Error,
        s.after(raw, line_event(line, m), now) == (StatusView {
            state: if s.state is Recording || s.state is Muxing {
                s.state
            } else {
                YTAState::Errored
            },
            last_output: Some(raw),
            last_update: now,
            ..s
        }),
{
    reveal_strlit("ERROR:");
    reveal_strlit("[hlsFfmpeg] Destination: ");
    reveal_strlit("[download] Destination: ");
    reveal_strlit("[download] Downloading fragment");
    reveal_strlit("[Merger] Merging formats into \"");
    assert(line[0] == "ERROR:"@[0]);
}

/// A line that is neither tagged nor begins in a way that tells something is decided by its
/// words alone, and changes at most the state.
pub proof fn law_untagged_line(
    s: StatusView,
    raw: Seq<char>,
    line: Seq<char>,
    m: MatchesView,
    now: Timestamp,
)
    requires
        is_untagged(line),
        fit(line, m),
    ensures
        line_event(line, m) == event_by_words(line),
        s.after(raw, line_event(line, m), now) == (StatusView {
            state: state_by_words(line, s.state),
            last_output: Some(raw),
            last_update: now,
            ..s
        }),
{
    reveal_strlit("[download]");
    reveal_strlit("[download] Destination: ");
    reveal_strlit("[download] Downloading fragment");
    if "[download] Destination: "@.is_prefix_of(line) {
        lemma_beginning_stands(line, "[download] Destination: "@, "[download]"@);
    }
    if "[download] Downloading fragment"@.is_prefix_of(line) {
        lemma_beginning_stands(line, "[download] Downloading fragment"@, "[download]"@);
    }
}

/// Whether `event` is what the line `raw` tells, as far as the line itself shows it: a line
/// without escape sequences is read as it is, an error is read as one, and a line that is
/// not tagged by its words.
pub open spec fn is_reading(raw: Seq<char>, event: LineEventView) -> bool {
    &&& patterns::is_escape_free(raw) ==> plain_text(raw) == raw && event == line_event(
        raw,
        matches_of(raw),
    )
    &&& is_error_line(plain_text(raw)) ==> event is Error
    &&& is_untagged(plain_text(raw)) ==> event == event_by_words(plain_text(raw))
    &&& patterns::is_stripped(raw, plain_text(raw))
    &&& fit(plain_text(raw), matches_of(plain_text(raw)))
}

/// What the line `raw` of output tells.
pub fn read_line(raw: &str) -> (r: LineEvent)
    ensures
        r@ == event_of(raw@),
        is_reading(raw@, r@),
{
    let line = strip_ansi(raw);
    let matches = find_matches(line.as_str());
    proof {
        let any = StatusView::initial(Timestamp { seconds: 0, nanos: 0 });
        if is_error_line(line@) {
            law_error_line(any, raw@, line@, matches@, any.last_update);
        }
        if is_untagged(line@) {
            law_untagged_line(any, raw@, line@, matches@, any.last_update);
        }
    }
    classify(line.as_str(), matches)
}

impl YTAStatus {
    /// A status before any output, made at `now`.
    pub fn new_at(now: Timestamp) -> (r: Self)
        ensures
            r@ == StatusView::initial(now),
    {
        YTAStatus {
            version: None,
            state: YTAState::Idle,
            last_output: None,
            last_update: now,
            video_fragments: None,
            audio_fragments: None,
            total_size: None,
            video_quality: None,
            output_file: None,
        }
    }

    /// A status before any output, made now.
    pub fn new() -> (r: Self)
        ensures
            r@ == StatusView::initial(r.last_update),
            r.last_update.is_clock_time(),
    {
        YTAStatus::new_at(utc_now())
    }

    /// Takes in the line `raw`, which tells `event` and arrives at `now`.
    pub fn apply(&mut self, raw: &str, event: LineEvent, now: Timestamp)
        ensures
            final(self)@ == old(self)@.after(raw@, event@, now),
    {
        self.last_output = Some(raw.to_owned());
        self.last_update = now;
        match event {
            LineEvent::Waiting(time) => {
                self.state = YTAState::Waiting(time);
            },
            LineEvent::Destination(file) => {
                self.state = YTAState::Recording;
                self.output_file = Some(file);
            },
            LineEvent::Merging(file) => {
                self.state = YTAState::Muxing;
                self.output_file = Some(file);
            },
            LineEvent::Progress(size) => {
                self.state = YTAState::Recording;
                self.total_size = Some(size);
            },
            LineEvent::Fragments(count, size) => {
                self.state = YTAState::Recording;
                if count.is_some() {
                    self.video_fragments = count;
                }
                self.total_size = Some(size);
            },
            LineEvent::FragmentStarted => {
                self.state = YTAState::Recording;
            },
            LineEvent::Format(format) => {
                self.video_quality = Some(format);
            },
            LineEvent::Error => {
                // Errors during a download, such as skipped fragments, are not fatal.
                match self.state {
                    YTAState::Recording | YTAState::Muxing => {},
                    _ => {
                        self.state = YTAState::Errored;
                    },
                }
            },
            LineEvent::Interrupted => {
                self.state = YTAState::Interrupted;
            },
            LineEvent::Ended => {
                self.state = YTAState::AlreadyProcessed;
            },
            LineEvent::Countdown => {
                self.state = YTAState::Waiting(None);
            },
            LineEvent::Ignored | LineEvent::Unrecognized => {},
        }
    }

    /// Takes in a line of output from the yt-dlp process.
    ///
    /// Sample output:
    ///
    ///   [youtube] VIDEO_ID: Waiting for VIDEO_ID - expected start time is ...
    ///   [youtube] VIDEO_ID: Waiting for 30 seconds
    ///   [hlsFfmpeg] Destination: temp/20220314 Title [Channel] (VIDEO_ID).mkv
    ///   [download] 1 fragments downloaded (2.34MiB)
    ///   [Merger] Merging formats into "output.mkv"
    ///   ERROR: ...
    pub fn parse_line(&mut self, line: &str)
        ensures
            final(self)@ == old(self)@.after_line(line@, final(self).last_update),
            final(self).last_update.is_clock_time(),
            is_reading(line@, event_of(line@)),
            patterns::is_escape_free(line@) ==> final(self)@ == old(self)@.after(
                line@,
                line_event(line@, matches_of(line@)),
                final(self).last_update,
            ),
            is_error_line(plain_text(line@)) ==> final(self)@ == (StatusView {
                state: if old(self).state is Recording || old(self).state is Muxing {
                    old(self).state
                } else {
                    YTAState::Errored
                },
                last_output: Some(line@),
                last_update: final(self).last_update,
                ..old(self)@
            }),
            is_untagged(plain_text(line@)) ==> final(self)@ == (StatusView {
                state: state_by_words(plain_text(line@), old(self).state),
                last_output: Some(line@),
                last_update: final(self).last_update,
                ..old(self)@
            }),
    {
        let now = utc_now();
        let event = read_line(line);
        self.apply(line, event, now);
    }
}

/// A line of output, with what it tells and when it arrives.
pub struct Arrival {
    pub raw: Seq<char>,
    pub event: LineEventView,
    pub now: Timestamp,
}

impl StatusView {
    /// The status after all of `lines`, in their order.
    pub open spec fn after_all(self, lines: Seq<Arrival>) -> StatusView
        decreases lines.len(),
    {
        if lines.len() == 0 {
            self
        } else {
            let last = lines.last();
            self.after_all(lines.drop_last()).after(last.raw, last.event, last.now)
        }
    }
}

/// The file that a line names as the one being written.
pub open spec fn named_file(event: LineEventView) -> Option<Seq<char>> {
    match event {
        LineEventView::Destination(file) => Some(file),
        LineEventView::Merging(file) => Some(file),
        _ => None,
    }
}

/// The file that is named last in `lines`, if any is.
pub open spec fn last_named_file(lines: Seq<Arrival>) -> Option<Seq<char>>
    decreases lines.len(),
{
    if lines.len() == 0 {
        None
    } else if named_file(lines.last().event) is Some {
        named_file(lines.last().event)
    } else {
        last_named_file(lines.drop_last())
    }
}

/// Every line is kept as the last output, with the time of its arrival, and no line
/// touches the version or the count of audio fragments.
pub proof fn law_every_line_is_kept(
    s: StatusView,
    raw: Seq<char>,
    event: LineEventView,
    now: Timestamp,
)
    ensures
        s.after(raw, event, now).last_output == Some(raw),
        s.after(raw, event, now).last_update == now,
        s.after(raw, event, now).version == s.version,
        s.after(raw, event, now).audio_fragments == s.audio_fragments,
{
}

/// A line that comes twice in a row changes nothing the second time but the time of
/// the last update.
pub proof fn law_repeated_line(
    s: StatusView,
    raw: Seq<char>,
    event: LineEventView,
    first: Timestamp,
    second: Timestamp,
)
    ensures
        s.after(raw, event, first).after(raw, event, second) == s.after(raw, event, second),
        s.after(raw, event, first).after(raw, event, second).state == s.after(
            raw,
            event,
            first,
        ).state,
{
}

/// No line makes a status idle or finished that was not.
pub proof fn law_lines_neither_idle_nor_finish(
    s: StatusView,
    raw: Seq<char>,
    event: LineEventView,
    now: Timestamp,
)
    ensures
        s.after(raw, event, now).state is Idle ==> s.state is Idle,
        s.after(raw, event, now).state is Finished ==> s.state is Finished,
{
}

/// A line that names a destination is read so, whatever the name, unless it looks like
/// one that waits.
pub proof fn law_destination_is_read(file: Seq<char>, m: MatchesView)
    ensures
        ({
            let line = "[hlsFfmpeg] Destination: "@ + file;
            (text::has_text(line, "[youtube]"@) && text::has_text(line, "Waiting for"@)) || line_event(
                line,
                m,
            ) == LineEventView::Destination(text::trimmed(file))
        }),
        ({
            let line = "[download] Destination: "@ + file;
            (text::has_text(line, "[youtube]"@) && text::has_text(line, "Waiting for"@)) || line_event(
                line,
                m,
            ) == LineEventView::Destination(text::trimmed(file))
        }),
{
    reveal_strlit("[hlsFfmpeg] Destination: ");
    reveal_strlit("[download] Destination: ");
    let hls = "[hlsFfmpeg] Destination: "@;
    let download = "[download] Destination: "@;
    assert((hls + file).skip(hls.len() as int) =~= file);
    assert((download + file).skip(download.len() as int) =~= file);
    assert((download + file)[1] != hls[1]);
}

/// The file into which the streams are merged is read as it is named, unless the line
/// looks like one that waits, the name ends with a quotation mark, or it begins with the
/// words of the line itself.
pub proof fn law_merged_file_is_read(file: Seq<char>, m: MatchesView)
    requires
        file.len() > 0 ==> file.last() != '"',
        !"[Merger] Merging formats into \""@.is_prefix_of(file.push('"')),
    ensures
        ({
            let line = "[Merger] Merging formats into \""@ + file.push('"');
            (text::has_text(line, "[youtube]"@) && text::has_text(line, "Waiting for"@)) || line_event(
                line,
                m,
            ) == LineEventView::Merging(file)
        }),
{
    reveal_strlit("[hlsFfmpeg] Destination: ");
    reveal_strlit("[download] Destination: ");
    reveal_strlit("[Merger] Merging formats into \"");
    let words = "[Merger] Merging formats into \""@;
    let line = words + file.push('"');
    assert(line[1] != "[hlsFfmpeg] Destination: "@[1]);
    assert(line[1] != "[download] Destination: "@[1]);
    assert(line.skip(words.len() as int) =~= file.push('"'));
    assert(file.push('"').drop_last() =~= file);
    reveal_with_fuel(text::without_prefixes, 3);
    reveal_with_fuel(text::without_trailing, 3);
}

/// What the regular expressions find decides where no earlier kind fits: progress before
/// fragments, and fragments before the rest.
pub proof fn law_matches_decide(line: Seq<char>, m: MatchesView)
    requires
        !(text::has_text(line, "[youtube]"@) && text::has_text(line, "Waiting for"@)),
        !"[hlsFfmpeg] Destination: "@.is_prefix_of(line),
        !"[download] Destination: "@.is_prefix_of(line),
        !"[Merger] Merging formats into \""@.is_prefix_of(line),
    ensures
        m.progress matches Some(size) ==> line_event(line, m) == LineEventView::Progress(size),
        m.progress is None ==> (m.fragments matches Some((count, size)) ==> line_event(line, m)
            == LineEventView::Fragments(text::u32_of(count), size)),
{
}

/// An error line leaves a recording that has begun as it is, and stops any other.
pub proof fn law_errors_do_not_abort(s: StatusView, raw: Seq<char>, now: Timestamp)
    ensures
        s.state is Recording || s.state is Muxing ==> s.after(raw, LineEventView::Error, now)
            == (StatusView { last_output: Some(raw), last_update: now, ..s }),
        !(s.state is Recording || s.state is Muxing) ==> s.after(
            raw,
            LineEventView::Error,
            now,
        ).state is Errored,
{
}

/// The output file is the one that was named last.
pub proof fn law_last_named_file_wins(s: StatusView, lines: Seq<Arrival>)
    ensures
        s.after_all(lines).output_file == (if last_named_file(lines) is Some {
            last_named_file(lines)
        } else {
            s.output_file
        }),
    decreases lines.len(),
{
    if lines.len() > 0 {
        law_last_named_file_wins(s, lines.drop_last());
    }
}

/// The count of fragments is the one that a line tells, whatever the count was before. A
/// line whose count cannot be read leaves it, and so does a line that tells of no count.
pub proof fn law_fragments_are_counted(
    s: StatusView,
    raw: Seq<char>,
    event: LineEventView,
    now: Timestamp,
)
    ensures
        event matches LineEventView::Fragments(Some(n), _) ==> s.after(
            raw,
            event,
            now,
        ).video_fragments == Some(n),
        !(event matches LineEventView::Fragments(Some(_), _)) ==> s.after(
            raw,
            event,
            now,
        ).video_fragments == s.video_fragments,
{
}

/// The size is the one that a line tells, of a concurrent download or of fragments, whatever
/// the size was before and whether or not the fragments could be counted. No other line
/// touches it.
pub proof fn law_size_is_taken(s: StatusView, raw: Seq<char>, event: LineEventView, now: Timestamp)
    ensures
        event matches LineEventView::Progress(size) ==> s.after(raw, event, now).total_size == Some(
            size,
        ),
        event matches LineEventView::Fragments(_, size) ==> s.after(raw, event, now).total_size
            == Some(size),
        !(event is Progress) && !(event is Fragments) ==> s.after(raw, event, now).total_size
            == s.total_size,
{
}

/// The quality is the formats that a line tells of, whatever it was before, and no other
/// line touches it.
pub proof fn law_format_is_taken(
    s: StatusView,
    raw: Seq<char>,
    event: LineEventView,
    now: Timestamp,
)
    ensures
        event matches LineEventView::Format(format) ==> s.after(raw, event, now).video_quality
            == Some(format),
        !(event is Format) ==> s.after(raw, event, now).video_quality == s.video_quality,
{
}

/// The output file is the one that a line names, by a destination or as what the streams are
/// merged into, whatever it was before, and no other line touches it.
pub proof fn law_named_file_is_taken(
    s: StatusView,
    raw: Seq<char>,
    event: LineEventView,
    now: Timestamp,
)
    ensures
        event matches LineEventView::Destination(file) ==> s.after(raw, event, now).output_file
            == Some(file),
        event matches LineEventView::Merging(file) ==> s.after(raw, event, now).output_file == Some(
            file,
        ),
        !(event is Destination) && !(event is Merging) ==> s.after(raw, event, now).output_file
            == s.output_file,
{
}

/// The state to which a line leads, whatever the state was before: a stream that is waited
/// for waits, with the time that was told; a download records, and a merge muxes; an
/// interruption interrupts, and a stream that is over has been processed. A line about the
/// format, or one that tells nothing, leaves the state.
pub proof fn law_state_follows_the_line(
    s: StatusView,
    raw: Seq<char>,
    event: LineEventView,
    now: Timestamp,
)
    ensures
        event matches LineEventView::Waiting(time) ==> s.after(raw, event, now).state
            == YTAState::Waiting(time),
        event is Countdown ==> s.after(raw, event, now).state == YTAState::Waiting(None),
        event is Destination || event is Progress || event is Fragments || event is FragmentStarted
            ==> s.after(raw, event, now).state is Recording,
        event is Merging ==> s.after(raw, event, now).state is Muxing,
        event is Interrupted ==> s.after(raw, event, now).state is Interrupted,
        event is Ended ==> s.after(raw, event, now).state is AlreadyProcessed,
        event is Format || event is Ignored || event is Unrecognized ==> s.after(raw, event, now).state
            == s.state,
{
}

/// A status before any output is idle, made at that time, and knows nothing else.
pub proof fn law_initial_status(now: Timestamp)
    ensures
        StatusView::initial(now).state is Idle,
        StatusView::initial(now).last_update == now,
        StatusView::initial(now).version is None,
        StatusView::initial(now).last_output is None,
        StatusView::initial(now).video_fragments is None,
        StatusView::initial(now).audio_fragments is None,
        StatusView::initial(now).total_size is None,
        StatusView::initial(now).video_quality is None,
        StatusView::initial(now).output_file is None,
{
}

/// After all lines, the count of fragments is that of the last line with a count that could
/// be read, whatever the lines before it told.
pub proof fn law_last_count_wins(
    s: StatusView,
    lines: Seq<Arrival>,
    k: int,
    n: u32,
    size: Seq<char>,
)
    requires
        0 <= k < lines.len(),
        lines[k].event == LineEventView::Fragments(Some(n), size),
        forall|j: int|
            k < j < lines.len()
                ==> !((#[trigger] lines[j]).event matches LineEventView::Fragments(Some(_), _)),
    ensures
        s.after_all(lines).video_fragments == Some(n),
    decreases lines.len(),
{
    if k < lines.len() - 1 {
        let before = lines.drop_last();
        assert forall|j: int|
            k < j < before.len()
            implies !((#[trigger] before[j]).event matches LineEventView::Fragments(Some(_), _)) by {
            assert(before[j] == lines[j]);
        }
        assert(before[k] == lines[k]);
        law_last_count_wins(s, before, k, n, size);
        assert(!(lines[lines.len() - 1].event matches LineEventView::Fragments(Some(_), _)));
    }
}

/// Without a line whose count could be read, the count of fragments stays what it was.
pub proof fn law_count_stays(s: StatusView, lines: Seq<Arrival>)
    requires
        forall|j: int|
            0 <= j < lines.len()
                ==> !((#[trigger] lines[j]).event matches LineEventView::Fragments(Some(_), _)),
    ensures
        s.after_all(lines).video_fragments == s.video_fragments,
    decreases lines.len(),
{
    if lines.len() > 0 {
        let before = lines.drop_last();
        assert forall|j: int|
            0 <= j < before.len()
            implies !((#[trigger] before[j]).event matches LineEventView::Fragments(Some(_), _)) by {
            assert(before[j] == lines[j]);
        }
        law_count_stays(s, before);
        assert(!(lines[lines.len() - 1].event matches LineEventView::Fragments(Some(_), _)));
    }
}

/// After all lines, the size is that of the last line that told one, of a concurrent
/// download or of fragments.
pub proof fn law_last_size_wins(
    s: StatusView,
    lines: Seq<Arrival>,
    k: int,
    count: Option<u32>,
    size: Seq<char>,
)
    requires
        0 <= k < lines.len(),
        lines[k].event == LineEventView::Progress(size) || lines[k].event
            == LineEventView::Fragments(count, size),
        forall|j: int|
            k < j < lines.len()
                ==> !((#[trigger] lines[j]).event is Progress || lines[j].event is Fragments),
    ensures
        s.after_all(lines).total_size == Some(size),
    decreases lines.len(),
{
    if k < lines.len() - 1 {
        let before = lines.drop_last();
        assert forall|j: int|
            k < j < before.len()
            implies !((#[trigger] before[j]).event is Progress || before[j].event is Fragments) by {
            assert(before[j] == lines[j]);
        }
        assert(before[k] == lines[k]);
        law_last_size_wins(s, before, k, count, size);
        assert(!(lines[lines.len() - 1].event is Progress
            || lines[lines.len() - 1].event is Fragments));
    }
}

/// Without a line that tells a size, the size stays what it was.
pub proof fn law_size_stays(s: StatusView, lines: Seq<Arrival>)
    requires
        forall|j: int|
            0 <= j < lines.len()
                ==> !((#[trigger] lines[j]).event is Progress || lines[j].event is Fragments),
    ensures
        s.after_all(lines).total_size == s.total_size,
    decreases lines.len(),
{
    if lines.len() > 0 {
        let before = lines.drop_last();
        assert forall|j: int|
            0 <= j < before.len()
            implies !((#[trigger] before[j]).event is Progress || before[j].event is Fragments) by {
            assert(before[j] == lines[j]);
        }
        law_size_stays(s, before);
        assert(!(lines[lines.len() - 1].event is Progress
            || lines[lines.len() - 1].event is Fragments));
    }
}

/// After all lines, the quality is that of the last line that told of formats.
pub proof fn law_last_format_wins(s: StatusView, lines: Seq<Arrival>, k: int, format: Seq<char>)
    requires
        0 <= k < lines.len(),
        lines[k].event == LineEventView::Format(format),
        forall|j: int| k < j < lines.len() ==> !((#[trigger] lines[j]).event is Format),
    ensures
        s.after_all(lines).video_quality == Some(format),
    decreases lines.len(),
{
    if k < lines.len() - 1 {
        let before = lines.drop_last();
        assert forall|j: int|
            k < j < before.len() implies !((#[trigger] before[j]).event is Format) by {
            assert(before[j] == lines[j]);
        }
        assert(before[k] == lines[k]);
        law_last_format_wins(s, before, k, format);
        assert(!(lines[lines.len() - 1].event is Format));
    }
}

/// Without a line that tells of formats, the quality stays what it was.
pub proof fn law_format_stays(s: StatusView, lines: Seq<Arrival>)
    requires
        forall|j: int| 0 <= j < lines.len() ==> !((#[trigger] lines[j]).event is Format),
    ensures
        s.after_all(lines).video_quality == s.video_quality,
    decreases lines.len(),
{
    if lines.len() > 0 {
        let before = lines.drop_last();
        assert forall|j: int|
            0 <= j < before.len() implies !((#[trigger] before[j]).event is Format) by {
            assert(before[j] == lines[j]);
        }
        law_format_stays(s, before);
        assert(!(lines[lines.len() - 1].event is Format));
    }
}

/// After all lines, the output file is the one that the last line named, as a destination or
/// as what the streams are merged into.
pub proof fn law_last_file_wins(s: StatusView, lines: Seq<Arrival>, k: int, file: Seq<char>)
    requires
        0 <= k < lines.len(),
        lines[k].event == LineEventView::Destination(file) || lines[k].event
            == LineEventView::Merging(file),
        forall|j: int|
            k < j < lines.len()
                ==> !((#[trigger] lines[j]).event is Destination || lines[j].event is Merging),
    ensures
        s.after_all(lines).output_file == Some(file),
    decreases lines.len(),
{
    if k < lines.len() - 1 {
        let before = lines.drop_last();
        assert forall|j: int|
            k < j < before.len()
            implies !((#[trigger] before[j]).event is Destination || before[j].event is Merging) by {
            assert(before[j] == lines[j]);
        }
        assert(before[k] == lines[k]);
        law_last_file_wins(s, before, k, file);
        assert(!(lines[lines.len() - 1].event is Destination
            || lines[lines.len() - 1].event is Merging));
    }
}

/// Without a line that names a file, the output file stays what it was.
pub proof fn law_file_stays(s: StatusView, lines: Seq<Arrival>)
    requires
        forall|j: int|
            0 <= j < lines.len()
                ==> !((#[trigger] lines[j]).event is Destination || lines[j].event is Merging),
    ensures
        s.after_all(lines).output_file == s.output_file,
    decreases lines.len(),
{
    if lines.len() > 0 {
        let before = lines.drop_last();
        assert forall|j: int|
            0 <= j < before.len()
            implies !((#[trigger] before[j]).event is Destination || before[j].event is Merging) by {
            assert(before[j] == lines[j]);
        }
        law_file_stays(s, before);
        assert(!(lines[lines.len() - 1].event is Destination
            || lines[lines.len() - 1].event is Merging));
    }
}


/// Which lines wait, name a file or merge, by their words: these kinds come before all
/// others, in this order, and depend on nothing but the words.
pub proof fn law_words_that_come_first(line: Seq<char>, m: MatchesView)
    ensures
        ({
            let waits = text::has_text(line, "[youtube]"@) && text::has_text(line, "Waiting for"@);
            let names = "[hlsFfmpeg] Destination: "@.is_prefix_of(line)
                || "[download] Destination: "@.is_prefix_of(line);
            let merges = "[Merger] Merging formats into \""@.is_prefix_of(line);
            let event = line_event(line, m);
            &&& event is Waiting <==> waits
            &&& waits ==> event == LineEventView::Waiting(m.start_time)
            &&& event is Destination <==> names && !waits
            &&& event is Merging <==> merges && !waits
        }),
{
    reveal_strlit("[hlsFfmpeg] Destination: ");
    reveal_strlit("[download] Destination: ");
    reveal_strlit("[Merger] Merging formats into \"");
    if "[Merger] Merging formats into \""@.is_prefix_of(line) {
        assert(line[1] == "[Merger] Merging formats into \""@[1]);
        if "[hlsFfmpeg] Destination: "@.is_prefix_of(line) {
            assert(line[1] == "[hlsFfmpeg] Destination: "@[1]);
        }
        if "[download] Destination: "@.is_prefix_of(line) {
            assert(line[1] == "[download] Destination: "@[1]);
        }
    }
}

/// What a merge writes into is what stands between the words of the line, however often
/// they come, and the quotation marks at its end.
pub proof fn law_merged_file_between_words(line: Seq<char>, m: MatchesView)
    requires
        "[Merger] Merging formats into \""@.is_prefix_of(line),
        !(text::has_text(line, "[youtube]"@) && text::has_text(line, "Waiting for"@)),
    ensures
        line_event(line, m) matches LineEventView::Merging(file) && file == text::without_trailing(
            text::without_prefixes(line, "[Merger] Merging formats into \""@),
            '"',
        ),
{
    law_words_that_come_first(line, m);
}

/// What the regular expressions find counts where no kind fits that comes first: the size of
/// a concurrent download, then fragments, with the count where it is a number that fits, and
/// the formats, unless the line says that a fragment is being downloaded.
pub proof fn law_matches_are_told(line: Seq<char>, m: MatchesView)
    requires
        !(text::has_text(line, "[youtube]"@) && text::has_text(line, "Waiting for"@)),
        !"[hlsFfmpeg] Destination: "@.is_prefix_of(line),
        !"[download] Destination: "@.is_prefix_of(line),
        !"[Merger] Merging formats into \""@.is_prefix_of(line),
    ensures
        ({
            let event = line_event(line, m);
            let starts = "[download] Downloading fragment"@.is_prefix_of(line);
            &&& event is Progress <==> m.progress is Some
            &&& m.progress matches Some(size) ==> event == LineEventView::Progress(size)
            &&& event is Fragments <==> m.progress is None && m.fragments is Some
            &&& m.progress is None ==> (m.fragments matches Some((count, size)) ==> event
                == LineEventView::Fragments(text::u32_of(count), size))
            &&& event is FragmentStarted <==> m.progress is None && m.fragments is None && starts
            &&& event is Format <==> m.progress is None && m.fragments is None && !starts
                && m.format is Some
            &&& m.progress is None && m.fragments is None && !starts ==> (
            m.format matches Some(format) ==> event == LineEventView::Format(format))
        }),
{
}

/// The words decide where nothing comes first and the regular expressions find nothing: an
/// error before an interruption, that before the end of the stream, and that before the
/// countdown. Every other line tells nothing; it is of a known kind where it is blank or
/// comes from a source that is known.
pub proof fn law_words_that_come_last(line: Seq<char>, m: MatchesView)
    requires
        !(text::has_text(line, "[youtube]"@) && text::has_text(line, "Waiting for"@)),
        !"[hlsFfmpeg] Destination: "@.is_prefix_of(line),
        !"[download] Destination: "@.is_prefix_of(line),
        !"[Merger] Merging formats into \""@.is_prefix_of(line),
        !"[download] Downloading fragment"@.is_prefix_of(line),
        m.progress is None,
        m.fragments is None,
        m.format is None,
    ensures
        ({
            let event = line_event(line, m);
            let errs = "ERROR:"@.is_prefix_of(line);
            let interrupts = text::has_text(line, "KeyboardInterrupt"@) || text::has_text(
                line,
                "User Interrupt"@,
            );
            let ends = text::has_text(line, "This live event has ended"@) || text::has_text(
                line,
                "This is a past livestream"@,
            );
            let counts = "[wait] "@.is_prefix_of(line);
            let known = (forall|i: int|
                0 <= i < line.len() ==> text::is_white_space(#[trigger] line[i]))
                || "[youtube]"@.is_prefix_of(line) || "[info]"@.is_prefix_of(line)
                || "[debug]"@.is_prefix_of(line) || "WARNING:"@.is_prefix_of(line)
                || "[download]"@.is_prefix_of(line) || "[wait]"@.is_prefix_of(line)
                || "frame="@.is_prefix_of(text::trim_start_of(line)) || text::has_text(
                line,
                "[https @ "@,
            ) || text::has_text(line, "[ffmpeg @ "@) || text::has_text(line, "[hls @ "@);
            &&& event is Error <==> errs
            &&& event is Interrupted <==> interrupts && !errs
            &&& event is Ended <==> ends && !errs && !interrupts
            &&& event is Countdown <==> counts && !errs && !interrupts && !ends
            &&& event is Ignored <==> known && !errs && !interrupts && !ends && !counts
            &&& event is Unrecognized <==> !known && !errs && !interrupts && !ends && !counts
        }),
{
    reveal_strlit("frame=");
    if "frame="@.is_prefix_of(line) {
        assert(line[0] == "frame="@[0]);
        assert(!text::is_white_space(line[0]));
    }
    text::lemma_trimmed_empty(line);
}

/// What the regular expressions find: the time after the words that announce a start, where
/// it can be read; the size in the progress of a concurrent download; the count and the size
/// of fragments; and the formats. Each is what a group of the match captured, and is missing
/// where nothing matched.
pub proof fn law_groups_of_matches(line: Seq<char>)
    ensures
        ({
            let found = patterns::regex_captures(r"^\d+: \[download\]\s+([\d.]+\S+) at"@, line);
            &&& found is None ==> matches_of(line).progress is None
            &&& found matches Some(groups) ==> (groups.len() >= 2 ==> matches_of(line).progress
                == groups[1])
        }),
        ({
            let found = patterns::regex_captures(
                r"\[download\] (\d+) fragments? downloaded \(([^)]+)\)"@,
                line,
            );
            &&& found is None ==> matches_of(line).fragments is None
            &&& found matches Some(groups) ==> (groups.len() >= 3 ==> (groups[1] matches Some(count)
                ==> (groups[2] matches Some(size) ==> matches_of(line).fragments == Some(
                (count, size),
            ))))
        }),
        ({
            let found = patterns::regex_captures(
                r"\[info\] \S+: Downloading \d+ format\(s\): (.+)"@,
                line,
            );
            &&& found is None ==> matches_of(line).format is None
            &&& found matches Some(groups) ==> (groups.len() >= 2 ==> matches_of(line).format
                == groups[1])
        }),
        ({
            let found = patterns::regex_captures(r"expected start time is (\S+)"@, line);
            &&& found is None ==> matches_of(line).start_time is None
            &&& found matches Some(groups) ==> (groups.len() >= 2 ==> (groups[1] matches Some(time)
                ==> (match clock::rfc3339_instant(time) {
                Some((seconds, nanos)) => matches_of(line).start_time matches Some(t) && t.seconds
                    == seconds && t.nanos == nanos,
                None => matches_of(line).start_time is None,
            })))
        }),
{
}

/// A line is freed from what the pattern of escape sequences matches, and then from the one
/// sequence that it may still end with.
pub proof fn law_escapes_are_deleted(line: Seq<char>, rest: Seq<char>)
    ensures
        ({
            let stripped = patterns::regex_replace_all(
                r"[\u001B\u009B][[\\]()#;?]*(?:(?:(?:[a-zA-Z\\d]*(?:;[a-zA-Z\\d]*)*)?\u0007)|(?:(?:\\d{1,4}(?:;\\d{0,4})*)?[\\dA-PRZcf-ntqry=><~]))"@,
                line,
                ""@,
            );
            &&& stripped == rest + "\u{1b}[K"@ ==> plain_text(line) == rest
            &&& !"\u{1b}[K"@.is_suffix_of(stripped) ==> plain_text(line) == stripped
        }),
{
    text::law_without_suffix(rest, "\u{1b}[K"@);
}

/// A line is taken in by what its plain text tells, and by that alone: what is kept of it as
/// it came is the last output.
pub proof fn law_plain_text_decides(
    s: StatusView,
    raw: Seq<char>,
    other: Seq<char>,
    now: Timestamp,
)
    requires
        plain_text(raw) == plain_text(other),
    ensures
        event_of(raw) == event_of(other),
        event_of(raw) == line_event(plain_text(raw), matches_of(plain_text(raw))),
        s.after_line(raw, now) == s.after(raw, event_of(raw), now),
        s.after_line(raw, now) == (StatusView {
            last_output: Some(raw),
            ..s.after_line(other, now)
        }),
{
}

} // verus!
