use ytdlp_recorder::clock::Timestamp;
use ytdlp_recorder::status::{
    classify, find_matches, read_line, strip_ansi, LineEvent, LineMatches, YTAState, YTAStatus,
};

const NOW: Timestamp = Timestamp {
    seconds: 1000,
    nanos: 5,
};

/// The status after the lines, from the beginning.
fn after(lines: &[&str]) -> YTAStatus {
    let mut status = YTAStatus::new();
    for line in lines {
        status.parse_line(line);
    }
    status
}

fn no_matches() -> LineMatches {
    LineMatches {
        start_time: None,
        progress: None,
        fragments: None,
        format: None,
    }
}

#[test]
fn a_new_status_is_idle() {
    let status = YTAStatus::new();
    assert_eq!(status.state, YTAState::Idle);
    assert_eq!(status.version, None);
    assert_eq!(status.last_output, None);
    assert_eq!(status.video_fragments, None);
    assert_eq!(status.audio_fragments, None);
    assert_eq!(status.total_size, None);
    assert_eq!(status.video_quality, None);
    assert_eq!(status.output_file, None);
    // The clock is past the year 2020.
    assert!(status.last_update.seconds > 1_577_836_800);
    assert!(status.last_update.nanos < 1_000_000_000);
    assert_eq!(YTAStatus::new_at(NOW).last_update, NOW);
}

#[test]
fn waiting_line_with_start_time() {
    let status = after(&[
        "[youtube] abc: Waiting for abc - expected start time is 2022-03-14T12:00:00+00:00",
    ]);
    let noon = Timestamp {
        seconds: 1647259200,
        nanos: 0,
    };
    assert_eq!(status.state, YTAState::Waiting(Some(noon)));
    let status = after(&[
        "[youtube] abc: Waiting for abc - expected start time is 2022-03-14T21:00:00.25+09:00 now",
    ]);
    let later = Timestamp {
        seconds: 1647259200,
        nanos: 250_000_000,
    };
    assert_eq!(status.state, YTAState::Waiting(Some(later)));
}

#[test]
fn waiting_line_without_start_time() {
    let status = after(&["[youtube] abc: Waiting for 30 seconds"]);
    assert_eq!(status.state, YTAState::Waiting(None));
    let status = after(&["[youtube] abc: Waiting for abc - expected start time is soon"]);
    assert_eq!(status.state, YTAState::Waiting(None));
    let status = after(&["[wait] Remaining time until next attempt: 00:00:30"]);
    assert_eq!(status.state, YTAState::Waiting(None));
}

#[test]
fn destination_lines() {
    let status =
        after(&["[hlsFfmpeg] Destination: temp/20220314 Title [Channel] (abc).mkv "]);
    assert_eq!(status.state, YTAState::Recording);
    assert_eq!(
        status.output_file.as_deref(),
        Some("temp/20220314 Title [Channel] (abc).mkv")
    );
    let status = after(&[
        "[download] Destination: video.f299.mp4",
        "[download] Destination: audio.f140.m4a",
    ]);
    assert_eq!(status.state, YTAState::Recording);
    assert_eq!(status.output_file.as_deref(), Some("audio.f140.m4a"));
}

#[test]
fn merger_line() {
    let status = after(&[
        "[download] Destination: audio.f140.m4a",
        "[Merger] Merging formats into \"output.mkv\"",
    ]);
    assert_eq!(status.state, YTAState::Muxing);
    assert_eq!(status.output_file.as_deref(), Some("output.mkv"));
}

#[test]
fn fragment_lines() {
    let status = after(&["[download] 1 fragments downloaded (2.34MiB)"]);
    assert_eq!(status.state, YTAState::Recording);
    assert_eq!(status.video_fragments, Some(1));
    assert_eq!(status.total_size.as_deref(), Some("2.34MiB"));
    let status = after(&[
        "[download] 12 fragment downloaded (3MiB)",
        "[download] 99999999999 fragments downloaded (4MiB)",
    ]);
    assert_eq!(status.video_fragments, Some(12));
    assert_eq!(status.total_size.as_deref(), Some("4MiB"));
    let status = after(&["[download] Downloading fragment 3 of 10"]);
    assert_eq!(status.state, YTAState::Recording);
    assert_eq!(status.video_fragments, None);
}

#[test]
fn concurrent_progress_line() {
    let status = after(&["1: [download]   1.29GiB at    2.00MiB/s (00:10:00)"]);
    assert_eq!(status.state, YTAState::Recording);
    assert_eq!(status.total_size.as_deref(), Some("1.29GiB"));
    let status = after(&["x 1: [download] 1.29GiB at 2.00MiB/s"]);
    assert_eq!(status.state, YTAState::Idle);
    assert_eq!(status.total_size, None);
}

#[test]
fn format_line() {
    let status = after(&["[info] abc: Downloading 1 format(s): 299+140"]);
    assert_eq!(status.state, YTAState::Idle);
    assert_eq!(status.video_quality.as_deref(), Some("299+140"));
}

#[test]
fn errors_stop_only_what_has_not_begun() {
    assert_eq!(after(&["ERROR: no such video"]).state, YTAState::Errored);
    let status = after(&["[download] Destination: a.mp4", "ERROR: fragment 3 not found"]);
    assert_eq!(status.state, YTAState::Recording);
    assert_eq!(
        status.last_output.as_deref(),
        Some("ERROR: fragment 3 not found")
    );
    let status = after(&["[Merger] Merging formats into \"a.mkv\"", "ERROR: oops"]);
    assert_eq!(status.state, YTAState::Muxing);
}

#[test]
fn interruptions_and_past_streams() {
    assert_eq!(after(&["KeyboardInterrupt"]).state, YTAState::Interrupted);
    assert_eq!(
        after(&["Interrupted by User Interrupt"]).state,
        YTAState::Interrupted
    );
    assert_eq!(
        after(&["abc: This live event has ended."]).state,
        YTAState::AlreadyProcessed
    );
    assert_eq!(
        after(&["This is a past livestream"]).state,
        YTAState::AlreadyProcessed
    );
}

#[test]
fn every_line_is_kept() {
    let mut status = YTAStatus::new_at(NOW);
    status.parse_line("frame= 100\u{1b}[K");
    assert_eq!(status.state, YTAState::Idle);
    assert_eq!(status.last_output.as_deref(), Some("frame= 100\u{1b}[K"));
    assert!(status.last_update.seconds > NOW.seconds);
    assert_eq!(status.version, None);
    assert_eq!(status.audio_fragments, None);
}

#[test]
fn a_repeated_line_changes_nothing() {
    for line in [
        "ERROR: no such video",
        "[download] 7 fragments downloaded (2MiB)",
        "[wait] 3",
        "anything",
    ] {
        let once = after(&[line]);
        let twice = after(&[line, line]);
        assert_eq!(once.state, twice.state);
        assert_eq!(once.video_fragments, twice.video_fragments);
        assert_eq!(once.total_size, twice.total_size);
        assert_eq!(once.last_output, twice.last_output);
    }
}

#[test]
fn lines_of_known_kinds_tell_nothing() {
    for line in [
        "",
        " \t",
        "[youtube] abc: Downloading webpage",
        "[info] Testing format",
        "[debug] x",
        "WARNING: x",
        "[download] 100%",
        "[wait]",
        "frame= 1",
        "  frame= 1",
        "x [https @ 0x1] y",
        "x [ffmpeg @ 0x1] y",
        "x [hls @ 0x1] y",
    ] {
        assert!(matches!(read_line(line), LineEvent::Ignored), "{}", line);
    }
    assert!(matches!(
        read_line("something else"),
        LineEvent::Unrecognized
    ));
}

#[test]
fn escape_sequences_are_stripped() {
    assert_eq!(strip_ansi("plain [text]"), "plain [text]");
    assert_eq!(strip_ansi("progress\u{1b}[K"), "progress");
    assert_eq!(strip_ansi("\u{1b}Mup"), "up");
    assert_eq!(strip_ansi("\u{9b}#8x"), "\u{9b}#8x");
    assert_eq!(strip_ansi("a\u{1b}(title;x\u{7}b"), "ab");
    let status = after(&["\u{1b}M[download] Destination: a.mp4\u{1b}[K"]);
    assert_eq!(status.output_file.as_deref(), Some("a.mp4"));
}

#[test]
fn a_sequence_with_a_bracket_stays() {
    assert_eq!(strip_ansi("\u{1b}[0mred"), "\u{1b}[0mred");
    let status = after(&["\u{1b}[0mERROR: x"]);
    assert_eq!(status.state, YTAState::Idle);
}

#[test]
fn matches_of_a_line() {
    let m = find_matches("[download] 5 fragments downloaded (1KiB)");
    assert_eq!(m.fragments, Some(("5".to_string(), "1KiB".to_string())));
    assert_eq!(m.progress, None);
    assert_eq!(m.format, None);
    assert_eq!(m.start_time, None);
    let m = find_matches("expected start time is 1970-01-01T00:00:01Z");
    assert_eq!(
        m.start_time,
        Some(Timestamp {
            seconds: 1,
            nanos: 0
        })
    );
    let m = find_matches("expected start time is 2016-12-31T23:59:60Z");
    assert_eq!(
        m.start_time,
        Some(Timestamp {
            seconds: 1483228799,
            nanos: 1_000_000_000
        })
    );
}

#[test]
fn the_first_kind_that_fits_counts() {
    let all = LineMatches {
        start_time: Some(NOW),
        progress: Some("1MiB".to_string()),
        fragments: Some(("2".to_string(), "2MiB".to_string())),
        format: Some("best".to_string()),
    };
    assert!(matches!(
        classify("ERROR: [youtube] Waiting for x", all),
        LineEvent::Waiting(Some(NOW))
    ));
    let some = LineMatches {
        fragments: Some(("2".to_string(), "2MiB".to_string())),
        format: Some("best".to_string()),
        ..no_matches()
    };
    match classify("ERROR:", some) {
        LineEvent::Fragments(count, size) => {
            assert_eq!(count, Some(2));
            assert_eq!(size, "2MiB");
        }
        other => panic!("{:?}", other),
    }
    match classify("[Merger] Merging formats into \"a\".mkv\"\"", no_matches()) {
        LineEvent::Merging(file) => assert_eq!(file, "a\".mkv"),
        other => panic!("{:?}", other),
    }
    assert!(matches!(
        classify("ERROR: KeyboardInterrupt", no_matches()),
        LineEvent::Error
    ));
}

#[test]
fn events_are_applied() {
    let mut status = YTAStatus::new_at(NOW);
    status.apply("raw", LineEvent::Fragments(None, "2MiB".to_string()), NOW);
    assert_eq!(status.state, YTAState::Recording);
    assert_eq!(status.video_fragments, None);
    assert_eq!(status.total_size.as_deref(), Some("2MiB"));
    assert_eq!(status.last_output.as_deref(), Some("raw"));
    status.apply("raw", LineEvent::Fragments(Some(3), "3MiB".to_string()), NOW);
    assert_eq!(status.video_fragments, Some(3));
    status.apply("raw", LineEvent::Format("best".to_string()), NOW);
    assert_eq!(status.state, YTAState::Recording);
    assert_eq!(status.video_quality.as_deref(), Some("best"));
    let copy = status.clone();
    assert_eq!(copy.total_size.as_deref(), Some("3MiB"));
    assert_eq!(copy.state, YTAState::Recording);
}

#[test]
fn error_lines_change_only_the_state() {
    let before = [
        "[info] abc: Downloading 1 format(s): 299",
        "[download] 3 fragments downloaded (2MiB)",
        "[download] Destination: a.mp4",
        "[wait] 1",
    ];
    let mut status = after(&before);
    status.parse_line("\u{1b}MERROR: [youtube] abc: gone");
    assert_eq!(status.state, YTAState::Errored);
    assert_eq!(status.video_quality.as_deref(), Some("299"));
    assert_eq!(status.video_fragments, Some(3));
    assert_eq!(status.total_size.as_deref(), Some("2MiB"));
    assert_eq!(status.output_file.as_deref(), Some("a.mp4"));
}

#[test]
fn untagged_lines_are_decided_by_their_words() {
    let recording = "[download] Destination: a.mp4";
    for (line, state) in [
        ("x KeyboardInterrupt This live event has ended", YTAState::Interrupted),
        ("[wait] This is a past livestream", YTAState::AlreadyProcessed),
        ("[wait] 3", YTAState::Waiting(None)),
        ("Waiting for nothing", YTAState::Recording),
        (" ERROR: not at the beginning", YTAState::Recording),
    ] {
        let status = after(&[recording, line]);
        assert_eq!(status.state, state, "{}", line);
        assert_eq!(status.output_file.as_deref(), Some("a.mp4"));
        assert_eq!(status.total_size, None);
    }
}

#[test]
fn stripping_deletes_from_escape_characters_on() {
    for s in [
        "a\u{1b}Mb\u{9b}(Ac",
        "\u{1b}M\u{1b}M",
        "x\u{1b}\u{1b}M[K",
        "\u{1b}[Kend",
        "end\u{1b}[K",
    ] {
        let stripped: Vec<char> = strip_ansi(s).chars().collect();
        let mut rest = stripped.iter().peekable();
        for c in s.chars() {
            if rest.peek() == Some(&&c) {
                rest.next();
            }
        }
        assert!(rest.next().is_none(), "{:?}", s);
    }
    assert_eq!(strip_ansi("a\u{1b}Mb\u{9b}(Ac"), "abc");
}

#[test]
fn a_beginning_without_escape_characters_stays() {
    for p in ["", "plain", "[", "K", "Title [0m", "\u{7}"] {
        for s in ["", "\u{1b}M", "\u{1b}[K", "a\u{1b};x\u{7}b", "[K", "\u{1b}\u{9b}M"] {
            let both = format!("{}{}", p, s);
            assert_eq!(strip_ansi(&both), format!("{}{}", p, strip_ansi(s)));
        }
    }
}
