use ytdlp_recorder::clock::Timestamp;
use ytdlp_recorder::command::YtDlpConfig;
use ytdlp_recorder::recording::{
    captured_in, complete, find_output, notice, output_name, Action, Event, Failure, Place,
    Recording, Source, Step,
};
use ytdlp_recorder::status::{LineEvent, YTAState};
use ytdlp_recorder::task::{Message, Task, TaskStatus};

fn task() -> Task {
    Task {
        title: "Title".to_string(),
        video_id: "abc".to_string(),
        video_picture: String::new(),
        channel_name: "Channel".to_string(),
        channel_id: "c".to_string(),
        channel_picture: Some("p".to_string()),
        output_directory: "out".to_string(),
    }
}

fn new_recording(cookies: Option<&str>) -> Recording {
    let config = YtDlpConfig {
        args: vec!["-v".to_string()],
        cookies_file: cookies.map(|c| c.to_string()),
        format: String::new(),
    };
    Recording::new(task(), config)
}

/// A short text for an action.
fn short(action: Action) -> String {
    match action {
        Action::Send(Message::ToNotify(n)) => {
            assert_eq!(n.task.video_id, "abc");
            format!("notify {:?}", n.status)
        }
        Action::Send(Message::RecordingStatus(r)) => {
            assert_eq!(r.task.channel_picture.as_deref(), Some("p"));
            format!("status {:?}", r.status.state)
        }
        Action::Launch(args) => format!("launch {}", args.join(" ")),
        other => format!("{:?}", other),
    }
}

fn go(r: &mut Recording, event: Event) -> String {
    assert!(r.expects(&event), "{:?} at {:?}", event, r.step());
    short(r.advance(event))
}

fn line(text: &str) -> Event {
    Event::Line(text.to_string(), false)
}

/// A recording whose process runs.
fn running() -> Recording {
    let mut r = new_recording(None);
    assert_eq!(go(&mut r, Event::Begin), "CreateWorkingDirectory");
    assert_eq!(go(&mut r, Event::Performed(true)), "CreateOutputDirectory");
    assert_eq!(
        go(&mut r, Event::Performed(true)),
        "launch -v --wait-for-video 30 https://youtu.be/abc"
    );
    assert_eq!(go(&mut r, Event::Performed(true)), "status Idle");
    assert_eq!(go(&mut r, Event::Sent(false)), "Receive");
    r
}

/// A recording that is finished and whose last status is being sent.
fn concluding(first: &str) -> Recording {
    let mut r = running();
    go(&mut r, line(first));
    assert_eq!(go(&mut r, Event::Sent(true)), "notify Recording");
    assert_eq!(go(&mut r, Event::Sent(true)), "Receive");
    assert_eq!(go(&mut r, Event::Closed), "AwaitExit");
    assert_eq!(go(&mut r, Event::Exited(true)), "notify Done");
    assert_eq!(go(&mut r, Event::Sent(false)), "status Finished");
    r
}

#[test]
fn a_whole_recording() {
    let mut r = running();
    assert_eq!(go(&mut r, line("[wait] 30")), "status Waiting(None)");
    assert_eq!(go(&mut r, Event::Sent(true)), "notify Waiting");
    assert_eq!(go(&mut r, Event::Sent(true)), "Receive");
    assert_eq!(go(&mut r, line("[wait] 29")), "status Waiting(None)");
    assert_eq!(go(&mut r, Event::Sent(true)), "Receive");
    assert_eq!(
        go(&mut r, line("[download] Destination: x abc.mp4")),
        "status Recording"
    );
    assert_eq!(go(&mut r, Event::Sent(true)), "notify Recording");
    assert_eq!(go(&mut r, Event::Sent(true)), "Receive");
    assert_eq!(
        go(&mut r, line("[Merger] Merging formats into \"x abc.mkv\"")),
        "status Muxing"
    );
    assert_eq!(go(&mut r, Event::Sent(true)), "Receive");
    assert_eq!(
        go(&mut r, Event::Line("late".to_string(), true)),
        "AwaitExit"
    );
    assert_eq!(
        r.status().last_output.as_deref(),
        Some("[Merger] Merging formats into \"x abc.mkv\"")
    );
    assert_eq!(go(&mut r, Event::Exited(false)), "notify Done");
    assert_eq!(go(&mut r, Event::Sent(true)), "status Finished");
    assert_eq!(go(&mut r, Event::Sent(true)), "Probe(\"x abc.mkv\")");
    assert_eq!(go(&mut r, Event::Probed(true)), "Name(Captured)");
    assert_eq!(go(&mut r, Event::Performed(true)), "Rename(Captured)");
    assert_eq!(go(&mut r, Event::Performed(true)), "Finish");
    assert_eq!(r.step(), Step::Over);
    assert_eq!(r.task().video_id, "abc");
}

#[test]
fn cookies_are_resolved() {
    let mut r = new_recording(Some("c.txt"));
    go(&mut r, Event::Begin);
    go(&mut r, Event::Performed(true));
    assert_eq!(go(&mut r, Event::Performed(true)), "ResolveCookies(\"c.txt\")");
    assert_eq!(
        go(&mut r, Event::Resolved("/c.txt".to_string())),
        "launch -v --wait-for-video 30 --cookies /c.txt https://youtu.be/abc"
    );
}

#[test]
fn failures_before_the_process_runs() {
    let mut r = new_recording(None);
    go(&mut r, Event::Begin);
    assert_eq!(go(&mut r, Event::Performed(false)), "Fail(WorkingDirectory)");
    let mut r = new_recording(None);
    go(&mut r, Event::Begin);
    go(&mut r, Event::Performed(true));
    assert_eq!(go(&mut r, Event::Performed(false)), "Fail(OutputDirectory)");
    let mut r = new_recording(None);
    go(&mut r, Event::Begin);
    go(&mut r, Event::Performed(true));
    go(&mut r, Event::Performed(true));
    assert_eq!(go(&mut r, Event::Performed(false)), "Fail(Launch)");
    assert!(!r.expects(&Event::Begin));
}

#[test]
fn waiting_is_notified_once() {
    let mut r = running();
    let mut notices = 0;
    for _ in 0..3 {
        for text in ["[wait] 30", "This live event has ended"] {
            go(&mut r, line(text));
            if go(&mut r, Event::Sent(true)) == "notify Waiting" {
                notices += 1;
                go(&mut r, Event::Sent(true));
            }
        }
    }
    assert_eq!(notices, 1);
}

#[test]
fn a_closed_bus_ends_the_listening() {
    let mut r = running();
    go(&mut r, line("anything"));
    assert_eq!(go(&mut r, Event::Sent(false)), "AwaitExit");
    let mut r = running();
    go(&mut r, line("ERROR: x"));
    assert_eq!(go(&mut r, Event::Sent(true)), "notify Failed");
    assert_eq!(go(&mut r, Event::Sent(false)), "AwaitExit");
}

#[test]
fn a_failed_recording_leaves_the_files_alone() {
    let mut r = running();
    go(&mut r, line("ERROR: x"));
    go(&mut r, Event::Sent(true));
    go(&mut r, Event::Sent(true));
    go(&mut r, Event::Closed);
    assert_eq!(go(&mut r, Event::Exited(true)), "status Errored");
    assert_eq!(go(&mut r, Event::Sent(true)), "Finish");
}

#[test]
fn a_missing_file_is_searched_for() {
    let mut r = concluding("[download] Destination: gone.mp4");
    assert_eq!(go(&mut r, Event::Sent(true)), "Probe(\"gone.mp4\")");
    assert_eq!(go(&mut r, Event::Probed(false)), "List");
    let names = vec!["abc.part".to_string(), "x abc.mp4".to_string()];
    assert_eq!(go(&mut r, Event::Listed(names)), "Name(Listed(1))");
    assert_eq!(go(&mut r, Event::Performed(true)), "Rename(Listed(1))");
    assert_eq!(go(&mut r, Event::Performed(false)), "Copy(Listed(1))");
    assert_eq!(go(&mut r, Event::Performed(true)), "Remove(Listed(1))");
    assert_eq!(go(&mut r, Event::Performed(true)), "Finish");
}

#[test]
fn failures_after_the_recording() {
    let mut r = concluding("[download] Downloading fragment 1");
    assert_eq!(go(&mut r, Event::Sent(true)), "List");
    assert_eq!(go(&mut r, Event::Listed(vec![])), "Fail(NoOutput)");

    let file = "[download] Destination: abc.mp4";
    let mut r = concluding(file);
    go(&mut r, Event::Sent(true));
    go(&mut r, Event::Probed(true));
    assert_eq!(go(&mut r, Event::Performed(false)), "Fail(NoFileName)");

    let mut r = concluding(file);
    go(&mut r, Event::Sent(true));
    go(&mut r, Event::Probed(true));
    go(&mut r, Event::Performed(true));
    go(&mut r, Event::Performed(false));
    assert_eq!(go(&mut r, Event::Performed(false)), "Fail(Copy)");

    let mut r = concluding(file);
    go(&mut r, Event::Sent(true));
    go(&mut r, Event::Probed(true));
    go(&mut r, Event::Performed(true));
    go(&mut r, Event::Performed(false));
    assert_eq!(go(&mut r, Event::Performed(true)), "Remove(Captured)");
    assert_eq!(go(&mut r, Event::Performed(false)), "Fail(Remove)");
}

#[test]
fn what_is_said_of_failures() {
    assert_eq!(
        Failure::WorkingDirectory.message("abc"),
        "Failed to create working directory"
    );
    assert_eq!(
        Failure::OutputDirectory.message("abc"),
        "Failed to create output directory"
    );
    assert_eq!(Failure::Launch.message("abc"), "Failed to start yt-dlp");
    assert_eq!(
        Failure::NoOutput.message("abc"),
        "Could not find output file for video abc"
    );
    assert_eq!(Failure::NoFileName.message("abc"), "Failed to get filename");
    assert_eq!(
        Failure::Copy.message("abc"),
        "Failed to copy file to output"
    );
    assert_eq!(
        Failure::Remove.message("abc"),
        "Failed to remove original file"
    );
}

#[test]
fn lines_with_given_events() {
    let mut r = running();
    let now = Timestamp {
        seconds: 7,
        nanos: 8,
    };
    let action = r.receive("raw", LineEvent::Interrupted, now);
    assert_eq!(short(action), "status Interrupted");
    assert_eq!(r.status().last_update, now);
    assert_eq!(r.step(), Step::Reporting(YTAState::Idle));
    assert_eq!(go(&mut r, Event::Sent(true)), "notify Failed");
}

#[test]
fn which_changes_are_worth_a_notification() {
    let time = Some(Timestamp {
        seconds: 1,
        nanos: 0,
    });
    assert_eq!(notice(YTAState::Idle, YTAState::Waiting(time)), Some(TaskStatus::Waiting));
    assert_eq!(notice(YTAState::AlreadyProcessed, YTAState::Waiting(time)), None);
    assert_eq!(notice(YTAState::Waiting(None), YTAState::Waiting(time)), None);
    assert_eq!(notice(YTAState::Waiting(None), YTAState::Recording), Some(TaskStatus::Recording));
    assert_eq!(notice(YTAState::Recording, YTAState::Recording), None);
    assert_eq!(notice(YTAState::Recording, YTAState::Muxing), None);
    assert_eq!(notice(YTAState::Recording, YTAState::Finished), Some(TaskStatus::Done));
    assert_eq!(notice(YTAState::Idle, YTAState::AlreadyProcessed), None);
    assert_eq!(notice(YTAState::Recording, YTAState::Interrupted), Some(TaskStatus::Failed));
    assert_eq!(notice(YTAState::Waiting(None), YTAState::Errored), Some(TaskStatus::Failed));
    assert_eq!(notice(YTAState::Errored, YTAState::Idle), None);
}

#[test]
fn which_recordings_are_complete() {
    for state in [YTAState::Recording, YTAState::Idle] {
        assert!(complete(true, state));
        assert!(!complete(false, state));
    }
    assert!(complete(true, YTAState::Muxing));
    assert!(complete(false, YTAState::Muxing));
    for state in [YTAState::Waiting(None), YTAState::Finished, YTAState::AlreadyProcessed, YTAState::Interrupted, YTAState::Errored] {
        assert!(!complete(true, state));
        assert!(!complete(false, state));
    }
}

#[test]
fn which_files_are_recordings() {
    assert!(output_name("2022 Title (abc).mkv", "abc"));
    assert!(!output_name("2022 Title (xyz).mkv", "abc"));
    assert!(!output_name("abc.mp4.part", "abc"));
    assert!(!output_name("abc.mp4.part-Frag3.frag", "abc"));
    assert!(!output_name("abc.frag.mp4", "abc"));
    assert!(!output_name("abc.mp4.ytdl", "abc"));
    assert!(output_name("abc.partial", "abc"));
    let names: Vec<String> = ["xyz.mp4", "abc.part", "1 abc.mp4", "2 abc.mp4"]
        .iter()
        .map(|n| n.to_string())
        .collect();
    assert_eq!(find_output(&names, "abc"), Some(2));
    assert_eq!(find_output(&names, "none"), None);
    assert!(matches!(Source::Listed(2), Source::Listed(_)));
}

#[test]
fn where_the_named_file_lies() {
    match captured_in("/a/b.mkv".to_string(), true) {
        Place::AsNamed(path) => assert_eq!(path, "/a/b.mkv"),
        other => panic!("{:?}", other),
    }
    match captured_in("b.mkv".to_string(), false) {
        Place::InWorkingDirectory(path) => assert_eq!(path, "b.mkv"),
        other => panic!("{:?}", other),
    }
}

#[test]
fn a_line_is_taken_in_at_the_time_of_the_clock() {
    let mut r = running();
    let early = Timestamp {
        seconds: -1,
        nanos: 0,
    };
    r.receive("raw", LineEvent::Ignored, early);
    assert_eq!(go(&mut r, Event::Sent(true)), "Receive");
    go(&mut r, line("anything"));
    assert!(r.status().last_update.seconds >= 0);
}
