use ytdlp_recorder::assets::{file_for, location_of, reply_for, reply_with};
use ytdlp_recorder::web::{
    describe_query_failure, make_task, reload_reply, source_reply, update_reply, CreateTaskRequest,
    Demand, Outcome, Reply, Submission, YtDlpMeta,
};

fn submission() -> Submission {
    Submission::new(CreateTaskRequest {
        video_url: "https://youtu.be/abc".to_string(),
        output_directory: "out".to_string(),
    })
}

fn go(s: &mut Submission, outcome: Outcome) -> String {
    assert!(s.expects(&outcome));
    format!("{:?}", s.advance(outcome))
}

fn meta(thumbnail: Option<&str>) -> YtDlpMeta {
    YtDlpMeta {
        id: "abc".to_string(),
        title: "Title".to_string(),
        uploader: "Channel".to_string(),
        channel_id: "c".to_string(),
        thumbnail: thumbnail.map(|t| t.to_string()),
    }
}

/// A submission whose video is being asked for.
fn querying() -> Submission {
    let mut s = submission();
    assert_eq!(go(&mut s, Outcome::Arrived), "ParseUrl(\"https://youtu.be/abc\")");
    assert_eq!(
        go(&mut s, Outcome::UrlParsed(Some("abc".to_string()))),
        "FindCookies"
    );
    assert_eq!(
        go(&mut s, Outcome::Cookies(None)),
        "Query([\"--dump-json\", \"--no-playlist\", \"--js-runtimes\", \"node\", \"https://www.youtube.com/watch?v=abc\"])"
    );
    s
}

#[test]
fn a_known_video_is_queued() {
    let mut s = querying();
    assert_eq!(
        go(&mut s, Outcome::QueryEnded(true, vec![1, 2], vec![])),
        "ReadMetadata([1, 2])"
    );
    match s.advance(Outcome::MetadataRead(meta(Some("t.jpg")))) {
        Demand::Queue(task) => {
            assert_eq!(task.title, "Title");
            assert_eq!(task.video_id, "abc");
            assert_eq!(task.video_picture, "t.jpg");
            assert_eq!(task.channel_name, "Channel");
            assert_eq!(task.channel_id, "c");
            assert_eq!(task.channel_picture, None);
            assert_eq!(task.output_directory, "out");
        }
        other => panic!("{:?}", other),
    }
    assert_eq!(go(&mut s, Outcome::Queued), "Answer(Accepted)");
    assert!(!s.expects(&Outcome::Queued));
}

#[test]
fn cookies_go_with_the_query() {
    let mut s = submission();
    go(&mut s, Outcome::Arrived);
    go(&mut s, Outcome::UrlParsed(Some("abc".to_string())));
    let demand = go(&mut s, Outcome::Cookies(Some("/c".to_string())));
    assert!(demand.contains("\"--cookies\", \"/c\", \"https://www"));
}

#[test]
fn addresses_that_are_not_of_a_video() {
    let mut s = submission();
    go(&mut s, Outcome::Arrived);
    assert_eq!(
        go(&mut s, Outcome::UrlInvalid("bad".to_string())),
        "Answer(BadRequest(\"bad\"))"
    );
    let mut s = submission();
    go(&mut s, Outcome::Arrived);
    assert_eq!(
        go(&mut s, Outcome::UrlParsed(None)),
        "Answer(BadRequest(\"Not a video URL\"))"
    );
}

#[test]
fn failures_of_the_server() {
    let mut s = querying();
    assert_eq!(
        go(&mut s, Outcome::QueryFailed("no".to_string())),
        "Answer(InternalServerError(\"Failed to run yt-dlp: no\"))"
    );
    let mut s = querying();
    assert_eq!(
        go(
            &mut s,
            Outcome::QueryEnded(false, vec![], b"WARNING: x\nERROR: private\n".to_vec())
        ),
        "Answer(InternalServerError(\"yt-dlp failed: ERROR: private\"))"
    );
    let mut s = querying();
    assert_eq!(
        go(&mut s, Outcome::QueryEnded(false, vec![], vec![0xff])),
        "Answer(InternalServerError(\"yt-dlp failed: \u{fffd}\"))"
    );
    let mut s = querying();
    go(&mut s, Outcome::QueryEnded(true, vec![], vec![]));
    assert_eq!(
        go(&mut s, Outcome::MetadataInvalid("eof".to_string())),
        "Answer(InternalServerError(\"Failed to parse yt-dlp output: eof\"))"
    );
    let mut s = querying();
    go(&mut s, Outcome::QueryEnded(true, vec![], vec![]));
    go(&mut s, Outcome::MetadataRead(meta(None)));
    assert_eq!(
        go(&mut s, Outcome::QueueFailed("closed".to_string())),
        "Answer(InternalServerError(\"closed\"))"
    );
}

#[test]
fn the_end_of_a_query_with_its_errors_as_text() {
    let mut s = querying();
    match s.query_ended(false, vec![], "one\ntwo") {
        Demand::Answer(Reply::InternalServerError(text)) => {
            assert_eq!(text, "yt-dlp failed: two")
        }
        other => panic!("{:?}", other),
    }
    assert_eq!(describe_query_failure(""), "yt-dlp failed: unknown error");
}

#[test]
fn a_video_without_a_picture() {
    let task = make_task(meta(None), "dir".to_string());
    assert_eq!(task.video_picture, "");
    assert_eq!(task.output_directory, "dir");
}

#[test]
fn answers_about_the_configuration() {
    assert!(matches!(reload_reply(None), Reply::Json(t) if t == "ok"));
    assert!(
        matches!(reload_reply(Some("e".to_string())), Reply::InternalServerError(t) if t == "e")
    );
    assert!(matches!(source_reply(Ok("x = 1".to_string())), Reply::Text(t) if t == "x = 1"));
    assert!(
        matches!(source_reply(Err("e".to_string())), Reply::InternalServerError(t) if t == "e")
    );
    assert!(matches!(update_reply(None), Reply::Json(t) if t == "ok"));
    assert!(matches!(update_reply(Some("e".to_string())), Reply::BadRequest(t) if t == "e"));
}

#[test]
fn files_of_the_interface() {
    assert_eq!(file_for(String::new()), "index.html");
    assert_eq!(file_for("a/b.js".to_string()), "a/b.js");
    assert_eq!(location_of("index.html"), "web/dist/index.html");
    match reply_for("index.html", Some(vec![1]), false) {
        Reply::File(content_type, content) => {
            assert_eq!(content_type, "text/html");
            assert_eq!(content, [1]);
        }
        other => panic!("{:?}", other),
    }
    match reply_for("a.unknown-extension", Some(vec![]), true) {
        Reply::File(content_type, _) => assert_eq!(content_type, "application/octet-stream"),
        other => panic!("{:?}", other),
    }
    for path in ["a:b.css", "http://x/y.css", "/y.css", "12:30.css"] {
        assert!(
            matches!(reply_for(path, Some(vec![]), false), Reply::File(t, _) if t == "text/css"),
            "{}",
            path
        );
    }
    assert!(matches!(reply_for("x", None, false), Reply::NotFound(t) if t == "404"));
    assert!(matches!(reply_for("x", None, true), Reply::NotFound(t) if t == "404 Not Found"));
    assert!(matches!(
        reply_with("t".to_string(), Some(vec![2]), true),
        Reply::File(t, c) if t == "t" && c == [2]
    ));
}
