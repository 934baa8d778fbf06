use ytdlp_recorder::recorder::{Dispatch, YtDlp};
use ytdlp_recorder::task::{Message, Notification, Task, TaskStatus};

fn task(video_id: &str) -> Task {
    Task {
        title: "Title".to_string(),
        video_id: video_id.to_string(),
        video_picture: String::new(),
        channel_name: "Channel".to_string(),
        channel_id: "c".to_string(),
        channel_picture: None,
        output_directory: "out".to_string(),
    }
}

#[test]
fn an_active_video_is_skipped() {
    let mut recorder = YtDlp::new();
    match recorder.dispatch(Message::ToRecord(task("a"))) {
        Dispatch::Enqueue(t) => assert_eq!(t.video_id, "a"),
        other => panic!("{:?}", other),
    }
    recorder.begin("a");
    assert!(matches!(
        recorder.dispatch(Message::ToRecord(task("a"))),
        Dispatch::Skip(_)
    ));
    assert!(matches!(
        recorder.dispatch(Message::ToRecord(task("b"))),
        Dispatch::Enqueue(_)
    ));
    recorder.end("b");
    assert!(matches!(
        recorder.dispatch(Message::ToRecord(task("a"))),
        Dispatch::Skip(_)
    ));
    recorder.end("a");
    assert!(matches!(
        recorder.dispatch(Message::ToRecord(task("a"))),
        Dispatch::Enqueue(_)
    ));
}

#[test]
fn other_messages_are_ignored() {
    let recorder = YtDlp::new();
    let message = Message::ToNotify(Notification {
        task: task("a"),
        status: TaskStatus::Done,
    });
    assert!(matches!(recorder.dispatch(message), Dispatch::Ignore));
}
