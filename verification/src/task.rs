//! Recording tasks and the messages about them.
use vstd::prelude::*;

use crate::status::{clone_text, StatusView, YTAStatus};

verus! {

/// A stream to record.
#[derive(Debug)]
pub struct Task {
    pub title: String,
    pub video_id: String,
    pub video_picture: String,
    pub channel_name: String,
    pub channel_id: String,
    pub channel_picture: Option<String>,
    pub output_directory: String,
}

/// A task with its texts as sequences of characters.
pub struct TaskView {
    pub title: Seq<char>,
    pub video_id: Seq<char>,
    pub video_picture: Seq<char>,
    pub channel_name: Seq<char>,
    pub channel_id: Seq<char>,
    pub channel_picture: Option<Seq<char>>,
    pub output_directory: Seq<char>,
}

impl View for Task {
    type V = TaskView;

    open spec fn view(&self) -> TaskView {
        TaskView {
            title: self.title@,
            video_id: self.video_id@,
            video_picture: self.video_picture@,
            channel_name: self.channel_name@,
            channel_id: self.channel_id@,
            channel_picture: self.channel_picture.deep_view(),
            output_directory: self.output_directory@,
        }
    }
}

impl Clone for Task {
    fn clone(&self) -> (r: Self)
        ensures
            r@ == self@,
    {
        Task {
            title: self.title.clone(),
            video_id: self.video_id.clone(),
            video_picture: self.video_picture.clone(),
            channel_name: self.channel_name.clone(),
            channel_id: self.channel_id.clone(),
            channel_picture: clone_text(&self.channel_picture),
            output_directory: self.output_directory.clone(),
        }
    }
}

/// What a notification tells of a task.
#[derive(Debug, Clone, Copy, PartialEq, Eq, Structural)]
pub enum TaskStatus {
    Waiting,
    Recording,
    Done,
    Failed,
}

/// A notification to the outside.
#[derive(Debug)]
pub struct Notification {
    pub task: Task,
    pub status: TaskStatus,
}

/// The status of the recording of a task.
#[derive(Debug)]
pub struct RecordingStatus {
    pub task: Task,
    pub status: YTAStatus,
}

/// A message on the bus that connects the modules.
#[derive(Debug)]
pub enum Message {
    ToRecord(Task),
    ToNotify(Notification),
    RecordingStatus(RecordingStatus),
}

/// A message with its texts as sequences of characters.
pub enum MessageView {
    ToRecord(TaskView),
    ToNotify(TaskView, TaskStatus),
    RecordingStatus(TaskView, StatusView),
}

impl View for Message {
    type V = MessageView;

    open spec fn view(&self) -> MessageView {
        match *self {
            Message::ToRecord(task) => MessageView::ToRecord(task@),
            Message::ToNotify(n) => MessageView::ToNotify(n.task@, n.status),
            Message::RecordingStatus(r) => MessageView::RecordingStatus(r.task@, r.status@),
        }
    }
}

} // verus!
