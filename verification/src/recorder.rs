//! The recorder and the tasks that it takes.
use vstd::hash_set::StringHashSet;
use vstd::prelude::*;

use crate::task::{Message, MessageView, Task, TaskView};

verus! {

/// What becomes of a message.
#[derive(Debug)]
pub enum Dispatch {
    /// It does not concern the recorder.
    Ignore,
    /// The video is being recorded already.
    Skip(Task),
    /// The task goes to the queue.
    Enqueue(Task),
}

/// What becomes of a message, with the texts as sequences of characters.
pub enum DispatchView {
    Ignore,
    Skip(TaskView),
    Enqueue(TaskView),
}

impl View for Dispatch {
    type V = DispatchView;

    open spec fn view(&self) -> DispatchView {
        match *self {
            Dispatch::Ignore => DispatchView::Ignore,
            Dispatch::Skip(task) => DispatchView::Skip(task@),
            Dispatch::Enqueue(task) => DispatchView::Enqueue(task@),
        }
    }
}

/// What becomes of `message` while the videos `active` are being recorded.
pub open spec fn dispatching(active: Set<Seq<char>>, message: MessageView) -> DispatchView {
    match message {
        MessageView::ToRecord(task) => if active.contains(task.video_id) {
            DispatchView::Skip(task)
        } else {
            DispatchView::Enqueue(task)
        },
        _ => DispatchView::Ignore,
    }
}

/// The recorder, with the videos that are being recorded.
pub struct YtDlp {
    active_ids: StringHashSet,
}

impl View for YtDlp {
    type V = Set<Seq<char>>;

    closed spec fn view(&self) -> Set<Seq<char>> {
        self.active_ids@
    }
}

impl YtDlp {
    /// A recorder that records nothing.
    pub fn new() -> (r: Self)
        ensures
            r@ == Set::<Seq<char>>::empty(),
    {
        YtDlp { active_ids: StringHashSet::new() }
    }

    /// What becomes of `message`.
    pub fn dispatch(&self, message: Message) -> (r: Dispatch)
        ensures
            r@ == dispatching(self@, message@),
    {
        match message {
            Message::ToRecord(task) => if self.active_ids.contains(task.video_id.as_str()) {
                Dispatch::Skip(task)
            } else {
                Dispatch::Enqueue(task)
            },
            _ => Dispatch::Ignore,
        }
    }

    /// Notes that the recording of the video `video_id` begins.
    pub fn begin(&mut self, video_id: &str)
        ensures
            final(self)@ == old(self)@.insert(video_id@),
    {
        self.active_ids.insert(video_id.to_owned());
    }

    /// Notes that the recording of the video `video_id` is over.
    pub fn end(&mut self, video_id: &str)
        ensures
            final(self)@ == old(self)@.remove(video_id@),
    {
        self.active_ids.remove(video_id);
    }
}

/// A video is skipped from the beginning of its recording to its end, and no other is
/// affected.
pub proof fn law_active_video_is_skipped(
    active: Set<Seq<char>>,
    video_id: Seq<char>,
    task: TaskView,
)
    ensures
        task.video_id == video_id ==> dispatching(
            active.insert(video_id),
            MessageView::ToRecord(task),
        ) == DispatchView::Skip(task),
        task.video_id == video_id ==> dispatching(
            active.remove(video_id),
            MessageView::ToRecord(task),
        ) == DispatchView::Enqueue(task),
        task.video_id != video_id ==> dispatching(
            active.insert(video_id),
            MessageView::ToRecord(task),
        ) == dispatching(active, MessageView::ToRecord(task)),
        task.video_id != video_id ==> dispatching(
            active.remove(video_id),
            MessageView::ToRecord(task),
        ) == dispatching(active, MessageView::ToRecord(task)),
{
}

/// A task goes to the queue, as it is, exactly where its video is not being recorded, and is
/// skipped, as it is, where it is. What the task is else makes no difference, and no other
/// message concerns the recorder.
pub proof fn law_tasks_are_queued_or_skipped(active: Set<Seq<char>>, message: MessageView)
    ensures
        message matches MessageView::ToRecord(task) ==> {
            &&& active.contains(task.video_id) ==> dispatching(active, message)
                == DispatchView::Skip(task)
            &&& !active.contains(task.video_id) ==> dispatching(active, message)
                == DispatchView::Enqueue(task)
        },
        !(message is ToRecord) ==> dispatching(active, message) is Ignore,
{
}

} // verus!
