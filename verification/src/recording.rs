//! The course of one recording.
use vstd::prelude::*;
use vstd::string::StringExecFns;

use crate::clock::{utc_now, Timestamp};
use crate::command;
use crate::command::{cookies_to_pass, record_command, ConfigView, YtDlpConfig};
use crate::status;
use crate::status::{
    clone_text, read_line, LineEvent, LineEventView, StatusView, YTAState, YTAStatus,
};
use crate::task::{Message, MessageView, Notification, RecordingStatus, Task, TaskStatus, TaskView};
use crate::text;

verus! {

/// The notification that a change of state is worth, if any.
pub open spec fn notice_of(previous: YTAState, current: YTAState) -> Option<TaskStatus> {
    if previous == current {
        None
    } else {
        match current {
            // Only the first time: a stream that is still being processed goes back to
            // waiting again and again.
            YTAState::Waiting(_) => if previous is Idle {
                Some(TaskStatus::Waiting)
            } else {
                None
            },
            YTAState::Recording => Some(TaskStatus::Recording),
            YTAState::Finished => Some(TaskStatus::Done),
            YTAState::Interrupted => Some(TaskStatus::Failed),
            YTAState::Errored => Some(TaskStatus::Failed),
            YTAState::Idle => None,
            YTAState::Muxing => None,
            YTAState::AlreadyProcessed => None,
        }
    }
}

/// The notification that a change of state is worth, if any.
pub fn notice(previous: YTAState, current: YTAState) -> (r: Option<TaskStatus>)
    ensures
        r == notice_of(previous, current),
{
    if previous == current {
        return None;
    }
    match current {
        YTAState::Waiting(_) => if previous == YTAState::Idle {
            Some(TaskStatus::Waiting)
        } else {
            None
        },
        YTAState::Recording => Some(TaskStatus::Recording),
        YTAState::Finished => Some(TaskStatus::Done),
        YTAState::Interrupted | YTAState::Errored => Some(TaskStatus::Failed),
        YTAState::Idle | YTAState::Muxing | YTAState::AlreadyProcessed => None,
    }
}

/// Whether a recording in `state` is complete when the process has ended, successfully or
/// not. Muxing yields a usable file whatever the process reports, as it does after
/// fragments that were skipped.
pub open spec fn is_complete(success: bool, state: YTAState) -> bool {
    ||| success && (state is Recording || state is Muxing || state is Idle)
    ||| state is Muxing
}

/// Whether a recording in `state` is complete when the process has ended.
pub fn complete(success: bool, state: YTAState) -> (r: bool)
    ensures
        r == is_complete(success, state),
{
    match state {
        YTAState::Muxing => true,
        YTAState::Recording | YTAState::Idle => success,
        _ => false,
    }
}

/// Whether a file of this name in the working directory is the recording of the video
/// `video_id`, and no partial download of it.
pub open spec fn is_output_name(name: Seq<char>, video_id: Seq<char>) -> bool {
    &&& text::has_text(name, video_id)
    &&& !".part"@.is_suffix_of(name)
    &&& !text::has_text(name, ".frag"@)
    &&& !".ytdl"@.is_suffix_of(name)
}

/// The position of the first of `names` that is the recording of the video `video_id`.
pub open spec fn first_output(names: Seq<Seq<char>>, video_id: Seq<char>) -> Option<int>
    decreases names.len(),
{
    if names.len() == 0 {
        None
    } else {
        match first_output(names.drop_last(), video_id) {
            Some(i) => Some(i),
            None => if is_output_name(names.last(), video_id) {
                Some(names.len() - 1)
            } else {
                None
            },
        }
    }
}

/// Whether a file of this name is the recording of the video `video_id`.
pub fn output_name(name: &str, video_id: &str) -> (r: bool)
    ensures
        r == is_output_name(name@, video_id@),
        r <==> text::has_text(name@, video_id@) && !".part"@.is_suffix_of(name@)
            && !".ytdl"@.is_suffix_of(name@) && !text::has_text(name@, ".frag"@),
{
    text::contains(name, video_id) && !text::ends_with(name, ".part") && !text::contains(
        name,
        ".frag",
    ) && !text::ends_with(name, ".ytdl")
}

/// What was found is a recording, and nothing before it is; where nothing was found,
/// there is none.
pub proof fn law_first_output(names: Seq<Seq<char>>, video_id: Seq<char>)
    ensures
        match first_output(names, video_id) {
            Some(i) => 0 <= i < names.len() && is_output_name(names[i], video_id) && forall|j: int|
                0 <= j < i ==> !is_output_name(#[trigger] names[j], video_id),
            None => forall|j: int|
                0 <= j < names.len() ==> !is_output_name(#[trigger] names[j], video_id),
        },
    decreases names.len(),
{
    if names.len() > 0 {
        let rest = names.drop_last();
        law_first_output(rest, video_id);
        let end = match first_output(rest, video_id) {
            Some(i) => i,
            None => rest.len() as int,
        };
        assert forall|j: int| 0 <= j < end implies !is_output_name(#[trigger] names[j], video_id) by {
            assert(rest[j] == names[j]);
        }
    }
}

/// The position of the first of `names` that is the recording of the video `video_id`.
pub fn find_output(names: &Vec<String>, video_id: &str) -> (r: Option<usize>)
    ensures
        match first_output(names.deep_view(), video_id@) {
            Some(i) => r == Some(i as usize) && i < names@.len(),
            None => r is None,
        },
        r matches Some(i) ==> {
            &&& i < names@.len()
            &&& text::has_text(names@[i as int]@, video_id@)
            &&& !".part"@.is_suffix_of(names@[i as int]@)
            &&& !".ytdl"@.is_suffix_of(names@[i as int]@)
            &&& !text::has_text(names@[i as int]@, ".frag"@)
            &&& forall|j: int|
                0 <= j < i && text::has_text((#[trigger] names@[j])@, video_id@)
                    ==> ".part"@.is_suffix_of(names@[j]@) || ".ytdl"@.is_suffix_of(names@[j]@)
                    || text::has_text(names@[j]@, ".frag"@)
        },
        r is None ==> forall|j: int|
            0 <= j < names@.len() && text::has_text((#[trigger] names@[j])@, video_id@)
                ==> ".part"@.is_suffix_of(names@[j]@) || ".ytdl"@.is_suffix_of(names@[j]@)
                || text::has_text(names@[j]@, ".frag"@),
{
    let mut i: usize = 0;
    while i < names.len()
        invariant
            i <= names@.len(),
            first_output(names.deep_view().take(i as int), video_id@) is None,
        decreases names@.len() - i,
    {
        let ghost all = names.deep_view();
        assert(all.take(i + 1).drop_last() =~= all.take(i as int));
        assert(all.take(i + 1).last() == names@[i as int]@);
        if output_name(names[i].as_str(), video_id) {
            proof {
                lemma_first_output_extends(all, video_id@, i + 1);
                law_found_output(all, video_id@);
                assert(forall|j: int| 0 <= j < all.len() ==> all[j] == (#[trigger] names@[j])@);
            }
            return Some(i);
        }
        i += 1;
    }
    assert(names.deep_view().take(names@.len() as int) =~= names.deep_view());
    proof {
        let all = names.deep_view();
        law_found_output(all, video_id@);
        assert(forall|j: int| 0 <= j < all.len() ==> all[j] == (#[trigger] names@[j])@);
    }
    None
}

/// What is found among the first `n` names is found among all.
proof fn lemma_first_output_extends(names: Seq<Seq<char>>, video_id: Seq<char>, n: int)
    requires
        0 <= n <= names.len(),
        first_output(names.take(n), video_id) is Some,
    ensures
        first_output(names, video_id) == first_output(names.take(n), video_id),
    decreases names.len() - n,
{
    if n < names.len() {
        assert(names.take(n + 1).drop_last() =~= names.take(n));
        lemma_first_output_extends(names, video_id, n + 1);
    } else {
        assert(names.take(n) =~= names);
    }
}

/// Where a file lies.
#[derive(Debug)]
pub enum Place {
    /// At this path.
    AsNamed(String),
    /// At this path from the working directory on.
    InWorkingDirectory(String),
}

/// A place with its path as a sequence of characters.
pub enum PlaceView {
    AsNamed(Seq<char>),
    InWorkingDirectory(Seq<char>),
}

impl View for Place {
    type V = PlaceView;

    open spec fn view(&self) -> PlaceView {
        match *self {
            Place::AsNamed(path) => PlaceView::AsNamed(path@),
            Place::InWorkingDirectory(path) => PlaceView::InWorkingDirectory(path@),
        }
    }
}

/// Where the file lies that yt-dlp named, by a path that is absolute or not.
pub fn captured_in(file: String, absolute: bool) -> (r: Place)
    ensures
        r@ == (if absolute {
            PlaceView::AsNamed(file@)
        } else {
            PlaceView::InWorkingDirectory(file@)
        }),
{
    if absolute {
        Place::AsNamed(file)
    } else {
        Place::InWorkingDirectory(file)
    }
}

/// The file that holds the recording.
#[derive(Debug, Clone, Copy, PartialEq, Eq, Structural)]
pub enum Source {
    /// The file that yt-dlp named last.
    Captured,
    /// The file at this position in the listing of the working directory.
    Listed(usize),
}

/// How far a recording has got: what was asked for last and is being waited for.
#[derive(Debug, Clone, Copy, PartialEq, Eq, Structural)]
pub enum Step {
    /// Nothing was asked for yet.
    Ready,
    CreatingWorkingDirectory,
    CreatingOutputDirectory,
    ResolvingCookies,
    Launching,
    /// The first status is being sent.
    Announcing,
    Receiving,
    /// The status after a line is being sent; the state was this one before the line.
    Reporting(YTAState),
    /// A notification is being sent.
    Notifying,
    AwaitingExit,
    /// The notification that the recording is done is being sent.
    Congratulating,
    /// The last status is being sent.
    Concluding,
    Probing,
    Listing,
    Naming(Source),
    Renaming(Source),
    Copying(Source),
    Removing(Source),
    /// Nothing more is to be done.
    Over,
}

/// Why a recording failed.
#[derive(Debug, Clone, Copy, PartialEq, Eq, Structural)]
pub enum Failure {
    WorkingDirectory,
    OutputDirectory,
    Launch,
    /// No file was found that holds the recording.
    NoOutput,
    /// The file that holds the recording has no name of its own.
    NoFileName,
    Copy,
    Remove,
}

/// What is said of a failure in the recording of the video `video_id`.
pub open spec fn failure_text(failure: Failure, video_id: Seq<char>) -> Seq<char> {
    match failure {
        Failure::WorkingDirectory => "Failed to create working directory"@,
        Failure::OutputDirectory => "Failed to create output directory"@,
        Failure::Launch => "Failed to start yt-dlp"@,
        Failure::NoOutput => "Could not find output file for video "@ + video_id,
        Failure::NoFileName => "Failed to get filename"@,
        Failure::Copy => "Failed to copy file to output"@,
        Failure::Remove => "Failed to remove original file"@,
    }
}

impl Failure {
    /// What is said of the failure in the recording of the video `video_id`.
    pub fn message(self, video_id: &str) -> (r: String)
        ensures
            r@ == failure_text(self, video_id@),
    {
        match self {
            Failure::WorkingDirectory => "Failed to create working directory".to_owned(),
            Failure::OutputDirectory => "Failed to create output directory".to_owned(),
            Failure::Launch => "Failed to start yt-dlp".to_owned(),
            Failure::NoOutput => "Could not find output file for video ".to_owned().concat(
                video_id,
            ),
            Failure::NoFileName => "Failed to get filename".to_owned(),
            Failure::Copy => "Failed to copy file to output".to_owned(),
            Failure::Remove => "Failed to remove original file".to_owned(),
        }
    }
}

/// What to do next in a recording.
#[derive(Debug)]
pub enum Action {
    /// Make sure that the working directory exists.
    CreateWorkingDirectory,
    /// Make sure that the output directory exists.
    CreateOutputDirectory,
    /// Make the path to the cookies file absolute, where that is possible.
    ResolveCookies(String),
    /// Start yt-dlp with these arguments.
    Launch(Vec<String>),
    /// Send this message on the bus.
    Send(Message),
    /// Wait for a line of output.
    Receive,
    /// Wait for the end of the process.
    AwaitExit,
    /// See whether this file exists; a relative path starts at the working directory.
    Probe(String),
    /// List the working directory.
    List,
    /// Take the name of this file, for a file of that name in the output directory.
    Name(Source),
    /// Move this file to the output directory.
    Rename(Source),
    /// Copy this file to the output directory.
    Copy(Source),
    /// Remove this file.
    Remove(Source),
    /// The recording is over.
    Finish,
    /// The recording failed.
    Fail(Failure),
}

/// What happened in a recording.
#[derive(Debug)]
pub enum Event {
    /// The recording is to begin.
    Begin,
    /// What was asked for was done, or could not be done.
    Performed(bool),
    /// The path to the cookies file, absolute where that was possible.
    Resolved(String),
    /// The message was sent, or could not be sent.
    Sent(bool),
    /// A line of output, and whether the process was over when it was received.
    Line(String, bool),
    /// There will be no more output.
    Closed,
    /// The process is over, and reported success or not.
    Exited(bool),
    /// The file exists, or does not.
    Probed(bool),
    /// The names of the files in the working directory.
    Listed(Vec<String>),
}

/// An action with its texts as sequences of characters.
pub enum ActionView {
    CreateWorkingDirectory,
    CreateOutputDirectory,
    ResolveCookies(Seq<char>),
    Launch(Seq<Seq<char>>),
    Send(MessageView),
    Receive,
    AwaitExit,
    Probe(Seq<char>),
    List,
    Name(Source),
    Rename(Source),
    Copy(Source),
    Remove(Source),
    Finish,
    Fail(Failure),
}

impl View for Action {
    type V = ActionView;

    open spec fn view(&self) -> ActionView {
        match *self {
            Action::CreateWorkingDirectory => ActionView::CreateWorkingDirectory,
            Action::CreateOutputDirectory => ActionView::CreateOutputDirectory,
            Action::ResolveCookies(path) => ActionView::ResolveCookies(path@),
            Action::Launch(args) => ActionView::Launch(args.deep_view()),
            Action::Send(message) => ActionView::Send(message@),
            Action::Receive => ActionView::Receive,
            Action::AwaitExit => ActionView::AwaitExit,
            Action::Probe(file) => ActionView::Probe(file@),
            Action::List => ActionView::List,
            Action::Name(source) => ActionView::Name(source),
            Action::Rename(source) => ActionView::Rename(source),
            Action::Copy(source) => ActionView::Copy(source),
            Action::Remove(source) => ActionView::Remove(source),
            Action::Finish => ActionView::Finish,
            Action::Fail(failure) => ActionView::Fail(failure),
        }
    }
}

/// An event with its texts as sequences of characters.
pub enum EventView {
    Begin,
    Performed(bool),
    Resolved(Seq<char>),
    Sent(bool),
    Line(Seq<char>, bool),
    Closed,
    Exited(bool),
    Probed(bool),
    Listed(Seq<Seq<char>>),
}

impl View for Event {
    type V = EventView;

    open spec fn view(&self) -> EventView {
        match *self {
            Event::Begin => EventView::Begin,
            Event::Performed(ok) => EventView::Performed(ok),
            Event::Resolved(path) => EventView::Resolved(path@),
            Event::Sent(ok) => EventView::Sent(ok),
            Event::Line(text, over) => EventView::Line(text@, over),
            Event::Closed => EventView::Closed,
            Event::Exited(success) => EventView::Exited(success),
            Event::Probed(exists) => EventView::Probed(exists),
            Event::Listed(names) => EventView::Listed(names.deep_view()),
        }
    }
}

/// Whether the event is an answer to what was asked for.
pub open spec fn answers(step: Step, event: EventView) -> bool {
    match event {
        EventView::Begin => step is Ready,
        EventView::Performed(_) => {
            ||| step is CreatingWorkingDirectory
            ||| step is CreatingOutputDirectory
            ||| step is Launching
            ||| step is Naming
            ||| step is Renaming
            ||| step is Copying
            ||| step is Removing
        },
        EventView::Resolved(_) => step is ResolvingCookies,
        EventView::Sent(_) => {
            ||| step is Announcing
            ||| step is Reporting
            ||| step is Notifying
            ||| step is Congratulating
            ||| step is Concluding
        },
        EventView::Line(_, _) => step is Receiving,
        EventView::Closed => step is Receiving,
        EventView::Exited(_) => step is AwaitingExit,
        EventView::Probed(_) => step is Probing,
        EventView::Listed(_) => step is Listing,
    }
}

/// One recording: its task, the configuration, its status and how far it has got.
#[derive(Debug)]
pub struct Recording {
    task: Task,
    config: YtDlpConfig,
    status: YTAStatus,
    step: Step,
}

/// A recording with its texts as sequences of characters.
pub struct RecordingView {
    pub task: TaskView,
    pub config: ConfigView,
    pub status: StatusView,
    pub step: Step,
}

impl View for Recording {
    type V = RecordingView;

    closed spec fn view(&self) -> RecordingView {
        RecordingView {
            task: self.task@,
            config: self.config@,
            status: self.status@,
            step: self.step,
        }
    }
}

impl RecordingView {
    /// A recording that has not begun.
    pub open spec fn initial(task: TaskView, config: ConfigView, now: Timestamp) -> RecordingView {
        RecordingView { task, config, status: StatusView::initial(now), step: Step::Ready }
    }

    /// Goes to `step` and asks for `action`.
    pub open spec fn ask(self, step: Step, action: ActionView) -> (RecordingView, ActionView) {
        (RecordingView { step, ..self }, action)
    }

    /// Starts yt-dlp, where `cookies` is the path to the cookies file, if one is to be passed.
    pub open spec fn launch(self, cookies: Option<Seq<char>>) -> (RecordingView, ActionView) {
        self.ask(
            Step::Launching,
            ActionView::Launch(
                command::recording_args(
                    self.config.args,
                    cookies,
                    self.config.format,
                    self.task.video_id,
                ),
            ),
        )
    }

    /// Goes to `step` and sends the status.
    pub open spec fn report(self, step: Step) -> (RecordingView, ActionView) {
        self.ask(step, ActionView::Send(MessageView::RecordingStatus(self.task, self.status)))
    }

    /// Goes to `step` and sends a notification.
    pub open spec fn notify(self, step: Step, status: TaskStatus) -> (RecordingView, ActionView) {
        self.ask(step, ActionView::Send(MessageView::ToNotify(self.task, status)))
    }

    /// Takes in the line `raw`, which tells `event` and arrives at `now`.
    pub open spec fn receive(
        self,
        raw: Seq<char>,
        event: LineEventView,
        now: Timestamp,
    ) -> (RecordingView, ActionView) {
        let next = RecordingView { status: self.status.after(raw, event, now), ..self };
        next.report(Step::Reporting(self.status.state))
    }

    /// What comes after the event, which happens at `now`: the recording, and what it
    /// asks for.
    pub open spec fn next(self, event: EventView, now: Timestamp) -> (RecordingView, ActionView) {
        match event {
            EventView::Begin => self.ask(
                Step::CreatingWorkingDirectory,
                ActionView::CreateWorkingDirectory,
            ),
            EventView::Performed(ok) => self.after_performed(ok, now),
            EventView::Resolved(path) => self.launch(Some(path)),
            EventView::Sent(ok) => self.after_sent(ok),
            EventView::Line(raw, over) => if over {
                self.ask(Step::AwaitingExit, ActionView::AwaitExit)
            } else {
                self.receive(raw, status::event_of(raw), now)
            },
            EventView::Closed => self.ask(Step::AwaitingExit, ActionView::AwaitExit),
            EventView::Exited(success) => if is_complete(success, self.status.state) {
                let finished = StatusView { state: YTAState::Finished, ..self.status };
                (RecordingView { status: finished, ..self }).notify(
                    Step::Congratulating,
                    TaskStatus::Done,
                )
            } else {
                self.report(Step::Concluding)
            },
            EventView::Probed(exists) => if exists {
                self.ask(Step::Naming(Source::Captured), ActionView::Name(Source::Captured))
            } else {
                self.ask(Step::Listing, ActionView::List)
            },
            EventView::Listed(names) => match first_output(names, self.task.video_id) {
                Some(i) => {
                    let source = Source::Listed(i as usize);
                    self.ask(Step::Naming(source), ActionView::Name(source))
                },
                None => self.ask(Step::Over, ActionView::Fail(Failure::NoOutput)),
            },
        }
    }

    /// What comes after something was done, or could not be done.
    pub open spec fn after_performed(self, ok: bool, now: Timestamp) -> (RecordingView, ActionView) {
        match self.step {
            Step::CreatingWorkingDirectory => if ok {
                self.ask(Step::CreatingOutputDirectory, ActionView::CreateOutputDirectory)
            } else {
                self.ask(Step::Over, ActionView::Fail(Failure::WorkingDirectory))
            },
            Step::CreatingOutputDirectory => if !ok {
                self.ask(Step::Over, ActionView::Fail(Failure::OutputDirectory))
            } else {
                match command::wanted_cookies(self.config) {
                    Some(path) => self.ask(Step::ResolvingCookies, ActionView::ResolveCookies(path)),
                    None => self.launch(None),
                }
            },
            Step::Launching => if ok {
                (RecordingView { status: StatusView::initial(now), ..self }).report(Step::Announcing)
            } else {
                self.ask(Step::Over, ActionView::Fail(Failure::Launch))
            },
            Step::Naming(source) => if ok {
                self.ask(Step::Renaming(source), ActionView::Rename(source))
            } else {
                self.ask(Step::Over, ActionView::Fail(Failure::NoFileName))
            },
            Step::Renaming(source) => if ok {
                self.ask(Step::Over, ActionView::Finish)
            } else {
                self.ask(Step::Copying(source), ActionView::Copy(source))
            },
            Step::Copying(source) => if ok {
                self.ask(Step::Removing(source), ActionView::Remove(source))
            } else {
                self.ask(Step::Over, ActionView::Fail(Failure::Copy))
            },
            _ => if ok {
                self.ask(Step::Over, ActionView::Finish)
            } else {
                self.ask(Step::Over, ActionView::Fail(Failure::Remove))
            },
        }
    }

    /// What comes after a message was sent, or could not be sent.
    pub open spec fn after_sent(self, ok: bool) -> (RecordingView, ActionView) {
        match self.step {
            Step::Announcing => self.ask(Step::Receiving, ActionView::Receive),
            Step::Reporting(previous) => if !ok {
                self.ask(Step::AwaitingExit, ActionView::AwaitExit)
            } else {
                match notice_of(previous, self.status.state) {
                    Some(status) => self.notify(Step::Notifying, status),
                    None => self.ask(Step::Receiving, ActionView::Receive),
                }
            },
            Step::Notifying => if ok {
                self.ask(Step::Receiving, ActionView::Receive)
            } else {
                self.ask(Step::AwaitingExit, ActionView::AwaitExit)
            },
            Step::Congratulating => self.report(Step::Concluding),
            _ => if self.status.state is Finished {
                match self.status.output_file {
                    Some(file) => self.ask(Step::Probing, ActionView::Probe(file)),
                    None => self.ask(Step::Listing, ActionView::List),
                }
            } else {
                self.ask(Step::Over, ActionView::Finish)
            },
        }
    }
}

impl Recording {
    /// A recording that has not begun.
    pub fn new(task: Task, config: YtDlpConfig) -> (r: Self)
        ensures
            r@ == RecordingView::initial(task@, config@, r@.status.last_update),
            r@.status.last_update.is_clock_time(),
    {
        Recording { task, config, status: YTAStatus::new(), step: Step::Ready }
    }

    /// The task that is being recorded.
    pub fn task(&self) -> (r: &Task)
        ensures
            r@ == self@.task,
    {
        &self.task
    }

    /// The status of the recording.
    pub fn status(&self) -> (r: &YTAStatus)
        ensures
            r@ == self@.status,
    {
        &self.status
    }

    /// How far the recording has got.
    pub fn step(&self) -> (r: Step)
        ensures
            r == self@.step,
    {
        self.step
    }

    /// Whether the event is an answer to what was asked for.
    pub fn expects(&self, event: &Event) -> (r: bool)
        ensures
            r == answers(self@.step, event@),
    {
        match event {
            Event::Begin => matches!(self.step, Step::Ready),
            Event::Performed(_) => matches!(
                self.step,
                Step::CreatingWorkingDirectory | Step::CreatingOutputDirectory | Step::Launching
                    | Step::Naming(_) | Step::Renaming(_) | Step::Copying(_) | Step::Removing(_)
            ),
            Event::Resolved(_) => matches!(self.step, Step::ResolvingCookies),
            Event::Sent(_) => matches!(
                self.step,
                Step::Announcing | Step::Reporting(_) | Step::Notifying | Step::Congratulating
                    | Step::Concluding
            ),
            Event::Line(_, _) => matches!(self.step, Step::Receiving),
            Event::Closed => matches!(self.step, Step::Receiving),
            Event::Exited(_) => matches!(self.step, Step::AwaitingExit),
            Event::Probed(_) => matches!(self.step, Step::Probing),
            Event::Listed(_) => matches!(self.step, Step::Listing),
        }
    }

    /// Goes to `step` and asks for `action`.
    fn ask(&mut self, step: Step, action: Action) -> (r: Action)
        ensures
            (final(self)@, r@) == old(self)@.ask(step, action@),
    {
        self.step = step;
        action
    }

    /// Starts yt-dlp, where `cookies` is the path to the cookies file, if one is to be passed.
    fn launch(&mut self, cookies: Option<String>) -> (r: Action)
        ensures
            (final(self)@, r@) == old(self)@.launch(cookies.deep_view()),
    {
        let args = record_command(&self.config, cookies, self.task.video_id.as_str());
        self.ask(Step::Launching, Action::Launch(args))
    }

    /// Goes to `step` and sends the status.
    fn report(&mut self, step: Step) -> (r: Action)
        ensures
            (final(self)@, r@) == old(self)@.report(step),
    {
        let message = Message::RecordingStatus(
            RecordingStatus { task: self.task.clone(), status: self.status.clone() },
        );
        self.ask(step, Action::Send(message))
    }

    /// Goes to `step` and sends a notification.
    fn notify(&mut self, step: Step, status: TaskStatus) -> (r: Action)
        ensures
            (final(self)@, r@) == old(self)@.notify(step, status),
    {
        let message = Message::ToNotify(Notification { task: self.task.clone(), status });
        self.ask(step, Action::Send(message))
    }

    /// Takes in the line `raw`, which tells `event` and arrives at `now`, and says what to
    /// do next.
    pub fn receive(&mut self, raw: &str, event: LineEvent, now: Timestamp) -> (r: Action)
        requires
            old(self)@.step is Receiving,
        ensures
            (final(self)@, r@) == old(self)@.receive(raw@, event@, now),
    {
        let previous = self.status.state;
        self.status.apply(raw, event, now);
        self.report(Step::Reporting(previous))
    }

    /// Takes in what happened and says what to do next.
    pub fn advance(&mut self, event: Event) -> (r: Action)
        requires
            answers(old(self)@.step, event@),
        ensures
            (final(self)@, r@) == old(self)@.next(event@, final(self)@.status.last_update),
            event@ matches EventView::Line(raw, false) ==> {
                &&& status::is_reading(raw, status::event_of(raw))
                &&& final(self)@.status.last_update.is_clock_time()
            },
            old(self)@.step is Launching && event@ == EventView::Performed(true)
                ==> final(self)@.status.last_update.is_clock_time(),
            old(self)@.status.last_update.is_clock_time()
                ==> final(self)@.status.last_update.is_clock_time(),
    {
        match event {
            Event::Begin => self.ask(
                Step::CreatingWorkingDirectory,
                Action::CreateWorkingDirectory,
            ),
            Event::Performed(ok) => self.performed(ok),
            Event::Resolved(path) => self.launch(Some(path)),
            Event::Sent(ok) => self.sent(ok),
            Event::Line(raw, over) => if over {
                self.ask(Step::AwaitingExit, Action::AwaitExit)
            } else {
                let now = utc_now();
                let event = read_line(raw.as_str());
                self.receive(raw.as_str(), event, now)
            },
            Event::Closed => self.ask(Step::AwaitingExit, Action::AwaitExit),
            Event::Exited(success) => if complete(success, self.status.state) {
                self.status.state = YTAState::Finished;
                self.notify(Step::Congratulating, TaskStatus::Done)
            } else {
                self.report(Step::Concluding)
            },
            Event::Probed(exists) => if exists {
                self.ask(Step::Naming(Source::Captured), Action::Name(Source::Captured))
            } else {
                self.ask(Step::Listing, Action::List)
            },
            Event::Listed(names) => match find_output(&names, self.task.video_id.as_str()) {
                Some(i) => {
                    let source = Source::Listed(i);
                    self.ask(Step::Naming(source), Action::Name(source))
                },
                None => self.ask(Step::Over, Action::Fail(Failure::NoOutput)),
            },
        }
    }

    /// What comes after something was done, or could not be done.
    fn performed(&mut self, ok: bool) -> (r: Action)
        requires
            answers(old(self)@.step, EventView::Performed(ok)),
        ensures
            (final(self)@, r@) == old(self)@.after_performed(ok, final(self)@.status.last_update),
            old(self)@.step is Launching && ok ==> final(self)@.status.last_update.is_clock_time(),
            old(self)@.status.last_update.is_clock_time()
                ==> final(self)@.status.last_update.is_clock_time(),
    {
        match self.step {
            Step::CreatingWorkingDirectory => if ok {
                self.ask(Step::CreatingOutputDirectory, Action::CreateOutputDirectory)
            } else {
                self.ask(Step::Over, Action::Fail(Failure::WorkingDirectory))
            },
            Step::CreatingOutputDirectory => if !ok {
                self.ask(Step::Over, Action::Fail(Failure::OutputDirectory))
            } else {
                match cookies_to_pass(&self.config) {
                    Some(path) => self.ask(Step::ResolvingCookies, Action::ResolveCookies(path)),
                    None => self.launch(None),
                }
            },
            Step::Launching => if ok {
                self.status = YTAStatus::new();
                self.report(Step::Announcing)
            } else {
                self.ask(Step::Over, Action::Fail(Failure::Launch))
            },
            Step::Naming(source) => if ok {
                self.ask(Step::Renaming(source), Action::Rename(source))
            } else {
                self.ask(Step::Over, Action::Fail(Failure::NoFileName))
            },
            Step::Renaming(source) => if ok {
                self.ask(Step::Over, Action::Finish)
            } else {
                self.ask(Step::Copying(source), Action::Copy(source))
            },
            Step::Copying(source) => if ok {
                self.ask(Step::Removing(source), Action::Remove(source))
            } else {
                self.ask(Step::Over, Action::Fail(Failure::Copy))
            },
            _ => if ok {
                self.ask(Step::Over, Action::Finish)
            } else {
                self.ask(Step::Over, Action::Fail(Failure::Remove))
            },
        }
    }

    /// What comes after a message was sent, or could not be sent.
    fn sent(&mut self, ok: bool) -> (r: Action)
        requires
            answers(old(self)@.step, EventView::Sent(ok)),
        ensures
            (final(self)@, r@) == old(self)@.after_sent(ok),
    {
        match self.step {
            Step::Announcing => self.ask(Step::Receiving, Action::Receive),
            Step::Reporting(previous) => if !ok {
                self.ask(Step::AwaitingExit, Action::AwaitExit)
            } else {
                match notice(previous, self.status.state) {
                    Some(status) => self.notify(Step::Notifying, status),
                    None => self.ask(Step::Receiving, Action::Receive),
                }
            },
            Step::Notifying => if ok {
                self.ask(Step::Receiving, Action::Receive)
            } else {
                self.ask(Step::AwaitingExit, Action::AwaitExit)
            },
            Step::Congratulating => self.report(Step::Concluding),
            _ => if self.status.state == YTAState::Finished {
                match clone_text(&self.status.output_file) {
                    Some(file) => self.ask(Step::Probing, Action::Probe(file)),
                    None => self.ask(Step::Listing, Action::List),
                }
            } else {
                self.ask(Step::Over, Action::Finish)
            },
        }
    }
}

/// A recording is notified whenever it begins to record, whatever the state was before, and
/// a failure whenever it is interrupted or fails; what is finished is notified as done.
/// Waiting is notified where nothing was known before, and only there. A state that stays,
/// and one that says nothing of success or failure, is not notified.
pub proof fn law_notices(previous: YTAState, current: YTAState)
    ensures
        previous == current ==> notice_of(previous, current) is None,
        !(previous is Recording) ==> notice_of(previous, YTAState::Recording) == Some(
            TaskStatus::Recording,
        ),
        !(previous is Finished) ==> notice_of(previous, YTAState::Finished) == Some(
            TaskStatus::Done,
        ),
        !(previous is Interrupted) ==> notice_of(previous, YTAState::Interrupted) == Some(
            TaskStatus::Failed,
        ),
        !(previous is Errored) ==> notice_of(previous, YTAState::Errored) == Some(
            TaskStatus::Failed,
        ),
        current is Waiting ==> notice_of(YTAState::Idle, current) == Some(TaskStatus::Waiting),
        current is Waiting && !(previous is Idle) ==> notice_of(previous, current) is None,
        current is Idle || current is Muxing || current is AlreadyProcessed ==> notice_of(
            previous,
            current,
        ) is None,
        notice_of(previous, current) matches Some(status) ==> match status {
            TaskStatus::Waiting => current is Waiting,
            TaskStatus::Recording => current is Recording,
            TaskStatus::Done => current is Finished,
            TaskStatus::Failed => current is Interrupted || current is Errored,
        },
{
}

/// What is being muxed is complete however the process ends, and nothing else is when it
/// ends without success. With success, so is what records, and what told nothing; nothing
/// that waits, was interrupted, failed or was processed before ever is.
pub proof fn law_complete(success: bool, state: YTAState)
    ensures
        is_complete(success, YTAState::Muxing),
        is_complete(false, state) <==> state is Muxing,
        is_complete(true, YTAState::Recording),
        is_complete(true, YTAState::Idle),
        state is Waiting || state is Interrupted || state is Errored || state is AlreadyProcessed
            || state is Finished ==> !is_complete(success, state),
{
}

/// A name that holds the identifier of the video is that of a recording unless it ends as a
/// partial download or holds the mark of a fragment, whatever else it holds and however it
/// ends; a name without the identifier is not.
pub proof fn law_partial_downloads_are_refused(name: Seq<char>, video_id: Seq<char>)
    ensures
        !text::has_text(name, video_id) ==> !is_output_name(name, video_id),
        text::has_text(name, video_id) && !is_output_name(name, video_id) ==> ".part"@.is_suffix_of(
            name,
        ) || ".ytdl"@.is_suffix_of(name) || text::has_text(name, ".frag"@),
        ".part"@.is_suffix_of(name) ==> !is_output_name(name, video_id),
        ".ytdl"@.is_suffix_of(name) ==> !is_output_name(name, video_id),
        text::has_text(name, ".frag"@) ==> !is_output_name(name, video_id),
{
}

/// What is found among names is the first that holds the identifier of the video and is no
/// partial download; where nothing is found, every name that holds it is one.
pub proof fn law_found_output(names: Seq<Seq<char>>, video_id: Seq<char>)
    ensures
        match first_output(names, video_id) {
            Some(i) => {
                &&& 0 <= i < names.len()
                &&& text::has_text(names[i], video_id)
                &&& !".part"@.is_suffix_of(names[i])
                &&& !".ytdl"@.is_suffix_of(names[i])
                &&& !text::has_text(names[i], ".frag"@)
                &&& forall|j: int|
                    0 <= j < i && text::has_text(#[trigger] names[j], video_id) ==> ".part"@.is_suffix_of(
                    names[j]) || ".ytdl"@.is_suffix_of(names[j]) || text::has_text(names[j], ".frag"@)
            },
            None => forall|j: int|
                0 <= j < names.len() && text::has_text(#[trigger] names[j], video_id)
                    ==> ".part"@.is_suffix_of(names[j]) || ".ytdl"@.is_suffix_of(names[j])
                    || text::has_text(names[j], ".frag"@),
        },
{
    law_first_output(names, video_id);
}

/// What is said of a failure names what could not be done; where no file was found, it ends
/// with the identifier of the video, and elsewhere the video makes no difference.
pub proof fn law_failures_are_told(video_id: Seq<char>)
    ensures
        failure_text(Failure::WorkingDirectory, video_id) == "Failed to create working directory"@,
        failure_text(Failure::OutputDirectory, video_id) == "Failed to create output directory"@,
        failure_text(Failure::Launch, video_id) == "Failed to start yt-dlp"@,
        failure_text(Failure::NoOutput, video_id) == "Could not find output file for video "@
            + video_id,
        failure_text(Failure::NoFileName, video_id) == "Failed to get filename"@,
        failure_text(Failure::Copy, video_id) == "Failed to copy file to output"@,
        failure_text(Failure::Remove, video_id) == "Failed to remove original file"@,
{
}

} // verus!
