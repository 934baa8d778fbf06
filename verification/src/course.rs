//! What holds of every course that a recording can take.
use vstd::prelude::*;

use crate::clock::Timestamp;
use crate::command;
use crate::command::ConfigView;
use crate::recording;
use crate::recording::{ActionView, EventView, Failure, RecordingView, Source, Step};
use crate::status;
use crate::status::{LineEventView, StatusView, YTAState};
use crate::task::{MessageView, TaskStatus, TaskView};
use crate::text;

verus! {

/// Something that happened, and when.
pub struct Happening {
    pub event: EventView,
    pub now: Timestamp,
}

/// The recording after all that happened, and what it asked for after each.
pub open spec fn course(start: RecordingView, happenings: Seq<Happening>) -> (
    RecordingView,
    Seq<ActionView>,
)
    decreases happenings.len(),
{
    if happenings.len() == 0 {
        (start, Seq::empty())
    } else {
        let (before, actions) = course(start, happenings.drop_last());
        let (after, action) = before.next(happenings.last().event, happenings.last().now);
        (after, actions.push(action))
    }
}

/// Whether everything that happened was an answer to what was asked for.
pub open spec fn is_course(start: RecordingView, happenings: Seq<Happening>) -> bool
    decreases happenings.len(),
{
    happenings.len() > 0 ==> is_course(start, happenings.drop_last()) && recording::answers(
        course(start, happenings.drop_last()).0.step,
        happenings.last().event,
    )
}

/// Whether the action sends the notification `status`.
pub open spec fn notifies(action: ActionView, status: TaskStatus) -> bool {
    action matches ActionView::Send(MessageView::ToNotify(_, s)) && s == status
}

/// How often the notification `status` is sent.
pub open spec fn count_notices(actions: Seq<ActionView>, status: TaskStatus) -> nat
    decreases actions.len(),
{
    if actions.len() == 0 {
        0
    } else {
        count_notices(actions.drop_last(), status) + if notifies(actions.last(), status) {
            1nat
        } else {
            0nat
        }
    }
}

/// Whether the action looks for the recorded file, or moves it.
pub open spec fn touches_output(action: ActionView) -> bool {
    ||| action is Probe
    ||| action is List
    ||| action is Name
    ||| action is Rename
    ||| action is Copy
    ||| action is Remove
}

/// Whether the process has not been started.
spec fn is_early(step: Step) -> bool {
    ||| step is Ready
    ||| step is CreatingWorkingDirectory
    ||| step is CreatingOutputDirectory
    ||| step is ResolvingCookies
    ||| step is Launching
}

/// Whether the process has been started and its output is being followed.
spec fn is_running(step: Step) -> bool {
    ||| step is Announcing
    ||| step is Receiving
    ||| step is Reporting
    ||| step is Notifying
    ||| step is AwaitingExit
}

/// Whether the recorded file is being looked for, or moved.
spec fn is_moving(step: Step) -> bool {
    ||| step is Probing
    ||| step is Listing
    ||| step is Naming
    ||| step is Renaming
    ||| step is Copying
    ||| step is Removing
}

/// What holds of a recording and of all that it has asked for.
spec fn on_course(r: RecordingView, actions: Seq<ActionView>) -> bool {
    let waiting = count_notices(actions, TaskStatus::Waiting);
    let done = count_notices(actions, TaskStatus::Done);
    &&& waiting <= 1
    &&& done <= 1
    &&& is_early(r.step) ==> waiting == 0 && done == 0
    &&& is_running(r.step) ==> done == 0 && !(r.status.state is Finished)
    &&& waiting > 0 ==> !(r.status.state is Idle)
    &&& waiting > 0 ==> (r.step matches Step::Reporting(previous) ==> !(previous is Idle))
    &&& r.step is Congratulating || r.step is Concluding || is_moving(r.step) ==> (
    r.status.state is Finished <==> done == 1)
    &&& is_moving(r.step) ==> r.status.state is Finished
    &&& r.step matches Step::Copying(source) ==> actions.len() > 0 && actions.last()
        == ActionView::Copy(source)
}

/// Every course keeps what `on_course` says.
proof fn lemma_on_course(
    task: TaskView,
    config: ConfigView,
    now: Timestamp,
    happenings: Seq<Happening>,
)
    requires
        is_course(RecordingView::initial(task, config, now), happenings),
    ensures
        ({
            let (r, actions) = course(RecordingView::initial(task, config, now), happenings);
            &&& on_course(r, actions)
            &&& actions.len() == happenings.len()
        }),
    decreases happenings.len(),
{
    let start = RecordingView::initial(task, config, now);
    if happenings.len() > 0 {
        lemma_on_course(task, config, now, happenings.drop_last());
        let (before, actions) = course(start, happenings.drop_last());
        let (after, action) = before.next(happenings.last().event, happenings.last().now);
        assert(actions.push(action).drop_last() =~= actions);
    }
}

/// The notification that a stream is being waited for is sent once at most, however often
/// the recording goes back to waiting.
pub proof fn law_waiting_is_notified_once(
    task: TaskView,
    config: ConfigView,
    now: Timestamp,
    happenings: Seq<Happening>,
)
    requires
        is_course(RecordingView::initial(task, config, now), happenings),
    ensures
        count_notices(
            course(RecordingView::initial(task, config, now), happenings).1,
            TaskStatus::Waiting,
        ) <= 1,
{
    lemma_on_course(task, config, now, happenings);
}

/// The notification that a recording is done is sent once at most.
pub proof fn law_done_is_notified_once(
    task: TaskView,
    config: ConfigView,
    now: Timestamp,
    happenings: Seq<Happening>,
)
    requires
        is_course(RecordingView::initial(task, config, now), happenings),
    ensures
        count_notices(
            course(RecordingView::initial(task, config, now), happenings).1,
            TaskStatus::Done,
        ) <= 1,
{
    lemma_on_course(task, config, now, happenings);
}

/// The recorded file is looked for, and moved, only when the recording is finished, and
/// after it was notified that it is done.
pub proof fn law_only_finished_recordings_are_moved(
    task: TaskView,
    config: ConfigView,
    now: Timestamp,
    happenings: Seq<Happening>,
)
    requires
        is_course(RecordingView::initial(task, config, now), happenings),
        happenings.len() > 0,
        touches_output(course(RecordingView::initial(task, config, now), happenings).1.last()),
    ensures
        ({
            let (r, actions) = course(RecordingView::initial(task, config, now), happenings);
            &&& r.status.state is Finished
            &&& count_notices(actions, TaskStatus::Done) == 1
        }),
{
    lemma_on_course(task, config, now, happenings);
}

/// The original of a recorded file is removed only right after it was copied: the removal
/// answers a copy of the same file that was done.
pub proof fn law_original_is_removed_after_copy(
    task: TaskView,
    config: ConfigView,
    now: Timestamp,
    happenings: Seq<Happening>,
    source: Source,
)
    requires
        is_course(RecordingView::initial(task, config, now), happenings),
        happenings.len() > 0,
        course(RecordingView::initial(task, config, now), happenings).1.last()
            == ActionView::Remove(source),
    ensures
        ({
            let actions = course(RecordingView::initial(task, config, now), happenings).1;
            &&& happenings.len() > 1
            &&& actions[happenings.len() - 2] == ActionView::Copy(source)
            &&& happenings.last().event == EventView::Performed(true)
        }),
{
    let start = RecordingView::initial(task, config, now);
    lemma_on_course(task, config, now, happenings.drop_last());
    let (before, actions) = course(start, happenings.drop_last());
    assert(course(start, happenings).1 == actions.push(
        before.next(happenings.last().event, happenings.last().now).1,
    ));
}

/// How a recording ends once the process has: one that is complete is notified as done,
/// reported as finished, and its file is looked for; any other is reported as it is, and
/// no file is touched. Whether the messages could be sent makes no difference.
pub proof fn law_ending(r: RecordingView, success: bool, now: Timestamp, sent: bool, sent_too: bool)
    requires
        r.step is AwaitingExit,
        !(r.status.state is Finished),
    ensures
        ({
            let (first, one) = r.next(EventView::Exited(success), now);
            let (second, two) = first.next(EventView::Sent(sent), now);
            let (third, three) = second.next(EventView::Sent(sent_too), now);
            if recording::is_complete(success, r.status.state) {
                let finished = StatusView { state: YTAState::Finished, ..r.status };
                &&& one == ActionView::Send(MessageView::ToNotify(r.task, TaskStatus::Done))
                &&& two == ActionView::Send(MessageView::RecordingStatus(r.task, finished))
                &&& three == (match r.status.output_file {
                    Some(file) => ActionView::Probe(file),
                    None => ActionView::List,
                })
            } else {
                &&& one == ActionView::Send(MessageView::RecordingStatus(r.task, r.status))
                &&& two == ActionView::Finish
                &&& second.step is Over
            }
        }),
{
}

/// A line that comes twice in a row is notified once at most: the state is the same after
/// the second, and a state that stays is worth no notification.
pub proof fn law_repeated_line_is_not_notified(
    s: StatusView,
    raw: Seq<char>,
    event: LineEventView,
    first: Timestamp,
    second: Timestamp,
)
    ensures
        recording::notice_of(
            s.after(raw, event, first).state,
            s.after(raw, event, first).after(raw, event, second).state,
        ) is None,
{
    status::law_repeated_line(s, raw, event, first, second);
}

/// A recording that is over expects nothing more.
pub proof fn law_over_is_final(event: EventView)
    ensures
        !recording::answers(Step::Over, event),
{
}

/// What was done, could not be done, or was found, is expected exactly where it was asked
/// for: whatever a recording asks for can be answered, and by nothing else.
pub proof fn law_answers_fit_what_was_asked(
    r: RecordingView,
    event: EventView,
    now: Timestamp,
    answer: EventView,
)
    requires
        recording::answers(r.step, event),
    ensures
        ({
            let (after, action) = r.next(event, now);
            recording::answers(after.step, answer) <==> match action {
                ActionView::CreateWorkingDirectory => answer is Performed,
                ActionView::CreateOutputDirectory => answer is Performed,
                ActionView::ResolveCookies(_) => answer is Resolved,
                ActionView::Launch(_) => answer is Performed,
                ActionView::Send(_) => answer is Sent,
                ActionView::Receive => answer is Line || answer is Closed,
                ActionView::AwaitExit => answer is Exited,
                ActionView::Probe(_) => answer is Probed,
                ActionView::List => answer is Listed,
                ActionView::Name(_) => answer is Performed,
                ActionView::Rename(_) => answer is Performed,
                ActionView::Copy(_) => answer is Performed,
                ActionView::Remove(_) => answer is Performed,
                ActionView::Finish => false,
                ActionView::Fail(_) => false,
            }
        }),
{
}

/// A recording that has not begun has an initial status, keeps its task and its configuration
/// and expects to begin, and nothing else.
pub proof fn law_new_recording(task: TaskView, config: ConfigView, now: Timestamp, event: EventView)
    ensures
        RecordingView::initial(task, config, now).task == task,
        RecordingView::initial(task, config, now).config == config,
        RecordingView::initial(task, config, now).status == StatusView::initial(now),
        recording::answers(RecordingView::initial(task, config, now).step, event) <==> event is Begin,
{
}

/// Nothing that happens changes the task or the configuration. The status changes where the
/// process was started, which makes it initial, where a line is taken in, and where a
/// recording is complete, which changes its state alone.
pub proof fn law_what_stays(r: RecordingView, event: EventView, now: Timestamp)
    requires
        recording::answers(r.step, event),
    ensures
        r.next(event, now).0.task == r.task,
        r.next(event, now).0.config == r.config,
        !(event matches EventView::Line(_, false)) && !(event is Exited) && !(r.step is Launching
            && event == EventView::Performed(true)) ==> r.next(event, now).0.status == r.status,
        event is Exited ==> r.next(event, now).0.status == (StatusView {
            state: r.next(event, now).0.status.state,
            ..r.status
        }),
{
}

/// How a recording begins: the working directory and the output directory are created, in
/// this order, and each that cannot be ends the recording. Then the cookies file is looked
/// for, where one is configured and the configured arguments name none, and yt-dlp is started
/// with its path, whatever the path; without such a file it is started at once.
pub proof fn law_beginning(
    r: RecordingView,
    path: Seq<char>,
    t1: Timestamp,
    t2: Timestamp,
    t3: Timestamp,
    t4: Timestamp,
)
    requires
        r.step is Ready,
    ensures
        ({
            let (r1, a1) = r.next(EventView::Begin, t1);
            let (r2, a2) = r1.next(EventView::Performed(true), t2);
            let (r3, a3) = r2.next(EventView::Performed(true), t3);
            let (r4, a4) = r3.next(EventView::Resolved(path), t4);
            &&& a1 is CreateWorkingDirectory
            &&& r1.next(EventView::Performed(false), t2).1 == ActionView::Fail(
                Failure::WorkingDirectory,
            )
            &&& a2 is CreateOutputDirectory
            &&& r2.next(EventView::Performed(false), t3).1 == ActionView::Fail(
                Failure::OutputDirectory,
            )
            &&& !r.config.args.contains("--cookies"@) && r.config.cookies_file is Some ==> {
                &&& a3 == ActionView::ResolveCookies(r.config.cookies_file->0)
                &&& a4 == ActionView::Launch(
                    command::recording_args(
                        r.config.args,
                        Some(path),
                        r.config.format,
                        r.task.video_id,
                    ),
                )
                &&& r4.step is Launching
            }
            &&& r.config.args.contains("--cookies"@) || r.config.cookies_file is None ==> {
                &&& a3 == ActionView::Launch(
                    command::recording_args(
                        r.config.args,
                        None,
                        r.config.format,
                        r.task.video_id,
                    ),
                )
                &&& r3.step is Launching
            }
        }),
{
    command::law_wanted_cookies(r.config);
}

/// A process that was started is announced with an initial status, and its output is waited
/// for whether or not that could be sent; one that could not be started ends the recording.
pub proof fn law_start(r: RecordingView, sent: bool, now: Timestamp, later: Timestamp)
    requires
        r.step is Launching,
    ensures
        ({
            let (after, action) = r.next(EventView::Performed(true), now);
            &&& after.status == StatusView::initial(now)
            &&& action == ActionView::Send(
                MessageView::RecordingStatus(r.task, StatusView::initial(now)),
            )
            &&& after.next(EventView::Sent(sent), later).1 is Receive
        }),
        r.next(EventView::Performed(false), now).1 == ActionView::Fail(Failure::Launch),
{
}

/// Every line is taken in, by what it tells, and the status after it is sent, unless the
/// process is over by then, which makes the recording wait for its end, as it does when there
/// is no more output.
pub proof fn law_every_line_is_reported(
    r: RecordingView,
    raw: Seq<char>,
    event: LineEventView,
    now: Timestamp,
)
    requires
        r.step is Receiving,
    ensures
        r.receive(raw, event, now).0.status == r.status.after(raw, event, now),
        r.receive(raw, event, now).0.task == r.task,
        r.receive(raw, event, now).0.config == r.config,
        r.receive(raw, event, now).1 == ActionView::Send(
            MessageView::RecordingStatus(r.task, r.status.after(raw, event, now)),
        ),
        r.next(EventView::Line(raw, false), now) == r.receive(raw, status::event_of(raw), now),
        r.next(EventView::Line(raw, true), now).1 is AwaitExit,
        r.next(EventView::Closed, now).1 is AwaitExit,
{
}

/// After a line whose status was sent, a change of state is notified: each change to
/// recording as such, each change to interrupted or failed as a failure, and a change to
/// waiting where nothing was known before. Then, and where nothing is notified, the next
/// line is waited for. Where a message cannot be sent, the end of the process is.
pub proof fn law_changes_are_notified(
    r: RecordingView,
    raw: Seq<char>,
    event: LineEventView,
    now: Timestamp,
    later: Timestamp,
)
    requires
        r.step is Receiving,
        !(r.status.state is Finished),
    ensures
        ({
            let after = r.receive(raw, event, now).0;
            let (next, action) = after.next(EventView::Sent(true), later);
            let from = r.status.state;
            let to = r.status.after(raw, event, now).state;
            &&& to is Recording && !(from is Recording) ==> action == ActionView::Send(
                MessageView::ToNotify(r.task, TaskStatus::Recording),
            )
            &&& to is Interrupted && !(from is Interrupted) ==> action == ActionView::Send(
                MessageView::ToNotify(r.task, TaskStatus::Failed),
            )
            &&& to is Errored && !(from is Errored) ==> action == ActionView::Send(
                MessageView::ToNotify(r.task, TaskStatus::Failed),
            )
            &&& to is Waiting && from is Idle ==> action == ActionView::Send(
                MessageView::ToNotify(r.task, TaskStatus::Waiting),
            )
            &&& to == from || (to is Waiting && !(from is Idle)) || to is Muxing
                || to is AlreadyProcessed ==> action is Receive
            &&& action is Send ==> next.next(EventView::Sent(true), later).1 is Receive
            &&& action is Send ==> next.next(EventView::Sent(false), later).1 is AwaitExit
            &&& after.next(EventView::Sent(false), later).1 is AwaitExit
        }),
{
    status::law_lines_neither_idle_nor_finish(r.status, raw, event, now);
}

/// The end of the process completes what is being muxed, whether or not it reports success,
/// and with success also what records and what told nothing. Only what is complete is
/// notified, as done; anything else is reported as it is.
pub proof fn law_exit(r: RecordingView, success: bool, now: Timestamp)
    requires
        r.step is AwaitingExit,
    ensures
        ({
            let (after, action) = r.next(EventView::Exited(success), now);
            let usable = r.status.state is Muxing || (success && (r.status.state is Recording
                || r.status.state is Idle));
            &&& usable ==> after.status.state is Finished && action == ActionView::Send(
                MessageView::ToNotify(r.task, TaskStatus::Done),
            )
            &&& !usable ==> after.status == r.status && action == ActionView::Send(
                MessageView::RecordingStatus(r.task, r.status),
            )
        }),
{
}

/// How the recorded file is found: the one that was named, where it exists, and else the
/// first in the working directory that holds the identifier of the video and is no partial
/// download. Where there is none, the recording fails, and then every name that holds the
/// identifier is that of a partial download.
pub proof fn law_file_is_found(r: RecordingView, names: Seq<Seq<char>>, now: Timestamp)
    requires
        names.len() <= usize::MAX,
    ensures
        r.step is Probing ==> r.next(EventView::Probed(true), now).1 == ActionView::Name(
            Source::Captured,
        ),
        r.step is Probing ==> r.next(EventView::Probed(false), now).1 is List,
        r.step is Listing ==> match r.next(EventView::Listed(names), now).1 {
            ActionView::Name(Source::Listed(i)) => {
                &&& i < names.len()
                &&& text::has_text(names[i as int], r.task.video_id)
                &&& !".part"@.is_suffix_of(names[i as int])
                &&& !".ytdl"@.is_suffix_of(names[i as int])
                &&& !text::has_text(names[i as int], ".frag"@)
                &&& forall|j: int|
                    0 <= j < i && text::has_text(#[trigger] names[j], r.task.video_id)
                        ==> ".part"@.is_suffix_of(names[j]) || ".ytdl"@.is_suffix_of(names[j])
                        || text::has_text(names[j], ".frag"@)
            },
            ActionView::Fail(Failure::NoOutput) => forall|j: int|
                0 <= j < names.len() && text::has_text(#[trigger] names[j], r.task.video_id)
                    ==> ".part"@.is_suffix_of(names[j]) || ".ytdl"@.is_suffix_of(names[j])
                    || text::has_text(names[j], ".frag"@),
            _ => false,
        },
{
    recording::law_found_output(names, r.task.video_id);
}

/// How the recorded file gets to the output directory: it is renamed, once it is known by
/// which name, and nothing more is done where that works; else it is copied and then the
/// original is removed. It is the same file throughout. A copy or a removal that does not
/// work ends the recording, as does a file without a name.
pub proof fn law_file_is_moved(r: RecordingView, source: Source, now: Timestamp)
    requires
        r.step == Step::Naming(source),
    ensures
        ({
            let (named, rename) = r.next(EventView::Performed(true), now);
            let (refused, copy) = named.next(EventView::Performed(false), now);
            let (copied, remove) = refused.next(EventView::Performed(true), now);
            &&& r.next(EventView::Performed(false), now).1 == ActionView::Fail(Failure::NoFileName)
            &&& rename == ActionView::Rename(source)
            &&& named.next(EventView::Performed(true), now).1 is Finish
            &&& copy == ActionView::Copy(source)
            &&& refused.next(EventView::Performed(false), now).1 == ActionView::Fail(Failure::Copy)
            &&& remove == ActionView::Remove(source)
            &&& copied.next(EventView::Performed(true), now).1 is Finish
            &&& copied.next(EventView::Performed(false), now).1 == ActionView::Fail(Failure::Remove)
        }),
{
}

/// What is asked for once a file was found is taken up where the answer to it is expected.
pub proof fn law_found_file_is_named(r: RecordingView, event: EventView, now: Timestamp)
    requires
        recording::answers(r.step, event),
        event is Probed || event is Listed,
    ensures
        r.next(event, now).1 matches ActionView::Name(source) ==> r.next(event, now).0.step
            == Step::Naming(source),
{
}

} // verus!
