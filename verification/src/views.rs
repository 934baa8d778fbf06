//! What the views show of the values that they stand for: every part of them, as it is.
use vstd::prelude::*;

use crate::clock::Timestamp;
use crate::command::YtDlpConfig;
use crate::framing::{Framed, FramedView};
use crate::recorder::{Dispatch, DispatchView};
use crate::recording::{Action, ActionView, Event, EventView, Failure, Place, PlaceView, Source};
use crate::status::{LineEvent, LineEventView, LineMatches, YTAStatus};
use crate::task::{Message, MessageView, Notification, RecordingStatus, Task};
use crate::web::{
    Demand, DemandView, Outcome, OutcomeView, Reply, ReplyView, Stage, StageView, YtDlpMeta,
};

verus! {

/// The view of a status shows each of its parts.
pub proof fn law_status_is_shown(s: YTAStatus)
    ensures
        s@.version == s.version.deep_view(),
        s@.state == s.state,
        s@.last_output == s.last_output.deep_view(),
        s@.last_update == s.last_update,
        s@.video_fragments == s.video_fragments,
        s@.audio_fragments == s.audio_fragments,
        s@.total_size == s.total_size.deep_view(),
        s@.video_quality == s.video_quality.deep_view(),
        s@.output_file == s.output_file.deep_view(),
{
}

/// The view of what was found in a line shows each of its parts.
pub proof fn law_matches_are_shown(m: LineMatches)
    ensures
        m@.start_time == m.start_time,
        m@.progress == m.progress.deep_view(),
        m.fragments matches Some((count, size)) ==> m@.fragments == Some((count@, size@)),
        m.fragments is None ==> m@.fragments is None,
        m@.format == m.format.deep_view(),
{
}

/// The view of what a line tells shows its kind and what it tells.
pub proof fn law_line_events_are_shown(
    time: Option<Timestamp>,
    count: Option<u32>,
    text: String,
)
    ensures
        LineEvent::Waiting(time)@ == LineEventView::Waiting(time),
        LineEvent::Destination(text)@ == LineEventView::Destination(text@),
        LineEvent::Merging(text)@ == LineEventView::Merging(text@),
        LineEvent::Progress(text)@ == LineEventView::Progress(text@),
        LineEvent::Fragments(count, text)@ == LineEventView::Fragments(count, text@),
        LineEvent::FragmentStarted@ is FragmentStarted,
        LineEvent::Format(text)@ == LineEventView::Format(text@),
        LineEvent::Error@ is Error,
        LineEvent::Interrupted@ is Interrupted,
        LineEvent::Ended@ is Ended,
        LineEvent::Countdown@ is Countdown,
        LineEvent::Ignored@ is Ignored,
        LineEvent::Unrecognized@ is Unrecognized,
{
}

/// The view of a task shows each of its parts.
pub proof fn law_task_is_shown(t: Task)
    ensures
        t@.title == t.title@,
        t@.video_id == t.video_id@,
        t@.video_picture == t.video_picture@,
        t@.channel_name == t.channel_name@,
        t@.channel_id == t.channel_id@,
        t@.channel_picture == t.channel_picture.deep_view(),
        t@.output_directory == t.output_directory@,
{
}

/// The view of a message shows its kind, its task and its status.
pub proof fn law_messages_are_shown(task: Task, notification: Notification, report: RecordingStatus)
    ensures
        Message::ToRecord(task)@ == MessageView::ToRecord(task@),
        Message::ToNotify(notification)@ == MessageView::ToNotify(
            notification.task@,
            notification.status,
        ),
        Message::RecordingStatus(report)@ == MessageView::RecordingStatus(
            report.task@,
            report.status@,
        ),
{
}

/// The view of the configuration shows each of its parts.
pub proof fn law_config_is_shown(c: YtDlpConfig)
    ensures
        c@.args.len() == c.args@.len(),
        forall|i: int| 0 <= i < c.args@.len() ==> #[trigger] c@.args[i] == c.args@[i]@,
        c@.cookies_file == c.cookies_file.deep_view(),
        c@.format == c.format@,
{
}

/// The view of an action shows its kind and what it is about.
pub proof fn law_actions_are_shown(
    text: String,
    args: Vec<String>,
    message: Message,
    source: Source,
    failure: Failure,
)
    ensures
        Action::CreateWorkingDirectory@ is CreateWorkingDirectory,
        Action::CreateOutputDirectory@ is CreateOutputDirectory,
        Action::ResolveCookies(text)@ == ActionView::ResolveCookies(text@),
        Action::Launch(args)@ == ActionView::Launch(args.deep_view()),
        Action::Send(message)@ == ActionView::Send(message@),
        Action::Receive@ is Receive,
        Action::AwaitExit@ is AwaitExit,
        Action::Probe(text)@ == ActionView::Probe(text@),
        Action::List@ is List,
        Action::Name(source)@ == ActionView::Name(source),
        Action::Rename(source)@ == ActionView::Rename(source),
        Action::Copy(source)@ == ActionView::Copy(source),
        Action::Remove(source)@ == ActionView::Remove(source),
        Action::Finish@ is Finish,
        Action::Fail(failure)@ == ActionView::Fail(failure),
{
}

/// The view of an event shows its kind and what came of it.
pub proof fn law_events_are_shown(ok: bool, text: String, names: Vec<String>)
    ensures
        Event::Begin@ is Begin,
        Event::Performed(ok)@ == EventView::Performed(ok),
        Event::Resolved(text)@ == EventView::Resolved(text@),
        Event::Sent(ok)@ == EventView::Sent(ok),
        Event::Line(text, ok)@ == EventView::Line(text@, ok),
        Event::Closed@ is Closed,
        Event::Exited(ok)@ == EventView::Exited(ok),
        Event::Probed(ok)@ == EventView::Probed(ok),
        Event::Listed(names)@ == EventView::Listed(names.deep_view()),
{
}

/// The views of a place, of what came of a byte and of what becomes of a message show their
/// kind and their text or task.
pub proof fn law_small_results_are_shown(text: String, task: Task)
    ensures
        Place::AsNamed(text)@ == PlaceView::AsNamed(text@),
        Place::InWorkingDirectory(text)@ == PlaceView::InWorkingDirectory(text@),
        Framed::More@ is More,
        Framed::Blank@ is Blank,
        Framed::Line(text)@ == FramedView::Line(text@),
        Framed::Invalid@ is Invalid,
        Dispatch::Ignore@ is Ignore,
        Dispatch::Skip(task)@ == DispatchView::Skip(task@),
        Dispatch::Enqueue(task)@ == DispatchView::Enqueue(task@),
{
}

/// The view of an answer shows its kind and its text or content.
pub proof fn law_replies_are_shown(text: String, content: Vec<u8>)
    ensures
        Reply::Accepted@ is Accepted,
        Reply::Json(text)@ == ReplyView::Json(text@),
        Reply::Text(text)@ == ReplyView::Text(text@),
        Reply::File(text, content)@ == ReplyView::File(text@, content@),
        Reply::BadRequest(text)@ == ReplyView::BadRequest(text@),
        Reply::NotFound(text)@ == ReplyView::NotFound(text@),
        Reply::InternalServerError(text)@ == ReplyView::InternalServerError(text@),
{
}

/// The view of what is known of a video shows each of its parts.
pub proof fn law_meta_is_shown(m: YtDlpMeta)
    ensures
        m@.id == m.id@,
        m@.title == m.title@,
        m@.uploader == m.uploader@,
        m@.channel_id == m.channel_id@,
        m@.thumbnail == m.thumbnail.deep_view(),
{
}

/// The views of what a request has come to and of what it demands show their kind and what
/// they are about.
pub proof fn law_demands_are_shown(
    text: String,
    args: Vec<String>,
    output: Vec<u8>,
    task: Task,
    reply: Reply,
)
    ensures
        Stage::Ready@ is Ready,
        Stage::ParsingUrl@ is ParsingUrl,
        Stage::FindingCookies(text)@ == StageView::FindingCookies(text@),
        Stage::Querying@ is Querying,
        Stage::ReadingMetadata@ is ReadingMetadata,
        Stage::Queueing@ is Queueing,
        Stage::Answered@ is Answered,
        Demand::ParseUrl(text)@ == DemandView::ParseUrl(text@),
        Demand::FindCookies@ is FindCookies,
        Demand::Query(args)@ == DemandView::Query(args.deep_view()),
        Demand::ReadMetadata(output)@ == DemandView::ReadMetadata(output@),
        Demand::Queue(task)@ == DemandView::Queue(task@),
        Demand::Answer(reply)@ == DemandView::Answer(reply@),
{
}

/// The view of an outcome shows its kind and what it came to.
pub proof fn law_outcomes_are_shown(
    text: String,
    found: Option<String>,
    success: bool,
    output: Vec<u8>,
    errors: Vec<u8>,
    meta: YtDlpMeta,
)
    ensures
        Outcome::Arrived@ is Arrived,
        Outcome::UrlInvalid(text)@ == OutcomeView::UrlInvalid(text@),
        Outcome::UrlParsed(found)@ == OutcomeView::UrlParsed(found.deep_view()),
        Outcome::Cookies(found)@ == OutcomeView::Cookies(found.deep_view()),
        Outcome::QueryFailed(text)@ == OutcomeView::QueryFailed(text@),
        Outcome::QueryEnded(success, output, errors)@ == OutcomeView::QueryEnded(
            success,
            output@,
            errors@,
        ),
        Outcome::MetadataInvalid(text)@ == OutcomeView::MetadataInvalid(text@),
        Outcome::MetadataRead(meta)@ == OutcomeView::MetadataRead(meta@),
        Outcome::QueueFailed(text)@ == OutcomeView::QueueFailed(text@),
        Outcome::Queued@ is Queued,
{
}

} // verus!
