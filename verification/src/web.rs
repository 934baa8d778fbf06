//! The decisions behind the web interface.
use vstd::prelude::*;
use vstd::string::StringExecFns;

use crate::command;
use crate::command::query_command;
use crate::encoding;
use crate::encoding::utf8_lossy;
use crate::task::{Task, TaskView};
use crate::text;

verus! {

/// What a request is answered.
#[derive(Debug)]
pub enum Reply {
    /// 202, without a body.
    Accepted,
    /// 200, with this text as a JSON value.
    Json(String),
    /// 200, with this text.
    Text(String),
    /// 200, with a file: its content type and its content.
    File(String, Vec<u8>),
    /// 400, with this text.
    BadRequest(String),
    /// 404, with this text.
    NotFound(String),
    /// 500, with this text.
    InternalServerError(String),
}

/// An answer with its texts as sequences of characters.
pub enum ReplyView {
    Accepted,
    Json(Seq<char>),
    Text(Seq<char>),
    File(Seq<char>, Seq<u8>),
    BadRequest(Seq<char>),
    NotFound(Seq<char>),
    InternalServerError(Seq<char>),
}

impl View for Reply {
    type V = ReplyView;

    open spec fn view(&self) -> ReplyView {
        match *self {
            Reply::Accepted => ReplyView::Accepted,
            Reply::Json(text) => ReplyView::Json(text@),
            Reply::Text(text) => ReplyView::Text(text@),
            Reply::File(content_type, content) => ReplyView::File(content_type@, content@),
            Reply::BadRequest(text) => ReplyView::BadRequest(text@),
            Reply::NotFound(text) => ReplyView::NotFound(text@),
            Reply::InternalServerError(text) => ReplyView::InternalServerError(text@),
        }
    }
}

/// A request to record a video.
#[derive(Debug)]
pub struct CreateTaskRequest {
    pub video_url: String,
    pub output_directory: String,
}

/// What yt-dlp knows of a video.
#[derive(Debug)]
pub struct YtDlpMeta {
    pub id: String,
    pub title: String,
    pub uploader: String,
    pub channel_id: String,
    pub thumbnail: Option<String>,
}

/// What yt-dlp knows of a video, with the texts as sequences of characters.
pub struct MetaView {
    pub id: Seq<char>,
    pub title: Seq<char>,
    pub uploader: Seq<char>,
    pub channel_id: Seq<char>,
    pub thumbnail: Option<Seq<char>>,
}

impl View for YtDlpMeta {
    type V = MetaView;

    open spec fn view(&self) -> MetaView {
        MetaView {
            id: self.id@,
            title: self.title@,
            uploader: self.uploader@,
            channel_id: self.channel_id@,
            thumbnail: self.thumbnail.deep_view(),
        }
    }
}

/// The task to record a video into `output_directory`.
pub open spec fn task_of(meta: MetaView, output_directory: Seq<char>) -> TaskView {
    TaskView {
        title: meta.title,
        video_id: meta.id,
        video_picture: match meta.thumbnail {
            Some(picture) => picture,
            None => Seq::empty(),
        },
        channel_name: meta.uploader,
        channel_id: meta.channel_id,
        channel_picture: None,
        output_directory,
    }
}

/// The task to record a video into `output_directory`.
pub fn make_task(meta: YtDlpMeta, output_directory: String) -> (r: Task)
    ensures
        r@ == task_of(meta@, output_directory@),
        r.video_id@ == meta.id@,
        r.title@ == meta.title@,
        r.channel_name@ == meta.uploader@,
        r.channel_id@ == meta.channel_id@,
        meta.thumbnail matches Some(picture) ==> r.video_picture@ == picture@,
        meta.thumbnail is None ==> r.video_picture@.len() == 0,
        r.channel_picture is None,
        r.output_directory@ == output_directory@,
{
    Task {
        title: meta.title,
        video_id: meta.id,
        video_picture: match meta.thumbnail {
            Some(picture) => picture,
            None => String::new(),
        },
        channel_name: meta.uploader,
        channel_id: meta.channel_id,
        channel_picture: None,
        output_directory,
    }
}

/// What is said of a query that yt-dlp did not succeed with, by its error output: the
/// last line of it.
pub open spec fn query_failure(errors: Seq<char>) -> Seq<char> {
    "yt-dlp failed: "@ + match text::last_line_of(errors) {
        Some(line) => line,
        None => "unknown error"@,
    }
}

/// What is said of a query that yt-dlp did not succeed with, by its error output.
pub fn describe_query_failure(errors: &str) -> (r: String)
    ensures
        r@ == query_failure(errors@),
{
    let line: &str = match text::last_line(errors) {
        Some(line) => line,
        None => "unknown error",
    };
    "yt-dlp failed: ".to_owned().concat(line)
}

/// How far a request to record a video has got: what was asked for last.
#[derive(Debug)]
pub enum Stage {
    Ready,
    ParsingUrl,
    /// The cookies file is being looked for, for a query of this video.
    FindingCookies(String),
    Querying,
    ReadingMetadata,
    Queueing,
    Answered,
}

/// A stage with its texts as sequences of characters.
pub enum StageView {
    Ready,
    ParsingUrl,
    FindingCookies(Seq<char>),
    Querying,
    ReadingMetadata,
    Queueing,
    Answered,
}

impl View for Stage {
    type V = StageView;

    open spec fn view(&self) -> StageView {
        match *self {
            Stage::Ready => StageView::Ready,
            Stage::ParsingUrl => StageView::ParsingUrl,
            Stage::FindingCookies(video_id) => StageView::FindingCookies(video_id@),
            Stage::Querying => StageView::Querying,
            Stage::ReadingMetadata => StageView::ReadingMetadata,
            Stage::Queueing => StageView::Queueing,
            Stage::Answered => StageView::Answered,
        }
    }
}

/// What to do next for a request to record a video.
#[derive(Debug)]
pub enum Demand {
    /// Find out which video this address is of.
    ParseUrl(String),
    /// Make the path to the cookies file absolute, where one is configured.
    FindCookies,
    /// Run yt-dlp with these arguments.
    Query(Vec<String>),
    /// Read what yt-dlp printed.
    ReadMetadata(Vec<u8>),
    /// Hand the task to the recorder.
    Queue(Task),
    /// Answer the request.
    Answer(Reply),
}

/// A demand with its texts as sequences of characters.
pub enum DemandView {
    ParseUrl(Seq<char>),
    FindCookies,
    Query(Seq<Seq<char>>),
    ReadMetadata(Seq<u8>),
    Queue(TaskView),
    Answer(ReplyView),
}

impl View for Demand {
    type V = DemandView;

    open spec fn view(&self) -> DemandView {
        match *self {
            Demand::ParseUrl(url) => DemandView::ParseUrl(url@),
            Demand::FindCookies => DemandView::FindCookies,
            Demand::Query(args) => DemandView::Query(args.deep_view()),
            Demand::ReadMetadata(output) => DemandView::ReadMetadata(output@),
            Demand::Queue(task) => DemandView::Queue(task@),
            Demand::Answer(reply) => DemandView::Answer(reply@),
        }
    }
}

/// What happened to a request to record a video. The texts of errors say what went wrong.
#[derive(Debug)]
pub enum Outcome {
    /// The request has arrived.
    Arrived,
    UrlInvalid(String),
    /// The address is of this video, or of something else.
    UrlParsed(Option<String>),
    /// The path to the cookies file, if one is configured.
    Cookies(Option<String>),
    /// yt-dlp could not be run.
    QueryFailed(String),
    /// yt-dlp has ended: whether with success, its output, and its error output.
    QueryEnded(bool, Vec<u8>, Vec<u8>),
    MetadataInvalid(String),
    MetadataRead(YtDlpMeta),
    QueueFailed(String),
    Queued,
}

/// An outcome with its texts as sequences of characters.
pub enum OutcomeView {
    Arrived,
    UrlInvalid(Seq<char>),
    UrlParsed(Option<Seq<char>>),
    Cookies(Option<Seq<char>>),
    QueryFailed(Seq<char>),
    QueryEnded(bool, Seq<u8>, Seq<u8>),
    MetadataInvalid(Seq<char>),
    MetadataRead(MetaView),
    QueueFailed(Seq<char>),
    Queued,
}

impl View for Outcome {
    type V = OutcomeView;

    open spec fn view(&self) -> OutcomeView {
        match *self {
            Outcome::Arrived => OutcomeView::Arrived,
            Outcome::UrlInvalid(error) => OutcomeView::UrlInvalid(error@),
            Outcome::UrlParsed(video_id) => OutcomeView::UrlParsed(video_id.deep_view()),
            Outcome::Cookies(path) => OutcomeView::Cookies(path.deep_view()),
            Outcome::QueryFailed(error) => OutcomeView::QueryFailed(error@),
            Outcome::QueryEnded(success, output, errors) => OutcomeView::QueryEnded(
                success,
                output@,
                errors@,
            ),
            Outcome::MetadataInvalid(error) => OutcomeView::MetadataInvalid(error@),
            Outcome::MetadataRead(meta) => OutcomeView::MetadataRead(meta@),
            Outcome::QueueFailed(error) => OutcomeView::QueueFailed(error@),
            Outcome::Queued => OutcomeView::Queued,
        }
    }
}

/// Whether the outcome is one of what was asked for.
pub open spec fn meets(stage: StageView, outcome: OutcomeView) -> bool {
    match outcome {
        OutcomeView::Arrived => stage is Ready,
        OutcomeView::UrlInvalid(_) => stage is ParsingUrl,
        OutcomeView::UrlParsed(_) => stage is ParsingUrl,
        OutcomeView::Cookies(_) => stage is FindingCookies,
        OutcomeView::QueryFailed(_) => stage is Querying,
        OutcomeView::QueryEnded(_, _, _) => stage is Querying,
        OutcomeView::MetadataInvalid(_) => stage is ReadingMetadata,
        OutcomeView::MetadataRead(_) => stage is ReadingMetadata,
        OutcomeView::QueueFailed(_) => stage is Queueing,
        OutcomeView::Queued => stage is Queueing,
    }
}

/// A request to record a video, on its way to an answer.
#[derive(Debug)]
pub struct Submission {
    video_url: String,
    output_directory: String,
    stage: Stage,
}

/// A request on its way, with its texts as sequences of characters.
pub struct SubmissionView {
    pub video_url: Seq<char>,
    pub output_directory: Seq<char>,
    pub stage: StageView,
}

impl View for Submission {
    type V = SubmissionView;

    closed spec fn view(&self) -> SubmissionView {
        SubmissionView {
            video_url: self.video_url@,
            output_directory: self.output_directory@,
            stage: self.stage@,
        }
    }
}

impl SubmissionView {
    /// Goes to `stage` with `demand`.
    pub open spec fn demand(self, stage: StageView, demand: DemandView) -> (
        SubmissionView,
        DemandView,
    ) {
        (SubmissionView { stage, ..self }, demand)
    }

    /// Answers the request.
    pub open spec fn answer(self, reply: ReplyView) -> (SubmissionView, DemandView) {
        self.demand(StageView::Answered, DemandView::Answer(reply))
    }

    /// What comes after the query has ended, with the error output as text.
    pub open spec fn after_query(self, success: bool, output: Seq<u8>, errors: Seq<char>) -> (
        SubmissionView,
        DemandView,
    ) {
        if success {
            self.demand(StageView::ReadingMetadata, DemandView::ReadMetadata(output))
        } else {
            self.answer(ReplyView::InternalServerError(query_failure(errors)))
        }
    }

    /// What comes after the outcome.
    pub open spec fn next(self, outcome: OutcomeView) -> (SubmissionView, DemandView) {
        match outcome {
            OutcomeView::Arrived => self.demand(
                StageView::ParsingUrl,
                DemandView::ParseUrl(self.video_url),
            ),
            OutcomeView::UrlInvalid(error) => self.answer(ReplyView::BadRequest(error)),
            OutcomeView::UrlParsed(video_id) => match video_id {
                Some(id) => self.demand(StageView::FindingCookies(id), DemandView::FindCookies),
                None => self.answer(ReplyView::BadRequest("Not a video URL"@)),
            },
            OutcomeView::Cookies(path) => self.demand(
                StageView::Querying,
                DemandView::Query(command::query_args(path, self.stage->FindingCookies_0)),
            ),
            OutcomeView::QueryFailed(error) => self.answer(
                ReplyView::InternalServerError("Failed to run yt-dlp: "@ + error),
            ),
            OutcomeView::QueryEnded(success, output, errors) => self.after_query(
                success,
                output,
                encoding::lossy_text(errors),
            ),
            OutcomeView::MetadataInvalid(error) => self.answer(
                ReplyView::InternalServerError("Failed to parse yt-dlp output: "@ + error),
            ),
            OutcomeView::MetadataRead(meta) => self.demand(
                StageView::Queueing,
                DemandView::Queue(task_of(meta, self.output_directory)),
            ),
            OutcomeView::QueueFailed(error) => self.answer(ReplyView::InternalServerError(error)),
            OutcomeView::Queued => self.answer(ReplyView::Accepted),
        }
    }
}

impl Submission {
    /// The request at its arrival.
    pub fn new(request: CreateTaskRequest) -> (r: Self)
        ensures
            r@ == (SubmissionView {
                video_url: request.video_url@,
                output_directory: request.output_directory@,
                stage: StageView::Ready,
            }),
    {
        Submission {
            video_url: request.video_url,
            output_directory: request.output_directory,
            stage: Stage::Ready,
        }
    }

    /// Whether the outcome is one of what was asked for.
    pub fn expects(&self, outcome: &Outcome) -> (r: bool)
        ensures
            r == meets(self@.stage, outcome@),
    {
        match outcome {
            Outcome::Arrived => matches!(self.stage, Stage::Ready),
            Outcome::UrlInvalid(_) | Outcome::UrlParsed(_) => matches!(
                self.stage,
                Stage::ParsingUrl
            ),
            Outcome::Cookies(_) => matches!(self.stage, Stage::FindingCookies(_)),
            Outcome::QueryFailed(_) | Outcome::QueryEnded(_, _, _) => matches!(
                self.stage,
                Stage::Querying
            ),
            Outcome::MetadataInvalid(_) | Outcome::MetadataRead(_) => matches!(
                self.stage,
                Stage::ReadingMetadata
            ),
            Outcome::QueueFailed(_) | Outcome::Queued => matches!(self.stage, Stage::Queueing),
        }
    }

    /// Goes to `stage` with `demand`.
    fn demand(&mut self, stage: Stage, demand: Demand) -> (r: Demand)
        ensures
            (final(self)@, r@) == old(self)@.demand(stage@, demand@),
    {
        self.stage = stage;
        demand
    }

    /// Answers the request.
    fn answer(&mut self, reply: Reply) -> (r: Demand)
        ensures
            (final(self)@, r@) == old(self)@.answer(reply@),
    {
        self.demand(Stage::Answered, Demand::Answer(reply))
    }

    /// Takes in that the query has ended, with the error output as text, and says what to
    /// do next.
    pub fn query_ended(&mut self, success: bool, output: Vec<u8>, errors: &str) -> (r: Demand)
        requires
            old(self)@.stage is Querying,
        ensures
            (final(self)@, r@) == old(self)@.after_query(success, output@, errors@),
    {
        if success {
            self.demand(Stage::ReadingMetadata, Demand::ReadMetadata(output))
        } else {
            self.answer(Reply::InternalServerError(describe_query_failure(errors)))
        }
    }

    /// Takes in what happened and says what to do next.
    pub fn advance(&mut self, outcome: Outcome) -> (r: Demand)
        requires
            meets(old(self)@.stage, outcome@),
        ensures
            (final(self)@, r@) == old(self)@.next(outcome@),
            outcome@ matches OutcomeView::QueryEnded(success, output, errors) ==> (
            vstd::utf8::valid_utf8(errors) ==> (final(self)@, r@) == old(self)@.after_query(
                success,
                output,
                vstd::utf8::decode_utf8(errors),
            )),
    {
        match outcome {
            Outcome::Arrived => {
                let url = self.video_url.clone();
                self.demand(Stage::ParsingUrl, Demand::ParseUrl(url))
            },
            Outcome::UrlInvalid(error) => self.answer(Reply::BadRequest(error)),
            Outcome::UrlParsed(video_id) => match video_id {
                Some(id) => self.demand(Stage::FindingCookies(id), Demand::FindCookies),
                None => self.answer(Reply::BadRequest("Not a video URL".to_owned())),
            },
            Outcome::Cookies(path) => {
                let video_id = match &self.stage {
                    Stage::FindingCookies(id) => id.clone(),
                    _ => String::new(),
                };
                let args = query_command(path, video_id.as_str());
                self.demand(Stage::Querying, Demand::Query(args))
            },
            Outcome::QueryFailed(error) => self.answer(
                Reply::InternalServerError(
                    "Failed to run yt-dlp: ".to_owned().concat(error.as_str()),
                ),
            ),
            Outcome::QueryEnded(success, output, errors) => {
                let text = utf8_lossy(errors.as_slice());
                self.query_ended(success, output, text.as_str())
            },
            Outcome::MetadataInvalid(error) => self.answer(
                Reply::InternalServerError(
                    "Failed to parse yt-dlp output: ".to_owned().concat(error.as_str()),
                ),
            ),
            Outcome::MetadataRead(meta) => {
                let directory = self.output_directory.clone();
                self.demand(Stage::Queueing, Demand::Queue(make_task(meta, directory)))
            },
            Outcome::QueueFailed(error) => self.answer(Reply::InternalServerError(error)),
            Outcome::Queued => self.answer(Reply::Accepted),
        }
    }
}

/// The request after all outcomes, and what it demanded after each.
pub open spec fn progress(start: SubmissionView, outcomes: Seq<OutcomeView>) -> (
    SubmissionView,
    Seq<DemandView>,
)
    decreases outcomes.len(),
{
    if outcomes.len() == 0 {
        (start, Seq::empty())
    } else {
        let (before, demands) = progress(start, outcomes.drop_last());
        let (after, demand) = before.next(outcomes.last());
        (after, demands.push(demand))
    }
}

/// Whether every outcome was one of what was asked for.
pub open spec fn is_progress(start: SubmissionView, outcomes: Seq<OutcomeView>) -> bool
    decreases outcomes.len(),
{
    outcomes.len() > 0 ==> is_progress(start, outcomes.drop_last()) && meets(
        progress(start, outcomes.drop_last()).0.stage,
        outcomes.last(),
    )
}

/// What was demanded last is known by the stage.
proof fn lemma_stage_by_demand(start: SubmissionView, outcomes: Seq<OutcomeView>)
    requires
        start.stage is Ready,
        is_progress(start, outcomes),
    ensures
        ({
            let (s, demands) = progress(start, outcomes);
            &&& demands.len() == outcomes.len()
            &&& s.stage is Queueing ==> demands.len() > 0 && demands.last() is Queue
        }),
    decreases outcomes.len(),
{
    if outcomes.len() > 0 {
        lemma_stage_by_demand(start, outcomes.drop_last());
    }
}

/// A request is accepted only when its task was handed to the recorder.
pub proof fn law_accepted_requests_are_queued(start: SubmissionView, outcomes: Seq<OutcomeView>)
    requires
        start.stage is Ready,
        is_progress(start, outcomes),
        outcomes.len() > 0,
        progress(start, outcomes).1.last() == DemandView::Answer(ReplyView::Accepted),
    ensures
        outcomes.last() is Queued,
        outcomes.len() > 1,
        progress(start, outcomes).1[outcomes.len() - 2] is Queue,
{
    lemma_stage_by_demand(start, outcomes.drop_last());
    let (before, demands) = progress(start, outcomes.drop_last());
    assert(progress(start, outcomes).1 == demands.push(before.next(outcomes.last()).1));
}

/// A request for a video that yt-dlp knows is queued and accepted: the address is parsed,
/// yt-dlp is asked for the video, and the task is made of what it knows.
pub proof fn law_known_video_is_queued(
    start: SubmissionView,
    video_id: Seq<char>,
    cookies: Option<Seq<char>>,
    output: Seq<u8>,
    errors: Seq<u8>,
    meta: MetaView,
)
    requires
        start.stage is Ready,
    ensures
        ({
            let (s1, d1) = start.next(OutcomeView::Arrived);
            let (s2, d2) = s1.next(OutcomeView::UrlParsed(Some(video_id)));
            let (s3, d3) = s2.next(OutcomeView::Cookies(cookies));
            let (s4, d4) = s3.next(OutcomeView::QueryEnded(true, output, errors));
            let (s5, d5) = s4.next(OutcomeView::MetadataRead(meta));
            let (s6, d6) = s5.next(OutcomeView::Queued);
            &&& d1 == DemandView::ParseUrl(start.video_url)
            &&& d2 == DemandView::FindCookies
            &&& d3 == DemandView::Query(command::query_args(cookies, video_id))
            &&& d4 == DemandView::ReadMetadata(output)
            &&& d5 == DemandView::Queue(task_of(meta, start.output_directory))
            &&& d6 == DemandView::Answer(ReplyView::Accepted)
            &&& s6.stage is Answered
        }),
{
}

/// A request is blamed on the client exactly when its address is not that of a video;
/// whatever fails later is the server's fault. A request is answered once.
pub proof fn law_refusals(s: SubmissionView, outcome: OutcomeView)
    requires
        meets(s.stage, outcome),
    ensures
        s.next(outcome).1 matches DemandView::Answer(ReplyView::BadRequest(_)) <==> (outcome
            is UrlInvalid || outcome == OutcomeView::UrlParsed(None)),
        s.next(outcome).1 matches DemandView::Answer(ReplyView::InternalServerError(_)) <==> (
        outcome is QueryFailed || (outcome is QueryEnded && !(outcome->QueryEnded_0)) || outcome
            is MetadataInvalid || outcome is QueueFailed),
        s.next(outcome).1 is Answer <==> s.next(outcome).0.stage is Answered,
        !(s.stage is Answered),
{
}

/// The answer to a request to read the configuration anew, or what went wrong.
pub fn reload_reply(failure: Option<String>) -> (r: Reply)
    ensures
        r@ == (match failure {
            Some(error) => ReplyView::InternalServerError(error@),
            None => ReplyView::Json("ok"@),
        }),
{
    match failure {
        Some(error) => Reply::InternalServerError(error),
        None => Reply::Json("ok".to_owned()),
    }
}

/// The answer to a request for the text of the configuration, or what went wrong.
pub fn source_reply(source: Result<String, String>) -> (r: Reply)
    ensures
        r@ == (match source {
            Ok(text) => ReplyView::Text(text@),
            Err(error) => ReplyView::InternalServerError(error@),
        }),
{
    match source {
        Ok(text) => Reply::Text(text),
        Err(error) => Reply::InternalServerError(error),
    }
}

/// The answer to a request that sends a configuration, or what was wrong with it.
pub fn update_reply(failure: Option<String>) -> (r: Reply)
    ensures
        r@ == (match failure {
            Some(error) => ReplyView::BadRequest(error@),
            None => ReplyView::Json("ok"@),
        }),
{
    match failure {
        Some(error) => Reply::BadRequest(error),
        None => Reply::Json("ok".to_owned()),
    }
}

/// The task that is queued carries what yt-dlp reported as it is: the identifier, the title,
/// the uploader and the channel, and the thumbnail where there is one. Its directory is the
/// one that was asked for, and it has no picture of the channel.
pub proof fn law_reported_video_is_queued(s: SubmissionView, meta: MetaView)
    requires
        s.stage is ReadingMetadata,
    ensures
        s.next(OutcomeView::MetadataRead(meta)).1 matches DemandView::Queue(task) && {
            &&& task.video_id == meta.id
            &&& task.title == meta.title
            &&& task.channel_name == meta.uploader
            &&& task.channel_id == meta.channel_id
            &&& meta.thumbnail matches Some(picture) ==> task.video_picture == picture
            &&& meta.thumbnail is None ==> task.video_picture.len() == 0
            &&& task.channel_picture is None
            &&& task.output_directory == s.output_directory
        },
{
}

/// The task of a video carries what is known of it as it is.
pub proof fn law_task_carries_the_video(meta: MetaView, output_directory: Seq<char>)
    ensures
        ({
            let task = task_of(meta, output_directory);
            &&& task.video_id == meta.id
            &&& task.title == meta.title
            &&& task.channel_name == meta.uploader
            &&& task.channel_id == meta.channel_id
            &&& meta.thumbnail matches Some(picture) ==> task.video_picture == picture
            &&& meta.thumbnail is None ==> task.video_picture.len() == 0
            &&& task.channel_picture is None
            &&& task.output_directory == output_directory
        }),
{
}

/// yt-dlp is asked for the very video that the address is of, with the cookies file where
/// there is one, and only for it.
pub proof fn law_parsed_video_is_asked_for(
    s: SubmissionView,
    video_id: Seq<char>,
    cookies: Option<Seq<char>>,
)
    requires
        s.stage is ParsingUrl,
    ensures
        ({
            let (finding, demand) = s.next(OutcomeView::UrlParsed(Some(video_id)));
            &&& demand is FindCookies
            &&& finding.next(OutcomeView::Cookies(cookies)).1 matches DemandView::Query(args) && {
                &&& args.len() == (if cookies is Some {
                    7int
                } else {
                    5int
                })
                &&& args[0] == "--dump-json"@
                &&& args[1] == "--no-playlist"@
                &&& args[2] == "--js-runtimes"@
                &&& args[3] == "node"@
                &&& cookies matches Some(path) ==> args[4] == "--cookies"@ && args[5] == path
                &&& args.last() == "https://www.youtube.com/watch?v="@ + video_id
            }
        }),
{
}

/// Each failure is answered with what went wrong: a wrong address by what is wrong with it,
/// or that it is not that of a video; yt-dlp that could not be run, and output that could
/// not be read, by saying so before the error; a queue that refuses, by its error.
pub proof fn law_failures_say_why(s: SubmissionView, error: Seq<char>)
    ensures
        s.next(OutcomeView::UrlInvalid(error)).1 == DemandView::Answer(ReplyView::BadRequest(error)),
        s.next(OutcomeView::UrlParsed(None)).1 == DemandView::Answer(
            ReplyView::BadRequest("Not a video URL"@),
        ),
        s.next(OutcomeView::QueryFailed(error)).1 == DemandView::Answer(
            ReplyView::InternalServerError("Failed to run yt-dlp: "@ + error),
        ),
        s.next(OutcomeView::MetadataInvalid(error)).1 == DemandView::Answer(
            ReplyView::InternalServerError("Failed to parse yt-dlp output: "@ + error),
        ),
        s.next(OutcomeView::QueueFailed(error)).1 == DemandView::Answer(
            ReplyView::InternalServerError(error),
        ),
        s.next(OutcomeView::Queued).1 == DemandView::Answer(ReplyView::Accepted),
{
}

/// A query that ended with success hands on all that was printed, whatever stands in the
/// error output; one that did not is answered by its error output, read as text.
pub proof fn law_query_output(
    s: SubmissionView,
    success: bool,
    output: Seq<u8>,
    errors: Seq<u8>,
    text: Seq<char>,
)
    ensures
        s.after_query(true, output, text).1 == DemandView::ReadMetadata(output),
        s.after_query(true, output, text).0 == (SubmissionView {
            stage: StageView::ReadingMetadata,
            ..s
        }),
        s.after_query(false, output, text).1 == DemandView::Answer(
            ReplyView::InternalServerError(query_failure(text)),
        ),
        s.after_query(false, output, text).0 == (SubmissionView { stage: StageView::Answered, ..s }),
        s.next(OutcomeView::QueryEnded(success, output, errors)) == s.after_query(
            success,
            output,
            encoding::lossy_text(errors),
        ),
{
}

/// What is said of a query without success ends with the line that yt-dlp wrote last,
/// whatever it wrote before and whether or not it ended that line; where it wrote nothing,
/// the error is said to be unknown.
pub proof fn law_last_error_is_told(before: Seq<char>, line: Seq<char>)
    requires
        text::is_one_line(line),
        before.len() == 0 || before.last() == '\n',
    ensures
        line.len() > 0 ==> query_failure(before + line) == "yt-dlp failed: "@ + line,
        line.len() == 0 || line.last() != '\r' ==> query_failure((before + line).push('\n'))
            == "yt-dlp failed: "@ + line,
        query_failure((before + line).push('\r').push('\n')) == "yt-dlp failed: "@ + line,
        query_failure(Seq::empty()) == "yt-dlp failed: "@ + "unknown error"@,
{
    text::law_last_line(before, line);
}

/// Whatever a request demands can be met, and by nothing but an outcome of it; once it is
/// answered, nothing more is expected.
pub proof fn law_outcomes_fit_demands(
    s: SubmissionView,
    outcome: OutcomeView,
    later: OutcomeView,
)
    requires
        meets(s.stage, outcome),
    ensures
        meets(s.next(outcome).0.stage, later) <==> match s.next(outcome).1 {
            DemandView::ParseUrl(_) => later is UrlInvalid || later is UrlParsed,
            DemandView::FindCookies => later is Cookies,
            DemandView::Query(_) => later is QueryFailed || later is QueryEnded,
            DemandView::ReadMetadata(_) => later is MetadataInvalid || later is MetadataRead,
            DemandView::Queue(_) => later is QueueFailed || later is Queued,
            DemandView::Answer(_) => false,
        },
        meets(StageView::Ready, later) <==> later is Arrived,
{
}

/// The address and the directory that a request is for stay as they came, and the address is
/// what is parsed.
pub proof fn law_request_stays(s: SubmissionView, outcome: OutcomeView)
    ensures
        s.next(outcome).0.video_url == s.video_url,
        s.next(outcome).0.output_directory == s.output_directory,
        s.next(OutcomeView::Arrived).1 == DemandView::ParseUrl(s.video_url),
{
}

} // verus!
