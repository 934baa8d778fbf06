//! The command lines for yt-dlp.
use vstd::prelude::*;
use vstd::string::StringExecFns;

verus! {

/// What the configuration says of the command line.
#[derive(Debug)]
pub struct YtDlpConfig {
    /// Arguments to pass as they are.
    pub args: Vec<String>,
    /// A file with cookies, for streams that only members may see.
    pub cookies_file: Option<String>,
    /// The formats to record; yt-dlp chooses if this is empty.
    pub format: String,
}

/// The configuration with its texts as sequences of characters.
pub struct ConfigView {
    pub args: Seq<Seq<char>>,
    pub cookies_file: Option<Seq<char>>,
    pub format: Seq<char>,
}

impl View for YtDlpConfig {
    type V = ConfigView;

    open spec fn view(&self) -> ConfigView {
        ConfigView {
            args: self.args.deep_view(),
            cookies_file: self.cookies_file.deep_view(),
            format: self.format@,
        }
    }
}

/// `args`, with the option to wait for the stream added where it is missing.
pub open spec fn with_wait(args: Seq<Seq<char>>) -> Seq<Seq<char>> {
    if args.contains("--wait-for-video"@) {
        args
    } else {
        args + seq!["--wait-for-video"@, "30"@]
    }
}

/// `args`, with the cookies file added, if there is one and `args` name none.
pub open spec fn with_cookies(args: Seq<Seq<char>>, cookies: Option<Seq<char>>) -> Seq<Seq<char>> {
    match cookies {
        Some(path) => if args.contains("--cookies"@) {
            args
        } else {
            args + seq!["--cookies"@, path]
        },
        None => args,
    }
}

/// `args`, with the format added, if there is one and `args` name none.
pub open spec fn with_format(args: Seq<Seq<char>>, format: Seq<char>) -> Seq<Seq<char>> {
    if format.len() > 0 && !args.contains("-f"@) && !args.contains("--format"@) {
        args + seq!["-f"@, format]
    } else {
        args
    }
}

/// The arguments that record the video `video_id`, where `cookies` is the path to the
/// cookies file, if there is one.
pub open spec fn recording_args(
    args: Seq<Seq<char>>,
    cookies: Option<Seq<char>>,
    format: Seq<char>,
    video_id: Seq<char>,
) -> Seq<Seq<char>> {
    with_format(with_cookies(with_wait(args), cookies), format).push("https://youtu.be/"@ + video_id)
}

/// The cookies file whose path is to be put on the command line, if any is.
pub open spec fn wanted_cookies(config: ConfigView) -> Option<Seq<char>> {
    if with_wait(config.args).contains("--cookies"@) {
        None
    } else {
        config.cookies_file
    }
}

/// The arguments that print what is known of the video `video_id`, where `cookies` is the
/// path to the cookies file, if there is one.
pub open spec fn query_args(cookies: Option<Seq<char>>, video_id: Seq<char>) -> Seq<Seq<char>> {
    let args = seq!["--dump-json"@, "--no-playlist"@, "--js-runtimes"@, "node"@];
    let args = match cookies {
        Some(path) => args + seq!["--cookies"@, path],
        None => args,
    };
    args.push("https://www.youtube.com/watch?v="@ + video_id)
}

/// Whether `arg` is one of `args`.
fn has_arg(args: &Vec<String>, arg: &str) -> (r: bool)
    ensures
        r == args.deep_view().contains(arg@),
{
    let wanted: String = arg.to_owned();
    let mut i: usize = 0;
    while i < args.len()
        invariant
            wanted@ == arg@,
            i <= args@.len(),
            forall|j: int| 0 <= j < i ==> args.deep_view()[j] != arg@,
        decreases args@.len() - i,
    {
        if args[i] == wanted {
            assert(args.deep_view()[i as int] == arg@);
            return true;
        }
        i += 1;
    }
    false
}

/// Adds the text `arg` to `args`.
fn push_arg(args: &mut Vec<String>, arg: &str)
    ensures
        final(args).deep_view() == old(args).deep_view().push(arg@),
{
    args.push(arg.to_owned());
    assert(args.deep_view() =~= old(args).deep_view().push(arg@));
}

/// A copy of `args`.
fn clone_args(args: &Vec<String>) -> (r: Vec<String>)
    ensures
        r.deep_view() == args.deep_view(),
{
    let mut r: Vec<String> = Vec::new();
    let mut i: usize = 0;
    assert(r.deep_view() =~= args.deep_view().take(0));
    while i < args.len()
        invariant
            i <= args@.len(),
            r.deep_view() == args.deep_view().take(i as int),
        decreases args@.len() - i,
    {
        push_arg(&mut r, args[i].as_str());
        assert(args.deep_view().take(i + 1) =~= args.deep_view().take(i as int).push(args@[i as int]@));
        i += 1;
    }
    assert(args.deep_view().take(args@.len() as int) =~= args.deep_view());
    r
}

/// `args`, with the option to wait for the stream added where it is missing.
fn args_with_wait(args: &Vec<String>) -> (r: Vec<String>)
    ensures
        r.deep_view() == with_wait(args.deep_view()),
{
    let mut r = clone_args(args);
    if !has_arg(&r, "--wait-for-video") {
        push_arg(&mut r, "--wait-for-video");
        push_arg(&mut r, "30");
        assert(r.deep_view() =~= with_wait(args.deep_view()));
    }
    r
}

/// The cookies file whose path is to be put on the command line, if any is.
pub fn cookies_to_pass(config: &YtDlpConfig) -> (r: Option<String>)
    ensures
        r.deep_view() == wanted_cookies(config@),
{
    match &config.cookies_file {
        Some(path) => if has_arg(&args_with_wait(&config.args), "--cookies") {
            None
        } else {
            Some(path.clone())
        },
        None => None,
    }
}

/// The path to the cookies file: the absolute one, so that it holds in any working
/// directory, or the configured one where no absolute one is to be had.
pub fn cookies_path(absolute: Option<String>, configured: String) -> (r: String)
    ensures
        r@ == (match absolute {
            Some(path) => path@,
            None => configured@,
        }),
{
    match absolute {
        Some(path) => path,
        None => configured,
    }
}

/// The arguments that record the video `video_id`, where `cookies` is the path to the
/// cookies file, if there is one.
pub fn record_command(config: &YtDlpConfig, cookies: Option<String>, video_id: &str) -> (r: Vec<
    String,
>)
    ensures
        r.deep_view() == recording_args(
            config@.args,
            cookies.deep_view(),
            config@.format,
            video_id@,
        ),
{
    let mut args = args_with_wait(&config.args);
    let ghost waiting = args.deep_view();
    if let Some(path) = &cookies {
        if !has_arg(&args, "--cookies") {
            push_arg(&mut args, "--cookies");
            push_arg(&mut args, path.as_str());
        }
    }
    assert(args.deep_view() =~= with_cookies(waiting, cookies.deep_view()));
    let ghost with = args.deep_view();
    if !config.format.as_str().is_empty() && !(has_arg(&args, "-f") || has_arg(&args, "--format")) {
        push_arg(&mut args, "-f");
        push_arg(&mut args, config.format.as_str());
    }
    assert(args.deep_view() =~= with_format(with, config.format@));
    let url: String = "https://youtu.be/".to_owned().concat(video_id);
    push_arg(&mut args, url.as_str());
    args
}

/// The arguments that print what is known of the video `video_id`, where `cookies` is the
/// path to the cookies file, if there is one.
pub fn query_command(cookies: Option<String>, video_id: &str) -> (r: Vec<String>)
    ensures
        r.deep_view() == query_args(cookies.deep_view(), video_id@),
{
    let mut args: Vec<String> = Vec::new();
    push_arg(&mut args, "--dump-json");
    push_arg(&mut args, "--no-playlist");
    push_arg(&mut args, "--js-runtimes");
    push_arg(&mut args, "node");
    assert(args.deep_view() =~= seq![
        "--dump-json"@,
        "--no-playlist"@,
        "--js-runtimes"@,
        "node"@,
    ]);
    let ghost first = args.deep_view();
    if let Some(path) = &cookies {
        push_arg(&mut args, "--cookies");
        push_arg(&mut args, path.as_str());
        assert(args.deep_view() =~= first + seq!["--cookies"@, path@]);
    }
    let url: String = "https://www.youtube.com/watch?v=".to_owned().concat(video_id);
    push_arg(&mut args, url.as_str());
    args
}

/// The configured arguments come first, in their order, and the address of the video
/// comes last.
pub proof fn law_order_of_arguments(
    args: Seq<Seq<char>>,
    cookies: Option<Seq<char>>,
    format: Seq<char>,
    video_id: Seq<char>,
)
    ensures
        args.is_prefix_of(recording_args(args, cookies, format, video_id)),
        recording_args(args, cookies, format, video_id).last() == "https://youtu.be/"@ + video_id,
{
}

/// Whatever is configured, yt-dlp is told to wait for the stream.
pub proof fn law_always_waits(
    args: Seq<Seq<char>>,
    cookies: Option<Seq<char>>,
    format: Seq<char>,
    video_id: Seq<char>,
)
    ensures
        recording_args(args, cookies, format, video_id).contains("--wait-for-video"@),
{
    let flag = "--wait-for-video"@;
    let waiting = with_wait(args);
    let i = if args.contains(flag) {
        args.index_of(flag)
    } else {
        args.len() as int
    };
    assert(waiting[i] == flag);
    assert(recording_args(args, cookies, format, video_id)[i] == flag);
}

/// What the configured arguments say of waiting, cookies or the format is not said again:
/// the setting for it is left aside.
pub proof fn law_configured_arguments_win(
    args: Seq<Seq<char>>,
    cookies: Option<Seq<char>>,
    format: Seq<char>,
    video_id: Seq<char>,
)
    ensures
        args.contains("--wait-for-video"@) ==> with_wait(args) == args,
        args.contains("--cookies"@) ==> recording_args(args, cookies, format, video_id)
            == recording_args(args, None, format, video_id),
        args.contains("-f"@) || args.contains("--format"@) ==> recording_args(
            args,
            cookies,
            format,
            video_id,
        ) == recording_args(args, cookies, Seq::empty(), video_id),
{
    let waiting = with_wait(args);
    let with = with_cookies(waiting, cookies);
    assert(args.contains("--cookies"@) ==> waiting.contains("--cookies"@)) by {
        lemma_prefix_contains(args, waiting, "--cookies"@);
    }
    lemma_prefix_contains(args, with, "-f"@);
    lemma_prefix_contains(args, with, "--format"@);
}

/// What a sequence contains, a longer one contains too.
proof fn lemma_prefix_contains(a: Seq<Seq<char>>, b: Seq<Seq<char>>, x: Seq<char>)
    requires
        a.is_prefix_of(b),
    ensures
        a.contains(x) ==> b.contains(x),
{
    if a.contains(x) {
        let i = a.index_of(x);
        assert(b.take(a.len() as int)[i] == a[i]);
        assert(b[i] == x);
    }
}

/// The words that are added to a command line are none of those that name another option.
proof fn lemma_added_words()
    ensures
        "--wait-for-video"@ != "--cookies"@,
        "--wait-for-video"@ != "-f"@,
        "--wait-for-video"@ != "--format"@,
        "30"@ != "--cookies"@,
        "30"@ != "-f"@,
        "30"@ != "--format"@,
        "--cookies"@ != "-f"@,
        "--cookies"@ != "--format"@,
{
    reveal_strlit("--wait-for-video");
    reveal_strlit("30");
    reveal_strlit("--cookies");
    reveal_strlit("-f");
    reveal_strlit("--format");
    assert("--cookies"@.len() != "--format"@.len());
    assert("--cookies"@.len() != "--wait-for-video"@.len());
    assert("--format"@.len() != "--wait-for-video"@.len());
    assert("30"@[0] != "-f"@[0]);
}

/// What two words more make contained.
proof fn lemma_two_more(args: Seq<Seq<char>>, a: Seq<char>, b: Seq<char>, x: Seq<char>)
    ensures
        (args + seq![a, b]).contains(x) <==> args.contains(x) || x == a || x == b,
{
    let all = args + seq![a, b];
    if all.contains(x) {
        let i = all.index_of(x);
        if i < args.len() {
            assert(args[i] == x);
        }
    }
    if args.contains(x) {
        assert(all[args.index_of(x)] == x);
    }
    assert(all[args.len() as int] == a);
    assert(all[args.len() as int + 1] == b);
}

/// The cookies file that is to be passed is the configured one, unless the configured
/// arguments name one: then none is.
pub proof fn law_wanted_cookies(config: ConfigView)
    ensures
        config.args.contains("--cookies"@) ==> wanted_cookies(config) is None,
        !config.args.contains("--cookies"@) ==> wanted_cookies(config) == config.cookies_file,
{
    lemma_added_words();
    lemma_two_more(config.args, "--wait-for-video"@, "30"@, "--cookies"@);
}

/// The command line is the configured arguments, then what they leave open, then the address
/// of the video: half a minute between two looks at a stream that has not started, the
/// cookies file if there is one, and the format if there is one. Whether one of these is
/// added depends on what is configured for it alone, but that a cookies file whose path is
/// the option for the format stands for it.
pub proof fn law_what_is_left_open_is_added(
    args: Seq<Seq<char>>,
    cookies: Option<Seq<char>>,
    format: Seq<char>,
    video_id: Seq<char>,
)
    ensures
        ({
            let none = Seq::<Seq<char>>::empty();
            let passes = cookies is Some && !args.contains("--cookies"@);
            let formats = format.len() > 0 && !args.contains("-f"@) && !args.contains("--format"@)
                && !(passes && (cookies == Some("-f"@) || cookies == Some("--format"@)));
            recording_args(args, cookies, format, video_id) == args + (if args.contains(
                "--wait-for-video"@,
            ) {
                none
            } else {
                seq!["--wait-for-video"@, "30"@]
            }) + (if passes {
                seq!["--cookies"@, cookies->0]
            } else {
                none
            }) + (if formats {
                seq!["-f"@, format]
            } else {
                none
            }) + seq!["https://youtu.be/"@ + video_id]
        }),
{
    lemma_added_words();
    lemma_two_more(args, "--wait-for-video"@, "30"@, "--cookies"@);
    lemma_two_more(args, "--wait-for-video"@, "30"@, "-f"@);
    lemma_two_more(args, "--wait-for-video"@, "30"@, "--format"@);
    let waiting = with_wait(args);
    if let Some(path) = cookies {
        lemma_two_more(waiting, "--cookies"@, path, "-f"@);
        lemma_two_more(waiting, "--cookies"@, path, "--format"@);
    }
}

/// The format that is configured is passed, directly after the option for it, whether or not
/// there is a cookies file, unless the configured arguments name a format or the path to the
/// cookies file is the option itself.
pub proof fn law_format_is_passed(
    args: Seq<Seq<char>>,
    cookies: Option<Seq<char>>,
    format: Seq<char>,
    video_id: Seq<char>,
)
    requires
        format.len() > 0,
        !args.contains("-f"@),
        !args.contains("--format"@),
        cookies != Some("-f"@),
        cookies != Some("--format"@),
    ensures
        exists|i: int|
            0 <= i < recording_args(args, cookies, format, video_id).len() - 1
                && #[trigger] recording_args(args, cookies, format, video_id)[i] == "-f"@
                && recording_args(args, cookies, format, video_id)[i + 1] == format,
{
    law_what_is_left_open_is_added(args, cookies, format, video_id);
    let all = recording_args(args, cookies, format, video_id);
    let i = all.len() - 3;
    assert(all[i] == "-f"@);
    assert(all[i + 1] == format);
}

/// The cookies file is passed, directly after the option for it, whatever the format, unless
/// the configured arguments name one.
pub proof fn law_cookies_are_passed(
    args: Seq<Seq<char>>,
    path: Seq<char>,
    format: Seq<char>,
    video_id: Seq<char>,
)
    requires
        !args.contains("--cookies"@),
    ensures
        exists|i: int|
            0 <= i < recording_args(args, Some(path), format, video_id).len() - 1
                && #[trigger] recording_args(args, Some(path), format, video_id)[i] == "--cookies"@
                && recording_args(args, Some(path), format, video_id)[i + 1] == path,
{
    law_what_is_left_open_is_added(args, Some(path), format, video_id);
    let all = recording_args(args, Some(path), format, video_id);
    let i = if args.contains("--wait-for-video"@) {
        args.len() as int
    } else {
        args.len() as int + 2
    };
    assert(all[i] == "--cookies"@);
    assert(all[i + 1] == path);
}

/// A stream that has not started is looked at every half minute, unless the configured
/// arguments say otherwise.
pub proof fn law_wait_is_passed(
    args: Seq<Seq<char>>,
    cookies: Option<Seq<char>>,
    format: Seq<char>,
    video_id: Seq<char>,
)
    requires
        !args.contains("--wait-for-video"@),
    ensures
        recording_args(args, cookies, format, video_id)[args.len() as int] == "--wait-for-video"@,
        recording_args(args, cookies, format, video_id)[args.len() as int + 1] == "30"@,
{
    law_what_is_left_open_is_added(args, cookies, format, video_id);
}

/// A query asks for what is known of the one video, passes the cookies file where there is
/// one, directly after the option for it, and ends with the address of the video.
pub proof fn law_query(cookies: Option<Seq<char>>, video_id: Seq<char>)
    ensures
        seq!["--dump-json"@, "--no-playlist"@, "--js-runtimes"@, "node"@].is_prefix_of(
            query_args(cookies, video_id),
        ),
        query_args(cookies, video_id).last() == "https://www.youtube.com/watch?v="@ + video_id,
        cookies is None ==> query_args(cookies, video_id).len() == 5,
        cookies matches Some(path) ==> {
            &&& query_args(cookies, video_id).len() == 7
            &&& query_args(cookies, video_id)[4] == "--cookies"@
            &&& query_args(cookies, video_id)[5] == path
        },
{
}

} // verus!
