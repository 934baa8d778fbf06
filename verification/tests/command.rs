use ytdlp_recorder::command::{
    cookies_path, cookies_to_pass, query_command, record_command, YtDlpConfig,
};

fn config(args: &[&str], cookies: Option<&str>, format: &str) -> YtDlpConfig {
    YtDlpConfig {
        args: args.iter().map(|a| a.to_string()).collect(),
        cookies_file: cookies.map(|c| c.to_string()),
        format: format.to_string(),
    }
}

fn command(config: &YtDlpConfig, cookies: Option<&str>) -> Vec<String> {
    record_command(config, cookies.map(|c| c.to_string()), "abc")
}

#[test]
fn all_settings_are_added() {
    let c = config(&["-v"], Some("c.txt"), "best");
    assert_eq!(cookies_to_pass(&c).as_deref(), Some("c.txt"));
    assert_eq!(
        command(&c, Some("/etc/c.txt")),
        [
            "-v",
            "--wait-for-video",
            "30",
            "--cookies",
            "/etc/c.txt",
            "-f",
            "best",
            "https://youtu.be/abc"
        ]
    );
}

#[test]
fn nothing_is_added_without_settings() {
    let c = config(&[], None, "");
    assert_eq!(cookies_to_pass(&c), None);
    assert_eq!(
        command(&c, None),
        ["--wait-for-video", "30", "https://youtu.be/abc"]
    );
}

#[test]
fn configured_arguments_win() {
    let c = config(
        &["--wait-for-video", "60", "--cookies", "mine", "--format", "worst"],
        Some("c.txt"),
        "best",
    );
    assert_eq!(cookies_to_pass(&c), None);
    let expected = [
        "--wait-for-video",
        "60",
        "--cookies",
        "mine",
        "--format",
        "worst",
        "https://youtu.be/abc",
    ];
    assert_eq!(command(&c, None), expected);
    assert_eq!(command(&c, Some("/etc/c.txt")), expected);
    let c = config(&["-f", "worst"], None, "best");
    assert_eq!(
        command(&c, None),
        ["-f", "worst", "--wait-for-video", "30", "https://youtu.be/abc"]
    );
}

#[test]
fn a_cookies_path_counts_as_an_argument() {
    let c = config(&[], Some("-f"), "best");
    assert_eq!(
        command(&c, Some("-f")),
        ["--wait-for-video", "30", "--cookies", "-f", "https://youtu.be/abc"]
    );
}

#[test]
fn the_query_for_a_video() {
    assert_eq!(
        query_command(None, "abc"),
        [
            "--dump-json",
            "--no-playlist",
            "--js-runtimes",
            "node",
            "https://www.youtube.com/watch?v=abc"
        ]
    );
    assert_eq!(
        query_command(Some("/c".to_string()), "abc"),
        [
            "--dump-json",
            "--no-playlist",
            "--js-runtimes",
            "node",
            "--cookies",
            "/c",
            "https://www.youtube.com/watch?v=abc"
        ]
    );
}

#[test]
fn the_absolute_path_is_preferred() {
    let configured = "c.txt".to_string();
    assert_eq!(cookies_path(Some("/c.txt".to_string()), configured), "/c.txt");
    assert_eq!(cookies_path(None, "c.txt".to_string()), "c.txt");
}
