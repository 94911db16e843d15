use playlist_dl::command::{
    fetch_command, media_url, search_command, ProcessExit, PROGRAM,
};
use playlist_dl::failure::{
    done_label, failure_line, ResolveError, TaskError,
};
use playlist_dl::progress::{
    advance_progress, fetch_exit_code, NO_EXIT_CODE, POLL_INTERVAL_MS, PROGRESS_CAP,
    PROGRESS_DONE, PROGRESS_STEP,
};
use playlist_dl::record::TrackRecord;
use playlist_dl::resolve::{media_from_line, media_from_lookup, resolve, ID_KEY};

fn exited(code: i32) -> ProcessExit {
    ProcessExit { success: code == 0, code: Some(code), description: format!("exit status: {code}") }
}

#[test]
fn search_command_asks_for_ten_results_as_json() {
    let command = search_command("Song A - Artist X official audio");
    assert_eq!(command.program, "yt-dlp");
    assert_eq!(
        command.args,
        vec!["ytsearch10:Song A - Artist X official audio", "--dump-json", "--skip-download"]
    );
}

#[test]
fn search_command_of_empty_query() {
    let command = search_command("");
    assert_eq!(command.program, PROGRAM);
    assert_eq!(command.args, vec!["ytsearch10:", "--dump-json", "--skip-download"]);
}

#[test]
fn media_url_is_the_watch_address() {
    assert_eq!(media_url("dQw4w9WgXcQ"), "https://youtube.com/watch?v=dQw4w9WgXcQ");
    assert_eq!(media_url(""), "https://youtube.com/watch?v=");
}

#[test]
fn fetch_command_extracts_mp3_at_192k() {
    let command = fetch_command("playlists/Album Y/Song A", "https://youtube.com/watch?v=abc");
    assert_eq!(command.program, "yt-dlp");
    assert_eq!(
        command.args,
        vec![
            "-f",
            "bestaudio/best",
            "--extract-audio",
            "--audio-format",
            "mp3",
            "--audio-quality",
            "192K",
            "-o",
            "playlists/Album Y/Song A",
            "https://youtube.com/watch?v=abc",
        ]
    );
}

#[test]
fn resolve_takes_the_id_of_the_only_line() {
    let media = resolve(&exited(0), b"{\"id\": \"abc123\", \"title\": \"Song A\"}\n").unwrap();
    assert_eq!(media.media_id, "abc123");
}

#[test]
fn resolve_reads_the_first_line_only() {
    let out = b"{\"id\": \"first\"}\n{\"id\": \"second\"}\n";
    assert_eq!(resolve(&exited(0), out).unwrap().media_id, "first");
}

#[test]
fn resolve_does_not_fall_back_on_later_lines() {
    let out = b"not json\n{\"id\": \"second\"}\n";
    assert!(matches!(resolve(&exited(0), out), Err(ResolveError::Malformed { .. })));
    let out = b"{\"title\": \"no id\"}\n{\"id\": \"second\"}\n";
    assert!(matches!(resolve(&exited(0), out), Err(ResolveError::MissingId)));
}

#[test]
fn resolve_fails_when_the_search_failed() {
    match resolve(&exited(1), b"{\"id\": \"abc\"}\n") {
        Err(ResolveError::SearchFailed { status }) => assert_eq!(status, "exit status: 1"),
        other => panic!("unexpected: {other:?}"),
    }
}

#[test]
fn resolve_fails_without_output() {
    assert!(matches!(resolve(&exited(0), b""), Err(ResolveError::NoResults)));
}

#[test]
fn resolve_fails_on_an_empty_first_line() {
    assert!(matches!(resolve(&exited(0), b"\n{\"id\": \"x\"}"), Err(ResolveError::Malformed { .. })));
}

#[test]
fn resolve_fails_on_malformed_json() {
    match resolve(&exited(0), b"{\"id\": ") {
        Err(ResolveError::Malformed { detail }) => assert!(detail.contains("line 1")),
        other => panic!("unexpected: {other:?}"),
    }
}

#[test]
fn resolve_fails_without_textual_id() {
    assert!(matches!(resolve(&exited(0), b"{\"id\": 42}"), Err(ResolveError::MissingId)));
    assert!(matches!(resolve(&exited(0), b"{\"id\": null}"), Err(ResolveError::MissingId)));
    assert!(matches!(resolve(&exited(0), b"{}"), Err(ResolveError::MissingId)));
    assert!(matches!(resolve(&exited(0), b"[\"id\"]"), Err(ResolveError::MissingId)));
    assert!(matches!(resolve(&exited(0), b"\"id\""), Err(ResolveError::MissingId)));
}

#[test]
fn resolve_accepts_carriage_return_line_ends() {
    assert_eq!(resolve(&exited(0), b"{\"id\": \"abc\"}\r\nrest").unwrap().media_id, "abc");
}

#[test]
fn resolve_replaces_invalid_utf8() {
    let out = b"{\"id\": \"a\xffb\"}\n";
    assert_eq!(resolve(&exited(0), out).unwrap().media_id, "a\u{fffd}b");
}

#[test]
fn resolve_decodes_valid_utf8() {
    let out = "{\"id\": \"caf\u{e9}\"}\n".as_bytes();
    assert_eq!(resolve(&exited(0), out).unwrap().media_id, "caf\u{e9}");
}

#[test]
fn media_from_line_without_line() {
    assert!(matches!(media_from_line(None), Err(ResolveError::NoResults)));
}

#[test]
fn media_from_line_with_id() {
    assert_eq!(media_from_line(Some("{\"id\":\"xyz\"}")).unwrap().media_id, "xyz");
    assert_eq!(ID_KEY, "id");
}

#[test]
fn media_from_lookup_judges_each_case() {
    assert_eq!(media_from_lookup(Ok(Some("abc".to_string()))).unwrap().media_id, "abc");
    assert!(matches!(media_from_lookup(Ok(None)), Err(ResolveError::MissingId)));
    match media_from_lookup(Err("bad".to_string())) {
        Err(ResolveError::Malformed { detail }) => assert_eq!(detail, "bad"),
        other => panic!("unexpected: {other:?}"),
    }
}

#[test]
fn progress_constants() {
    assert_eq!(PROGRESS_STEP, 2);
    assert_eq!(PROGRESS_CAP, 90);
    assert_eq!(PROGRESS_DONE, 100);
    assert_eq!(POLL_INTERVAL_MS, 300);
    assert_eq!(NO_EXIT_CODE, -1);
}

#[test]
fn advance_progress_steps_by_two() {
    assert_eq!(advance_progress(0), 2);
    assert_eq!(advance_progress(2), 4);
    assert_eq!(advance_progress(86), 88);
    assert_eq!(advance_progress(88), 90);
}

#[test]
fn advance_progress_stops_at_the_cap() {
    assert_eq!(advance_progress(90), 90);
    assert_eq!(advance_progress(89), 90);
    assert_eq!(advance_progress(100), 100);
    assert_eq!(advance_progress(u64::MAX), u64::MAX);
}

#[test]
fn advance_progress_never_reaches_done_while_running() {
    let mut p = 0;
    for _ in 0..1000 {
        let next = advance_progress(p);
        assert!(next >= p);
        assert!(next <= PROGRESS_CAP);
        p = next;
    }
    assert_eq!(p, 90);
}

#[test]
fn fetch_exit_code_of_success_is_none() {
    assert_eq!(fetch_exit_code(&exited(0)), None);
}

#[test]
fn fetch_exit_code_of_failure_is_its_code() {
    assert_eq!(fetch_exit_code(&exited(1)), Some(1));
    assert_eq!(fetch_exit_code(&exited(-7)), Some(-7));
}

#[test]
fn fetch_exit_code_without_code_is_minus_one() {
    let killed = ProcessExit { success: false, code: None, description: "signal: 9".to_string() };
    assert_eq!(fetch_exit_code(&killed), Some(-1));
}

#[test]
fn messages_of_resolve_errors() {
    assert_eq!(
        ResolveError::SearchFailed { status: "exit status: 2".to_string() }.message(),
        "yt-dlp probe failed with: exit status: 2"
    );
    assert_eq!(ResolveError::NoResults.message(), "No results from yt-dlp");
    assert_eq!(ResolveError::Malformed { detail: "EOF".to_string() }.message(), "EOF");
    assert_eq!(ResolveError::MissingId.message(), "Failed to parse id from yt-dlp output");
}

#[test]
fn messages_of_task_errors() {
    assert_eq!(TaskError::Pattern.message(), "sanitizing pattern rejected");
    assert_eq!(TaskError::Io { detail: "denied".to_string() }.message(), "denied");
    assert_eq!(
        TaskError::Resolve(ResolveError::NoResults).message(),
        "No results from yt-dlp"
    );
    assert_eq!(TaskError::Fetch { code: 1 }.message(), "yt-dlp failed with exit code 1");
    assert_eq!(TaskError::Fetch { code: -1 }.message(), "yt-dlp failed with exit code -1");
    assert_eq!(TaskError::Fetch { code: 137 }.message(), "yt-dlp failed with exit code 137");
}

#[test]
fn errors_clone_equal() {
    let e = TaskError::Resolve(ResolveError::SearchFailed { status: "s".to_string() });
    assert_eq!(e.clone().message(), e.message());
    let e = TaskError::Fetch { code: 3 };
    assert!(matches!(e.clone(), TaskError::Fetch { code: 3 }));
}

#[test]
fn failure_line_names_record_and_reason() {
    let record = TrackRecord::new("Song A", "Artist X", "Album Y");
    assert_eq!(
        failure_line(&record, &TaskError::Fetch { code: 1 }),
        "Error downloading Artist X - Song A: yt-dlp failed with exit code 1"
    );
}

#[test]
fn done_label_names_the_record() {
    let record = TrackRecord::new("Song A", "Artist X", "Album Y");
    assert_eq!(done_label(&record), "Done: Artist X - Song A");
}
