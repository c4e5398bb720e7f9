use soundclip_core::errors::DownloadError;
use soundclip_core::supervisor::{
    build_args, stdout_line_events, terminal_payload, DownloadRequest, Supervisor, TerminalOutcome,
};

fn request(audio_format: &str, playlist: bool) -> DownloadRequest {
    DownloadRequest {
        url: String::from("https://example.com/watch?v=abc"),
        audio_format: String::from(audio_format),
        playlist,
        save_path: String::from("D:/Music"),
    }
}

#[test]
fn start_rejects_missing_tool() {
    let sup = Supervisor::new();
    let r = sup.start(&request("best", false), false, "C:/bin");
    assert!(matches!(r, Err(DownloadError::PrerequisiteMissing)));
}

#[test]
fn args_for_best_format_without_playlist() {
    let args = build_args(&request("best", false), "C:/bin");
    let expected = vec![
        "-x",
        "-P",
        "home:D:/Music",
        "-o",
        "%(title).200s [%(id)s].%(ext)s",
        "--windows-filenames",
        "--newline",
        "--no-colors",
        "--ffmpeg-location=C:/bin",
        "--no-playlist",
        "https://example.com/watch?v=abc",
    ];
    assert_eq!(args, expected);
}

#[test]
fn args_for_conversion_with_playlist() {
    let args = build_args(&request("mp3", true), "C:/bin");
    let expected = vec![
        "-x",
        "-P",
        "home:D:/Music",
        "-o",
        "%(title).200s [%(id)s].%(ext)s",
        "--windows-filenames",
        "--newline",
        "--no-colors",
        "--ffmpeg-location=C:/bin",
        "--audio-format",
        "mp3",
        "--yes-playlist",
        "https://example.com/watch?v=abc",
    ];
    assert_eq!(args, expected);
}

#[test]
fn start_accepts_installed_tool() {
    let sup = Supervisor::new();
    let r = sup.start(&request("best", false), true, "C:/bin");
    assert!(r.is_ok());
}

#[test]
fn clean_exit_reports_success_and_empties_slot() {
    let mut sup = Supervisor::new();
    sup.on_spawned(42);
    assert!(sup.completion_pending());
    assert!(!sup.is_idle());
    let t = sup.finish(Some((true, 0)));
    assert_eq!(t, TerminalOutcome::Success);
    assert!(!sup.completion_pending());
    assert!(sup.is_idle());
}

#[test]
fn failed_exit_reports_code() {
    let mut sup = Supervisor::new();
    sup.on_spawned(42);
    let t = sup.finish(Some((false, 101)));
    assert_eq!(t, TerminalOutcome::Failed(101));
    assert!(sup.is_idle());
}

#[test]
fn cancel_mid_stream_reports_cancelled_not_failed() {
    let mut sup = Supervisor::new();
    sup.on_spawned(42);
    let kill = sup.cancel();
    assert_eq!(kill, Some(42));
    assert!(!sup.completion_pending());
    let t = sup.finish(None);
    assert_eq!(t, TerminalOutcome::Cancelled);
    assert!(sup.is_idle());
}

#[test]
fn cancel_is_idempotent() {
    let mut sup = Supervisor::new();
    assert_eq!(sup.cancel(), None);
    assert_eq!(sup.cancel(), None);
    sup.on_spawned(7);
    assert_eq!(sup.cancel(), Some(7));
    assert_eq!(sup.cancel(), None);
}

#[test]
fn terminal_payloads() {
    assert_eq!(terminal_payload(&TerminalOutcome::Success), Some(String::from("success")));
    assert_eq!(terminal_payload(&TerminalOutcome::Failed(3)), Some(String::from("failed:3")));
    assert_eq!(terminal_payload(&TerminalOutcome::Failed(-1)), Some(String::from("failed:-1")));
    assert_eq!(terminal_payload(&TerminalOutcome::Cancelled), None);
}

#[test]
fn stdout_line_events_carry_progress_then_log() {
    let ev = stdout_line_events("[download]  45.2% of ~10MiB at 1.2MiB/s");
    assert_eq!(ev.progress, Some(String::from("45.2")));
    assert_eq!(ev.log, String::from("[download]  45.2% of ~10MiB at 1.2MiB/s"));
    let ev = stdout_line_events("[ExtractAudio] Destination: x.mp3");
    assert_eq!(ev.progress, None);
    assert_eq!(ev.log, String::from("[ExtractAudio] Destination: x.mp3"));
}

#[test]
fn download_error_messages() {
    assert_eq!(
        DownloadError::PrerequisiteMissing.message(),
        String::from("yt-dlp.exe not found. Use Check Update to download it.")
    );
    assert_eq!(
        DownloadError::SpawnError(String::from("boom")).message(),
        String::from("Failed to start yt-dlp: boom")
    );
    assert_eq!(
        DownloadError::StreamCaptureError(String::from("stdout")).message(),
        String::from("Failed to capture yt-dlp stdout")
    );
    assert_eq!(DownloadError::Cancelled.message(), String::from("Process was cancelled"));
    assert_eq!(
        DownloadError::Failed(2).message(),
        String::from("yt-dlp exited with code 2")
    );
    assert_eq!(
        DownloadError::Failed(-1).message(),
        String::from("yt-dlp exited with code -1")
    );
}
