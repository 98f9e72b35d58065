use figex::cli::{greet, Commands};
use figex::error::RuntimeError;
use figex::raw::raw_frame_meta;
use figex::report::{attach_summary_lines, check_snapshot};
use figex::runtime::{RuntimeFrameSnapshot, RuntimeSession};

fn session() -> RuntimeSession {
    RuntimeSession {
        target_id: "t-attach-command".to_string(),
        target_title: "Figma - Attach".to_string(),
        target_url: "https://www.figma.com/file/x".to_string(),
        host: "127.0.0.1".to_string(),
        port: 9222,
    }
}

#[test]
fn greet_says_hello() {
    assert_eq!(greet(), "Hello from figex-cli-core!");
}

#[test]
fn attach_summary_lists_the_session() {
    let lines = attach_summary_lines(&session());
    assert_eq!(
        lines,
        vec![
            "Attached to Figma runtime",
            "  host:      127.0.0.1",
            "  port:      9222",
            "  target_id: t-attach-command",
            "  title:     Figma - Attach",
            "  url:       https://www.figma.com/file/x",
        ]
    );
}

#[test]
fn command_paths_default_along_the_pipeline() {
    let p = Commands::Extract { frame: "f".to_string(), output: None }.paths();
    assert_eq!((p.input, p.output.as_deref()), (None, Some("raw.json")));
    let p = Commands::Features { input: None, output: None }.paths();
    assert_eq!((p.input.as_deref(), p.output.as_deref()), (Some("raw.json"), Some("features.json")));
    let p = Commands::Normalize { input: None, output: Some("o.json".to_string()) }.paths();
    assert_eq!((p.input.as_deref(), p.output.as_deref()), (Some("features.json"), Some("o.json")));
    let p = Commands::Report { input: Some("i".to_string()), output: None }.paths();
    assert_eq!((p.input.as_deref(), p.output.as_deref()), (Some("i"), Some("report.md")));
    let p = Commands::Doctor.paths();
    assert_eq!((p.input, p.output), (None, None));
}

#[test]
fn snapshots_must_be_ok_to_be_saved() {
    assert_eq!(check_snapshot(Ok(RuntimeFrameSnapshot { ok: true, ts: 1_700_000_000_000 })).unwrap(), 1_700_000_000_000);
    let e = check_snapshot(Ok(RuntimeFrameSnapshot { ok: false, ts: 5 })).unwrap_err();
    assert_eq!(e.exit_code(), 12);
    assert_eq!(e.report(), "snapshot error: snapshot failed: snapshot failed");
    let e = check_snapshot(Err(RuntimeError::Timeout)).unwrap_err();
    assert_eq!(e.report(), "snapshot error: timed out: timed out");
}

#[test]
fn raw_frame_meta_records_source_and_runtime() {
    let meta = raw_frame_meta("test-frame", &session(), 1_700_000_000_000, "0.1.0");
    assert_eq!(meta.frame_ref.as_deref(), Some("test-frame"));
    assert_eq!(meta.frame_id, None);
    assert_eq!(meta.frame_name, None);
    assert_eq!(meta.transport, "cdp");
    assert_eq!(meta.host, "127.0.0.1");
    assert_eq!(meta.port, 9222);
    assert_eq!(meta.captured_at, 1_700_000_000_000);
    assert_eq!(meta.tool_version, "0.1.0");
}
