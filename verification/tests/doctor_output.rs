use figex::cli::AppContext;
use figex::config::Settings;
use figex::error::RuntimeError;
use figex::report::{fallback_health, health_human_lines, health_to_render};
use figex::runtime::RuntimeHealth;

fn make_context(json: bool, pretty: bool) -> AppContext {
    AppContext::new(Settings {
        json,
        pretty,
        log_level: "info".to_string(),
        transport: "cdp".to_string(),
        host: "127.0.0.1".to_string(),
        host_explicit: false,
        port: 9222,
        port_explicit: false,
        timeout_ms: 2_000,
        snapshot_max_depth: 3,
        include_diagnostics: false,
        collapse_wrappers: true,
        boundary_threshold: 0.5f64.to_bits(),
        preserve_repetition_candidates: true,
        classifier_enabled: true,
        max_component_candidates: 20,
        max_atomic_candidates: 50,
    })
}

fn make_health() -> RuntimeHealth {
    RuntimeHealth {
        transport: "cdp".to_string(),
        host: "127.0.0.1".to_string(),
        port: 9222,
        target_id: None,
        target_title: Some("Figma".to_string()),
        target_url: Some("https://www.figma.com/file/abc".to_string()),
        target_score: Some(42),
        ping_ok: true,
        snapshot_ok: false,
        latency_ms: Some(17),
        ping_script_version: "ping-v1".to_string(),
        snapshot_script_version: "snapshot-v1".to_string(),
        warnings: vec!["snapshot check failed".to_string()],
        errors: vec!["Runtime.enable failed".to_string()],
    }
}

fn human_output(health: &RuntimeHealth) -> String {
    health_human_lines(health)
        .into_iter()
        .map(|line| format!("{line}\n"))
        .collect()
}

#[test]
fn fallback_health_uses_context_and_versions() {
    let ctx = make_context(false, false);

    let health = fallback_health(&ctx, RuntimeError::AttachFailed);
    let (ping_script_version, snapshot_script_version) = figex::runtime::transport_versions();

    assert_eq!(health.transport, "cdp");
    assert_eq!(health.host, ctx.settings.host);
    assert_eq!(health.port, ctx.settings.port);
    assert_eq!(health.ping_script_version, ping_script_version);
    assert_eq!(health.snapshot_script_version, snapshot_script_version);
    assert_eq!(health.errors, vec!["AttachFailed"]);
}

#[test]
fn write_health_human_includes_optional_fields_warnings_and_errors() {
    let health = make_health();

    let output = human_output(&health);
    assert!(output.contains("transport:  cdp"));
    assert!(output.contains("target_id:  -"));
    assert!(output.contains("title:      Figma"));
    assert!(output.contains("latency:    17ms"));
    assert!(output.contains("warning:    snapshot check failed"));
    assert!(output.contains("error:      Runtime.enable failed"));
}

#[test]
fn write_health_human_formats_missing_optional_fields_and_inverse_statuses() {
    let health = RuntimeHealth {
        transport: "cdp".to_string(),
        host: "127.0.0.1".to_string(),
        port: 9222,
        target_id: Some("t-human".to_string()),
        target_title: None,
        target_url: None,
        target_score: None,
        ping_ok: false,
        snapshot_ok: true,
        latency_ms: None,
        ping_script_version: "ping-v1".to_string(),
        snapshot_script_version: "snapshot-v1".to_string(),
        warnings: vec![],
        errors: vec![],
    };

    let output = human_output(&health);
    assert!(output.contains("target_id:  t-human"));
    assert!(output.contains("title:      -"));
    assert!(output.contains("url:        -"));
    assert!(output.contains("ping:       fail"));
    assert!(output.contains("snapshot:   ok"));
    assert!(!output.contains("latency:"));
    assert!(!output.contains("warning:"));
    assert!(!output.contains("error:"));
}

#[test]
fn render_health_formats_human_output() {
    let ctx = make_context(false, false);

    let output = human_output(&health_to_render(&ctx, Ok(make_health())));
    assert!(output.contains("ping:       ok"));
    assert!(output.contains("snapshot:   fail"));
}

#[test]
fn health_human_lines_are_exact() {
    let lines = health_human_lines(&make_health());
    assert_eq!(
        lines,
        vec![
            "transport:  cdp",
            "host:       127.0.0.1",
            "port:       9222",
            "target_id:  -",
            "title:      Figma",
            "url:        https://www.figma.com/file/abc",
            "ping:       ok",
            "snapshot:   fail",
            "latency:    17ms",
            "warning:    snapshot check failed",
            "error:      Runtime.enable failed",
        ]
    );
}

#[test]
fn failed_health_checks_render_the_fallback_report() {
    let ctx = make_context(false, false);
    let health = health_to_render(&ctx, Err(RuntimeError::Timeout));
    assert_eq!(health.errors, vec!["Timeout"]);
    assert!(!health.ping_ok && !health.snapshot_ok);
    assert_eq!(health.target_id, None);
    let evaluate = health_to_render(&ctx, Err(RuntimeError::EvaluateFailed("x".to_string())));
    assert_eq!(evaluate.errors, vec!["EvaluateFailed(\"x\")"]);
}
