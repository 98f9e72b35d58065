use std::time::Duration;

use figex::cdp::client::{
    map_ws_incoming_message, map_ws_text_message, CdpAction, CdpClient, CdpCommand, CdpEvent,
    CdpOperation, CdpOutcome, CdpRun,
};
use figex::cdp::probe::DiscoveredTarget;
use figex::cdp::protocol::{CdpError, CdpResponse, EvalPayload, IncomingMessage};
use figex::error::RuntimeError;
use figex::runtime::{RuntimeFrameSnapshot, RuntimeHealth};

#[test]
fn transport_versions_are_exposed() {
    let (ping_script_version, snapshot_script_version) = figex::runtime::transport_versions();

    assert!(!ping_script_version.is_empty());
    assert!(!snapshot_script_version.is_empty());
}

fn target(id: &str, title: &str) -> DiscoveredTarget {
    DiscoveredTarget {
        host: "127.0.0.1".to_string(),
        port: 9333,
        target_id: id.to_string(),
        title: title.to_string(),
        url: format!("https://www.figma.com/file/{id}"),
        ws_debugger_url: format!("ws://127.0.0.1:9444/ws/{id}"),
        score: 8,
    }
}

fn client(host: Option<&str>, port: Option<u16>) -> CdpClient {
    CdpClient::new(host.map(|h| h.to_string()), port, Duration::from_secs(3))
}

fn ok_reply() -> CdpEvent {
    CdpEvent::Replied { reply: Ok(EvalPayload { ok: Some(true), ts: Some(1700) }), elapsed_ms: 5 }
}

fn err_reply(e: RuntimeError) -> CdpEvent {
    CdpEvent::Replied { reply: Err(e), elapsed_ms: 7 }
}

/// Runs an operation against a scripted sequence of observations and
/// returns every action it asked for.
fn drive(op: CdpOperation, client: &CdpClient, events: Vec<CdpEvent>) -> Vec<CdpAction> {
    let (mut run, first) = CdpRun::start(client, op);
    let mut actions = vec![first];
    for event in events {
        actions.push(run.on_event(event));
    }
    actions
}

fn finished_health(actions: &[CdpAction]) -> &RuntimeHealth {
    match actions.last() {
        Some(CdpAction::Finish(CdpOutcome::Health(h))) => h,
        other => panic!("expected a finished health report, got {other:?}"),
    }
}

#[test]
fn attach_walks_discover_connect_enable_then_reports_the_session() {
    let c = client(Some("127.0.0.1"), Some(9333));
    let actions = drive(
        CdpOperation::Attach,
        &c,
        vec![
            CdpEvent::Discovered(Ok(target("t-attach", "Figma - Attach"))),
            CdpEvent::Connected(Ok(())),
            ok_reply(),
        ],
    );
    match &actions[0] {
        CdpAction::Discover(cfg) => {
            assert_eq!(cfg.host.as_deref(), Some("127.0.0.1"));
            assert_eq!(cfg.port, Some(9333));
            assert_eq!(cfg.timeout, Duration::from_secs(3));
        },
        other => panic!("unexpected {other:?}"),
    }
    assert!(matches!(&actions[1], CdpAction::Connect(u) if u == "ws://127.0.0.1:9444/ws/t-attach"));
    assert!(matches!(&actions[2], CdpAction::Call { id: 1, command: CdpCommand::RuntimeEnable, .. }));
    match &actions[3] {
        CdpAction::Finish(CdpOutcome::Attached(Ok(session))) => {
            assert_eq!(session.target_id, "t-attach");
            assert_eq!(session.target_title, "Figma - Attach");
            assert_eq!(session.host, "127.0.0.1");
            assert_eq!(session.port, 9333);
        },
        other => panic!("unexpected {other:?}"),
    }
}

#[test]
fn attach_surfaces_runtime_enable_failures_as_evaluate_failed() {
    let resp = CdpResponse {
        id: Some(1),
        result: None,
        error: Some(CdpError { code: -32000, message: "runtime enable failed".to_string() }),
    };
    let reply = map_ws_incoming_message(IncomingMessage::Text(Some(resp)), 1);
    let error = reply.clone().expect_err("an error response is a failure");
    assert!(matches!(&error, RuntimeError::EvaluateFailed(m) if m.contains("runtime enable failed")));
    assert!(matches!(&error, RuntimeError::EvaluateFailed(m) if m == "code=-32000, message=runtime enable failed"));

    let c = client(Some("127.0.0.1"), Some(9333));
    let actions = drive(
        CdpOperation::Attach,
        &c,
        vec![
            CdpEvent::Discovered(Ok(target("t-enable-fail", "Figma - Attach"))),
            CdpEvent::Connected(Ok(())),
            CdpEvent::Replied { reply: Err(error), elapsed_ms: 1 },
        ],
    );
    assert!(matches!(
        actions.last(),
        Some(CdpAction::Finish(CdpOutcome::Attached(Err(RuntimeError::EvaluateFailed(m))))) if m.contains("runtime enable failed")
    ));
}

#[test]
fn responses_are_matched_by_id_and_noise_is_ignored() {
    assert!(matches!(map_ws_text_message(None, 1), Ok(None)));
    let other = CdpResponse { id: Some(2), result: None, error: None };
    assert!(matches!(map_ws_text_message(Some(other), 1), Ok(None)));
    let no_id = CdpResponse { id: None, result: None, error: None };
    assert!(matches!(map_ws_text_message(Some(no_id), 1), Ok(None)));
    assert!(matches!(map_ws_incoming_message(IncomingMessage::Other, 1), Ok(None)));
    let missing_result = CdpResponse { id: Some(1), result: None, error: None };
    assert_eq!(
        map_ws_text_message(Some(missing_result), 1).unwrap(),
        Some(EvalPayload { ok: None, ts: None })
    );
}

#[test]
fn closed_or_failed_sockets_are_attach_failures() {
    assert!(matches!(
        map_ws_incoming_message(IncomingMessage::Closed, 1),
        Err(RuntimeError::AttachFailed)
    ));
    assert!(matches!(
        map_ws_incoming_message(IncomingMessage::Failed, 1),
        Err(RuntimeError::AttachFailed)
    ));
}

#[test]
fn attach_stops_at_connection_or_timeout_failures() {
    let c = client(None, None);
    let actions = drive(
        CdpOperation::Attach,
        &c,
        vec![
            CdpEvent::Discovered(Ok(target("t-close", "Figma - Attach"))),
            CdpEvent::Connected(Err(RuntimeError::AttachFailed)),
        ],
    );
    assert!(matches!(
        actions.last(),
        Some(CdpAction::Finish(CdpOutcome::Attached(Err(RuntimeError::AttachFailed))))
    ));
    let actions = drive(
        CdpOperation::Attach,
        &c,
        vec![
            CdpEvent::Discovered(Ok(target("t-timeout", "Figma - Attach"))),
            CdpEvent::Connected(Ok(())),
            err_reply(RuntimeError::Timeout),
        ],
    );
    assert!(matches!(
        actions.last(),
        Some(CdpAction::Finish(CdpOutcome::Attached(Err(RuntimeError::Timeout))))
    ));
    let actions = drive(CdpOperation::Attach, &c, vec![CdpEvent::Discovered(Err(RuntimeError::TargetNotFound))]);
    assert!(matches!(
        actions.last(),
        Some(CdpAction::Finish(CdpOutcome::Attached(Err(RuntimeError::TargetNotFound))))
    ));
}

#[test]
fn health_reports_ping_and_snapshot_success() {
    let c = client(Some("127.0.0.1"), Some(9333));
    let actions = drive(
        CdpOperation::Health,
        &c,
        vec![
            CdpEvent::Discovered(Ok(target("t-health", "Figma - Health"))),
            CdpEvent::Connected(Ok(())),
            ok_reply(),
            ok_reply(),
            ok_reply(),
        ],
    );
    assert!(matches!(&actions[3], CdpAction::Call { id: 2, command: CdpCommand::Evaluate(e), .. } if *e == figex::cdp::js_bridge::ping_script()));
    assert!(matches!(&actions[4], CdpAction::Call { id: 3, command: CdpCommand::Evaluate(_), .. }));
    let health = finished_health(&actions);
    assert!(health.ping_ok);
    assert!(health.snapshot_ok);
    assert_eq!(health.target_id.as_deref(), Some("t-health"));
    assert!(health.errors.is_empty());
    assert!(health.warnings.is_empty());
    assert_eq!(health.latency_ms, Some(5));
    assert_eq!(health.target_score, Some(8));
    assert_eq!(health.ping_script_version, "1.0.0");
}

#[test]
fn health_without_a_target_uses_fallback_host_and_port() {
    let c = client(Some("127.0.0.1"), Some(1));
    let actions = drive(CdpOperation::Health, &c, vec![CdpEvent::Discovered(Err(RuntimeError::TargetNotFound))]);
    let health = finished_health(&actions);
    assert!(!health.ping_ok);
    assert!(!health.snapshot_ok);
    assert_eq!(health.errors, vec!["target discovery failed: target not found"]);
    assert_eq!(health.host, "127.0.0.1");
    assert_eq!(health.port, 1);

    let c = client(None, None);
    let actions = drive(CdpOperation::Health, &c, vec![CdpEvent::Discovered(Err(RuntimeError::TargetNotFound))]);
    let health = finished_health(&actions);
    assert_eq!(health.host, "127.0.0.1");
    assert_eq!(health.port, 0);
}

#[test]
fn health_keeps_target_context_when_websocket_connect_fails() {
    let c = client(None, Some(9333));
    let actions = drive(
        CdpOperation::Health,
        &c,
        vec![
            CdpEvent::Discovered(Ok(target("t-no-ws", "Figma - Health"))),
            CdpEvent::Connected(Err(RuntimeError::AttachFailed)),
        ],
    );
    let health = finished_health(&actions);
    assert_eq!(health.host, "127.0.0.1");
    assert_eq!(health.port, 9333);
    assert_eq!(health.target_id.as_deref(), Some("t-no-ws"));
    assert_eq!(health.target_title.as_deref(), Some("Figma - Health"));
    assert_eq!(health.target_url.as_deref(), Some("https://www.figma.com/file/t-no-ws"));
    assert_eq!(health.target_score, Some(8));
    assert!(!health.ping_ok);
    assert!(!health.snapshot_ok);
    assert_eq!(health.errors, vec!["websocket connect failed: attach failed"]);
}

#[test]
fn health_records_runtime_enable_errors_and_continues() {
    let c = client(Some("127.0.0.1"), Some(9333));
    let actions = drive(
        CdpOperation::Health,
        &c,
        vec![
            CdpEvent::Discovered(Ok(target("t-enable-health", "Figma - Health"))),
            CdpEvent::Connected(Ok(())),
            err_reply(RuntimeError::EvaluateFailed("code=-32000, message=runtime enable failed".to_string())),
            ok_reply(),
            ok_reply(),
        ],
    );
    let health = finished_health(&actions);
    assert!(health.ping_ok);
    assert!(health.snapshot_ok);
    assert!(health.warnings.is_empty());
    assert!(health.errors.iter().any(|error| error.contains("Runtime.enable failed")));
}

#[test]
fn health_reports_ping_failures_as_errors_and_snapshot_failures_as_warnings() {
    let c = client(Some("127.0.0.1"), Some(9333));
    let actions = drive(
        CdpOperation::Health,
        &c,
        vec![
            CdpEvent::Discovered(Ok(target("t-ping-fail", "Figma - Health"))),
            CdpEvent::Connected(Ok(())),
            ok_reply(),
            err_reply(RuntimeError::Timeout),
            ok_reply(),
        ],
    );
    let health = finished_health(&actions);
    assert!(!health.ping_ok);
    assert!(health.snapshot_ok);
    assert!(health.warnings.is_empty());
    assert_eq!(health.errors, vec!["ping failed"]);
    assert_eq!(health.latency_ms, Some(7));

    let actions = drive(
        CdpOperation::Health,
        &c,
        vec![
            CdpEvent::Discovered(Ok(target("t-snapshot-fail", "Figma - Health"))),
            CdpEvent::Connected(Ok(())),
            ok_reply(),
            ok_reply(),
            err_reply(RuntimeError::Timeout),
        ],
    );
    let health = finished_health(&actions);
    assert!(health.ping_ok);
    assert!(!health.snapshot_ok);
    assert!(health.errors.is_empty());
    assert_eq!(health.warnings, vec!["snapshot check failed"]);
}

#[test]
fn snapshot_reads_ok_and_ts_from_the_evaluation_result() {
    let c = client(Some("127.0.0.1"), Some(9333));
    let actions = drive(
        CdpOperation::Snapshot,
        &c,
        vec![
            CdpEvent::Discovered(Ok(target("t-snap", "Figma - Snapshot"))),
            CdpEvent::Connected(Ok(())),
            ok_reply(),
            ok_reply(),
        ],
    );
    assert!(matches!(&actions[3], CdpAction::Call { id: 2, command: CdpCommand::Evaluate(_), .. }));
    assert!(matches!(
        actions.last(),
        Some(CdpAction::Finish(CdpOutcome::Snapshot(Ok(RuntimeFrameSnapshot { ok: true, ts: 1700 }))))
    ));
    let actions = drive(
        CdpOperation::Snapshot,
        &c,
        vec![
            CdpEvent::Discovered(Ok(target("t-snap", "Figma - Snapshot"))),
            CdpEvent::Connected(Ok(())),
            ok_reply(),
            CdpEvent::Replied { reply: Ok(EvalPayload { ok: None, ts: None }), elapsed_ms: 1 },
        ],
    );
    assert!(matches!(
        actions.last(),
        Some(CdpAction::Finish(CdpOutcome::Snapshot(Ok(RuntimeFrameSnapshot { ok: false, ts: 0 }))))
    ));
    let actions = drive(
        CdpOperation::Snapshot,
        &c,
        vec![
            CdpEvent::Discovered(Ok(target("t-snap", "Figma - Snapshot"))),
            CdpEvent::Connected(Ok(())),
            ok_reply(),
            err_reply(RuntimeError::Timeout),
        ],
    );
    assert!(matches!(
        actions.last(),
        Some(CdpAction::Finish(CdpOutcome::Snapshot(Err(RuntimeError::SnapshotFailed))))
    ));
}

#[test]
fn every_health_run_ends_with_a_consistent_report() {
    let c = client(Some("127.0.0.1"), Some(9333));
    let mut runs: Vec<Vec<CdpEvent>> = vec![
        vec![CdpEvent::Discovered(Err(RuntimeError::TargetNotFound))],
        vec![
            CdpEvent::Discovered(Ok(target("t", "Figma"))),
            CdpEvent::Connected(Err(RuntimeError::Timeout)),
        ],
    ];
    for mask in 0..8u8 {
        let reply = |bit: u8| if mask & bit != 0 { err_reply(RuntimeError::Timeout) } else { ok_reply() };
        runs.push(vec![
            CdpEvent::Discovered(Ok(target("t", "Figma"))),
            CdpEvent::Connected(Ok(())),
            reply(1),
            reply(2),
            reply(4),
        ]);
    }
    for events in runs {
        let actions = drive(CdpOperation::Health, &c, events);
        let h = finished_health(&actions);
        assert_eq!(h.transport, "cdp");
        assert!(!h.errors.is_empty() || h.ping_ok);
        assert!(h.snapshot_ok || !h.errors.is_empty() || !h.warnings.is_empty());
        if h.ping_ok || h.snapshot_ok {
            assert!(h.target_id.is_some() && h.latency_ms.is_some());
        }
    }
}
