use std::time::Duration;

use figex::cdp::probe::{score_target, select_best_target, Discovery, DiscoveryStep, ProbeConfig};
use figex::cdp::protocol::JsonTarget;
use figex::error::RuntimeError;

fn probe(port: u16) -> ProbeConfig {
    ProbeConfig {
        host: Some("127.0.0.1".to_string()),
        port: Some(port),
        timeout: Duration::from_secs(2),
    }
}

fn json_target(id: &str, title: &str, url: &str, kind: &str, ws: Option<&str>) -> JsonTarget {
    JsonTarget {
        id: id.to_string(),
        title: title.to_string(),
        url: url.to_string(),
        kind: kind.to_string(),
        websocket_debugger_url: ws.map(|w| w.to_string()),
    }
}

/// Discovery on one explicit port whose target list is `targets`.
fn discover_once(targets: Option<Vec<JsonTarget>>) -> Result<figex::cdp::probe::DiscoveredTarget, RuntimeError> {
    let (mut d, step) = Discovery::new(&probe(9333));
    assert!(matches!(&step, DiscoveryStep::ProbeVersion(h, 9333) if h == "127.0.0.1"));
    let step = d.on_version(true);
    assert!(matches!(&step, DiscoveryStep::FetchTargets(h, 9333) if h == "127.0.0.1"));
    match d.on_targets(targets) {
        DiscoveryStep::Done(result) => result,
        other => panic!("a single candidate should end discovery, got {other:?}"),
    }
}

#[test]
fn discovers_figma_target_on_explicit_port() {
    let found = discover_once(Some(vec![json_target(
        "t-001",
        "Figma - My Design",
        "https://www.figma.com/file/abc123",
        "page",
        Some("ws://127.0.0.1:9333/ws/t-001"),
    )]))
    .expect("should discover Figma target");
    assert_eq!(found.target_id, "t-001");
    assert_eq!(found.title, "Figma - My Design");
    assert_eq!(found.ws_debugger_url, "ws://127.0.0.1:9333/ws/t-001");
    assert_eq!(found.host, "127.0.0.1");
    assert_eq!(found.port, 9333);
    assert_eq!(found.score, 8);
}

#[test]
fn returns_target_not_found_when_no_figma_page() {
    let result = discover_once(Some(vec![json_target(
        "t-002",
        "Chrome DevTools",
        "chrome-devtools://devtools/",
        "other",
        Some("ws://127.0.0.1:9333/ws/t-002"),
    )]));
    assert!(matches!(result, Err(RuntimeError::TargetNotFound)));
}

#[test]
fn prefers_higher_scoring_target() {
    let found = discover_once(Some(vec![
        json_target("low", "Some page", "https://figma.com/file/abc", "other", Some("ws://low")),
        json_target("high", "Figma - Main", "https://www.figma.com/file/xyz", "page", Some("ws://high")),
    ]))
    .expect("should discover");
    assert_eq!(found.target_id, "high");
}

#[test]
fn skips_targets_without_websocket_url() {
    let result = discover_once(Some(vec![json_target(
        "no-ws",
        "Figma - Design",
        "https://www.figma.com/file/nows",
        "page",
        None,
    )]));
    assert!(matches!(result, Err(RuntimeError::TargetNotFound)));
}

#[test]
fn returns_target_not_found_when_target_list_is_invalid_json() {
    assert!(matches!(discover_once(None), Err(RuntimeError::TargetNotFound)));
}

#[test]
fn returns_target_not_found_when_target_list_request_cannot_be_sent() {
    let (mut d, _) = Discovery::new(&probe(9333));
    assert!(matches!(d.on_version(false), DiscoveryStep::Done(Err(RuntimeError::TargetNotFound))));
}

#[test]
fn excludes_about_blank_false_positives_after_checking_all_keywords() {
    let result = discover_once(Some(vec![json_target(
        "about-blank",
        "Figma - Blank",
        "about:blank",
        "page",
        Some("ws://127.0.0.1:9333/ws/about-blank"),
    )]));
    assert!(matches!(result, Err(RuntimeError::TargetNotFound)));
}

#[test]
fn equal_scores_pick_the_last_target() {
    let ts = vec![
        json_target("a", "Figma", "https://x", "page", Some("ws://a")),
        json_target("b", "Figma", "https://y", "page", Some("ws://b")),
        json_target("c", "Other", "https://z", "page", Some("ws://c")),
    ];
    assert_eq!(select_best_target(&ts), Some((1, 5)));
    assert_eq!(select_best_target(&vec![]), None);
}

#[test]
fn scores_follow_kind_title_and_url() {
    let t = |title: &str, url: &str, kind: &str| json_target("x", title, url, kind, Some("ws://x"));
    assert_eq!(score_target(&t("FIGMA", "HTTPS://FIGMA.COM", "page")), 8);
    assert_eq!(score_target(&t("figma", "https://x", "other")), 3);
    assert_eq!(score_target(&t("x", "https://x", "page")), 2);
    assert_eq!(score_target(&t("Figma", "chrome://settings", "page")), 0);
    assert_eq!(score_target(&t("Figma", "chrome-extension://abc/figma", "page")), 0);
    assert_eq!(score_target(&json_target("x", "Figma", "https://figma.com", "page", None)), 0);
}

#[test]
fn discovery_walks_candidates_in_order_until_one_yields_a_target() {
    let config = ProbeConfig { host: None, port: None, timeout: Duration::from_secs(1) };
    let (mut d, step) = Discovery::new(&config);
    assert!(matches!(&step, DiscoveryStep::ProbeVersion(h, 9229) if h == "127.0.0.1"));
    // 9229 is not a CDP endpoint.
    assert!(matches!(d.on_version(false), DiscoveryStep::ProbeVersion(_, 9222)));
    // 9222 answers but has no Figma page.
    assert!(matches!(d.on_version(true), DiscoveryStep::FetchTargets(_, 9222)));
    let step = d.on_targets(Some(vec![json_target("x", "x", "https://x", "other", Some("ws://x"))]));
    assert!(matches!(step, DiscoveryStep::ProbeVersion(_, 9223)));
    assert!(matches!(d.on_version(true), DiscoveryStep::FetchTargets(_, 9223)));
    let step = d.on_targets(Some(vec![json_target("f", "Figma", "https://figma.com/file/f", "page", Some("ws://f"))]));
    match step {
        DiscoveryStep::Done(Ok(t)) => {
            assert_eq!(t.port, 9223);
            assert_eq!(t.target_id, "f");
        },
        other => panic!("unexpected {other:?}"),
    }
}

#[test]
fn discovery_ends_after_the_mcp_candidate() {
    let config = ProbeConfig { host: Some("h".to_string()), port: None, timeout: Duration::from_secs(1) };
    let (mut d, mut step) = Discovery::new(&config);
    let mut probed = Vec::new();
    loop {
        match step {
            DiscoveryStep::ProbeVersion(h, p) => {
                probed.push((h, p));
                step = d.on_version(false);
            },
            DiscoveryStep::Done(result) => {
                assert!(matches!(result, Err(RuntimeError::TargetNotFound)));
                break;
            },
            DiscoveryStep::FetchTargets(..) => panic!("no version probe succeeded"),
        }
    }
    assert_eq!(probed.len(), 102);
    assert_eq!(probed.last(), Some(&("127.0.0.1".to_string(), 3845)));
}

#[test]
fn devtools_titles_score_zero_even_with_a_figma_url() {
    let t = json_target(
        "dt",
        "DevTools - figma.com/file/abc",
        "https://www.figma.com/file/abc",
        "page",
        Some("ws://dt"),
    );
    assert_eq!(score_target(&t), 0);
    let plain = json_target("ok", "Figma", "https://www.figma.com/file/abc", "page", Some("ws://ok"));
    assert_eq!(score_target(&plain), 8);
}
