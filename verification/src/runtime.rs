//! What the runtime reports back: sessions, health reports and snapshots.

use vstd::prelude::*;

use crate::cdp::js_bridge::{PING_SCRIPT_VERSION, SNAPSHOT_SCRIPT_VERSION};

verus! {

/// Resolved information about a successfully attached runtime session.
#[derive(Debug, Clone)]
pub struct RuntimeSession {
    pub target_id: String,
    pub target_title: String,
    pub target_url: String,
    pub host: String,
    pub port: u16,
}

/// The text of a session.
pub struct RuntimeSessionView {
    pub target_id: Seq<char>,
    pub target_title: Seq<char>,
    pub target_url: Seq<char>,
    pub host: Seq<char>,
    pub port: u16,
}

impl View for RuntimeSession {
    type V = RuntimeSessionView;

    open spec fn view(&self) -> RuntimeSessionView {
        RuntimeSessionView {
            target_id: self.target_id@,
            target_title: self.target_title@,
            target_url: self.target_url@,
            host: self.host@,
            port: self.port,
        }
    }
}

/// Diagnostic result of a health check. It is always produced, even when
/// the runtime is unreachable; failures show in `ping_ok`, `snapshot_ok`,
/// `warnings` and `errors`.
#[derive(Debug, Clone)]
pub struct RuntimeHealth {
    pub transport: String,
    pub host: String,
    pub port: u16,
    pub target_id: Option<String>,
    pub target_title: Option<String>,
    pub target_url: Option<String>,
    /// Target score from discovery: higher means more confident this is a Figma page.
    pub target_score: Option<u32>,
    pub ping_ok: bool,
    pub snapshot_ok: bool,
    pub latency_ms: Option<u64>,
    /// Version of the ping script that was evaluated.
    pub ping_script_version: String,
    /// Version of the snapshot script that was evaluated.
    pub snapshot_script_version: String,
    pub warnings: Vec<String>,
    pub errors: Vec<String>,
}

/// The text of a health report.
pub struct RuntimeHealthView {
    pub transport: Seq<char>,
    pub host: Seq<char>,
    pub port: u16,
    pub target_id: Option<Seq<char>>,
    pub target_title: Option<Seq<char>>,
    pub target_url: Option<Seq<char>>,
    pub target_score: Option<u32>,
    pub ping_ok: bool,
    pub snapshot_ok: bool,
    pub latency_ms: Option<u64>,
    pub ping_script_version: Seq<char>,
    pub snapshot_script_version: Seq<char>,
    pub warnings: Seq<Seq<char>>,
    pub errors: Seq<Seq<char>>,
}

/// The text of an optional string.
pub open spec fn opt_text(o: Option<String>) -> Option<Seq<char>> {
    match o {
        Some(s) => Some(s@),
        None => None,
    }
}

/// The texts of a list of strings.
pub open spec fn texts(v: Seq<String>) -> Seq<Seq<char>> {
    v.map_values(|s: String| s@)
}

impl View for RuntimeHealth {
    type V = RuntimeHealthView;

    open spec fn view(&self) -> RuntimeHealthView {
        RuntimeHealthView {
            transport: self.transport@,
            host: self.host@,
            port: self.port,
            target_id: opt_text(self.target_id),
            target_title: opt_text(self.target_title),
            target_url: opt_text(self.target_url),
            target_score: self.target_score,
            ping_ok: self.ping_ok,
            snapshot_ok: self.snapshot_ok,
            latency_ms: self.latency_ms,
            ping_script_version: self.ping_script_version@,
            snapshot_script_version: self.snapshot_script_version@,
            warnings: texts(self.warnings@),
            errors: texts(self.errors@),
        }
    }
}

/// Input for a snapshot operation. With no frame reference the runtime
/// returns whatever frame is active.
#[derive(Debug, Clone)]
pub struct RuntimeFrameRequest {
    pub frame_ref: Option<String>,
}

/// Minimal snapshot result returned by the runtime.
#[derive(Debug, Clone, Copy, PartialEq, Eq)]
pub struct RuntimeFrameSnapshot {
    pub ok: bool,
    pub ts: u64,
}

/// Returns the (ping script version, snapshot script version) pair.
pub fn transport_versions() -> (res: (&'static str, &'static str))
    ensures
        res.0@ == PING_SCRIPT_VERSION@,
        res.1@ == SNAPSHOT_SCRIPT_VERSION@,
{
    (PING_SCRIPT_VERSION, SNAPSHOT_SCRIPT_VERSION)
}

} // verus!
