//! The parts of the raw frame snapshot that hold no floating-point data.

use vstd::prelude::*;

use crate::runtime::RuntimeSession;
use crate::text::string_of;

verus! {

/// Frame-level metadata of a raw snapshot: what was captured (the frame
/// reference the user gave, and the id and name the runtime resolved, when
/// available) and how (transport, host, port, capture time in Unix
/// milliseconds, tool version).
#[derive(Debug, Clone)]
pub struct RawFrameMeta {
    pub frame_ref: Option<String>,
    pub frame_id: Option<String>,
    pub frame_name: Option<String>,
    pub transport: String,
    pub host: String,
    pub port: u16,
    pub captured_at: u64,
    pub tool_version: String,
}

/// A parent to child relationship between two nodes.
#[derive(Debug, Clone)]
pub struct RawEdge {
    pub parent_id: String,
    pub child_id: String,
    /// Zero-based index among the parent's children.
    pub index: u32,
}

/// The frame metadata of a snapshot taken through `session` of the frame
/// `frame_ref` at `captured_at`.
pub fn raw_frame_meta(frame_ref: &str, session: &RuntimeSession, captured_at: u64, tool_version: &str) -> (res: RawFrameMeta)
    ensures
        res.frame_ref matches Some(f) && f@ == frame_ref@,
        res.frame_id is None,
        res.frame_name is None,
        res.transport@ == "cdp"@,
        res.host@ == session.host@,
        res.port == session.port,
        res.captured_at == captured_at,
        res.tool_version@ == tool_version@,
{
    RawFrameMeta {
        frame_ref: Some(string_of(frame_ref)),
        frame_id: None,
        frame_name: None,
        transport: string_of("cdp"),
        host: session.host.clone(),
        port: session.port,
        captured_at,
        tool_version: string_of(tool_version),
    }
}

} // verus!
