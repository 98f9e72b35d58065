//! CDP wire data, as the logic reads it.

use vstd::prelude::*;

verus! {

/// The `error` member of a CDP response.
#[derive(Debug, Clone)]
pub struct CdpError {
    pub code: i32,
    pub message: String,
}

/// What an evaluation result carries at `result.value.ok` and
/// `result.value.ts`, where those hold a boolean and an unsigned integer.
#[derive(Debug, Clone, Copy, PartialEq, Eq)]
pub struct EvalPayload {
    pub ok: Option<bool>,
    pub ts: Option<u64>,
}

/// A CDP response frame: its id, its result and its error, each optional.
#[derive(Debug, Clone)]
pub struct CdpResponse {
    pub id: Option<u32>,
    pub result: Option<EvalPayload>,
    pub error: Option<CdpError>,
}

/// One entry returned by `GET /json/list`.
#[derive(Debug, Clone)]
pub struct JsonTarget {
    pub id: String,
    pub title: String,
    pub url: String,
    pub kind: String,
    pub websocket_debugger_url: Option<String>,
}

/// A message read from the WebSocket, as the logic tells them apart.
#[derive(Debug, Clone)]
pub enum IncomingMessage {
    /// The stream ended.
    Closed,
    /// Reading from the stream failed.
    Failed,
    /// A text frame, with the response it parses to, if it parses.
    Text(Option<CdpResponse>),
    /// Any frame that is not text.
    Other,
}

} // verus!
