//! Decisions of the CDP client: matching responses to requests, and the
//! steps of attaching, checking health and taking a snapshot.

use vstd::prelude::*;

use std::time::Duration;

use super::js_bridge::{
    ping_script, ping_script_text, snapshot_script, snapshot_script_text, PING_SCRIPT_VERSION,
    SNAPSHOT_SCRIPT_VERSION,
};
use super::probe::{DiscoveredTarget, DiscoveredTargetView, ProbeConfig};
use super::protocol::{CdpResponse, EvalPayload, IncomingMessage};
use crate::error::RuntimeError;
use crate::runtime::{RuntimeFrameSnapshot, RuntimeHealth, RuntimeHealthView, RuntimeSession, texts};
use crate::text::{append_i32, append_str, dec_int, string_of};

verus! {

/// CDP-based runtime client: finds a Figma target through `/json/list`,
/// connects to it over WebSocket and drives the CDP Runtime domain.
#[derive(Debug)]
pub struct CdpClient {
    host: Option<String>,
    port: Option<u16>,
    timeout: Duration,
}

impl CdpClient {
    pub closed spec fn host(&self) -> Option<String> {
        self.host
    }

    pub closed spec fn port(&self) -> Option<u16> {
        self.port
    }

    pub closed spec fn timeout(&self) -> Duration {
        self.timeout
    }

    pub fn new(host: Option<String>, port: Option<u16>, timeout: Duration) -> (res: Self)
        ensures
            res.host() == host,
            res.port() == port,
            res.timeout() == timeout,
    {
        CdpClient { host, port, timeout }
    }

    /// The discovery configuration of this client.
    pub fn probe_config(&self) -> (res: ProbeConfig)
        ensures
            res.host == self.host(),
            res.port == self.port(),
            res.timeout == self.timeout(),
    {
        ProbeConfig { host: self.host.clone(), port: self.port, timeout: self.timeout }
    }
}

/// A failed WebSocket send is an attach failure.
pub fn map_ws_send_result<E>(result: Result<(), E>) -> (res: Result<(), RuntimeError>)
    ensures
        match result {
            Ok(()) => res == Ok::<(), RuntimeError>(()),
            Err(_) => res == Err::<(), RuntimeError>(RuntimeError::AttachFailed),
        },
{
    match result {
        Ok(()) => Ok(()),
        Err(_) => Err(RuntimeError::AttachFailed),
    }
}

/// The message of a CDP error response.
pub open spec fn cdp_error_text(code: i32, message: Seq<char>) -> Seq<char> {
    "code="@ + dec_int(code as int) + ", message="@ + message
}

/// The result of a response, where a missing result reads as an empty one.
pub open spec fn payload_or_empty(result: Option<EvalPayload>) -> EvalPayload {
    match result {
        Some(p) => p,
        None => EvalPayload { ok: None, ts: None },
    }
}

/// Whether `res` is what a text frame means for the request with id `id`:
/// a frame that does not parse, or answers another id, is ignored
/// (`Ok(None)`); an error response is an evaluation failure carrying the
/// error's code and message; otherwise the frame's result.
pub open spec fn is_text_message_result(
    resp: Option<CdpResponse>,
    id: u32,
    res: Result<Option<EvalPayload>, RuntimeError>,
) -> bool {
    match resp {
        None => res == Ok::<Option<EvalPayload>, RuntimeError>(None),
        Some(r) => if r.id != Some(id) {
            res == Ok::<Option<EvalPayload>, RuntimeError>(None)
        } else {
            match r.error {
                Some(e) => res matches Err(RuntimeError::EvaluateFailed(m)) && m@ == cdp_error_text(
                    e.code,
                    e.message@,
                ),
                None => res == Ok::<Option<EvalPayload>, RuntimeError>(
                    Some(payload_or_empty(r.result)),
                ),
            }
        },
    }
}

/// Matches a parsed text frame against the request with id `id`.
pub fn map_ws_text_message(resp: Option<CdpResponse>, id: u32) -> (res: Result<Option<EvalPayload>, RuntimeError>)
    ensures
        is_text_message_result(resp, id, res),
{
    let resp = match resp {
        Some(r) => r,
        None => return Ok(None),
    };
    match resp.id {
        Some(got) => {
            if got != id {
                return Ok(None);
            }
        },
        None => return Ok(None),
    }
    if let Some(err) = resp.error {
        let mut message = string_of("code=");
        append_i32(&mut message, err.code);
        append_str(&mut message, ", message=");
        append_str(&mut message, err.message.as_str());
        return Err(RuntimeError::EvaluateFailed(message));
    }
    let value = match resp.result {
        Some(v) => v,
        None => EvalPayload { ok: None, ts: None },
    };
    Ok(Some(value))
}

/// Reads one incoming WebSocket message for the request with id `id`: a
/// closed or failed stream is an attach failure, a frame that is not text
/// is ignored, a text frame is matched by `map_ws_text_message`.
pub fn map_ws_incoming_message(message: IncomingMessage, id: u32) -> (res: Result<Option<EvalPayload>, RuntimeError>)
    ensures
        match message {
            IncomingMessage::Closed => res == Err::<Option<EvalPayload>, RuntimeError>(
                RuntimeError::AttachFailed,
            ),
            IncomingMessage::Failed => res == Err::<Option<EvalPayload>, RuntimeError>(
                RuntimeError::AttachFailed,
            ),
            IncomingMessage::Other => res == Ok::<Option<EvalPayload>, RuntimeError>(None),
            IncomingMessage::Text(resp) => is_text_message_result(resp, id, res),
        },
{
    match message {
        IncomingMessage::Closed => Err(RuntimeError::AttachFailed),
        IncomingMessage::Failed => Err(RuntimeError::AttachFailed),
        IncomingMessage::Other => Ok(None),
        IncomingMessage::Text(resp) => map_ws_text_message(resp, id),
    }
}


/// A health report for a run that found no target: the fallback host and
/// port, both checks failed, no latency, no warnings.
pub open spec fn health_without_target(host: Seq<char>, port: u16, errors: Seq<Seq<char>>) -> RuntimeHealthView {
    RuntimeHealthView {
        transport: "cdp"@,
        host: host,
        port: port,
        target_id: None,
        target_title: None,
        target_url: None,
        target_score: None,
        ping_ok: false,
        snapshot_ok: false,
        latency_ms: None,
        ping_script_version: PING_SCRIPT_VERSION@,
        snapshot_script_version: SNAPSHOT_SCRIPT_VERSION@,
        warnings: Seq::empty(),
        errors: errors,
    }
}

/// A health report about target `t`.
pub open spec fn health_of_target(
    t: DiscoveredTargetView,
    ping_ok: bool,
    snapshot_ok: bool,
    latency_ms: Option<u64>,
    warnings: Seq<Seq<char>>,
    errors: Seq<Seq<char>>,
) -> RuntimeHealthView {
    RuntimeHealthView {
        transport: "cdp"@,
        host: t.host,
        port: t.port,
        target_id: Some(t.target_id),
        target_title: Some(t.title),
        target_url: Some(t.url),
        target_score: Some(t.score),
        ping_ok: ping_ok,
        snapshot_ok: snapshot_ok,
        latency_ms: latency_ms,
        ping_script_version: PING_SCRIPT_VERSION@,
        snapshot_script_version: SNAPSHOT_SCRIPT_VERSION@,
        warnings: warnings,
        errors: errors,
    }
}

/// The health report when no target could be discovered.
pub fn health_from_no_target(fallback_host: String, fallback_port: u16, errors: Vec<String>) -> (res: RuntimeHealth)
    ensures
        res@ == health_without_target(fallback_host@, fallback_port, texts(errors@)),
{
    let res = RuntimeHealth {
        transport: string_of("cdp"),
        host: fallback_host,
        port: fallback_port,
        target_id: None,
        target_title: None,
        target_url: None,
        target_score: None,
        ping_ok: false,
        snapshot_ok: false,
        latency_ms: None,
        ping_script_version: string_of(PING_SCRIPT_VERSION),
        snapshot_script_version: string_of(SNAPSHOT_SCRIPT_VERSION),
        warnings: Vec::new(),
        errors,
    };
    assert(texts(res.warnings@) =~= Seq::<Seq<char>>::empty());
    res
}

/// The health report about a target whose WebSocket could not be reached.
pub fn health_from_target_no_ws(target: &DiscoveredTarget, errors: Vec<String>) -> (res: RuntimeHealth)
    ensures
        res@ == health_of_target(target@, false, false, None, Seq::empty(), texts(errors@)),
{
    let res = RuntimeHealth {
        transport: string_of("cdp"),
        host: target.host.clone(),
        port: target.port,
        target_id: Some(target.target_id.clone()),
        target_title: Some(target.title.clone()),
        target_url: Some(target.url.clone()),
        target_score: Some(target.score),
        ping_ok: false,
        snapshot_ok: false,
        latency_ms: None,
        ping_script_version: string_of(PING_SCRIPT_VERSION),
        snapshot_script_version: string_of(SNAPSHOT_SCRIPT_VERSION),
        warnings: Vec::new(),
        errors,
    };
    assert(texts(res.warnings@) =~= Seq::<Seq<char>>::empty());
    res
}


/// The three operations of the runtime client.
#[derive(Debug, Clone, Copy, PartialEq, Eq, Structural)]
pub enum CdpOperation {
    /// Connect, enable the Runtime domain and describe the session.
    Attach,
    /// Run every check and report on each; never fails.
    Health,
    /// Evaluate the snapshot script.
    Snapshot,
}

/// A CDP method call.
#[derive(Debug, Clone, Copy, PartialEq, Eq)]
pub enum CdpCommand {
    /// `Runtime.enable` with empty parameters.
    RuntimeEnable,
    /// `Runtime.evaluate` of `expression`, returning the result by value.
    Evaluate(&'static str),
}

/// What an operation ends with.
#[derive(Debug)]
pub enum CdpOutcome {
    Attached(Result<RuntimeSession, RuntimeError>),
    Health(RuntimeHealth),
    Snapshot(Result<RuntimeFrameSnapshot, RuntimeError>),
}

/// What the caller performs next for an operation.
#[derive(Debug)]
pub enum CdpAction {
    /// Discover the best target with this configuration.
    Discover(ProbeConfig),
    /// Open a WebSocket to this debugger URL.
    Connect(String),
    /// Send this call with this request id and wait for its reply for at
    /// most `timeout`.
    Call { id: u32, command: CdpCommand, timeout: Duration },
    /// The operation is over.
    Finish(CdpOutcome),
}

/// What the caller observed after performing an action.
#[derive(Debug)]
pub enum CdpEvent {
    Discovered(Result<DiscoveredTarget, RuntimeError>),
    Connected(Result<(), RuntimeError>),
    /// The reply to the last call, and how long the call took.
    Replied { reply: Result<EvalPayload, RuntimeError>, elapsed_ms: u64 },
}

/// Where an operation stands.
#[derive(Debug, Clone, Copy, PartialEq, Eq, Structural)]
pub enum CdpStage {
    Discovering,
    Connecting,
    Enabling,
    Pinging,
    Snapshotting,
    Finished,
}

/// One run of an operation of the client, driven by the caller, which
/// performs each action and hands back what it observed.
#[derive(Debug)]
pub struct CdpRun {
    op: CdpOperation,
    stage: CdpStage,
    timeout: Duration,
    fallback_host: String,
    fallback_port: u16,
    target: Option<DiscoveredTarget>,
    ping_ok: bool,
    latency_ms: Option<u64>,
    warnings: Vec<String>,
    errors: Vec<String>,
}

/// The session that attaching to target `t` describes.
pub open spec fn session_of(t: DiscoveredTargetView) -> crate::runtime::RuntimeSessionView {
    crate::runtime::RuntimeSessionView {
        target_id: t.target_id,
        target_title: t.title,
        target_url: t.url,
        host: t.host,
        port: t.port,
    }
}

/// The snapshot that an evaluation result describes: `ok` and `ts` where
/// the result gives them, `false` and 0 where it does not.
pub open spec fn snapshot_of(p: EvalPayload) -> RuntimeFrameSnapshot {
    RuntimeFrameSnapshot {
        ok: match p.ok {
            Some(b) => b,
            None => false,
        },
        ts: match p.ts {
            Some(t) => t,
            None => 0,
        },
    }
}

/// The health report that a health run finishes with when its final
/// snapshot check replied `snapshot_reply`.
pub open spec fn final_health(
    t: DiscoveredTargetView,
    ping_ok: bool,
    latency_ms: Option<u64>,
    warnings: Seq<Seq<char>>,
    errors: Seq<Seq<char>>,
    snapshot_ok: bool,
) -> RuntimeHealthView {
    health_of_target(
        t,
        ping_ok,
        snapshot_ok,
        latency_ms,
        if snapshot_ok {
            warnings
        } else {
            warnings.push("snapshot check failed"@)
        },
        errors,
    )
}

/// Whether a health report is consistent: it comes over CDP with the
/// script versions of this build; a report without errors has a working
/// ping; a failed snapshot check is explained by an error or a warning; a
/// report with a working check names its target and a latency.
pub open spec fn health_consistent(h: RuntimeHealthView) -> bool {
    &&& h.transport == "cdp"@
    &&& h.ping_script_version == PING_SCRIPT_VERSION@
    &&& h.snapshot_script_version == SNAPSHOT_SCRIPT_VERSION@
    &&& h.errors.len() == 0 ==> h.ping_ok
    &&& !h.snapshot_ok ==> (h.errors.len() > 0 || h.warnings.len() > 0)
    &&& (h.ping_ok || h.snapshot_ok) ==> (h.target_id is Some && h.latency_ms is Some)
}

/// Every way a health run ends gives a consistent report: a failed
/// discovery, a failed WebSocket connection, and the end of the snapshot
/// check, where the ping has set a latency and recorded an error unless it
/// worked.
pub proof fn law_health_reports_are_consistent(
    host: Seq<char>,
    port: u16,
    failure: Seq<char>,
    t: DiscoveredTargetView,
    ping_ok: bool,
    latency_ms: Option<u64>,
    warnings: Seq<Seq<char>>,
    errors: Seq<Seq<char>>,
    snapshot_ok: bool,
)
    requires
        latency_ms is Some,
        errors.len() == 0 ==> ping_ok,
    ensures
        health_consistent(
            health_without_target(host, port, seq!["target discovery failed: "@ + failure]),
        ),
        health_consistent(
            health_of_target(
                t,
                false,
                false,
                None,
                Seq::empty(),
                seq!["websocket connect failed: "@ + failure],
            ),
        ),
        health_consistent(final_health(t, ping_ok, latency_ms, warnings, errors, snapshot_ok)),
{
}

/// Whether `a` is the call with request id `id` of `command` with `timeout`.
pub open spec fn is_call(a: CdpAction, id: u32, command: CdpCommand, timeout: Duration) -> bool {
    a == CdpAction::Call { id, command, timeout }
}

/// Whether `a` is the `Runtime.evaluate` call of `expression` with request
/// id `id` and `timeout`.
pub open spec fn is_evaluate_call(a: CdpAction, id: u32, expression: Seq<char>, timeout: Duration) -> bool {
    a matches CdpAction::Call { id: i, command: CdpCommand::Evaluate(e), timeout: t } && i == id
        && e@ == expression && t == timeout
}

impl CdpRun {
    pub closed spec fn op(&self) -> CdpOperation {
        self.op
    }

    pub closed spec fn stage(&self) -> CdpStage {
        self.stage
    }

    pub closed spec fn timeout(&self) -> Duration {
        self.timeout
    }

    pub closed spec fn fallback_host(&self) -> Seq<char> {
        self.fallback_host@
    }

    pub closed spec fn fallback_port(&self) -> u16 {
        self.fallback_port
    }

    /// The target of the run, once discovered.
    pub closed spec fn target(&self) -> Option<DiscoveredTargetView> {
        match self.target {
            Some(t) => Some(t@),
            None => None,
        }
    }

    pub closed spec fn ping_ok(&self) -> bool {
        self.ping_ok
    }

    pub closed spec fn latency_ms(&self) -> Option<u64> {
        self.latency_ms
    }

    pub closed spec fn warnings(&self) -> Seq<Seq<char>> {
        texts(self.warnings@)
    }

    pub closed spec fn errors(&self) -> Seq<Seq<char>> {
        texts(self.errors@)
    }

    /// The run is consistent: past discovery it has a target, an attach
    /// never pings or snapshots, a snapshot run never pings.
    pub closed spec fn wf(&self) -> bool {
        &&& (self.stage != CdpStage::Discovering && self.stage != CdpStage::Finished)
            ==> self.target is Some
        &&& self.op == CdpOperation::Attach ==> (self.stage != CdpStage::Pinging && self.stage
            != CdpStage::Snapshotting)
        &&& self.op == CdpOperation::Snapshot ==> self.stage != CdpStage::Pinging
        &&& self.op == CdpOperation::Health ==> {
            &&& (self.stage == CdpStage::Discovering || self.stage == CdpStage::Connecting
                || self.stage == CdpStage::Enabling || self.stage == CdpStage::Pinging) ==> (
            !self.ping_ok && self.latency_ms is None)
            &&& self.stage == CdpStage::Snapshotting ==> (self.latency_ms is Some && (
            self.errors@.len() == 0 ==> self.ping_ok))
        }
    }

    /// Whether `event` answers the action that the run is waiting on.
    pub open spec fn expects(&self, event: CdpEvent) -> bool {
        match self.stage() {
            CdpStage::Discovering => event is Discovered,
            CdpStage::Connecting => event is Connected,
            CdpStage::Enabling | CdpStage::Pinging | CdpStage::Snapshotting => event is Replied,
            CdpStage::Finished => false,
        }
    }

    /// Starts operation `op` of `client`: the first action is discovery
    /// with the client's configuration.
    pub fn start(client: &CdpClient, op: CdpOperation) -> (res: (CdpRun, CdpAction))
        ensures
            res.0.wf(),
            res.0.op() == op,
            res.0.stage() == CdpStage::Discovering,
            res.0.timeout() == client.timeout(),
            res.0.fallback_host() == (match client.host() {
                Some(h) => h@,
                None => "127.0.0.1"@,
            }),
            res.0.fallback_port() == (match client.port() {
                Some(p) => p,
                None => 0,
            }),
            res.0.target() is None,
            !res.0.ping_ok(),
            res.0.latency_ms() is None,
            res.0.warnings() == Seq::<Seq<char>>::empty(),
            res.0.errors() == Seq::<Seq<char>>::empty(),
            res.1 matches CdpAction::Discover(cfg) && cfg.host == client.host() && cfg.port
                == client.port() && cfg.timeout == client.timeout(),
    {
        let fallback_host = match &client.host {
            Some(h) => h.clone(),
            None => string_of("127.0.0.1"),
        };
        let fallback_port = match client.port {
            Some(p) => p,
            None => 0,
        };
        let run = CdpRun {
            op,
            stage: CdpStage::Discovering,
            timeout: client.timeout,
            fallback_host,
            fallback_port,
            target: None,
            ping_ok: false,
            latency_ms: None,
            warnings: Vec::new(),
            errors: Vec::new(),
        };
        assert(texts(run.warnings@) =~= Seq::<Seq<char>>::empty());
        assert(texts(run.errors@) =~= Seq::<Seq<char>>::empty());
        (run, CdpAction::Discover(client.probe_config()))
    }

    /// Ends an attach or snapshot run with error `e`.
    fn fail(&mut self, e: RuntimeError) -> (a: CdpAction)
        requires
            old(self).op != CdpOperation::Health,
        ensures
            *final(self) == (CdpRun { stage: CdpStage::Finished, ..*old(self) }),
            if old(self).op == CdpOperation::Attach {
                a == CdpAction::Finish(CdpOutcome::Attached(Err(e)))
            } else {
                a == CdpAction::Finish(CdpOutcome::Snapshot(Err(e)))
            },
    {
        self.stage = CdpStage::Finished;
        if self.op == CdpOperation::Attach {
            CdpAction::Finish(CdpOutcome::Attached(Err(e)))
        } else {
            CdpAction::Finish(CdpOutcome::Snapshot(Err(e)))
        }
    }

    /// Takes what the caller observed and returns the next action.
    ///
    /// Attach and snapshot runs stop at the first failure and return it; a
    /// failed snapshot evaluation becomes `SnapshotFailed`. A health run
    /// always ends with a report: a failed discovery or connection ends it
    /// early with the failure among the errors; a failed `Runtime.enable`
    /// is recorded and the checks go on; a failed ping is recorded as an
    /// error and a failed snapshot check as a warning.
    pub fn on_event(&mut self, event: CdpEvent) -> (a: CdpAction)
        requires
            old(self).wf(),
            old(self).expects(event),
        ensures
            final(self).wf(),
            final(self).op() == old(self).op(),
            final(self).timeout() == old(self).timeout(),
            final(self).fallback_host() == old(self).fallback_host(),
            final(self).fallback_port() == old(self).fallback_port(),
            old(self).op() == CdpOperation::Health && a is Finish ==> (a matches CdpAction::Finish(
                CdpOutcome::Health(h),
            ) && health_consistent(h@)),
            match event {
                CdpEvent::Discovered(Err(e)) => {
                    &&& final(self).stage() == CdpStage::Finished
                    &&& match old(self).op() {
                        CdpOperation::Health => a matches CdpAction::Finish(CdpOutcome::Health(h))
                            && h@ == health_without_target(
                            old(self).fallback_host(),
                            old(self).fallback_port(),
                            seq!["target discovery failed: "@ + e.message_spec()],
                        ),
                        CdpOperation::Attach => a == CdpAction::Finish(
                            CdpOutcome::Attached(Err(e)),
                        ),
                        CdpOperation::Snapshot => a == CdpAction::Finish(
                            CdpOutcome::Snapshot(Err(e)),
                        ),
                    }
                },
                CdpEvent::Discovered(Ok(t)) => {
                    &&& final(self).stage() == CdpStage::Connecting
                    &&& final(self).target() == Some(t@)
                    &&& final(self).errors() == old(self).errors()
                    &&& final(self).warnings() == old(self).warnings()
                    &&& final(self).ping_ok() == old(self).ping_ok()
                    &&& final(self).latency_ms() == old(self).latency_ms()
                    &&& a matches CdpAction::Connect(u) && u@ == t.ws_debugger_url@
                },
                CdpEvent::Connected(Err(e)) => {
                    &&& final(self).stage() == CdpStage::Finished
                    &&& match old(self).op() {
                        CdpOperation::Health => a matches CdpAction::Finish(CdpOutcome::Health(h))
                            && h@ == health_of_target(
                            old(self).target()->0,
                            false,
                            false,
                            None,
                            Seq::empty(),
                            seq!["websocket connect failed: "@ + e.message_spec()],
                        ),
                        CdpOperation::Attach => a == CdpAction::Finish(
                            CdpOutcome::Attached(Err(e)),
                        ),
                        CdpOperation::Snapshot => a == CdpAction::Finish(
                            CdpOutcome::Snapshot(Err(e)),
                        ),
                    }
                },
                CdpEvent::Connected(Ok(())) => {
                    &&& final(self).stage() == CdpStage::Enabling
                    &&& final(self).target() == old(self).target()
                    &&& final(self).errors() == old(self).errors()
                    &&& final(self).warnings() == old(self).warnings()
                    &&& final(self).ping_ok() == old(self).ping_ok()
                    &&& final(self).latency_ms() == old(self).latency_ms()
                    &&& is_call(a, 1, CdpCommand::RuntimeEnable, old(self).timeout())
                },
                CdpEvent::Replied { reply, elapsed_ms } => match old(self).stage() {
                    CdpStage::Enabling => match old(self).op() {
                        CdpOperation::Health => {
                            &&& final(self).stage() == CdpStage::Pinging
                            &&& final(self).target() == old(self).target()
                            &&& final(self).warnings() == old(self).warnings()
                            &&& final(self).ping_ok() == old(self).ping_ok()
                            &&& final(self).latency_ms() == old(self).latency_ms()
                            &&& final(self).errors() == match reply {
                                Ok(_) => old(self).errors(),
                                Err(e) => old(self).errors().push(
                                    "Runtime.enable failed: "@ + e.message_spec(),
                                ),
                            }
                            &&& is_evaluate_call(a, 2, ping_script_text(), old(self).timeout())
                        },
                        CdpOperation::Attach => {
                            &&& final(self).stage() == CdpStage::Finished
                            &&& match reply {
                                Ok(_) => a matches CdpAction::Finish(
                                    CdpOutcome::Attached(Ok(session)),
                                ) && session@ == session_of(old(self).target()->0),
                                Err(e) => a == CdpAction::Finish(CdpOutcome::Attached(Err(e))),
                            }
                        },
                        CdpOperation::Snapshot => match reply {
                            Ok(_) => {
                                &&& final(self).stage() == CdpStage::Snapshotting
                                &&& final(self).target() == old(self).target()
                                &&& final(self).errors() == old(self).errors()
                                &&& final(self).warnings() == old(self).warnings()
                                &&& final(self).ping_ok() == old(self).ping_ok()
                                &&& final(self).latency_ms() == old(self).latency_ms()
                                &&& is_evaluate_call(
                                    a,
                                    2,
                                    snapshot_script_text(),
                                    old(self).timeout(),
                                )
                            },
                            Err(e) => {
                                &&& final(self).stage() == CdpStage::Finished
                                &&& a == CdpAction::Finish(CdpOutcome::Snapshot(Err(e)))
                            },
                        },
                    },
                    CdpStage::Pinging => {
                        &&& final(self).stage() == CdpStage::Snapshotting
                        &&& final(self).target() == old(self).target()
                        &&& final(self).ping_ok() == reply is Ok
                        &&& final(self).latency_ms() == Some(elapsed_ms)
                        &&& final(self).warnings() == old(self).warnings()
                        &&& final(self).errors() == if reply is Ok {
                            old(self).errors()
                        } else {
                            old(self).errors().push("ping failed"@)
                        }
                        &&& is_evaluate_call(a, 3, snapshot_script_text(), old(self).timeout())
                    },
                    _ => {
                        &&& final(self).stage() == CdpStage::Finished
                        &&& match old(self).op() {
                            CdpOperation::Health => a matches CdpAction::Finish(
                                CdpOutcome::Health(h),
                            ) && h@ == final_health(
                                old(self).target()->0,
                                old(self).ping_ok(),
                                old(self).latency_ms(),
                                old(self).warnings(),
                                old(self).errors(),
                                reply is Ok,
                            ),
                            _ => match reply {
                                Ok(p) => a == CdpAction::Finish(
                                    CdpOutcome::Snapshot(Ok(snapshot_of(p))),
                                ),
                                Err(_) => a == CdpAction::Finish(
                                    CdpOutcome::Snapshot(Err(RuntimeError::SnapshotFailed)),
                                ),
                            },
                        }
                    },
                },
            },
    {
        match event {
            CdpEvent::Discovered(Err(e)) => {
                if self.op == CdpOperation::Health {
                    let mut line = string_of("target discovery failed: ");
                    let m = e.message();
                    append_str(&mut line, m.as_str());
                    let mut errors: Vec<String> = Vec::new();
                    errors.push(line);
                    proof {
                        assert(texts(errors@) =~= seq!["target discovery failed: "@ + e.message_spec()]);
                    }
                    self.stage = CdpStage::Finished;
                    let h = health_from_no_target(self.fallback_host.clone(), self.fallback_port, errors);
                    CdpAction::Finish(CdpOutcome::Health(h))
                } else {
                    self.fail(e)
                }
            },
            CdpEvent::Discovered(Ok(t)) => {
                let url = t.ws_debugger_url.clone();
                self.target = Some(t);
                self.stage = CdpStage::Connecting;
                CdpAction::Connect(url)
            },
            CdpEvent::Connected(Err(e)) => {
                if self.op == CdpOperation::Health {
                    let mut line = string_of("websocket connect failed: ");
                    let m = e.message();
                    append_str(&mut line, m.as_str());
                    let mut errors: Vec<String> = Vec::new();
                    errors.push(line);
                    proof {
                        assert(texts(errors@) =~= seq!["websocket connect failed: "@ + e.message_spec()]);
                    }
                    self.stage = CdpStage::Finished;
                    let h = match &self.target {
                        Some(t) => health_from_target_no_ws(t, errors),
                        None => health_from_no_target(self.fallback_host.clone(), self.fallback_port, errors),
                    };
                    CdpAction::Finish(CdpOutcome::Health(h))
                } else {
                    self.fail(e)
                }
            },
            CdpEvent::Connected(Ok(())) => {
                self.stage = CdpStage::Enabling;
                CdpAction::Call { id: 1, command: CdpCommand::RuntimeEnable, timeout: self.timeout }
            },
            CdpEvent::Replied { reply, elapsed_ms } => {
                if self.stage == CdpStage::Enabling {
                    if self.op == CdpOperation::Health {
                        if let Err(e) = &reply {
                            let mut line = string_of("Runtime.enable failed: ");
                            let m = e.message();
                            append_str(&mut line, m.as_str());
                            let ghost before = self.errors@;
                            self.errors.push(line);
                            proof {
                                assert(texts(self.errors@) =~= texts(before).push(
                                    "Runtime.enable failed: "@ + e.message_spec(),
                                ));
                            }
                        }
                        self.stage = CdpStage::Pinging;
                        CdpAction::Call {
                            id: 2,
                            command: CdpCommand::Evaluate(ping_script()),
                            timeout: self.timeout,
                        }
                    } else if self.op == CdpOperation::Attach {
                        match reply {
                            Ok(_) => {
                                self.stage = CdpStage::Finished;
                                let session = match &self.target {
                                    Some(t) => RuntimeSession {
                                        target_id: t.target_id.clone(),
                                        target_title: t.title.clone(),
                                        target_url: t.url.clone(),
                                        host: t.host.clone(),
                                        port: t.port,
                                    },
                                    None => RuntimeSession {
                                        target_id: String::new(),
                                        target_title: String::new(),
                                        target_url: String::new(),
                                        host: String::new(),
                                        port: 0,
                                    },
                                };
                                CdpAction::Finish(CdpOutcome::Attached(Ok(session)))
                            },
                            Err(e) => self.fail(e),
                        }
                    } else {
                        match reply {
                            Ok(_) => {
                                self.stage = CdpStage::Snapshotting;
                                CdpAction::Call {
                                    id: 2,
                                    command: CdpCommand::Evaluate(snapshot_script()),
                                    timeout: self.timeout,
                                }
                            },
                            Err(e) => self.fail(e),
                        }
                    }
                } else if self.stage == CdpStage::Pinging {
                    let ok = reply.is_ok();
                    self.ping_ok = ok;
                    self.latency_ms = Some(elapsed_ms);
                    if !ok {
                        let ghost before = self.errors@;
                        self.errors.push(string_of("ping failed"));
                        proof {
                            assert(texts(self.errors@) =~= texts(before).push("ping failed"@));
                        }
                    }
                    self.stage = CdpStage::Snapshotting;
                    CdpAction::Call {
                        id: 3,
                        command: CdpCommand::Evaluate(snapshot_script()),
                        timeout: self.timeout,
                    }
                } else {
                    self.stage = CdpStage::Finished;
                    if self.op == CdpOperation::Health {
                        let snapshot_ok = reply.is_ok();
                        let mut warnings = self.warnings.clone();
                        if !snapshot_ok {
                            let ghost before = warnings@;
                            warnings.push(string_of("snapshot check failed"));
                            proof {
                                assert(texts(warnings@) =~= texts(before).push(
                                    "snapshot check failed"@,
                                ));
                            }
                        }
                        let h = match &self.target {
                            Some(t) => RuntimeHealth {
                                transport: string_of("cdp"),
                                host: t.host.clone(),
                                port: t.port,
                                target_id: Some(t.target_id.clone()),
                                target_title: Some(t.title.clone()),
                                target_url: Some(t.url.clone()),
                                target_score: Some(t.score),
                                ping_ok: self.ping_ok,
                                snapshot_ok,
                                latency_ms: self.latency_ms,
                                ping_script_version: string_of(PING_SCRIPT_VERSION),
                                snapshot_script_version: string_of(SNAPSHOT_SCRIPT_VERSION),
                                warnings,
                                errors: self.errors.clone(),
                            },
                            None => health_from_no_target(
                                self.fallback_host.clone(),
                                self.fallback_port,
                                self.errors.clone(),
                            ),
                        };
                        CdpAction::Finish(CdpOutcome::Health(h))
                    } else {
                        match reply {
                            Ok(p) => {
                                let ok = match p.ok {
                                    Some(b) => b,
                                    None => false,
                                };
                                let ts: u64 = match p.ts {
                                    Some(t) => t,
                                    None => 0,
                                };
                                CdpAction::Finish(
                                    CdpOutcome::Snapshot(Ok(RuntimeFrameSnapshot { ok, ts })),
                                )
                            },
                            Err(_) => CdpAction::Finish(
                                CdpOutcome::Snapshot(Err(RuntimeError::SnapshotFailed)),
                            ),
                        }
                    }
                }
            },
        }
    }
}

/// What a health run reports once its snapshot check has replied: the
/// ping result, latency and errors recorded so far, the check's result,
/// and the warnings so far followed by "snapshot check failed" exactly when
/// the check failed, whatever errors came before.
pub proof fn law_snapshot_failure_is_warned(
    t: DiscoveredTargetView,
    ping_ok: bool,
    latency_ms: Option<u64>,
    warnings: Seq<Seq<char>>,
    errors: Seq<Seq<char>>,
    snapshot_ok: bool,
)
    ensures
        ({
            let h = final_health(t, ping_ok, latency_ms, warnings, errors, snapshot_ok);
            &&& h.snapshot_ok == snapshot_ok
            &&& h.ping_ok == ping_ok
            &&& h.latency_ms == latency_ms
            &&& h.errors == errors
            &&& h.target_id == Some(t.target_id)
            &&& h.warnings.len() == warnings.len() + (if snapshot_ok { 0int } else { 1int })
            &&& forall|i: int| 0 <= i < warnings.len() ==> h.warnings[i] == warnings[i]
            &&& !snapshot_ok ==> h.warnings.last() == "snapshot check failed"@
            &&& !snapshot_ok ==> h.warnings.contains("snapshot check failed"@)
        }),
{
    let h = final_health(t, ping_ok, latency_ms, warnings, errors, snapshot_ok);
    if !snapshot_ok {
        assert(h.warnings[warnings.len() as int] == "snapshot check failed"@);
    }
}

} // verus!
