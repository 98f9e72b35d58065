//! Discovery of the Figma page among the CDP targets of a host.

use vstd::prelude::*;

use std::time::Duration;

use super::protocol::JsonTarget;
use crate::error::RuntimeError;
use crate::text::{contains_str, lowercase_text, seq_has_infix, str_eq, string_of, to_lowercase};

verus! {

/// Where to look for CDP targets.
#[derive(Debug)]
pub struct ProbeConfig {
    /// Explicit host override (from `--host`, the environment or the file).
    pub host: Option<String>,
    /// Explicit port override; when set, only that port is tried.
    pub port: Option<u16>,
    pub timeout: Duration,
}

/// The target that discovery settled on.
#[derive(Debug, Clone)]
pub struct DiscoveredTarget {
    pub host: String,
    pub port: u16,
    pub target_id: String,
    pub title: String,
    pub url: String,
    pub ws_debugger_url: String,
    pub score: u32,
}

/// Known CDP ports, tried before the range scan.
pub open spec fn known_cdp_ports() -> Seq<u16> {
    seq![9229u16, 9222u16]
}

/// Port of the MCP desktop endpoint, tried last.
pub const MCP_PORT: u16 = 3845;

/// The ports of the scan over 9222..=9322, ascending, without the known
/// ports 9222 and 9229.
pub open spec fn scan_ports() -> Seq<u16> {
    Seq::new(99, |i: int| if i < 6 { (9223 + i) as u16 } else { (9224 + i) as u16 })
}

/// The host that discovery uses: the override, else the loopback address.
pub open spec fn probe_host(host: Option<String>) -> Seq<char> {
    match host {
        Some(h) => h@,
        None => "127.0.0.1"@,
    }
}

/// The ordered (host, port) pairs to probe: only the explicit port when
/// there is one; otherwise the known CDP ports, then the scan of
/// 9222..=9322, then the MCP endpoint on the loopback address.
pub open spec fn candidates_spec(host: Option<String>, port: Option<u16>) -> Seq<(Seq<char>, u16)> {
    let h = probe_host(host);
    match port {
        Some(p) => seq![(h, p)],
        None => known_cdp_ports().map_values(|p: u16| (h, p)) + scan_ports().map_values(
            |p: u16| (h, p),
        ) + seq![("127.0.0.1"@, 3845u16)],
    }
}

/// The text of a list of candidates.
pub open spec fn candidates_view(v: Seq<(String, u16)>) -> Seq<(Seq<char>, u16)> {
    v.map_values(|c: (String, u16)| (c.0@, c.1))
}

/// Returns the ordered list of (host, port) candidates to probe.
pub fn port_candidates(config: &ProbeConfig) -> (res: Vec<(String, u16)>)
    ensures
        candidates_view(res@) == candidates_spec(config.host, config.port),
{
    let host = match &config.host {
        Some(h) => h.clone(),
        None => string_of("127.0.0.1"),
    };
    let ghost h = probe_host(config.host);
    if let Some(port) = config.port {
        let mut only: Vec<(String, u16)> = Vec::new();
        only.push((host, port));
        assert(candidates_view(only@) =~= candidates_spec(config.host, config.port));
        return only;
    }
    let mut candidates: Vec<(String, u16)> = Vec::new();
    candidates.push((host.clone(), 9229));
    candidates.push((host.clone(), 9222));
    let ghost head = known_cdp_ports().map_values(|p: u16| (h, p));
    assert(candidates_view(candidates@) =~= head);
    let mut port: u16 = 9222;
    while port < 9322
        invariant
            host@ == h,
            9222 <= port <= 9322,
            candidates_view(candidates@) =~= head + scan_ports().map_values(|p: u16| (h, p)).take(
                if port < 9229 {
                    port - 9222
                } else {
                    port - 9223
                },
            ),
        decreases 9322 - port,
    {
        port = port + 1;
        if port != 9229 {
            let ghost before = candidates@;
            candidates.push((host.clone(), port));
            proof {
                assert(candidates_view(candidates@) =~= candidates_view(before).push((h, port)));
                let k: int = if port < 9229 {
                    port - 9223
                } else {
                    port - 9224
                };
                assert(scan_ports()[k] == port);
                assert(scan_ports().map_values(|p: u16| (h, p))[k] == (h, port));
                assert(scan_ports().map_values(|p: u16| (h, p)).take(k + 1) =~= scan_ports().map_values(
                    |p: u16| (h, p),
                ).take(k).push((h, port)));
            }
        }
    }
    assert(scan_ports().map_values(|p: u16| (h, p)).take(99) =~= scan_ports().map_values(
        |p: u16| (h, p),
    ));
    candidates.push((string_of("127.0.0.1"), MCP_PORT));
    assert(candidates_view(candidates@) =~= candidates_spec(config.host, config.port));
    candidates
}


/// Without an explicit port no (host, port) pair is probed twice.
pub proof fn law_candidates_are_distinct(host: Option<String>, port: Option<u16>)
    ensures
        forall|i: int, j: int|
            0 <= i < j < candidates_spec(host, port).len() ==> candidates_spec(host, port)[i]
                != candidates_spec(host, port)[j],
{
    let c = candidates_spec(host, port);
    let h = probe_host(host);
    if port is None {
        let tail = scan_ports().map_values(|p: u16| (h, p));
        assert forall|i: int, j: int| 0 <= i < j < c.len() implies c[i] != c[j] by {
            if 2 <= i && j < 101 {
                assert(c[i] == tail[i - 2]);
                assert(c[j] == tail[j - 2]);
            } else if i < 2 && 2 <= j < 101 {
                assert(c[j] == tail[j - 2]);
            }
        }
    }
}

/// Without an explicit port every port of 9222..=9322 is probed on the host.
pub proof fn law_candidates_cover_scan_range(host: Option<String>, p: u16)
    requires
        9222 <= p <= 9322,
    ensures
        exists|i: int|
            0 <= i < candidates_spec(host, None).len() && #[trigger] candidates_spec(host, None)[i]
                == (probe_host(host), p),
{
    let c = candidates_spec(host, None);
    let h = probe_host(host);
    let tail = scan_ports().map_values(|q: u16| (h, q));
    if p == 9229 {
        assert(c[0] == (h, p));
    } else if p == 9222 {
        assert(c[1] == (h, p));
    } else if p < 9229 {
        let k = p - 9223;
        assert(tail[k] == (h, p));
        assert(c[k + 2] == (h, p));
    } else {
        let k = p - 9224;
        assert(tail[k] == (h, p));
        assert(c[k + 2] == (h, p));
    }
}

/// URLs of DevTools pages, extensions and blank pages, which are never
/// taken for a Figma page.
pub open spec fn is_devtools_url(lower_url: Seq<char>) -> bool {
    seq_has_infix(lower_url, "devtools"@) || seq_has_infix(lower_url, "chrome-extension"@)
        || seq_has_infix(lower_url, "chrome://"@) || seq_has_infix(lower_url, "about:blank"@)
}

/// How likely a `/json/list` entry is to be the Figma page: 0 for a target
/// without a WebSocket URL, with a DevTools-like URL or with a lowercased
/// title that mentions "devtools"; otherwise 2 for a
/// page, plus 3 when the lowercased title mentions "figma", plus 3 when the
/// lowercased URL does.
pub open spec fn target_score(t: JsonTarget) -> u32 {
    let title = lowercase_text(t.title@);
    let url = lowercase_text(t.url@);
    if t.websocket_debugger_url is None || is_devtools_url(url) || seq_has_infix(title, "devtools"@) {
        0
    } else {
        ((if t.kind@ == "page"@ { 2int } else { 0int }) + (if seq_has_infix(title, "figma"@) {
            3int
        } else {
            0int
        }) + (if seq_has_infix(url, "figma"@) { 3int } else { 0int })) as u32
    }
}

/// Score a `/json/list` entry: higher means more likely to be Figma.
pub fn score_target(t: &JsonTarget) -> (score: u32)
    ensures
        score == target_score(*t),
        score <= 8,
{
    if t.websocket_debugger_url.is_none() {
        return 0;
    }
    let mut score: u32 = 0;
    if str_eq(t.kind.as_str(), "page") {
        score = score + 2;
    }
    let title_lc = to_lowercase(t.title.as_str());
    let url_lc = to_lowercase(t.url.as_str());
    if contains_str(title_lc.as_str(), "figma") {
        score = score + 3;
    }
    if contains_str(url_lc.as_str(), "figma") {
        score = score + 3;
    }
    if contains_str(title_lc.as_str(), "devtools") || contains_str(url_lc.as_str(), "devtools")
        || contains_str(url_lc.as_str(), "chrome-extension")
        || contains_str(url_lc.as_str(), "chrome://") || contains_str(
        url_lc.as_str(),
        "about:blank",
    ) {
        return 0;
    }
    score
}


/// Whether `i` is the entry that discovery picks from `ts`: it scores above
/// zero, no entry scores higher, and every later entry scores lower (of
/// entries with the same highest score the last one wins).
pub open spec fn is_best_target(ts: Seq<JsonTarget>, i: int) -> bool {
    &&& 0 <= i < ts.len()
    &&& target_score(ts[i]) > 0
    &&& forall|j: int| 0 <= j < ts.len() ==> target_score(#[trigger] ts[j]) <= target_score(ts[i])
    &&& forall|j: int| i < j < ts.len() ==> target_score(#[trigger] ts[j]) < target_score(ts[i])
}

/// Whether no entry of `ts` scores above zero.
pub open spec fn no_figma_target(ts: Seq<JsonTarget>) -> bool {
    forall|j: int| 0 <= j < ts.len() ==> target_score(#[trigger] ts[j]) == 0
}

/// The entry of `targets` with the highest positive score, the last one
/// among equals, with that score; `None` when no entry scores above zero.
pub fn select_best_target(targets: &Vec<JsonTarget>) -> (res: Option<(usize, u32)>)
    ensures
        match res {
            Some((i, s)) => is_best_target(targets@, i as int) && s == target_score(
                targets@[i as int],
            ),
            None => no_figma_target(targets@),
        },
{
    let mut best: Option<(usize, u32)> = None;
    let mut k: usize = 0;
    while k < targets.len()
        invariant
            k <= targets@.len(),
            match best {
                Some((i, s)) => {
                    &&& i < k
                    &&& s == target_score(targets@[i as int])
                    &&& s > 0
                    &&& forall|j: int| 0 <= j < k ==> target_score(#[trigger] targets@[j]) <= s
                    &&& forall|j: int| i < j < k ==> target_score(#[trigger] targets@[j]) < s
                },
                None => forall|j: int| 0 <= j < k ==> target_score(#[trigger] targets@[j]) == 0,
            },
        decreases targets.len() - k,
    {
        let s = score_target(&targets[k]);
        if s > 0 {
            match best {
                Some((_, b)) => {
                    if s >= b {
                        best = Some((k, s));
                    }
                },
                None => {
                    best = Some((k, s));
                },
            }
        }
        k = k + 1;
    }
    best
}

/// The text of a discovered target.
pub struct DiscoveredTargetView {
    pub host: Seq<char>,
    pub port: u16,
    pub target_id: Seq<char>,
    pub title: Seq<char>,
    pub url: Seq<char>,
    pub ws_debugger_url: Seq<char>,
    pub score: u32,
}

impl View for DiscoveredTarget {
    type V = DiscoveredTargetView;

    open spec fn view(&self) -> DiscoveredTargetView {
        DiscoveredTargetView {
            host: self.host@,
            port: self.port,
            target_id: self.target_id@,
            title: self.title@,
            url: self.url@,
            ws_debugger_url: self.ws_debugger_url@,
            score: self.score,
        }
    }
}

/// The discovered target for entry `t` found on `host`:`port`.
pub open spec fn discovered_view(host: Seq<char>, port: u16, t: JsonTarget) -> DiscoveredTargetView {
    DiscoveredTargetView {
        host: host,
        port: port,
        target_id: t.id@,
        title: t.title@,
        url: t.url@,
        ws_debugger_url: match t.websocket_debugger_url {
            Some(u) => u@,
            None => Seq::empty(),
        },
        score: target_score(t),
    }
}

/// What discovery asks for next, or how it ended.
#[derive(Debug)]
pub enum DiscoveryStep {
    /// Probe `GET /json/version` on this host and port.
    ProbeVersion(String, u16),
    /// Fetch `GET /json/list` from this host and port.
    FetchTargets(String, u16),
    /// Discovery is over: the target found, or `TargetNotFound`.
    Done(Result<DiscoveredTarget, RuntimeError>),
}

/// Where discovery stands in its walk over the candidates.
#[derive(Debug, Clone, Copy, PartialEq, Eq)]
pub enum DiscoveryPhase {
    AwaitingVersion,
    AwaitingTargets,
    Finished,
}

/// Target discovery over the candidate list, one candidate at a time: a
/// candidate whose version probe fails, whose target list cannot be read,
/// or whose list holds no Figma target is skipped.
pub struct Discovery {
    candidates: Vec<(String, u16)>,
    index: usize,
    phase: DiscoveryPhase,
}

impl Discovery {
    /// The candidates, in probing order.
    pub closed spec fn candidates(&self) -> Seq<(Seq<char>, u16)> {
        candidates_view(self.candidates@)
    }

    /// The candidate now being probed.
    pub closed spec fn index(&self) -> int {
        self.index as int
    }

    pub closed spec fn phase(&self) -> DiscoveryPhase {
        self.phase
    }

    /// The state is consistent: while not finished, the index points into
    /// the candidates.
    pub closed spec fn wf(&self) -> bool {
        self.phase != DiscoveryPhase::Finished ==> self.index < self.candidates@.len()
    }

    /// Whether `step` is the request for the candidate at `i`, or the end of
    /// discovery when `i` is past the last candidate.
    pub open spec fn asks_version_at(&self, i: int, step: DiscoveryStep) -> bool {
        if i < self.candidates().len() {
            &&& step matches DiscoveryStep::ProbeVersion(h, p)
            &&& (h@, p) == self.candidates()[i]
            &&& self.phase() == DiscoveryPhase::AwaitingVersion
            &&& self.index() == i
        } else {
            &&& step matches DiscoveryStep::Done(Err(RuntimeError::TargetNotFound))
            &&& self.phase() == DiscoveryPhase::Finished
        }
    }

    /// Starts discovery over the candidates of `config`.
    pub fn new(config: &ProbeConfig) -> (res: (Discovery, DiscoveryStep))
        ensures
            res.0.wf(),
            res.0.candidates() == candidates_spec(config.host, config.port),
            res.0.asks_version_at(0, res.1),
    {
        let candidates = port_candidates(config);
        let d = Discovery { candidates, index: 0, phase: DiscoveryPhase::AwaitingVersion };
        let step = d.ask_version_or_finish();
        (d, step)
    }

    fn ask_version_or_finish(&self) -> (step: DiscoveryStep)
        requires
            self.phase == DiscoveryPhase::AwaitingVersion,
            self.index < self.candidates@.len(),
        ensures
            self.asks_version_at(self.index as int, step),
    {
        let c = &self.candidates[self.index];
        DiscoveryStep::ProbeVersion(c.0.clone(), c.1)
    }

    /// Moves to the next candidate, or ends discovery past the last one.
    fn advance(&mut self) -> (step: DiscoveryStep)
        requires
            old(self).wf(),
            old(self).phase != DiscoveryPhase::Finished,
        ensures
            final(self).wf(),
            final(self).candidates() == old(self).candidates(),
            final(self).asks_version_at(old(self).index() + 1, step),
    {
        let n = self.candidates.len();
        if self.index + 1 < n {
            self.index = self.index + 1;
            self.phase = DiscoveryPhase::AwaitingVersion;
            self.ask_version_or_finish()
        } else {
            self.phase = DiscoveryPhase::Finished;
            DiscoveryStep::Done(Err(RuntimeError::TargetNotFound))
        }
    }

    /// Takes the outcome of the version probe of the current candidate: a
    /// reachable CDP endpoint has its target list fetched next, any other
    /// candidate is skipped.
    pub fn on_version(&mut self, reachable: bool) -> (step: DiscoveryStep)
        requires
            old(self).wf(),
            old(self).phase() == DiscoveryPhase::AwaitingVersion,
        ensures
            final(self).wf(),
            final(self).candidates() == old(self).candidates(),
            if reachable {
                &&& step matches DiscoveryStep::FetchTargets(h, p)
                &&& (h@, p) == old(self).candidates()[old(self).index()]
                &&& final(self).phase() == DiscoveryPhase::AwaitingTargets
                &&& final(self).index() == old(self).index()
            } else {
                final(self).asks_version_at(old(self).index() + 1, step)
            },
    {
        if reachable {
            self.phase = DiscoveryPhase::AwaitingTargets;
            let c = &self.candidates[self.index];
            DiscoveryStep::FetchTargets(c.0.clone(), c.1)
        } else {
            self.advance()
        }
    }

    /// Takes the target list of the current candidate, `None` when it could
    /// not be fetched or read: the best Figma target of the list ends
    /// discovery; without one the next candidate is tried.
    pub fn on_targets(&mut self, targets: Option<Vec<JsonTarget>>) -> (step: DiscoveryStep)
        requires
            old(self).wf(),
            old(self).phase() == DiscoveryPhase::AwaitingTargets,
        ensures
            final(self).wf(),
            final(self).candidates() == old(self).candidates(),
            match targets {
                Some(ts) if !no_figma_target(ts@) => exists|i: int|
                    #![trigger is_best_target(ts@, i)]
                    {
                        &&& is_best_target(ts@, i)
                        &&& step matches DiscoveryStep::Done(Ok(t))
                        &&& t@ == discovered_view(
                            old(self).candidates()[old(self).index()].0,
                            old(self).candidates()[old(self).index()].1,
                            ts@[i],
                        )
                        &&& final(self).phase() == DiscoveryPhase::Finished
                    },
                _ => final(self).asks_version_at(old(self).index() + 1, step),
            },
    {
        match targets {
            Some(ts) => {
                match select_best_target(&ts) {
                    Some((i, score)) => {
                        let c = &self.candidates[self.index];
                        let t = &ts[i];
                        let ws = match &t.websocket_debugger_url {
                            Some(u) => u.clone(),
                            None => String::new(),
                        };
                        let found = DiscoveredTarget {
                            host: c.0.clone(),
                            port: c.1,
                            target_id: t.id.clone(),
                            title: t.title.clone(),
                            url: t.url.clone(),
                            ws_debugger_url: ws,
                            score,
                        };
                        self.phase = DiscoveryPhase::Finished;
                        assert(is_best_target(ts@, i as int));
                        DiscoveryStep::Done(Ok(found))
                    },
                    None => self.advance(),
                }
            },
            None => self.advance(),
        }
    }
}

/// A target that discovery returns has a WebSocket URL, a positive score,
/// neither a DevTools-like URL nor a DevTools title, and no entry of its
/// list outscores it.
pub proof fn law_discovered_target_is_figma_page(ts: Seq<JsonTarget>, i: int)
    requires
        is_best_target(ts, i),
    ensures
        ts[i].websocket_debugger_url is Some,
        target_score(ts[i]) > 0,
        !is_devtools_url(lowercase_text(ts[i].url@)),
        !seq_has_infix(lowercase_text(ts[i].title@), "devtools"@),
        forall|j: int| 0 <= j < ts.len() ==> target_score(#[trigger] ts[j]) <= target_score(ts[i]),
{
}

/// How a target's score is made up: a target without a WebSocket URL,
/// with "devtools" in its lowercased title, or with "devtools",
/// "chrome-extension", "chrome://" or "about:blank" in its lowercased URL
/// scores 0; any other
/// gets 2 points exactly when its type is "page", 3 when its lowercased
/// title mentions "figma" and 3 when its lowercased URL does. So a target
/// that is not a page never scores more than 6, and none more than 8.
pub proof fn law_score_is_made_of_its_parts(t: JsonTarget)
    ensures
        t.websocket_debugger_url is None ==> target_score(t) == 0,
        seq_has_infix(lowercase_text(t.title@), "devtools"@) ==> target_score(t) == 0,
        seq_has_infix(lowercase_text(t.url@), "devtools"@) ==> target_score(t) == 0,
        seq_has_infix(lowercase_text(t.url@), "chrome-extension"@) ==> target_score(t) == 0,
        seq_has_infix(lowercase_text(t.url@), "chrome://"@) ==> target_score(t) == 0,
        seq_has_infix(lowercase_text(t.url@), "about:blank"@) ==> target_score(t) == 0,
        (t.websocket_debugger_url is Some && !seq_has_infix(lowercase_text(t.url@), "devtools"@)
            && !seq_has_infix(lowercase_text(t.url@), "chrome-extension"@) && !seq_has_infix(
            lowercase_text(t.url@),
            "chrome://"@,
        ) && !seq_has_infix(lowercase_text(t.url@), "about:blank"@) && !seq_has_infix(
            lowercase_text(t.title@),
            "devtools"@,
        )) ==> target_score(t) as int
            == (if t.kind@ == "page"@ { 2int } else { 0int }) + (if seq_has_infix(
            lowercase_text(t.title@),
            "figma"@,
        ) {
            3int
        } else {
            0int
        }) + (if seq_has_infix(lowercase_text(t.url@), "figma"@) { 3int } else { 0int }),
        t.kind@ != "page"@ ==> target_score(t) <= 6,
        target_score(t) <= 8,
{
}

} // verus!
