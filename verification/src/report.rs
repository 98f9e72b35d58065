//! What the commands print and decide: health reports, attach summaries,
//! and the checks of an extracted snapshot.

use vstd::prelude::*;

use crate::cdp::client::health_without_target;
use crate::cli::AppContext;
use crate::error::{FigexError, RuntimeError};
use crate::runtime::{
    opt_text, texts, transport_versions, RuntimeFrameSnapshot, RuntimeHealth, RuntimeHealthView,
    RuntimeSession,
};
use crate::text::{append_decimal, append_str, dec, law_parse_reads_back_decimal, parse_unsigned, string_of};

verus! {

/// The report shown when the health check itself failed: the configured
/// host and port, and the error as its `Debug` formatting writes it.
pub fn fallback_health(ctx: &AppContext, error: RuntimeError) -> (res: RuntimeHealth)
    ensures
        res@ == health_without_target(
            ctx.settings.host@,
            ctx.settings.port,
            seq![error.debug_spec()],
        ),
{
    let (ping_script_version, snapshot_script_version) = transport_versions();
    let mut errors: Vec<String> = Vec::new();
    errors.push(error.debug_name());
    let res = RuntimeHealth {
        transport: string_of("cdp"),
        host: ctx.settings.host.clone(),
        port: ctx.settings.port,
        target_id: None,
        target_title: None,
        target_url: None,
        target_score: None,
        ping_ok: false,
        snapshot_ok: false,
        latency_ms: None,
        ping_script_version: string_of(ping_script_version),
        snapshot_script_version: string_of(snapshot_script_version),
        warnings: Vec::new(),
        errors,
    };
    assert(texts(res.warnings@) =~= Seq::<Seq<char>>::empty());
    assert(texts(res.errors@) =~= seq![error.debug_spec()]);
    res
}

/// The report to show for a health check: its own report, or the fallback
/// report when the check failed.
pub fn health_to_render(ctx: &AppContext, health_result: Result<RuntimeHealth, RuntimeError>) -> (res: RuntimeHealth)
    ensures
        match health_result {
            Ok(h) => res == h,
            Err(e) => res@ == health_without_target(
                ctx.settings.host@,
                ctx.settings.port,
                seq![e.debug_spec()],
            ),
        },
{
    match health_result {
        Ok(h) => h,
        Err(e) => fallback_health(ctx, e),
    }
}

/// An optional value, or `-` when absent.
pub open spec fn or_dash(o: Option<Seq<char>>) -> Seq<char> {
    match o {
        Some(s) => s,
        None => "-"@,
    }
}

/// `ok` or `fail`.
pub open spec fn ok_fail(b: bool) -> Seq<char> {
    if b {
        "ok"@
    } else {
        "fail"@
    }
}

/// The lines of the human-readable health report: the fixed fields, the
/// latency when known, then one line per warning and one per error.
pub open spec fn health_lines(h: RuntimeHealthView) -> Seq<Seq<char>> {
    seq![
        "transport:  "@ + h.transport,
        "host:       "@ + h.host,
        "port:       "@ + dec(h.port as nat),
        "target_id:  "@ + or_dash(h.target_id),
        "title:      "@ + or_dash(h.target_title),
        "url:        "@ + or_dash(h.target_url),
        "ping:       "@ + ok_fail(h.ping_ok),
        "snapshot:   "@ + ok_fail(h.snapshot_ok),
    ] + match h.latency_ms {
        Some(n) => seq!["latency:    "@ + dec(n as nat) + "ms"@],
        None => Seq::empty(),
    } + h.warnings.map_values(|w: Seq<char>| "warning:    "@ + w) + h.errors.map_values(
        |e: Seq<char>| "error:      "@ + e,
    )
}

fn labeled(label: &str, value: &str) -> (res: String)
    ensures
        res@ == label@ + value@,
{
    let mut s = string_of(label);
    append_str(&mut s, value);
    s
}

fn labeled_opt(label: &str, value: &Option<String>) -> (res: String)
    ensures
        res@ == label@ + or_dash(opt_text(*value)),
{
    match value {
        Some(v) => labeled(label, v.as_str()),
        None => labeled(label, "-"),
    }
}

fn labeled_status(label: &str, ok: bool) -> (res: String)
    ensures
        res@ == label@ + ok_fail(ok),
{
    labeled(label, if ok { "ok" } else { "fail" })
}

/// Appends `label` + each of `items` to `out`, one line each.
fn push_labeled_all(out: &mut Vec<String>, label: &str, items: &Vec<String>)
    ensures
        texts(final(out)@) == texts(old(out)@) + texts(items@).map_values(|w: Seq<char>| label@ + w),
{
    let mut i: usize = 0;
    while i < items.len()
        invariant
            i <= items@.len(),
            texts(out@) == texts(old(out)@) + texts(items@).take(i as int).map_values(
                |w: Seq<char>| label@ + w,
            ),
        decreases items.len() - i,
    {
        let ghost before = out@;
        out.push(labeled(label, items[i].as_str()));
        proof {
            assert(texts(items@).take(i + 1) =~= texts(items@).take(i as int).push(items@[i as int]@));
            assert(texts(out@) =~= texts(before).push(label@ + items@[i as int]@));
        }
        i = i + 1;
    }
    assert(texts(items@).take(items@.len() as int) =~= texts(items@));
}

/// The lines of the human-readable health report.
pub fn health_human_lines(health: &RuntimeHealth) -> (res: Vec<String>)
    ensures
        texts(res@) == health_lines(health@),
{
    let mut out: Vec<String> = Vec::new();
    out.push(labeled("transport:  ", health.transport.as_str()));
    out.push(labeled("host:       ", health.host.as_str()));
    let mut port_line = string_of("port:       ");
    append_decimal(&mut port_line, health.port as u64);
    out.push(port_line);
    out.push(labeled_opt("target_id:  ", &health.target_id));
    out.push(labeled_opt("title:      ", &health.target_title));
    out.push(labeled_opt("url:        ", &health.target_url));
    out.push(labeled_status("ping:       ", health.ping_ok));
    out.push(labeled_status("snapshot:   ", health.snapshot_ok));
    if let Some(latency_ms) = health.latency_ms {
        let mut l = string_of("latency:    ");
        append_decimal(&mut l, latency_ms);
        append_str(&mut l, "ms");
        out.push(l);
    }
    let ghost head = texts(out@);
    assert(head =~= seq![
        "transport:  "@ + health@.transport,
        "host:       "@ + health@.host,
        "port:       "@ + dec(health@.port as nat),
        "target_id:  "@ + or_dash(health@.target_id),
        "title:      "@ + or_dash(health@.target_title),
        "url:        "@ + or_dash(health@.target_url),
        "ping:       "@ + ok_fail(health@.ping_ok),
        "snapshot:   "@ + ok_fail(health@.snapshot_ok),
    ] + match health@.latency_ms {
        Some(n) => seq!["latency:    "@ + dec(n as nat) + "ms"@],
        None => Seq::empty(),
    });
    push_labeled_all(&mut out, "warning:    ", &health.warnings);
    push_labeled_all(&mut out, "error:      ", &health.errors);
    assert(texts(out@) =~= health_lines(health@));
    out
}

/// The lines that `attach` prints about a session.
pub open spec fn session_lines(host: Seq<char>, port: u16, target_id: Seq<char>, title: Seq<char>, url: Seq<char>) -> Seq<Seq<char>> {
    seq![
        "Attached to Figma runtime"@,
        "  host:      "@ + host,
        "  port:      "@ + dec(port as nat),
        "  target_id: "@ + target_id,
        "  title:     "@ + title,
        "  url:       "@ + url,
    ]
}

/// The lines that `attach` prints about the session it established.
pub fn attach_summary_lines(session: &RuntimeSession) -> (res: Vec<String>)
    ensures
        texts(res@) == session_lines(
            session.host@,
            session.port,
            session.target_id@,
            session.target_title@,
            session.target_url@,
        ),
{
    let mut out: Vec<String> = Vec::new();
    out.push(string_of("Attached to Figma runtime"));
    out.push(labeled("  host:      ", session.host.as_str()));
    let mut port_line = string_of("  port:      ");
    append_decimal(&mut port_line, session.port as u64);
    out.push(port_line);
    out.push(labeled("  target_id: ", session.target_id.as_str()));
    out.push(labeled("  title:     ", session.target_title.as_str()));
    out.push(labeled("  url:       ", session.target_url.as_str()));
    assert(texts(out@) =~= session_lines(
        session.host@,
        session.port,
        session.target_id@,
        session.target_title@,
        session.target_url@,
    ));
    out
}

/// The capture time of a snapshot that `extract` can save: a failed
/// snapshot, or one the runtime reports as not ok, is a snapshot error.
pub fn check_snapshot(snapshot: Result<RuntimeFrameSnapshot, RuntimeError>) -> (res: Result<u64, FigexError>)
    ensures
        match snapshot {
            Err(e) => res == Err::<u64, FigexError>(FigexError::SnapshotFailed(e)),
            Ok(s) => if s.ok {
                res == Ok::<u64, FigexError>(s.ts)
            } else {
                res == Err::<u64, FigexError>(
                    FigexError::SnapshotFailed(RuntimeError::SnapshotFailed),
                )
            },
        },
{
    match snapshot {
        Err(e) => Err(FigexError::SnapshotFailed(e)),
        Ok(s) => if s.ok {
            Ok(s.ts)
        } else {
            Err(FigexError::SnapshotFailed(RuntimeError::SnapshotFailed))
        },
    }
}

/// Each line of the attach summary after the first is a 13-character
/// label followed by the session's value: reading the number back from the
/// port line gives the session's port, for every port, and the other lines
/// end with the host, the target id, the title and the URL.
pub proof fn law_session_lines_read_back(
    host: Seq<char>,
    port: u16,
    target_id: Seq<char>,
    title: Seq<char>,
    url: Seq<char>,
)
    ensures
        ({
            let ls = session_lines(host, port, target_id, title, url);
            &&& ls.len() == 6
            &&& ls[0] == "Attached to Figma runtime"@
            &&& ls[2].take(13) == "  port:      "@
            &&& parse_unsigned(ls[2].skip(13), 65535) == Some(port as nat)
            &&& ls[1].skip(13) == host
            &&& ls[3].skip(13) == target_id
            &&& ls[4].skip(13) == title
            &&& ls[5].skip(13) == url
        }),
{
    reveal_strlit("  host:      ");
    reveal_strlit("  port:      ");
    reveal_strlit("  target_id: ");
    reveal_strlit("  title:     ");
    reveal_strlit("  url:       ");
    let ls = session_lines(host, port, target_id, title, url);
    law_parse_reads_back_decimal(port as nat, 65535);
    assert(ls[1].skip(13) =~= host);
    assert(ls[2].take(13) =~= "  port:      "@);
    assert(ls[2].skip(13) =~= dec(port as nat));
    assert(ls[3].skip(13) =~= target_id);
    assert(ls[4].skip(13) =~= title);
    assert(ls[5].skip(13) =~= url);
}

} // verus!
