//! The JavaScript that the CDP transport evaluates in the runtime.

use vstd::prelude::*;

verus! {

/// Version of the ping script. Bump when the script logic changes.
pub const PING_SCRIPT_VERSION: &'static str = "1.0.0";

/// Version of the snapshot script. Bump when the script logic changes.
pub const SNAPSHOT_SCRIPT_VERSION: &'static str = "1.0.0";

/// The text of the ping script.
pub open spec fn ping_script_text() -> Seq<char> {
    "(function(){ return { ok: true, ts: Date.now() }; })()"@
}

/// The text of the snapshot script.
pub open spec fn snapshot_script_text() -> Seq<char> {
    "(function(){ return { ok: true, ts: Date.now() }; })()"@
}

/// A JavaScript expression that confirms the runtime is responsive; it
/// evaluates to `{ ok: true, ts: <epoch ms> }`.
pub fn ping_script() -> (res: &'static str)
    ensures
        res@ == ping_script_text(),
{
    "(function(){ return { ok: true, ts: Date.now() }; })()"
}

/// A JavaScript expression used for the first-stage snapshot check; for
/// now it only confirms that evaluation succeeds.
pub fn snapshot_script() -> (res: &'static str)
    ensures
        res@ == snapshot_script_text(),
{
    "(function(){ return { ok: true, ts: Date.now() }; })()"
}

} // verus!
