//! Audit support: redaction of secret-bearing fields and the JSON-lines audit
//! record. Appending the line to the log file happens outside the library.
//!
//! Redaction replaces, and only replaces: the confirmation token, every
//! `write_file` content, every `exec` environment value (keys stay), captured
//! stdout and stderr, and the base64 content of a read — each with the
//! literal `[redacted]`. Every other field is carried through unchanged.

use vstd::prelude::*;

verus! {

use crate::numbers::{spec_dec, spec_dec_int};
use crate::text::chars_to_string;
use crate::types::{
    Action, ActionPlan, ActionPlanResult, ActionResult, Confirmation, EnvEntry, EnvMap,
    ExecAction, PeerCredentials, WriteFileAction,
};
use crate::wire::{
    emit_i32, emit_jstr, emit_lit, emit_opt_str, emit_plan, emit_plan_result, emit_u64, jopt_str,
    jstr, ser_plan, ser_plan_result,
};

/// The redacted environment: same keys in the same order, every value the
/// marker.
pub open spec fn env_redacted(a: Option<EnvMap>, b: Option<EnvMap>) -> bool {
    match a {
        None => b is None,
        Some(m) => b matches Some(mb) && mb.entries@.len() == m.entries@.len() && (forall|i: int|
            0 <= i < m.entries@.len() ==> (#[trigger] mb.entries@[i]).key@ == m.entries@[i].key@
                && mb.entries@[i].value@ == "[redacted]"@),
    }
}

/// The redacted form of one action: `write_file` content and `exec`
/// environment values become the marker; everything else is unchanged.
pub open spec fn action_redacted(a: Action, b: Action) -> bool {
    match a {
        Action::Exec(x) => b matches Action::Exec(y) && y.argv == x.argv && y.cwd == x.cwd
            && env_redacted(x.env, y.env) && y.timeout_sec == x.timeout_sec && y.as_root
            == x.as_root && y.reason == x.reason && y.danger == x.danger && y.recovery
            == x.recovery,
        Action::WriteFile(x) => b matches Action::WriteFile(y) && y.path == x.path && y.content@
            == "[redacted]"@ && y.mode == x.mode && y.reason == x.reason && y.danger == x.danger
            && y.recovery == x.recovery,
        _ => b == a,
    }
}

/// The redacted form of a whole plan: the confirmation token becomes the
/// marker, each action is redacted, and everything else is unchanged.
pub open spec fn plan_redacted(a: ActionPlan, b: ActionPlan) -> bool {
    &&& b.request_id == a.request_id
    &&& b.session_id == a.session_id
    &&& b.version == a.version
    &&& b.mode == a.mode
    &&& b.actions@.len() == a.actions@.len()
    &&& (forall|i: int|
        0 <= i < a.actions@.len() ==> action_redacted(
            a.actions@[i],
            #[trigger] b.actions@[i],
        ))
    &&& match a.confirmation {
        None => b.confirmation is None,
        Some(_) => b.confirmation matches Some(c) && c.token@ == "[redacted]"@,
    }
}

/// The redacted form of one action result: captured output and file content
/// become the marker; everything else is unchanged.
pub open spec fn result_redacted(a: ActionResult, b: ActionResult) -> bool {
    match a {
        ActionResult::Exec(x) => b matches ActionResult::Exec(y) && y.ok == x.ok && y.exit_code
            == x.exit_code && y.stdout@ == "[redacted]"@ && y.stdout_truncated
            == x.stdout_truncated && y.stderr@ == "[redacted]"@ && y.stderr_truncated
            == x.stderr_truncated && y.error == x.error,
        ActionResult::ReadFile(x) => b matches ActionResult::ReadFile(y) && y.ok == x.ok && (
        y.content_base64 matches Some(c) && c@ == "[redacted]"@) && y.truncated == x.truncated
            && y.error == x.error,
        _ => b == a,
    }
}

/// The redacted form of a whole response.
pub open spec fn plan_result_redacted(a: ActionPlanResult, b: ActionPlanResult) -> bool {
    &&& b.request_id == a.request_id
    &&& b.executed == a.executed
    &&& b.error == a.error
    &&& b.results@.len() == a.results@.len()
    &&& (forall|i: int|
        0 <= i < a.results@.len() ==> result_redacted(a.results@[i], #[trigger] b.results@[i]))
}

fn marker() -> (s: String)
    ensures
        s@ == "[redacted]"@,
{
    <String as vstd::string::StringExecFns>::from_str("[redacted]")
}

fn redact_env(e: Option<EnvMap>) -> (r: Option<EnvMap>)
    ensures
        env_redacted(e, r),
{
    match e {
        None => None,
        Some(m) => {
            let mut entries = m.entries;
            let mut out: Vec<EnvEntry> = Vec::new();
            let ghost orig = entries@;
            let n = entries.len();
            let mut i: usize = 0;
            while i < n
                invariant
                    n == orig.len(),
                    entries@ == orig.skip(i as int),
                    i <= n,
                    out@.len() == i,
                    forall|j: int|
                        0 <= j < i ==> (#[trigger] out@[j]).key@ == orig[j].key@
                            && out@[j].value@ == "[redacted]"@,
                decreases n - i,
            {
                let ent = entries.remove(0);
                proof {
                    assert(orig.skip(i as int)[0] == orig[i as int]);
                    assert(orig.skip(i as int).drop_first() =~= orig.skip(i + 1));
                }
                out.push(EnvEntry { key: ent.key, value: marker() });
                i += 1;
            }
            Some(EnvMap { entries: out })
        },
    }
}

fn redact_action(a: Action) -> (b: Action)
    ensures
        action_redacted(a, b),
{
    match a {
        Action::Exec(x) => {
            let ExecAction { argv, cwd, env, timeout_sec, as_root, reason, danger, recovery } = x;
            Action::Exec(
                ExecAction {
                    argv,
                    cwd,
                    env: redact_env(env),
                    timeout_sec,
                    as_root,
                    reason,
                    danger,
                    recovery,
                },
            )
        },
        Action::WriteFile(x) => {
            let WriteFileAction { path, content: _, mode, reason, danger, recovery } = x;
            Action::WriteFile(
                WriteFileAction { path, content: marker(), mode, reason, danger, recovery },
            )
        },
        other => other,
    }
}

/// Redacts a plan for the audit log; see the module description for exactly
/// which fields are replaced.
pub fn redact_plan(p: ActionPlan) -> (r: ActionPlan)
    ensures
        plan_redacted(p, r),
{
    let ActionPlan { request_id, session_id, version, mode, actions, confirmation } = p;
    let mut actions = actions;
    let mut out: Vec<Action> = Vec::new();
    let ghost orig = actions@;
    let n = actions.len();
    let mut i: usize = 0;
    while i < n
        invariant
            n == orig.len(),
            actions@ == orig.skip(i as int),
            i <= n,
            out@.len() == i,
            forall|j: int| 0 <= j < i ==> action_redacted(orig[j], #[trigger] out@[j]),
        decreases n - i,
    {
        let a = actions.remove(0);
        proof {
            assert(orig.skip(i as int)[0] == orig[i as int]);
            assert(orig.skip(i as int).drop_first() =~= orig.skip(i + 1));
        }
        out.push(redact_action(a));
        i += 1;
    }
    let confirmation = match confirmation {
        None => None,
        Some(_) => Some(Confirmation { token: marker() }),
    };
    ActionPlan { request_id, session_id, version, mode, actions: out, confirmation }
}

fn redact_result(a: ActionResult) -> (b: ActionResult)
    ensures
        result_redacted(a, b),
{
    match a {
        ActionResult::Exec(mut x) => {
            x.stdout = marker();
            x.stderr = marker();
            ActionResult::Exec(x)
        },
        ActionResult::ReadFile(mut x) => {
            x.content_base64 = Some(marker());
            ActionResult::ReadFile(x)
        },
        other => other,
    }
}

/// Redacts a response for the audit log.
pub fn redact_plan_result(r: ActionPlanResult) -> (b: ActionPlanResult)
    ensures
        plan_result_redacted(r, b),
{
    let ActionPlanResult { request_id, executed, results, error } = r;
    let mut results = results;
    let mut out: Vec<ActionResult> = Vec::new();
    let ghost orig = results@;
    let n = results.len();
    let mut i: usize = 0;
    while i < n
        invariant
            n == orig.len(),
            results@ == orig.skip(i as int),
            i <= n,
            out@.len() == i,
            forall|j: int| 0 <= j < i ==> result_redacted(orig[j], #[trigger] out@[j]),
        decreases n - i,
    {
        let a = results.remove(0);
        proof {
            assert(orig.skip(i as int)[0] == orig[i as int]);
            assert(orig.skip(i as int).drop_first() =~= orig.skip(i + 1));
        }
        out.push(redact_result(a));
        i += 1;
    }
    ActionPlanResult { request_id, executed, results: out, error }
}

/// The wire form of the peer credentials, or `null` when unavailable.
pub open spec fn jpeer(o: Option<PeerCredentials>) -> Seq<char> {
    match o {
        Some(p) => "{\"pid\":"@ + spec_dec_int(p.pid as int) + ",\"uid\":"@ + spec_dec(p.uid as nat)
            + ",\"gid\":"@ + spec_dec(p.gid as nat) + "}"@,
        None => "null"@,
    }
}

/// One audit line (without the trailing newline) for a plan and its result,
/// both already redacted by the caller.
pub open spec fn audit_line_spec(
    ts_unix_ms: u64,
    peer: Option<PeerCredentials>,
    plan: ActionPlan,
    result: ActionPlanResult,
) -> Seq<char> {
    "{\"ts_unix_ms\":"@ + spec_dec(ts_unix_ms as nat) + ",\"peer\":"@ + jpeer(peer)
        + ",\"request_id\":"@ + jstr(plan.request_id@) + ",\"session_id\":"@ + jopt_str(
        plan.session_id,
    ) + ",\"plan\":"@ + ser_plan(plan) + ",\"result\":"@ + ser_plan_result(result) + "}"@
}

fn emit_peer(out: &mut Vec<char>, peer: &Option<PeerCredentials>)
    ensures
        final(out)@ == old(out)@ + jpeer(*peer),
{
    match peer {
        Some(p) => {
            let ghost base = out@;
            emit_lit(out, "{\"pid\":");
            emit_i32(out, p.pid);
            proof {
                assert(out@ =~= base + ("{\"pid\":"@ + spec_dec_int(p.pid as int)));
            }
            emit_lit(out, ",\"uid\":");
            proof {
                assert(out@ =~= base + ("{\"pid\":"@ + spec_dec_int(p.pid as int) + ",\"uid\":"@));
            }
            emit_u64(out, p.uid as u64);
            proof {
                assert(out@ =~= base + ("{\"pid\":"@ + spec_dec_int(p.pid as int) + ",\"uid\":"@
                    + spec_dec(p.uid as nat)));
            }
            emit_lit(out, ",\"gid\":");
            proof {
                assert(out@ =~= base + ("{\"pid\":"@ + spec_dec_int(p.pid as int) + ",\"uid\":"@
                    + spec_dec(p.uid as nat) + ",\"gid\":"@));
            }
            emit_u64(out, p.gid as u64);
            proof {
                assert(out@ =~= base + ("{\"pid\":"@ + spec_dec_int(p.pid as int) + ",\"uid\":"@
                    + spec_dec(p.uid as nat) + ",\"gid\":"@ + spec_dec(p.gid as nat)));
            }
            emit_lit(out, "}");
            proof {
                assert(out@ =~= base + ("{\"pid\":"@ + spec_dec_int(p.pid as int) + ",\"uid\":"@
                    + spec_dec(p.uid as nat) + ",\"gid\":"@ + spec_dec(p.gid as nat) + "}"@));
            }
        },
        None => emit_lit(out, "null"),
    }
}

/// One audit line for an already-redacted plan and result; the caller appends
/// it (with a newline) to the log.
pub fn audit_record(
    ts_unix_ms: u64,
    peer: &Option<PeerCredentials>,
    plan: &ActionPlan,
    result: &ActionPlanResult,
) -> (r: String)
    ensures
        r@ == audit_line_spec(ts_unix_ms, *peer, *plan, *result),
{
    let mut out: Vec<char> = Vec::new();
    let ghost base = out@;
    emit_lit(&mut out, "{\"ts_unix_ms\":");
    emit_u64(&mut out, ts_unix_ms);
    proof {
        assert(out@ =~= base + ("{\"ts_unix_ms\":"@ + spec_dec(ts_unix_ms as nat)));
    }
    emit_lit(&mut out, ",\"peer\":");
    proof {
        assert(out@ =~= base + ("{\"ts_unix_ms\":"@ + spec_dec(ts_unix_ms as nat) + ",\"peer\":"@));
    }
    emit_peer(&mut out, peer);
    proof {
        assert(out@ =~= base + ("{\"ts_unix_ms\":"@ + spec_dec(ts_unix_ms as nat) + ",\"peer\":"@
            + jpeer(*peer)));
    }
    emit_lit(&mut out, ",\"request_id\":");
    proof {
        assert(out@ =~= base + ("{\"ts_unix_ms\":"@ + spec_dec(ts_unix_ms as nat) + ",\"peer\":"@
            + jpeer(*peer) + ",\"request_id\":"@));
    }
    emit_jstr(&mut out, plan.request_id.as_str());
    proof {
        assert(out@ =~= base + ("{\"ts_unix_ms\":"@ + spec_dec(ts_unix_ms as nat) + ",\"peer\":"@
            + jpeer(*peer) + ",\"request_id\":"@ + jstr(plan.request_id@)));
    }
    emit_lit(&mut out, ",\"session_id\":");
    proof {
        assert(out@ =~= base + ("{\"ts_unix_ms\":"@ + spec_dec(ts_unix_ms as nat) + ",\"peer\":"@
            + jpeer(*peer) + ",\"request_id\":"@ + jstr(plan.request_id@) + ",\"session_id\":"@));
    }
    emit_opt_str(&mut out, &plan.session_id);
    proof {
        assert(out@ =~= base + ("{\"ts_unix_ms\":"@ + spec_dec(ts_unix_ms as nat) + ",\"peer\":"@
            + jpeer(*peer) + ",\"request_id\":"@ + jstr(plan.request_id@) + ",\"session_id\":"@
            + jopt_str(plan.session_id)));
    }
    emit_lit(&mut out, ",\"plan\":");
    proof {
        assert(out@ =~= base + ("{\"ts_unix_ms\":"@ + spec_dec(ts_unix_ms as nat) + ",\"peer\":"@
            + jpeer(*peer) + ",\"request_id\":"@ + jstr(plan.request_id@) + ",\"session_id\":"@
            + jopt_str(plan.session_id) + ",\"plan\":"@));
    }
    emit_plan(&mut out, plan);
    proof {
        assert(out@ =~= base + ("{\"ts_unix_ms\":"@ + spec_dec(ts_unix_ms as nat) + ",\"peer\":"@
            + jpeer(*peer) + ",\"request_id\":"@ + jstr(plan.request_id@) + ",\"session_id\":"@
            + jopt_str(plan.session_id) + ",\"plan\":"@ + ser_plan(*plan)));
    }
    emit_lit(&mut out, ",\"result\":");
    proof {
        assert(out@ =~= base + ("{\"ts_unix_ms\":"@ + spec_dec(ts_unix_ms as nat) + ",\"peer\":"@
            + jpeer(*peer) + ",\"request_id\":"@ + jstr(plan.request_id@) + ",\"session_id\":"@
            + jopt_str(plan.session_id) + ",\"plan\":"@ + ser_plan(*plan) + ",\"result\":"@));
    }
    emit_plan_result(&mut out, result);
    proof {
        assert(out@ =~= base + ("{\"ts_unix_ms\":"@ + spec_dec(ts_unix_ms as nat) + ",\"peer\":"@
            + jpeer(*peer) + ",\"request_id\":"@ + jstr(plan.request_id@) + ",\"session_id\":"@
            + jopt_str(plan.session_id) + ",\"plan\":"@ + ser_plan(*plan) + ",\"result\":"@
            + ser_plan_result(*result)));
    }
    emit_lit(&mut out, "}");
    proof {
        assert(out@ =~= base + ("{\"ts_unix_ms\":"@ + spec_dec(ts_unix_ms as nat) + ",\"peer\":"@
            + jpeer(*peer) + ",\"request_id\":"@ + jstr(plan.request_id@) + ",\"session_id\":"@
            + jopt_str(plan.session_id) + ",\"plan\":"@ + ser_plan(*plan) + ",\"result\":"@
            + ser_plan_result(*result) + "}"@));
    }
    chars_to_string(&out)
}

} // verus!
