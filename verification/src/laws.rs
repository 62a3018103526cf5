//! Global guarantees of the validator, stated and proved once: every size
//! bound holds in a validated plan, and a danger-marked exec, read or write
//! action never passes validation without a usable confirmation token.

use vstd::prelude::*;

verus! {

use crate::text::{blank, blen};
use crate::types::{Action, ActionPlan, EnvEntry};
use crate::validate::{
    action_err, actions_err, conf_ok, env_err, head_err, list_err, octal_mode_ok, plan_err,
    MAX_ACTIONS, MAX_CONFIRMATION_TOKEN_BYTES, MAX_EXEC_ARGC, MAX_EXEC_ARG_BYTES,
    MAX_EXEC_ENV_ENTRIES, MAX_EXEC_ENV_KEY_BYTES, MAX_EXEC_ENV_VALUE_BYTES, MAX_EXEC_TIMEOUT_SEC,
    MAX_MODE_BYTES, MAX_OBSERVE_ARGS, MAX_OBSERVE_ARG_BYTES, MAX_PACKAGES,
    MAX_PACKAGE_NAME_BYTES, MAX_PATH_BYTES, MAX_READ_FILE_BYTES, MAX_REASON_BYTES,
    MAX_REQUEST_ID_BYTES, MAX_SESSION_ID_BYTES, MAX_SYSTEMD_UNIT_BYTES, MAX_VERSION_BYTES,
    MAX_WRITE_FILE_BYTES,
};

pub open spec fn opt_len_ok(o: Option<String>, cap: nat) -> bool {
    o matches Some(s) ==> blen(s@) <= cap
}

pub open spec fn list_ok(ps: Seq<String>, cap: nat) -> bool {
    forall|i: int| 0 <= i < ps.len() ==> !blank(#[trigger] ps[i]@) && blen(ps[i]@) <= cap
}

pub open spec fn env_ok(es: Seq<EnvEntry>) -> bool {
    forall|i: int|
        0 <= i < es.len() ==> blen((#[trigger] es[i]).key@) <= MAX_EXEC_ENV_KEY_BYTES && blen(
            es[i].value@,
        ) <= MAX_EXEC_ENV_VALUE_BYTES
}

/// Every bound one action must satisfy after validation.
pub open spec fn action_size_ok(a: Action) -> bool {
    match a {
        Action::Exec(e) => {
            &&& 1 <= e.argv@.len() <= MAX_EXEC_ARGC
            &&& forall|i: int|
                0 <= i < e.argv@.len() ==> blen(#[trigger] e.argv@[i]@) <= MAX_EXEC_ARG_BYTES
            &&& (e.cwd matches Some(c) ==> !blank(c@))
            &&& (e.env matches Some(m) ==> m.entries@.len() <= MAX_EXEC_ENV_ENTRIES && env_ok(
                m.entries@,
            ))
            &&& 1 <= e.timeout_sec <= MAX_EXEC_TIMEOUT_SEC
            &&& !e.as_root
            &&& !blank(e.reason@) && blen(e.reason@) <= MAX_REASON_BYTES
            &&& opt_len_ok(e.danger, MAX_REASON_BYTES as nat)
            &&& opt_len_ok(e.recovery, MAX_REASON_BYTES as nat)
        },
        Action::ReadFile(rf) => {
            &&& !blank(rf.path@) && blen(rf.path@) <= MAX_PATH_BYTES
            &&& 1 <= rf.max_bytes <= MAX_READ_FILE_BYTES
            &&& !blank(rf.reason@) && blen(rf.reason@) <= MAX_REASON_BYTES
            &&& opt_len_ok(rf.danger, MAX_REASON_BYTES as nat)
            &&& opt_len_ok(rf.recovery, MAX_REASON_BYTES as nat)
        },
        Action::WriteFile(wf) => {
            &&& !blank(wf.path@) && blen(wf.path@) <= MAX_PATH_BYTES
            &&& blen(wf.content@) <= MAX_WRITE_FILE_BYTES
            &&& !blank(wf.mode@) && blen(wf.mode@) <= MAX_MODE_BYTES && octal_mode_ok(wf.mode@)
            &&& !blank(wf.reason@) && blen(wf.reason@) <= MAX_REASON_BYTES
            &&& opt_len_ok(wf.danger, MAX_REASON_BYTES as nat)
            &&& opt_len_ok(wf.recovery, MAX_REASON_BYTES as nat)
        },
        Action::ServiceControl(sc) => {
            &&& !blank(sc.unit@) && blen(sc.unit@) <= MAX_SYSTEMD_UNIT_BYTES
            &&& !blank(sc.reason@) && blen(sc.reason@) <= MAX_REASON_BYTES
            &&& opt_len_ok(sc.danger, MAX_REASON_BYTES as nat)
            &&& opt_len_ok(sc.recovery, MAX_REASON_BYTES as nat)
        },
        Action::InstallPackages(ip) => {
            &&& 1 <= ip.packages@.len() <= MAX_PACKAGES
            &&& list_ok(ip.packages@, MAX_PACKAGE_NAME_BYTES as nat)
            &&& !blank(ip.reason@) && blen(ip.reason@) <= MAX_REASON_BYTES
            &&& opt_len_ok(ip.danger, MAX_REASON_BYTES as nat)
            &&& opt_len_ok(ip.recovery, MAX_REASON_BYTES as nat)
        },
        Action::RemovePackages(rp) => {
            &&& 1 <= rp.packages@.len() <= MAX_PACKAGES
            &&& list_ok(rp.packages@, MAX_PACKAGE_NAME_BYTES as nat)
            &&& !blank(rp.reason@) && blen(rp.reason@) <= MAX_REASON_BYTES
            &&& opt_len_ok(rp.danger, MAX_REASON_BYTES as nat)
            &&& opt_len_ok(rp.recovery, MAX_REASON_BYTES as nat)
        },
        Action::UpdateSystem(us) => {
            &&& !blank(us.reason@) && blen(us.reason@) <= MAX_REASON_BYTES
            &&& opt_len_ok(us.danger, MAX_REASON_BYTES as nat)
            &&& opt_len_ok(us.recovery, MAX_REASON_BYTES as nat)
        },
        Action::Observe(ob) => {
            &&& ob.args@.len() <= MAX_OBSERVE_ARGS
            &&& list_ok(ob.args@, MAX_OBSERVE_ARG_BYTES as nat)
            &&& !blank(ob.reason@) && blen(ob.reason@) <= MAX_REASON_BYTES
            &&& opt_len_ok(ob.danger, MAX_REASON_BYTES as nat)
            &&& opt_len_ok(ob.recovery, MAX_REASON_BYTES as nat)
        },
        Action::CgroupApply(cg) => {
            &&& (cg.pid is Some || cg.unit is Some)
            &&& !(cg.pid is Some && cg.unit is Some)
            &&& (cg.unit matches Some(u) ==> !blank(u@) && blen(u@) <= MAX_SYSTEMD_UNIT_BYTES)
            &&& (cg.cpu_weight is Some || cg.mem_max_bytes is Some)
            &&& !blank(cg.reason@) && blen(cg.reason@) <= MAX_REASON_BYTES
            &&& opt_len_ok(cg.danger, MAX_REASON_BYTES as nat)
            &&& opt_len_ok(cg.recovery, MAX_REASON_BYTES as nat)
        },
        Action::FirmwareOp(fw) => {
            &&& !blank(fw.reason@) && blen(fw.reason@) <= MAX_REASON_BYTES
            &&& opt_len_ok(fw.danger, MAX_REASON_BYTES as nat)
            &&& opt_len_ok(fw.recovery, MAX_REASON_BYTES as nat)
        },
        Action::Ping => true,
    }
}

/// Every bound a whole plan must satisfy after validation.
pub open spec fn plan_size_ok(p: ActionPlan) -> bool {
    &&& p.actions@.len() <= MAX_ACTIONS
    &&& !blank(p.request_id@) && blen(p.request_id@) <= MAX_REQUEST_ID_BYTES
    &&& (p.session_id matches Some(s) ==> !blank(s@) && blen(s@) <= MAX_SESSION_ID_BYTES)
    &&& (p.confirmation matches Some(c) ==> !blank(c.token@) && blen(c.token@)
        <= MAX_CONFIRMATION_TOKEN_BYTES)
    &&& !blank(p.version@) && blen(p.version@) <= MAX_VERSION_BYTES
    &&& forall|i: int| 0 <= i < p.actions@.len() ==> action_size_ok(#[trigger] p.actions@[i])
}

proof fn lemma_env_err_none(es: Seq<EnvEntry>)
    requires
        env_err(es) is None,
    ensures
        env_ok(es),
    decreases es.len(),
{
    if es.len() > 0 {
        lemma_env_err_none(es.drop_first());
        assert(forall|i: int| 1 <= i < es.len() ==> es[i] == es.drop_first()[i - 1]);
    }
}

proof fn lemma_list_err_none(ps: Seq<String>, cap: nat, m1: Seq<char>, m2: Seq<char>)
    requires
        list_err(ps, cap, m1, m2) is None,
    ensures
        list_ok(ps, cap),
    decreases ps.len(),
{
    if ps.len() > 0 {
        lemma_list_err_none(ps.drop_first(), cap, m1, m2);
        assert(forall|i: int| 1 <= i < ps.len() ==> ps[i] == ps.drop_first()[i - 1]);
    }
}

proof fn lemma_action_err_none(a: Action, cok: bool)
    requires
        action_err(a, cok) is None,
    ensures
        action_size_ok(a),
{
    match a {
        Action::Exec(e) => {
            if e.env is Some {
                lemma_env_err_none(e.env->0.entries@);
            }
        },
        Action::InstallPackages(ip) => {
            lemma_list_err_none(
                ip.packages@,
                MAX_PACKAGE_NAME_BYTES as nat,
                "install_packages.packages entries must be non-empty"@,
                "install_packages.packages entry is too long"@,
            );
        },
        Action::RemovePackages(rp) => {
            lemma_list_err_none(
                rp.packages@,
                MAX_PACKAGE_NAME_BYTES as nat,
                "remove_packages.packages entries must be non-empty"@,
                "remove_packages.packages entry is too long"@,
            );
        },
        Action::Observe(ob) => {
            lemma_list_err_none(
                ob.args@,
                MAX_OBSERVE_ARG_BYTES as nat,
                "observe.args entries must be non-empty"@,
                "observe.args entry is too long"@,
            );
        },
        _ => {},
    }
}

proof fn lemma_actions_err_none(s: Seq<Action>, cok: bool)
    requires
        actions_err(s, cok) is None,
    ensures
        forall|i: int| 0 <= i < s.len() ==> action_err(#[trigger] s[i], cok) is None,
    decreases s.len(),
{
    if s.len() > 0 {
        lemma_actions_err_none(s.drop_first(), cok);
        assert(forall|i: int| 1 <= i < s.len() ==> s[i] == s.drop_first()[i - 1]);
    }
}

/// Every size constraint of the data model holds in a plan that passed
/// validation.
pub proof fn lemma_validated_plan_sizes(p: ActionPlan)
    requires
        plan_err(p) is None,
    ensures
        plan_size_ok(p),
{
    assert(head_err(p) is None);
    lemma_actions_err_none(p.actions@, conf_ok(p));
    assert forall|i: int| 0 <= i < p.actions@.len() implies action_size_ok(
        #[trigger] p.actions@[i],
    ) by {
        lemma_action_err_none(p.actions@[i], conf_ok(p));
    }
}

/// Whether some exec, read_file or write_file action in the plan declares
/// `danger`.
pub open spec fn has_gated_danger(p: ActionPlan) -> bool {
    exists|i: int|
        0 <= i < p.actions@.len() && match #[trigger] p.actions@[i] {
            Action::Exec(e) => e.danger is Some,
            Action::ReadFile(rf) => rf.danger is Some,
            Action::WriteFile(wf) => wf.danger is Some,
            _ => false,
        }
}

/// A plan that declares `danger` on an exec, read_file or write_file action
/// passes validation only with a confirmation token that is present and not
/// blank.
pub proof fn lemma_danger_requires_confirmation(p: ActionPlan)
    requires
        plan_err(p) is None,
        has_gated_danger(p),
    ensures
        p.confirmation matches Some(c) && !blank(c.token@),
{
    lemma_actions_err_none(p.actions@, conf_ok(p));
    let i = choose|i: int|
        0 <= i < p.actions@.len() && match #[trigger] p.actions@[i] {
            Action::Exec(e) => e.danger is Some,
            Action::ReadFile(rf) => rf.danger is Some,
            Action::WriteFile(wf) => wf.danger is Some,
            _ => false,
        };
    assert(action_err(p.actions@[i], conf_ok(p)) is None);
    assert(conf_ok(p));
}

} // verus!
