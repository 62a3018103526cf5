//! Structural validation of a parsed `ActionPlan`: every size bound and
//! non-blankness rule, checked in a fixed order, reporting the first failure
//! with its stable message.
//!
//! The specification mirror (`plan_err` and its helpers) states, for every
//! plan, exactly which message (if any) validation reports; the executable
//! validator is proved to return `Ok` precisely when the mirror finds no
//! fault, and otherwise the mirrored message.

use vstd::prelude::*;

verus! {

use crate::text::{blank, blen, byte_len, trim_chars, str_is_blank, str_to_chars, trim_bounds};
use crate::types::{
    Action, ActionPlan, CgroupApplyAction, EnvEntry, EnvMap, ExecAction, FirmwareOpAction,
    InstallPackagesAction, ObserveAction, ReadFileAction, RemovePackagesAction,
    ServiceControlAction, UpdateSystemAction, ValidationError, WriteFileAction,
};
use vstd::string::StringExecFns;

pub const MAX_READ_FILE_BYTES: u64 = 65536;

pub const MAX_WRITE_FILE_BYTES: usize = 65536;

pub const MAX_ACTIONS: usize = 64;

pub const MAX_EXEC_ARGC: usize = 64;

pub const MAX_EXEC_ARG_BYTES: usize = 2048;

pub const MAX_EXEC_ENV_ENTRIES: usize = 32;

pub const MAX_EXEC_ENV_KEY_BYTES: usize = 128;

pub const MAX_EXEC_ENV_VALUE_BYTES: usize = 2048;

pub const MAX_REQUEST_ID_BYTES: usize = 128;

pub const MAX_SESSION_ID_BYTES: usize = 128;

pub const MAX_CONFIRMATION_TOKEN_BYTES: usize = 1024;

pub const MAX_REASON_BYTES: usize = 2048;

pub const MAX_PATH_BYTES: usize = 4096;

pub const MAX_VERSION_BYTES: usize = 128;

pub const MAX_MODE_BYTES: usize = 128;

pub const MAX_EXEC_TIMEOUT_SEC: u64 = 60;

pub const MAX_SYSTEMD_UNIT_BYTES: usize = 256;

pub const MAX_PACKAGE_NAME_BYTES: usize = 128;

pub const MAX_PACKAGES: usize = 128;

pub const MAX_OBSERVE_ARGS: usize = 64;

pub const MAX_OBSERVE_ARG_BYTES: usize = 2048;

/// Whether the plan carries a usable confirmation: a token that is not blank.
pub open spec fn conf_ok(p: ActionPlan) -> bool {
    p.confirmation matches Some(c) && !blank(c.token@)
}

/// First fault among the plan-level fields, checked top-down.
pub open spec fn head_err(p: ActionPlan) -> Option<Seq<char>> {
    if p.actions@.len() > MAX_ACTIONS {
        Some("too many actions"@)
    } else if blank(p.request_id@) {
        Some("request_id must be non-empty"@)
    } else if blen(p.request_id@) > MAX_REQUEST_ID_BYTES {
        Some("request_id is too long"@)
    } else if p.session_id matches Some(sid) && blank(sid@) {
        Some("session_id must be non-empty when provided"@)
    } else if p.session_id matches Some(sid) && blen(sid@) > MAX_SESSION_ID_BYTES {
        Some("session_id is too long"@)
    } else if p.confirmation matches Some(c) && blank(c.token@) {
        Some("confirmation.token must be non-empty"@)
    } else if p.confirmation matches Some(c) && blen(c.token@) > MAX_CONFIRMATION_TOKEN_BYTES {
        Some("confirmation.token is too long"@)
    } else if blank(p.version@) {
        Some("version must be non-empty"@)
    } else if blen(p.version@) > MAX_VERSION_BYTES {
        Some("version is too long"@)
    } else {
        None
    }
}

/// First fault among the environment entries, in stored (key) order.
pub open spec fn env_err(es: Seq<EnvEntry>) -> Option<Seq<char>>
    decreases es.len(),
{
    if es.len() == 0 {
        None
    } else if blen(es[0].key@) > MAX_EXEC_ENV_KEY_BYTES {
        Some("exec.env key is too long"@)
    } else if blen(es[0].value@) > MAX_EXEC_ENV_VALUE_BYTES {
        Some("exec.env value is too long"@)
    } else {
        env_err(es.drop_first())
    }
}

/// First fault in a list of strings that must each be non-blank and within
/// `cap` bytes; used for package lists and observe arguments.
pub open spec fn list_err(
    ps: Seq<String>,
    cap: nat,
    blank_msg: Seq<char>,
    long_msg: Seq<char>,
) -> Option<Seq<char>>
    decreases ps.len(),
{
    if ps.len() == 0 {
        None
    } else if blank(ps[0]@) {
        Some(blank_msg)
    } else if blen(ps[0]@) > cap {
        Some(long_msg)
    } else {
        list_err(ps.drop_first(), cap, blank_msg, long_msg)
    }
}

pub open spec fn strip_octal_prefix(s: Seq<char>) -> Seq<char> {
    if s.len() >= 2 && s[0] == '0' && s[1] == 'o' {
        s.skip(2)
    } else {
        s
    }
}

pub open spec fn is_octal_digit(c: char) -> bool {
    '0' as u32 <= c as u32 <= '7' as u32
}

/// A well-formed file mode string: after trimming and dropping an optional
/// `0o` prefix, exactly three or four octal digits remain.
pub open spec fn octal_mode_ok(s: Seq<char>) -> bool {
    let t = strip_octal_prefix(trim_chars(s));
    (t.len() == 3 || t.len() == 4) && (forall|i: int|
        0 <= i < t.len() ==> is_octal_digit(#[trigger] t[i]))
}

/// First fault in one action, fields top-down; `cok` tells whether the plan
/// carries a usable confirmation for danger-marked exec/read/write actions.
pub open spec fn action_err(a: Action, cok: bool) -> Option<Seq<char>> {
    match a {
        Action::Exec(e) => {
            if e.argv@.len() == 0 {
                Some("exec.argv must be non-empty"@)
            } else if e.as_root {
                Some("exec.as_root is not supported"@)
            } else if e.argv@.len() > MAX_EXEC_ARGC {
                Some("exec.argv has too many args"@)
            } else if exists|i: int|
                0 <= i < e.argv@.len() && blen(#[trigger] e.argv@[i]@) > MAX_EXEC_ARG_BYTES {
                Some("exec.argv arg is too long"@)
            } else if e.cwd matches Some(c) && blank(c@) {
                Some("exec.cwd must be non-empty when provided"@)
            } else if e.env matches Some(m) && m.entries@.len() > MAX_EXEC_ENV_ENTRIES {
                Some("exec.env has too many entries"@)
            } else if e.env matches Some(m) && env_err(m.entries@) is Some {
                env_err(e.env->0.entries@)
            } else if e.timeout_sec == 0 {
                Some("exec.timeout_sec must be >= 1"@)
            } else if e.timeout_sec > MAX_EXEC_TIMEOUT_SEC {
                Some("exec.timeout_sec is too large"@)
            } else if blank(e.reason@) {
                Some("exec.reason must be non-empty"@)
            } else if blen(e.reason@) > MAX_REASON_BYTES {
                Some("reason is too long"@)
            } else if e.danger matches Some(d) && blen(d@) > MAX_REASON_BYTES {
                Some("danger is too long"@)
            } else if e.recovery matches Some(rc) && blen(rc@) > MAX_REASON_BYTES {
                Some("recovery is too long"@)
            } else if e.danger is Some && !cok {
                Some("exec requires confirmation when danger is set"@)
            } else {
                None
            }
        },
        Action::ReadFile(rf) => {
            if blank(rf.path@) {
                Some("read_file.path must be non-empty"@)
            } else if blen(rf.path@) > MAX_PATH_BYTES {
                Some("path is too long"@)
            } else if rf.max_bytes == 0 {
                Some("read_file.max_bytes must be >= 1"@)
            } else if rf.max_bytes > MAX_READ_FILE_BYTES {
                Some("read_file.max_bytes is too large"@)
            } else if blank(rf.reason@) {
                Some("read_file.reason must be non-empty"@)
            } else if blen(rf.reason@) > MAX_REASON_BYTES {
                Some("reason is too long"@)
            } else if rf.danger matches Some(d) && blen(d@) > MAX_REASON_BYTES {
                Some("danger is too long"@)
            } else if rf.recovery matches Some(rc) && blen(rc@) > MAX_REASON_BYTES {
                Some("recovery is too long"@)
            } else if rf.danger is Some && !cok {
                Some("read_file requires confirmation when danger is set"@)
            } else {
                None
            }
        },
        Action::WriteFile(wf) => {
            if blank(wf.path@) {
                Some("write_file.path must be non-empty"@)
            } else if blen(wf.path@) > MAX_PATH_BYTES {
                Some("path is too long"@)
            } else if blen(wf.content@) > MAX_WRITE_FILE_BYTES {
                Some("write_file.content is too large"@)
            } else if blank(wf.mode@) {
                Some("write_file.mode must be non-empty"@)
            } else if blen(wf.mode@) > MAX_MODE_BYTES {
                Some("write_file.mode is too long"@)
            } else if !octal_mode_ok(wf.mode@) {
                Some("write_file.mode is invalid"@)
            } else if blank(wf.reason@) {
                Some("write_file.reason must be non-empty"@)
            } else if blen(wf.reason@) > MAX_REASON_BYTES {
                Some("reason is too long"@)
            } else if wf.danger matches Some(d) && blen(d@) > MAX_REASON_BYTES {
                Some("danger is too long"@)
            } else if wf.recovery matches Some(rc) && blen(rc@) > MAX_REASON_BYTES {
                Some("recovery is too long"@)
            } else if wf.danger is Some && !cok {
                Some("write_file requires confirmation when danger is set"@)
            } else {
                None
            }
        },
        Action::ServiceControl(sc) => {
            if blank(sc.unit@) {
                Some("service_control.unit must be non-empty"@)
            } else if blen(sc.unit@) > MAX_SYSTEMD_UNIT_BYTES {
                Some("service_control.unit is too long"@)
            } else if blank(sc.reason@) {
                Some("service_control.reason must be non-empty"@)
            } else if blen(sc.reason@) > MAX_REASON_BYTES {
                Some("service_control.reason is too long"@)
            } else if sc.danger matches Some(d) && blen(d@) > MAX_REASON_BYTES {
                Some("danger is too long"@)
            } else if sc.recovery matches Some(rc) && blen(rc@) > MAX_REASON_BYTES {
                Some("recovery is too long"@)
            } else {
                None
            }
        },
        Action::InstallPackages(ip) => {
            if ip.packages@.len() == 0 {
                Some("install_packages.packages must be non-empty"@)
            } else if ip.packages@.len() > MAX_PACKAGES {
                Some("install_packages.packages has too many entries"@)
            } else if list_err(
                ip.packages@,
                MAX_PACKAGE_NAME_BYTES as nat,
                "install_packages.packages entries must be non-empty"@,
                "install_packages.packages entry is too long"@,
            ) is Some {
                list_err(
                    ip.packages@,
                    MAX_PACKAGE_NAME_BYTES as nat,
                    "install_packages.packages entries must be non-empty"@,
                    "install_packages.packages entry is too long"@,
                )
            } else if blank(ip.reason@) {
                Some("install_packages.reason must be non-empty"@)
            } else if blen(ip.reason@) > MAX_REASON_BYTES {
                Some("install_packages.reason is too long"@)
            } else if ip.danger matches Some(d) && blen(d@) > MAX_REASON_BYTES {
                Some("danger is too long"@)
            } else if ip.recovery matches Some(rc) && blen(rc@) > MAX_REASON_BYTES {
                Some("recovery is too long"@)
            } else {
                None
            }
        },
        Action::RemovePackages(rp) => {
            if rp.packages@.len() == 0 {
                Some("remove_packages.packages must be non-empty"@)
            } else if rp.packages@.len() > MAX_PACKAGES {
                Some("remove_packages.packages has too many entries"@)
            } else if list_err(
                rp.packages@,
                MAX_PACKAGE_NAME_BYTES as nat,
                "remove_packages.packages entries must be non-empty"@,
                "remove_packages.packages entry is too long"@,
            ) is Some {
                list_err(
                    rp.packages@,
                    MAX_PACKAGE_NAME_BYTES as nat,
                    "remove_packages.packages entries must be non-empty"@,
                    "remove_packages.packages entry is too long"@,
                )
            } else if blank(rp.reason@) {
                Some("remove_packages.reason must be non-empty"@)
            } else if blen(rp.reason@) > MAX_REASON_BYTES {
                Some("remove_packages.reason is too long"@)
            } else if rp.danger matches Some(d) && blen(d@) > MAX_REASON_BYTES {
                Some("danger is too long"@)
            } else if rp.recovery matches Some(rc) && blen(rc@) > MAX_REASON_BYTES {
                Some("recovery is too long"@)
            } else {
                None
            }
        },
        Action::UpdateSystem(us) => {
            if blank(us.reason@) {
                Some("update_system.reason must be non-empty"@)
            } else if blen(us.reason@) > MAX_REASON_BYTES {
                Some("update_system.reason is too long"@)
            } else if us.danger matches Some(d) && blen(d@) > MAX_REASON_BYTES {
                Some("danger is too long"@)
            } else if us.recovery matches Some(rc) && blen(rc@) > MAX_REASON_BYTES {
                Some("recovery is too long"@)
            } else {
                None
            }
        },
        Action::Observe(ob) => {
            if ob.args@.len() > MAX_OBSERVE_ARGS {
                Some("observe.args has too many entries"@)
            } else if list_err(
                ob.args@,
                MAX_OBSERVE_ARG_BYTES as nat,
                "observe.args entries must be non-empty"@,
                "observe.args entry is too long"@,
            ) is Some {
                list_err(
                    ob.args@,
                    MAX_OBSERVE_ARG_BYTES as nat,
                    "observe.args entries must be non-empty"@,
                    "observe.args entry is too long"@,
                )
            } else if blank(ob.reason@) {
                Some("observe.reason must be non-empty"@)
            } else if blen(ob.reason@) > MAX_REASON_BYTES {
                Some("observe.reason is too long"@)
            } else if ob.danger matches Some(d) && blen(d@) > MAX_REASON_BYTES {
                Some("danger is too long"@)
            } else if ob.recovery matches Some(rc) && blen(rc@) > MAX_REASON_BYTES {
                Some("recovery is too long"@)
            } else {
                None
            }
        },
        Action::CgroupApply(cg) => {
            if cg.pid is None && cg.unit is None {
                Some("cgroup_apply requires pid or unit"@)
            } else if cg.pid is Some && cg.unit is Some {
                Some("cgroup_apply must not set both pid and unit"@)
            } else if cg.unit matches Some(u) && blank(u@) {
                Some("cgroup_apply.unit must be non-empty when provided"@)
            } else if cg.unit matches Some(u) && blen(u@) > MAX_SYSTEMD_UNIT_BYTES {
                Some("cgroup_apply.unit is too long"@)
            } else if cg.cpu_weight is None && cg.mem_max_bytes is None {
                Some("cgroup_apply requires at least one setting"@)
            } else if blank(cg.reason@) {
                Some("cgroup_apply.reason must be non-empty"@)
            } else if blen(cg.reason@) > MAX_REASON_BYTES {
                Some("cgroup_apply.reason is too long"@)
            } else if cg.danger matches Some(d) && blen(d@) > MAX_REASON_BYTES {
                Some("danger is too long"@)
            } else if cg.recovery matches Some(rc) && blen(rc@) > MAX_REASON_BYTES {
                Some("recovery is too long"@)
            } else {
                None
            }
        },
        Action::FirmwareOp(fw) => {
            if blank(fw.reason@) {
                Some("firmware_op.reason must be non-empty"@)
            } else if blen(fw.reason@) > MAX_REASON_BYTES {
                Some("firmware_op.reason is too long"@)
            } else if fw.danger matches Some(d) && blen(d@) > MAX_REASON_BYTES {
                Some("danger is too long"@)
            } else if fw.recovery matches Some(rc) && blen(rc@) > MAX_REASON_BYTES {
                Some("recovery is too long"@)
            } else {
                None
            }
        },
        Action::Ping => None,
    }
}

/// First fault among the actions, in input order.
pub open spec fn actions_err(s: Seq<Action>, cok: bool) -> Option<Seq<char>>
    decreases s.len(),
{
    if s.len() == 0 {
        None
    } else {
        match action_err(s[0], cok) {
            Some(m) => Some(m),
            None => actions_err(s.drop_first(), cok),
        }
    }
}

/// The first fault validation reports for the whole plan, or `None` when the
/// plan is valid.
pub open spec fn plan_err(p: ActionPlan) -> Option<Seq<char>> {
    match head_err(p) {
        Some(m) => Some(m),
        None => actions_err(p.actions@, conf_ok(p)),
    }
}

/// A plan that validation accepts.
pub open spec fn plan_valid(p: ActionPlan) -> bool {
    plan_err(p) is None
}

fn verr(msg: &str) -> (e: ValidationError)
    ensures
        e.message@ == msg@,
{
    ValidationError { message: String::from_str(msg) }
}

/// Whether the mode string is three or four octal digits, with an optional
/// `0o` prefix and surrounding whitespace allowed.
pub fn is_octal_mode(mode: &str) -> (b: bool)
    ensures
        b == octal_mode_ok(mode@),
{
    let v = str_to_chars(mode);
    let (lo, hi) = trim_bounds(&v);
    let ghost t0 = trim_chars(mode@);
    let lo2: usize = if hi - lo >= 2 && v[lo] == '0' && v[lo + 1] == 'o' {
        lo + 2
    } else {
        lo
    };
    proof {
        assert(strip_octal_prefix(t0) =~= v@.subrange(lo2 as int, hi as int));
    }
    let n = hi - lo2;
    if n != 3 && n != 4 {
        return false;
    }
    let mut i: usize = lo2;
    while i < hi
        invariant
            v@ == mode@,
            lo2 <= i <= hi <= v.len(),
            strip_octal_prefix(trim_chars(mode@)) == v@.subrange(lo2 as int, hi as int),
            hi - lo2 == n,
            n == 3 || n == 4,
            forall|j: int|
                lo2 <= j < i ==> is_octal_digit(#[trigger] v@[j]),
        decreases hi - i,
    {
        let c = v[i] as u32;
        if c < 0x30 || c > 0x37 {
            proof {
                let t = strip_octal_prefix(trim_chars(mode@));
                assert(t[i - lo2] == v@[i as int]);
                assert(!is_octal_digit(t[i - lo2]));
            }
            return false;
        }
        i += 1;
    }
    proof {
        let t = strip_octal_prefix(trim_chars(mode@));
        assert(forall|j: int| 0 <= j < t.len() ==> is_octal_digit(#[trigger] t[j])) by {
            assert(forall|j: int| 0 <= j < t.len() ==> t[j] == v@[j + lo2]);
        }
    }
    true
}

fn check_env(m: &EnvMap) -> (r: Result<(), ValidationError>)
    ensures
        match r {
            Ok(()) => env_err(m.entries@) is None,
            Err(e) => env_err(m.entries@) matches Some(msg) && e.message@ == msg,
        },
{
    let n = m.entries.len();
    let mut i: usize = 0;
    proof {
        assert(m.entries@.skip(0) =~= m.entries@);
    }
    while i < n
        invariant
            n == m.entries.len(),
            i <= n,
            env_err(m.entries@) == env_err(m.entries@.skip(i as int)),
        decreases n - i,
    {
        proof {
            assert(m.entries@.skip(i as int)[0] == m.entries@[i as int]);
        }
        if byte_len(m.entries[i].key.as_str()) > MAX_EXEC_ENV_KEY_BYTES {
            return Err(verr("exec.env key is too long"));
        }
        if byte_len(m.entries[i].value.as_str()) > MAX_EXEC_ENV_VALUE_BYTES {
            return Err(verr("exec.env value is too long"));
        }
        proof {
            assert(m.entries@.skip(i as int).drop_first() =~= m.entries@.skip(i + 1));
        }
        i += 1;
    }
    proof {
        assert(m.entries@.skip(n as int).len() == 0);
    }
    Ok(())
}

fn check_list(ps: &Vec<String>, cap: usize, blank_msg: &str, long_msg: &str) -> (r: Result<
    (),
    ValidationError,
>)
    ensures
        match r {
            Ok(()) => list_err(ps@, cap as nat, blank_msg@, long_msg@) is None,
            Err(e) => list_err(ps@, cap as nat, blank_msg@, long_msg@) matches Some(msg)
                && e.message@ == msg,
        },
{
    let n = ps.len();
    let mut i: usize = 0;
    proof {
        assert(ps@.skip(0) =~= ps@);
    }
    while i < n
        invariant
            n == ps@.len(),
            i <= n,
            list_err(ps@, cap as nat, blank_msg@, long_msg@) == list_err(
                ps@.skip(i as int),
                cap as nat,
                blank_msg@,
                long_msg@,
            ),
        decreases n - i,
    {
        proof {
            assert(ps@.skip(i as int)[0] == ps@[i as int]);
        }
        if str_is_blank(ps[i].as_str()) {
            return Err(verr(blank_msg));
        }
        if byte_len(ps[i].as_str()) > cap {
            return Err(verr(long_msg));
        }
        proof {
            assert(ps@.skip(i as int).drop_first() =~= ps@.skip(i + 1));
        }
        i += 1;
    }
    proof {
        assert(ps@.skip(n as int).len() == 0);
    }
    Ok(())
}

fn check_action(a: &Action, cok: bool) -> (r: Result<(), ValidationError>)
    ensures
        match r {
            Ok(()) => action_err(*a, cok) is None,
            Err(e) => action_err(*a, cok) matches Some(msg) && e.message@ == msg,
        },
{
    match a {
        Action::Exec(e) => {
            if e.argv.len() == 0 {
                return Err(verr("exec.argv must be non-empty"));
            }
            if e.as_root {
                return Err(verr("exec.as_root is not supported"));
            }
            if e.argv.len() > MAX_EXEC_ARGC {
                return Err(verr("exec.argv has too many args"));
            }
            let n = e.argv.len();
            let mut i: usize = 0;
            #[verifier::loop_isolation(false)]
            while i < n
                invariant
                    n == e.argv@.len(),
                    i <= n,
                    forall|j: int| 0 <= j < i ==> blen(#[trigger] e.argv@[j]@) <= MAX_EXEC_ARG_BYTES,
                decreases n - i,
            {
                if byte_len(e.argv[i].as_str()) > MAX_EXEC_ARG_BYTES {
                    proof {
                        assert(blen(e.argv@[i as int]@) > MAX_EXEC_ARG_BYTES);
                    }
                    return Err(verr("exec.argv arg is too long"));
                }
                i += 1;
            }
            if let Some(c) = &e.cwd {
                if str_is_blank(c.as_str()) {
                    return Err(verr("exec.cwd must be non-empty when provided"));
                }
            }
            if let Some(m) = &e.env {
                if m.entries.len() > MAX_EXEC_ENV_ENTRIES {
                    return Err(verr("exec.env has too many entries"));
                }
                if let Err(err) = check_env(m) {
                    return Err(err);
                }
            }
            if e.timeout_sec == 0 {
                return Err(verr("exec.timeout_sec must be >= 1"));
            }
            if e.timeout_sec > MAX_EXEC_TIMEOUT_SEC {
                return Err(verr("exec.timeout_sec is too large"));
            }
            if str_is_blank(e.reason.as_str()) {
                return Err(verr("exec.reason must be non-empty"));
            }
            if byte_len(e.reason.as_str()) > MAX_REASON_BYTES {
                return Err(verr("reason is too long"));
            }
            if let Some(d) = &e.danger {
                if byte_len(d.as_str()) > MAX_REASON_BYTES {
                    return Err(verr("danger is too long"));
                }
            }
            if let Some(rc) = &e.recovery {
                if byte_len(rc.as_str()) > MAX_REASON_BYTES {
                    return Err(verr("recovery is too long"));
                }
            }
            if e.danger.is_some() && !cok {
                return Err(verr("exec requires confirmation when danger is set"));
            }
            Ok(())
        },
        Action::ReadFile(rf) => {
            if str_is_blank(rf.path.as_str()) {
                return Err(verr("read_file.path must be non-empty"));
            }
            if byte_len(rf.path.as_str()) > MAX_PATH_BYTES {
                return Err(verr("path is too long"));
            }
            if rf.max_bytes == 0 {
                return Err(verr("read_file.max_bytes must be >= 1"));
            }
            if rf.max_bytes > MAX_READ_FILE_BYTES {
                return Err(verr("read_file.max_bytes is too large"));
            }
            if str_is_blank(rf.reason.as_str()) {
                return Err(verr("read_file.reason must be non-empty"));
            }
            if byte_len(rf.reason.as_str()) > MAX_REASON_BYTES {
                return Err(verr("reason is too long"));
            }
            if let Some(d) = &rf.danger {
                if byte_len(d.as_str()) > MAX_REASON_BYTES {
                    return Err(verr("danger is too long"));
                }
            }
            if let Some(rc) = &rf.recovery {
                if byte_len(rc.as_str()) > MAX_REASON_BYTES {
                    return Err(verr("recovery is too long"));
                }
            }
            if rf.danger.is_some() && !cok {
                return Err(verr("read_file requires confirmation when danger is set"));
            }
            Ok(())
        },
        Action::WriteFile(wf) => {
            if str_is_blank(wf.path.as_str()) {
                return Err(verr("write_file.path must be non-empty"));
            }
            if byte_len(wf.path.as_str()) > MAX_PATH_BYTES {
                return Err(verr("path is too long"));
            }
            if byte_len(wf.content.as_str()) > MAX_WRITE_FILE_BYTES {
                return Err(verr("write_file.content is too large"));
            }
            if str_is_blank(wf.mode.as_str()) {
                return Err(verr("write_file.mode must be non-empty"));
            }
            if byte_len(wf.mode.as_str()) > MAX_MODE_BYTES {
                return Err(verr("write_file.mode is too long"));
            }
            if !is_octal_mode(wf.mode.as_str()) {
                return Err(verr("write_file.mode is invalid"));
            }
            if str_is_blank(wf.reason.as_str()) {
                return Err(verr("write_file.reason must be non-empty"));
            }
            if byte_len(wf.reason.as_str()) > MAX_REASON_BYTES {
                return Err(verr("reason is too long"));
            }
            if let Some(d) = &wf.danger {
                if byte_len(d.as_str()) > MAX_REASON_BYTES {
                    return Err(verr("danger is too long"));
                }
            }
            if let Some(rc) = &wf.recovery {
                if byte_len(rc.as_str()) > MAX_REASON_BYTES {
                    return Err(verr("recovery is too long"));
                }
            }
            if wf.danger.is_some() && !cok {
                return Err(verr("write_file requires confirmation when danger is set"));
            }
            Ok(())
        },
        Action::ServiceControl(sc) => {
            if str_is_blank(sc.unit.as_str()) {
                return Err(verr("service_control.unit must be non-empty"));
            }
            if byte_len(sc.unit.as_str()) > MAX_SYSTEMD_UNIT_BYTES {
                return Err(verr("service_control.unit is too long"));
            }
            if str_is_blank(sc.reason.as_str()) {
                return Err(verr("service_control.reason must be non-empty"));
            }
            if byte_len(sc.reason.as_str()) > MAX_REASON_BYTES {
                return Err(verr("service_control.reason is too long"));
            }
            if let Some(d) = &sc.danger {
                if byte_len(d.as_str()) > MAX_REASON_BYTES {
                    return Err(verr("danger is too long"));
                }
            }
            if let Some(rc) = &sc.recovery {
                if byte_len(rc.as_str()) > MAX_REASON_BYTES {
                    return Err(verr("recovery is too long"));
                }
            }
            Ok(())
        },
        Action::InstallPackages(ip) => {
            if ip.packages.len() == 0 {
                return Err(verr("install_packages.packages must be non-empty"));
            }
            if ip.packages.len() > MAX_PACKAGES {
                return Err(verr("install_packages.packages has too many entries"));
            }
            if let Err(err) = check_list(
                &ip.packages,
                MAX_PACKAGE_NAME_BYTES,
                "install_packages.packages entries must be non-empty",
                "install_packages.packages entry is too long",
            ) {
                return Err(err);
            }
            if str_is_blank(ip.reason.as_str()) {
                return Err(verr("install_packages.reason must be non-empty"));
            }
            if byte_len(ip.reason.as_str()) > MAX_REASON_BYTES {
                return Err(verr("install_packages.reason is too long"));
            }
            if let Some(d) = &ip.danger {
                if byte_len(d.as_str()) > MAX_REASON_BYTES {
                    return Err(verr("danger is too long"));
                }
            }
            if let Some(rc) = &ip.recovery {
                if byte_len(rc.as_str()) > MAX_REASON_BYTES {
                    return Err(verr("recovery is too long"));
                }
            }
            Ok(())
        },
        Action::RemovePackages(rp) => {
            if rp.packages.len() == 0 {
                return Err(verr("remove_packages.packages must be non-empty"));
            }
            if rp.packages.len() > MAX_PACKAGES {
                return Err(verr("remove_packages.packages has too many entries"));
            }
            if let Err(err) = check_list(
                &rp.packages,
                MAX_PACKAGE_NAME_BYTES,
                "remove_packages.packages entries must be non-empty",
                "remove_packages.packages entry is too long",
            ) {
                return Err(err);
            }
            if str_is_blank(rp.reason.as_str()) {
                return Err(verr("remove_packages.reason must be non-empty"));
            }
            if byte_len(rp.reason.as_str()) > MAX_REASON_BYTES {
                return Err(verr("remove_packages.reason is too long"));
            }
            if let Some(d) = &rp.danger {
                if byte_len(d.as_str()) > MAX_REASON_BYTES {
                    return Err(verr("danger is too long"));
                }
            }
            if let Some(rc) = &rp.recovery {
                if byte_len(rc.as_str()) > MAX_REASON_BYTES {
                    return Err(verr("recovery is too long"));
                }
            }
            Ok(())
        },
        Action::UpdateSystem(us) => {
            if str_is_blank(us.reason.as_str()) {
                return Err(verr("update_system.reason must be non-empty"));
            }
            if byte_len(us.reason.as_str()) > MAX_REASON_BYTES {
                return Err(verr("update_system.reason is too long"));
            }
            if let Some(d) = &us.danger {
                if byte_len(d.as_str()) > MAX_REASON_BYTES {
                    return Err(verr("danger is too long"));
                }
            }
            if let Some(rc) = &us.recovery {
                if byte_len(rc.as_str()) > MAX_REASON_BYTES {
                    return Err(verr("recovery is too long"));
                }
            }
            Ok(())
        },
        Action::Observe(ob) => {
            if ob.args.len() > MAX_OBSERVE_ARGS {
                return Err(verr("observe.args has too many entries"));
            }
            if let Err(err) = check_list(
                &ob.args,
                MAX_OBSERVE_ARG_BYTES,
                "observe.args entries must be non-empty",
                "observe.args entry is too long",
            ) {
                return Err(err);
            }
            if str_is_blank(ob.reason.as_str()) {
                return Err(verr("observe.reason must be non-empty"));
            }
            if byte_len(ob.reason.as_str()) > MAX_REASON_BYTES {
                return Err(verr("observe.reason is too long"));
            }
            if let Some(d) = &ob.danger {
                if byte_len(d.as_str()) > MAX_REASON_BYTES {
                    return Err(verr("danger is too long"));
                }
            }
            if let Some(rc) = &ob.recovery {
                if byte_len(rc.as_str()) > MAX_REASON_BYTES {
                    return Err(verr("recovery is too long"));
                }
            }
            Ok(())
        },
        Action::CgroupApply(cg) => {
            if cg.pid.is_none() && cg.unit.is_none() {
                return Err(verr("cgroup_apply requires pid or unit"));
            }
            if cg.pid.is_some() && cg.unit.is_some() {
                return Err(verr("cgroup_apply must not set both pid and unit"));
            }
            if let Some(u) = &cg.unit {
                if str_is_blank(u.as_str()) {
                    return Err(verr("cgroup_apply.unit must be non-empty when provided"));
                }
                if byte_len(u.as_str()) > MAX_SYSTEMD_UNIT_BYTES {
                    return Err(verr("cgroup_apply.unit is too long"));
                }
            }
            if cg.cpu_weight.is_none() && cg.mem_max_bytes.is_none() {
                return Err(verr("cgroup_apply requires at least one setting"));
            }
            if str_is_blank(cg.reason.as_str()) {
                return Err(verr("cgroup_apply.reason must be non-empty"));
            }
            if byte_len(cg.reason.as_str()) > MAX_REASON_BYTES {
                return Err(verr("cgroup_apply.reason is too long"));
            }
            if let Some(d) = &cg.danger {
                if byte_len(d.as_str()) > MAX_REASON_BYTES {
                    return Err(verr("danger is too long"));
                }
            }
            if let Some(rc) = &cg.recovery {
                if byte_len(rc.as_str()) > MAX_REASON_BYTES {
                    return Err(verr("recovery is too long"));
                }
            }
            Ok(())
        },
        Action::FirmwareOp(fw) => {
            if str_is_blank(fw.reason.as_str()) {
                return Err(verr("firmware_op.reason must be non-empty"));
            }
            if byte_len(fw.reason.as_str()) > MAX_REASON_BYTES {
                return Err(verr("firmware_op.reason is too long"));
            }
            if let Some(d) = &fw.danger {
                if byte_len(d.as_str()) > MAX_REASON_BYTES {
                    return Err(verr("danger is too long"));
                }
            }
            if let Some(rc) = &fw.recovery {
                if byte_len(rc.as_str()) > MAX_REASON_BYTES {
                    return Err(verr("recovery is too long"));
                }
            }
            Ok(())
        },
        Action::Ping => Ok(()),
    }
}

/// Validates a plan against every structural rule, reporting the first
/// failure in field order; accepts exactly the plans the mirror accepts.
pub fn validate_action_plan(plan: &ActionPlan) -> (r: Result<(), ValidationError>)
    ensures
        match r {
            Ok(()) => plan_err(*plan) is None,
            Err(e) => plan_err(*plan) matches Some(msg) && e.message@ == msg,
        },
{
    if plan.actions.len() > MAX_ACTIONS {
        return Err(verr("too many actions"));
    }
    if str_is_blank(plan.request_id.as_str()) {
        return Err(verr("request_id must be non-empty"));
    }
    if byte_len(plan.request_id.as_str()) > MAX_REQUEST_ID_BYTES {
        return Err(verr("request_id is too long"));
    }
    if let Some(sid) = &plan.session_id {
        if str_is_blank(sid.as_str()) {
            return Err(verr("session_id must be non-empty when provided"));
        }
        if byte_len(sid.as_str()) > MAX_SESSION_ID_BYTES {
            return Err(verr("session_id is too long"));
        }
    }
    if let Some(c) = &plan.confirmation {
        if str_is_blank(c.token.as_str()) {
            return Err(verr("confirmation.token must be non-empty"));
        }
        if byte_len(c.token.as_str()) > MAX_CONFIRMATION_TOKEN_BYTES {
            return Err(verr("confirmation.token is too long"));
        }
    }
    if str_is_blank(plan.version.as_str()) {
        return Err(verr("version must be non-empty"));
    }
    if byte_len(plan.version.as_str()) > MAX_VERSION_BYTES {
        return Err(verr("version is too long"));
    }
    let cok = match &plan.confirmation {
        Some(c) => !str_is_blank(c.token.as_str()),
        None => false,
    };
    let n = plan.actions.len();
    let mut i: usize = 0;
    proof {
        assert(plan.actions@.skip(0) =~= plan.actions@);
    }
    while i < n
        invariant
            n == plan.actions@.len(),
            i <= n,
            cok == conf_ok(*plan),
            head_err(*plan) is None,
            actions_err(plan.actions@, conf_ok(*plan)) == actions_err(
                plan.actions@.skip(i as int),
                conf_ok(*plan),
            ),
        decreases n - i,
    {
        proof {
            assert(plan.actions@.skip(i as int)[0] == plan.actions@[i as int]);
        }
        if let Err(e) = check_action(&plan.actions[i], cok) {
            return Err(e);
        }
        proof {
            assert(plan.actions@.skip(i as int).drop_first() =~= plan.actions@.skip(i + 1));
        }
        i += 1;
    }
    proof {
        assert(plan.actions@.skip(n as int).len() == 0);
    }
    Ok(())
}

} // verus!
