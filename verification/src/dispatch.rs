//! Mode-dispatched action handling: the preview (`plan_only`) handler for
//! every action kind, the policy gate for `execute` mode, and the result
//! builders that turn subprocess and file outcomes into action results.
//!
//! Everything here is pure; the spawning of subprocesses and the file I/O
//! themselves happen outside the library, which then hands the plain outcome
//! values back to the builders below.

use vstd::prelude::*;

verus! {

use crate::numbers::{spec_dec, u64_dec_chars};
use crate::policy::{
    exec_denied, exec_needs_confirmation, is_exec_denied, exec_requires_confirmation,
    path_requires_confirmation, path_sensitive, confirmation_is_valid,
};
use crate::text::{blank, chars_to_string, str_is_blank, trim_chars};
use crate::types::{
    Action, ActionError, ActionErrorCode, ActionPlan, ActionResult, CgroupApplyResult, ExecResult,
    FirmwareOp, FirmwareOpResult, InstallPackagesResult, ObserveResult, ObserveTool,
    PackageManager, PongResult, ReadFileResult, RemovePackagesResult, ServiceControlResult,
    ServiceControlVerb, UpdateSystemResult, WriteFileResult,
};
use vstd::string::StringExecFns;

/// Stdout/stderr capture cap for one stream, in bytes.
pub const MAX_STDIO_BYTES: usize = 8192;

/// The views of a string vector, element for element.
pub open spec fn views_of(v: Seq<String>) -> Seq<Seq<char>> {
    v.map_values(|s: String| s@)
}

/// What `String::from_utf8_lossy` decodes from the given bytes; it depends on
/// the bytes alone.
pub uninterp spec fn lossy_utf8(b: Seq<u8>) -> Seq<char>;

/// Relies on std's `String::from_utf8_lossy`: the decoding is a function of
/// the bytes alone (invalid sequences become replacement characters).
#[verifier::external_body]
pub fn utf8_lossy(b: &[u8]) -> (r: String)
    ensures
        r@ == lossy_utf8(b@),
{
    String::from_utf8_lossy(b).to_string()
}

/// What base64's standard engine produces for the given bytes; it depends on
/// the bytes alone.
pub uninterp spec fn base64_of(b: Seq<u8>) -> Seq<char>;

/// Relies on base64's `STANDARD` engine `encode`: the standard alphabet with
/// padding, emitting four characters for every started group of three bytes.
#[verifier::external_body]
pub fn base64_encode(b: &[u8]) -> (r: String)
    requires
        b@.len() <= 0x1000000,
    ensures
        r@ == base64_of(b@),
        r@.len() == 4 * ((b@.len() + 2) / 3),
{
    <base64::engine::GeneralPurpose as base64::Engine>::encode(
        &base64::engine::general_purpose::STANDARD,
        b,
    )
}

/// Whether the supplied token (if any) matches the configured one after
/// trimming.
pub open spec fn conf_valid(t: Option<&str>, expected: Seq<char>) -> bool {
    t matches Some(s) && trim_chars(s@) == expected
}

pub open spec fn verb_chars(v: ServiceControlVerb) -> Seq<char> {
    match v {
        ServiceControlVerb::Start => "start"@,
        ServiceControlVerb::Stop => "stop"@,
        ServiceControlVerb::Restart => "restart"@,
        ServiceControlVerb::Enable => "enable"@,
        ServiceControlVerb::Disable => "disable"@,
        ServiceControlVerb::Status => "status"@,
    }
}

pub open spec fn tool_chars(t: ObserveTool) -> Seq<char> {
    match t {
        ObserveTool::Ps => "ps"@,
        ObserveTool::Top => "top"@,
        ObserveTool::Journalctl => "journalctl"@,
        ObserveTool::Perf => "perf"@,
        ObserveTool::Bpftrace => "bpftrace"@,
        ObserveTool::Other => ""@,
    }
}

/// The fixed argv prefix that installs packages under each manager.
pub open spec fn install_prefix(m: PackageManager) -> Seq<Seq<char>> {
    match m {
        PackageManager::Apt => seq!["apt-get"@, "install"@, "-y"@],
        PackageManager::Dnf => seq!["dnf"@, "install"@, "-y"@],
        PackageManager::Pacman => seq!["pacman"@, "-S"@, "--noconfirm"@],
        PackageManager::Zypper => seq!["zypper"@, "install"@, "-y"@],
        PackageManager::Brew => seq!["brew"@, "install"@],
        PackageManager::Other => seq![],
    }
}

/// The fixed argv prefix that removes packages under each manager.
pub open spec fn remove_prefix(m: PackageManager) -> Seq<Seq<char>> {
    match m {
        PackageManager::Apt => seq!["apt-get"@, "remove"@, "-y"@],
        PackageManager::Dnf => seq!["dnf"@, "remove"@, "-y"@],
        PackageManager::Pacman => seq!["pacman"@, "-R"@, "--noconfirm"@],
        PackageManager::Zypper => seq!["zypper"@, "remove"@, "-y"@],
        PackageManager::Brew => seq!["brew"@, "uninstall"@],
        PackageManager::Other => seq![],
    }
}

/// An action result that reports a denial or refusal with no argv.
pub open spec fn denied_argv_result(ok: bool, argv: Seq<Seq<char>>, err: Option<ActionError>, code: ActionErrorCode, msg: Seq<char>) -> bool {
    !ok && argv.len() == 0 && (err matches Some(e) && e.code == code && e.message@ == msg)
}

/// The preview result the plan-only handler owes for each action, pinned
/// field by field; `cvalid` says whether the plan's confirmation matches the
/// configured token.
pub open spec fn plan_action_spec(a: Action, cvalid: bool, r: ActionResult) -> bool {
    match a {
        Action::Exec(e) => r matches ActionResult::Exec(x) && {
            if exec_denied(e) {
                &&& !x.ok
                &&& x.exit_code is None
                &&& x.stdout@ == Seq::<char>::empty()
                &&& !x.stdout_truncated
                &&& x.stderr@ == Seq::<char>::empty()
                &&& !x.stderr_truncated
                &&& x.error matches Some(er) && er.code == ActionErrorCode::PolicyDenied
                    && er.message@ == "exec denied by policy"@
            } else if exec_needs_confirmation(e) && !cvalid {
                &&& !x.ok
                &&& x.exit_code is None
                &&& x.stdout@ == Seq::<char>::empty()
                &&& !x.stdout_truncated
                &&& x.stderr@ == Seq::<char>::empty()
                &&& !x.stderr_truncated
                &&& x.error matches Some(er) && er.code == ActionErrorCode::ConfirmationRequired
                    && er.message@ == "confirmation required"@
            } else {
                &&& x.ok
                &&& x.exit_code is None
                &&& x.stdout@ == Seq::<char>::empty()
                &&& !x.stdout_truncated
                &&& x.stderr@ == Seq::<char>::empty()
                &&& !x.stderr_truncated
                &&& x.error is None
            }
        },
        Action::ReadFile(rf) => r matches ActionResult::ReadFile(x) && {
            if path_sensitive(rf.path@) && !cvalid {
                &&& !x.ok
                &&& x.content_base64 is None
                &&& !x.truncated
                &&& x.error matches Some(er) && er.code == ActionErrorCode::ConfirmationRequired
                    && er.message@ == "confirmation required"@
            } else {
                &&& x.ok
                &&& x.content_base64 is None
                &&& !x.truncated
                &&& x.error is None
            }
        },
        Action::WriteFile(wf) => r matches ActionResult::WriteFile(x) && {
            if path_sensitive(wf.path@) && !cvalid {
                &&& !x.ok
                &&& x.artifacts@.len() == 0
                &&& x.error matches Some(er) && er.code == ActionErrorCode::ConfirmationRequired
                    && er.message@ == "confirmation required"@
            } else {
                &&& x.ok
                &&& x.artifacts@.len() == 0
                &&& x.error is None
            }
        },
        Action::ServiceControl(sc) => r matches ActionResult::ServiceControl(x) && {
            &&& x.ok
            &&& x.error is None
            &&& views_of(x.argv@) == seq!["systemctl"@, verb_chars(sc.action), sc.unit@]
        },
        Action::InstallPackages(ip) => r matches ActionResult::InstallPackages(x) && {
            if ip.manager is Other {
                denied_argv_result(
                    x.ok,
                    views_of(x.argv@),
                    x.error,
                    ActionErrorCode::PolicyDenied,
                    "install_packages manager not supported"@,
                )
            } else {
                &&& x.ok
                &&& x.error is None
                &&& views_of(x.argv@) == install_prefix(ip.manager) + views_of(ip.packages@)
            }
        },
        Action::RemovePackages(rp) => r matches ActionResult::RemovePackages(x) && {
            if rp.manager is Other {
                denied_argv_result(
                    x.ok,
                    views_of(x.argv@),
                    x.error,
                    ActionErrorCode::PolicyDenied,
                    "remove_packages manager not supported"@,
                )
            } else {
                &&& x.ok
                &&& x.error is None
                &&& views_of(x.argv@) == remove_prefix(rp.manager) + views_of(rp.packages@)
            }
        },
        Action::UpdateSystem(us) => r matches ActionResult::UpdateSystem(x) && {
            if us.manager is Apt {
                &&& x.ok
                &&& x.error is None
                &&& views_of(x.argv@) == seq![
                    "apt-get"@,
                    "update"@,
                    "&&"@,
                    "apt-get"@,
                    "upgrade"@,
                    "-y"@,
                ]
            } else {
                denied_argv_result(
                    x.ok,
                    views_of(x.argv@),
                    x.error,
                    ActionErrorCode::PolicyDenied,
                    "update_system manager not supported"@,
                )
            }
        },
        Action::Observe(ob) => r matches ActionResult::Observe(x) && {
            if ob.tool is Other {
                denied_argv_result(
                    x.ok,
                    views_of(x.argv@),
                    x.error,
                    ActionErrorCode::PolicyDenied,
                    "observe tool not supported"@,
                )
            } else {
                &&& x.ok
                &&& x.error is None
                &&& views_of(x.argv@) == seq![tool_chars(ob.tool)] + views_of(ob.args@)
            }
        },
        Action::CgroupApply(cg) => r matches ActionResult::CgroupApply(x) && {
            let weights = (if cg.cpu_weight is Some {
                seq!["-p"@, "CPUWeight="@ + spec_dec(cg.cpu_weight->0 as nat)]
            } else {
                seq![]
            }) + (if cg.mem_max_bytes is Some {
                seq!["-p"@, "MemoryMax="@ + spec_dec(cg.mem_max_bytes->0 as nat)]
            } else {
                seq![]
            });
            if cg.pid is Some {
                &&& x.ok
                &&& x.error is None
                &&& views_of(x.argv@) == seq!["systemd-run"@, "--scope"@] + weights + seq![
                    "--pid="@ + spec_dec(cg.pid->0 as nat),
                ]
            } else if cg.unit is Some {
                &&& x.ok
                &&& x.error is None
                &&& views_of(x.argv@) == seq!["systemd-run"@, "--scope"@] + weights + seq![
                    "--unit="@ + cg.unit->0@,
                ]
            } else {
                denied_argv_result(
                    x.ok,
                    views_of(x.argv@),
                    x.error,
                    ActionErrorCode::PolicyDenied,
                    "cgroup_apply target is invalid"@,
                )
            }
        },
        Action::FirmwareOp(fw) => r matches ActionResult::FirmwareOp(x) && {
            match fw.op {
                FirmwareOp::Inventory => {
                    &&& x.ok
                    &&& x.error is None
                    &&& views_of(x.argv@) == seq!["dmidecode"@]
                },
                FirmwareOp::FwupdUpdate => {
                    &&& x.ok
                    &&& x.error is None
                    &&& views_of(x.argv@) == seq!["fwupdmgr"@, "update"@]
                },
                FirmwareOp::UefiVarRead => {
                    let name = if fw.uefi_var_name is Some {
                        fw.uefi_var_name->0@
                    } else {
                        Seq::<char>::empty()
                    };
                    if blank(name) {
                        denied_argv_result(
                            x.ok,
                            views_of(x.argv@),
                            x.error,
                            ActionErrorCode::PolicyDenied,
                            "firmware_op target is invalid"@,
                        )
                    } else {
                        &&& x.ok
                        &&& x.error is None
                        &&& views_of(x.argv@) == seq![
                            "cat"@,
                            "/sys/firmware/efi/efivars/"@ + name,
                        ]
                    }
                },
            }
        },
        Action::Ping => r matches ActionResult::Pong(x) && x.ok,
    }
}

fn s(lit: &str) -> (r: String)
    ensures
        r@ == lit@,
{
    String::from_str(lit)
}

fn aerr(code: ActionErrorCode, msg: &str) -> (e: ActionError)
    ensures
        e.code == code,
        e.message@ == msg@,
{
    ActionError { code, message: String::from_str(msg) }
}

fn empty_string() -> (r: String)
    ensures
        r@ == Seq::<char>::empty(),
{
    String::new()
}

fn exec_gate_result(code: ActionErrorCode, msg: &str) -> (r: ExecResult)
    ensures
        !r.ok,
        r.exit_code is None,
        r.stdout@ == Seq::<char>::empty(),
        !r.stdout_truncated,
        r.stderr@ == Seq::<char>::empty(),
        !r.stderr_truncated,
        r.error matches Some(er) && er.code == code && er.message@ == msg@,
{
    ExecResult {
        ok: false,
        exit_code: None,
        stdout: empty_string(),
        stdout_truncated: false,
        stderr: empty_string(),
        stderr_truncated: false,
        error: Some(aerr(code, msg)),
    }
}

fn concat_str(prefix: &str, rest: &str) -> (r: String)
    ensures
        r@ == prefix@ + rest@,
{
    let mut out = String::from_str(prefix);
    out.append(rest);
    out
}

fn concat_num(prefix: &str, n: u64) -> (r: String)
    ensures
        r@ == prefix@ + spec_dec(n as nat),
{
    let digits = chars_to_string(&u64_dec_chars(n));
    concat_str(prefix, digits.as_str())
}

/// Builds the preview result for one action under `plan_only` mode, applying
/// the same deny-list and confirmation gates that `execute` mode applies.
pub fn plan_action(action: &Action, confirmation_token: Option<&str>, confirm_token: &str) -> (r:
    ActionResult)
    ensures
        plan_action_spec(*action, conf_valid(confirmation_token, confirm_token@), r),
{
    let cvalid = confirmation_is_valid(confirmation_token, confirm_token);
    match action {
        Action::Exec(e) => {
            if is_exec_denied(e) {
                return ActionResult::Exec(
                    exec_gate_result(ActionErrorCode::PolicyDenied, "exec denied by policy"),
                );
            }
            if exec_requires_confirmation(e) && !cvalid {
                return ActionResult::Exec(
                    exec_gate_result(ActionErrorCode::ConfirmationRequired, "confirmation required"),
                );
            }
            ActionResult::Exec(
                ExecResult {
                    ok: true,
                    exit_code: None,
                    stdout: empty_string(),
                    stdout_truncated: false,
                    stderr: empty_string(),
                    stderr_truncated: false,
                    error: None,
                },
            )
        },
        Action::ReadFile(rf) => {
            if path_requires_confirmation(rf.path.as_str()) && !cvalid {
                return ActionResult::ReadFile(
                    ReadFileResult {
                        ok: false,
                        content_base64: None,
                        truncated: false,
                        error: Some(
                            aerr(ActionErrorCode::ConfirmationRequired, "confirmation required"),
                        ),
                    },
                );
            }
            ActionResult::ReadFile(
                ReadFileResult { ok: true, content_base64: None, truncated: false, error: None },
            )
        },
        Action::WriteFile(wf) => {
            if path_requires_confirmation(wf.path.as_str()) && !cvalid {
                return ActionResult::WriteFile(
                    WriteFileResult {
                        ok: false,
                        artifacts: Vec::new(),
                        error: Some(
                            aerr(ActionErrorCode::ConfirmationRequired, "confirmation required"),
                        ),
                    },
                );
            }
            ActionResult::WriteFile(
                WriteFileResult { ok: true, artifacts: Vec::new(), error: None },
            )
        },
        Action::ServiceControl(sc) => {
            let verb = match sc.action {
                ServiceControlVerb::Start => s("start"),
                ServiceControlVerb::Stop => s("stop"),
                ServiceControlVerb::Restart => s("restart"),
                ServiceControlVerb::Enable => s("enable"),
                ServiceControlVerb::Disable => s("disable"),
                ServiceControlVerb::Status => s("status"),
            };
            let mut argv: Vec<String> = Vec::new();
            argv.push(s("systemctl"));
            argv.push(verb);
            argv.push(s(sc.unit.as_str()));
            proof {
                assert(views_of(argv@) =~~= seq![
                    "systemctl"@,
                    verb_chars(sc.action),
                    sc.unit@,
                ]);
            }
            ActionResult::ServiceControl(ServiceControlResult { ok: true, argv, error: None })
        },
        Action::InstallPackages(ip) => {
            if matches!(ip.manager, PackageManager::Other) {
                return ActionResult::InstallPackages(
                    InstallPackagesResult {
                        ok: false,
                        argv: Vec::new(),
                        error: Some(
                            aerr(
                                ActionErrorCode::PolicyDenied,
                                "install_packages manager not supported",
                            ),
                        ),
                    },
                );
            }
            let mut argv: Vec<String> = Vec::new();
            match ip.manager {
                PackageManager::Apt => {
                    argv.push(s("apt-get"));
                    argv.push(s("install"));
                    argv.push(s("-y"));
                },
                PackageManager::Dnf => {
                    argv.push(s("dnf"));
                    argv.push(s("install"));
                    argv.push(s("-y"));
                },
                PackageManager::Pacman => {
                    argv.push(s("pacman"));
                    argv.push(s("-S"));
                    argv.push(s("--noconfirm"));
                },
                PackageManager::Zypper => {
                    argv.push(s("zypper"));
                    argv.push(s("install"));
                    argv.push(s("-y"));
                },
                PackageManager::Brew => {
                    argv.push(s("brew"));
                    argv.push(s("install"));
                },
                PackageManager::Other => {},
            }
            proof {
                assert(views_of(argv@) =~~= install_prefix(ip.manager));
            }
            let argv = push_all(argv, &ip.packages);
            proof {
                assert(views_of(argv@) =~~= install_prefix(ip.manager) + views_of(ip.packages@));
            }
            ActionResult::InstallPackages(InstallPackagesResult { ok: true, argv, error: None })
        },
        Action::RemovePackages(rp) => {
            if matches!(rp.manager, PackageManager::Other) {
                return ActionResult::RemovePackages(
                    RemovePackagesResult {
                        ok: false,
                        argv: Vec::new(),
                        error: Some(
                            aerr(
                                ActionErrorCode::PolicyDenied,
                                "remove_packages manager not supported",
                            ),
                        ),
                    },
                );
            }
            let mut argv: Vec<String> = Vec::new();
            match rp.manager {
                PackageManager::Apt => {
                    argv.push(s("apt-get"));
                    argv.push(s("remove"));
                    argv.push(s("-y"));
                },
                PackageManager::Dnf => {
                    argv.push(s("dnf"));
                    argv.push(s("remove"));
                    argv.push(s("-y"));
                },
                PackageManager::Pacman => {
                    argv.push(s("pacman"));
                    argv.push(s("-R"));
                    argv.push(s("--noconfirm"));
                },
                PackageManager::Zypper => {
                    argv.push(s("zypper"));
                    argv.push(s("remove"));
                    argv.push(s("-y"));
                },
                PackageManager::Brew => {
                    argv.push(s("brew"));
                    argv.push(s("uninstall"));
                },
                PackageManager::Other => {},
            }
            proof {
                assert(views_of(argv@) =~~= remove_prefix(rp.manager));
            }
            let argv = push_all(argv, &rp.packages);
            proof {
                assert(views_of(argv@) =~~= remove_prefix(rp.manager) + views_of(rp.packages@));
            }
            ActionResult::RemovePackages(RemovePackagesResult { ok: true, argv, error: None })
        },
        Action::UpdateSystem(us) => {
            match us.manager {
                PackageManager::Apt => {
                    let mut argv: Vec<String> = Vec::new();
                    argv.push(s("apt-get"));
                    argv.push(s("update"));
                    argv.push(s("&&"));
                    argv.push(s("apt-get"));
                    argv.push(s("upgrade"));
                    argv.push(s("-y"));
                    proof {
                        assert(views_of(argv@) =~~= seq![
                            "apt-get"@,
                            "update"@,
                            "&&"@,
                            "apt-get"@,
                            "upgrade"@,
                            "-y"@,
                        ]);
                    }
                    ActionResult::UpdateSystem(UpdateSystemResult { ok: true, argv, error: None })
                },
                _ => ActionResult::UpdateSystem(
                    UpdateSystemResult {
                        ok: false,
                        argv: Vec::new(),
                        error: Some(
                            aerr(
                                ActionErrorCode::PolicyDenied,
                                "update_system manager not supported",
                            ),
                        ),
                    },
                ),
            }
        },
        Action::Observe(ob) => {
            let base = match ob.tool {
                ObserveTool::Ps => s("ps"),
                ObserveTool::Top => s("top"),
                ObserveTool::Journalctl => s("journalctl"),
                ObserveTool::Perf => s("perf"),
                ObserveTool::Bpftrace => s("bpftrace"),
                ObserveTool::Other => {
                    return ActionResult::Observe(
                        ObserveResult {
                            ok: false,
                            argv: Vec::new(),
                            error: Some(
                                aerr(ActionErrorCode::PolicyDenied, "observe tool not supported"),
                            ),
                        },
                    );
                },
            };
            let mut argv: Vec<String> = Vec::new();
            argv.push(base);
            proof {
                assert(views_of(argv@) =~~= seq![tool_chars(ob.tool)]);
            }
            let argv = push_all(argv, &ob.args);
            proof {
                assert(views_of(argv@) =~~= seq![tool_chars(ob.tool)] + views_of(ob.args@));
            }
            ActionResult::Observe(ObserveResult { ok: true, argv, error: None })
        },
        Action::CgroupApply(cg) => {
            let mut argv: Vec<String> = Vec::new();
            argv.push(s("systemd-run"));
            argv.push(s("--scope"));
            if let Some(w) = cg.cpu_weight {
                argv.push(s("-p"));
                argv.push(concat_num("CPUWeight=", w));
            }
            if let Some(m) = cg.mem_max_bytes {
                argv.push(s("-p"));
                argv.push(concat_num("MemoryMax=", m));
            }
            let ghost weights = (if cg.cpu_weight is Some {
                seq!["-p"@, "CPUWeight="@ + spec_dec(cg.cpu_weight->0 as nat)]
            } else {
                seq![]
            }) + (if cg.mem_max_bytes is Some {
                seq!["-p"@, "MemoryMax="@ + spec_dec(cg.mem_max_bytes->0 as nat)]
            } else {
                seq![]
            });
            proof {
                assert(views_of(argv@) =~~= seq!["systemd-run"@, "--scope"@] + weights);
            }
            if let Some(pid) = cg.pid {
                argv.push(concat_num("--pid=", pid as u64));
                proof {
                    assert(views_of(argv@) =~~= seq!["systemd-run"@, "--scope"@] + weights + seq![
                        "--pid="@ + spec_dec(pid as nat),
                    ]);
                }
                return ActionResult::CgroupApply(
                    CgroupApplyResult { ok: true, argv, error: None },
                );
            }
            if let Some(u) = &cg.unit {
                argv.push(concat_str("--unit=", u.as_str()));
                proof {
                    assert(views_of(argv@) =~~= seq!["systemd-run"@, "--scope"@] + weights + seq![
                        "--unit="@ + u@,
                    ]);
                }
                return ActionResult::CgroupApply(
                    CgroupApplyResult { ok: true, argv, error: None },
                );
            }
            ActionResult::CgroupApply(
                CgroupApplyResult {
                    ok: false,
                    argv: Vec::new(),
                    error: Some(
                        aerr(ActionErrorCode::PolicyDenied, "cgroup_apply target is invalid"),
                    ),
                },
            )
        },
        Action::FirmwareOp(fw) => {
            match fw.op {
                FirmwareOp::Inventory => {
                    let mut argv: Vec<String> = Vec::new();
                    argv.push(s("dmidecode"));
                    proof {
                        assert(views_of(argv@) =~~= seq!["dmidecode"@]);
                    }
                    ActionResult::FirmwareOp(FirmwareOpResult { ok: true, argv, error: None })
                },
                FirmwareOp::FwupdUpdate => {
                    let mut argv: Vec<String> = Vec::new();
                    argv.push(s("fwupdmgr"));
                    argv.push(s("update"));
                    proof {
                        assert(views_of(argv@) =~~= seq!["fwupdmgr"@, "update"@]);
                    }
                    ActionResult::FirmwareOp(FirmwareOpResult { ok: true, argv, error: None })
                },
                FirmwareOp::UefiVarRead => {
                    let blank_name = match &fw.uefi_var_name {
                        Some(n) => str_is_blank(n.as_str()),
                        None => true,
                    };
                    if blank_name {
                        return ActionResult::FirmwareOp(
                            FirmwareOpResult {
                                ok: false,
                                argv: Vec::new(),
                                error: Some(
                                    aerr(
                                        ActionErrorCode::PolicyDenied,
                                        "firmware_op target is invalid",
                                    ),
                                ),
                            },
                        );
                    }
                    let name = match &fw.uefi_var_name {
                        Some(n) => n.as_str(),
                        None => "",
                    };
                    let mut argv: Vec<String> = Vec::new();
                    argv.push(s("cat"));
                    argv.push(concat_str("/sys/firmware/efi/efivars/", name));
                    proof {
                        assert(views_of(argv@) =~~= seq![
                            "cat"@,
                            "/sys/firmware/efi/efivars/"@ + name@,
                        ]);
                    }
                    ActionResult::FirmwareOp(FirmwareOpResult { ok: true, argv, error: None })
                },
            }
        },
        Action::Ping => ActionResult::Pong(PongResult { ok: true }),
    }
}

proof fn lemma_views_push(v: Seq<String>, x: String)
    ensures
        views_of(v.push(x)) == views_of(v).push(x@),
{
    assert(views_of(v.push(x)) =~~= views_of(v).push(x@));
}

fn push_all(argv: Vec<String>, extra: &Vec<String>) -> (r: Vec<String>)
    ensures
        views_of(r@) == views_of(argv@) + views_of(extra@),
{
    let mut out = argv;
    let n = extra.len();
    let mut i: usize = 0;
    let ghost base = views_of(out@);
    proof {
        assert(views_of(out@) =~~= base + views_of(extra@.take(0)));
    }
    while i < n
        invariant
            n == extra@.len(),
            i <= n,
            views_of(out@) == base + views_of(extra@.take(i as int)),
        decreases n - i,
    {
        let ghost out0 = out@;
        out.push(String::from_str(extra[i].as_str()));
        proof {
            lemma_views_push(out0, out@.last());
            assert(extra@.take(i + 1) =~= extra@.take(i as int).push(extra@[i as int]));
            lemma_views_push(extra@.take(i as int), extra@[i as int]);
            assert(views_of(out@) =~~= base + views_of(extra@.take(i + 1)));
        }
        i += 1;
    }
    proof {
        assert(extra@.take(n as int) =~= extra@);
    }
    out
}

/// What the `execute` dispatcher owes per action before any side effect: the
/// gates that decide without I/O. `None` means the action must actually run.
pub open spec fn execute_gate_spec(a: Action, cvalid: bool, r: Option<ActionResult>) -> bool {
    match a {
        Action::Exec(e) => {
            if exec_denied(e) {
                r matches Some(res) && res matches ActionResult::Exec(x) && !x.ok && x.exit_code
                    is None && x.stdout@ == Seq::<char>::empty() && !x.stdout_truncated
                    && x.stderr@ == Seq::<char>::empty() && !x.stderr_truncated && (
                x.error matches Some(er) && er.code == ActionErrorCode::PolicyDenied && er.message@
                    == "exec denied by policy"@)
            } else if exec_needs_confirmation(e) && !cvalid {
                r matches Some(res) && res matches ActionResult::Exec(x) && !x.ok && x.exit_code
                    is None && x.stdout@ == Seq::<char>::empty() && !x.stdout_truncated
                    && x.stderr@ == Seq::<char>::empty() && !x.stderr_truncated && (
                x.error matches Some(er) && er.code == ActionErrorCode::ConfirmationRequired
                    && er.message@ == "confirmation required"@)
            } else {
                r is None
            }
        },
        Action::ReadFile(rf) => {
            if path_sensitive(rf.path@) && !cvalid {
                r matches Some(res) && res matches ActionResult::ReadFile(x) && !x.ok
                    && x.content_base64 is None && !x.truncated && (x.error matches Some(er)
                    && er.code == ActionErrorCode::ConfirmationRequired && er.message@
                    == "confirmation required"@)
            } else {
                r is None
            }
        },
        Action::WriteFile(wf) => {
            if path_sensitive(wf.path@) && !cvalid {
                r matches Some(res) && res matches ActionResult::WriteFile(x) && !x.ok
                    && x.artifacts@.len() == 0 && (x.error matches Some(er) && er.code
                    == ActionErrorCode::ConfirmationRequired && er.message@
                    == "confirmation required"@)
            } else {
                r is None
            }
        },
        Action::ServiceControl(_) => r matches Some(res) && res matches ActionResult::ServiceControl(
            x,
        ) && denied_argv_result(
            x.ok,
            views_of(x.argv@),
            x.error,
            ActionErrorCode::PolicyDenied,
            "service_control is not supported in execute mode"@,
        ),
        Action::InstallPackages(_) => r matches Some(res) && res
            matches ActionResult::InstallPackages(x) && denied_argv_result(
            x.ok,
            views_of(x.argv@),
            x.error,
            ActionErrorCode::PolicyDenied,
            "install_packages is not supported in execute mode"@,
        ),
        Action::RemovePackages(_) => r matches Some(res) && res
            matches ActionResult::RemovePackages(x) && denied_argv_result(
            x.ok,
            views_of(x.argv@),
            x.error,
            ActionErrorCode::PolicyDenied,
            "remove_packages is not supported in execute mode"@,
        ),
        Action::UpdateSystem(_) => r matches Some(res) && res matches ActionResult::UpdateSystem(x)
            && denied_argv_result(
            x.ok,
            views_of(x.argv@),
            x.error,
            ActionErrorCode::PolicyDenied,
            "update_system is not supported in execute mode"@,
        ),
        Action::Observe(_) => r matches Some(res) && res matches ActionResult::Observe(x)
            && denied_argv_result(
            x.ok,
            views_of(x.argv@),
            x.error,
            ActionErrorCode::PolicyDenied,
            "observe is not supported in execute mode"@,
        ),
        Action::CgroupApply(_) => r matches Some(res) && res matches ActionResult::CgroupApply(x)
            && denied_argv_result(
            x.ok,
            views_of(x.argv@),
            x.error,
            ActionErrorCode::PolicyDenied,
            "cgroup_apply is not supported in execute mode"@,
        ),
        Action::FirmwareOp(_) => r matches Some(res) && res matches ActionResult::FirmwareOp(x)
            && denied_argv_result(
            x.ok,
            views_of(x.argv@),
            x.error,
            ActionErrorCode::PolicyDenied,
            "firmware_op is not supported in execute mode"@,
        ),
        Action::Ping => r matches Some(res) && res matches ActionResult::Pong(x) && x.ok,
    }
}

/// Applies the `execute`-mode gates to one action. `None` means the action
/// passed every gate and must now actually run (exec, read_file, write_file);
/// everything else is decided here without touching the host.
pub fn execute_gate(action: &Action, confirmation_token: Option<&str>, confirm_token: &str) -> (r:
    Option<ActionResult>)
    ensures
        execute_gate_spec(*action, conf_valid(confirmation_token, confirm_token@), r),
{
    let cvalid = confirmation_is_valid(confirmation_token, confirm_token);
    match action {
        Action::Exec(e) => {
            if is_exec_denied(e) {
                return Some(
                    ActionResult::Exec(
                        exec_gate_result(ActionErrorCode::PolicyDenied, "exec denied by policy"),
                    ),
                );
            }
            if exec_requires_confirmation(e) && !cvalid {
                return Some(
                    ActionResult::Exec(
                        exec_gate_result(
                            ActionErrorCode::ConfirmationRequired,
                            "confirmation required",
                        ),
                    ),
                );
            }
            None
        },
        Action::ReadFile(rf) => {
            if path_requires_confirmation(rf.path.as_str()) && !cvalid {
                return Some(
                    ActionResult::ReadFile(
                        ReadFileResult {
                            ok: false,
                            content_base64: None,
                            truncated: false,
                            error: Some(
                                aerr(
                                    ActionErrorCode::ConfirmationRequired,
                                    "confirmation required",
                                ),
                            ),
                        },
                    ),
                );
            }
            None
        },
        Action::WriteFile(wf) => {
            if path_requires_confirmation(wf.path.as_str()) && !cvalid {
                return Some(
                    ActionResult::WriteFile(
                        WriteFileResult {
                            ok: false,
                            artifacts: Vec::new(),
                            error: Some(
                                aerr(
                                    ActionErrorCode::ConfirmationRequired,
                                    "confirmation required",
                                ),
                            ),
                        },
                    ),
                );
            }
            None
        },
        Action::ServiceControl(_) => Some(
            ActionResult::ServiceControl(
                ServiceControlResult {
                    ok: false,
                    argv: Vec::new(),
                    error: Some(
                        aerr(
                            ActionErrorCode::PolicyDenied,
                            "service_control is not supported in execute mode",
                        ),
                    ),
                },
            ),
        ),
        Action::InstallPackages(_) => Some(
            ActionResult::InstallPackages(
                InstallPackagesResult {
                    ok: false,
                    argv: Vec::new(),
                    error: Some(
                        aerr(
                            ActionErrorCode::PolicyDenied,
                            "install_packages is not supported in execute mode",
                        ),
                    ),
                },
            ),
        ),
        Action::RemovePackages(_) => Some(
            ActionResult::RemovePackages(
                RemovePackagesResult {
                    ok: false,
                    argv: Vec::new(),
                    error: Some(
                        aerr(
                            ActionErrorCode::PolicyDenied,
                            "remove_packages is not supported in execute mode",
                        ),
                    ),
                },
            ),
        ),
        Action::UpdateSystem(_) => Some(
            ActionResult::UpdateSystem(
                UpdateSystemResult {
                    ok: false,
                    argv: Vec::new(),
                    error: Some(
                        aerr(
                            ActionErrorCode::PolicyDenied,
                            "update_system is not supported in execute mode",
                        ),
                    ),
                },
            ),
        ),
        Action::Observe(_) => Some(
            ActionResult::Observe(
                ObserveResult {
                    ok: false,
                    argv: Vec::new(),
                    error: Some(
                        aerr(
                            ActionErrorCode::PolicyDenied,
                            "observe is not supported in execute mode",
                        ),
                    ),
                },
            ),
        ),
        Action::CgroupApply(_) => Some(
            ActionResult::CgroupApply(
                CgroupApplyResult {
                    ok: false,
                    argv: Vec::new(),
                    error: Some(
                        aerr(
                            ActionErrorCode::PolicyDenied,
                            "cgroup_apply is not supported in execute mode",
                        ),
                    ),
                },
            ),
        ),
        Action::FirmwareOp(_) => Some(
            ActionResult::FirmwareOp(
                FirmwareOpResult {
                    ok: false,
                    argv: Vec::new(),
                    error: Some(
                        aerr(
                            ActionErrorCode::PolicyDenied,
                            "firmware_op is not supported in execute mode",
                        ),
                    ),
                },
            ),
        ),
        Action::Ping => Some(ActionResult::Pong(PongResult { ok: true })),
    }
}

/// Whether one captured stream is truncated.
pub open spec fn trunc_flag(b: Seq<u8>) -> bool {
    b.len() > MAX_STDIO_BYTES
}

/// The text kept for one captured stream: decoded in full when within the
/// cap, else the decoded first `MAX_STDIO_BYTES` bytes with a marker.
pub open spec fn trunc_text(b: Seq<u8>) -> Seq<char> {
    if trunc_flag(b) {
        lossy_utf8(b.take(MAX_STDIO_BYTES as int)) + "\n[truncated]\n"@
    } else {
        lossy_utf8(b)
    }
}

/// Caps one captured stream at `MAX_STDIO_BYTES`, appending a marker when
/// anything was cut.
pub fn truncate_bytes(bytes: &[u8]) -> (r: (String, bool))
    ensures
        r.1 == trunc_flag(bytes@),
        r.0@ == trunc_text(bytes@),
{
    if bytes.len() <= MAX_STDIO_BYTES {
        return (utf8_lossy(bytes), false);
    }
    let head = vstd::slice::slice_subrange(bytes, 0, MAX_STDIO_BYTES);
    let mut out = utf8_lossy(head);
    out.append("\n[truncated]\n");
    (out, true)
}

/// The result of an exec action whose child finished (no timeout, no spawn
/// failure): captures are truncated at the cap, and `ok` reports the child's
/// success.
pub fn exec_finished_result(success: bool, exit_code: Option<i32>, stdout: &[u8], stderr: &[u8])
    -> (r: ActionResult)
    ensures
        r matches ActionResult::Exec(x) && x.ok == success && x.exit_code == exit_code && x.stdout@
            == trunc_text(stdout@) && x.stdout_truncated == trunc_flag(stdout@) && x.stderr@
            == trunc_text(stderr@) && x.stderr_truncated == trunc_flag(stderr@) && x.error is None,
{
    let (so, so_t) = truncate_bytes(stdout);
    let (se, se_t) = truncate_bytes(stderr);
    ActionResult::Exec(
        ExecResult {
            ok: success,
            exit_code,
            stdout: so,
            stdout_truncated: so_t,
            stderr: se,
            stderr_truncated: se_t,
            error: None,
        },
    )
}

/// The result of an exec action whose child could not be spawned.
pub fn exec_spawn_error_result(msg: &str) -> (r: ActionResult)
    ensures
        r matches ActionResult::Exec(x) && !x.ok && x.exit_code is None && x.stdout@ == Seq::<
            char,
        >::empty() && !x.stdout_truncated && x.stderr@ == Seq::<char>::empty()
            && !x.stderr_truncated && (x.error matches Some(er) && er.code
            == ActionErrorCode::ExecFailed && er.message@ == "exec failed: "@ + msg@),
{
    let full = concat_str("exec failed: ", msg);
    ActionResult::Exec(
        ExecResult {
            ok: false,
            exit_code: None,
            stdout: empty_string(),
            stdout_truncated: false,
            stderr: empty_string(),
            stderr_truncated: false,
            error: Some(ActionError { code: ActionErrorCode::ExecFailed, message: full }),
        },
    )
}

/// The result of an exec action that outlived its time bound.
pub fn exec_timeout_result() -> (r: ActionResult)
    ensures
        r matches ActionResult::Exec(x) && !x.ok && x.exit_code is None && x.stdout@ == Seq::<
            char,
        >::empty() && !x.stdout_truncated && x.stderr@ == Seq::<char>::empty()
            && !x.stderr_truncated && (x.error matches Some(er) && er.code
            == ActionErrorCode::ExecTimedOut && er.message@ == "exec timed out"@),
{
    ActionResult::Exec(exec_gate_result(ActionErrorCode::ExecTimedOut, "exec timed out"))
}

} // verus!
