//! Protocol data model: the ActionPlan request document, its actions, and the
//! ActionPlanResult response document.

use vstd::prelude::*;

verus! {

/// Request-level error codes carried in `ActionPlanResult.error`.
#[derive(Debug, Clone, Copy, PartialEq, Eq, Structural)]
pub enum ErrorCode {
    ParseFailed,
    ValidationFailed,
    InvalidMode,
    RequestTooLarge,
}

/// Action-level error codes carried in each action result's `error`.
#[derive(Debug, Clone, Copy, PartialEq, Eq, Structural)]
pub enum ActionErrorCode {
    PolicyDenied,
    ConfirmationRequired,
    ExecFailed,
    ExecTimedOut,
    ReadFailed,
    WriteFailed,
    InvalidModeString,
}

/// Whether a plan is to be executed or only previewed.
#[derive(Debug, Clone, Copy, PartialEq, Eq, Structural)]
pub enum Mode {
    PlanOnly,
    Execute,
}

#[derive(Debug, Clone, Copy, PartialEq, Eq, Structural)]
pub enum PackageManager {
    Apt,
    Dnf,
    Pacman,
    Zypper,
    Brew,
    Other,
}

#[derive(Debug, Clone, Copy, PartialEq, Eq, Structural)]
pub enum ServiceControlVerb {
    Start,
    Stop,
    Restart,
    Enable,
    Disable,
    Status,
}

#[derive(Debug, Clone, Copy, PartialEq, Eq, Structural)]
pub enum ObserveTool {
    Ps,
    Top,
    Journalctl,
    Perf,
    Bpftrace,
    Other,
}

#[derive(Debug, Clone, Copy, PartialEq, Eq, Structural)]
pub enum FirmwareOp {
    Inventory,
    FwupdUpdate,
    UefiVarRead,
}

/// One `exec.env` entry.
#[derive(Debug, Clone, PartialEq, Eq)]
pub struct EnvEntry {
    pub key: String,
    pub value: String,
}

/// The environment for an `exec` action: entries in insertion order with
/// unique keys; `insert` replaces the value of a key already present.
#[derive(Debug, Clone, PartialEq, Eq)]
pub struct EnvMap {
    pub entries: Vec<EnvEntry>,
}

/// The entry list after setting `e.key` to `e.value`: replaces the first
/// entry with that key, or appends when the key is new.
pub open spec fn env_set_spec(es: Seq<EnvEntry>, e: EnvEntry) -> Seq<EnvEntry>
    decreases es.len(),
{
    if es.len() == 0 {
        seq![e]
    } else if es[0].key@ == e.key@ {
        seq![e] + es.drop_first()
    } else {
        seq![es[0]] + env_set_spec(es.drop_first(), e)
    }
}

proof fn lemma_env_set_skip(es: Seq<EnvEntry>, e: EnvEntry, i: int)
    requires
        0 <= i <= es.len(),
        forall|j: int| 0 <= j < i ==> (#[trigger] es[j].key)@ != e.key@,
    ensures
        env_set_spec(es, e) == es.take(i) + env_set_spec(es.skip(i), e),
    decreases i,
{
    if i == 0 {
        assert(es.skip(0) =~= es);
        assert(es.take(0) + env_set_spec(es, e) =~= env_set_spec(es, e));
    } else {
        lemma_env_set_skip(es, e, i - 1);
        assert(es.skip(i - 1).len() > 0);
        assert(es.skip(i - 1)[0] == es[i - 1]);
        assert(env_set_spec(es.skip(i - 1), e) == seq![es[i - 1]] + env_set_spec(
            es.skip(i - 1).drop_first(),
            e,
        ));
        assert(es.skip(i - 1).drop_first() =~= es.skip(i));
        assert(es.take(i - 1) + (seq![es[i - 1]] + env_set_spec(es.skip(i), e)) =~= es.take(i)
            + env_set_spec(es.skip(i), e));
    }
}

impl EnvMap {
    /// An empty environment.
    pub fn new() -> (m: EnvMap)
        ensures
            m.entries@.len() == 0,
    {
        EnvMap { entries: Vec::new() }
    }

    pub fn len(&self) -> (n: usize)
        ensures
            n == self.entries@.len(),
    {
        self.entries.len()
    }

    /// Sets `key` to `value`, replacing the entry of an existing key.
    pub fn insert(&mut self, key: String, value: String)
        ensures
            final(self).entries@ == env_set_spec(
                old(self).entries@,
                EnvEntry { key: key, value: value },
            ),
    {
        let ghost e = EnvEntry { key: key, value: value };
        let ghost es = self.entries@;
        let n = self.entries.len();
        let mut i: usize = 0;
        while i < n
            invariant
                n == self.entries@.len(),
                self.entries@ == es,
                es == old(self).entries@,
                i <= n,
                e == (EnvEntry { key: key, value: value }),
                forall|j: int| 0 <= j < i ==> (#[trigger] es[j].key)@ != e.key@,
            decreases n - i,
        {
            if crate::text::str_eq(self.entries[i].key.as_str(), key.as_str()) {
                proof {
                    lemma_env_set_skip(es, e, i as int);
                    assert(es.skip(i as int)[0] == es[i as int]);
                    assert(env_set_spec(es.skip(i as int), e) == seq![e] + es.skip(
                        i as int,
                    ).drop_first());
                }
                self.entries.remove(i);
                self.entries.insert(i, EnvEntry { key, value });
                proof {
                    assert(self.entries@ =~= es.take(i as int) + (seq![e] + es.skip(
                        i as int,
                    ).drop_first()));
                }
                return ;
            }
            i += 1;
        }
        proof {
            lemma_env_set_skip(es, e, n as int);
            assert(es.skip(n as int).len() == 0);
            assert(env_set_spec(es.skip(n as int), e) == seq![e]);
        }
        self.entries.push(EnvEntry { key, value });
        proof {
            assert(self.entries@ =~= es.take(n as int) + seq![e]);
        }
    }
}

#[derive(Debug, Clone, PartialEq, Eq)]
pub struct Confirmation {
    pub token: String,
}

#[derive(Debug, Clone, PartialEq, Eq)]
pub struct ExecAction {
    pub argv: Vec<String>,
    pub cwd: Option<String>,
    pub env: Option<EnvMap>,
    pub timeout_sec: u64,
    pub as_root: bool,
    pub reason: String,
    pub danger: Option<String>,
    pub recovery: Option<String>,
}

#[derive(Debug, Clone, PartialEq, Eq)]
pub struct ReadFileAction {
    pub path: String,
    pub max_bytes: u64,
    pub reason: String,
    pub danger: Option<String>,
    pub recovery: Option<String>,
}

#[derive(Debug, Clone, PartialEq, Eq)]
pub struct WriteFileAction {
    pub path: String,
    pub content: String,
    pub mode: String,
    pub reason: String,
    pub danger: Option<String>,
    pub recovery: Option<String>,
}

#[derive(Debug, Clone, PartialEq, Eq)]
pub struct ServiceControlAction {
    pub action: ServiceControlVerb,
    pub unit: String,
    pub reason: String,
    pub danger: Option<String>,
    pub recovery: Option<String>,
}

#[derive(Debug, Clone, PartialEq, Eq)]
pub struct InstallPackagesAction {
    pub manager: PackageManager,
    pub packages: Vec<String>,
    pub reason: String,
    pub danger: Option<String>,
    pub recovery: Option<String>,
}

#[derive(Debug, Clone, PartialEq, Eq)]
pub struct RemovePackagesAction {
    pub manager: PackageManager,
    pub packages: Vec<String>,
    pub reason: String,
    pub danger: Option<String>,
    pub recovery: Option<String>,
}

#[derive(Debug, Clone, PartialEq, Eq)]
pub struct UpdateSystemAction {
    pub manager: PackageManager,
    pub reason: String,
    pub danger: Option<String>,
    pub recovery: Option<String>,
}

#[derive(Debug, Clone, PartialEq, Eq)]
pub struct ObserveAction {
    pub tool: ObserveTool,
    pub args: Vec<String>,
    pub reason: String,
    pub danger: Option<String>,
    pub recovery: Option<String>,
}

#[derive(Debug, Clone, PartialEq, Eq)]
pub struct CgroupApplyAction {
    pub pid: Option<u32>,
    pub unit: Option<String>,
    pub cpu_weight: Option<u64>,
    pub mem_max_bytes: Option<u64>,
    pub reason: String,
    pub danger: Option<String>,
    pub recovery: Option<String>,
}

#[derive(Debug, Clone, PartialEq, Eq)]
pub struct FirmwareOpAction {
    pub op: FirmwareOp,
    pub uefi_var_name: Option<String>,
    pub reason: String,
    pub danger: Option<String>,
    pub recovery: Option<String>,
}

/// The tagged sum of every action kind a plan may request.
#[derive(Debug, Clone, PartialEq, Eq)]
pub enum Action {
    Exec(ExecAction),
    ReadFile(ReadFileAction),
    WriteFile(WriteFileAction),
    ServiceControl(ServiceControlAction),
    InstallPackages(InstallPackagesAction),
    RemovePackages(RemovePackagesAction),
    UpdateSystem(UpdateSystemAction),
    Observe(ObserveAction),
    CgroupApply(CgroupApplyAction),
    FirmwareOp(FirmwareOpAction),
    Ping,
}

/// The root request document.
#[derive(Debug, Clone, PartialEq, Eq)]
pub struct ActionPlan {
    pub request_id: String,
    pub session_id: Option<String>,
    pub version: String,
    pub mode: Mode,
    pub actions: Vec<Action>,
    pub confirmation: Option<Confirmation>,
}

#[derive(Debug, Clone, PartialEq, Eq)]
pub struct RequestError {
    pub code: ErrorCode,
    pub message: String,
}

#[derive(Debug, Clone, PartialEq, Eq)]
pub struct ActionError {
    pub code: ActionErrorCode,
    pub message: String,
}

#[derive(Debug, Clone, PartialEq, Eq)]
pub struct ExecResult {
    pub ok: bool,
    pub exit_code: Option<i32>,
    pub stdout: String,
    pub stdout_truncated: bool,
    pub stderr: String,
    pub stderr_truncated: bool,
    pub error: Option<ActionError>,
}

#[derive(Debug, Clone, PartialEq, Eq)]
pub struct ReadFileResult {
    pub ok: bool,
    pub content_base64: Option<String>,
    pub truncated: bool,
    pub error: Option<ActionError>,
}

#[derive(Debug, Clone, PartialEq, Eq)]
pub struct WriteFileResult {
    pub ok: bool,
    pub artifacts: Vec<String>,
    pub error: Option<ActionError>,
}

#[derive(Debug, Clone, PartialEq, Eq)]
pub struct ServiceControlResult {
    pub ok: bool,
    pub argv: Vec<String>,
    pub error: Option<ActionError>,
}

#[derive(Debug, Clone, PartialEq, Eq)]
pub struct InstallPackagesResult {
    pub ok: bool,
    pub argv: Vec<String>,
    pub error: Option<ActionError>,
}

#[derive(Debug, Clone, PartialEq, Eq)]
pub struct RemovePackagesResult {
    pub ok: bool,
    pub argv: Vec<String>,
    pub error: Option<ActionError>,
}

#[derive(Debug, Clone, PartialEq, Eq)]
pub struct UpdateSystemResult {
    pub ok: bool,
    pub argv: Vec<String>,
    pub error: Option<ActionError>,
}

#[derive(Debug, Clone, PartialEq, Eq)]
pub struct ObserveResult {
    pub ok: bool,
    pub argv: Vec<String>,
    pub error: Option<ActionError>,
}

#[derive(Debug, Clone, PartialEq, Eq)]
pub struct CgroupApplyResult {
    pub ok: bool,
    pub argv: Vec<String>,
    pub error: Option<ActionError>,
}

#[derive(Debug, Clone, PartialEq, Eq)]
pub struct FirmwareOpResult {
    pub ok: bool,
    pub argv: Vec<String>,
    pub error: Option<ActionError>,
}

#[derive(Debug, Clone, PartialEq, Eq)]
pub struct PongResult {
    pub ok: bool,
}

/// The tagged sum of per-action results, mirroring `Action` variant for variant.
#[derive(Debug, Clone, PartialEq, Eq)]
pub enum ActionResult {
    Exec(ExecResult),
    ReadFile(ReadFileResult),
    WriteFile(WriteFileResult),
    ServiceControl(ServiceControlResult),
    InstallPackages(InstallPackagesResult),
    RemovePackages(RemovePackagesResult),
    UpdateSystem(UpdateSystemResult),
    Observe(ObserveResult),
    CgroupApply(CgroupApplyResult),
    FirmwareOp(FirmwareOpResult),
    Pong(PongResult),
}

/// The response document: one per request.
#[derive(Debug, Clone, PartialEq, Eq)]
pub struct ActionPlanResult {
    pub request_id: String,
    pub executed: bool,
    pub results: Vec<ActionResult>,
    pub error: Option<RequestError>,
}

/// A validation failure with its stable message.
#[derive(Debug, Clone, PartialEq, Eq)]
pub struct ValidationError {
    pub message: String,
}

/// Identity of the process on the other end of the daemon's socket.
#[derive(Debug, Clone, Copy, PartialEq, Eq, Structural)]
pub struct PeerCredentials {
    pub pid: i32,
    pub uid: u32,
    pub gid: u32,
}

/// The outcome of validating a plan locally, without touching the daemon.
#[derive(Debug, Clone, PartialEq, Eq)]
pub struct ValidateVerdict {
    pub ok: bool,
    pub error: Option<RequestError>,
}

} // verus!
