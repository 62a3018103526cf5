//! The canonical wire encoding: compact JSON with fields in declaration
//! order, a `type` tag on actions and results, and every optional field
//! written (as `null` when absent). The specification functions give the
//! exact character sequence owed for every value, and each emitter is proved
//! to produce it.

use vstd::prelude::*;

verus! {

use crate::numbers::{spec_dec, spec_dec_int, u64_dec_chars, i32_dec_chars};
use crate::text::str_to_chars;
use crate::types::{
    Action, ActionError, ActionErrorCode, ActionPlan, ActionPlanResult, ActionResult,
    Confirmation, EnvMap, ErrorCode, FirmwareOp, Mode, ObserveTool, PackageManager,
    RequestError, ServiceControlVerb,
};

pub open spec fn hex_digit(d: nat) -> char {
    if d == 0 {
        '0'
    } else if d == 1 {
        '1'
    } else if d == 2 {
        '2'
    } else if d == 3 {
        '3'
    } else if d == 4 {
        '4'
    } else if d == 5 {
        '5'
    } else if d == 6 {
        '6'
    } else if d == 7 {
        '7'
    } else if d == 8 {
        '8'
    } else if d == 9 {
        '9'
    } else if d == 10 {
        'a'
    } else if d == 11 {
        'b'
    } else if d == 12 {
        'c'
    } else if d == 13 {
        'd'
    } else if d == 14 {
        'e'
    } else {
        'f'
    }
}

/// The escape of one character inside a JSON string.
pub open spec fn esc_char(c: char) -> Seq<char> {
    if c == '"' {
        seq!['\\', '"']
    } else if c == '\\' {
        seq!['\\', '\\']
    } else if c == '\u{8}' {
        seq!['\\', 'b']
    } else if c == '\u{c}' {
        seq!['\\', 'f']
    } else if c == '\n' {
        seq!['\\', 'n']
    } else if c == '\r' {
        seq!['\\', 'r']
    } else if c == '\t' {
        seq!['\\', 't']
    } else if (c as u32) < 0x20 {
        seq!['\\', 'u', '0', '0', hex_digit((c as u32 / 16) as nat), hex_digit(
            (c as u32 % 16) as nat,
        )]
    } else {
        seq![c]
    }
}

/// The escaped body of a JSON string.
pub open spec fn esc(s: Seq<char>) -> Seq<char>
    decreases s.len(),
{
    if s.len() == 0 {
        Seq::empty()
    } else {
        esc_char(s[0]) + esc(s.drop_first())
    }
}

/// A JSON string token: quoted and escaped.
pub open spec fn jstr(s: Seq<char>) -> Seq<char> {
    seq!['"'] + esc(s) + seq!['"']
}

pub open spec fn jbool(b: bool) -> Seq<char> {
    if b {
        "true"@
    } else {
        "false"@
    }
}

pub open spec fn jopt_str(o: Option<String>) -> Seq<char> {
    match o {
        Some(s) => jstr(s@),
        None => "null"@,
    }
}

pub open spec fn jopt_u64(o: Option<u64>) -> Seq<char> {
    match o {
        Some(n) => spec_dec(n as nat),
        None => "null"@,
    }
}

pub open spec fn jopt_u32(o: Option<u32>) -> Seq<char> {
    match o {
        Some(n) => spec_dec(n as nat),
        None => "null"@,
    }
}

pub open spec fn jopt_i32(o: Option<i32>) -> Seq<char> {
    match o {
        Some(n) => spec_dec_int(n as int),
        None => "null"@,
    }
}

pub open spec fn mode_chars(m: Mode) -> Seq<char> {
    match m {
        Mode::PlanOnly => "\"plan_only\""@,
        Mode::Execute => "\"execute\""@,
    }
}

pub open spec fn manager_chars(m: PackageManager) -> Seq<char> {
    match m {
        PackageManager::Apt => "\"apt\""@,
        PackageManager::Dnf => "\"dnf\""@,
        PackageManager::Pacman => "\"pacman\""@,
        PackageManager::Zypper => "\"zypper\""@,
        PackageManager::Brew => "\"brew\""@,
        PackageManager::Other => "\"other\""@,
    }
}

pub open spec fn verb_tok(v: ServiceControlVerb) -> Seq<char> {
    match v {
        ServiceControlVerb::Start => "\"start\""@,
        ServiceControlVerb::Stop => "\"stop\""@,
        ServiceControlVerb::Restart => "\"restart\""@,
        ServiceControlVerb::Enable => "\"enable\""@,
        ServiceControlVerb::Disable => "\"disable\""@,
        ServiceControlVerb::Status => "\"status\""@,
    }
}

pub open spec fn tool_tok(t: ObserveTool) -> Seq<char> {
    match t {
        ObserveTool::Ps => "\"ps\""@,
        ObserveTool::Top => "\"top\""@,
        ObserveTool::Journalctl => "\"journalctl\""@,
        ObserveTool::Perf => "\"perf\""@,
        ObserveTool::Bpftrace => "\"bpftrace\""@,
        ObserveTool::Other => "\"other\""@,
    }
}

pub open spec fn fwop_tok(o: FirmwareOp) -> Seq<char> {
    match o {
        FirmwareOp::Inventory => "\"inventory\""@,
        FirmwareOp::FwupdUpdate => "\"fwupd_update\""@,
        FirmwareOp::UefiVarRead => "\"uefi_var_read\""@,
    }
}

pub open spec fn error_code_tok(c: ErrorCode) -> Seq<char> {
    match c {
        ErrorCode::ParseFailed => "\"parse_failed\""@,
        ErrorCode::ValidationFailed => "\"validation_failed\""@,
        ErrorCode::InvalidMode => "\"invalid_mode\""@,
        ErrorCode::RequestTooLarge => "\"request_too_large\""@,
    }
}

pub open spec fn action_code_tok(c: ActionErrorCode) -> Seq<char> {
    match c {
        ActionErrorCode::PolicyDenied => "\"policy_denied\""@,
        ActionErrorCode::ConfirmationRequired => "\"confirmation_required\""@,
        ActionErrorCode::ExecFailed => "\"exec_failed\""@,
        ActionErrorCode::ExecTimedOut => "\"exec_timed_out\""@,
        ActionErrorCode::ReadFailed => "\"read_failed\""@,
        ActionErrorCode::WriteFailed => "\"write_failed\""@,
        ActionErrorCode::InvalidModeString => "\"invalid_mode_string\""@,
    }
}

/// A JSON array of strings.
pub open spec fn jstr_arr(v: Seq<String>) -> Seq<char> {
    seq!['['] + jstr_arr_body(v) + seq![']']
}

pub open spec fn jstr_arr_body(v: Seq<String>) -> Seq<char>
    decreases v.len(),
{
    if v.len() == 0 {
        Seq::empty()
    } else if v.len() == 1 {
        jstr(v[0]@)
    } else {
        jstr(v[0]@) + seq![','] + jstr_arr_body(v.drop_first())
    }
}

/// A JSON object with string values, keys in stored order.
pub open spec fn jenv(m: EnvMap) -> Seq<char> {
    seq!['{'] + jenv_body(m.entries@.map_values(|e: crate::types::EnvEntry| (e.key@, e.value@)))
        + seq!['}']
}

pub open spec fn jenv_body(es: Seq<(Seq<char>, Seq<char>)>) -> Seq<char>
    decreases es.len(),
{
    if es.len() == 0 {
        Seq::empty()
    } else if es.len() == 1 {
        jstr(es[0].0) + seq![':'] + jstr(es[0].1)
    } else {
        jstr(es[0].0) + seq![':'] + jstr(es[0].1) + seq![','] + jenv_body(es.drop_first())
    }
}

pub open spec fn jopt_env(o: Option<EnvMap>) -> Seq<char> {
    match o {
        Some(m) => jenv(m),
        None => "null"@,
    }
}

pub open spec fn jconf(o: Option<Confirmation>) -> Seq<char> {
    match o {
        Some(c) => "{\"token\":"@ + jstr(c.token@) + "}"@,
        None => "null"@,
    }
}

/// The wire form of one action.
pub open spec fn ser_action(a: Action) -> Seq<char> {
    match a {
        Action::Exec(e) => "{\"type\":\"exec\",\"argv\":"@ + jstr_arr(e.argv@) + ",\"cwd\":"@
            + jopt_str(e.cwd) + ",\"env\":"@ + jopt_env(e.env) + ",\"timeout_sec\":"@ + spec_dec(
            e.timeout_sec as nat,
        ) + ",\"as_root\":"@ + jbool(e.as_root) + ",\"reason\":"@ + jstr(e.reason@)
            + ",\"danger\":"@ + jopt_str(e.danger) + ",\"recovery\":"@ + jopt_str(e.recovery)
            + "}"@,
        Action::ReadFile(rf) => "{\"type\":\"read_file\",\"path\":"@ + jstr(rf.path@)
            + ",\"max_bytes\":"@ + spec_dec(rf.max_bytes as nat) + ",\"reason\":"@ + jstr(
            rf.reason@,
        ) + ",\"danger\":"@ + jopt_str(rf.danger) + ",\"recovery\":"@ + jopt_str(rf.recovery)
            + "}"@,
        Action::WriteFile(wf) => "{\"type\":\"write_file\",\"path\":"@ + jstr(wf.path@)
            + ",\"content\":"@ + jstr(wf.content@) + ",\"mode\":"@ + jstr(wf.mode@)
            + ",\"reason\":"@ + jstr(wf.reason@) + ",\"danger\":"@ + jopt_str(wf.danger)
            + ",\"recovery\":"@ + jopt_str(wf.recovery) + "}"@,
        Action::ServiceControl(sc) => "{\"type\":\"service_control\",\"action\":"@ + verb_tok(
            sc.action,
        ) + ",\"unit\":"@ + jstr(sc.unit@) + ",\"reason\":"@ + jstr(sc.reason@) + ",\"danger\":"@
            + jopt_str(sc.danger) + ",\"recovery\":"@ + jopt_str(sc.recovery) + "}"@,
        Action::InstallPackages(ip) => "{\"type\":\"install_packages\",\"manager\":"@
            + manager_chars(ip.manager) + ",\"packages\":"@ + jstr_arr(ip.packages@)
            + ",\"reason\":"@ + jstr(ip.reason@) + ",\"danger\":"@ + jopt_str(ip.danger)
            + ",\"recovery\":"@ + jopt_str(ip.recovery) + "}"@,
        Action::RemovePackages(rp) => "{\"type\":\"remove_packages\",\"manager\":"@
            + manager_chars(rp.manager) + ",\"packages\":"@ + jstr_arr(rp.packages@)
            + ",\"reason\":"@ + jstr(rp.reason@) + ",\"danger\":"@ + jopt_str(rp.danger)
            + ",\"recovery\":"@ + jopt_str(rp.recovery) + "}"@,
        Action::UpdateSystem(us) => "{\"type\":\"update_system\",\"manager\":"@ + manager_chars(
            us.manager,
        ) + ",\"reason\":"@ + jstr(us.reason@) + ",\"danger\":"@ + jopt_str(us.danger)
            + ",\"recovery\":"@ + jopt_str(us.recovery) + "}"@,
        Action::Observe(ob) => "{\"type\":\"observe\",\"tool\":"@ + tool_tok(ob.tool)
            + ",\"args\":"@ + jstr_arr(ob.args@) + ",\"reason\":"@ + jstr(ob.reason@)
            + ",\"danger\":"@ + jopt_str(ob.danger) + ",\"recovery\":"@ + jopt_str(ob.recovery)
            + "}"@,
        Action::CgroupApply(cg) => "{\"type\":\"cgroup_apply\",\"pid\":"@ + jopt_u32(cg.pid)
            + ",\"unit\":"@ + jopt_str(cg.unit) + ",\"cpu_weight\":"@ + jopt_u64(cg.cpu_weight)
            + ",\"mem_max_bytes\":"@ + jopt_u64(cg.mem_max_bytes) + ",\"reason\":"@ + jstr(
            cg.reason@,
        ) + ",\"danger\":"@ + jopt_str(cg.danger) + ",\"recovery\":"@ + jopt_str(cg.recovery)
            + "}"@,
        Action::FirmwareOp(fw) => "{\"type\":\"firmware_op\",\"op\":"@ + fwop_tok(fw.op)
            + ",\"uefi_var_name\":"@ + jopt_str(fw.uefi_var_name) + ",\"reason\":"@ + jstr(
            fw.reason@,
        ) + ",\"danger\":"@ + jopt_str(fw.danger) + ",\"recovery\":"@ + jopt_str(fw.recovery)
            + "}"@,
        Action::Ping => "{\"type\":\"ping\"}"@,
    }
}

pub open spec fn ser_actions_body(s: Seq<Action>) -> Seq<char>
    decreases s.len(),
{
    if s.len() == 0 {
        Seq::empty()
    } else if s.len() == 1 {
        ser_action(s[0])
    } else {
        ser_action(s[0]) + seq![','] + ser_actions_body(s.drop_first())
    }
}

/// The wire form of a whole plan.
pub open spec fn ser_plan(p: ActionPlan) -> Seq<char> {
    "{\"request_id\":"@ + jstr(p.request_id@) + ",\"session_id\":"@ + jopt_str(p.session_id)
        + ",\"version\":"@ + jstr(p.version@) + ",\"mode\":"@ + mode_chars(p.mode)
        + ",\"actions\":["@ + ser_actions_body(p.actions@) + "],\"confirmation\":"@ + jconf(
        p.confirmation,
    ) + "}"@
}

pub open spec fn jaerr(o: Option<ActionError>) -> Seq<char> {
    match o {
        Some(e) => "{\"code\":"@ + action_code_tok(e.code) + ",\"message\":"@ + jstr(e.message@)
            + "}"@,
        None => "null"@,
    }
}

pub open spec fn jreqerr(o: Option<RequestError>) -> Seq<char> {
    match o {
        Some(e) => "{\"code\":"@ + error_code_tok(e.code) + ",\"message\":"@ + jstr(e.message@)
            + "}"@,
        None => "null"@,
    }
}

/// The wire form of one action result.
pub open spec fn ser_result(r: ActionResult) -> Seq<char> {
    match r {
        ActionResult::Exec(x) => "{\"type\":\"exec\",\"ok\":"@ + jbool(x.ok) + ",\"exit_code\":"@
            + jopt_i32(x.exit_code) + ",\"stdout\":"@ + jstr(x.stdout@) + ",\"stdout_truncated\":"@
            + jbool(x.stdout_truncated) + ",\"stderr\":"@ + jstr(x.stderr@)
            + ",\"stderr_truncated\":"@ + jbool(x.stderr_truncated) + ",\"error\":"@ + jaerr(
            x.error,
        ) + "}"@,
        ActionResult::ReadFile(x) => "{\"type\":\"read_file\",\"ok\":"@ + jbool(x.ok)
            + ",\"content_base64\":"@ + jopt_str(x.content_base64) + ",\"truncated\":"@ + jbool(
            x.truncated,
        ) + ",\"error\":"@ + jaerr(x.error) + "}"@,
        ActionResult::WriteFile(x) => "{\"type\":\"write_file\",\"ok\":"@ + jbool(x.ok)
            + ",\"artifacts\":"@ + jstr_arr(x.artifacts@) + ",\"error\":"@ + jaerr(x.error) + "}"@,
        ActionResult::ServiceControl(x) => "{\"type\":\"service_control\",\"ok\":"@ + jbool(x.ok)
            + ",\"argv\":"@ + jstr_arr(x.argv@) + ",\"error\":"@ + jaerr(x.error) + "}"@,
        ActionResult::InstallPackages(x) => "{\"type\":\"install_packages\",\"ok\":"@ + jbool(x.ok)
            + ",\"argv\":"@ + jstr_arr(x.argv@) + ",\"error\":"@ + jaerr(x.error) + "}"@,
        ActionResult::RemovePackages(x) => "{\"type\":\"remove_packages\",\"ok\":"@ + jbool(x.ok)
            + ",\"argv\":"@ + jstr_arr(x.argv@) + ",\"error\":"@ + jaerr(x.error) + "}"@,
        ActionResult::UpdateSystem(x) => "{\"type\":\"update_system\",\"ok\":"@ + jbool(x.ok)
            + ",\"argv\":"@ + jstr_arr(x.argv@) + ",\"error\":"@ + jaerr(x.error) + "}"@,
        ActionResult::Observe(x) => "{\"type\":\"observe\",\"ok\":"@ + jbool(x.ok) + ",\"argv\":"@
            + jstr_arr(x.argv@) + ",\"error\":"@ + jaerr(x.error) + "}"@,
        ActionResult::CgroupApply(x) => "{\"type\":\"cgroup_apply\",\"ok\":"@ + jbool(x.ok)
            + ",\"argv\":"@ + jstr_arr(x.argv@) + ",\"error\":"@ + jaerr(x.error) + "}"@,
        ActionResult::FirmwareOp(x) => "{\"type\":\"firmware_op\",\"ok\":"@ + jbool(x.ok)
            + ",\"argv\":"@ + jstr_arr(x.argv@) + ",\"error\":"@ + jaerr(x.error) + "}"@,
        ActionResult::Pong(x) => "{\"type\":\"pong\",\"ok\":"@ + jbool(x.ok) + "}"@,
    }
}

pub open spec fn ser_results_body(s: Seq<ActionResult>) -> Seq<char>
    decreases s.len(),
{
    if s.len() == 0 {
        Seq::empty()
    } else if s.len() == 1 {
        ser_result(s[0])
    } else {
        ser_result(s[0]) + seq![','] + ser_results_body(s.drop_first())
    }
}

/// The wire form of a whole response.
pub open spec fn ser_plan_result(r: ActionPlanResult) -> Seq<char> {
    "{\"request_id\":"@ + jstr(r.request_id@) + ",\"executed\":"@ + jbool(r.executed)
        + ",\"results\":["@ + ser_results_body(r.results@) + "],\"error\":"@ + jreqerr(r.error)
        + "}"@
}

proof fn lemma_esc_push(t: Seq<char>, c: char)
    ensures
        esc(t.push(c)) == esc(t) + esc_char(c),
    decreases t.len(),
{
    if t.len() == 0 {
        assert(t.push(c)[0] == c);
        assert(t.push(c).drop_first() =~= Seq::<char>::empty());
        assert(esc(t.push(c)) == esc_char(c) + esc(Seq::<char>::empty()));
        assert(esc_char(c) + Seq::<char>::empty() =~= esc_char(c));
        assert(esc(t) + esc_char(c) =~= esc_char(c));
    } else {
        assert(t.push(c).drop_first() =~= t.drop_first().push(c));
        lemma_esc_push(t.drop_first(), c);
        assert(esc(t.push(c)) == esc_char(t[0]) + (esc(t.drop_first()) + esc_char(c)));
        assert(esc_char(t[0]) + (esc(t.drop_first()) + esc_char(c)) =~= (esc_char(t[0]) + esc(
            t.drop_first(),
        )) + esc_char(c));
    }
}

/// Appends a literal to the output.
pub fn emit_lit(out: &mut Vec<char>, lit: &str)
    ensures
        final(out)@ == old(out)@ + lit@,
{
    let mut v = str_to_chars(lit);
    out.append(&mut v);
}

fn hex_digit_char(d: u32) -> (c: char)
    requires
        d < 16,
    ensures
        c == hex_digit(d as nat),
{
    if d == 0 {
        '0'
    } else if d == 1 {
        '1'
    } else if d == 2 {
        '2'
    } else if d == 3 {
        '3'
    } else if d == 4 {
        '4'
    } else if d == 5 {
        '5'
    } else if d == 6 {
        '6'
    } else if d == 7 {
        '7'
    } else if d == 8 {
        '8'
    } else if d == 9 {
        '9'
    } else if d == 10 {
        'a'
    } else if d == 11 {
        'b'
    } else if d == 12 {
        'c'
    } else if d == 13 {
        'd'
    } else if d == 14 {
        'e'
    } else {
        'f'
    }
}

/// Appends a quoted, escaped JSON string token for `s`.
pub fn emit_jstr(out: &mut Vec<char>, text: &str)
    ensures
        final(out)@ == old(out)@ + jstr(text@),
{
    let ghost base = out@;
    out.push('"');
    let v = str_to_chars(text);
    let n = v.len();
    let mut i: usize = 0;
    proof {
        assert(text@.take(0) =~= Seq::<char>::empty());
        assert(out@ =~= base + seq!['"'] + esc(text@.take(0)));
    }
    while i < n
        invariant
            n == v.len(),
            v@ == text@,
            i <= n,
            out@ == base + seq!['"'] + esc(text@.take(i as int)),
        decreases n - i,
    {
        let ghost out0 = out@;
        let c = v[i];
        let u = c as u32;
        if c == '"' {
            out.push('\\');
            out.push('"');
        } else if c == '\\' {
            out.push('\\');
            out.push('\\');
        } else if c == '\u{8}' {
            out.push('\\');
            out.push('b');
        } else if c == '\u{c}' {
            out.push('\\');
            out.push('f');
        } else if c == '\n' {
            out.push('\\');
            out.push('n');
        } else if c == '\r' {
            out.push('\\');
            out.push('r');
        } else if c == '\t' {
            out.push('\\');
            out.push('t');
        } else if u < 0x20 {
            out.push('\\');
            out.push('u');
            out.push('0');
            out.push('0');
            out.push(hex_digit_char(u / 16));
            out.push(hex_digit_char(u % 16));
        } else {
            out.push(c);
        }
        proof {
            assert(out@ =~= out0 + esc_char(text@[i as int]));
            assert(text@.take(i + 1) =~= text@.take(i as int).push(text@[i as int]));
            lemma_esc_push(text@.take(i as int), text@[i as int]);
            assert(out@ =~= base + seq!['"'] + esc(text@.take(i + 1)));
        }
        i += 1;
    }
    out.push('"');
    proof {
        assert(text@.take(n as int) =~= text@);
        assert(out@ =~= base + jstr(text@));
    }
}

/// Appends the decimal form of `n`.
pub fn emit_u64(out: &mut Vec<char>, n: u64)
    ensures
        final(out)@ == old(out)@ + spec_dec(n as nat),
{
    let mut v = u64_dec_chars(n);
    out.append(&mut v);
}

/// Appends the decimal form of a signed value.
pub fn emit_i32(out: &mut Vec<char>, n: i32)
    ensures
        final(out)@ == old(out)@ + spec_dec_int(n as int),
{
    let mut v = i32_dec_chars(n);
    out.append(&mut v);
}

/// Appends `true` or `false`.
pub fn emit_bool(out: &mut Vec<char>, b: bool)
    ensures
        final(out)@ == old(out)@ + jbool(b),
{
    if b {
        emit_lit(out, "true");
    } else {
        emit_lit(out, "false");
    }
}

/// Appends a string token or `null`.
pub fn emit_opt_str(out: &mut Vec<char>, o: &Option<String>)
    ensures
        final(out)@ == old(out)@ + jopt_str(*o),
{
    match o {
        Some(s) => emit_jstr(out, s.as_str()),
        None => emit_lit(out, "null"),
    }
}

/// Appends a JSON array of string tokens.
pub fn emit_str_arr(out: &mut Vec<char>, v: &Vec<String>)
    ensures
        final(out)@ == old(out)@ + jstr_arr(v@),
{
    let ghost base = out@;
    out.push('[');
    let n = v.len();
    let mut i: usize = 0;
    proof {
        assert(out@ =~= base + seq!['['] + ser_str_prefix(v@, 0));
    }
    while i < n
        invariant
            n == v@.len(),
            i <= n,
            out@ == base + seq!['['] + ser_str_prefix(v@, i as int),
        decreases n - i,
    {
        let ghost out0 = out@;
        if i > 0 {
            out.push(',');
            emit_jstr(out, v[i].as_str());
            proof {
                assert(out@ =~= out0 + seq![','] + jstr(v@[i as int]@));
                lemma_str_prefix_step(v@, i as int);
                assert(out@ =~= base + seq!['['] + ser_str_prefix(v@, i + 1));
            }
        } else {
            emit_jstr(out, v[i].as_str());
            proof {
                assert(out@ =~= out0 + jstr(v@[i as int]@));
                lemma_str_prefix_step(v@, i as int);
                assert(out@ =~= base + seq!['['] + ser_str_prefix(v@, i + 1));
            }
        }
        i += 1;
    }
    out.push(']');
    proof {
        lemma_str_prefix_full(v@);
        assert(out@ =~= base + jstr_arr(v@));
    }
}

/// The comma-joined first `i` string tokens of the array body.
pub open spec fn ser_str_prefix(v: Seq<String>, i: int) -> Seq<char>
    decreases i,
{
    if i <= 0 {
        Seq::empty()
    } else if i == 1 {
        jstr(v[0]@)
    } else {
        ser_str_prefix(v, i - 1) + seq![','] + jstr(v[i - 1]@)
    }
}

proof fn lemma_str_prefix_step(v: Seq<String>, i: int)
    requires
        0 <= i < v.len(),
    ensures
        i == 0 ==> ser_str_prefix(v, 1) == jstr(v[0]@),
        i > 0 ==> ser_str_prefix(v, i + 1) == ser_str_prefix(v, i) + seq![','] + jstr(v[i]@),
{
}

proof fn lemma_str_prefix_full(v: Seq<String>)
    ensures
        ser_str_prefix(v, v.len() as int) == jstr_arr_body(v),
    decreases v.len(),
{
    if v.len() <= 1 {
    } else {
        lemma_str_prefix_full(v.drop_first());
        lemma_str_prefix_shift(v, v.len() as int);
        assert(jstr_arr_body(v) == jstr(v[0]@) + seq![','] + jstr_arr_body(v.drop_first()));
    }
}

proof fn lemma_str_prefix_shift(v: Seq<String>, i: int)
    requires
        1 <= i <= v.len(),
        v.len() >= 2,
    ensures
        ser_str_prefix(v, i) == if i == 1 {
            jstr(v[0]@)
        } else {
            jstr(v[0]@) + seq![','] + ser_str_prefix(v.drop_first(), i - 1)
        },
    decreases i,
{
    if i <= 2 {
        assert(v.drop_first()[0] == v[1]);
        assert(ser_str_prefix(v, 1) == jstr(v[0]@));
        assert(ser_str_prefix(v.drop_first(), 1) == jstr(v.drop_first()[0]@));
        if i == 2 {
            assert(ser_str_prefix(v, 2) == ser_str_prefix(v, 1) + seq![','] + jstr(v[1]@));
        }
    } else {
        lemma_str_prefix_shift(v, i - 1);
        assert(v.drop_first()[i - 2] == v[i - 1]);
        assert((jstr(v[0]@) + seq![','] + ser_str_prefix(v.drop_first(), i - 2)) + seq![','] + jstr(
            v[i - 1]@,
        ) =~= jstr(v[0]@) + seq![','] + (ser_str_prefix(v.drop_first(), i - 2) + seq![','] + jstr(
            v.drop_first()[i - 2]@,
        )));
    }
}


/// Appends a decimal token or `null`.
pub fn emit_opt_u64(out: &mut Vec<char>, o: &Option<u64>)
    ensures
        final(out)@ == old(out)@ + jopt_u64(*o),
{
    match o {
        Some(n) => emit_u64(out, *n),
        None => emit_lit(out, "null"),
    }
}

/// Appends a decimal token or `null`.
pub fn emit_opt_u32(out: &mut Vec<char>, o: &Option<u32>)
    ensures
        final(out)@ == old(out)@ + jopt_u32(*o),
{
    match o {
        Some(n) => emit_u64(out, *n as u64),
        None => emit_lit(out, "null"),
    }
}

/// Appends a decimal token or `null`.
pub fn emit_opt_i32(out: &mut Vec<char>, o: &Option<i32>)
    ensures
        final(out)@ == old(out)@ + jopt_i32(*o),
{
    match o {
        Some(n) => emit_i32(out, *n),
        None => emit_lit(out, "null"),
    }
}

pub open spec fn env_pairs(m: EnvMap) -> Seq<(Seq<char>, Seq<char>)> {
    m.entries@.map_values(|e: crate::types::EnvEntry| (e.key@, e.value@))
}

pub open spec fn ser_env_prefix(es: Seq<(Seq<char>, Seq<char>)>, i: int) -> Seq<char>
    decreases i,
{
    if i <= 0 {
        Seq::empty()
    } else if i == 1 {
        jstr(es[0].0) + seq![':'] + jstr(es[0].1)
    } else {
        ser_env_prefix(es, i - 1) + seq![','] + jstr(es[i - 1].0) + seq![':'] + jstr(es[i - 1].1)
    }
}

proof fn lemma_env_prefix_full(es: Seq<(Seq<char>, Seq<char>)>)
    ensures
        ser_env_prefix(es, es.len() as int) == jenv_body(es),
    decreases es.len(),
{
    if es.len() <= 1 {
    } else {
        lemma_env_prefix_full(es.drop_first());
        lemma_env_prefix_shift(es, es.len() as int);
    }
}

proof fn lemma_env_prefix_shift(es: Seq<(Seq<char>, Seq<char>)>, i: int)
    requires
        1 <= i <= es.len(),
        es.len() >= 2,
    ensures
        ser_env_prefix(es, i) == if i == 1 {
            jstr(es[0].0) + seq![':'] + jstr(es[0].1)
        } else {
            jstr(es[0].0) + seq![':'] + jstr(es[0].1) + seq![','] + ser_env_prefix(
                es.drop_first(),
                i - 1,
            )
        },
    decreases i,
{
    if i <= 2 {
        assert(es.drop_first()[0] == es[1]);
        assert(ser_env_prefix(es, 1) == jstr(es[0].0) + seq![':'] + jstr(es[0].1));
        assert(ser_env_prefix(es.drop_first(), 1) == jstr(es.drop_first()[0].0) + seq![':'] + jstr(
            es.drop_first()[0].1,
        ));
        if i == 2 {
            assert(ser_env_prefix(es, 2) == ser_env_prefix(es, 1) + seq![','] + jstr(es[1].0)
                + seq![':'] + jstr(es[1].1));
            assert((jstr(es[0].0) + seq![':'] + jstr(es[0].1)) + seq![','] + jstr(es[1].0)
                + seq![':'] + jstr(es[1].1) =~= jstr(es[0].0) + seq![':'] + jstr(es[0].1)
                + seq![','] + (jstr(es.drop_first()[0].0) + seq![':'] + jstr(
                es.drop_first()[0].1,
            )));
        }
    } else {
        lemma_env_prefix_shift(es, i - 1);
        assert(es.drop_first()[i - 2] == es[i - 1]);
        assert((jstr(es[0].0) + seq![':'] + jstr(es[0].1) + seq![','] + ser_env_prefix(
            es.drop_first(),
            i - 2,
        )) + seq![','] + jstr(es[i - 1].0) + seq![':'] + jstr(es[i - 1].1) =~= jstr(es[0].0)
            + seq![':'] + jstr(es[0].1) + seq![','] + (ser_env_prefix(es.drop_first(), i - 2)
            + seq![','] + jstr(es.drop_first()[i - 2].0) + seq![':'] + jstr(
            es.drop_first()[i - 2].1,
        )));
    }
}

/// Appends the environment object, keys in stored order.
pub fn emit_env(out: &mut Vec<char>, m: &EnvMap)
    ensures
        final(out)@ == old(out)@ + jenv(*m),
{
    let ghost base = out@;
    let ghost es = env_pairs(*m);
    out.push('{');
    let n = m.entries.len();
    let mut i: usize = 0;
    proof {
        assert(out@ =~= base + seq!['{'] + ser_env_prefix(es, 0));
    }
    while i < n
        invariant
            n == m.entries@.len(),
            es == env_pairs(*m),
            es.len() == n,
            i <= n,
            out@ == base + seq!['{'] + ser_env_prefix(es, i as int),
        decreases n - i,
    {
        let ghost out0 = out@;
        proof {
            assert(es[i as int] == (m.entries@[i as int].key@, m.entries@[i as int].value@));
        }
        if i > 0 {
            out.push(',');
        }
        emit_jstr(out, m.entries[i].key.as_str());
        out.push(':');
        emit_jstr(out, m.entries[i].value.as_str());
        proof {
            if i > 0 {
                assert(out@ =~= out0 + seq![','] + jstr(es[i as int].0) + seq![':'] + jstr(
                    es[i as int].1,
                ));
                assert(out@ =~= base + seq!['{'] + ser_env_prefix(es, i + 1));
            } else {
                assert(out@ =~= out0 + jstr(es[0].0) + seq![':'] + jstr(es[0].1));
                assert(out@ =~= base + seq!['{'] + ser_env_prefix(es, 1));
            }
        }
        i += 1;
    }
    out.push('}');
    proof {
        lemma_env_prefix_full(es);
        assert(out@ =~= base + jenv(*m));
    }
}

/// Appends the environment object or `null`.
pub fn emit_opt_env(out: &mut Vec<char>, o: &Option<EnvMap>)
    ensures
        final(out)@ == old(out)@ + jopt_env(*o),
{
    match o {
        Some(m) => emit_env(out, m),
        None => emit_lit(out, "null"),
    }
}

/// Appends the confirmation object or `null`.
pub fn emit_conf(out: &mut Vec<char>, o: &Option<Confirmation>)
    ensures
        final(out)@ == old(out)@ + jconf(*o),
{
    match o {
        Some(c) => {
            let ghost base = out@;
            emit_lit(out, "{\"token\":");
            emit_jstr(out, c.token.as_str());
            emit_lit(out, "}");
            proof {
                assert(out@ =~= base + ("{\"token\":"@ + jstr(c.token@) + "}"@));
            }
        },
        None => emit_lit(out, "null"),
    }
}

/// Appends the shared trailing fields of an action.
fn emit_action_tail(out: &mut Vec<char>, reason: &str, danger: &Option<String>, recovery: &Option<
    String,
>)
    ensures
        final(out)@ == old(out)@ + (",\"reason\":"@ + jstr(reason@) + ",\"danger\":"@ + jopt_str(
            *danger,
        ) + ",\"recovery\":"@ + jopt_str(*recovery) + "}"@),
{
    let ghost base = out@;
    emit_lit(out, ",\"reason\":");
    emit_jstr(out, reason);
    proof {
        assert(out@ =~= base + (",\"reason\":"@ + jstr(reason@)));
    }
    emit_lit(out, ",\"danger\":");
    proof {
        assert(out@ =~= base + (",\"reason\":"@ + jstr(reason@) + ",\"danger\":"@));
    }
    emit_opt_str(out, danger);
    proof {
        assert(out@ =~= base + (",\"reason\":"@ + jstr(reason@) + ",\"danger\":"@ + jopt_str(
            *danger,
        )));
    }
    emit_lit(out, ",\"recovery\":");
    proof {
        assert(out@ =~= base + (",\"reason\":"@ + jstr(reason@) + ",\"danger\":"@ + jopt_str(
            *danger,
        ) + ",\"recovery\":"@));
    }
    emit_opt_str(out, recovery);
    proof {
        assert(out@ =~= base + (",\"reason\":"@ + jstr(reason@) + ",\"danger\":"@ + jopt_str(
            *danger,
        ) + ",\"recovery\":"@ + jopt_str(*recovery)));
    }
    emit_lit(out, "}");
    proof {
        assert(out@ =~= base + (",\"reason\":"@ + jstr(reason@) + ",\"danger\":"@ + jopt_str(
            *danger,
        ) + ",\"recovery\":"@ + jopt_str(*recovery) + "}"@));
    }
}


/// Appends the wire form of one action.
pub fn emit_action(out: &mut Vec<char>, a: &Action)
    ensures
        final(out)@ == old(out)@ + ser_action(*a),
{
    match a {
        Action::Exec(e) => emit_exec_action(out, e),
        Action::ReadFile(rf) => emit_read_file_action(out, rf),
        Action::WriteFile(wf) => emit_write_file_action(out, wf),
        Action::ServiceControl(sc) => emit_service_control_action(out, sc),
        Action::InstallPackages(ip) => emit_install_packages_action(out, ip),
        Action::RemovePackages(rp) => emit_remove_packages_action(out, rp),
        Action::UpdateSystem(us) => emit_update_system_action(out, us),
        Action::Observe(ob) => emit_observe_action(out, ob),
        Action::CgroupApply(cg) => emit_cgroup_apply_action(out, cg),
        Action::FirmwareOp(fw) => emit_firmware_op_action(out, fw),
        Action::Ping => emit_lit(out, "{\"type\":\"ping\"}"),
    }
}

fn emit_exec_action(out: &mut Vec<char>, e: &crate::types::ExecAction)
    ensures
        final(out)@ == old(out)@ + ser_action(Action::Exec(*e)),
{
    let ghost base = out@;
        emit_lit(out, "{\"type\":\"exec\",\"argv\":");
        emit_str_arr(out, &e.argv);
        proof {
            assert(out@ =~= base + ("{\"type\":\"exec\",\"argv\":"@ + jstr_arr(e.argv@)));
        }
        emit_lit(out, ",\"cwd\":");
        proof {
            assert(out@ =~= base + ("{\"type\":\"exec\",\"argv\":"@ + jstr_arr(e.argv@)
                + ",\"cwd\":"@));
        }
        emit_opt_str(out, &e.cwd);
        proof {
            assert(out@ =~= base + ("{\"type\":\"exec\",\"argv\":"@ + jstr_arr(e.argv@)
                + ",\"cwd\":"@ + jopt_str(e.cwd)));
        }
        emit_lit(out, ",\"env\":");
        proof {
            assert(out@ =~= base + ("{\"type\":\"exec\",\"argv\":"@ + jstr_arr(e.argv@)
                + ",\"cwd\":"@ + jopt_str(e.cwd) + ",\"env\":"@));
        }
        emit_opt_env(out, &e.env);
        proof {
            assert(out@ =~= base + ("{\"type\":\"exec\",\"argv\":"@ + jstr_arr(e.argv@)
                + ",\"cwd\":"@ + jopt_str(e.cwd) + ",\"env\":"@ + jopt_env(e.env)));
        }
        emit_lit(out, ",\"timeout_sec\":");
        proof {
            assert(out@ =~= base + ("{\"type\":\"exec\",\"argv\":"@ + jstr_arr(e.argv@)
                + ",\"cwd\":"@ + jopt_str(e.cwd) + ",\"env\":"@ + jopt_env(e.env)
                + ",\"timeout_sec\":"@));
        }
        emit_u64(out, e.timeout_sec);
        proof {
            assert(out@ =~= base + ("{\"type\":\"exec\",\"argv\":"@ + jstr_arr(e.argv@)
                + ",\"cwd\":"@ + jopt_str(e.cwd) + ",\"env\":"@ + jopt_env(e.env)
                + ",\"timeout_sec\":"@ + spec_dec(e.timeout_sec as nat)));
        }
        emit_lit(out, ",\"as_root\":");
        proof {
            assert(out@ =~= base + ("{\"type\":\"exec\",\"argv\":"@ + jstr_arr(e.argv@)
                + ",\"cwd\":"@ + jopt_str(e.cwd) + ",\"env\":"@ + jopt_env(e.env)
                + ",\"timeout_sec\":"@ + spec_dec(e.timeout_sec as nat) + ",\"as_root\":"@));
        }
        emit_bool(out, e.as_root);
        proof {
            assert(out@ =~= base + ("{\"type\":\"exec\",\"argv\":"@ + jstr_arr(e.argv@)
                + ",\"cwd\":"@ + jopt_str(e.cwd) + ",\"env\":"@ + jopt_env(e.env)
                + ",\"timeout_sec\":"@ + spec_dec(e.timeout_sec as nat) + ",\"as_root\":"@
                + jbool(e.as_root)));
        }
        emit_action_tail(out, e.reason.as_str(), &e.danger, &e.recovery);
        proof {
            assert(out@ =~= base + ser_action(Action::Exec(*e)));
        }
    
}

fn emit_read_file_action(out: &mut Vec<char>, rf: &crate::types::ReadFileAction)
    ensures
        final(out)@ == old(out)@ + ser_action(Action::ReadFile(*rf)),
{
    let ghost base = out@;
        emit_lit(out, "{\"type\":\"read_file\",\"path\":");
        emit_jstr(out, rf.path.as_str());
        proof {
            assert(out@ =~= base + ("{\"type\":\"read_file\",\"path\":"@ + jstr(rf.path@)));
        }
        emit_lit(out, ",\"max_bytes\":");
        proof {
            assert(out@ =~= base + ("{\"type\":\"read_file\",\"path\":"@ + jstr(rf.path@)
                + ",\"max_bytes\":"@));
        }
        emit_u64(out, rf.max_bytes);
        proof {
            assert(out@ =~= base + ("{\"type\":\"read_file\",\"path\":"@ + jstr(rf.path@)
                + ",\"max_bytes\":"@ + spec_dec(rf.max_bytes as nat)));
        }
        emit_action_tail(out, rf.reason.as_str(), &rf.danger, &rf.recovery);
        proof {
            assert(out@ =~= base + ser_action(Action::ReadFile(*rf)));
        }
    
}

fn emit_write_file_action(out: &mut Vec<char>, wf: &crate::types::WriteFileAction)
    ensures
        final(out)@ == old(out)@ + ser_action(Action::WriteFile(*wf)),
{
    let ghost base = out@;
        emit_lit(out, "{\"type\":\"write_file\",\"path\":");
        emit_jstr(out, wf.path.as_str());
        proof {
            assert(out@ =~= base + ("{\"type\":\"write_file\",\"path\":"@ + jstr(wf.path@)));
        }
        emit_lit(out, ",\"content\":");
        proof {
            assert(out@ =~= base + ("{\"type\":\"write_file\",\"path\":"@ + jstr(wf.path@)
                + ",\"content\":"@));
        }
        emit_jstr(out, wf.content.as_str());
        proof {
            assert(out@ =~= base + ("{\"type\":\"write_file\",\"path\":"@ + jstr(wf.path@)
                + ",\"content\":"@ + jstr(wf.content@)));
        }
        emit_lit(out, ",\"mode\":");
        proof {
            assert(out@ =~= base + ("{\"type\":\"write_file\",\"path\":"@ + jstr(wf.path@)
                + ",\"content\":"@ + jstr(wf.content@) + ",\"mode\":"@));
        }
        emit_jstr(out, wf.mode.as_str());
        proof {
            assert(out@ =~= base + ("{\"type\":\"write_file\",\"path\":"@ + jstr(wf.path@)
                + ",\"content\":"@ + jstr(wf.content@) + ",\"mode\":"@ + jstr(wf.mode@)));
        }
        emit_action_tail(out, wf.reason.as_str(), &wf.danger, &wf.recovery);
        proof {
            assert(out@ =~= base + ser_action(Action::WriteFile(*wf)));
        }
    
}

fn emit_service_control_action(out: &mut Vec<char>, sc: &crate::types::ServiceControlAction)
    ensures
        final(out)@ == old(out)@ + ser_action(Action::ServiceControl(*sc)),
{
    let ghost base = out@;
        emit_lit(out, "{\"type\":\"service_control\",\"action\":");
        match sc.action {
            ServiceControlVerb::Start => emit_lit(out, "\"start\""),
            ServiceControlVerb::Stop => emit_lit(out, "\"stop\""),
            ServiceControlVerb::Restart => emit_lit(out, "\"restart\""),
            ServiceControlVerb::Enable => emit_lit(out, "\"enable\""),
            ServiceControlVerb::Disable => emit_lit(out, "\"disable\""),
            ServiceControlVerb::Status => emit_lit(out, "\"status\""),
        }
        proof {
            assert(out@ =~= base + ("{\"type\":\"service_control\",\"action\":"@ + verb_tok(
                sc.action,
            )));
        }
        emit_lit(out, ",\"unit\":");
        proof {
            assert(out@ =~= base + ("{\"type\":\"service_control\",\"action\":"@ + verb_tok(
                sc.action,
            ) + ",\"unit\":"@));
        }
        emit_jstr(out, sc.unit.as_str());
        proof {
            assert(out@ =~= base + ("{\"type\":\"service_control\",\"action\":"@ + verb_tok(
                sc.action,
            ) + ",\"unit\":"@ + jstr(sc.unit@)));
        }
        emit_action_tail(out, sc.reason.as_str(), &sc.danger, &sc.recovery);
        proof {
            assert(out@ =~= base + ser_action(Action::ServiceControl(*sc)));
        }
    
}

fn emit_install_packages_action(out: &mut Vec<char>, ip: &crate::types::InstallPackagesAction)
    ensures
        final(out)@ == old(out)@ + ser_action(Action::InstallPackages(*ip)),
{
    let ghost base = out@;
        emit_lit(out, "{\"type\":\"install_packages\",\"manager\":");
        emit_manager(out, ip.manager);
        proof {
            assert(out@ =~= base + ("{\"type\":\"install_packages\",\"manager\":"@
                + manager_chars(ip.manager)));
        }
        emit_lit(out, ",\"packages\":");
        proof {
            assert(out@ =~= base + ("{\"type\":\"install_packages\",\"manager\":"@
                + manager_chars(ip.manager) + ",\"packages\":"@));
        }
        emit_str_arr(out, &ip.packages);
        proof {
            assert(out@ =~= base + ("{\"type\":\"install_packages\",\"manager\":"@
                + manager_chars(ip.manager) + ",\"packages\":"@ + jstr_arr(ip.packages@)));
        }
        emit_action_tail(out, ip.reason.as_str(), &ip.danger, &ip.recovery);
        proof {
            assert(out@ =~= base + ser_action(Action::InstallPackages(*ip)));
        }
    
}

fn emit_remove_packages_action(out: &mut Vec<char>, rp: &crate::types::RemovePackagesAction)
    ensures
        final(out)@ == old(out)@ + ser_action(Action::RemovePackages(*rp)),
{
    let ghost base = out@;
        emit_lit(out, "{\"type\":\"remove_packages\",\"manager\":");
        emit_manager(out, rp.manager);
        proof {
            assert(out@ =~= base + ("{\"type\":\"remove_packages\",\"manager\":"@
                + manager_chars(rp.manager)));
        }
        emit_lit(out, ",\"packages\":");
        proof {
            assert(out@ =~= base + ("{\"type\":\"remove_packages\",\"manager\":"@
                + manager_chars(rp.manager) + ",\"packages\":"@));
        }
        emit_str_arr(out, &rp.packages);
        proof {
            assert(out@ =~= base + ("{\"type\":\"remove_packages\",\"manager\":"@
                + manager_chars(rp.manager) + ",\"packages\":"@ + jstr_arr(rp.packages@)));
        }
        emit_action_tail(out, rp.reason.as_str(), &rp.danger, &rp.recovery);
        proof {
            assert(out@ =~= base + ser_action(Action::RemovePackages(*rp)));
        }
    
}

fn emit_update_system_action(out: &mut Vec<char>, us: &crate::types::UpdateSystemAction)
    ensures
        final(out)@ == old(out)@ + ser_action(Action::UpdateSystem(*us)),
{
    let ghost base = out@;
        emit_lit(out, "{\"type\":\"update_system\",\"manager\":");
        emit_manager(out, us.manager);
        proof {
            assert(out@ =~= base + ("{\"type\":\"update_system\",\"manager\":"@
                + manager_chars(us.manager)));
        }
        emit_action_tail(out, us.reason.as_str(), &us.danger, &us.recovery);
        proof {
            assert(out@ =~= base + ser_action(Action::UpdateSystem(*us)));
        }
    
}

fn emit_observe_action(out: &mut Vec<char>, ob: &crate::types::ObserveAction)
    ensures
        final(out)@ == old(out)@ + ser_action(Action::Observe(*ob)),
{
    let ghost base = out@;
        emit_lit(out, "{\"type\":\"observe\",\"tool\":");
        match ob.tool {
            ObserveTool::Ps => emit_lit(out, "\"ps\""),
            ObserveTool::Top => emit_lit(out, "\"top\""),
            ObserveTool::Journalctl => emit_lit(out, "\"journalctl\""),
            ObserveTool::Perf => emit_lit(out, "\"perf\""),
            ObserveTool::Bpftrace => emit_lit(out, "\"bpftrace\""),
            ObserveTool::Other => emit_lit(out, "\"other\""),
        }
        proof {
            assert(out@ =~= base + ("{\"type\":\"observe\",\"tool\":"@ + tool_tok(ob.tool)));
        }
        emit_lit(out, ",\"args\":");
        proof {
            assert(out@ =~= base + ("{\"type\":\"observe\",\"tool\":"@ + tool_tok(ob.tool)
                + ",\"args\":"@));
        }
        emit_str_arr(out, &ob.args);
        proof {
            assert(out@ =~= base + ("{\"type\":\"observe\",\"tool\":"@ + tool_tok(ob.tool)
                + ",\"args\":"@ + jstr_arr(ob.args@)));
        }
        emit_action_tail(out, ob.reason.as_str(), &ob.danger, &ob.recovery);
        proof {
            assert(out@ =~= base + ser_action(Action::Observe(*ob)));
        }
    
}

fn emit_cgroup_apply_action(out: &mut Vec<char>, cg: &crate::types::CgroupApplyAction)
    ensures
        final(out)@ == old(out)@ + ser_action(Action::CgroupApply(*cg)),
{
    let ghost base = out@;
        emit_lit(out, "{\"type\":\"cgroup_apply\",\"pid\":");
        emit_opt_u32(out, &cg.pid);
        proof {
            assert(out@ =~= base + ("{\"type\":\"cgroup_apply\",\"pid\":"@ + jopt_u32(
                cg.pid,
            )));
        }
        emit_lit(out, ",\"unit\":");
        proof {
            assert(out@ =~= base + ("{\"type\":\"cgroup_apply\",\"pid\":"@ + jopt_u32(cg.pid)
                + ",\"unit\":"@));
        }
        emit_opt_str(out, &cg.unit);
        proof {
            assert(out@ =~= base + ("{\"type\":\"cgroup_apply\",\"pid\":"@ + jopt_u32(cg.pid)
                + ",\"unit\":"@ + jopt_str(cg.unit)));
        }
        emit_lit(out, ",\"cpu_weight\":");
        proof {
            assert(out@ =~= base + ("{\"type\":\"cgroup_apply\",\"pid\":"@ + jopt_u32(cg.pid)
                + ",\"unit\":"@ + jopt_str(cg.unit) + ",\"cpu_weight\":"@));
        }
        emit_opt_u64(out, &cg.cpu_weight);
        proof {
            assert(out@ =~= base + ("{\"type\":\"cgroup_apply\",\"pid\":"@ + jopt_u32(cg.pid)
                + ",\"unit\":"@ + jopt_str(cg.unit) + ",\"cpu_weight\":"@ + jopt_u64(
                cg.cpu_weight,
            )));
        }
        emit_lit(out, ",\"mem_max_bytes\":");
        proof {
            assert(out@ =~= base + ("{\"type\":\"cgroup_apply\",\"pid\":"@ + jopt_u32(cg.pid)
                + ",\"unit\":"@ + jopt_str(cg.unit) + ",\"cpu_weight\":"@ + jopt_u64(
                cg.cpu_weight,
            ) + ",\"mem_max_bytes\":"@));
        }
        emit_opt_u64(out, &cg.mem_max_bytes);
        proof {
            assert(out@ =~= base + ("{\"type\":\"cgroup_apply\",\"pid\":"@ + jopt_u32(cg.pid)
                + ",\"unit\":"@ + jopt_str(cg.unit) + ",\"cpu_weight\":"@ + jopt_u64(
                cg.cpu_weight,
            ) + ",\"mem_max_bytes\":"@ + jopt_u64(cg.mem_max_bytes)));
        }
        emit_action_tail(out, cg.reason.as_str(), &cg.danger, &cg.recovery);
        proof {
            assert(out@ =~= base + ser_action(Action::CgroupApply(*cg)));
        }
    
}

fn emit_firmware_op_action(out: &mut Vec<char>, fw: &crate::types::FirmwareOpAction)
    ensures
        final(out)@ == old(out)@ + ser_action(Action::FirmwareOp(*fw)),
{
    let ghost base = out@;
        emit_lit(out, "{\"type\":\"firmware_op\",\"op\":");
        match fw.op {
            FirmwareOp::Inventory => emit_lit(out, "\"inventory\""),
            FirmwareOp::FwupdUpdate => emit_lit(out, "\"fwupd_update\""),
            FirmwareOp::UefiVarRead => emit_lit(out, "\"uefi_var_read\""),
        }
        proof {
            assert(out@ =~= base + ("{\"type\":\"firmware_op\",\"op\":"@ + fwop_tok(fw.op)));
        }
        emit_lit(out, ",\"uefi_var_name\":");
        proof {
            assert(out@ =~= base + ("{\"type\":\"firmware_op\",\"op\":"@ + fwop_tok(fw.op)
                + ",\"uefi_var_name\":"@));
        }
        emit_opt_str(out, &fw.uefi_var_name);
        proof {
            assert(out@ =~= base + ("{\"type\":\"firmware_op\",\"op\":"@ + fwop_tok(fw.op)
                + ",\"uefi_var_name\":"@ + jopt_str(fw.uefi_var_name)));
        }
        emit_action_tail(out, fw.reason.as_str(), &fw.danger, &fw.recovery);
        proof {
            assert(out@ =~= base + ser_action(Action::FirmwareOp(*fw)));
        }
    
}

fn emit_manager(out: &mut Vec<char>, m: PackageManager)
    ensures
        final(out)@ == old(out)@ + manager_chars(m),
{
    match m {
        PackageManager::Apt => emit_lit(out, "\"apt\""),
        PackageManager::Dnf => emit_lit(out, "\"dnf\""),
        PackageManager::Pacman => emit_lit(out, "\"pacman\""),
        PackageManager::Zypper => emit_lit(out, "\"zypper\""),
        PackageManager::Brew => emit_lit(out, "\"brew\""),
        PackageManager::Other => emit_lit(out, "\"other\""),
    }
}

pub open spec fn ser_actions_prefix(v: Seq<Action>, i: int) -> Seq<char>
    decreases i,
{
    if i <= 0 {
        Seq::empty()
    } else if i == 1 {
        ser_action(v[0])
    } else {
        ser_actions_prefix(v, i - 1) + seq![','] + ser_action(v[i - 1])
    }
}

proof fn lemma_actions_prefix_full(v: Seq<Action>)
    ensures
        ser_actions_prefix(v, v.len() as int) == ser_actions_body(v),
    decreases v.len(),
{
    if v.len() <= 1 {
    } else {
        lemma_actions_prefix_full(v.drop_first());
        lemma_actions_prefix_shift(v, v.len() as int);
    }
}

proof fn lemma_actions_prefix_shift(v: Seq<Action>, i: int)
    requires
        1 <= i <= v.len(),
        v.len() >= 2,
    ensures
        ser_actions_prefix(v, i) == if i == 1 {
            ser_action(v[0])
        } else {
            ser_action(v[0]) + seq![','] + ser_actions_prefix(v.drop_first(), i - 1)
        },
    decreases i,
{
    if i <= 2 {
        assert(v.drop_first()[0] == v[1]);
        assert(ser_actions_prefix(v, 1) == ser_action(v[0]));
        assert(ser_actions_prefix(v.drop_first(), 1) == ser_action(v.drop_first()[0]));
        if i == 2 {
            assert(ser_actions_prefix(v, 2) == ser_actions_prefix(v, 1) + seq![','] + ser_action(
                v[1],
            ));
            assert(ser_action(v[0]) + seq![','] + ser_action(v[1]) =~= ser_action(v[0])
                + seq![','] + ser_action(v.drop_first()[0]));
        }
    } else {
        lemma_actions_prefix_shift(v, i - 1);
        assert(v.drop_first()[i - 2] == v[i - 1]);
        assert((ser_action(v[0]) + seq![','] + ser_actions_prefix(v.drop_first(), i - 2))
            + seq![','] + ser_action(v[i - 1]) =~= ser_action(v[0]) + seq![','] + (
        ser_actions_prefix(v.drop_first(), i - 2) + seq![','] + ser_action(
            v.drop_first()[i - 2],
        )));
    }
}

/// Appends the wire form of a whole plan.
pub fn emit_plan(out: &mut Vec<char>, p: &ActionPlan)
    ensures
        final(out)@ == old(out)@ + ser_plan(*p),
{
    let ghost base = out@;
    emit_lit(out, "{\"request_id\":");
    emit_jstr(out, p.request_id.as_str());
    proof {
        assert(out@ =~= base + ("{\"request_id\":"@ + jstr(p.request_id@)));
    }
    emit_lit(out, ",\"session_id\":");
    proof {
        assert(out@ =~= base + ("{\"request_id\":"@ + jstr(p.request_id@) + ",\"session_id\":"@));
    }
    emit_opt_str(out, &p.session_id);
    proof {
        assert(out@ =~= base + ("{\"request_id\":"@ + jstr(p.request_id@) + ",\"session_id\":"@
            + jopt_str(p.session_id)));
    }
    emit_lit(out, ",\"version\":");
    proof {
        assert(out@ =~= base + ("{\"request_id\":"@ + jstr(p.request_id@) + ",\"session_id\":"@
            + jopt_str(p.session_id) + ",\"version\":"@));
    }
    emit_jstr(out, p.version.as_str());
    proof {
        assert(out@ =~= base + ("{\"request_id\":"@ + jstr(p.request_id@) + ",\"session_id\":"@
            + jopt_str(p.session_id) + ",\"version\":"@ + jstr(p.version@)));
    }
    emit_lit(out, ",\"mode\":");
    proof {
        assert(out@ =~= base + ("{\"request_id\":"@ + jstr(p.request_id@) + ",\"session_id\":"@
            + jopt_str(p.session_id) + ",\"version\":"@ + jstr(p.version@) + ",\"mode\":"@));
    }
    match p.mode {
        Mode::PlanOnly => emit_lit(out, "\"plan_only\""),
        Mode::Execute => emit_lit(out, "\"execute\""),
    }
    proof {
        assert(out@ =~= base + ("{\"request_id\":"@ + jstr(p.request_id@) + ",\"session_id\":"@
            + jopt_str(p.session_id) + ",\"version\":"@ + jstr(p.version@) + ",\"mode\":"@
            + mode_chars(p.mode)));
    }
    emit_lit(out, ",\"actions\":[");
    let ghost head = "{\"request_id\":"@ + jstr(p.request_id@) + ",\"session_id\":"@ + jopt_str(
        p.session_id,
    ) + ",\"version\":"@ + jstr(p.version@) + ",\"mode\":"@ + mode_chars(p.mode)
        + ",\"actions\":["@;
    proof {
        assert(out@ =~= base + head);
        assert(out@ =~= base + head + ser_actions_prefix(p.actions@, 0));
    }
    let n = p.actions.len();
    let mut i: usize = 0;
    while i < n
        invariant
            n == p.actions@.len(),
            i <= n,
            out@ == base + head + ser_actions_prefix(p.actions@, i as int),
        decreases n - i,
    {
        let ghost out0 = out@;
        if i > 0 {
            out.push(',');
        }
        emit_action(out, &p.actions[i]);
        proof {
            if i > 0 {
                assert(out@ =~= out0 + seq![','] + ser_action(p.actions@[i as int]));
            } else {
                assert(out@ =~= out0 + ser_action(p.actions@[0]));
            }
            assert(out@ =~= base + head + ser_actions_prefix(p.actions@, i + 1));
        }
        i += 1;
    }
    proof {
        lemma_actions_prefix_full(p.actions@);
    }
    emit_lit(out, "],\"confirmation\":");
    proof {
        assert(out@ =~= base + (head + ser_actions_body(p.actions@) + "],\"confirmation\":"@));
    }
    emit_conf(out, &p.confirmation);
    proof {
        assert(out@ =~= base + (head + ser_actions_body(p.actions@) + "],\"confirmation\":"@
            + jconf(p.confirmation)));
    }
    emit_lit(out, "}");
    proof {
        assert(out@ =~= base + (head + ser_actions_body(p.actions@) + "],\"confirmation\":"@
            + jconf(p.confirmation) + "}"@));
        assert(out@ =~= base + ser_plan(*p));
    }
}

/// The canonical wire form of a plan, as one string.
pub fn serialize_plan(p: &ActionPlan) -> (r: String)
    ensures
        r@ == ser_plan(*p),
{
    let mut out: Vec<char> = Vec::new();
    emit_plan(&mut out, p);
    proof {
        assert(out@ =~= ser_plan(*p));
    }
    crate::text::chars_to_string(&out)
}


/// Appends an action error object or `null`.
pub fn emit_aerr(out: &mut Vec<char>, o: &Option<ActionError>)
    ensures
        final(out)@ == old(out)@ + jaerr(*o),
{
    match o {
        Some(e) => {
            let ghost base = out@;
            emit_lit(out, "{\"code\":");
            match e.code {
                ActionErrorCode::PolicyDenied => emit_lit(out, "\"policy_denied\""),
                ActionErrorCode::ConfirmationRequired => emit_lit(out, "\"confirmation_required\""),
                ActionErrorCode::ExecFailed => emit_lit(out, "\"exec_failed\""),
                ActionErrorCode::ExecTimedOut => emit_lit(out, "\"exec_timed_out\""),
                ActionErrorCode::ReadFailed => emit_lit(out, "\"read_failed\""),
                ActionErrorCode::WriteFailed => emit_lit(out, "\"write_failed\""),
                ActionErrorCode::InvalidModeString => emit_lit(out, "\"invalid_mode_string\""),
            }
            proof {
                assert(out@ =~= base + ("{\"code\":"@ + action_code_tok(e.code)));
            }
            emit_lit(out, ",\"message\":");
            proof {
                assert(out@ =~= base + ("{\"code\":"@ + action_code_tok(e.code)
                    + ",\"message\":"@));
            }
            emit_jstr(out, e.message.as_str());
            proof {
                assert(out@ =~= base + ("{\"code\":"@ + action_code_tok(e.code) + ",\"message\":"@
                    + jstr(e.message@)));
            }
            emit_lit(out, "}");
            proof {
                assert(out@ =~= base + ("{\"code\":"@ + action_code_tok(e.code) + ",\"message\":"@
                    + jstr(e.message@) + "}"@));
            }
        },
        None => emit_lit(out, "null"),
    }
}

/// Appends a request error object or `null`.
pub fn emit_reqerr(out: &mut Vec<char>, o: &Option<RequestError>)
    ensures
        final(out)@ == old(out)@ + jreqerr(*o),
{
    match o {
        Some(e) => {
            let ghost base = out@;
            emit_lit(out, "{\"code\":");
            match e.code {
                ErrorCode::ParseFailed => emit_lit(out, "\"parse_failed\""),
                ErrorCode::ValidationFailed => emit_lit(out, "\"validation_failed\""),
                ErrorCode::InvalidMode => emit_lit(out, "\"invalid_mode\""),
                ErrorCode::RequestTooLarge => emit_lit(out, "\"request_too_large\""),
            }
            proof {
                assert(out@ =~= base + ("{\"code\":"@ + error_code_tok(e.code)));
            }
            emit_lit(out, ",\"message\":");
            proof {
                assert(out@ =~= base + ("{\"code\":"@ + error_code_tok(e.code) + ",\"message\":"@));
            }
            emit_jstr(out, e.message.as_str());
            proof {
                assert(out@ =~= base + ("{\"code\":"@ + error_code_tok(e.code) + ",\"message\":"@
                    + jstr(e.message@)));
            }
            emit_lit(out, "}");
            proof {
                assert(out@ =~= base + ("{\"code\":"@ + error_code_tok(e.code) + ",\"message\":"@
                    + jstr(e.message@) + "}"@));
            }
        },
        None => emit_lit(out, "null"),
    }
}

fn emit_argv_result(out: &mut Vec<char>, lead: &str, ok: bool, argv: &Vec<String>, error: &Option<
    ActionError,
>)
    ensures
        final(out)@ == old(out)@ + (lead@ + jbool(ok) + ",\"argv\":"@ + jstr_arr(argv@)
            + ",\"error\":"@ + jaerr(*error) + "}"@),
{
    let ghost base = out@;
    emit_lit(out, lead);
    emit_bool(out, ok);
    proof {
        assert(out@ =~= base + (lead@ + jbool(ok)));
    }
    emit_lit(out, ",\"argv\":");
    proof {
        assert(out@ =~= base + (lead@ + jbool(ok) + ",\"argv\":"@));
    }
    emit_str_arr(out, argv);
    proof {
        assert(out@ =~= base + (lead@ + jbool(ok) + ",\"argv\":"@ + jstr_arr(argv@)));
    }
    emit_lit(out, ",\"error\":");
    proof {
        assert(out@ =~= base + (lead@ + jbool(ok) + ",\"argv\":"@ + jstr_arr(argv@)
            + ",\"error\":"@));
    }
    emit_aerr(out, error);
    proof {
        assert(out@ =~= base + (lead@ + jbool(ok) + ",\"argv\":"@ + jstr_arr(argv@)
            + ",\"error\":"@ + jaerr(*error)));
    }
    emit_lit(out, "}");
    proof {
        assert(out@ =~= base + (lead@ + jbool(ok) + ",\"argv\":"@ + jstr_arr(argv@)
            + ",\"error\":"@ + jaerr(*error) + "}"@));
    }
}

#[verifier::rlimit(50)]
fn emit_exec_result(out: &mut Vec<char>, x: &crate::types::ExecResult)
    ensures
        final(out)@ == old(out)@ + ser_result(ActionResult::Exec(*x)),
{
    let ghost base = out@;
    emit_lit(out, "{\"type\":\"exec\",\"ok\":");
    emit_bool(out, x.ok);
    proof {
        assert(out@ =~= base + ("{\"type\":\"exec\",\"ok\":"@ + jbool(x.ok)));
    }
    emit_lit(out, ",\"exit_code\":");
    proof {
        assert(out@ =~= base + ("{\"type\":\"exec\",\"ok\":"@ + jbool(x.ok) + ",\"exit_code\":"@));
    }
    emit_opt_i32(out, &x.exit_code);
    proof {
        assert(out@ =~= base + ("{\"type\":\"exec\",\"ok\":"@ + jbool(x.ok) + ",\"exit_code\":"@
            + jopt_i32(x.exit_code)));
    }
    emit_lit(out, ",\"stdout\":");
    proof {
        assert(out@ =~= base + ("{\"type\":\"exec\",\"ok\":"@ + jbool(x.ok) + ",\"exit_code\":"@
            + jopt_i32(x.exit_code) + ",\"stdout\":"@));
    }
    emit_jstr(out, x.stdout.as_str());
    proof {
        assert(out@ =~= base + ("{\"type\":\"exec\",\"ok\":"@ + jbool(x.ok) + ",\"exit_code\":"@
            + jopt_i32(x.exit_code) + ",\"stdout\":"@ + jstr(x.stdout@)));
    }
    emit_lit(out, ",\"stdout_truncated\":");
    proof {
        assert(out@ =~= base + ("{\"type\":\"exec\",\"ok\":"@ + jbool(x.ok) + ",\"exit_code\":"@
            + jopt_i32(x.exit_code) + ",\"stdout\":"@ + jstr(x.stdout@)
            + ",\"stdout_truncated\":"@));
    }
    emit_bool(out, x.stdout_truncated);
    proof {
        assert(out@ =~= base + ("{\"type\":\"exec\",\"ok\":"@ + jbool(x.ok) + ",\"exit_code\":"@
            + jopt_i32(x.exit_code) + ",\"stdout\":"@ + jstr(x.stdout@)
            + ",\"stdout_truncated\":"@ + jbool(x.stdout_truncated)));
    }
    emit_lit(out, ",\"stderr\":");
    proof {
        assert(out@ =~= base + ("{\"type\":\"exec\",\"ok\":"@ + jbool(x.ok) + ",\"exit_code\":"@
            + jopt_i32(x.exit_code) + ",\"stdout\":"@ + jstr(x.stdout@)
            + ",\"stdout_truncated\":"@ + jbool(x.stdout_truncated) + ",\"stderr\":"@));
    }
    emit_jstr(out, x.stderr.as_str());
    proof {
        assert(out@ =~= base + ("{\"type\":\"exec\",\"ok\":"@ + jbool(x.ok) + ",\"exit_code\":"@
            + jopt_i32(x.exit_code) + ",\"stdout\":"@ + jstr(x.stdout@)
            + ",\"stdout_truncated\":"@ + jbool(x.stdout_truncated) + ",\"stderr\":"@ + jstr(
            x.stderr@,
        )));
    }
    emit_lit(out, ",\"stderr_truncated\":");
    proof {
        assert(out@ =~= base + ("{\"type\":\"exec\",\"ok\":"@ + jbool(x.ok) + ",\"exit_code\":"@
            + jopt_i32(x.exit_code) + ",\"stdout\":"@ + jstr(x.stdout@)
            + ",\"stdout_truncated\":"@ + jbool(x.stdout_truncated) + ",\"stderr\":"@ + jstr(
            x.stderr@,
        ) + ",\"stderr_truncated\":"@));
    }
    emit_bool(out, x.stderr_truncated);
    proof {
        assert(out@ =~= base + ("{\"type\":\"exec\",\"ok\":"@ + jbool(x.ok) + ",\"exit_code\":"@
            + jopt_i32(x.exit_code) + ",\"stdout\":"@ + jstr(x.stdout@)
            + ",\"stdout_truncated\":"@ + jbool(x.stdout_truncated) + ",\"stderr\":"@ + jstr(
            x.stderr@,
        ) + ",\"stderr_truncated\":"@ + jbool(x.stderr_truncated)));
    }
    emit_lit(out, ",\"error\":");
    proof {
        assert(out@ =~= base + ("{\"type\":\"exec\",\"ok\":"@ + jbool(x.ok) + ",\"exit_code\":"@
            + jopt_i32(x.exit_code) + ",\"stdout\":"@ + jstr(x.stdout@)
            + ",\"stdout_truncated\":"@ + jbool(x.stdout_truncated) + ",\"stderr\":"@ + jstr(
            x.stderr@,
        ) + ",\"stderr_truncated\":"@ + jbool(x.stderr_truncated) + ",\"error\":"@));
    }
    emit_aerr(out, &x.error);
    proof {
        assert(out@ =~= base + ("{\"type\":\"exec\",\"ok\":"@ + jbool(x.ok) + ",\"exit_code\":"@
            + jopt_i32(x.exit_code) + ",\"stdout\":"@ + jstr(x.stdout@)
            + ",\"stdout_truncated\":"@ + jbool(x.stdout_truncated) + ",\"stderr\":"@ + jstr(
            x.stderr@,
        ) + ",\"stderr_truncated\":"@ + jbool(x.stderr_truncated) + ",\"error\":"@ + jaerr(
            x.error,
        )));
    }
    emit_lit(out, "}");
    proof {
        assert(out@ =~= base + ("{\"type\":\"exec\",\"ok\":"@ + jbool(x.ok) + ",\"exit_code\":"@
            + jopt_i32(x.exit_code) + ",\"stdout\":"@ + jstr(x.stdout@)
            + ",\"stdout_truncated\":"@ + jbool(x.stdout_truncated) + ",\"stderr\":"@ + jstr(
            x.stderr@,
        ) + ",\"stderr_truncated\":"@ + jbool(x.stderr_truncated) + ",\"error\":"@ + jaerr(
            x.error,
        ) + "}"@));
    }
}

fn emit_read_file_result(out: &mut Vec<char>, x: &crate::types::ReadFileResult)
    ensures
        final(out)@ == old(out)@ + ser_result(ActionResult::ReadFile(*x)),
{
    let ghost base = out@;
    emit_lit(out, "{\"type\":\"read_file\",\"ok\":");
    emit_bool(out, x.ok);
    proof {
        assert(out@ =~= base + ("{\"type\":\"read_file\",\"ok\":"@ + jbool(x.ok)));
    }
    emit_lit(out, ",\"content_base64\":");
    proof {
        assert(out@ =~= base + ("{\"type\":\"read_file\",\"ok\":"@ + jbool(x.ok)
            + ",\"content_base64\":"@));
    }
    emit_opt_str(out, &x.content_base64);
    proof {
        assert(out@ =~= base + ("{\"type\":\"read_file\",\"ok\":"@ + jbool(x.ok)
            + ",\"content_base64\":"@ + jopt_str(x.content_base64)));
    }
    emit_lit(out, ",\"truncated\":");
    proof {
        assert(out@ =~= base + ("{\"type\":\"read_file\",\"ok\":"@ + jbool(x.ok)
            + ",\"content_base64\":"@ + jopt_str(x.content_base64) + ",\"truncated\":"@));
    }
    emit_bool(out, x.truncated);
    proof {
        assert(out@ =~= base + ("{\"type\":\"read_file\",\"ok\":"@ + jbool(x.ok)
            + ",\"content_base64\":"@ + jopt_str(x.content_base64) + ",\"truncated\":"@ + jbool(
            x.truncated,
        )));
    }
    emit_lit(out, ",\"error\":");
    proof {
        assert(out@ =~= base + ("{\"type\":\"read_file\",\"ok\":"@ + jbool(x.ok)
            + ",\"content_base64\":"@ + jopt_str(x.content_base64) + ",\"truncated\":"@ + jbool(
            x.truncated,
        ) + ",\"error\":"@));
    }
    emit_aerr(out, &x.error);
    proof {
        assert(out@ =~= base + ("{\"type\":\"read_file\",\"ok\":"@ + jbool(x.ok)
            + ",\"content_base64\":"@ + jopt_str(x.content_base64) + ",\"truncated\":"@ + jbool(
            x.truncated,
        ) + ",\"error\":"@ + jaerr(x.error)));
    }
    emit_lit(out, "}");
    proof {
        assert(out@ =~= base + ("{\"type\":\"read_file\",\"ok\":"@ + jbool(x.ok)
            + ",\"content_base64\":"@ + jopt_str(x.content_base64) + ",\"truncated\":"@ + jbool(
            x.truncated,
        ) + ",\"error\":"@ + jaerr(x.error) + "}"@));
    }
}

fn emit_write_file_result(out: &mut Vec<char>, x: &crate::types::WriteFileResult)
    ensures
        final(out)@ == old(out)@ + ser_result(ActionResult::WriteFile(*x)),
{
    let ghost base = out@;
    emit_lit(out, "{\"type\":\"write_file\",\"ok\":");
    emit_bool(out, x.ok);
    proof {
        assert(out@ =~= base + ("{\"type\":\"write_file\",\"ok\":"@ + jbool(x.ok)));
    }
    emit_lit(out, ",\"artifacts\":");
    proof {
        assert(out@ =~= base + ("{\"type\":\"write_file\",\"ok\":"@ + jbool(x.ok)
            + ",\"artifacts\":"@));
    }
    emit_str_arr(out, &x.artifacts);
    proof {
        assert(out@ =~= base + ("{\"type\":\"write_file\",\"ok\":"@ + jbool(x.ok)
            + ",\"artifacts\":"@ + jstr_arr(x.artifacts@)));
    }
    emit_lit(out, ",\"error\":");
    proof {
        assert(out@ =~= base + ("{\"type\":\"write_file\",\"ok\":"@ + jbool(x.ok)
            + ",\"artifacts\":"@ + jstr_arr(x.artifacts@) + ",\"error\":"@));
    }
    emit_aerr(out, &x.error);
    proof {
        assert(out@ =~= base + ("{\"type\":\"write_file\",\"ok\":"@ + jbool(x.ok)
            + ",\"artifacts\":"@ + jstr_arr(x.artifacts@) + ",\"error\":"@ + jaerr(x.error)));
    }
    emit_lit(out, "}");
    proof {
        assert(out@ =~= base + ("{\"type\":\"write_file\",\"ok\":"@ + jbool(x.ok)
            + ",\"artifacts\":"@ + jstr_arr(x.artifacts@) + ",\"error\":"@ + jaerr(x.error)
            + "}"@));
    }
}

/// Appends the wire form of one action result.
pub fn emit_result(out: &mut Vec<char>, r: &ActionResult)
    ensures
        final(out)@ == old(out)@ + ser_result(*r),
{
    let ghost base = out@;
    match r {
        ActionResult::Exec(x) => emit_exec_result(out, x),
        ActionResult::ReadFile(x) => emit_read_file_result(out, x),
        ActionResult::WriteFile(x) => emit_write_file_result(out, x),
        ActionResult::ServiceControl(x) => {
            emit_argv_result(out, "{\"type\":\"service_control\",\"ok\":", x.ok, &x.argv, &x.error);
            proof {
                assert(out@ =~= base + ser_result(*r));
            }
        },
        ActionResult::InstallPackages(x) => {
            emit_argv_result(out, "{\"type\":\"install_packages\",\"ok\":", x.ok, &x.argv, &x.error);
            proof {
                assert(out@ =~= base + ser_result(*r));
            }
        },
        ActionResult::RemovePackages(x) => {
            emit_argv_result(out, "{\"type\":\"remove_packages\",\"ok\":", x.ok, &x.argv, &x.error);
            proof {
                assert(out@ =~= base + ser_result(*r));
            }
        },
        ActionResult::UpdateSystem(x) => {
            emit_argv_result(out, "{\"type\":\"update_system\",\"ok\":", x.ok, &x.argv, &x.error);
            proof {
                assert(out@ =~= base + ser_result(*r));
            }
        },
        ActionResult::Observe(x) => {
            emit_argv_result(out, "{\"type\":\"observe\",\"ok\":", x.ok, &x.argv, &x.error);
            proof {
                assert(out@ =~= base + ser_result(*r));
            }
        },
        ActionResult::CgroupApply(x) => {
            emit_argv_result(out, "{\"type\":\"cgroup_apply\",\"ok\":", x.ok, &x.argv, &x.error);
            proof {
                assert(out@ =~= base + ser_result(*r));
            }
        },
        ActionResult::FirmwareOp(x) => {
            emit_argv_result(out, "{\"type\":\"firmware_op\",\"ok\":", x.ok, &x.argv, &x.error);
            proof {
                assert(out@ =~= base + ser_result(*r));
            }
        },
        ActionResult::Pong(x) => {
            emit_lit(out, "{\"type\":\"pong\",\"ok\":");
            emit_bool(out, x.ok);
            proof {
                assert(out@ =~= base + ("{\"type\":\"pong\",\"ok\":"@ + jbool(x.ok)));
            }
            emit_lit(out, "}");
            proof {
                assert(out@ =~= base + ("{\"type\":\"pong\",\"ok\":"@ + jbool(x.ok) + "}"@));
            }
        },
    }
}

pub open spec fn ser_results_prefix(v: Seq<ActionResult>, i: int) -> Seq<char>
    decreases i,
{
    if i <= 0 {
        Seq::empty()
    } else if i == 1 {
        ser_result(v[0])
    } else {
        ser_results_prefix(v, i - 1) + seq![','] + ser_result(v[i - 1])
    }
}

proof fn lemma_results_prefix_full(v: Seq<ActionResult>)
    ensures
        ser_results_prefix(v, v.len() as int) == ser_results_body(v),
    decreases v.len(),
{
    if v.len() <= 1 {
    } else {
        lemma_results_prefix_full(v.drop_first());
        lemma_results_prefix_shift(v, v.len() as int);
    }
}

proof fn lemma_results_prefix_shift(v: Seq<ActionResult>, i: int)
    requires
        1 <= i <= v.len(),
        v.len() >= 2,
    ensures
        ser_results_prefix(v, i) == if i == 1 {
            ser_result(v[0])
        } else {
            ser_result(v[0]) + seq![','] + ser_results_prefix(v.drop_first(), i - 1)
        },
    decreases i,
{
    if i <= 2 {
        assert(v.drop_first()[0] == v[1]);
        assert(ser_results_prefix(v, 1) == ser_result(v[0]));
        assert(ser_results_prefix(v.drop_first(), 1) == ser_result(v.drop_first()[0]));
        if i == 2 {
            assert(ser_results_prefix(v, 2) == ser_results_prefix(v, 1) + seq![','] + ser_result(
                v[1],
            ));
            assert(ser_result(v[0]) + seq![','] + ser_result(v[1]) =~= ser_result(v[0]) + seq![','] 
                + ser_result(v.drop_first()[0]));
        }
    } else {
        lemma_results_prefix_shift(v, i - 1);
        assert(v.drop_first()[i - 2] == v[i - 1]);
        assert((ser_result(v[0]) + seq![','] + ser_results_prefix(v.drop_first(), i - 2))
            + seq![','] + ser_result(v[i - 1]) =~= ser_result(v[0]) + seq![','] + (
        ser_results_prefix(v.drop_first(), i - 2) + seq![','] + ser_result(
            v.drop_first()[i - 2],
        )));
    }
}

/// Appends the wire form of a whole response.
pub fn emit_plan_result(out: &mut Vec<char>, r: &ActionPlanResult)
    ensures
        final(out)@ == old(out)@ + ser_plan_result(*r),
{
    let ghost base = out@;
    emit_lit(out, "{\"request_id\":");
    emit_jstr(out, r.request_id.as_str());
    proof {
        assert(out@ =~= base + ("{\"request_id\":"@ + jstr(r.request_id@)));
    }
    emit_lit(out, ",\"executed\":");
    proof {
        assert(out@ =~= base + ("{\"request_id\":"@ + jstr(r.request_id@) + ",\"executed\":"@));
    }
    emit_bool(out, r.executed);
    proof {
        assert(out@ =~= base + ("{\"request_id\":"@ + jstr(r.request_id@) + ",\"executed\":"@
            + jbool(r.executed)));
    }
    emit_lit(out, ",\"results\":[");
    let ghost head = "{\"request_id\":"@ + jstr(r.request_id@) + ",\"executed\":"@ + jbool(
        r.executed,
    ) + ",\"results\":["@;
    proof {
        assert(out@ =~= base + head);
        assert(out@ =~= base + head + ser_results_prefix(r.results@, 0));
    }
    let n = r.results.len();
    let mut i: usize = 0;
    while i < n
        invariant
            n == r.results@.len(),
            i <= n,
            out@ == base + head + ser_results_prefix(r.results@, i as int),
        decreases n - i,
    {
        let ghost out0 = out@;
        if i > 0 {
            out.push(',');
        }
        emit_result(out, &r.results[i]);
        proof {
            if i > 0 {
                assert(out@ =~= out0 + seq![','] + ser_result(r.results@[i as int]));
            } else {
                assert(out@ =~= out0 + ser_result(r.results@[0]));
            }
            assert(out@ =~= base + head + ser_results_prefix(r.results@, i + 1));
        }
        i += 1;
    }
    proof {
        lemma_results_prefix_full(r.results@);
    }
    emit_lit(out, "],\"error\":");
    proof {
        assert(out@ =~= base + (head + ser_results_body(r.results@) + "],\"error\":"@));
    }
    emit_reqerr(out, &r.error);
    proof {
        assert(out@ =~= base + (head + ser_results_body(r.results@) + "],\"error\":"@ + jreqerr(
            r.error,
        )));
    }
    emit_lit(out, "}");
    proof {
        assert(out@ =~= base + (head + ser_results_body(r.results@) + "],\"error\":"@ + jreqerr(
            r.error,
        ) + "}"@));
        assert(out@ =~= base + ser_plan_result(*r));
    }
}

/// The canonical wire form of a response, as one string.
pub fn serialize_plan_result(r: &ActionPlanResult) -> (s: String)
    ensures
        s@ == ser_plan_result(*r),
{
    let mut out: Vec<char> = Vec::new();
    emit_plan_result(&mut out, r);
    proof {
        assert(out@ =~= ser_plan_result(*r));
    }
    crate::text::chars_to_string(&out)
}

} // verus!
