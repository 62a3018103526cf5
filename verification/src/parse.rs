//! The strict wire decoder: parses one JSON document into an `ActionPlan`,
//! rejecting unknown object fields at every level, duplicate fields, missing
//! required fields, wrong types, and trailing content — the defence the
//! protocol requires against smuggled or malformed requests.

use vstd::prelude::*;

verus! {

use crate::text::{str_eq, str_to_chars, chars_to_string};
use crate::types::{
    Action, ActionPlan, CgroupApplyAction, Confirmation, EnvMap, ExecAction, FirmwareOp,
    FirmwareOpAction, InstallPackagesAction, Mode, ObserveAction, ObserveTool, PackageManager,
    ReadFileAction, RemovePackagesAction, ServiceControlAction, ServiceControlVerb,
    UpdateSystemAction, WriteFileAction,
};
use vstd::string::StringExecFns;

/// A failure to decode the document.
#[derive(Debug, Clone, PartialEq, Eq)]
pub struct ParseError {
    pub message: String,
}

/// The decoder's diagnosis messages: every error this module reports
/// carries exactly one of these.
pub open spec fn parser_message(s: Seq<char>) -> bool {
    ||| s == "bad escape"@
    ||| s == "bad unicode escape"@
    ||| s == "control character in string"@
    ||| s == "duplicate field"@
    ||| s == "expected , or ]"@
    ||| s == "expected , or }"@
    ||| s == "expected :"@
    ||| s == "expected array"@
    ||| s == "expected boolean"@
    ||| s == "expected number"@
    ||| s == "expected object"@
    ||| s == "expected string"@
    ||| s == "leading zero"@
    ||| s == "lone surrogate"@
    ||| s == "missing field"@
    ||| s == "missing type"@
    ||| s == "number out of range"@
    ||| s == "trailing content"@
    ||| s == "unexpected end of input"@
    ||| s == "unexpected token"@
    ||| s == "unknown action type"@
    ||| s == "unknown field"@
    ||| s == "unknown firmware op"@
    ||| s == "unknown manager"@
    ||| s == "unknown mode"@
    ||| s == "unknown service action"@
    ||| s == "unknown tool"@
    ||| s == "unterminated escape"@
    ||| s == "unterminated string"@
}

fn perr(msg: &str) -> (e: ParseError)
    ensures
        e.message@ == msg@,
{
    ParseError { message: String::from_str(msg) }
}

fn is_ws(c: char) -> bool {
    c == ' ' || c == '\t' || c == '\n' || c == '\r'
}

fn skip_ws(cs: &Vec<char>, p: usize) -> (q: usize)
    requires
        p <= cs@.len(),
    ensures
        p <= q <= cs@.len(),
{
    let n = cs.len();
    let mut i = p;
    while i < n && is_ws(cs[i])
        invariant
            p <= i <= n == cs@.len(),
        decreases n - i,
    {
        i += 1;
    }
    i
}

fn hex_val(c: char) -> (r: Option<u32>)
    ensures
        r matches Some(v) ==> v < 16,
{
    let u = c as u32;
    if 0x30 <= u && u <= 0x39 {
        Some(u - 0x30)
    } else if 0x61 <= u && u <= 0x66 {
        Some(u - 0x61 + 10)
    } else if 0x41 <= u && u <= 0x46 {
        Some(u - 0x41 + 10)
    } else {
        None
    }
}

/// Relies on `char::from_u32`: `Some` exactly for Unicode scalar values, and
/// the returned character has the given code.
#[verifier::external_body]
fn char_from_u32(u: u32) -> (r: Option<char>)
    ensures
        r matches Some(c) ==> c as u32 == u,
{
    char::from_u32(u)
}

fn four_hex(cs: &Vec<char>, p: usize) -> (r: Option<u32>)
    requires
        p + 4 <= cs@.len(),
    ensures
        r matches Some(v) ==> v < 0x10000,
{
    let n = cs.len();
    let a = match hex_val(cs[p]) {
        Some(v) => v,
        None => {
            return None;
        },
    };
    let b = match hex_val(cs[p + 1]) {
        Some(v) => v,
        None => {
            return None;
        },
    };
    let c = match hex_val(cs[p + 2]) {
        Some(v) => v,
        None => {
            return None;
        },
    };
    let d = match hex_val(cs[p + 3]) {
        Some(v) => v,
        None => {
            return None;
        },
    };
    Some(a * 4096 + b * 256 + c * 16 + d)
}

/// Parses a quoted JSON string starting at `p`, unescaping its body.
fn parse_string_token(cs: &Vec<char>, p: usize) -> (r: Result<(String, usize), ParseError>)
    requires
        p <= cs@.len(),
    ensures
        r matches Ok(t) ==> p < t.1 <= cs@.len(),
        r matches Err(t) ==> parser_message(t.message@),
{
    let n = cs.len();
    if p >= n || cs[p] != '"' {
        return Err(perr("expected string"));
    }
    let mut out: Vec<char> = Vec::new();
    let mut i = p + 1;
    loop
        invariant
            p < i <= n == cs@.len(),
        decreases n - i,
    {
        if i >= n {
            return Err(perr("unterminated string"));
        }
        let c = cs[i];
        if c == '"' {
            return Ok((chars_to_string(&out), i + 1));
        }
        if c == '\\' {
            if i + 1 >= n {
                return Err(perr("unterminated escape"));
            }
            let e = cs[i + 1];
            if e == '"' || e == '\\' || e == '/' {
                out.push(e);
                i += 2;
            } else if e == 'b' {
                out.push('\u{8}');
                i += 2;
            } else if e == 'f' {
                out.push('\u{c}');
                i += 2;
            } else if e == 'n' {
                out.push('\n');
                i += 2;
            } else if e == 'r' {
                out.push('\r');
                i += 2;
            } else if e == 't' {
                out.push('\t');
                i += 2;
            } else if e == 'u' {
                if n - i < 6 {
                    return Err(perr("bad unicode escape"));
                }
                let u1 = match four_hex(cs, i + 2) {
                    Some(v) => v,
                    None => {
                        return Err(perr("bad unicode escape"));
                    },
                };
                if 0xD800 <= u1 && u1 <= 0xDBFF {
                    if n - i < 12 || cs[i + 6] != '\\' || cs[i + 7] != 'u' {
                        return Err(perr("lone surrogate"));
                    }
                    let u2 = match four_hex(cs, i + 8) {
                        Some(v) => v,
                        None => {
                            return Err(perr("bad unicode escape"));
                        },
                    };
                    if !(0xDC00 <= u2 && u2 <= 0xDFFF) {
                        return Err(perr("lone surrogate"));
                    }
                    let code = 0x10000 + (u1 - 0xD800) * 0x400 + (u2 - 0xDC00);
                    match char_from_u32(code) {
                        Some(ch) => {
                            out.push(ch);
                        },
                        None => {
                            return Err(perr("bad unicode escape"));
                        },
                    }
                    i += 12;
                } else if 0xDC00 <= u1 && u1 <= 0xDFFF {
                    return Err(perr("lone surrogate"));
                } else {
                    match char_from_u32(u1) {
                        Some(ch) => {
                            out.push(ch);
                        },
                        None => {
                            return Err(perr("bad unicode escape"));
                        },
                    }
                    i += 6;
                }
            } else {
                return Err(perr("bad escape"));
            }
        } else if (c as u32) < 0x20 {
            return Err(perr("control character in string"));
        } else {
            out.push(c);
            i += 1;
        }
    }
}

/// Parses an unsigned decimal number token.
fn parse_u64_token(cs: &Vec<char>, p: usize) -> (r: Result<(u64, usize), ParseError>)
    requires
        p <= cs@.len(),
    ensures
        r matches Ok(t) ==> p < t.1 <= cs@.len(),
        r matches Err(t) ==> parser_message(t.message@),
{
    let n = cs.len();
    if p >= n {
        return Err(perr("expected number"));
    }
    let first = cs[p] as u32;
    if first < 0x30 || first > 0x39 {
        return Err(perr("expected number"));
    }
    let mut acc: u64 = (first - 0x30) as u64;
    let mut i = p + 1;
    if first == 0x30 {
        // A leading zero stands alone in JSON.
        if i < n {
            let next = cs[i] as u32;
            if 0x30 <= next && next <= 0x39 {
                return Err(perr("leading zero"));
            }
        }
        return Ok((0, i));
    }
    while i < n
        invariant
            p < i <= n == cs@.len(),
        decreases n - i,
    {
        let u = cs[i] as u32;
        if u < 0x30 || u > 0x39 {
            break ;
        }
        let d = (u - 0x30) as u64;
        if acc > 0xFFFF_FFFF_FFFF_FFFF / 10 {
            return Err(perr("number out of range"));
        }
        if acc == 0xFFFF_FFFF_FFFF_FFFF / 10 && d > 5 {
            return Err(perr("number out of range"));
        }
        acc = acc * 10 + d;
        i += 1;
    }
    Ok((acc, i))
}

fn expect_lit(cs: &Vec<char>, p: usize, lit: &str) -> (r: Result<usize, ParseError>)
    requires
        p <= cs@.len(),
    ensures
        r matches Ok(q) ==> p <= q <= cs@.len() && (lit@.len() > 0 ==> p < q),
        r matches Err(t) ==> parser_message(t.message@),
{
    let l = str_to_chars(lit);
    let m = l.len();
    let n = cs.len();
    if m > n - p {
        return Err(perr("unexpected end of input"));
    }
    let mut j: usize = 0;
    while j < m
        invariant
            n == cs@.len(),
            p + m <= n,
            j <= m == l@.len(),
        decreases m - j,
    {
        if cs[p + j] != l[j] {
            return Err(perr("unexpected token"));
        }
        j += 1;
    }
    Ok(p + m)
}

/// A string or `null`.
fn parse_opt_string(cs: &Vec<char>, p: usize) -> (r: Result<
    (Option<String>, usize),
    ParseError,
>)
    requires
        p <= cs@.len(),
    ensures
        r matches Ok(t) ==> p < t.1 <= cs@.len(),
        r matches Err(t) ==> parser_message(t.message@),
{
    if p < cs.len() && cs[p] == 'n' {
        let q = expect_lit(cs, p, "null")?;
        proof {
            reveal_strlit("null");
        }
        Ok((None, q))
    } else {
        let (s, q) = parse_string_token(cs, p)?;
        Ok((Some(s), q))
    }
}

fn parse_bool(cs: &Vec<char>, p: usize) -> (r: Result<(bool, usize), ParseError>)
    requires
        p <= cs@.len(),
    ensures
        r matches Ok(t) ==> p < t.1 <= cs@.len(),
        r matches Err(t) ==> parser_message(t.message@),
{
    if p < cs.len() && cs[p] == 't' {
        let q = expect_lit(cs, p, "true")?;
        proof {
            reveal_strlit("true");
        }
        Ok((true, q))
    } else if p < cs.len() && cs[p] == 'f' {
        let q = expect_lit(cs, p, "false")?;
        proof {
            reveal_strlit("false");
        }
        Ok((false, q))
    } else {
        Err(perr("expected boolean"))
    }
}

fn parse_opt_u64(cs: &Vec<char>, p: usize) -> (r: Result<(Option<u64>, usize), ParseError>)
    requires
        p <= cs@.len(),
    ensures
        r matches Ok(t) ==> p < t.1 <= cs@.len(),
        r matches Err(t) ==> parser_message(t.message@),
{
    if p < cs.len() && cs[p] == 'n' {
        let q = expect_lit(cs, p, "null")?;
        proof {
            reveal_strlit("null");
        }
        Ok((None, q))
    } else {
        let (v, q) = parse_u64_token(cs, p)?;
        Ok((Some(v), q))
    }
}

fn parse_opt_u32(cs: &Vec<char>, p: usize) -> (r: Result<(Option<u32>, usize), ParseError>)
    requires
        p <= cs@.len(),
    ensures
        r matches Ok(t) ==> p < t.1 <= cs@.len(),
        r matches Err(t) ==> parser_message(t.message@),
{
    let (o, q) = parse_opt_u64(cs, p)?;
    match o {
        None => Ok((None, q)),
        Some(v) => {
            if v > 0xFFFF_FFFF {
                Err(perr("number out of range"))
            } else {
                Ok((Some(v as u32), q))
            }
        },
    }
}

/// A JSON array of strings.
fn parse_str_array(cs: &Vec<char>, p: usize) -> (r: Result<(Vec<String>, usize), ParseError>)
    requires
        p <= cs@.len(),
    ensures
        r matches Ok(t) ==> p < t.1 <= cs@.len(),
        r matches Err(t) ==> parser_message(t.message@),
{
    let n = cs.len();
    if p >= n || cs[p] != '[' {
        return Err(perr("expected array"));
    }
    let mut out: Vec<String> = Vec::new();
    let mut i = skip_ws(cs, p + 1);
    if i < n && cs[i] == ']' {
        return Ok((out, i + 1));
    }
    loop
        invariant
            p < i <= n == cs@.len(),
        decreases n - i,
    {
        let (s, q) = parse_string_token(cs, i)?;
        out.push(s);
        let q2 = skip_ws(cs, q);
        if q2 < n && cs[q2] == ',' {
            let q3 = skip_ws(cs, q2 + 1);
            if q3 <= i {
                return Err(perr("unexpected token"));
            }
            i = q3;
        } else if q2 < n && cs[q2] == ']' {
            return Ok((out, q2 + 1));
        } else {
            return Err(perr("expected , or ]"));
        }
    }
}

/// An environment object (string values) or `null`.
fn parse_opt_env(cs: &Vec<char>, p: usize) -> (r: Result<(Option<EnvMap>, usize), ParseError>)
    requires
        p <= cs@.len(),
    ensures
        r matches Ok(t) ==> p < t.1 <= cs@.len(),
        r matches Err(t) ==> parser_message(t.message@),
{
    let n = cs.len();
    if p < n && cs[p] == 'n' {
        let q = expect_lit(cs, p, "null")?;
        proof {
            reveal_strlit("null");
        }
        return Ok((None, q));
    }
    if p >= n || cs[p] != '{' {
        return Err(perr("expected object"));
    }
    let mut env = EnvMap::new();
    let mut i = skip_ws(cs, p + 1);
    if i < n && cs[i] == '}' {
        return Ok((Some(env), i + 1));
    }
    loop
        invariant
            p < i <= n == cs@.len(),
        decreases n - i,
    {
        let (k, q) = parse_string_token(cs, i)?;
        let q2 = skip_ws(cs, q);
        if q2 >= n || cs[q2] != ':' {
            return Err(perr("expected :"));
        }
        let q3 = skip_ws(cs, q2 + 1);
        let (v, q4) = parse_string_token(cs, q3)?;
        env.insert(k, v);
        let q5 = skip_ws(cs, q4);
        if q5 < n && cs[q5] == ',' {
            let q6 = skip_ws(cs, q5 + 1);
            if q6 <= i {
                return Err(perr("unexpected token"));
            }
            i = q6;
        } else if q5 < n && cs[q5] == '}' {
            return Ok((Some(env), q5 + 1));
        } else {
            return Err(perr("expected , or }"));
        }
    }
}

fn parse_mode_value(s: &String) -> (r: Result<Mode, ParseError>)
    ensures
        r matches Err(t) ==> parser_message(t.message@),
{
    if str_eq(s.as_str(), "plan_only") {
        Ok(Mode::PlanOnly)
    } else if str_eq(s.as_str(), "execute") {
        Ok(Mode::Execute)
    } else {
        Err(perr("unknown mode"))
    }
}

fn parse_manager_value(s: &String) -> (r: Result<PackageManager, ParseError>)
    ensures
        r matches Err(t) ==> parser_message(t.message@),
{
    if str_eq(s.as_str(), "apt") {
        Ok(PackageManager::Apt)
    } else if str_eq(s.as_str(), "dnf") {
        Ok(PackageManager::Dnf)
    } else if str_eq(s.as_str(), "pacman") {
        Ok(PackageManager::Pacman)
    } else if str_eq(s.as_str(), "zypper") {
        Ok(PackageManager::Zypper)
    } else if str_eq(s.as_str(), "brew") {
        Ok(PackageManager::Brew)
    } else if str_eq(s.as_str(), "other") {
        Ok(PackageManager::Other)
    } else {
        Err(perr("unknown manager"))
    }
}

fn parse_verb_value(s: &String) -> (r: Result<ServiceControlVerb, ParseError>)
    ensures
        r matches Err(t) ==> parser_message(t.message@),
{
    if str_eq(s.as_str(), "start") {
        Ok(ServiceControlVerb::Start)
    } else if str_eq(s.as_str(), "stop") {
        Ok(ServiceControlVerb::Stop)
    } else if str_eq(s.as_str(), "restart") {
        Ok(ServiceControlVerb::Restart)
    } else if str_eq(s.as_str(), "enable") {
        Ok(ServiceControlVerb::Enable)
    } else if str_eq(s.as_str(), "disable") {
        Ok(ServiceControlVerb::Disable)
    } else if str_eq(s.as_str(), "status") {
        Ok(ServiceControlVerb::Status)
    } else {
        Err(perr("unknown service action"))
    }
}

fn parse_tool_value(s: &String) -> (r: Result<ObserveTool, ParseError>)
    ensures
        r matches Err(t) ==> parser_message(t.message@),
{
    if str_eq(s.as_str(), "ps") {
        Ok(ObserveTool::Ps)
    } else if str_eq(s.as_str(), "top") {
        Ok(ObserveTool::Top)
    } else if str_eq(s.as_str(), "journalctl") {
        Ok(ObserveTool::Journalctl)
    } else if str_eq(s.as_str(), "perf") {
        Ok(ObserveTool::Perf)
    } else if str_eq(s.as_str(), "bpftrace") {
        Ok(ObserveTool::Bpftrace)
    } else if str_eq(s.as_str(), "other") {
        Ok(ObserveTool::Other)
    } else {
        Err(perr("unknown tool"))
    }
}

fn parse_fwop_value(s: &String) -> (r: Result<FirmwareOp, ParseError>)
    ensures
        r matches Err(t) ==> parser_message(t.message@),
{
    if str_eq(s.as_str(), "inventory") {
        Ok(FirmwareOp::Inventory)
    } else if str_eq(s.as_str(), "fwupd_update") {
        Ok(FirmwareOp::FwupdUpdate)
    } else if str_eq(s.as_str(), "uefi_var_read") {
        Ok(FirmwareOp::UefiVarRead)
    } else {
        Err(perr("unknown firmware op"))
    }
}

/// Every field an action object may carry, collected before the `type` tag
/// decides which belong; field order in the input is free, as the tagged
/// deserialization allows.
struct ActionFields {
    ty: Option<String>,
    argv: Option<Vec<String>>,
    cwd: Option<Option<String>>,
    env: Option<Option<EnvMap>>,
    timeout_sec: Option<u64>,
    as_root: Option<bool>,
    reason: Option<String>,
    danger: Option<Option<String>>,
    recovery: Option<Option<String>>,
    path: Option<String>,
    max_bytes: Option<u64>,
    content: Option<String>,
    mode_str: Option<String>,
    verb: Option<ServiceControlVerb>,
    unit: Option<Option<String>>,
    manager: Option<PackageManager>,
    packages: Option<Vec<String>>,
    tool: Option<ObserveTool>,
    args: Option<Vec<String>>,
    pid: Option<Option<u32>>,
    cpu_weight: Option<Option<u64>>,
    mem_max_bytes: Option<Option<u64>>,
    op: Option<FirmwareOp>,
    uefi_var_name: Option<Option<String>>,
}

fn empty_fields() -> ActionFields {
    ActionFields {
        ty: None,
        argv: None,
        cwd: None,
        env: None,
        timeout_sec: None,
        as_root: None,
        reason: None,
        danger: None,
        recovery: None,
        path: None,
        max_bytes: None,
        content: None,
        mode_str: None,
        verb: None,
        unit: None,
        manager: None,
        packages: None,
        tool: None,
        args: None,
        pid: None,
        cpu_weight: None,
        mem_max_bytes: None,
        op: None,
        uefi_var_name: None,
    }
}

fn parse_action_field(cs: &Vec<char>, p: usize, key: &String, f: &mut ActionFields) -> (r: Result<
    usize,
    ParseError,
>)
    requires
        p <= cs@.len(),
    ensures
        r matches Ok(q) ==> p < q <= cs@.len(),
        r matches Err(t) ==> parser_message(t.message@),
{
    if str_eq(key.as_str(), "type") {
        if f.ty.is_some() {
            return Err(perr("duplicate field"));
        }
        let (s, q) = parse_string_token(cs, p)?;
        f.ty = Some(s);
        Ok(q)
    } else if str_eq(key.as_str(), "argv") {
        if f.argv.is_some() {
            return Err(perr("duplicate field"));
        }
        let (v, q) = parse_str_array(cs, p)?;
        f.argv = Some(v);
        Ok(q)
    } else if str_eq(key.as_str(), "cwd") {
        if f.cwd.is_some() {
            return Err(perr("duplicate field"));
        }
        let (v, q) = parse_opt_string(cs, p)?;
        f.cwd = Some(v);
        Ok(q)
    } else if str_eq(key.as_str(), "env") {
        if f.env.is_some() {
            return Err(perr("duplicate field"));
        }
        let (v, q) = parse_opt_env(cs, p)?;
        f.env = Some(v);
        Ok(q)
    } else if str_eq(key.as_str(), "timeout_sec") {
        if f.timeout_sec.is_some() {
            return Err(perr("duplicate field"));
        }
        let (v, q) = parse_u64_token(cs, p)?;
        f.timeout_sec = Some(v);
        Ok(q)
    } else if str_eq(key.as_str(), "as_root") {
        if f.as_root.is_some() {
            return Err(perr("duplicate field"));
        }
        let (v, q) = parse_bool(cs, p)?;
        f.as_root = Some(v);
        Ok(q)
    } else if str_eq(key.as_str(), "reason") {
        if f.reason.is_some() {
            return Err(perr("duplicate field"));
        }
        let (v, q) = parse_string_token(cs, p)?;
        f.reason = Some(v);
        Ok(q)
    } else if str_eq(key.as_str(), "danger") {
        if f.danger.is_some() {
            return Err(perr("duplicate field"));
        }
        let (v, q) = parse_opt_string(cs, p)?;
        f.danger = Some(v);
        Ok(q)
    } else if str_eq(key.as_str(), "recovery") {
        if f.recovery.is_some() {
            return Err(perr("duplicate field"));
        }
        let (v, q) = parse_opt_string(cs, p)?;
        f.recovery = Some(v);
        Ok(q)
    } else {
        parse_action_field_rest(cs, p, key, f)
    }
}

fn parse_action_field_rest(cs: &Vec<char>, p: usize, key: &String, f: &mut ActionFields) -> (r:
    Result<usize, ParseError>)
    requires
        p <= cs@.len(),
    ensures
        r matches Ok(q) ==> p < q <= cs@.len(),
        r matches Err(t) ==> parser_message(t.message@),
{
    if str_eq(key.as_str(), "path") {
        if f.path.is_some() {
            return Err(perr("duplicate field"));
        }
        let (v, q) = parse_string_token(cs, p)?;
        f.path = Some(v);
        Ok(q)
    } else if str_eq(key.as_str(), "max_bytes") {
        if f.max_bytes.is_some() {
            return Err(perr("duplicate field"));
        }
        let (v, q) = parse_u64_token(cs, p)?;
        f.max_bytes = Some(v);
        Ok(q)
    } else if str_eq(key.as_str(), "content") {
        if f.content.is_some() {
            return Err(perr("duplicate field"));
        }
        let (v, q) = parse_string_token(cs, p)?;
        f.content = Some(v);
        Ok(q)
    } else if str_eq(key.as_str(), "mode") {
        if f.mode_str.is_some() {
            return Err(perr("duplicate field"));
        }
        let (v, q) = parse_string_token(cs, p)?;
        f.mode_str = Some(v);
        Ok(q)
    } else if str_eq(key.as_str(), "action") {
        if f.verb.is_some() {
            return Err(perr("duplicate field"));
        }
        let (s, q) = parse_string_token(cs, p)?;
        let v = parse_verb_value(&s)?;
        f.verb = Some(v);
        Ok(q)
    } else if str_eq(key.as_str(), "unit") {
        if f.unit.is_some() {
            return Err(perr("duplicate field"));
        }
        let (v, q) = parse_opt_string(cs, p)?;
        f.unit = Some(v);
        Ok(q)
    } else if str_eq(key.as_str(), "manager") {
        if f.manager.is_some() {
            return Err(perr("duplicate field"));
        }
        let (s, q) = parse_string_token(cs, p)?;
        let v = parse_manager_value(&s)?;
        f.manager = Some(v);
        Ok(q)
    } else if str_eq(key.as_str(), "packages") {
        if f.packages.is_some() {
            return Err(perr("duplicate field"));
        }
        let (v, q) = parse_str_array(cs, p)?;
        f.packages = Some(v);
        Ok(q)
    } else if str_eq(key.as_str(), "tool") {
        if f.tool.is_some() {
            return Err(perr("duplicate field"));
        }
        let (s, q) = parse_string_token(cs, p)?;
        let v = parse_tool_value(&s)?;
        f.tool = Some(v);
        Ok(q)
    } else if str_eq(key.as_str(), "args") {
        if f.args.is_some() {
            return Err(perr("duplicate field"));
        }
        let (v, q) = parse_str_array(cs, p)?;
        f.args = Some(v);
        Ok(q)
    } else if str_eq(key.as_str(), "pid") {
        if f.pid.is_some() {
            return Err(perr("duplicate field"));
        }
        let (v, q) = parse_opt_u32(cs, p)?;
        f.pid = Some(v);
        Ok(q)
    } else if str_eq(key.as_str(), "cpu_weight") {
        if f.cpu_weight.is_some() {
            return Err(perr("duplicate field"));
        }
        let (v, q) = parse_opt_u64(cs, p)?;
        f.cpu_weight = Some(v);
        Ok(q)
    } else if str_eq(key.as_str(), "mem_max_bytes") {
        if f.mem_max_bytes.is_some() {
            return Err(perr("duplicate field"));
        }
        let (v, q) = parse_opt_u64(cs, p)?;
        f.mem_max_bytes = Some(v);
        Ok(q)
    } else if str_eq(key.as_str(), "op") {
        if f.op.is_some() {
            return Err(perr("duplicate field"));
        }
        let (s, q) = parse_string_token(cs, p)?;
        let v = parse_fwop_value(&s)?;
        f.op = Some(v);
        Ok(q)
    } else if str_eq(key.as_str(), "uefi_var_name") {
        if f.uefi_var_name.is_some() {
            return Err(perr("duplicate field"));
        }
        let (v, q) = parse_opt_string(cs, p)?;
        f.uefi_var_name = Some(v);
        Ok(q)
    } else {
        Err(perr("unknown field"))
    }
}

fn build_action(f: ActionFields) -> (r: Result<Action, ParseError>)
    ensures
        r matches Err(t) ==> parser_message(t.message@),
{
    let ActionFields {
        ty,
        argv,
        cwd,
        env,
        timeout_sec,
        as_root,
        reason,
        danger,
        recovery,
        path,
        max_bytes,
        content,
        mode_str,
        verb,
        unit,
        manager,
        packages,
        tool,
        args,
        pid,
        cpu_weight,
        mem_max_bytes,
        op,
        uefi_var_name,
    } = f;
    let ty = match ty {
        Some(t) => t,
        None => {
            return Err(perr("missing type"));
        },
    };
    let danger = match danger {
        Some(d) => d,
        None => None,
    };
    let recovery = match recovery {
        Some(rc) => rc,
        None => None,
    };
    if str_eq(ty.as_str(), "exec") {
        if path.is_some() || max_bytes.is_some() || content.is_some() || mode_str.is_some()
            || verb.is_some() || unit.is_some() || manager.is_some() || packages.is_some()
            || tool.is_some() || args.is_some() || pid.is_some() || cpu_weight.is_some()
            || mem_max_bytes.is_some() || op.is_some() || uefi_var_name.is_some() {
            return Err(perr("unknown field"));
        }
        let argv = match argv {
            Some(v) => v,
            None => {
                return Err(perr("missing field"));
            },
        };
        let timeout_sec = match timeout_sec {
            Some(v) => v,
            None => {
                return Err(perr("missing field"));
            },
        };
        let as_root = match as_root {
            Some(v) => v,
            None => {
                return Err(perr("missing field"));
            },
        };
        let reason = match reason {
            Some(v) => v,
            None => {
                return Err(perr("missing field"));
            },
        };
        Ok(
            Action::Exec(
                ExecAction {
                    argv,
                    cwd: match cwd {
                        Some(c) => c,
                        None => None,
                    },
                    env: match env {
                        Some(e) => e,
                        None => None,
                    },
                    timeout_sec,
                    as_root,
                    reason,
                    danger,
                    recovery,
                },
            ),
        )
    } else if str_eq(ty.as_str(), "read_file") {
        if argv.is_some() || cwd.is_some() || env.is_some() || timeout_sec.is_some()
            || as_root.is_some() || content.is_some() || mode_str.is_some() || verb.is_some()
            || unit.is_some() || manager.is_some() || packages.is_some() || tool.is_some()
            || args.is_some() || pid.is_some() || cpu_weight.is_some() || mem_max_bytes.is_some()
            || op.is_some() || uefi_var_name.is_some() {
            return Err(perr("unknown field"));
        }
        let path = match path {
            Some(v) => v,
            None => {
                return Err(perr("missing field"));
            },
        };
        let max_bytes = match max_bytes {
            Some(v) => v,
            None => {
                return Err(perr("missing field"));
            },
        };
        let reason = match reason {
            Some(v) => v,
            None => {
                return Err(perr("missing field"));
            },
        };
        Ok(Action::ReadFile(ReadFileAction { path, max_bytes, reason, danger, recovery }))
    } else if str_eq(ty.as_str(), "write_file") {
        if argv.is_some() || cwd.is_some() || env.is_some() || timeout_sec.is_some()
            || as_root.is_some() || max_bytes.is_some() || verb.is_some() || unit.is_some()
            || manager.is_some() || packages.is_some() || tool.is_some() || args.is_some()
            || pid.is_some() || cpu_weight.is_some() || mem_max_bytes.is_some() || op.is_some()
            || uefi_var_name.is_some() {
            return Err(perr("unknown field"));
        }
        let path = match path {
            Some(v) => v,
            None => {
                return Err(perr("missing field"));
            },
        };
        let content = match content {
            Some(v) => v,
            None => {
                return Err(perr("missing field"));
            },
        };
        let mode = match mode_str {
            Some(v) => v,
            None => {
                return Err(perr("missing field"));
            },
        };
        let reason = match reason {
            Some(v) => v,
            None => {
                return Err(perr("missing field"));
            },
        };
        Ok(Action::WriteFile(WriteFileAction { path, content, mode, reason, danger, recovery }))
    } else if str_eq(ty.as_str(), "service_control") {
        if argv.is_some() || cwd.is_some() || env.is_some() || timeout_sec.is_some()
            || as_root.is_some() || path.is_some() || max_bytes.is_some() || content.is_some()
            || mode_str.is_some() || manager.is_some() || packages.is_some() || tool.is_some()
            || args.is_some() || pid.is_some() || cpu_weight.is_some() || mem_max_bytes.is_some()
            || op.is_some() || uefi_var_name.is_some() {
            return Err(perr("unknown field"));
        }
        let action = match verb {
            Some(v) => v,
            None => {
                return Err(perr("missing field"));
            },
        };
        let unit = match unit {
            Some(Some(u)) => u,
            _ => {
                return Err(perr("missing field"));
            },
        };
        let reason = match reason {
            Some(v) => v,
            None => {
                return Err(perr("missing field"));
            },
        };
        Ok(Action::ServiceControl(ServiceControlAction { action, unit, reason, danger, recovery }))
    } else if str_eq(ty.as_str(), "install_packages") {
        if argv.is_some() || cwd.is_some() || env.is_some() || timeout_sec.is_some()
            || as_root.is_some() || path.is_some() || max_bytes.is_some() || content.is_some()
            || mode_str.is_some() || verb.is_some() || unit.is_some() || tool.is_some()
            || args.is_some() || pid.is_some() || cpu_weight.is_some() || mem_max_bytes.is_some()
            || op.is_some() || uefi_var_name.is_some() {
            return Err(perr("unknown field"));
        }
        let manager = match manager {
            Some(v) => v,
            None => {
                return Err(perr("missing field"));
            },
        };
        let packages = match packages {
            Some(v) => v,
            None => {
                return Err(perr("missing field"));
            },
        };
        let reason = match reason {
            Some(v) => v,
            None => {
                return Err(perr("missing field"));
            },
        };
        Ok(
            Action::InstallPackages(
                InstallPackagesAction { manager, packages, reason, danger, recovery },
            ),
        )
    } else if str_eq(ty.as_str(), "remove_packages") {
        if argv.is_some() || cwd.is_some() || env.is_some() || timeout_sec.is_some()
            || as_root.is_some() || path.is_some() || max_bytes.is_some() || content.is_some()
            || mode_str.is_some() || verb.is_some() || unit.is_some() || tool.is_some()
            || args.is_some() || pid.is_some() || cpu_weight.is_some() || mem_max_bytes.is_some()
            || op.is_some() || uefi_var_name.is_some() {
            return Err(perr("unknown field"));
        }
        let manager = match manager {
            Some(v) => v,
            None => {
                return Err(perr("missing field"));
            },
        };
        let packages = match packages {
            Some(v) => v,
            None => {
                return Err(perr("missing field"));
            },
        };
        let reason = match reason {
            Some(v) => v,
            None => {
                return Err(perr("missing field"));
            },
        };
        Ok(
            Action::RemovePackages(
                RemovePackagesAction { manager, packages, reason, danger, recovery },
            ),
        )
    } else if str_eq(ty.as_str(), "update_system") {
        if argv.is_some() || cwd.is_some() || env.is_some() || timeout_sec.is_some()
            || as_root.is_some() || path.is_some() || max_bytes.is_some() || content.is_some()
            || mode_str.is_some() || verb.is_some() || unit.is_some() || packages.is_some()
            || tool.is_some() || args.is_some() || pid.is_some() || cpu_weight.is_some()
            || mem_max_bytes.is_some() || op.is_some() || uefi_var_name.is_some() {
            return Err(perr("unknown field"));
        }
        let manager = match manager {
            Some(v) => v,
            None => {
                return Err(perr("missing field"));
            },
        };
        let reason = match reason {
            Some(v) => v,
            None => {
                return Err(perr("missing field"));
            },
        };
        Ok(Action::UpdateSystem(UpdateSystemAction { manager, reason, danger, recovery }))
    } else if str_eq(ty.as_str(), "observe") {
        if argv.is_some() || cwd.is_some() || env.is_some() || timeout_sec.is_some()
            || as_root.is_some() || path.is_some() || max_bytes.is_some() || content.is_some()
            || mode_str.is_some() || verb.is_some() || unit.is_some() || manager.is_some()
            || packages.is_some() || pid.is_some() || cpu_weight.is_some()
            || mem_max_bytes.is_some() || op.is_some() || uefi_var_name.is_some() {
            return Err(perr("unknown field"));
        }
        let tool = match tool {
            Some(v) => v,
            None => {
                return Err(perr("missing field"));
            },
        };
        let args = match args {
            Some(v) => v,
            None => {
                return Err(perr("missing field"));
            },
        };
        let reason = match reason {
            Some(v) => v,
            None => {
                return Err(perr("missing field"));
            },
        };
        Ok(Action::Observe(ObserveAction { tool, args, reason, danger, recovery }))
    } else if str_eq(ty.as_str(), "cgroup_apply") {
        if argv.is_some() || cwd.is_some() || env.is_some() || timeout_sec.is_some()
            || as_root.is_some() || path.is_some() || max_bytes.is_some() || content.is_some()
            || mode_str.is_some() || verb.is_some() || manager.is_some() || packages.is_some()
            || tool.is_some() || args.is_some() || op.is_some() || uefi_var_name.is_some() {
            return Err(perr("unknown field"));
        }
        let reason = match reason {
            Some(v) => v,
            None => {
                return Err(perr("missing field"));
            },
        };
        Ok(
            Action::CgroupApply(
                CgroupApplyAction {
                    pid: match pid {
                        Some(v) => v,
                        None => None,
                    },
                    unit: match unit {
                        Some(v) => v,
                        None => None,
                    },
                    cpu_weight: match cpu_weight {
                        Some(v) => v,
                        None => None,
                    },
                    mem_max_bytes: match mem_max_bytes {
                        Some(v) => v,
                        None => None,
                    },
                    reason,
                    danger,
                    recovery,
                },
            ),
        )
    } else if str_eq(ty.as_str(), "firmware_op") {
        if argv.is_some() || cwd.is_some() || env.is_some() || timeout_sec.is_some()
            || as_root.is_some() || path.is_some() || max_bytes.is_some() || content.is_some()
            || mode_str.is_some() || verb.is_some() || unit.is_some() || manager.is_some()
            || packages.is_some() || tool.is_some() || args.is_some() || pid.is_some()
            || cpu_weight.is_some() || mem_max_bytes.is_some() {
            return Err(perr("unknown field"));
        }
        let op = match op {
            Some(v) => v,
            None => {
                return Err(perr("missing field"));
            },
        };
        let reason = match reason {
            Some(v) => v,
            None => {
                return Err(perr("missing field"));
            },
        };
        Ok(
            Action::FirmwareOp(
                FirmwareOpAction {
                    op,
                    uefi_var_name: match uefi_var_name {
                        Some(v) => v,
                        None => None,
                    },
                    reason,
                    danger,
                    recovery,
                },
            ),
        )
    } else if str_eq(ty.as_str(), "ping") {
        if argv.is_some() || cwd.is_some() || env.is_some() || timeout_sec.is_some()
            || as_root.is_some() || reason.is_some() || danger.is_some() || recovery.is_some()
            || path.is_some() || max_bytes.is_some() || content.is_some() || mode_str.is_some()
            || verb.is_some() || unit.is_some() || manager.is_some() || packages.is_some()
            || tool.is_some() || args.is_some() || pid.is_some() || cpu_weight.is_some()
            || mem_max_bytes.is_some() || op.is_some() || uefi_var_name.is_some() {
            return Err(perr("unknown field"));
        }
        Ok(Action::Ping)
    } else {
        Err(perr("unknown action type"))
    }
}

/// One action object.
fn parse_action(cs: &Vec<char>, p: usize) -> (r: Result<(Action, usize), ParseError>)
    requires
        p <= cs@.len(),
    ensures
        r matches Ok(t) ==> p < t.1 <= cs@.len(),
        r matches Err(t) ==> parser_message(t.message@),
{
    let n = cs.len();
    if p >= n || cs[p] != '{' {
        return Err(perr("expected object"));
    }
    let mut f = empty_fields();
    let mut i = skip_ws(cs, p + 1);
    if i < n && cs[i] == '}' {
        let a = build_action(f)?;
        return Ok((a, i + 1));
    }
    loop
        invariant
            p < i <= n == cs@.len(),
        decreases n - i,
    {
        let (key, q) = parse_string_token(cs, i)?;
        let q2 = skip_ws(cs, q);
        if q2 >= n || cs[q2] != ':' {
            return Err(perr("expected :"));
        }
        let q3 = skip_ws(cs, q2 + 1);
        let q4 = parse_action_field(cs, q3, &key, &mut f)?;
        let q5 = skip_ws(cs, q4);
        if q5 < n && cs[q5] == ',' {
            let q6 = skip_ws(cs, q5 + 1);
            if q6 <= i {
                return Err(perr("unexpected token"));
            }
            i = q6;
        } else if q5 < n && cs[q5] == '}' {
            let a = build_action(f)?;
            return Ok((a, q5 + 1));
        } else {
            return Err(perr("expected , or }"));
        }
    }
}

fn parse_actions_array(cs: &Vec<char>, p: usize) -> (r: Result<(Vec<Action>, usize), ParseError>)
    requires
        p <= cs@.len(),
    ensures
        r matches Ok(t) ==> p < t.1 <= cs@.len(),
        r matches Err(t) ==> parser_message(t.message@),
{
    let n = cs.len();
    if p >= n || cs[p] != '[' {
        return Err(perr("expected array"));
    }
    let mut out: Vec<Action> = Vec::new();
    let mut i = skip_ws(cs, p + 1);
    if i < n && cs[i] == ']' {
        return Ok((out, i + 1));
    }
    loop
        invariant
            p < i <= n == cs@.len(),
        decreases n - i,
    {
        let (a, q) = parse_action(cs, i)?;
        out.push(a);
        let q2 = skip_ws(cs, q);
        if q2 < n && cs[q2] == ',' {
            let q3 = skip_ws(cs, q2 + 1);
            if q3 <= i {
                return Err(perr("unexpected token"));
            }
            i = q3;
        } else if q2 < n && cs[q2] == ']' {
            return Ok((out, q2 + 1));
        } else {
            return Err(perr("expected , or ]"));
        }
    }
}

/// A confirmation object (`{"token": ...}`) or `null`.
fn parse_opt_confirmation(cs: &Vec<char>, p: usize) -> (r: Result<
    (Option<Confirmation>, usize),
    ParseError,
>)
    requires
        p <= cs@.len(),
    ensures
        r matches Ok(t) ==> p < t.1 <= cs@.len(),
        r matches Err(t) ==> parser_message(t.message@),
{
    let n = cs.len();
    if p < n && cs[p] == 'n' {
        let q = expect_lit(cs, p, "null")?;
        proof {
            reveal_strlit("null");
        }
        return Ok((None, q));
    }
    if p >= n || cs[p] != '{' {
        return Err(perr("expected object"));
    }
    let mut token: Option<String> = None;
    let mut i = skip_ws(cs, p + 1);
    if i < n && cs[i] == '}' {
        return Err(perr("missing field"));
    }
    loop
        invariant
            p < i <= n == cs@.len(),
        decreases n - i,
    {
        let (key, q) = parse_string_token(cs, i)?;
        let q2 = skip_ws(cs, q);
        if q2 >= n || cs[q2] != ':' {
            return Err(perr("expected :"));
        }
        let q3 = skip_ws(cs, q2 + 1);
        let q4: usize;
        if str_eq(key.as_str(), "token") {
            if token.is_some() {
                return Err(perr("duplicate field"));
            }
            let (v, qq) = parse_string_token(cs, q3)?;
            token = Some(v);
            q4 = qq;
        } else {
            return Err(perr("unknown field"));
        }
        let q5 = skip_ws(cs, q4);
        if q5 < n && cs[q5] == ',' {
            let q6 = skip_ws(cs, q5 + 1);
            if q6 <= i {
                return Err(perr("unexpected token"));
            }
            i = q6;
        } else if q5 < n && cs[q5] == '}' {
            match token {
                Some(t) => {
                    return Ok((Some(Confirmation { token: t }), q5 + 1));
                },
                None => {
                    return Err(perr("missing field"));
                },
            }
        } else {
            return Err(perr("expected , or }"));
        }
    }
}

/// Parses one complete JSON document as an `ActionPlan`, strictly: unknown or
/// duplicate fields, wrong types, missing required fields, and trailing
/// content are all rejected.
pub fn parse_action_plan(input: &str) -> (r: Result<ActionPlan, ParseError>)
    ensures
        r matches Err(e) ==> parser_message(e.message@),
{
    let cs = str_to_chars(input);
    let n = cs.len();
    let p = skip_ws(&cs, 0);
    if p >= n || cs[p] != '{' {
        return Err(perr("expected object"));
    }
    let mut request_id: Option<String> = None;
    let mut session_id: Option<Option<String>> = None;
    let mut version: Option<String> = None;
    let mut mode: Option<Mode> = None;
    let mut actions: Option<Vec<Action>> = None;
    let mut confirmation: Option<Option<Confirmation>> = None;

    let mut i = skip_ws(&cs, p + 1);
    let mut closed = false;
    if i < n && cs[i] == '}' {
        i += 1;
        closed = true;
    }
    while !closed
        invariant
            i <= n == cs@.len(),
        decreases n - i,
    {
        let (key, q) = match parse_string_token(&cs, i) {
            Ok(t) => t,
            Err(e) => {
                return Err(e);
            },
        };
        let q2 = skip_ws(&cs, q);
        if q2 >= n || cs[q2] != ':' {
            return Err(perr("expected :"));
        }
        let q3 = skip_ws(&cs, q2 + 1);
        let q4: usize;
        if str_eq(key.as_str(), "request_id") {
            if request_id.is_some() {
                return Err(perr("duplicate field"));
            }
            let (v, qq) = match parse_string_token(&cs, q3) {
                Ok(t) => t,
                Err(e) => {
                    return Err(e);
                },
            };
            request_id = Some(v);
            q4 = qq;
        } else if str_eq(key.as_str(), "session_id") {
            if session_id.is_some() {
                return Err(perr("duplicate field"));
            }
            let (v, qq) = match parse_opt_string(&cs, q3) {
                Ok(t) => t,
                Err(e) => {
                    return Err(e);
                },
            };
            session_id = Some(v);
            q4 = qq;
        } else if str_eq(key.as_str(), "version") {
            if version.is_some() {
                return Err(perr("duplicate field"));
            }
            let (v, qq) = match parse_string_token(&cs, q3) {
                Ok(t) => t,
                Err(e) => {
                    return Err(e);
                },
            };
            version = Some(v);
            q4 = qq;
        } else if str_eq(key.as_str(), "mode") {
            if mode.is_some() {
                return Err(perr("duplicate field"));
            }
            let (s, qq) = match parse_string_token(&cs, q3) {
                Ok(t) => t,
                Err(e) => {
                    return Err(e);
                },
            };
            let m = match parse_mode_value(&s) {
                Ok(m) => m,
                Err(e) => {
                    return Err(e);
                },
            };
            mode = Some(m);
            q4 = qq;
        } else if str_eq(key.as_str(), "actions") {
            if actions.is_some() {
                return Err(perr("duplicate field"));
            }
            let (v, qq) = match parse_actions_array(&cs, q3) {
                Ok(t) => t,
                Err(e) => {
                    return Err(e);
                },
            };
            actions = Some(v);
            q4 = qq;
        } else if str_eq(key.as_str(), "confirmation") {
            if confirmation.is_some() {
                return Err(perr("duplicate field"));
            }
            let (v, qq) = match parse_opt_confirmation(&cs, q3) {
                Ok(t) => t,
                Err(e) => {
                    return Err(e);
                },
            };
            confirmation = Some(v);
            q4 = qq;
        } else {
            return Err(perr("unknown field"));
        }
        let q5 = skip_ws(&cs, q4);
        if q5 < n && cs[q5] == ',' {
            let q6 = skip_ws(&cs, q5 + 1);
            if q6 <= i {
                return Err(perr("unexpected token"));
            }
            i = q6;
        } else if q5 < n && cs[q5] == '}' {
            i = q5 + 1;
            closed = true;
        } else {
            return Err(perr("expected , or }"));
        }
    }
    let tail = skip_ws(&cs, i);
    if tail != n {
        return Err(perr("trailing content"));
    }
    let request_id = match request_id {
        Some(v) => v,
        None => {
            return Err(perr("missing field"));
        },
    };
    let version = match version {
        Some(v) => v,
        None => {
            return Err(perr("missing field"));
        },
    };
    let mode = match mode {
        Some(v) => v,
        None => {
            return Err(perr("missing field"));
        },
    };
    let actions = match actions {
        Some(v) => v,
        None => {
            return Err(perr("missing field"));
        },
    };
    Ok(
        ActionPlan {
            request_id,
            session_id: match session_id {
                Some(v) => v,
                None => None,
            },
            version,
            mode,
            actions,
            confirmation: match confirmation {
                Some(v) => v,
                None => None,
            },
        },
    )
}

} // verus!
