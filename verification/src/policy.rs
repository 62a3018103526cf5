//! The two policy gates applied at dispatch time: a deny-list of destructive
//! programs that no confirmation can override, and a confirmation-required
//! predicate over programs and file paths.

use vstd::prelude::*;

verus! {

use crate::text::{str_eq, str_to_chars, trim_chars, trim_matches};
use crate::types::ExecAction;

/// Programs that may never be executed, with or without their usual prefix.
pub open spec fn denied_program(p: Seq<char>) -> bool {
    ||| p == "/bin/dd"@
    ||| p == "dd"@
    ||| p == "/sbin/mkfs"@
    ||| p == "/sbin/mkfs.ext4"@
    ||| p == "mkfs"@
    ||| p == "mkfs.ext4"@
    ||| p == "/sbin/shutdown"@
    ||| p == "shutdown"@
    ||| p == "/sbin/reboot"@
    ||| p == "reboot"@
}

/// An exec action the deny-list stops: a denied program, or no program at all.
pub open spec fn exec_denied(e: ExecAction) -> bool {
    e.argv@.len() == 0 || denied_program(e.argv@[0]@)
}

/// Programs that may run without a confirmation token.
pub open spec fn allowed_program(p: Seq<char>) -> bool {
    p == "/bin/echo"@ || p == "echo"@
}

/// An exec action that must carry a valid confirmation: `rm`, anything not on
/// the short allow-set, or a missing program.
pub open spec fn exec_needs_confirmation(e: ExecAction) -> bool {
    ||| e.argv@.len() == 0
    ||| e.argv@[0]@ == "/bin/rm"@
    ||| e.argv@[0]@ == "rm"@
    ||| !allowed_program(e.argv@[0]@)
}

pub open spec fn starts_with(s: Seq<char>, p: Seq<char>) -> bool {
    s.len() >= p.len() && s.take(p.len() as int) == p
}

/// A literal `..` path component at index `i`.
pub open spec fn dotdot_at(s: Seq<char>, i: int) -> bool {
    &&& 0 <= i
    &&& i + 2 <= s.len()
    &&& s[i] == '.'
    &&& s[i + 1] == '.'
    &&& (i == 0 || s[i - 1] == '/')
    &&& (i + 2 == s.len() || s[i + 2] == '/')
}

pub open spec fn has_parent_component(s: Seq<char>) -> bool {
    exists|i: int| dotdot_at(s, i)
}

/// A path that must carry a valid confirmation: absolute and outside `/tmp/`,
/// or holding a parent-directory component.
pub open spec fn path_sensitive(s: Seq<char>) -> bool {
    (s.len() > 0 && s[0] == '/' && !starts_with(s, "/tmp/"@)) || has_parent_component(s)
}

fn exec_allowed_without_confirmation(program: &str) -> (r: bool)
    ensures
        r == allowed_program(program@),
{
    str_eq(program, "/bin/echo") || str_eq(program, "echo")
}

/// Whether the deny-list stops this exec action outright.
pub fn is_exec_denied(exec: &ExecAction) -> (r: bool)
    ensures
        r == exec_denied(*exec),
{
    if exec.argv.len() == 0 {
        return true;
    }
    let p = exec.argv[0].as_str();
    str_eq(p, "/bin/dd") || str_eq(p, "dd") || str_eq(p, "/sbin/mkfs") || str_eq(
        p,
        "/sbin/mkfs.ext4",
    ) || str_eq(p, "mkfs") || str_eq(p, "mkfs.ext4") || str_eq(p, "/sbin/shutdown") || str_eq(
        p,
        "shutdown",
    ) || str_eq(p, "/sbin/reboot") || str_eq(p, "reboot")
}

/// Whether this exec action must carry a valid confirmation token.
pub fn exec_requires_confirmation(exec: &ExecAction) -> (r: bool)
    ensures
        r == exec_needs_confirmation(*exec),
{
    if exec.argv.len() == 0 {
        return true;
    }
    let p = exec.argv[0].as_str();
    if str_eq(p, "/bin/rm") || str_eq(p, "rm") {
        return true;
    }
    !exec_allowed_without_confirmation(p)
}

/// Whether reading or writing this path must carry a valid confirmation.
pub fn path_requires_confirmation(path: &str) -> (r: bool)
    ensures
        r == path_sensitive(path@),
{
    let v = str_to_chars(path);
    let n = v.len();
    let sensitive_abs: bool = if n == 0 || v[0] != '/' {
        false
    } else {
        let pre = n >= 5 && v[1] == 't' && v[2] == 'm' && v[3] == 'p' && v[4] == '/';
        proof {
            reveal_strlit("/tmp/");
            if pre {
                assert(path@.take(5) =~= "/tmp/"@);
            } else if n >= 5 {
                assert(path@.take(5) != "/tmp/"@) by {
                    assert("/tmp/"@.len() == 5);
                    if path@.take(5) == "/tmp/"@ {
                        assert(path@.take(5)[1] == 't' && path@.take(5)[2] == 'm' && path@.take(5)[3]
                            == 'p' && path@.take(5)[4] == '/');
                    }
                }
            }
        }
        !pre
    };
    let mut found: bool = false;
    let mut i: usize = 0;
    while i < n
        invariant
            n == v.len(),
            v@ == path@,
            i <= n,
            found ==> has_parent_component(path@),
            !found ==> forall|j: int| j < i ==> !dotdot_at(path@, j),
        decreases n - i,
    {
        if !found && n >= 2 && i <= n - 2 {
            if v[i] == '.' && v[i + 1] == '.' && (i == 0 || v[i - 1] == '/') && (i + 2 == n || v[i
                + 2] == '/') {
                proof {
                    assert(dotdot_at(path@, i as int));
                }
                found = true;
            }
        }
        i += 1;
    }
    proof {
        if !found {
            assert(forall|j: int| !dotdot_at(path@, j)) by {
                assert(forall|j: int| j >= n ==> !dotdot_at(path@, j));
            }
        }
    }
    sensitive_abs || found
}

/// Whether the supplied token, trimmed, matches the daemon's expected token.
pub fn confirmation_is_valid(token: Option<&str>, expected_token: &str) -> (r: bool)
    ensures
        r == (token matches Some(t) && trim_chars(t@) == expected_token@),
{
    match token {
        Some(t) => trim_matches(t, expected_token),
        None => false,
    }
}

/// The token a client must present, as configured.
pub fn confirmation_token_hint(expected_token: &str) -> (r: &str)
    ensures
        r@ == expected_token@,
{
    expected_token
}

} // verus!
