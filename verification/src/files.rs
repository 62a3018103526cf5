//! The pure halves of the `read_file` and `write_file` handlers: octal mode
//! parsing, the bounded read buffer step, and the result builders. Opening,
//! reading and writing the actual files happens outside the library, which
//! hands back plain outcome values.

use vstd::prelude::*;

verus! {

use crate::dispatch::base64_of;
use crate::dispatch::base64_encode;
use crate::numbers::{is_octal_digit_char, oct_val, digit_val, lemma_oct_prefix_le};
use crate::text::{str_to_chars, trim_bounds, trim_chars};
use crate::types::{
    ActionError, ActionErrorCode, ActionResult, ReadFileResult, WriteFileAction, WriteFileResult,
};
use crate::validate::strip_octal_prefix;
use vstd::string::StringExecFns;

/// What parsing the mode string as octal yields: the value of its digits
/// after trimming and dropping an optional `0o` prefix, or nothing when a
/// character is not an octal digit, no digits remain, or the value overflows.
pub open spec fn parse_octal_spec(s: Seq<char>) -> Option<u32> {
    let t = strip_octal_prefix(trim_chars(s));
    if t.len() == 0 {
        None
    } else if exists|i: int| 0 <= i < t.len() && !is_octal_digit_char(#[trigger] t[i]) {
        None
    } else if oct_val(t) > u32::MAX {
        None
    } else {
        Some(oct_val(t) as u32)
    }
}

/// Parses the file mode string as octal, as the write handler applies it.
pub fn parse_mode(mode: &str) -> (r: Result<u32, String>)
    ensures
        match r {
            Ok(m) => parse_octal_spec(mode@) == Some(m),
            Err(msg) => parse_octal_spec(mode@) is None && msg@
                == "mode must be an octal string like 0644"@,
        },
{
    let v = str_to_chars(mode);
    let (lo, hi) = trim_bounds(&v);
    let lo2: usize = if hi - lo >= 2 && v[lo] == '0' && v[lo + 1] == 'o' {
        lo + 2
    } else {
        lo
    };
    let ghost t = strip_octal_prefix(trim_chars(mode@));
    proof {
        assert(t =~= v@.subrange(lo2 as int, hi as int));
    }
    if lo2 == hi {
        return Err(String::from_str("mode must be an octal string like 0644"));
    }
    let mut acc: u64 = 0;
    let mut i: usize = lo2;
    while i < hi
        invariant
            v@ == mode@,
            lo2 <= i <= hi <= v.len(),
            lo2 < hi,
            t == strip_octal_prefix(trim_chars(mode@)),
            t == v@.subrange(lo2 as int, hi as int),
            forall|j: int| 0 <= j < i - lo2 ==> is_octal_digit_char(#[trigger] t[j]),
            acc == oct_val(t.take(i - lo2)),
            acc <= u32::MAX,
        decreases hi - i,
    {
        let c = v[i] as u32;
        if c < 0x30 || c > 0x37 {
            proof {
                assert(t[i - lo2] == v@[i as int]);
                assert(!is_octal_digit_char(t[i - lo2]));
            }
            return Err(String::from_str("mode must be an octal string like 0644"));
        }
        let d: u64 = (c - 0x30) as u64;
        let acc2: u64 = acc * 8 + d;
        proof {
            assert(t.take(i - lo2 + 1).drop_last() =~= t.take(i - lo2));
            assert(t.take(i - lo2 + 1).last() == t[i - lo2]);
            assert(digit_val(t[i - lo2]) == d);
            assert(oct_val(t.take(i - lo2 + 1)) == acc * 8 + d);
        }
        if acc2 > 0xFFFF_FFFF {
            proof {
                lemma_oct_prefix_le(t, i - lo2 + 1);
            }
            return Err(String::from_str("mode must be an octal string like 0644"));
        }
        acc = acc2;
        i += 1;
    }
    proof {
        assert(t.take(hi - lo2) =~= t);
    }
    Ok(acc as u32)
}

/// Absorbs one chunk into the bounded read buffer: appends at most what fits
/// below `max + 1` bytes, so memory use never depends on the file's size.
pub fn absorb_chunk(data: &mut Vec<u8>, buf: &[u8], n: usize, max: usize)
    requires
        n <= buf@.len(),
        old(data)@.len() <= max + 1,
        max < 0x1000000,
    ensures
        final(data)@.len() <= max + 1,
        final(data)@ == old(data)@ + buf@.take(
            {
                let room = max + 1 - old(data)@.len();
                if n <= room {
                    n as int
                } else {
                    room as int
                }
            },
        ),
{
    let room: usize = max + 1 - data.len();
    let k: usize = if n <= room {
        n
    } else {
        room
    };
    let ghost data0 = data@;
    let mut j: usize = 0;
    while j < k
        invariant
            k <= n <= buf@.len(),
            j <= k,
            data@ == data0 + buf@.take(j as int),
            data0.len() + k <= max + 1,
        decreases k - j,
    {
        data.push(buf[j]);
        proof {
            assert(data@ =~= data0 + buf@.take(j + 1));
        }
        j += 1;
    }
}

fn aerr(code: ActionErrorCode, message: String) -> (e: ActionError)
    ensures
        e.code == code,
        e.message@ == message@,
{
    ActionError { code, message }
}

fn prefixed(prefix: &str, msg: &str) -> (r: String)
    ensures
        r@ == prefix@ + msg@,
{
    let mut out = String::from_str(prefix);
    out.append(msg);
    out
}

/// The result of a bounded read that reached its end: keeps the first
/// `max` bytes base64-encoded and reports whether anything was cut.
pub fn read_done_result(data: &Vec<u8>, max: usize) -> (r: ActionResult)
    requires
        data@.len() <= max + 1,
        max < 0x1000000,
    ensures
        r matches ActionResult::ReadFile(x) && x.ok && x.truncated == (data@.len() > max) && (
        x.content_base64 matches Some(c) && c@ == base64_of(
            if data@.len() > max {
                data@.take(max as int)
            } else {
                data@
            },
        )) && x.error is None,
{
    let truncated = data.len() > max;
    let encoded: String = if truncated {
        let head = vstd::slice::slice_subrange(data.as_slice(), 0, max);
        base64_encode(head)
    } else {
        base64_encode(data.as_slice())
    };
    ActionResult::ReadFile(
        ReadFileResult { ok: true, content_base64: Some(encoded), truncated, error: None },
    )
}

/// The result of a read that failed to open or read the file.
pub fn read_failed_result(msg: &str) -> (r: ActionResult)
    ensures
        r matches ActionResult::ReadFile(x) && !x.ok && x.content_base64 is None && !x.truncated
            && (x.error matches Some(er) && er.code == ActionErrorCode::ReadFailed && er.message@
            == "read failed: "@ + msg@),
{
    ActionResult::ReadFile(
        ReadFileResult {
            ok: false,
            content_base64: None,
            truncated: false,
            error: Some(aerr(ActionErrorCode::ReadFailed, prefixed("read failed: ", msg))),
        },
    )
}

/// The mode bits to apply for a write action, or the finished result when the
/// mode string does not parse (defensive: validation already rejects such a
/// mode).
pub fn write_mode_or_error(w: &WriteFileAction) -> (r: Result<u32, ActionResult>)
    ensures
        match r {
            Ok(m) => parse_octal_spec(w.mode@) == Some(m),
            Err(res) => parse_octal_spec(w.mode@) is None && (res
                matches ActionResult::WriteFile(x) && !x.ok && x.artifacts@.len() == 0 && (
            x.error matches Some(er) && er.code == ActionErrorCode::InvalidModeString
                && er.message@ == "mode must be an octal string like 0644"@)),
        },
{
    match parse_mode(w.mode.as_str()) {
        Ok(m) => Ok(m),
        Err(msg) => Err(
            ActionResult::WriteFile(
                WriteFileResult {
                    ok: false,
                    artifacts: Vec::new(),
                    error: Some(aerr(ActionErrorCode::InvalidModeString, msg)),
                },
            ),
        ),
    }
}

/// The result of a write whose write step failed.
pub fn write_failed_result(msg: &str) -> (r: ActionResult)
    ensures
        r matches ActionResult::WriteFile(x) && !x.ok && x.artifacts@.len() == 0 && (
        x.error matches Some(er) && er.code == ActionErrorCode::WriteFailed && er.message@
            == "write failed: "@ + msg@),
{
    ActionResult::WriteFile(
        WriteFileResult {
            ok: false,
            artifacts: Vec::new(),
            error: Some(aerr(ActionErrorCode::WriteFailed, prefixed("write failed: ", msg))),
        },
    )
}

/// The result of a write whose permission step failed.
pub fn chmod_failed_result(msg: &str) -> (r: ActionResult)
    ensures
        r matches ActionResult::WriteFile(x) && !x.ok && x.artifacts@.len() == 0 && (
        x.error matches Some(er) && er.code == ActionErrorCode::WriteFailed && er.message@
            == "chmod failed: "@ + msg@),
{
    ActionResult::WriteFile(
        WriteFileResult {
            ok: false,
            artifacts: Vec::new(),
            error: Some(aerr(ActionErrorCode::WriteFailed, prefixed("chmod failed: ", msg))),
        },
    )
}

/// The result of a completed write: the written path is its one artifact.
pub fn write_ok_result(path: &str) -> (r: ActionResult)
    ensures
        r matches ActionResult::WriteFile(x) && x.ok && x.artifacts@.len() == 1 && x.artifacts@[0]@
            == path@ && x.error is None,
{
    let mut artifacts: Vec<String> = Vec::new();
    artifacts.push(String::from_str(path));
    ActionResult::WriteFile(WriteFileResult { ok: true, artifacts, error: None })
}

} // verus!
