//! Character-level text helpers shared by the validator, the policy engine
//! and the wire codec: whitespace trimming, blankness, byte lengths, and
//! string comparison, each with an exact specification.

use vstd::prelude::*;

verus! {

use vstd::string::StringSliceAdditionalSpecFns;
use vstd::string::StrSliceExecFns;
use vstd::std_specs::iter::IteratorSpec;

/// Byte length of a string value: the length of its UTF-8 encoding.
pub open spec fn blen(s: Seq<char>) -> nat {
    vstd::utf8::encode_utf8(s).len()
}

/// Byte length of a string, tied exactly to `blen` of its view.
pub fn byte_len(s: &str) -> (n: usize)
    ensures
        n == blen(s@),
{
    s.as_bytes().len()
}

/// Unicode whitespace, the set `str::trim` and `char::is_whitespace` use.
pub open spec fn is_space_char(c: char) -> bool {
    ||| c == ' '
    ||| c == '\t'
    ||| c == '\n'
    ||| c == '\r'
    ||| c == '\u{000B}'
    ||| c == '\u{000C}'
    ||| c == '\u{0085}'
    ||| c == '\u{00A0}'
    ||| c == '\u{1680}'
    ||| ('\u{2000}' as u32 <= c as u32 && c as u32 <= '\u{200A}' as u32)
    ||| c == '\u{2028}'
    ||| c == '\u{2029}'
    ||| c == '\u{202F}'
    ||| c == '\u{205F}'
    ||| c == '\u{3000}'
}

/// A string is blank when every character is whitespace (so trimming it
/// leaves nothing). The empty string is blank.
pub open spec fn blank(s: Seq<char>) -> bool {
    forall|i: int| 0 <= i < s.len() ==> is_space_char(#[trigger] s[i])
}

pub open spec fn trim_front(s: Seq<char>) -> Seq<char>
    decreases s.len(),
{
    if s.len() > 0 && is_space_char(s[0]) {
        trim_front(s.drop_first())
    } else {
        s
    }
}

pub open spec fn trim_back(s: Seq<char>) -> Seq<char>
    decreases s.len(),
{
    if s.len() > 0 && is_space_char(s.last()) {
        trim_back(s.drop_last())
    } else {
        s
    }
}

/// What `str::trim` leaves: the string without leading and trailing whitespace.
pub open spec fn trim_chars(s: Seq<char>) -> Seq<char> {
    trim_back(trim_front(s))
}

/// Whether a character is whitespace for the purposes of trimming.
pub fn is_space(c: char) -> (b: bool)
    ensures
        b == is_space_char(c),
{
    let u = c as u32;
    u == 0x20 || (0x09 <= u && u <= 0x0D) || u == 0x85 || u == 0xA0 || u == 0x1680 || (0x2000 <= u
        && u <= 0x200A) || u == 0x2028 || u == 0x2029 || u == 0x202F || u == 0x205F || u == 0x3000
}

/// Collects a string's characters into a vector.
pub fn str_to_chars(s: &str) -> (v: Vec<char>)
    ensures
        v@ == s@,
{
    broadcast use vstd::string::axiom_spec_iter, vstd::string::next_postcondition;

    let mut v: Vec<char> = Vec::new();
    let mut it = s.chars();
    loop
        invariant
            it.obeys_prophetic_iter_laws(),
            it.decrease() is Some,
            v@ + it.remaining() == s@,
        ensures
            v@ == s@,
        decreases it.decrease()->0,
    {
        match it.next() {
            Some(c) => {
                v.push(c);
                proof {
                    assert(v@ + it.remaining() =~= s@);
                }
            },
            None => {
                proof {
                    assert(v@ =~= s@);
                }
                break ;
            },
        }
    }
    v
}

/// Relies on std's `FromIterator<char> for String` (via `Iterator::collect`):
/// the resulting string consists of exactly the given characters in order.
#[verifier::external_body]
pub fn chars_to_string(v: &Vec<char>) -> (s: String)
    ensures
        s@ == v@,
{
    v.iter().collect()
}

/// Whether the string trims to nothing, as `str::trim(..).is_empty()` reports.
pub fn str_is_blank(s: &str) -> (b: bool)
    ensures
        b == blank(s@),
{
    let v = str_to_chars(s);
    let n = v.len();
    let mut i: usize = 0;
    while i < n
        invariant
            n == v.len(),
            v@ == s@,
            i <= n,
            forall|j: int| 0 <= j < i ==> is_space_char(#[trigger] s@[j]),
        decreases n - i,
    {
        if !is_space(v[i]) {
            return false;
        }
        i += 1;
    }
    true
}

/// Whether two strings hold the same characters.
pub fn str_eq(a: &str, b: &str) -> (r: bool)
    ensures
        r == (a@ == b@),
{
    broadcast use vstd::utf8::encode_utf8_decode_utf8;

    let ab = a.as_bytes();
    let bb = b.as_bytes();
    if ab.len() != bb.len() {
        proof {
            assert(a@ != b@);
        }
        return false;
    }
    let n = ab.len();
    let mut i: usize = 0;
    while i < n
        invariant
            n == ab@.len() == bb@.len(),
            ab@ == a.spec_bytes(),
            bb@ == b.spec_bytes(),
            i <= n,
            forall|j: int| 0 <= j < i ==> ab@[j] == bb@[j],
        decreases n - i,
    {
        if ab[i] != bb[i] {
            return false;
        }
        i += 1;
    }
    proof {
        assert(a.spec_bytes() =~= b.spec_bytes());
        assert(vstd::utf8::decode_utf8(a.spec_bytes()) == a@);
        assert(vstd::utf8::decode_utf8(b.spec_bytes()) == b@);
    }
    true
}

proof fn lemma_trim_front_skip(s: Seq<char>, lo: int)
    requires
        0 <= lo <= s.len(),
        forall|j: int| 0 <= j < lo ==> is_space_char(#[trigger] s[j]),
        lo < s.len() ==> !is_space_char(s[lo]),
    ensures
        trim_front(s) == s.skip(lo),
    decreases lo,
{
    if lo == 0 {
        assert(s.skip(0) =~= s);
    } else {
        let t = s.drop_first();
        assert(forall|j: int| 0 <= j < lo - 1 ==> is_space_char(#[trigger] t[j]));
        lemma_trim_front_skip(t, lo - 1);
        assert(t.skip(lo - 1) =~= s.skip(lo));
    }
}

proof fn lemma_trim_back_take(s: Seq<char>, hi: int)
    requires
        0 <= hi <= s.len(),
        forall|j: int| hi <= j < s.len() ==> is_space_char(#[trigger] s[j]),
        hi > 0 ==> !is_space_char(s[hi - 1]),
    ensures
        trim_back(s) == s.take(hi),
    decreases s.len() - hi,
{
    if hi == s.len() {
        assert(s.take(hi) =~= s);
    } else {
        let t = s.drop_last();
        assert(forall|j: int| hi <= j < t.len() ==> is_space_char(#[trigger] t[j]));
        lemma_trim_back_take(t, hi);
        assert(t.take(hi) =~= s.take(hi));
    }
}

/// Index bounds of the trimmed middle of a character vector: trimming keeps
/// exactly the characters from the first returned index up to the second.
pub fn trim_bounds(v: &Vec<char>) -> (r: (usize, usize))
    ensures
        r.0 <= r.1 <= v.len(),
        trim_chars(v@) == v@.subrange(r.0 as int, r.1 as int),
{
    let n = v.len();
    let mut lo: usize = 0;
    loop
        invariant
            n == v.len(),
            lo <= n,
            forall|j: int| 0 <= j < lo ==> is_space_char(#[trigger] v@[j]),
        ensures
            lo <= n,
            forall|j: int| 0 <= j < lo ==> is_space_char(#[trigger] v@[j]),
            lo < n ==> !is_space_char(v@[lo as int]),
        decreases n - lo,
    {
        if lo >= n {
            break ;
        }
        if !is_space(v[lo]) {
            break ;
        }
        lo += 1;
    }
    let mut hi: usize = n;
    loop
        invariant
            n == v.len(),
            lo <= hi <= n,
            forall|j: int| hi <= j < n ==> is_space_char(#[trigger] v@[j]),
        ensures
            lo <= hi <= n,
            forall|j: int| hi <= j < n ==> is_space_char(#[trigger] v@[j]),
            hi > lo ==> !is_space_char(v@[hi - 1]),
        decreases hi,
    {
        if hi <= lo {
            break ;
        }
        if !is_space(v[hi - 1]) {
            break ;
        }
        hi -= 1;
    }
    proof {
        lemma_trim_front_skip(v@, lo as int);
        if lo == n {
            assert(v@.skip(lo as int).len() == 0);
            assert(trim_back(v@.skip(lo as int)) =~= v@.skip(lo as int));
            assert(v@.subrange(lo as int, hi as int) =~= v@.skip(lo as int));
        } else {
            let u = v@.skip(lo as int);
            assert(forall|j: int| hi - lo <= j < u.len() ==> is_space_char(#[trigger] u[j])) by {
                assert(forall|j: int| hi - lo <= j < u.len() ==> u[j] == v@[j + lo]);
            }
            assert(hi > lo);
            assert(u[hi - lo - 1] == v@[hi - 1]);
            lemma_trim_back_take(u, hi - lo);
            assert(u.take(hi - lo) =~= v@.subrange(lo as int, hi as int));
        }
    }
    (lo, hi)
}

/// Whether trimming `t` yields exactly `expected`, as
/// `t.trim() == expected` reports.
pub fn trim_matches(t: &str, expected: &str) -> (r: bool)
    ensures
        r == (trim_chars(t@) == expected@),
{
    let v = str_to_chars(t);
    let e = str_to_chars(expected);
    let n = v.len();
    let (lo, hi) = trim_bounds(&v);
    let m = hi - lo;
    if m != e.len() {
        return false;
    }
    let mut k: usize = 0;
    while k < m
        invariant
            v@ == t@,
            e@ == expected@,
            lo + m <= n == v.len(),
            m == e.len(),
            trim_chars(t@) == t@.subrange(lo as int, (lo + m) as int),
            k <= m,
            forall|j: int| 0 <= j < k ==> t@[lo + j] == expected@[j],
        decreases m - k,
    {
        if v[lo + k] != e[k] {
            proof {
                assert(trim_chars(t@)[k as int] != expected@[k as int]);
            }
            return false;
        }
        k += 1;
    }
    proof {
        assert(trim_chars(t@) =~= expected@);
    }
    true
}

} // verus!
