//! Decimal and octal digit strings: printing integers for argv previews and
//! the wire format, and parsing octal file modes, with exact specifications.

use vstd::prelude::*;

verus! {

pub open spec fn is_digit_char(c: char) -> bool {
    '0' as u32 <= c as u32 <= '9' as u32
}

pub open spec fn digit_val(c: char) -> nat {
    (c as u32 - '0' as u32) as nat
}

pub open spec fn digit_char(d: nat) -> char {
    if d == 0 {
        '0'
    } else if d == 1 {
        '1'
    } else if d == 2 {
        '2'
    } else if d == 3 {
        '3'
    } else if d == 4 {
        '4'
    } else if d == 5 {
        '5'
    } else if d == 6 {
        '6'
    } else if d == 7 {
        '7'
    } else if d == 8 {
        '8'
    } else {
        '9'
    }
}

/// The decimal digit string of `n`, most significant digit first.
pub open spec fn spec_dec(n: nat) -> Seq<char>
    decreases n,
{
    if n < 10 {
        seq![digit_char(n)]
    } else {
        spec_dec(n / 10).push(digit_char(n % 10))
    }
}

/// Numeric value of a decimal digit string.
pub open spec fn dec_val(s: Seq<char>) -> nat
    decreases s.len(),
{
    if s.len() == 0 {
        0
    } else {
        dec_val(s.drop_last()) * 10 + digit_val(s.last())
    }
}

/// The decimal digit string of a signed value: a minus sign, then the
/// magnitude, for negative values.
pub open spec fn spec_dec_int(n: int) -> Seq<char> {
    if n >= 0 {
        spec_dec(n as nat)
    } else {
        seq!['-'] + spec_dec((-n) as nat)
    }
}

fn digit_to_char(d: u64) -> (c: char)
    requires
        d < 10,
    ensures
        c == digit_char(d as nat),
{
    if d == 0 {
        '0'
    } else if d == 1 {
        '1'
    } else if d == 2 {
        '2'
    } else if d == 3 {
        '3'
    } else if d == 4 {
        '4'
    } else if d == 5 {
        '5'
    } else if d == 6 {
        '6'
    } else if d == 7 {
        '7'
    } else if d == 8 {
        '8'
    } else {
        '9'
    }
}

/// The decimal digits of `n`, most significant first.
pub fn u64_dec_chars(n: u64) -> (v: Vec<char>)
    ensures
        v@ == spec_dec(n as nat),
{
    let mut acc: Vec<char> = Vec::new();
    let mut m: u64 = n;
    let d = m % 10;
    acc.insert(0, digit_to_char(d));
    m = m / 10;
    proof {
        if n < 10 {
            assert(acc@ =~= spec_dec(n as nat));
        } else {
            assert(spec_dec(n as nat) =~= spec_dec(m as nat) + acc@);
        }
    }
    while m > 0
        invariant
            m > 0 ==> spec_dec(n as nat) == spec_dec(m as nat) + acc@,
            m == 0 ==> spec_dec(n as nat) == acc@,
        decreases m,
    {
        let ghost acc0 = acc@;
        let d2 = m % 10;
        let m2 = m / 10;
        acc.insert(0, digit_to_char(d2));
        proof {
            assert(acc@ =~= seq![digit_char((m % 10) as nat)] + acc0);
            if m2 > 0 {
                assert(spec_dec(m as nat) =~= spec_dec(m2 as nat) + seq![
                    digit_char((m % 10) as nat),
                ]);
                assert(spec_dec(m2 as nat) + (seq![digit_char((m % 10) as nat)] + acc0)
                    =~= (spec_dec(m2 as nat) + seq![digit_char((m % 10) as nat)]) + acc0);
            } else {
                assert(spec_dec(m as nat) =~= seq![digit_char((m % 10) as nat)]);
            }
        }
        m = m2;
    }
    acc
}

/// The decimal digits of a signed 32-bit value, minus sign included.
pub fn i32_dec_chars(n: i32) -> (v: Vec<char>)
    ensures
        v@ == spec_dec_int(n as int),
{
    if n >= 0 {
        u64_dec_chars(n as u64)
    } else {
        let mag: u64 = (-(n as i64)) as u64;
        let mut v: Vec<char> = Vec::new();
        v.push('-');
        let mut digits = u64_dec_chars(mag);
        v.append(&mut digits);
        proof {
            assert(v@ =~= seq!['-'] + spec_dec(mag as nat));
        }
        v
    }
}

/// A digit character carries the digit's value.
pub proof fn lemma_digit_val_char(d: nat)
    requires
        d < 10,
    ensures
        digit_val(digit_char(d)) == d,
{
    assert(digit_val('0') == 0 && digit_val('1') == 1 && digit_val('2') == 2 && digit_val('3') == 3
        && digit_val('4') == 4 && digit_val('5') == 5 && digit_val('6') == 6 && digit_val('7') == 7
        && digit_val('8') == 8 && digit_val('9') == 9);
}

/// Printing then re-reading a decimal value gives the value back.
pub proof fn lemma_dec_roundtrip(n: nat)
    ensures
        dec_val(spec_dec(n)) == n,
    decreases n,
{
    if n < 10 {
        lemma_digit_val_char(n);
        assert(spec_dec(n) == seq![digit_char(n)]);
        assert(spec_dec(n).drop_last() =~= Seq::<char>::empty());
        assert(spec_dec(n).last() == digit_char(n));
        assert(dec_val(spec_dec(n)) == dec_val(Seq::<char>::empty()) * 10 + digit_val(
            digit_char(n),
        ));
    } else {
        lemma_digit_val_char(n % 10);
        lemma_dec_roundtrip(n / 10);
        assert(spec_dec(n).drop_last() =~= spec_dec(n / 10));
        assert(n == (n / 10) * 10 + n % 10) by {
            vstd::arithmetic::div_mod::lemma_fundamental_div_mod(n as int, 10);
        }
    }
}

pub open spec fn is_octal_digit_char(c: char) -> bool {
    '0' as u32 <= c as u32 <= '7' as u32
}

/// Numeric value of an octal digit string.
pub open spec fn oct_val(s: Seq<char>) -> nat
    decreases s.len(),
{
    if s.len() == 0 {
        0
    } else {
        oct_val(s.drop_last()) * 8 + digit_val(s.last())
    }
}

pub proof fn lemma_oct_prefix_le(s: Seq<char>, j: int)
    requires
        0 <= j <= s.len(),
    ensures
        oct_val(s.take(j)) <= oct_val(s),
    decreases s.len() - j,
{
    if j < s.len() {
        lemma_oct_prefix_le(s, j + 1);
        assert(s.take(j + 1).drop_last() =~= s.take(j));
        assert(oct_val(s.take(j)) <= oct_val(s.take(j + 1)));
    } else {
        assert(s.take(j) =~= s);
    }
}

} // verus!
