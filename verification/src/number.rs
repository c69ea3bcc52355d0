//! Decimal integers in text: parsing as `str::parse` does for `i64` and
//! `u32`, and formatting as `to_string` does.

use vstd::prelude::*;
use crate::text::{is_ascii_digit, is_digit_char};

verus! {

pub open spec fn digit_value(c: char) -> int {
    (c as u32) - ('0' as u32)
}

pub open spec fn all_digits(s: Seq<char>) -> bool {
    forall|k: int| 0 <= k < s.len() ==> is_ascii_digit(#[trigger] s[k])
}

/// The value of a run of decimal digits.
pub open spec fn digits_value(s: Seq<char>) -> int
    decreases s.len(),
{
    if s.len() == 0 {
        0
    } else {
        digits_value(s.drop_last()) * 10 + digit_value(s.last())
    }
}

/// An optionally signed run of decimal digits, as a mathematical integer.
pub open spec fn parse_int_spec(s: Seq<char>) -> Option<int> {
    if s.len() == 0 {
        None
    } else if s[0] == '+' || s[0] == '-' {
        let body = s.drop_first();
        if body.len() > 0 && all_digits(body) {
            Some(
                if s[0] == '-' {
                    -digits_value(body)
                } else {
                    digits_value(body)
                },
            )
        } else {
            None
        }
    } else if all_digits(s) {
        Some(digits_value(s))
    } else {
        None
    }
}

/// `str::parse::<i64>`.
pub open spec fn parse_i64_spec(s: Seq<char>) -> Option<int> {
    match parse_int_spec(s) {
        Some(v) => if i64::MIN <= v <= i64::MAX {
            Some(v)
        } else {
            None
        },
        None => None,
    }
}

/// `str::parse::<u32>`: no `-` sign.
pub open spec fn parse_u32_spec(s: Seq<char>) -> Option<int> {
    if s.len() > 0 && s[0] == '-' {
        None
    } else {
        match parse_int_spec(s) {
            Some(v) => if 0 <= v <= u32::MAX {
                Some(v)
            } else {
                None
            },
            None => None,
        }
    }
}

proof fn lemma_digits_value_nonneg(s: Seq<char>)
    requires
        all_digits(s),
    ensures
        digits_value(s) >= 0,
    decreases s.len(),
{
    if s.len() > 0 {
        assert forall|k: int| 0 <= k < s.drop_last().len() implies is_ascii_digit(
            #[trigger] s.drop_last()[k],
        ) by {
            assert(s.drop_last()[k] == s[k]);
        }
        assert(is_ascii_digit(s[s.len() - 1]));
        lemma_digits_value_nonneg(s.drop_last());
    }
}

/// Appending digits never lowers the value.
proof fn lemma_digits_value_monotone(s: Seq<char>, k: int)
    requires
        all_digits(s),
        0 <= k <= s.len(),
    ensures
        digits_value(s.take(k)) <= digits_value(s),
    decreases s.len() - k,
{
    if k < s.len() {
        lemma_digits_value_monotone(s, k + 1);
        let t = s.take(k + 1);
        assert(t.drop_last() =~= s.take(k));
        assert(t.last() == s[k]);
        assert(is_ascii_digit(s[k]));
        assert forall|m: int| 0 <= m < s.take(k).len() implies is_ascii_digit(
            #[trigger] s.take(k)[m],
        ) by {
            assert(s.take(k)[m] == s[m]);
        }
        lemma_digits_value_nonneg(s.take(k));
        assert(digits_value(t) == digits_value(s.take(k)) * 10 + digit_value(s[k]));
    } else {
        assert(s.take(k) =~= s);
    }
}

/// The value of the digits of `s` from `start`, when it stays below
/// 2^64; `None` when it does not.
fn digits_magnitude(s: &[char], start: usize) -> (r: Option<u64>)
    requires
        start <= s@.len(),
        all_digits(s@.skip(start as int)),
    ensures
        match r {
            Some(m) => m == digits_value(s@.skip(start as int)),
            None => digits_value(s@.skip(start as int)) > u64::MAX,
        },
{
    let ghost body = s@.skip(start as int);
    let mut acc: u64 = 0;
    let mut i: usize = start;
    while i < s.len()
        invariant
            start <= i <= s@.len(),
            body == s@.skip(start as int),
            all_digits(body),
            acc == digits_value(body.take(i - start)),
        decreases s.len() - i,
    {
        let ghost t = body.take(i - start + 1);
        assert(t.drop_last() =~= body.take(i - start));
        assert(t.last() == s@[i as int]);
        assert(body[i - start] == s@[i as int]);
        assert(is_ascii_digit(s@[i as int]));
        let c = s[i];
        let d = (c as u32 - '0' as u32) as u64;
        assert(d == digit_value(c));
        assert(digits_value(t) == acc * 10 + d);
        if acc > (u64::MAX - d) / 10 {
            proof {
                assert(acc * 10 + d > u64::MAX) by (nonlinear_arith)
                    requires
                        acc > (u64::MAX - d) / 10,
                        d <= 9,
                ;
                lemma_digits_value_monotone(body, i - start + 1);
            }
            return None;
        }
        assert(acc * 10 + d <= u64::MAX) by (nonlinear_arith)
            requires
                acc <= (u64::MAX - d) / 10,
                d <= 9,
        ;
        acc = acc * 10 + d;
        i = i + 1;
    }
    assert(body.take(i - start) =~= body);
    Some(acc)
}

fn all_digits_from(s: &[char], start: usize) -> (r: bool)
    requires
        start <= s@.len(),
    ensures
        r == all_digits(s@.skip(start as int)),
{
    let mut i: usize = start;
    while i < s.len()
        invariant
            start <= i <= s@.len(),
            forall|k: int| start <= k < i ==> is_ascii_digit(#[trigger] s@[k]),
        decreases s.len() - i,
    {
        if !is_digit_char(s[i]) {
            assert(!is_ascii_digit(s@.skip(start as int)[i - start]));
            return false;
        }
        i = i + 1;
    }
    assert forall|k: int| 0 <= k < s@.skip(start as int).len() implies is_ascii_digit(
        #[trigger] s@.skip(start as int)[k],
    ) by {
        assert(s@.skip(start as int)[k] == s@[start + k]);
    }
    true
}

/// `str::parse::<i64>`.
pub fn parse_i64(s: &[char]) -> (r: Option<i64>)
    ensures
        match r {
            Some(v) => parse_i64_spec(s@) == Some(v as int),
            None => parse_i64_spec(s@) is None,
        },
{
    if s.len() == 0 {
        return None;
    }
    let signed = s[0] == '+' || s[0] == '-';
    let start: usize = if signed {
        1
    } else {
        0
    };
    if signed && s.len() == 1 {
        return None;
    }
    if !all_digits_from(s, start) {
        assert(s@.drop_first() =~= s@.skip(1));
        assert(s@.skip(0) =~= s@);
        return None;
    }
    assert(s@.drop_first() =~= s@.skip(1));
    assert(s@.skip(0) =~= s@);
    match digits_magnitude(s, start) {
        Some(m) => {
            if s[0] == '-' {
                if m <= 0x8000_0000_0000_0000 {
                    let v: i128 = -(m as i128);
                    Some(v as i64)
                } else {
                    None
                }
            } else if m <= 0x7fff_ffff_ffff_ffff {
                Some(m as i64)
            } else {
                None
            }
        },
        None => None,
    }
}

/// `str::parse::<u32>`.
pub fn parse_u32(s: &[char]) -> (r: Option<u32>)
    ensures
        match r {
            Some(v) => parse_u32_spec(s@) == Some(v as int),
            None => parse_u32_spec(s@) is None,
        },
{
    if s.len() > 0 && s[0] == '-' {
        return None;
    }
    match parse_i64(s) {
        Some(v) => {
            if 0 <= v && v <= 0xffff_ffff {
                Some(v as u32)
            } else {
                None
            }
        },
        None => {
            // out of the range of i64 is out of the range of u32 too
            None
        },
    }
}

pub open spec fn digit_char(d: int) -> char {
    (d + '0' as int) as char
}

/// Decimal digits of a natural number.
pub open spec fn dec_spec(n: nat) -> Seq<char>
    decreases n,
{
    if n < 10 {
        seq![digit_char(n as int)]
    } else {
        dec_spec(n / 10).push(digit_char((n % 10) as int))
    }
}

/// `to_string` of an integer.
pub open spec fn int_to_string_spec(v: int) -> Seq<char> {
    if v < 0 {
        seq!['-'] + dec_spec((-v) as nat)
    } else {
        dec_spec(v as nat)
    }
}

/// Decimal digits of `n`.
pub fn dec_u64(n: u64) -> (r: Vec<char>)
    ensures
        r@ == dec_spec(n as nat),
    decreases n,
{
    let d = ((n % 10) as u8 + 48) as char;
    assert(d == digit_char((n % 10) as int));
    if n < 10 {
        let mut v: Vec<char> = Vec::new();
        v.push(d);
        assert(v@ =~= seq![digit_char(n as int)]);
        v
    } else {
        let mut v = dec_u64(n / 10);
        v.push(d);
        v
    }
}

/// `i64::to_string`.
pub fn i64_to_string(v: i64) -> (r: Vec<char>)
    ensures
        r@ == int_to_string_spec(v as int),
{
    if v < 0 {
        let m: i128 = -(v as i128);
        let digits = dec_u64(m as u64);
        let mut out: Vec<char> = Vec::new();
        out.push('-');
        let mut i: usize = 0;
        while i < digits.len()
            invariant
                i <= digits@.len(),
                out@ == seq!['-'] + digits@.take(i as int),
            decreases digits.len() - i,
        {
            out.push(digits[i]);
            i = i + 1;
            assert(out@ =~= seq!['-'] + digits@.take(i as int));
        }
        assert(digits@.take(i as int) =~= digits@);
        out
    } else {
        dec_u64(v as u64)
    }
}

} // verus!
