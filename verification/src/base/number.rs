//! Decimal integers in text.
//!
//! The grammar is the one of the integer types' own parsers: an optional sign,
//! then one or more ASCII digits, and nothing else. A minus sign is read only
//! for signed types. A value outside the target type is no number.

use vstd::prelude::*;
use crate::base::text::to_chars;

verus! {

/// The ASCII digits `0` to `9`.
pub open spec fn is_digit(c: char) -> bool {
    0x30 <= c as u32 <= 0x39
}

/// The value of a digit.
pub open spec fn digit_value(c: char) -> nat {
    if is_digit(c) {
        (c as u32 - 0x30) as nat
    } else {
        0
    }
}

/// Whether `s` holds nothing but ASCII digits.
pub open spec fn all_digits(s: Seq<char>) -> bool {
    forall|i: int| 0 <= i < s.len() ==> is_digit(#[trigger] s[i])
}

/// The number that the digits `s` write in base ten.
pub open spec fn digits_value(s: Seq<char>) -> nat
    decreases s.len(),
{
    if s.len() == 0 {
        0
    } else {
        digits_value(s.drop_last()) * 10 + digit_value(s.last())
    }
}

/// The integer that `s` writes, whatever its size: an optional `+`, or `-` where
/// `signed`, then at least one digit.
pub open spec fn spec_decimal(s: Seq<char>, signed: bool) -> Option<int> {
    if s.len() == 0 {
        None
    } else if s[0] == '+' || (signed && s[0] == '-') {
        let digits = s.skip(1);
        if digits.len() > 0 && all_digits(digits) {
            if s[0] == '-' {
                Some(-(digits_value(digits) as int))
            } else {
                Some(digits_value(digits) as int)
            }
        } else {
            None
        }
    } else if all_digits(s) {
        Some(digits_value(s) as int)
    } else {
        None
    }
}

/// `v`, if it lies between `min` and `max`.
pub open spec fn bounded(v: Option<int>, min: int, max: int) -> Option<int> {
    match v {
        Some(x) => if min <= x <= max {
            Some(x)
        } else {
            None
        },
        None => None,
    }
}

/// A longer run of digits writes no smaller number than any of its prefixes.
pub proof fn lemma_digits_value_prefix(s: Seq<char>, k: int)
    requires
        0 <= k <= s.len(),
    ensures
        digits_value(s.take(k)) <= digits_value(s),
    decreases s.len(),
{
    if k == s.len() {
        assert(s.take(k) =~= s);
    } else {
        lemma_digits_value_prefix(s.drop_last(), k);
        assert(s.drop_last().take(k) =~= s.take(k));
    }
}

/// Whether `c` is an ASCII digit.
pub fn digit(c: char) -> (b: bool)
    ensures
        b == is_digit(c),
{
    let n: u32 = c as u32;
    0x30 <= n && n <= 0x39
}

/// The integer that `chars` writes, if it lies between `min` and `max`.
#[verifier::loop_isolation(false)]
fn parse_decimal(chars: &Vec<char>, signed: bool, min: i128, max: i128) -> (r: Option<i128>)
    requires
        -0x8000_0000_0000_0000 <= min <= 0 <= max <= 0xFFFF_FFFF_FFFF_FFFF,
    ensures
        match r {
            Some(x) => bounded(spec_decimal(chars@, signed), min as int, max as int) == Some(
                x as int,
            ),
            None => bounded(spec_decimal(chars@, signed), min as int, max as int) is None,
        },
{
    let n: usize = chars.len();
    if n == 0 {
        return None;
    }
    let negative: bool = signed && chars[0] == '-';
    let first: usize = if negative || chars[0] == '+' {
        1
    } else {
        0
    };
    if first == n {
        return None;
    }
    let ghost digits = chars@.skip(first as int);
    proof {
        if first == 0 {
            assert(digits =~= chars@);
        }
    }
    let limit: i128 = if negative {
        -min
    } else {
        max
    };
    let mut acc: i128 = 0;
    let mut k: usize = first;
    while k < n
        invariant
            first <= k <= n == chars.len(),
            digits == chars@.skip(first as int),
            all_digits(digits.take(k - first)),
            acc == digits_value(digits.take(k - first)),
            0 <= acc <= limit <= 0xFFFF_FFFF_FFFF_FFFF,
        decreases n - k,
    {
        let c: char = chars[k];
        assert(digits[k - first] == c);
        if !digit(c) {
            return None;
        }
        let d: i128 = (c as u32 - 0x30) as i128;
        let next: i128 = acc * 10 + d;
        proof {
            let longer = digits.take(k - first + 1);
            assert(longer.drop_last() =~= digits.take(k - first));
            assert(longer.last() == c);
            assert(digits_value(longer) == next);
            assert forall|j: int| 0 <= j < longer.len() implies is_digit(#[trigger] longer[j]) by {
                if j < k - first {
                    assert(digits.take(k - first)[j] == longer[j]);
                }
            }
        }
        if next > limit {
            proof {
                lemma_digits_value_prefix(digits, k - first + 1);
            }
            return None;
        }
        acc = next;
        k += 1;
    }
    proof {
        assert(digits.take(n - first) =~= digits);
    }
    if negative {
        Some(-acc)
    } else {
        Some(acc)
    }
}

/// The `i32` that `s` writes.
pub open spec fn spec_parse_i32(s: Seq<char>) -> Option<i32> {
    match bounded(spec_decimal(s, true), i32::MIN as int, i32::MAX as int) {
        Some(v) => Some(v as i32),
        None => None,
    }
}

/// The `i64` that `s` writes.
pub open spec fn spec_parse_i64(s: Seq<char>) -> Option<i64> {
    match bounded(spec_decimal(s, true), i64::MIN as int, i64::MAX as int) {
        Some(v) => Some(v as i64),
        None => None,
    }
}

/// The `u8` that `s` writes.
pub open spec fn spec_parse_u8(s: Seq<char>) -> Option<u8> {
    match bounded(spec_decimal(s, false), 0, u8::MAX as int) {
        Some(v) => Some(v as u8),
        None => None,
    }
}

/// The `usize` that `s` writes.
pub open spec fn spec_parse_usize(s: Seq<char>) -> Option<usize> {
    match bounded(spec_decimal(s, false), 0, usize::MAX as int) {
        Some(v) => Some(v as usize),
        None => None,
    }
}

/// The `i32` that `text` writes, or `None` if it writes none.
pub fn parse_i32(text: &str) -> (r: Option<i32>)
    ensures
        r == spec_parse_i32(text@),
{
    let chars = to_chars(text);
    match parse_decimal(&chars, true, i32::MIN as i128, i32::MAX as i128) {
        Some(v) => Some(v as i32),
        None => None,
    }
}

/// The `i64` that `text` writes, or `None` if it writes none.
pub fn parse_i64(text: &str) -> (r: Option<i64>)
    ensures
        r == spec_parse_i64(text@),
{
    let chars = to_chars(text);
    match parse_decimal(&chars, true, i64::MIN as i128, i64::MAX as i128) {
        Some(v) => Some(v as i64),
        None => None,
    }
}

/// The `u8` that `text` writes, or `None` if it writes none.
pub fn parse_u8(text: &str) -> (r: Option<u8>)
    ensures
        r == spec_parse_u8(text@),
{
    let chars = to_chars(text);
    match parse_decimal(&chars, false, 0, u8::MAX as i128) {
        Some(v) => Some(v as u8),
        None => None,
    }
}

/// The `usize` that `text` writes, or `None` if it writes none.
pub fn parse_usize(text: &str) -> (r: Option<usize>)
    ensures
        r == spec_parse_usize(text@),
{
    let chars = to_chars(text);
    match parse_decimal(&chars, false, 0, usize::MAX as i128) {
        Some(v) => Some(v as usize),
        None => None,
    }
}

} // verus!
