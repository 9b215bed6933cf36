//! Memory sizes written with binary unit suffixes.

use vstd::prelude::*;
use crate::base::number::{digit, digit_value, is_digit};
use crate::base::text::{spec_trim, to_chars, trim};

verus! {

/// The factor that a unit character stands for: 1 for a blank or `b`, then
/// 2^10, 2^20, 2^30 and 2^40 for `k`, `m`, `g` and `t`, in either case.
pub open spec fn unit_factor(c: char) -> Option<nat> {
    if c == ' ' || c == '\t' || c == 'b' || c == 'B' {
        Some(1)
    } else if c == 'k' || c == 'K' {
        Some(0x400)
    } else if c == 'm' || c == 'M' {
        Some(0x10_0000)
    } else if c == 'g' || c == 'G' {
        Some(0x4000_0000)
    } else if c == 't' || c == 'T' {
        Some(0x100_0000_0000)
    } else {
        None
    }
}

/// The size after reading one more character: a digit extends the number, a
/// unit character scales it, anything else spoils it.
pub open spec fn size_step(v: nat, c: char) -> Option<nat> {
    if is_digit(c) {
        Some(10 * v + digit_value(c))
    } else {
        match unit_factor(c) {
            Some(f) => Some(v * f),
            None => None,
        }
    }
}

/// The size that `s` writes, read character by character from the left.
pub open spec fn size_value(s: Seq<char>) -> Option<nat>
    decreases s.len(),
{
    if s.len() == 0 {
        Some(0)
    } else {
        match size_value(s.drop_last()) {
            Some(v) => size_step(v, s.last()),
            None => None,
        }
    }
}

/// The number of bytes that `s` writes: nothing for the empty string, else the
/// size of `s` without surrounding whitespace, if it fits an `i64`.
pub open spec fn spec_parse_mem_size(s: Seq<char>) -> Option<i64> {
    if s.len() == 0 {
        None
    } else {
        match size_value(spec_trim(s)) {
            Some(v) => if v <= i64::MAX {
                Some(v as i64)
            } else {
                None
            },
            None => None,
        }
    }
}

/// Reading on never repairs a spoiled size and never makes a size smaller.
pub proof fn lemma_size_value_prefix(s: Seq<char>, k: int)
    requires
        0 <= k <= s.len(),
    ensures
        size_value(s.take(k)) is None ==> size_value(s) is None,
        size_value(s) matches Some(w) ==> size_value(s.take(k)) matches Some(v) && v <= w,
    decreases s.len(),
{
    if k == s.len() {
        assert(s.take(k) =~= s);
    } else {
        lemma_size_value_prefix(s.drop_last(), k);
        assert(s.drop_last().take(k) =~= s.take(k));
        if let Some(v) = size_value(s.drop_last()) {
            if let Some(f) = unit_factor(s.last()) {
                assert(v * f >= v) by (nonlinear_arith)
                    requires
                        f >= 1,
                ;
            }
        }
    }
}

/// The factor that the unit character `c` stands for.
fn factor(c: char) -> (f: Option<i128>)
    ensures
        match f {
            Some(x) => unit_factor(c) == Some(x as nat) && 1 <= x <= 0x100_0000_0000,
            None => unit_factor(c) is None,
        },
{
    if c == ' ' || c == '\t' || c == 'b' || c == 'B' {
        Some(1)
    } else if c == 'k' || c == 'K' {
        Some(0x400)
    } else if c == 'm' || c == 'M' {
        Some(0x10_0000)
    } else if c == 'g' || c == 'G' {
        Some(0x4000_0000)
    } else if c == 't' || c == 'T' {
        Some(0x100_0000_0000)
    } else {
        None
    }
}

/// Reads a memory size such as `16`, `4k` or `4 M` and returns it in bytes.
///
/// Returns `None` for the empty string, for a string with a character that is
/// neither a digit nor a unit, and for a size beyond `i64::MAX`. Surrounding
/// whitespace is ignored.
#[must_use]
pub fn parse_mem_size(s: &str) -> (size: Option<i64>)
    ensures
        size == spec_parse_mem_size(s@),
{
    let all = to_chars(s);
    if all.len() == 0 {
        return None;
    }
    let chars = trim(&all);
    let mut size: i64 = 0;
    let mut i: usize = 0;
    while i < chars.len()
        invariant
            i <= chars.len(),
            0 <= size,
            s@.len() > 0,
            chars@ == spec_trim(s@),
            size_value(chars@.take(i as int)) == Some(size as nat),
        decreases chars.len() - i,
    {
        let c: char = chars[i];
        proof {
            assert(chars@.take(i + 1).drop_last() =~= chars@.take(i as int));
            assert(chars@.take(i + 1).last() == c);
            lemma_size_value_prefix(chars@, i + 1);
        }
        let next: i128 = if digit(c) {
            10 * (size as i128) + ((c as u32 - 0x30) as i128)
        } else {
            match factor(c) {
                Some(f) => {
                    assert(0 <= size * f <= 0x7FFF_FFFF_FFFF_FFFF * 0x100_0000_0000)
                        by (nonlinear_arith)
                        requires
                            0 <= size <= 0x7FFF_FFFF_FFFF_FFFF,
                            1 <= f <= 0x100_0000_0000,
                    ;
                    (size as i128) * f
                },
                None => {
                    return None;
                },
            }
        };
        if next > i64::MAX as i128 {
            return None;
        }
        size = next as i64;
        i += 1;
    }
    proof {
        assert(chars@.take(chars.len() as int) =~= chars@);
    }
    Some(size)
}

} // verus!
