//! Base-10 text to an unsigned 64-bit integer.
use vstd::prelude::*;

verus! {

/// An ASCII decimal digit.
pub open spec fn is_digit(c: char) -> bool {
    '0' <= c && c <= '9'
}

pub open spec fn digit_value(c: char) -> nat {
    ((c as int) - ('0' as int)) as nat
}

pub open spec fn all_digits(s: Seq<char>) -> bool {
    forall|i: int| 0 <= i < s.len() ==> is_digit(#[trigger] s[i])
}

/// The number that a run of decimal digits denotes, most significant first.
pub open spec fn digits_value(s: Seq<char>) -> nat
    decreases s.len(),
{
    if s.len() == 0 {
        0
    } else {
        digits_value(s.drop_last()) * 10 + digit_value(s.last())
    }
}

/// `s` is a base-10 numeral of a value that fits in 64 bits: one or more
/// ASCII digits and nothing else (no sign, no whitespace, no underscores).
pub open spec fn is_decimal_u64(s: Seq<char>) -> bool {
    &&& s.len() > 0
    &&& all_digits(s)
    &&& digits_value(s) <= u64::MAX
}

/// What parsing `s` as a base-10 unsigned 64-bit integer gives.
pub open spec fn decimal_u64(s: Seq<char>) -> Option<u64> {
    if is_decimal_u64(s) {
        Some(digits_value(s) as u64)
    } else {
        None
    }
}

/// A run of digits denotes at least what any of its prefixes denotes.
proof fn lemma_prefix_value_le(s: Seq<char>, k: int)
    requires
        0 <= k <= s.len(),
    ensures
        digits_value(s.take(k)) <= digits_value(s),
    decreases s.len(),
{
    if k < s.len() {
        let t = s.drop_last();
        assert(s.take(k) =~= t.take(k));
        lemma_prefix_value_le(t, k);
    } else {
        assert(s.take(k) =~= s);
    }
}

/// Parses `text` as a base-10 unsigned 64-bit integer.
pub fn parse_u64(text: &str) -> (r: Option<u64>)
    ensures
        r == decimal_u64(text@),
{
    let n = text.unicode_len();
    if n == 0 {
        return None;
    }
    let mut acc: u64 = 0;
    let mut i: usize = 0;
    while i < n
        invariant
            n == text@.len(),
            0 <= i <= n,
            all_digits(text@.take(i as int)),
            acc as nat == digits_value(text@.take(i as int)),
        decreases n - i,
    {
        let c = text.get_char(i);
        if !('0' <= c && c <= '9') {
            assert(!all_digits(text@));
            return None;
        }
        let d = (c as u32 - '0' as u32) as u64;
        assert(text@.take(i + 1).drop_last() =~= text@.take(i as int));
        assert(text@.take(i + 1).last() == c);
        if acc > (u64::MAX - d) / 10 {
            proof {
                assert(acc * 10 + d > u64::MAX) by (nonlinear_arith)
                    requires
                        acc > (u64::MAX - d) / 10,
                        d <= 9,
                ;
                if all_digits(text@) {
                    lemma_prefix_value_le(text@, i + 1);
                }
            }
            return None;
        }
        assert(acc * 10 + d <= u64::MAX) by (nonlinear_arith)
            requires
                acc <= (u64::MAX - d) / 10,
                d <= 9,
        ;
        acc = acc * 10 + d;
        i = i + 1;
    }
    assert(text@.take(n as int) =~= text@);
    Some(acc)
}

} // verus!
