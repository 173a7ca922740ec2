//! A verified decimal parser for `u64`, matching the standard library's
//! grammar for unsigned integers: an optional leading `+`, then one or
//! more ASCII digits, rejecting anything else and values over `u64::MAX`.

use vstd::prelude::*;

verus! {

/// An ASCII decimal digit.
pub open spec fn is_decimal_digit(c: char) -> bool {
    48 <= c as int && c as int <= 57
}

/// The numeric value of an ASCII decimal digit.
pub open spec fn digit_value(c: char) -> int {
    c as int - 48
}

/// Every character of `s` is an ASCII decimal digit.
pub open spec fn all_decimal_digits(s: Seq<char>) -> bool {
    forall|i: int| 0 <= i < s.len() ==> is_decimal_digit(#[trigger] s[i])
}

/// The value of a digit string read most-significant first.
pub open spec fn decimal_value(s: Seq<char>) -> int
    decreases s.len(),
{
    if s.len() == 0 {
        0
    } else {
        decimal_value(s.drop_last()) * 10 + digit_value(s.last())
    }
}

/// The digit portion of a numeral: everything after an optional leading `+`.
pub open spec fn digits_of(s: Seq<char>) -> Seq<char> {
    if s.len() > 0 && s[0] == '+' {
        s.subrange(1, s.len() as int)
    } else {
        s
    }
}

/// What `u64`'s standard decimal parse accepts, and the value it yields:
/// an optional `+`, then at least one digit, and a value within the word.
pub open spec fn parse_u64_spec(s: Seq<char>) -> Option<u64> {
    let d = digits_of(s);
    if d.len() > 0 && all_decimal_digits(d) && decimal_value(d) <= u64::MAX as int {
        Some(decimal_value(d) as u64)
    } else {
        None
    }
}

pub proof fn lemma_decimal_value_nonneg(s: Seq<char>)
    requires
        all_decimal_digits(s),
    ensures
        decimal_value(s) >= 0,
    decreases s.len(),
{
    if s.len() > 0 {
        assert(all_decimal_digits(s.drop_last())) by {
            assert(forall|i: int|
                0 <= i < s.len() - 1 ==> s.drop_last()[i] == #[trigger] s[i]);
        }
        lemma_decimal_value_nonneg(s.drop_last());
    }
}

/// Appending digits never decreases the value of a digit string.
pub proof fn lemma_decimal_prefix_le(s: Seq<char>, i: int)
    requires
        all_decimal_digits(s),
        0 <= i <= s.len(),
    ensures
        decimal_value(s.subrange(0, i)) <= decimal_value(s),
    decreases s.len() - i,
{
    if i == s.len() {
        assert(s.subrange(0, i) =~= s);
    } else {
        let p = s.subrange(0, i);
        let q = s.subrange(0, i + 1);
        assert(q.drop_last() =~= p);
        assert(all_decimal_digits(p)) by {
            assert(forall|j: int| 0 <= j < i ==> p[j] == #[trigger] s[j]);
        }
        lemma_decimal_value_nonneg(p);
        assert(decimal_value(q) == decimal_value(p) * 10 + digit_value(q.last()));
        assert(decimal_value(p) * 10 >= decimal_value(p)) by (nonlinear_arith)
            requires
                decimal_value(p) >= 0,
        ;
        lemma_decimal_prefix_le(s, i + 1);
    }
}

/// Parse a `u64` as the standard library does: optional `+`, one or more
/// decimal digits, no larger than `u64::MAX`; anything else yields `None`.
pub fn parse_u64(s: &str) -> (r: Option<u64>)
    ensures
        r == parse_u64_spec(s@),
{
    let n = s.unicode_len();
    let start: usize = if n > 0 && s.get_char(0) == '+' {
        1
    } else {
        0
    };
    let ghost d = digits_of(s@);
    proof {
        assert(d =~= s@.subrange(start as int, n as int));
    }
    if start >= n {
        return None;
    }
    let mut acc: u64 = 0;
    let mut i: usize = start;
    while i < n
        invariant
            start <= i <= n,
            n == s@.len(),
            d == s@.subrange(start as int, n as int),
            d == digits_of(s@),
            all_decimal_digits(s@.subrange(start as int, i as int)),
            acc as int == decimal_value(s@.subrange(start as int, i as int)),
        decreases n - i,
    {
        let c = s.get_char(i);
        let v = c as u32;
        if v < 48 || v > 57 {
            proof {
                assert(d[i - start] == s@[i as int]);
                assert(!is_decimal_digit(d[i - start]));
            }
            return None;
        }
        let dv = (v - 48) as u64;
        let ghost p = s@.subrange(start as int, i as int);
        let ghost q = s@.subrange(start as int, i + 1 as int);
        proof {
            assert(q.drop_last() =~= p);
            assert(q.last() == s@[i as int]);
            assert(decimal_value(q) == acc as int * 10 + dv as int);
            assert(all_decimal_digits(q));
        }
        if acc > (u64::MAX - dv) / 10 {
            proof {
                let m = u64::MAX as int;
                assert(acc as int > (m - dv) / 10 ==> acc as int * 10 + dv > m)
                    by (nonlinear_arith)
                    requires
                        0 <= dv <= 9,
                        acc as int >= 0,
                        m == u64::MAX as int,
                ;
                if all_decimal_digits(d) {
                    lemma_decimal_prefix_le(d, i + 1 - start);
                    assert(d.subrange(0, i + 1 - start) =~= q);
                    assert(decimal_value(d) > u64::MAX as int);
                }
            }
            return None;
        }
        acc = acc * 10 + dv;
        i += 1;
    }
    proof {
        assert(s@.subrange(start as int, i as int) =~= d);
        lemma_decimal_value_nonneg(d);
    }
    Some(acc)
}

} // verus!
