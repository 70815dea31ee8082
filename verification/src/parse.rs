//! Parsing a signed decimal integer out of a path segment or query value.
//!
//! The model [`parse_int_s`] accepts an optional sign followed by at least
//! one digit, and rejects values outside the signed 64-bit range; the
//! executable parser is proved to agree with it on every input.

use vstd::prelude::*;
use vstd::string::StrSliceExecFns;

verus! {

/// Whether `c` is a decimal digit.
pub open spec fn is_digit(c: char) -> bool {
    48 <= c as int <= 57
}

/// The numeric value of a digit character.
pub open spec fn digit_val(c: char) -> int {
    c as int - 48
}

/// Whether every character of `s` is a decimal digit.
pub open spec fn all_digits(s: Seq<char>) -> bool {
    forall|i: int| 0 <= i < s.len() ==> is_digit(#[trigger] s[i])
}

/// The value of a digit string, most significant digit first.
pub open spec fn digits_val(s: Seq<char>) -> int
    decreases s.len(),
{
    if s.len() == 0 {
        0
    } else {
        digits_val(s.take(s.len() - 1)) * 10 + digit_val(s[s.len() - 1])
    }
}

/// The parse of a signed decimal integer: an optional `'+'` or `'-'`,
/// followed by one or more digits, whose value fits a signed 64-bit integer.
pub open spec fn parse_int_s(s: Seq<char>) -> Option<int> {
    let neg = s.len() > 0 && s[0] == '-';
    let digits = if s.len() > 0 && (s[0] == '-' || s[0] == '+') {
        s.skip(1)
    } else {
        s
    };
    if digits.len() == 0 || !all_digits(digits) {
        None
    } else {
        let n = if neg {
            -digits_val(digits)
        } else {
            digits_val(digits)
        };
        if -0x8000000000000000 <= n <= 0x7fffffffffffffff {
            Some(n)
        } else {
            None
        }
    }
}

/// A digit string's value is never negative.
pub proof fn lemma_digits_val_nonneg(s: Seq<char>)
    requires
        all_digits(s),
    ensures
        digits_val(s) >= 0,
    decreases s.len(),
{
    if s.len() > 0 {
        assert(all_digits(s.take(s.len() - 1)));
        lemma_digits_val_nonneg(s.take(s.len() - 1));
    }
}

/// Extending a digit string never shrinks its value.
pub proof fn lemma_digits_val_prefix(s: Seq<char>, j: int)
    requires
        all_digits(s),
        0 <= j <= s.len(),
    ensures
        digits_val(s.take(j)) <= digits_val(s),
    decreases s.len() - j,
{
    if j < s.len() {
        lemma_digits_val_prefix(s, j + 1);
        let p = s.take(j + 1);
        assert(p.take(j) =~= s.take(j));
        assert(all_digits(s.take(j)));
        lemma_digits_val_nonneg(s.take(j));
        assert(digits_val(p) == digits_val(s.take(j)) * 10 + digit_val(s[j]));
        assert(digit_val(s[j]) >= 0);
    } else {
        assert(s.take(j) =~= s);
    }
}

/// Parses a signed decimal 64-bit integer, agreeing with [`parse_int_s`] on
/// every input.
pub fn parse_int(s: &str) -> (r: Option<i64>)
    ensures
        match r {
            Some(n) => parse_int_s(s@) == Some(n as int),
            None => parse_int_s(s@) is None,
        },
{
    let n = s.unicode_len();
    if n == 0 {
        return None;
    }
    let c0 = s.get_char(0);
    let neg = c0 == '-';
    let start: usize = if c0 == '-' || c0 == '+' {
        1
    } else {
        0
    };
    if start >= n {
        return None;
    }
    let ghost digits = s@.skip(start as int);
    proof {
        if start == 0 {
            assert(digits =~= s@);
        }
    }
    // The largest admissible magnitude, split into its leading part and last
    // digit so the overflow test stays linear.
    let lim10: u64 = 922337203685477580;
    let limr: u64 = if neg {
        8
    } else {
        7
    };
    let ghost limit = (lim10 * 10 + limr) as int;
    let mut acc: u64 = 0;
    let mut i: usize = start;
    while i < n
        invariant
            start <= i <= n,
            n == s@.len(),
            start == 1 || start == 0,
            start == 1 ==> (s@[0] == '-' || s@[0] == '+'),
            start == 0 ==> !(s@[0] == '-' || s@[0] == '+'),
            neg <==> s@[0] == '-',
            digits == s@.skip(start as int),
            lim10 == 922337203685477580,
            limr == if neg { 8u64 } else { 7u64 },
            limit == lim10 * 10 + limr,
            all_digits(digits.take(i - start)),
            acc == digits_val(digits.take(i - start)),
            acc <= limit,
        decreases n - i,
    {
        let c = s.get_char(i);
        let cu = c as u32;
        if cu < 48 || cu > 57 {
            proof {
                assert(digits[i - start] == s@[i as int]);
                assert(!is_digit(digits[i - start]));
            }
            return None;
        }
        let dv = (cu - 48) as u64;
        proof {
            assert(digits.take(i + 1 - start).take(i - start) =~= digits.take(i - start));
            assert(all_digits(digits.take(i + 1 - start)));
        }
        if acc > lim10 || (acc == lim10 && dv > limr) {
            proof {
                let taken = digits.take(i + 1 - start);
                assert(taken[i - start] == s@[i as int]);
                assert(digit_val(taken[i - start]) == dv);
                assert(digits_val(taken) == acc * 10 + dv);
                assert(digits_val(taken) > limit);
                let ds = if s@.len() > 0 && (s@[0] == '-' || s@[0] == '+') {
                    s@.skip(1)
                } else {
                    s@
                };
                assert(ds == digits);
                if all_digits(digits) {
                    lemma_digits_val_prefix(digits, i + 1 - start);
                    assert(digits_val(digits) > limit);
                    if neg {
                        assert(-digits_val(digits) < -0x8000000000000000);
                    } else {
                        assert(digits_val(digits) > 0x7fffffffffffffff);
                    }
                }
                assert(parse_int_s(s@) is None);
            }
            return None;
        }
        proof {
            assert(acc * 10 + dv <= limit) by {
                assert(acc <= lim10);
                assert(acc < lim10 ==> acc * 10 <= lim10 * 10 - 10);
            }
            assert(digits.take(i + 1 - start)[i - start] == s@[i as int]);
            assert(digits_val(digits.take(i + 1 - start)) == acc * 10 + dv);
        }
        acc = acc * 10 + dv;
        i = i + 1;
    }
    proof {
        assert(digits.take(n - start) =~= digits);
    }
    if neg {
        if acc == 9223372036854775808u64 {
            Some(i64::MIN)
        } else {
            Some(-(acc as i64))
        }
    } else {
        Some(acc as i64)
    }
}

} // verus!
