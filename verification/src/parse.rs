//! Verified parsing of a textual process identifier.
//!
//! A process identifier argument is accepted exactly when it is a decimal
//! integer (with an optional sign) whose value is positive and fits the OS
//! identifier type. Identifier `0` names the caller's own process group and
//! is rejected; negative values and unparsable text are rejected as well.

use vstd::prelude::*;

verus! {

/// A decimal digit.
pub open spec fn is_digit_char(c: char) -> bool {
    '0' <= c && c <= '9'
}

/// Numeric value of a decimal digit.
pub open spec fn digit_value(c: char) -> int {
    c as int - '0' as int
}

/// Every character of `s` is a decimal digit.
pub open spec fn all_digits(s: Seq<char>) -> bool {
    forall|i: int| 0 <= i < s.len() ==> is_digit_char(s[i])
}

/// Value of a digit string read most-significant first.
pub open spec fn digits_value(s: Seq<char>) -> int
    decreases s.len(),
{
    if s.len() == 0 {
        0
    } else {
        digits_value(s.drop_last()) * 10 + digit_value(s.last())
    }
}

/// The digit part of an integer string: everything after an optional sign.
pub open spec fn digits_part(s: Seq<char>) -> Seq<char> {
    if s.len() > 0 && (s[0] == '+' || s[0] == '-') {
        s.subrange(1, s.len() as int)
    } else {
        s
    }
}

/// Sign carried by an integer string.
pub open spec fn sign_of(s: Seq<char>) -> int {
    if s.len() > 0 && s[0] == '-' {
        -1
    } else {
        1
    }
}

/// `s` is an optionally signed, nonempty decimal integer string.
pub open spec fn is_integer_text(s: Seq<char>) -> bool {
    digits_part(s).len() > 0 && all_digits(digits_part(s))
}

/// Mathematical value of an integer string.
pub open spec fn integer_text_value(s: Seq<char>) -> int {
    sign_of(s) * digits_value(digits_part(s))
}

/// `s` names a usable process identifier: an integer that is positive and
/// representable in the OS identifier type.
pub open spec fn is_valid_pid_text(s: Seq<char>) -> bool {
    is_integer_text(s) && 0 < integer_text_value(s) <= i32::MAX as int
}

/// A digit string never has a negative value.
proof fn lemma_digits_value_nonneg(s: Seq<char>)
    requires
        all_digits(s),
    ensures
        digits_value(s) >= 0,
    decreases s.len(),
{
    if s.len() > 0 {
        assert(all_digits(s.drop_last()));
        lemma_digits_value_nonneg(s.drop_last());
    }
}

/// Extending a digit string never decreases its value.
proof fn lemma_digits_value_prefix_le(s: Seq<char>, i: int)
    requires
        all_digits(s),
        0 <= i <= s.len(),
    ensures
        digits_value(s.subrange(0, i)) <= digits_value(s),
    decreases s.len() - i,
{
    if i < s.len() {
        let t = s.subrange(0, i + 1);
        assert(t.drop_last() =~= s.subrange(0, i));
        assert(all_digits(t.drop_last()));
        lemma_digits_value_nonneg(t.drop_last());
        assert(digits_value(t) == digits_value(s.subrange(0, i)) * 10 + digit_value(t.last()));
        lemma_digits_value_prefix_le(s, i + 1);
    } else {
        assert(s.subrange(0, i) =~= s);
    }
}

/// Parses a textual process identifier.
///
/// Returns the identifier exactly when the text is a positive decimal
/// integer that fits the OS identifier type, and nothing otherwise.
pub fn parse_pid_text(s: &str) -> (r: Option<i32>)
    ensures
        match r {
            Some(v) => is_valid_pid_text(s@) && v as int == integer_text_value(s@) && v > 0,
            None => !is_valid_pid_text(s@),
        },
{
    let n = s.unicode_len();
    if n == 0 {
        return None;
    }
    let c0 = s.get_char(0);
    if c0 == '-' {
        proof {
            if all_digits(digits_part(s@)) {
                lemma_digits_value_nonneg(digits_part(s@));
            }
        }
        return None;
    }
    let start: usize = if c0 == '+' {
        1
    } else {
        0
    };
    if n == start {
        // the text is just a sign with no digits
        return None;
    }
    proof {
        assert(digits_part(s@) =~= s@.subrange(start as int, n as int));
    }
    let mut i: usize = start;
    let mut acc: u64 = 0;
    while i < n
        invariant
            start <= i <= n,
            n == s@.len(),
            n > start,
            sign_of(s@) == 1,
            digits_part(s@) =~= s@.subrange(start as int, n as int),
            all_digits(s@.subrange(start as int, i as int)),
            acc as int == digits_value(s@.subrange(start as int, i as int)),
            acc <= i32::MAX as u64,
        decreases n - i,
    {
        let c = s.get_char(i);
        let cu = c as u32;
        if cu < 48 || cu > 57 {
            proof {
                assert(!is_digit_char(digits_part(s@)[i - start]));
            }
            return None;
        }
        let d = (cu - 48) as u64;
        let next = acc * 10 + d;
        proof {
            assert(s@.subrange(start as int, i + 1).drop_last() =~= s@.subrange(
                start as int,
                i as int,
            ));
            assert(digits_value(s@.subrange(start as int, i + 1)) == acc as int * 10 + d as int);
        }
        if next > i32::MAX as u64 {
            proof {
                let dp = digits_part(s@);
                if all_digits(dp) {
                    assert(dp.subrange(0, i + 1 - start) =~= s@.subrange(start as int, i + 1));
                    lemma_digits_value_prefix_le(dp, i + 1 - start);
                }
            }
            return None;
        }
        acc = next;
        i = i + 1;
    }
    proof {
        assert(s@.subrange(start as int, i as int) =~= digits_part(s@));
    }
    if acc == 0 {
        return None;
    }
    Some(acc as i32)
}

} // verus!
