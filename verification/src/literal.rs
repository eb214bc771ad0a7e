//! Decoding of literal lexemes.

use vstd::prelude::*;

verus! {

/// The value of a decimal digit.
pub open spec fn digit_of(c: char) -> Option<nat> {
    if '0' <= c && c <= '9' {
        Some((c as nat - '0' as nat) as nat)
    } else {
        None
    }
}

/// Whether every character is a decimal digit.
pub open spec fn all_digits(s: Seq<char>) -> bool {
    forall|i: int| 0 <= i < s.len() ==> (#[trigger] digit_of(s[i])) is Some
}

/// The number that a sequence of decimal digits writes.
pub open spec fn digits_value(s: Seq<char>) -> nat
    decreases s.len(),
{
    if s.len() == 0 {
        0
    } else {
        10 * digits_value(s.drop_last()) + digit_of(s.last()).unwrap()
    }
}

/// Whether the text starts with a sign.
pub open spec fn is_signed(s: Seq<char>) -> bool {
    s.len() > 0 && (s[0] == '-' || s[0] == '+')
}

/// The digits of the text: what follows the sign, if there is one.
pub open spec fn digits_part(s: Seq<char>) -> Seq<char> {
    if is_signed(s) {
        s.subrange(1, s.len() as int)
    } else {
        s
    }
}

/// The integer that a text writes: an optional sign, then at least one
/// decimal digit and nothing else, within the range of 64 signed bits.
pub open spec fn int_of_text(s: Seq<char>) -> Option<i64> {
    let digits = digits_part(s);
    let magnitude = digits_value(digits) as int;
    let value = if s.len() > 0 && s[0] == '-' {
        -magnitude
    } else {
        magnitude
    };
    if digits.len() == 0 || !all_digits(digits) || value < i64::MIN || value > i64::MAX {
        None
    } else {
        Some(value as i64)
    }
}

/// The boolean that a text writes: `true` or `false`, nothing else.
pub open spec fn bool_of_text(s: Seq<char>) -> Option<bool> {
    if s == "true"@ {
        Some(true)
    } else if s == "false"@ {
        Some(false)
    } else {
        None
    }
}

/// A sequence of digits writes at least what any of its prefixes writes.
pub proof fn lemma_digits_prefix(s: Seq<char>, k: int)
    requires
        all_digits(s),
        0 <= k <= s.len(),
    ensures
        digits_value(s.subrange(0, k)) <= digits_value(s),
    decreases s.len() - k,
{
    if k == s.len() {
        assert(s.subrange(0, k) == s);
    } else {
        let init = s.drop_last();
        assert(digit_of(s.last()) is Some);
        if k == s.len() - 1 {
            assert(s.subrange(0, k) == init);
        } else {
            assert forall|i: int| 0 <= i < init.len() implies (#[trigger] digit_of(
                init[i],
            )) is Some by {
                assert(init[i] == s[i]);
            }
            lemma_digits_prefix(init, k);
            assert(init.subrange(0, k) == s.subrange(0, k));
        }
    }
}

/// Decodes a decimal integer.
pub fn parse_int(s: &str) -> (r: Option<i64>)
    ensures
        r == int_of_text(s@),
{
    let n = s.unicode_len();
    if n == 0 {
        return None;
    }
    let first = s.get_char(0);
    let negative = first == '-';
    let start: usize = if first == '-' || first == '+' {
        1
    } else {
        0
    };
    if start == n {
        assert(digits_part(s@).len() == 0);
        return None;
    }
    let ghost digits = digits_part(s@);
    assert(digits == s@.subrange(start as int, n as int));
    let limit: u64 = if negative {
        9223372036854775808
    } else {
        9223372036854775807
    };
    let mut acc: u64 = 0;
    let mut i: usize = start;
    while i < n
        invariant
            start <= i <= n,
            n == s@.len(),
            digits == s@.subrange(start as int, n as int),
            digits == digits_part(s@),
            negative == (s@[0] == '-'),
            all_digits(digits.subrange(0, i - start)),
            acc == digits_value(digits.subrange(0, i - start)),
            acc <= limit,
            limit == if negative { 9223372036854775808u64 } else { 9223372036854775807u64 },
        decreases n - i,
    {
        let c = s.get_char(i);
        let ghost prefix = digits.subrange(0, i - start);
        let ghost next = digits.subrange(0, i - start + 1);
        assert(digits[i - start] == c);
        assert(next.drop_last() == prefix);
        assert(next.last() == c);
        if !(c >= '0' && c <= '9') {
            assert(digit_of(digits[i - start]) is None);
            return None;
        }
        let d: u64 = (c as u32 - '0' as u32) as u64;
        assert(d <= 9);
        assert(digit_of(c) == Some(d as nat));
        assert(all_digits(next)) by {
            assert forall|j: int| 0 <= j < next.len() implies (#[trigger] digit_of(
                next[j],
            )) is Some by {
                if j < prefix.len() {
                    assert(next[j] == prefix[j]);
                }
            }
        }
        if acc > (limit - d) / 10 {
            proof {
                assert(digits_value(next) == 10 * acc + d);
                assert(digits_value(next) > limit);
                if all_digits(digits) {
                    lemma_digits_prefix(digits, i - start + 1);
                }
            }
            return None;
        }
        acc = acc * 10 + d;
        i += 1;
    }
    assert(digits.subrange(0, i - start) == digits);
    if negative {
        if acc == 9223372036854775808 {
            Some(i64::MIN)
        } else {
            Some(-(acc as i64))
        }
    } else {
        Some(acc as i64)
    }
}

/// Decodes a boolean.
pub fn parse_bool(s: &str) -> (r: Option<bool>)
    ensures
        r == bool_of_text(s@),
{
    let owned = String::from_str(s);
    if owned == String::from_str("true") {
        Some(true)
    } else if owned == String::from_str("false") {
        Some(false)
    } else {
        None
    }
}

} // verus!
