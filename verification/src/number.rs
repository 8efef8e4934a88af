//! Integer literals: an optional minus sign and decimal digits.

use vstd::prelude::*;

verus! {

/// Whether `c` is one of the ten decimal digits.
pub open spec fn is_digit(c: char) -> bool {
    '0' <= c <= '9'
}

/// The number that the decimal digit `c` stands for.
pub open spec fn digit_value(c: char) -> int {
    c as int - '0' as int
}

/// Whether `s` holds decimal digits and nothing else.
pub open spec fn all_digits(s: Seq<char>) -> bool {
    forall|i: int| 0 <= i < s.len() ==> is_digit(#[trigger] s[i])
}

/// The number that `s` writes in base ten, its last character counting
/// the ones.
pub open spec fn decimal(s: Seq<char>) -> int
    decreases s.len(),
{
    if s.len() == 0 {
        0
    } else {
        10 * decimal(s.drop_last()) + digit_value(s.last())
    }
}

/// The number that `s` writes, where `s` is an integer literal: at least
/// one decimal digit, with or without a `-` in front. Any count of
/// leading zeros is part of the literal; a `+` in front is not.
pub open spec fn literal(s: Seq<char>) -> Option<int> {
    if s.len() > 0 && s[0] == '-' {
        if s.len() > 1 && all_digits(s.skip(1)) {
            Some(-decimal(s.skip(1)))
        } else {
            None
        }
    } else if s.len() > 0 && all_digits(s) {
        Some(decimal(s))
    } else {
        None
    }
}

/// The value of `s` as an operand: that of an integer literal that fits
/// in 32 bits.
pub open spec fn operand(s: Seq<char>) -> Option<i32> {
    match literal(s) {
        Some(v) => if i32::MIN <= v <= i32::MAX {
            Some(v as i32)
        } else {
            None
        },
        None => None,
    }
}

/// Digits write a number that is not negative, and adding digits at the
/// end never makes it smaller.
pub proof fn lemma_decimal_prefix(s: Seq<char>, k: int)
    requires
        all_digits(s),
        0 <= k <= s.len(),
    ensures
        0 <= decimal(s.take(k)) <= decimal(s),
    decreases s.len(),
{
    if k == s.len() {
        assert(s.take(k) =~= s);
        if s.len() > 0 {
            lemma_decimal_prefix(s.drop_last(), k - 1);
        }
    } else {
        lemma_decimal_prefix(s.drop_last(), k);
        assert(s.drop_last().take(k) =~= s.take(k));
    }
}

/// Reads `token` as an operand.
pub fn parse_operand(token: &Vec<char>) -> (value: Option<i32>)
    ensures
        value == operand(token@),
{
    let n = token.len();
    if n == 0 {
        return None;
    }
    let negative = token[0] == '-';
    let start: usize = if negative { 1 } else { 0 };
    if start == n {
        return None;
    }
    let ghost body = token@.skip(start as int);
    let mut magnitude: i64 = 0;
    let mut i: usize = start;
    while i < n
        invariant
            n == token.len(),
            start <= i <= n,
            start < n,
            negative == (token@[0] == '-'),
            start == if negative { 1usize } else { 0usize },
            body == token@.skip(start as int),
            !negative ==> body == token@,
            all_digits(body.take(i - start)),
            magnitude == decimal(body.take(i - start)),
            0 <= magnitude <= 0x8000_0000,
        decreases n - i,
    {
        let c = token[i];
        let ghost seen = body.take(i + 1 - start);
        proof {
            assert(seen.drop_last() =~= body.take(i - start));
        }
        if !('0' <= c && c <= '9') {
            assert(!is_digit(body[i - start]));
            return None;
        }
        let d: i64 = (c as u32 - '0' as u32) as i64;
        magnitude = magnitude * 10 + d;
        if magnitude > 0x8000_0000 {
            proof {
                if all_digits(body) {
                    lemma_decimal_prefix(body, i + 1 - start);
                }
            }
            return None;
        }
        i += 1;
    }
    assert(body.take(n - start) =~= body);
    if negative {
        Some((-magnitude) as i32)
    } else if magnitude <= 0x7fff_ffff {
        Some(magnitude as i32)
    } else {
        None
    }
}

} // verus!
