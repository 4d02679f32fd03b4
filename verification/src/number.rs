//! Reading a decimal number from the text of a query parameter.

use vstd::prelude::*;
use vstd::string::*;

verus! {

/// Whether `c` is one of the digits `0` to `9`.
pub open spec fn is_digit(c: char) -> bool {
    '0' <= c <= '9'
}

/// Whether `text` holds digits only.
pub open spec fn all_digits(text: Seq<char>) -> bool {
    forall|i: int| 0 <= i < text.len() ==> is_digit(#[trigger] text[i])
}

/// The number that a run of digits writes in base ten.
pub open spec fn digits_value(text: Seq<char>) -> int
    decreases text.len(),
{
    if text.len() == 0 {
        0
    } else {
        digits_value(text.drop_last()) * 10 + (text.last() as int - '0' as int)
    }
}

/// Whether `text` begins with a sign.
pub open spec fn is_signed(text: Seq<char>) -> bool {
    text.len() > 0 && (text[0] == '-' || text[0] == '+')
}

/// The digits of `text`: all of it but a leading sign.
pub open spec fn digits_of(text: Seq<char>) -> Seq<char> {
    if is_signed(text) {
        text.skip(1)
    } else {
        text
    }
}

/// The number that `text` writes: an optional `+` or `-`, then one digit or
/// more and nothing else.
pub open spec fn signed_value(text: Seq<char>) -> int {
    if text.len() > 0 && text[0] == '-' {
        -digits_value(digits_of(text))
    } else {
        digits_value(digits_of(text))
    }
}

/// The `i64` that `text` writes, or `None` where it writes no number or one
/// that no `i64` holds.
pub open spec fn decimal_i64(text: Seq<char>) -> Option<i64> {
    if digits_of(text).len() > 0 && all_digits(digits_of(text)) && i64::MIN <= signed_value(text)
        <= i64::MAX {
        Some(signed_value(text) as i64)
    } else {
        None
    }
}

/// One past the largest magnitude that an `i64` holds.
pub open spec fn magnitude_limit() -> int {
    0x8000_0000_0000_0000
}

/// Reads a decimal `i64`, as `str::parse::<i64>` does.
pub fn parse_decimal(text: &str) -> (value: Option<i64>)
    ensures
        value == decimal_i64(text@),
{
    let len = text.unicode_len();
    if len == 0 {
        return None;
    }
    let first = text.get_char(0);
    let negative = first == '-';
    let start: usize = if first == '-' || first == '+' {
        1
    } else {
        0
    };
    let ghost digits = digits_of(text@);
    assert(digits =~= text@.subrange(start as int, len as int));
    if start == len {
        return None;
    }
    let mut magnitude: u128 = 0;
    let mut fits = true;
    let mut at: usize = start;
    assert(text@.subrange(start as int, at as int) =~= Seq::<char>::empty());
    while at < len
        invariant
            start <= at <= len,
            len == text@.len(),
            digits == text@.subrange(start as int, len as int),
            digits == digits_of(text@),
            all_digits(text@.subrange(start as int, at as int)),
            fits ==> magnitude == digits_value(text@.subrange(start as int, at as int))
                && magnitude <= magnitude_limit(),
            !fits ==> digits_value(text@.subrange(start as int, at as int)) > magnitude_limit(),
        decreases len - at,
    {
        let c = text.get_char(at);
        if c < '0' || c > '9' {
            assert(!is_digit(digits[at - start]));
            return None;
        }
        let digit: u128 = (c as u32 - '0' as u32) as u128;
        proof {
            let before = text@.subrange(start as int, at as int);
            let after = text@.subrange(start as int, at + 1);
            assert(after.drop_last() =~= before);
            assert(after.last() == c);
            assert(digits_value(after) == digits_value(before) * 10 + digit);
            assert forall|i: int| 0 <= i < after.len() implies is_digit(#[trigger] after[i]) by {
                if i < before.len() {
                    assert(after[i] == before[i]);
                }
            }
        }
        if fits {
            magnitude = magnitude * 10 + digit;
            if magnitude > 0x8000_0000_0000_0000 {
                fits = false;
            }
        }
        at = at + 1;
    }
    assert(text@.subrange(start as int, at as int) =~= digits);
    if !fits {
        None
    } else if negative {
        if magnitude == 0x8000_0000_0000_0000 {
            Some(i64::MIN)
        } else {
            Some(-(magnitude as i64))
        }
    } else if magnitude > 0x7fff_ffff_ffff_ffff {
        None
    } else {
        Some(magnitude as i64)
    }
}

} // verus!
