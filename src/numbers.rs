//! Decimal integers as the command line writes them.

use vstd::prelude::*;

verus! {

pub open spec fn is_digit(c: char) -> bool {
    '0' <= c <= '9'
}

/// The number that a non-empty run of decimal digits spells.
pub open spec fn digits_value(s: Seq<char>) -> int
    decreases s.len(),
{
    if s.len() == 0 {
        0
    } else {
        10 * digits_value(s.drop_last()) + (s.last() as int - '0' as int)
    }
}

/// The digits of `s` after an optional leading sign.
pub open spec fn unsigned_part(s: Seq<char>) -> Seq<char> {
    if s.len() > 0 && (s[0] == '-' || s[0] == '+') {
        s.drop_first()
    } else {
        s
    }
}

/// `s` is an optional sign followed by one or more decimal digits.
pub open spec fn is_decimal(s: Seq<char>) -> bool {
    let d = unsigned_part(s);
    d.len() > 0 && forall|i: int| 0 <= i < d.len() ==> is_digit(#[trigger] d[i])
}

/// The value of a decimal with an optional sign.
pub open spec fn decimal_value(s: Seq<char>) -> int {
    if s.len() > 0 && s[0] == '-' {
        -digits_value(unsigned_part(s))
    } else {
        digits_value(unsigned_part(s))
    }
}

/// What `s` reads as a 64-bit signed integer, if it is one.
pub open spec fn i64_of(s: Seq<char>) -> Option<i64> {
    if is_decimal(s) && i64::MIN <= decimal_value(s) <= i64::MAX {
        Some(decimal_value(s) as i64)
    } else {
        None
    }
}

/// What `s` reads as an unsigned size, if it is one: no minus sign.
pub open spec fn usize_of(s: Seq<char>) -> Option<usize> {
    if is_decimal(s) && !(s[0] == '-') && decimal_value(s) <= usize::MAX {
        Some(decimal_value(s) as usize)
    } else {
        None
    }
}

/// Relies on `str::parse::<i64>`: accepts exactly an optional `+` or `-`
/// followed by decimal digits whose value fits in an `i64`.
#[verifier::external_body]
pub(crate) fn parse_i64(s: &str) -> (r: Option<i64>)
    ensures
        r == i64_of(s@),
{
    s.parse::<i64>().ok()
}

/// Relies on `str::parse::<usize>`: accepts exactly an optional `+` followed
/// by decimal digits whose value fits in a `usize`.
#[verifier::external_body]
pub(crate) fn parse_usize(s: &str) -> (r: Option<usize>)
    ensures
        r == usize_of(s@),
{
    s.parse::<usize>().ok()
}

} // verus!
