//! Decimal digits, the alphabet of every identifier in this crate.
use vstd::prelude::*;

verus! {

/// `c` is one of the ten ASCII decimal digits.
pub open spec fn is_digit(c: char) -> bool {
    '0' <= c <= '9'
}

/// Every character of `s` is a decimal digit.
pub open spec fn all_digits(s: Seq<char>) -> bool {
    forall|i: int| 0 <= i < s.len() ==> is_digit(#[trigger] s[i])
}

/// Tells whether `c` is a decimal digit.
pub fn is_decimal_digit(c: char) -> (r: bool)
    ensures
        r == is_digit(c),
{
    '0' <= c && c <= '9'
}

/// Tells whether `s` has exactly `len` characters, all of them decimal digits.
pub fn is_digit_string(s: &str, len: usize) -> (r: bool)
    ensures
        r == (s@.len() == len && all_digits(s@)),
{
    if s.unicode_len() != len {
        return false;
    }
    let mut i: usize = 0;
    while i < len
        invariant
            s@.len() == len,
            i <= len,
            forall|j: int| 0 <= j < i ==> is_digit(#[trigger] s@[j]),
        decreases len - i,
    {
        if !is_decimal_digit(s.get_char(i)) {
            return false;
        }
        i += 1;
    }
    true
}

} // verus!
