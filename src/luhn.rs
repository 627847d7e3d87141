//! The Luhn checksum over a string of decimal digits.
use vstd::prelude::*;

use crate::digits::{all_digits, digit_value, is_digit};

verus! {

/// Whether the digit at index `i` (counted from the left, from 0) of a
/// number of `len` digits is doubled: the 2nd, 4th, 6th, ... digit counted
/// from the right.
pub open spec fn doubled_at(len: int, i: int) -> bool {
    (len - i) % 2 == 0
}

/// What one digit adds to the sum: itself, or, where it is doubled, its
/// double less nine when that double has two decimal digits.
pub open spec fn luhn_term(d: int, doubled: bool) -> int {
    if doubled {
        if 2 * d > 9 {
            2 * d - 9
        } else {
            2 * d
        }
    } else {
        d
    }
}

/// The value a character counts for in the sum: its value for a digit, and
/// nothing for any other character.
pub open spec fn luhn_digit(c: char) -> int {
    if is_digit(c) {
        digit_value(c)
    } else {
        0
    }
}

/// The sum of the terms of the first `n` digits of `s`, each weighed by its
/// position from the right end of the whole of `s`.
pub open spec fn luhn_prefix_sum(s: Seq<char>, n: int) -> int
    decreases n,
{
    if n <= 0 {
        0
    } else {
        luhn_prefix_sum(s, n - 1) + luhn_term(luhn_digit(s[n - 1]), doubled_at(s.len() as int, n - 1))
    }
}

/// The Luhn sum of `s`; characters other than digits count for nothing.
pub open spec fn luhn_sum(s: Seq<char>) -> int {
    luhn_prefix_sum(s, s.len() as int)
}

/// A Luhn-valid number: at least one character, decimal digits only, and a
/// Luhn sum divisible by ten. The empty string is not a number, so it is not
/// Luhn-valid; a string holding anything but digits is not either.
pub open spec fn luhn_valid(s: Seq<char>) -> bool {
    &&& s.len() > 0
    &&& all_digits(s)
    &&& luhn_sum(s) % 10 == 0
}

} // verus!
