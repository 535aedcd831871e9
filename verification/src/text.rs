//! Text put together from pieces.

use vstd::prelude::*;

verus! {

/// The character of a decimal digit.
pub open spec fn digit_char(digit: nat) -> char {
    if digit == 0 {
        '0'
    } else if digit == 1 {
        '1'
    } else if digit == 2 {
        '2'
    } else if digit == 3 {
        '3'
    } else if digit == 4 {
        '4'
    } else if digit == 5 {
        '5'
    } else if digit == 6 {
        '6'
    } else if digit == 7 {
        '7'
    } else if digit == 8 {
        '8'
    } else {
        '9'
    }
}

/// A number in decimal, without sign or leading zeros.
pub open spec fn decimal(n: nat) -> Seq<char>
    decreases n,
{
    if n < 10 {
        seq![digit_char(n)]
    } else {
        decimal(n / 10) + seq![digit_char(n % 10)]
    }
}

/// `concat` of std on a slice of two strings: the first, then the second, in a new
/// string.
#[verifier::external_body]
pub(crate) fn join(first: &str, second: &str) -> (text: String)
    ensures
        text@ == first@ + second@,
{
    [first, second].concat()
}

/// `to_string` of std on a `u32`, which writes it as `Display` does: in decimal, without
/// sign or leading zeros.
#[verifier::external_body]
pub(crate) fn decimal_string(n: u32) -> (text: String)
    ensures
        text@ == decimal(n as nat),
{
    n.to_string()
}

} // verus!
