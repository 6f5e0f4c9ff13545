//! Decimal rendering of counters for human-readable error messages.
use vstd::prelude::*;

verus! {

/// The character for one decimal digit value.
pub open spec fn decimal_digit(d: nat) -> char {
    if d == 0 {
        '0'
    } else if d == 1 {
        '1'
    } else if d == 2 {
        '2'
    } else if d == 3 {
        '3'
    } else if d == 4 {
        '4'
    } else if d == 5 {
        '5'
    } else if d == 6 {
        '6'
    } else if d == 7 {
        '7'
    } else if d == 8 {
        '8'
    } else {
        '9'
    }
}

/// The usual decimal rendering of a number: most significant digit first,
/// no leading zeros, and a single `'0'` for zero.
pub open spec fn decimal_rep(n: nat) -> Seq<char>
    decreases n,
{
    if n < 10 {
        seq![decimal_digit(n)]
    } else {
        decimal_rep(n / 10).push(decimal_digit(n % 10))
    }
}

/// Relies on u32's Display implementation, reached through `format!`:
/// it renders the value in decimal with no sign, padding or leading zeros.
#[verifier::external_body]
pub fn decimal_string(n: u32) -> (r: String)
    ensures
        r@ == decimal_rep(n as nat),
{
    format!("{}", n)
}

} // verus!
