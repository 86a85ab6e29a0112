//! Canonical decimal rendering of integer literals.

use vstd::prelude::*;

verus! {

/// The one-character string for a single decimal digit `d`, `0 <= d <= 9`.
pub open spec fn digit_str(d: int) -> Seq<char> {
    if d == 0 {
        "0"@
    } else if d == 1 {
        "1"@
    } else if d == 2 {
        "2"@
    } else if d == 3 {
        "3"@
    } else if d == 4 {
        "4"@
    } else if d == 5 {
        "5"@
    } else if d == 6 {
        "6"@
    } else if d == 7 {
        "7"@
    } else if d == 8 {
        "8"@
    } else {
        "9"@
    }
}

/// Canonical decimal rendering of a nonnegative integer: most significant
/// digit first, no leading zeros (zero itself renders as the single digit).
pub open spec fn nat_dec_str(n: nat) -> Seq<char>
    decreases n,
{
    if n < 10 {
        digit_str(n as int)
    } else {
        nat_dec_str(n / 10) + digit_str((n % 10) as int)
    }
}

/// Canonical decimal rendering of a signed integer: the magnitude's decimal
/// digits, preceded by a minus sign when `n` is negative.
pub open spec fn int_dec_str(n: int) -> Seq<char> {
    if n < 0 {
        "-"@ + nat_dec_str((-n) as nat)
    } else {
        nat_dec_str(n as nat)
    }
}

fn digit_string(d: u64) -> (r: String)
    requires
        d <= 9,
    ensures
        r@ == digit_str(d as int),
{
    if d == 0 {
        String::from_str("0")
    } else if d == 1 {
        String::from_str("1")
    } else if d == 2 {
        String::from_str("2")
    } else if d == 3 {
        String::from_str("3")
    } else if d == 4 {
        String::from_str("4")
    } else if d == 5 {
        String::from_str("5")
    } else if d == 6 {
        String::from_str("6")
    } else if d == 7 {
        String::from_str("7")
    } else if d == 8 {
        String::from_str("8")
    } else {
        String::from_str("9")
    }
}

/// Renders an unsigned integer in decimal.
pub fn u64_to_decimal(n: u64) -> (r: String)
    ensures
        r@ == nat_dec_str(n as nat),
    decreases n,
{
    if n < 10 {
        digit_string(n)
    } else {
        let mut r = u64_to_decimal(n / 10);
        let last = digit_string(n % 10);
        r.append(last.as_str());
        r
    }
}

/// Renders a signed integer in decimal, with a leading minus sign when negative.
pub fn i64_to_decimal(n: i64) -> (r: String)
    ensures
        r@ == int_dec_str(n as int),
{
    if n >= 0 {
        u64_to_decimal(n as u64)
    } else {
        let wide: i128 = n as i128;
        let magnitude: u64 = (-wide) as u64;
        assert(magnitude as int == -(n as int));
        let mut r = String::from_str("-");
        let digits = u64_to_decimal(magnitude);
        r.append(digits.as_str());
        r
    }
}

} // verus!
