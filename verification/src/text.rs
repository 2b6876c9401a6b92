//! Decimal text rendering used by the parameter readout and the UI's
//! note display.

use vstd::prelude::*;
use vstd::string::StringExecFns;

verus! {

/// The single decimal digit `d` as a sequence of one character.
pub open spec fn spec_digit(d: int) -> Seq<char>
    recommends
        0 <= d < 10,
{
    if d == 0 {
        "0"@
    } else if d == 1 {
        "1"@
    } else if d == 2 {
        "2"@
    } else if d == 3 {
        "3"@
    } else if d == 4 {
        "4"@
    } else if d == 5 {
        "5"@
    } else if d == 6 {
        "6"@
    } else if d == 7 {
        "7"@
    } else if d == 8 {
        "8"@
    } else if d == 9 {
        "9"@
    } else {
        Seq::<char>::empty()
    }
}

/// The single decimal digit `d` as a string slice.
pub fn digit_str(d: u32) -> (r: &'static str)
    requires
        d < 10,
    ensures
        r@ == spec_digit(d as int),
{
    if d == 0 {
        "0"
    } else if d == 1 {
        "1"
    } else if d == 2 {
        "2"
    } else if d == 3 {
        "3"
    } else if d == 4 {
        "4"
    } else if d == 5 {
        "5"
    } else if d == 6 {
        "6"
    } else if d == 7 {
        "7"
    } else {
        if d == 8 {
            "8"
        } else {
            "9"
        }
    }
}

/// The decimal rendering of a byte, without leading zeros.
pub open spec fn spec_byte_decimal(n: u8) -> Seq<char> {
    let v = n as int;
    if v < 10 {
        spec_digit(v)
    } else if v < 100 {
        spec_digit(v / 10) + spec_digit(v % 10)
    } else {
        spec_digit(v / 100) + spec_digit((v / 10) % 10) + spec_digit(v % 10)
    }
}

/// Render a byte in decimal, e.g. `60` as `"60"`.
pub fn byte_decimal(n: u8) -> (r: String)
    ensures
        r@ == spec_byte_decimal(n),
{
    let v: u32 = n as u32;
    let mut r = String::new();
    if v >= 100 {
        r.append(digit_str(v / 100));
        r.append(digit_str((v / 10) % 10));
        r.append(digit_str(v % 10));
    } else if v >= 10 {
        r.append(digit_str(v / 10));
        r.append(digit_str(v % 10));
    } else {
        r.append(digit_str(v));
    }
    assert(r@ =~= spec_byte_decimal(n));
    r
}

} // verus!
