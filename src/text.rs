//! Rendering of numbers as text.
use vstd::arithmetic::div_mod::lemma_div_decreases;
use vstd::prelude::*;

verus! {

pub open spec fn digit_text(d: nat) -> Seq<char> {
    if d == 0 {
        "0"@
    } else if d == 1 {
        "1"@
    } else if d == 2 {
        "2"@
    } else if d == 3 {
        "3"@
    } else if d == 4 {
        "4"@
    } else if d == 5 {
        "5"@
    } else if d == 6 {
        "6"@
    } else if d == 7 {
        "7"@
    } else if d == 8 {
        "8"@
    } else if d == 9 {
        "9"@
    } else if d == 10 {
        "a"@
    } else if d == 11 {
        "b"@
    } else if d == 12 {
        "c"@
    } else if d == 13 {
        "d"@
    } else if d == 14 {
        "e"@
    } else {
        "f"@
    }
}

/// The digit that stands for `d`, which is below sixteen.
fn digit_str(d: u64) -> (r: &'static str)
    requires
        d < 16,
    ensures
        r@ == digit_text(d as nat),
{
    match d {
        0 => "0",
        1 => "1",
        2 => "2",
        3 => "3",
        4 => "4",
        5 => "5",
        6 => "6",
        7 => "7",
        8 => "8",
        9 => "9",
        10 => "a",
        11 => "b",
        12 => "c",
        13 => "d",
        14 => "e",
        _ => "f",
    }
}

/// `value` written in base `base`, most significant digit first, padded with leading zeros to at
/// least `min_digits` digits.
pub open spec fn numeral(value: nat, base: nat, min_digits: nat) -> Seq<char>
    decreases value, min_digits,
    via numeral_decreases
{
    if base < 2 || (value < base && min_digits <= 1) {
        digit_text(value)
    } else {
        numeral(value / base, base, if min_digits > 0 { (min_digits - 1) as nat } else { 0 })
            + digit_text(value % base)
    }
}

#[via_fn]
proof fn numeral_decreases(value: nat, base: nat, min_digits: nat) {
    if !(base < 2 || (value < base && min_digits <= 1)) && value > 0 {
        lemma_div_decreases(value as int, base as int);
    }
}

/// Writes `value` in base `base` with at least `min_digits` digits.
pub fn numeral_string(value: u64, base: u64, min_digits: usize) -> (r: String)
    requires
        2 <= base <= 16,
    ensures
        r@ == numeral(value as nat, base as nat, min_digits as nat),
    decreases value, min_digits,
{
    if value < base && min_digits <= 1 {
        digit_str(value).to_string()
    } else {
        proof {
            if value > 0 {
                lemma_div_decreases(value as int, base as int);
            }
        }
        let rest: usize = if min_digits > 0 {
            min_digits - 1
        } else {
            0
        };
        let mut s = numeral_string(value / base, base, rest);
        s.append(digit_str(value % base));
        s
    }
}

} // verus!
