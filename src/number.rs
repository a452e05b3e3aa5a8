//! Parsing of unsigned numbers written in decimal or hexadecimal.
use std::num::ParseIntError;
use vstd::prelude::*;

verus! {

/// std's `ParseIntError`, the error of `from_str_radix`, carried through unchanged.
#[verifier::external_type_specification]
#[verifier::external_body]
pub struct ExParseIntError(ParseIntError);

/// The value of `c` as a digit in base `radix`, if it is one: `0`-`9`, then letters of either
/// case from ten up.
pub open spec fn digit_value(c: char, radix: nat) -> Option<nat> {
    let code = c as u32;
    let v: int = if '0' as u32 <= code <= '9' as u32 {
        code - '0' as u32
    } else if 'a' as u32 <= code <= 'z' as u32 {
        code - 'a' as u32 + 10
    } else if 'A' as u32 <= code <= 'Z' as u32 {
        code - 'A' as u32 + 10
    } else {
        radix as int
    };
    if 0 <= v < radix {
        Some(v as nat)
    } else {
        None
    }
}

/// The number that `digits` writes in base `radix`, most significant digit first, if each of its
/// characters is a digit of that base.
pub open spec fn digits_value(digits: Seq<char>, radix: nat) -> Option<nat>
    decreases digits.len(),
{
    if digits.len() == 0 {
        Some(0)
    } else {
        match (digits_value(digits.drop_last(), radix), digit_value(digits.last(), radix)) {
            (Some(high), Some(low)) => Some(high * radix + low),
            _ => None,
        }
    }
}

/// The number that `s` writes in base `radix` as an optional `+` followed by at least one digit.
pub open spec fn unsigned_value(s: Seq<char>, radix: nat) -> Option<nat> {
    let digits = if s.len() > 0 && s[0] == '+' {
        s.drop_first()
    } else {
        s
    };
    if digits.len() == 0 {
        None
    } else {
        digits_value(digits, radix)
    }
}

/// Relies on `u64::from_str_radix`: it accepts an optional `+` followed by digits of the radix
/// and nothing else, and fails where the number does not fit.
#[verifier::external_body]
pub(crate) fn u64_from_str_radix(s: &str, radix: u32) -> (r: Result<u64, ParseIntError>)
    requires
        2 <= radix <= 36,
    ensures
        r is Ok <==> (unsigned_value(s@, radix as nat) matches Some(v) && v <= u64::MAX),
        r matches Ok(n) ==> unsigned_value(s@, radix as nat) == Some(n as nat),
{
    u64::from_str_radix(s, radix)
}

/// Relies on `u8::from_str_radix`: it accepts an optional `+` followed by digits of the radix
/// and nothing else, and fails where the number does not fit.
#[verifier::external_body]
pub(crate) fn u8_from_str_radix(s: &str, radix: u32) -> (r: Result<u8, ParseIntError>)
    requires
        2 <= radix <= 36,
    ensures
        r is Ok <==> (unsigned_value(s@, radix as nat) matches Some(v) && v <= u8::MAX),
        r matches Ok(n) ==> unsigned_value(s@, radix as nat) == Some(n as nat),
{
    u8::from_str_radix(s, radix)
}

/// `s` with the two-character prefix `prefix` taken off, if it starts with it.
pub open spec fn strip_prefix2(s: Seq<char>, prefix: Seq<char>) -> Option<Seq<char>> {
    if s.len() >= 2 && s[0] == prefix[0] && s[1] == prefix[1] {
        Some(s.subrange(2, s.len() as int))
    } else {
        None
    }
}

/// Returns the rest of `s` after the two-character prefix `first, second`, if it starts with it.
pub fn split_prefix<'a>(s: &'a str, first: char, second: char) -> (r: Option<&'a str>)
    ensures
        match r {
            Some(rest) => strip_prefix2(s@, seq![first, second]) == Some(rest@),
            None => strip_prefix2(s@, seq![first, second]) is None,
        },
{
    let len = s.unicode_len();
    if len >= 2 && s.get_char(0) == first && s.get_char(1) == second {
        Some(s.substring_char(2, len))
    } else {
        None
    }
}

/// The number that `s` writes: in hexadecimal after a `0x` prefix, otherwise in decimal.
pub open spec fn number_value(s: Seq<char>) -> Option<nat> {
    match strip_prefix2(s, seq!['0', 'x']) {
        Some(hex) => unsigned_value(hex, 16),
        None => unsigned_value(s, 10),
    }
}

/// Parses a decimal or hexadecimal number from a string.
///
/// If the string starts with `"0x"` then it will be parsed as hexadecimal, otherwise it will be
/// assumed to be decimal.
pub fn parse_number(s: &str) -> (r: Result<u64, ParseIntError>)
    ensures
        r is Ok <==> (number_value(s@) matches Some(v) && v <= u64::MAX),
        r matches Ok(n) ==> number_value(s@) == Some(n as nat),
{
    if let Some(hex) = split_prefix(s, '0', 'x') {
        u64_from_str_radix(hex, 16)
    } else {
        u64_from_str_radix(s, 10)
    }
}

} // verus!
