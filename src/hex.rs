//! Reading a base address written in hexadecimal, with or without `0x`.

use vstd::prelude::*;
use std::num::ParseIntError;

verus! {

#[verifier::external_type_specification]
#[verifier::external_body]
pub struct ExParseIntError(ParseIntError);

/// The value of `c` as a digit: `0`-`9`, then the letters of either case
/// from 10 on; 36 for anything else, which is a digit in no radix.
pub open spec fn digit_value(c: char) -> int {
    if ('0' as u32) <= (c as u32) <= ('9' as u32) {
        c as u32 - '0' as u32
    } else if ('a' as u32) <= (c as u32) <= ('z' as u32) {
        c as u32 - 'a' as u32 + 10
    } else if ('A' as u32) <= (c as u32) <= ('Z' as u32) {
        c as u32 - 'A' as u32 + 10
    } else {
        36
    }
}

/// The number that the digits `s` stand for in base `radix`.
pub open spec fn digits_value(s: Seq<char>, radix: int) -> int
    decreases s.len(),
{
    if s.len() == 0 {
        0
    } else {
        digits_value(s.drop_last(), radix) * radix + digit_value(s.last())
    }
}

/// The digits of an unsigned number in text: an optional leading `+` is
/// dropped.
pub open spec fn unsigned_digits(s: Seq<char>) -> Seq<char> {
    if s.len() > 0 && s[0] == '+' {
        s.drop_first()
    } else {
        s
    }
}

/// Whether `s` reads as a `u32` in base `radix`: at least one digit after
/// the optional sign, only digits of that radix, and a value that fits.
pub open spec fn u32_text_ok(s: Seq<char>, radix: int) -> bool {
    let d = unsigned_digits(s);
    &&& d.len() > 0
    &&& forall|i: int| 0 <= i < d.len() ==> digit_value(#[trigger] d[i]) < radix
    &&& digits_value(d, radix) <= u32::MAX
}

pub open spec fn starts_with(s: Seq<char>, prefix: Seq<char>) -> bool {
    prefix.len() <= s.len() && s.subrange(0, prefix.len() as int) == prefix
}

pub open spec fn hex_prefix() -> Seq<char> {
    seq!['0', 'x']
}

/// The text of an address once a leading `0x` is taken off.
pub open spec fn address_text(s: Seq<char>) -> Seq<char> {
    if starts_with(s, hex_prefix()) {
        s.subrange(2, s.len() as int)
    } else {
        s
    }
}

/// Relies on `str::strip_prefix`: the rest of `s` after `prefix`, or `None`
/// where `s` does not start with it.
#[verifier::external_body]
fn strip_prefix_of<'a>(s: &'a str, prefix: &str) -> (r: Option<&'a str>)
    ensures
        match r {
            Some(rest) => starts_with(s@, prefix@) && rest@ == s@.subrange(
                prefix@.len() as int,
                s@.len() as int,
            ),
            None => !starts_with(s@, prefix@),
        },
{
    s.strip_prefix(prefix)
}

/// Relies on `u32::from_str_radix`: an optional `+`, then digits of the
/// radix in either case, with the value in range; anything else is an
/// error. It panics for a radix outside 2 to 36.
#[verifier::external_body]
fn u32_from_str_radix(s: &str, radix: u32) -> (r: Result<u32, ParseIntError>)
    requires
        2 <= radix <= 36,
    ensures
        r is Ok <==> u32_text_ok(s@, radix as int),
        match r {
            Ok(v) => v == digits_value(unsigned_digits(s@), radix as int),
            Err(_) => true,
        },
{
    u32::from_str_radix(s, radix)
}

/// Reads a hexadecimal address, with or without a leading `0x`.
pub fn parse_hex(src: &str) -> (r: Result<u32, ParseIntError>)
    ensures
        r is Ok <==> u32_text_ok(address_text(src@), 16),
        match r {
            Ok(v) => v == digits_value(unsigned_digits(address_text(src@)), 16),
            Err(_) => true,
        },
{
    proof {
        reveal_strlit("0x");
    }
    assert("0x"@ =~= hex_prefix());
    match strip_prefix_of(src, "0x") {
        Some(num) => u32_from_str_radix(num, 16),
        None => u32_from_str_radix(src, 16),
    }
}

} // verus!
