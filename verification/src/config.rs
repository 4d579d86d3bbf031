//! The device address as the service configuration writes it.
//!
//! The configuration gives the address as text: hexadecimal behind `0x`,
//! decimal otherwise.

use vstd::prelude::*;
use vstd::string::*;

verus! {

/// The number that `u16::from_str_radix` reads from `digits` in base
/// `radix`, or none where it reads no number.
pub uninterp spec fn radix_value(digits: Seq<char>, radix: u32) -> Option<u16>;

/// Reads `digits` as a number in base `radix`.
///
/// Calls `u16::from_str_radix` and keeps the number it returns, dropping the
/// reason when it returns an error. The result is what that function makes
/// of these digits in this base, which the contract names and does not
/// spell out. The function panics on a base outside 2 to 36, which the
/// precondition leaves out.
#[verifier::external_body]
fn read_digits(digits: &str, radix: u32) -> (value: Option<u16>)
    requires
        2 <= radix <= 36,
    ensures
        value == radix_value(digits@, radix),
{
    u16::from_str_radix(digits, radix).ok()
}

/// Whether `text` begins with `0x`.
pub open spec fn has_hex_prefix(text: Seq<char>) -> bool {
    text.len() >= 2 && text[0] == '0' && text[1] == 'x'
}

/// The base in which `text` writes the address.
pub open spec fn radix_of(text: Seq<char>) -> u32 {
    if has_hex_prefix(text) {
        16
    } else {
        10
    }
}

/// The digits of the address in `text`: what follows `0x`, or all of it.
pub open spec fn digits_of(text: Seq<char>) -> Seq<char> {
    if has_hex_prefix(text) {
        text.subrange(2, text.len() as int)
    } else {
        text
    }
}

/// Splits the text of an address into its base and its digits.
pub fn split_addr(text: &str) -> (parts: (u32, &str))
    ensures
        parts.0 == radix_of(text@),
        parts.1@ == digits_of(text@),
{
    let len = text.unicode_len();
    if len >= 2 && text.get_char(0) == '0' && text.get_char(1) == 'x' {
        (16, text.substring_char(2, len))
    } else {
        (10, text)
    }
}

/// Reads a device address: hexadecimal behind `0x`, decimal otherwise.
/// Returns none where the digits are no number of that base that fits an
/// address.
pub fn parse_addr(text: &str) -> (addr: Option<u16>)
    ensures
        addr == radix_value(digits_of(text@), radix_of(text@)),
{
    let (radix, digits) = split_addr(text);
    read_digits(digits, radix)
}

} // verus!
