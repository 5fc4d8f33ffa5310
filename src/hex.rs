//! Hexadecimal text of byte strings.

use vstd::prelude::*;

verus! {

/// The lowercase hexadecimal digit of `n < 16`.
pub open spec fn hex_digit(n: u8) -> char {
    if n < 10 {
        (('0' as u8) + n) as char
    } else {
        (('a' as u8) + (n - 10)) as char
    }
}

/// Two lowercase digits per byte, high nibble first.
pub open spec fn hex_of(bytes: Seq<u8>) -> Seq<char> {
    Seq::new(
        2 * bytes.len(),
        |i: int|
            if i % 2 == 0 {
                hex_digit(bytes[i / 2] / 16)
            } else {
                hex_digit(bytes[i / 2] % 16)
            },
    )
}

/// Space, tab, carriage return and line feed, which hexadecimal text may hold anywhere.
pub open spec fn is_hex_space(c: char) -> bool {
    c == ' ' || c == '\t' || c == '\r' || c == '\n'
}

/// The value of a hexadecimal digit of either case.
pub open spec fn hex_value(c: char) -> Option<u8> {
    let n = c as u32;
    if 48 <= n <= 57 {
        Some((n - 48) as u8)
    } else if 97 <= n <= 102 {
        Some((n - 87) as u8)
    } else if 65 <= n <= 70 {
        Some((n - 55) as u8)
    } else {
        None
    }
}

/// The digit values of `s`, white space skipped; `None` at any other character.
pub open spec fn hex_digits(s: Seq<char>) -> Option<Seq<u8>>
    decreases s.len(),
{
    if s.len() == 0 {
        Some(Seq::empty())
    } else {
        match hex_digits(s.drop_last()) {
            None => None,
            Some(digits) => if is_hex_space(s.last()) {
                Some(digits)
            } else {
                match hex_value(s.last()) {
                    Some(v) => Some(digits.push(v)),
                    None => None,
                }
            },
        }
    }
}

/// The bytes that the hexadecimal text `s` spells, digits paired high nibble first, or
/// `None` where it holds a character that is neither a digit nor white space, or an odd
/// number of digits.
pub open spec fn hex_decoded(s: Seq<char>) -> Option<Seq<u8>> {
    match hex_digits(s) {
        Some(d) => if d.len() % 2 == 0 {
            Some(Seq::new(d.len() / 2, |i: int| (d[2 * i] * 16 + d[2 * i + 1]) as u8))
        } else {
            None
        },
        None => None,
    }
}

/// Relies on `rustc_hex::ToHex::to_hex`: two lowercase digits per byte, high nibble first.
#[verifier::external_body]
pub(crate) fn to_hex(bytes: &[u8]) -> (r: String)
    ensures
        r@ == hex_of(bytes@),
{
    rustc_hex::ToHex::to_hex::<String>(bytes)
}

/// Relies on `rustc_hex::FromHex::from_hex`: white space is skipped, any other character
/// must be a digit of either case, the digits must be even in number and pair high nibble
/// first; its error is mapped to `None`.
#[verifier::external_body]
pub(crate) fn from_hex(s: &str) -> (r: Option<Vec<u8>>)
    ensures
        match r {
            Some(bytes) => hex_decoded(s@) == Some(bytes@),
            None => hex_decoded(s@) is None,
        },
{
    rustc_hex::FromHex::from_hex::<Vec<u8>>(s).ok()
}

} // verus!
