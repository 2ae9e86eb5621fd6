//! The grammar of the version field: `"HTTP/" DIGIT "." DIGIT`, eight bytes in all.

use vstd::prelude::*;

verus! {

/// The protocol name and the slash that open the field: `HTTP/`. The name is case
/// sensitive.
pub const NAME: [u8; 5] = [0x48, 0x54, 0x54, 0x50, 0x2f];

/// ASCII `0`.
pub const ZERO: u8 = 0x30;

/// ASCII `9`.
pub const NINE: u8 = 0x39;

/// ASCII `.`, which stands between the two digits.
pub const DOT: u8 = 0x2e;

/// Whether `b` is one of the ASCII decimal digits `0` to `9`.
pub open spec fn is_digit(b: u8) -> bool {
    ZERO <= b <= NINE
}

/// The number that the byte `b` stands for, where it is an ASCII decimal digit.
pub open spec fn digit_value(b: u8) -> Option<u8> {
    if is_digit(b) {
        Some((b - ZERO) as u8)
    } else {
        None
    }
}

/// The ASCII decimal digit that stands for the number `d`, where `d` is below ten.
pub open spec fn digit_byte(d: u8) -> u8
    recommends
        d < 10,
{
    (ZERO + d) as u8
}

/// The field that names the version `major`.`minor`.
pub open spec fn token(major: u8, minor: u8) -> Seq<u8>
    recommends
        major < 10,
        minor < 10,
{
    NAME@ + seq![digit_byte(major), DOT, digit_byte(minor)]
}

/// Whether `bytes` is a well-formed version field: the name, then exactly three
/// more bytes, which are a digit, a dot and a digit.
pub open spec fn is_token(bytes: Seq<u8>) -> bool {
    &&& NAME@.is_prefix_of(bytes)
    &&& bytes.len() == NAME@.len() + 3
    &&& is_digit(bytes[5])
    &&& bytes[6] == DOT
    &&& is_digit(bytes[7])
}

/// Convert the given ASCII digit to a numeric digit if it's within the correct range.
pub fn to_digit(b: u8) -> (d: Option<u8>)
    ensures
        d == digit_value(b),
{
    if b >= ZERO && b <= NINE {
        Some(b - ZERO)
    } else {
        None
    }
}

/// Whether `s` begins with the bytes of `prefix`.
pub(crate) fn starts_with(s: &[u8], prefix: &[u8]) -> (found: bool)
    ensures
        found == prefix@.is_prefix_of(s@),
{
    if s.len() < prefix.len() {
        return false;
    }
    let mut i: usize = 0;
    while i < prefix.len()
        invariant
            i <= prefix@.len() <= s@.len(),
            forall|j: int| 0 <= j < i ==> s@[j] == prefix@[j],
        decreases prefix@.len() - i,
    {
        if s[i] != prefix[i] {
            return false;
        }
        i += 1;
    }
    true
}

} // verus!
