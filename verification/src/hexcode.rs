//! Hexadecimal text, as read and written by the `hex` crate.

use vstd::prelude::*;

verus! {

/// Why a text is not the hexadecimal form of any bytes.
#[derive(Debug, Clone, Copy, PartialEq, Eq)]
pub enum HexFailure {
    /// `c` at byte `index` is none of `0-9`, `a-f`, `A-F`.
    InvalidCharacter { c: char, index: usize },
    /// The text has an odd number of bytes.
    OddLength,
    /// The text does not fill the container it is decoded into.
    InvalidStringLength,
}

/// The value of a hexadecimal digit given as a byte of text, if it is one.
pub open spec fn hex_value(c: u8) -> Option<u8> {
    if 0x30 <= c <= 0x39 {
        Some((c - 0x30) as u8)
    } else if 0x61 <= c <= 0x66 {
        Some((c - 0x61 + 10) as u8)
    } else if 0x41 <= c <= 0x46 {
        Some((c - 0x41 + 10) as u8)
    } else {
        None
    }
}

/// The lower-case hexadecimal digit for a value below 16.
pub open spec fn hex_char(value: int) -> char {
    if value < 10 {
        ((0x30 + value) as u8) as char
    } else {
        ((0x61 + value - 10) as u8) as char
    }
}

/// Whether `text` spells `bytes`: two digits for each byte, the high one first.
pub open spec fn spells(text: Seq<u8>, bytes: Seq<u8>) -> bool {
    &&& text.len() == 2 * bytes.len()
    &&& forall|i: int|
        0 <= i < bytes.len() ==> hex_value(#[trigger] text[2 * i]) == Some((bytes[i] / 16) as u8)
            && hex_value(text[2 * i + 1]) == Some((bytes[i] % 16) as u8)
}

/// The lower-case hexadecimal form of `bytes`.
pub open spec fn hex_text(bytes: Seq<u8>) -> Seq<char> {
    Seq::new(
        2 * bytes.len(),
        |i: int|
            if i % 2 == 0 {
                hex_char(bytes[i / 2] as int / 16)
            } else {
                hex_char(bytes[i / 2] as int % 16)
            },
    )
}

/// Decodes hexadecimal text with `hex::decode`, which takes upper and lower
/// case, refuses an odd length first, and otherwise reports the first byte
/// that is no digit.
#[verifier::external_body]
pub(crate) fn hex_decode(text: &[u8]) -> (decoded: Result<Vec<u8>, HexFailure>)
    ensures
        match decoded {
            Ok(bytes) => spells(text@, bytes@),
            Err(HexFailure::OddLength) => text@.len() % 2 == 1,
            Err(HexFailure::InvalidCharacter { c, index }) => {
                &&& text@.len() % 2 == 0
                &&& index < text@.len()
                &&& hex_value(text@[index as int]) is None
                &&& c == text@[index as int] as char
                &&& forall|j: int| 0 <= j < index ==> hex_value(text@[j]) is Some
            },
            Err(HexFailure::InvalidStringLength) => false,
        },
{
    match hex::decode(text) {
        Ok(bytes) => Ok(bytes),
        Err(hex::FromHexError::OddLength) => Err(HexFailure::OddLength),
        Err(hex::FromHexError::InvalidHexCharacter { c, index }) => Err(
            HexFailure::InvalidCharacter { c, index },
        ),
        Err(hex::FromHexError::InvalidStringLength) => Err(HexFailure::InvalidStringLength),
    }
}

/// Encodes bytes with `hex::encode`: two lower-case digits for each byte,
/// the high one first.
#[verifier::external_body]
pub(crate) fn hex_encode(bytes: &[u8]) -> (text: String)
    ensures
        text@ == hex_text(bytes@),
{
    hex::encode(bytes)
}

} // verus!
