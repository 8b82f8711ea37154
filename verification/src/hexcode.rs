//! Hexadecimal text, decoded by the `hex` crate.

use vstd::prelude::*;

verus! {

/// Why a text is not hexadecimal: the errors of the `hex` crate.
#[derive(Clone, Copy, Debug, PartialEq, Eq, Structural)]
pub enum HexError {
    /// The byte `c` at position `index` is no hexadecimal digit.
    InvalidHexCharacter { c: char, index: usize },
    /// The text has an odd number of digits.
    OddLength,
    /// The text does not have the length of the container it is decoded
    /// into. Decoding into a vector never fails so.
    InvalidStringLength,
}

/// The value of a hexadecimal digit, given as an ASCII byte: `0`-`9`,
/// `a`-`f` or `A`-`F`.
pub open spec fn hex_value(digit: u8) -> Option<u8> {
    if 0x30 <= digit <= 0x39 {
        Some((digit - 0x30) as u8)
    } else if 0x41 <= digit <= 0x46 {
        Some((digit - 0x41 + 10) as u8)
    } else if 0x61 <= digit <= 0x66 {
        Some((digit - 0x61 + 10) as u8)
    } else {
        None
    }
}

/// Position `k` holds the first byte of the text that is no hexadecimal
/// digit.
pub open spec fn is_first_invalid(text: Seq<u8>, k: int) -> bool {
    &&& 0 <= k < text.len()
    &&& hex_value(text[k]) is None
    &&& forall|j: int| 0 <= j < k ==> hex_value(#[trigger] text[j]) is Some
}

/// The bytes that a hexadecimal text spells out, two digits to a byte with
/// the high digit first. A text of odd length is refused before its digits
/// are looked at; otherwise the first byte that is no digit is reported.
pub open spec fn hex_decoded(text: Seq<u8>) -> Result<Seq<u8>, HexError> {
    if text.len() % 2 != 0 {
        Err(HexError::OddLength)
    } else if exists|k: int| is_first_invalid(text, k) {
        let k = choose|k: int| is_first_invalid(text, k);
        Err(HexError::InvalidHexCharacter { c: text[k] as char, index: k as usize })
    } else {
        Ok(
            Seq::new(
                (text.len() / 2) as nat,
                |i: int|
                    (16 * hex_value(text[2 * i]).unwrap() + hex_value(text[2 * i + 1]).unwrap()) as u8,
            ),
        )
    }
}

/// What decoding returned, the bytes as a sequence.
pub open spec fn outcome(result: Result<Vec<u8>, HexError>) -> Result<Seq<u8>, HexError> {
    match result {
        Ok(bytes) => Ok(bytes@),
        Err(error) => Err(error),
    }
}

/// The text in which the `hex` crate describes an error.
pub uninterp spec fn hex_error_text(error: HexError) -> Seq<char>;

/// `hex::decode`: the bytes that the hexadecimal text spells out, or the
/// crate's error, variant for variant. The crate refuses a text of odd
/// length first, then decodes pair by pair and stops at the first byte
/// that is no digit.
#[verifier::external_body]
pub(crate) fn decode_hex(text: &[u8]) -> (result: Result<Vec<u8>, HexError>)
    ensures
        outcome(result) == hex_decoded(text@),
{
    match hex::decode(text) {
        Ok(bytes) => Ok(bytes),
        Err(hex::FromHexError::InvalidHexCharacter { c, index }) => Err(
            HexError::InvalidHexCharacter { c, index },
        ),
        Err(hex::FromHexError::OddLength) => Err(HexError::OddLength),
        Err(hex::FromHexError::InvalidStringLength) => Err(HexError::InvalidStringLength),
    }
}

/// `Display` of `hex::FromHexError`: the crate's own words for an error.
#[verifier::external_body]
pub(crate) fn describe_hex_error(error: HexError) -> (text: String)
    ensures
        text@ == hex_error_text(error),
{
    let outside = match error {
        HexError::InvalidHexCharacter { c, index } => hex::FromHexError::InvalidHexCharacter {
            c,
            index,
        },
        HexError::OddLength => hex::FromHexError::OddLength,
        HexError::InvalidStringLength => hex::FromHexError::InvalidStringLength,
    };
    outside.to_string()
}

} // verus!
