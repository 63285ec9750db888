//! Payloads that clients give as hexadecimal text, decoded by the `hex`
//! crate.

use crate::text::decimal_text;
use vstd::prelude::*;
use vstd::utf8::encode_utf8;

verus! {

/// Why a text is no hexadecimal payload.
#[derive(Debug, Clone, Copy, PartialEq, Eq, Structural)]
pub enum HexFailure {
    /// The byte at `index` is no hexadecimal digit; `c` is the character
    /// with the code of that byte.
    InvalidHexCharacter { c: char, index: usize },
    /// The text has an odd number of bytes.
    OddLength,
    /// The text does not have the length of the place that it is decoded
    /// into. Decoding into a vector never fails so.
    InvalidStringLength,
}

/// Whether a byte is a hexadecimal digit in ASCII.
pub open spec fn is_hex_digit(c: u8) -> bool {
    ||| 0x30 <= c <= 0x39
    ||| 0x41 <= c <= 0x46
    ||| 0x61 <= c <= 0x66
}

/// The value of a hexadecimal digit.
pub open spec fn hex_value(c: u8) -> int {
    if 0x30 <= c <= 0x39 {
        c - 0x30
    } else if 0x41 <= c <= 0x46 {
        c - 0x41 + 10
    } else {
        c - 0x61 + 10
    }
}

/// Whether a text is hexadecimal: an even number of hexadecimal digits.
pub open spec fn is_hex(text: Seq<u8>) -> bool {
    &&& text.len() % 2 == 0
    &&& forall|i: int| 0 <= i < text.len() ==> is_hex_digit(#[trigger] text[i])
}

/// The bytes that a hexadecimal text stands for: one for each pair of
/// digits, the first digit of a pair in the high half.
pub open spec fn hex_decoded(text: Seq<u8>) -> Seq<u8> {
    Seq::new(
        text.len() / 2,
        |i: int| (16 * hex_value(text[2 * i]) + hex_value(text[2 * i + 1])) as u8,
    )
}

/// The number of hexadecimal digits that a text begins with: the place
/// of its first byte that is none, or its length.
pub open spec fn leading_hex_digits(text: Seq<u8>) -> nat
    decreases text.len(),
{
    if text.len() == 0 || !is_hex_digit(text[0]) {
        0
    } else {
        1 + leading_hex_digits(text.skip(1))
    }
}

/// Why a text is no hexadecimal payload, or `None` where it is one. An
/// odd length is found before any byte is looked at; else the first byte
/// that is no digit is named.
pub open spec fn hex_failure(text: Seq<u8>) -> Option<HexFailure> {
    if text.len() % 2 != 0 {
        Some(HexFailure::OddLength)
    } else if leading_hex_digits(text) < text.len() {
        let index = leading_hex_digits(text) as int;
        Some(HexFailure::InvalidHexCharacter { c: text[index] as char, index: index as usize })
    } else {
        None
    }
}

/// The bytes of a text in UTF-8, which is what the decoder reads.
pub open spec fn text_bytes(text: Seq<char>) -> Seq<u8> {
    encode_utf8(text)
}

/// The text that `{:?}` gives for a character: the character between
/// single quotes, escaped where it cannot be shown as it is.
pub uninterp spec fn char_debug_text(c: char) -> Seq<char>;

/// The text of a failure, as the `hex` crate words it.
pub open spec fn hex_failure_text(failure: HexFailure) -> Seq<char> {
    match failure {
        HexFailure::InvalidHexCharacter { c, index } => "Invalid character "@ + char_debug_text(c)
            + " at position "@ + decimal_text(index as nat),
        HexFailure::OddLength => "Odd number of digits"@,
        HexFailure::InvalidStringLength => "Invalid string length"@,
    }
}

/// The leading digits of a text are digits, they are no more than the
/// text is long, and the byte behind them is none; a text is hexadecimal
/// exactly where nothing speaks against it.
pub proof fn lemma_leading_hex_digits(text: Seq<u8>)
    ensures
        leading_hex_digits(text) <= text.len(),
        forall|i: int| 0 <= i < leading_hex_digits(text) ==> is_hex_digit(#[trigger] text[i]),
        leading_hex_digits(text) < text.len() ==> !is_hex_digit(
            text[leading_hex_digits(text) as int],
        ),
        hex_failure(text) is None <==> is_hex(text),
    decreases text.len(),
{
    if text.len() > 0 && is_hex_digit(text[0]) {
        let rest = text.skip(1);
        lemma_leading_hex_digits(rest);
        assert forall|i: int| 0 <= i < leading_hex_digits(text) implies is_hex_digit(
            #[trigger] text[i],
        ) by {
            if i > 0 {
                assert(text[i] == rest[i - 1]);
            }
        }
        if leading_hex_digits(text) < text.len() {
            assert(text[leading_hex_digits(text) as int] == rest[leading_hex_digits(rest) as int]);
        }
    }
}

/// `hex::decode` on the bytes of a text: the bytes that the text stands
/// for where it is an even number of hexadecimal digits. For every other
/// text the error of the `hex` crate, variant for variant: an odd length
/// is reported first, else the first byte that is no digit, with its
/// place.
#[verifier::external_body]
pub(crate) fn hex_decode(data: &str) -> (decoded: core::result::Result<Vec<u8>, HexFailure>)
    ensures
        match hex_failure(text_bytes(data@)) {
            None => decoded is Ok && decoded->Ok_0@ == hex_decoded(text_bytes(data@)),
            Some(failure) => decoded == Err::<Vec<u8>, HexFailure>(failure),
        },
{
    match hex::decode(data) {
        Ok(bytes) => Ok(bytes),
        Err(hex::FromHexError::InvalidHexCharacter { c, index }) => {
            Err(HexFailure::InvalidHexCharacter { c, index })
        },
        Err(hex::FromHexError::OddLength) => Err(HexFailure::OddLength),
        Err(hex::FromHexError::InvalidStringLength) => Err(HexFailure::InvalidStringLength),
    }
}

/// `ToString::to_string` on the error of the `hex` crate that `failure`
/// stands for: the text that the crate's `Display` writes for each of its
/// three variants. The character is written as `{:?}` writes it, the
/// place in decimal.
#[verifier::external_body]
pub(crate) fn hex_failure_message(failure: &HexFailure) -> (text: String)
    ensures
        *failure matches HexFailure::InvalidHexCharacter { c, index } ==> text@
            == "Invalid character "@ + char_debug_text(c) + " at position "@ + decimal_text(
            index as nat,
        ),
        *failure is OddLength ==> text@ == "Odd number of digits"@,
        *failure is InvalidStringLength ==> text@ == "Invalid string length"@,
{
    let error = match *failure {
        HexFailure::InvalidHexCharacter { c, index } => {
            hex::FromHexError::InvalidHexCharacter { c, index }
        },
        HexFailure::OddLength => hex::FromHexError::OddLength,
        HexFailure::InvalidStringLength => hex::FromHexError::InvalidStringLength,
    };
    error.to_string()
}

impl HexFailure {
    /// The text of the failure.
    pub fn message(&self) -> (text: String)
        ensures
            text@ == hex_failure_text(*self),
    {
        hex_failure_message(self)
    }
}

} // verus!
