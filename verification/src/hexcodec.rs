//! Hex text and raw bytes. The coding itself is done by the `hex` crate; this
//! module states what that crate returns and builds the library's own
//! functions on those statements.

use vstd::prelude::*;
use vstd::string::StringSliceAdditionalSpecFns;
use vstd::utf8::{encode_utf8, is_ascii_chars, is_ascii_chars_encode_utf8};

verus! {

/// Why a text is not the hex encoding of any byte sequence.
#[derive(Debug, Clone, Copy, PartialEq, Eq, Structural)]
pub enum HexError {
    /// The byte at `index` of the text is no hex digit; `c` is that byte as a
    /// character.
    InvalidHexCharacter { c: char, index: usize },
    /// The text has an odd number of bytes.
    OddLength,
    /// The text does not fill a container of fixed size. Decoding into a
    /// vector never reports this.
    InvalidStringLength,
}

/// Whether a byte is one of `0`-`9`, `a`-`f`, `A`-`F` in ASCII.
pub open spec fn is_hex_digit(b: u8) -> bool {
    ||| 0x30 <= b <= 0x39
    ||| 0x41 <= b <= 0x46
    ||| 0x61 <= b <= 0x66
}

/// The number, 0 to 15, that a hex digit stands for.
pub open spec fn hex_value(b: u8) -> int
    recommends
        is_hex_digit(b),
{
    if 0x30 <= b <= 0x39 {
        b - 0x30
    } else if 0x41 <= b <= 0x46 {
        b - 0x41 + 10
    } else {
        b - 0x61 + 10
    }
}

/// The lower-case hex digit of a number from 0 to 15.
pub open spec fn hex_digit(n: int) -> char
    recommends
        0 <= n < 16,
{
    if n < 10 {
        (0x30 + n) as u8 as char
    } else {
        (0x61 + n - 10) as u8 as char
    }
}

/// The lower-case hex text of a byte sequence: two digits for each byte, the
/// high four bits first.
pub open spec fn hex_encoding(data: Seq<u8>) -> Seq<char> {
    Seq::new(
        2 * data.len(),
        |i: int|
            if i % 2 == 0 {
                hex_digit(data[i / 2] as int / 16)
            } else {
                hex_digit(data[i / 2] as int % 16)
            },
    )
}

/// Whether a text is a hex encoding: an even number of bytes, each a hex digit.
pub open spec fn is_hex_text(text: Seq<u8>) -> bool {
    &&& text.len() % 2 == 0
    &&& forall|i: int| 0 <= i < text.len() ==> is_hex_digit(#[trigger] text[i])
}

/// The bytes that a hex text stands for: each pair of digits is one byte.
pub open spec fn hex_decoded(text: Seq<u8>) -> Seq<u8>
    recommends
        is_hex_text(text),
{
    Seq::new(
        text.len() / 2,
        |i: int| (16 * hex_value(text[2 * i]) + hex_value(text[2 * i + 1])) as u8,
    )
}

/// Whether `error` is the reason why `text` is no hex encoding. An odd length
/// is reported before any digit is looked at; otherwise the first byte that is
/// no hex digit is reported.
pub open spec fn is_hex_error(text: Seq<u8>, error: HexError) -> bool {
    match error {
        HexError::OddLength => text.len() % 2 == 1,
        HexError::InvalidHexCharacter { c, index } => {
            &&& text.len() % 2 == 0
            &&& index < text.len()
            &&& !is_hex_digit(text[index as int])
            &&& c == text[index as int] as char
            &&& forall|j: int| 0 <= j < index ==> is_hex_digit(#[trigger] text[j])
        },
        HexError::InvalidStringLength => false,
    }
}

/// `hex::encode` on a byte slice. Trusted: the result is the lower-case hex
/// text of the bytes, two digits per byte, the high four bits first.
#[verifier::external_body]
fn hex_encode(data: &[u8]) -> (text: String)
    ensures
        text@ == hex_encoding(data@),
{
    hex::encode(data)
}

/// `hex::decode` on a byte slice, with the crate's error turned into
/// [`HexError`] variant by variant. Trusted: a text of even length made of hex
/// digits gives the bytes it stands for; an odd length gives `OddLength`; any
/// other text gives `InvalidHexCharacter` for its first byte that is no hex
/// digit.
#[verifier::external_body]
fn hex_decode(text: &[u8]) -> (outcome: Result<Vec<u8>, HexError>)
    ensures
        match outcome {
            Ok(bytes) => is_hex_text(text@) && bytes@ == hex_decoded(text@),
            Err(error) => is_hex_error(text@, error),
        },
{
    match hex::decode(text) {
        Ok(bytes) => Ok(bytes),
        Err(hex::FromHexError::InvalidHexCharacter { c, index }) => {
            Err(HexError::InvalidHexCharacter { c, index })
        },
        Err(hex::FromHexError::OddLength) => Err(HexError::OddLength),
        Err(hex::FromHexError::InvalidStringLength) => Err(HexError::InvalidStringLength),
    }
}

/// Encodes bytes as lower-case hex text.
pub fn bytes_to_hex(bytes: &[u8]) -> (text: String)
    ensures
        text@ == hex_encoding(bytes@),
{
    hex_encode(bytes)
}

/// Decodes hex text, upper or lower case, into the bytes it stands for, or
/// says why the text is no hex encoding.
pub fn hex_to_bytes(hex: &str) -> (outcome: Result<Vec<u8>, HexError>)
    ensures
        match outcome {
            Ok(bytes) => is_hex_text(hex.spec_bytes()) && bytes@ == hex_decoded(hex.spec_bytes()),
            Err(error) => is_hex_error(hex.spec_bytes(), error),
        },
{
    hex_decode(hex.as_bytes())
}

/// Decodes hex text into bytes; any failure is reported as the one message
/// `Hex decode error`.
pub fn decode_hex(hex_str: &str) -> (outcome: Result<Vec<u8>, String>)
    ensures
        match outcome {
            Ok(bytes) => is_hex_text(hex_str.spec_bytes()) && bytes@ == hex_decoded(
                hex_str.spec_bytes(),
            ),
            Err(message) => !is_hex_text(hex_str.spec_bytes()) && message@
                == "Hex decode error"@,
        },
{
    match hex_decode(hex_str.as_bytes()) {
        Ok(bytes) => Ok(bytes),
        Err(_) => Err(String::from_str("Hex decode error")),
    }
}

/// Encoding then decoding gives the bytes back: the hex text of any byte
/// sequence is ASCII, is a hex encoding, and stands for that sequence.
pub proof fn hex_round_trip(data: Seq<u8>)
    ensures
        is_ascii_chars(hex_encoding(data)),
        is_hex_text(encode_utf8(hex_encoding(data))),
        hex_decoded(encode_utf8(hex_encoding(data))) == data,
{
    let chars = hex_encoding(data);
    assert forall|i: int| 0 <= i < chars.len() implies '\0' <= #[trigger] chars[i] <= '\u{7f}' by {
        let b = data[i / 2];
        assert(0 <= b as int / 16 < 16 && 0 <= b as int % 16 < 16);
    }
    is_ascii_chars_encode_utf8(chars);
    let text = encode_utf8(chars);
    assert forall|i: int| 0 <= i < text.len() implies is_hex_digit(#[trigger] text[i]) by {
        let b = data[i / 2];
        assert(0 <= b as int / 16 < 16 && 0 <= b as int % 16 < 16);
        assert(text[i] == chars[i] as u8);
    }
    assert forall|k: int| 0 <= k < data.len() implies hex_decoded(text)[k] == data[k] by {
        let b = data[k];
        assert(text[2 * k] == chars[2 * k] as u8);
        assert(text[2 * k + 1] == chars[2 * k + 1] as u8);
        assert((2 * k) / 2 == k && (2 * k + 1) / 2 == k);
        assert(hex_value(text[2 * k]) == b as int / 16);
        assert(hex_value(text[2 * k + 1]) == b as int % 16);
    }
    assert(hex_decoded(text) =~= data);
}

/// A text has at most one decoding error, and a text that has one is no hex
/// encoding.
pub proof fn hex_error_is_unique(text: Seq<u8>, first: HexError, second: HexError)
    requires
        is_hex_error(text, first),
        is_hex_error(text, second),
    ensures
        first == second,
        !is_hex_text(text),
{
    match (first, second) {
        (
            HexError::InvalidHexCharacter { c: c1, index: i1 },
            HexError::InvalidHexCharacter { c: c2, index: i2 },
        ) => {
            if i1 < i2 {
                assert(is_hex_digit(text[i1 as int]));
            } else if i2 < i1 {
                assert(is_hex_digit(text[i2 as int]));
            }
        },
        _ => {},
    }
}

/// The first byte of `text`, at or before `k`, that is no hex digit.
proof fn lemma_first_bad_byte(text: Seq<u8>, k: int) -> (first: int)
    requires
        0 <= k < text.len(),
        !is_hex_digit(text[k]),
    ensures
        0 <= first <= k,
        !is_hex_digit(text[first]),
        forall|j: int| 0 <= j < first ==> is_hex_digit(#[trigger] text[j]),
    decreases k,
{
    if exists|j: int| 0 <= j < k && !is_hex_digit(#[trigger] text[j]) {
        let j = choose|j: int| 0 <= j < k && !is_hex_digit(#[trigger] text[j]);
        lemma_first_bad_byte(text, j)
    } else {
        k
    }
}

/// Every text that is no hex encoding, and short enough to be held in memory,
/// has a decoding error.
pub proof fn hex_error_exists(text: Seq<u8>) -> (error: HexError)
    requires
        !is_hex_text(text),
        text.len() <= usize::MAX,
    ensures
        is_hex_error(text, error),
{
    if text.len() % 2 == 1 {
        HexError::OddLength
    } else {
        let k = choose|k: int| 0 <= k < text.len() && !is_hex_digit(#[trigger] text[k]);
        let first = lemma_first_bad_byte(text, k);
        HexError::InvalidHexCharacter { c: text[first] as char, index: first as usize }
    }
}

} // verus!
