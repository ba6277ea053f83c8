//! The two text encodings that carry bytes between the stages: hexadecimal
//! (two digits for each byte, no separators) and base64.

use crate::error::ErrorView;
use crate::error::ExtractorError;
use vstd::prelude::*;
use vstd::string::StringExecFns;
use vstd::string::StringSliceAdditionalSpecFns;
use vstd::utf8::encode_utf8;
use vstd::utf8::is_ascii_chars;
use vstd::utf8::is_ascii_chars_encode_utf8;

verus! {

/// The text whose characters are the given ASCII bytes.
pub open spec fn ascii_text(bytes: Seq<u8>) -> Seq<char> {
    Seq::new(bytes.len(), |i: int| bytes[i] as char)
}

/// All of the bytes are ASCII.
pub open spec fn is_ascii_bytes(bytes: Seq<u8>) -> bool {
    forall|i: int| 0 <= i < bytes.len() ==> bytes[i] < 0x80
}

/// The digit (as its ASCII byte) for a value below 16: `0` to `9`, then `a`
/// to `f`.
pub open spec fn hex_digit(value: int) -> u8 {
    if value < 10 {
        (0x30 + value) as u8
    } else {
        (0x57 + value) as u8
    }
}

/// The value of a hexadecimal digit, upper or lower case; `None` for any
/// other byte.
pub open spec fn hex_value(digit: u8) -> Option<int> {
    if 0x30 <= digit <= 0x39 {
        Some(digit - 0x30)
    } else if 0x61 <= digit <= 0x66 {
        Some(digit - 0x57)
    } else if 0x41 <= digit <= 0x46 {
        Some(digit - 0x37)
    } else {
        None
    }
}

/// A digit that [`hex_digit`] can give: `0` to `9` or `a` to `f`.
pub open spec fn is_lower_hex_digit(digit: u8) -> bool {
    0x30 <= digit <= 0x39 || 0x61 <= digit <= 0x66
}

/// The hexadecimal text of `bytes`: for each byte its high digit, then its
/// low digit, in lower case.
pub open spec fn hex_text(bytes: Seq<u8>) -> Seq<u8> {
    Seq::new(
        2 * bytes.len(),
        |i: int|
            if i % 2 == 0 {
                hex_digit(bytes[i / 2] as int / 16)
            } else {
                hex_digit(bytes[i / 2] as int % 16)
            },
    )
}

/// `text` is hexadecimal: an even number of hexadecimal digits.
pub open spec fn is_hex_text(text: Seq<u8>) -> bool {
    &&& text.len() % 2 == 0
    &&& forall|i: int| 0 <= i < text.len() ==> hex_value(#[trigger] text[i]) is Some
}

/// The bytes that hexadecimal `text` stands for: one for each pair of digits.
pub open spec fn hex_bytes(text: Seq<u8>) -> Seq<u8> {
    Seq::new(
        text.len() / 2,
        |i: int| (16 * hex_value(text[2 * i])->0 + hex_value(text[2 * i + 1])->0) as u8,
    )
}

/// Hexadecimal text decodes to the bytes it was made from.
pub proof fn lemma_hex_round_trip(bytes: Seq<u8>)
    ensures
        is_hex_text(hex_text(bytes)),
        hex_bytes(hex_text(bytes)) == bytes,
{
    let text = hex_text(bytes);
    assert forall|i: int| 0 <= i < text.len() implies hex_value(#[trigger] text[i]) is Some by {
        let b = bytes[i / 2] as int;
        assert(0 <= b / 16 < 16 && 0 <= b % 16 < 16);
    }
    assert forall|i: int| 0 <= i < bytes.len() implies hex_bytes(text)[i] == bytes[i] by {
        let b = bytes[i] as int;
        assert((2 * i) / 2 == i && (2 * i + 1) / 2 == i);
        assert(hex_value(text[2 * i]) == Some(b / 16));
        assert(hex_value(text[2 * i + 1]) == Some(b % 16));
    }
    assert(hex_bytes(text) =~= bytes);
}

/// Hexadecimal text made from bytes has two characters for each byte, and
/// each is a digit or a lower-case letter from `a` to `f`.
pub proof fn lemma_hex_text_shape(bytes: Seq<u8>)
    ensures
        hex_text(bytes).len() == 2 * bytes.len(),
        hex_text(bytes).len() % 2 == 0,
        forall|i: int|
            0 <= i < hex_text(bytes).len() ==> is_lower_hex_digit(#[trigger] hex_text(bytes)[i]),
        is_ascii_bytes(hex_text(bytes)),
{
    let text = hex_text(bytes);
    assert forall|i: int| 0 <= i < text.len() implies is_lower_hex_digit(#[trigger] text[i])
        && text[i] < 0x80 by {
        let b = bytes[i / 2] as int;
        assert(0 <= b / 16 < 16 && 0 <= b % 16 < 16);
    }
}

/// A text of ASCII characters is stored as exactly those bytes.
pub proof fn lemma_ascii_text_bytes(bytes: Seq<u8>)
    requires
        is_ascii_bytes(bytes),
    ensures
        is_ascii_chars(ascii_text(bytes)),
        encode_utf8(ascii_text(bytes)) == bytes,
{
    let chars = ascii_text(bytes);
    assert(is_ascii_chars(chars));
    is_ascii_chars_encode_utf8(chars);
    assert forall|i: int| 0 <= i < bytes.len() implies encode_utf8(chars)[i] == bytes[i] by {
        assert(chars[i] as u8 == encode_utf8(chars)[i]);
        assert(chars[i] == bytes[i] as char);
    }
    assert(encode_utf8(chars) =~= bytes);
}

/// The one-character text of the digit for `value`.
fn hex_digit_str(value: u8) -> (s: &'static str)
    requires
        value < 16,
    ensures
        s@ == seq![hex_digit(value as int) as char],
{
    proof {
        reveal_strlit("0");
        reveal_strlit("1");
        reveal_strlit("2");
        reveal_strlit("3");
        reveal_strlit("4");
        reveal_strlit("5");
        reveal_strlit("6");
        reveal_strlit("7");
        reveal_strlit("8");
        reveal_strlit("9");
        reveal_strlit("a");
        reveal_strlit("b");
        reveal_strlit("c");
        reveal_strlit("d");
        reveal_strlit("e");
        reveal_strlit("f");
    }
    let s = match value {
        0 => "0",
        1 => "1",
        2 => "2",
        3 => "3",
        4 => "4",
        5 => "5",
        6 => "6",
        7 => "7",
        8 => "8",
        9 => "9",
        10 => "a",
        11 => "b",
        12 => "c",
        13 => "d",
        14 => "e",
        _ => "f",
    };
    assert(s@ =~= seq![hex_digit(value as int) as char]);
    s
}

/// Writes `bytes` as hexadecimal text: lower case, two digits per byte, no
/// separators.
pub fn encode_hex(bytes: &[u8]) -> (s: String)
    ensures
        s@ == ascii_text(hex_text(bytes@)),
        encode_utf8(s@) == hex_text(bytes@),
        s@.len() == 2 * bytes@.len(),
{
    let mut s = String::new();
    let mut i: usize = 0;
    while i < bytes.len()
        invariant
            i <= bytes.len(),
            s@ == ascii_text(hex_text(bytes@.take(i as int))),
        decreases bytes.len() - i,
    {
        let b = bytes[i];
        let ghost before = s@;
        s.append(hex_digit_str(b / 16));
        s.append(hex_digit_str(b % 16));
        proof {
            let shorter = bytes@.take(i as int);
            let longer = bytes@.take(i + 1);
            let expected = ascii_text(hex_text(longer));
            assert(s@.len() == expected.len());
            assert forall|k: int| 0 <= k < expected.len() implies s@[k] == expected[k] by {
                if k < 2 * i {
                    assert(before[k] == ascii_text(hex_text(shorter))[k]);
                    assert(longer[k / 2] == shorter[k / 2]);
                } else {
                    assert(k / 2 == i);
                    assert(longer[k / 2] == b);
                }
            }
            assert(s@ =~= expected);
        }
        i += 1;
    }
    proof {
        assert(bytes@.take(bytes@.len() as int) =~= bytes@);
        lemma_hex_text_shape(bytes@);
        lemma_ascii_text_bytes(hex_text(bytes@));
    }
    s
}

/// The value of one hexadecimal digit.
fn digit_value(digit: u8) -> (v: Option<u8>)
    ensures
        match v {
            Some(n) => hex_value(digit) == Some(n as int) && n < 16,
            None => hex_value(digit) is None,
        },
{
    if 0x30 <= digit && digit <= 0x39 {
        Some(digit - 0x30)
    } else if 0x61 <= digit && digit <= 0x66 {
        Some(digit - 0x57)
    } else if 0x41 <= digit && digit <= 0x46 {
        Some(digit - 0x37)
    } else {
        None
    }
}

/// Reads hexadecimal text given as bytes. Fails with
/// [`ExtractorError::InvalidHex`] exactly when the length is odd or a byte is
/// no hexadecimal digit.
pub fn decode_hex_bytes(text: &[u8]) -> (r: Result<Vec<u8>, ExtractorError>)
    ensures
        match r {
            Ok(bytes) => is_hex_text(text@) && bytes@ == hex_bytes(text@),
            Err(e) => !is_hex_text(text@) && e@ == ErrorView::InvalidHex,
        },
{
    if text.len() % 2 != 0 {
        return Err(ExtractorError::InvalidHex);
    }
    let mut bytes: Vec<u8> = Vec::new();
    let mut i: usize = 0;
    while i < text.len()
        invariant
            i <= text.len(),
            i % 2 == 0,
            text.len() % 2 == 0,
            bytes@.len() == i / 2,
            forall|k: int| 0 <= k < i ==> hex_value(#[trigger] text@[k]) is Some,
            forall|j: int|
                0 <= j < bytes@.len() ==> bytes@[j] == (16 * hex_value(text@[2 * j])->0
                    + hex_value(text@[2 * j + 1])->0) as u8,
        decreases text.len() - i,
    {
        let high = digit_value(text[i]);
        let low = digit_value(text[i + 1]);
        match (high, low) {
            (Some(h), Some(l)) => {
                bytes.push(h * 16 + l);
            },
            _ => {
                return Err(ExtractorError::InvalidHex);
            },
        }
        i += 2;
    }
    proof {
        assert(bytes@ =~= hex_bytes(text@));
    }
    Ok(bytes)
}

/// Reads hexadecimal text: the length must be even, and each pair of
/// characters is one byte, high digit first. Fails with
/// [`ExtractorError::InvalidHex`] exactly when the length is odd or a
/// character is no hexadecimal digit.
pub fn decode_hex(input: &str) -> (r: Result<Vec<u8>, ExtractorError>)
    ensures
        match r {
            Ok(bytes) => is_hex_text(input.spec_bytes()) && bytes@ == hex_bytes(input.spec_bytes()),
            Err(e) => !is_hex_text(input.spec_bytes()) && e@ == ErrorView::InvalidHex,
        },
{
    decode_hex_bytes(input.as_bytes())
}

/// The error of the base64 crate's decoder.
#[verifier::external_type_specification]
#[verifier::external_body]
pub struct ExDecodeError(base64::DecodeError);

/// What the base64 crate's standard engine (standard alphabet, canonical
/// padding required) decodes `text` to; `None` where it rejects `text`.
pub uninterp spec fn base64_standard_decoding(text: Seq<u8>) -> Option<Seq<u8>>;

/// Calls `Engine::decode` of the base64 crate on its `STANDARD` engine. The
/// contract only gives the outcome its name: the decoder is a function of the
/// text alone, and nothing is claimed here of what it accepts or yields.
#[verifier::external_body]
fn standard_engine_decode(text: &[u8]) -> (r: Result<Vec<u8>, base64::DecodeError>)
    ensures
        match r {
            Ok(bytes) => base64_standard_decoding(text@) == Some(bytes@),
            Err(_) => base64_standard_decoding(text@) is None,
        },
{
    base64::Engine::decode(&base64::engine::general_purpose::STANDARD, text)
}

/// Reads base64 text in the standard alphabet with padding. Fails with
/// [`ExtractorError::InvalidBase64`] exactly when the text is malformed.
pub fn decode_base64_standard(input: &str) -> (r: Result<Vec<u8>, ExtractorError>)
    ensures
        match r {
            Ok(bytes) => base64_standard_decoding(input.spec_bytes()) == Some(bytes@),
            Err(e) => base64_standard_decoding(input.spec_bytes()) is None && e@
                == ErrorView::InvalidBase64,
        },
{
    match standard_engine_decode(input.as_bytes()) {
        Ok(bytes) => Ok(bytes),
        Err(_) => Err(ExtractorError::InvalidBase64),
    }
}

} // verus!
