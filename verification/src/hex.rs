//! Hex text with a `0x` prefix.

use vstd::prelude::*;

verus! {

/// Why `prefix_hex` could not decode a text.
#[verifier::external_type_specification]
#[verifier::external_body]
pub struct ExHexError(prefix_hex::Error);

/// The value of a hex digit, upper or lower case.
pub open spec fn hex_digit(c: char) -> Option<u8> {
    if '0' <= c <= '9' {
        Some((c as u8 - '0' as u8) as u8)
    } else if 'a' <= c <= 'f' {
        Some((c as u8 - 'a' as u8 + 10) as u8)
    } else if 'A' <= c <= 'F' {
        Some((c as u8 - 'A' as u8 + 10) as u8)
    } else {
        None
    }
}

/// Whether a text is `0x` followed by an even number of hex digits.
pub open spec fn is_prefixed_hex(text: Seq<char>) -> bool {
    &&& text.len() >= 2
    &&& text[0] == '0'
    &&& text[1] == 'x'
    &&& text.len() % 2 == 0
    &&& forall|i: int| 2 <= i < text.len() ==> hex_digit(#[trigger] text[i]) is Some
}

/// The bytes that a prefixed hex text spells: one for each pair of digits.
pub open spec fn prefixed_hex_bytes(text: Seq<char>) -> Seq<u8> {
    Seq::new(
        ((text.len() - 2) / 2) as nat,
        |i: int|
            (hex_digit(text[2 + 2 * i]).unwrap() * 16 + hex_digit(
                text[3 + 2 * i],
            ).unwrap()) as u8,
    )
}

/// Whether a text can be handed to the decoder. A text of a single character
/// that takes more than one byte cannot: the decoder looks for a second
/// character once it has counted two bytes, and does not return.
pub open spec fn is_decodable(text: Seq<char>) -> bool {
    text.len() == 1 ==> text[0] as u32 <= 0x7f
}

/// Calls `prefix_hex::decode` for a byte string. Trusted: on a text that can
/// be handed to it, the call succeeds exactly on `0x` followed by an even
/// number of hex digits, and then returns the byte that each pair of digits
/// spells, first digit high.
#[verifier::external_body]
pub(crate) fn decode(text: &str) -> (r: Result<Vec<u8>, prefix_hex::Error>)
    requires
        is_decodable(text@),
    ensures
        r is Ok <==> is_prefixed_hex(text@),
        r matches Ok(bytes) ==> bytes@ == prefixed_hex_bytes(text@),
{
    prefix_hex::decode(text)
}

/// The lower-case hex digit of a value below 16.
pub open spec fn hex_char(value: int) -> char {
    if value < 10 {
        ('0' as u8 + value) as u8 as char
    } else {
        ('a' as u8 + value - 10) as u8 as char
    }
}

/// The prefixed hex text of a byte string: `0x`, then two lower-case digits
/// for each byte, high digit first.
pub open spec fn prefixed_hex_text(bytes: Seq<u8>) -> Seq<char> {
    seq!['0', 'x'] + Seq::new(
        2 * bytes.len(),
        |i: int|
            if i % 2 == 0 {
                hex_char(bytes[i / 2] as int / 16)
            } else {
                hex_char(bytes[i / 2] as int % 16)
            },
    )
}

/// Calls `prefix_hex::encode` on a byte string. Trusted: the result is `0x`
/// followed by two lower-case hex digits for each byte, high digit first.
#[verifier::external_body]
pub(crate) fn encode(bytes: &Vec<u8>) -> (text: String)
    ensures
        text@ == prefixed_hex_text(bytes@),
{
    prefix_hex::encode(bytes)
}

/// Decoding the prefixed hex text of a byte string gives the byte string back.
pub proof fn lemma_hex_round_trip(bytes: Seq<u8>)
    ensures
        is_prefixed_hex(prefixed_hex_text(bytes)),
        prefixed_hex_bytes(prefixed_hex_text(bytes)) == bytes,
{
    let text = prefixed_hex_text(bytes);
    assert forall|i: int| 2 <= i < text.len() implies hex_digit(#[trigger] text[i]) is Some by {}
    assert forall|k: int| 0 <= k < bytes.len() implies prefixed_hex_bytes(text)[k] == bytes[k] by {}
}

} // verus!
