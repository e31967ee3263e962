//! Hexadecimal text and the bytes that it spells.

use vstd::prelude::*;

verus! {

/// Whether `c` is one of `0-9`, `a-f`, `A-F`.
pub open spec fn is_hex_digit(c: char) -> bool {
    ('0' <= c <= '9') || ('a' <= c <= 'f') || ('A' <= c <= 'F')
}

/// The number, 0 to 15, that the hexadecimal digit `c` stands for.
pub open spec fn hex_digit_value(c: char) -> int {
    if '0' <= c <= '9' {
        c as int - '0' as int
    } else if 'a' <= c <= 'f' {
        c as int - 'a' as int + 10
    } else {
        c as int - 'A' as int + 10
    }
}

/// The lower-case hexadecimal digit for `v`, where `0 <= v < 16`.
pub open spec fn hex_digit(v: int) -> char {
    if v < 10 {
        ('0' as int + v) as char
    } else {
        ('a' as int + v - 10) as char
    }
}

/// Text that spells bytes: an even number of hexadecimal digits, in either
/// case, and nothing else.
pub open spec fn is_hex_string(text: Seq<char>) -> bool {
    &&& text.len() % 2 == 0
    &&& forall|i: int| 0 <= i < text.len() ==> is_hex_digit(#[trigger] text[i])
}

/// The bytes that `text` spells: each pair of digits gives one byte, the high
/// half first.
pub open spec fn hex_bytes(text: Seq<char>) -> Seq<u8> {
    Seq::new(
        text.len() / 2,
        |i: int| (16 * hex_digit_value(text[2 * i]) + hex_digit_value(text[2 * i + 1])) as u8,
    )
}

/// The lower-case hexadecimal spelling of `bytes`, two digits for each byte
/// and nothing between them.
pub open spec fn hex_string(bytes: Seq<u8>) -> Seq<char> {
    Seq::new(
        2 * bytes.len(),
        |i: int|
            if i % 2 == 0 {
                hex_digit(bytes[i / 2] as int / 16)
            } else {
                hex_digit(bytes[i / 2] as int % 16)
            },
    )
}

/// [`hex::FromHexError`], the error of [`hex::decode`]. It is carried from
/// the call to the place that answers `HexDecodeError`; nothing is known of
/// what a value of it holds.
#[verifier::external_type_specification]
#[verifier::external_body]
pub struct ExFromHexError(hex::FromHexError);

/// Calls [`hex::decode`] on `text`.
///
/// Believed of it: it succeeds exactly on an even number of hexadecimal
/// digits of either case, and then gives one byte for each pair of digits,
/// the first digit of a pair being the high half. The call works on the
/// text's bytes; a character outside ASCII has no digit among its bytes, so
/// whenever every character is a digit the bytes are the characters.
#[verifier::external_body]
pub(crate) fn hex_decode(text: &str) -> (r: Result<Vec<u8>, hex::FromHexError>)
    ensures
        r is Ok <==> is_hex_string(text@),
        r matches Ok(bytes) ==> bytes@ == hex_bytes(text@),
{
    hex::decode(text)
}

/// Calls [`hex::encode`] on `bytes`.
///
/// Believed of it: the text holds two lower-case hexadecimal digits for each
/// byte, in the order of the bytes, the high half of a byte first.
#[verifier::external_body]
pub(crate) fn hex_encode(bytes: &[u8]) -> (text: String)
    ensures
        text@ == hex_string(bytes@),
{
    hex::encode(bytes)
}

/// Spelling bytes and reading the spelling gives the bytes back.
pub proof fn lemma_hex_round_trip(bytes: Seq<u8>)
    ensures
        is_hex_string(hex_string(bytes)),
        hex_bytes(hex_string(bytes)) == bytes,
{
    assert(hex_bytes(hex_string(bytes)) =~= bytes);
}

} // verus!
