use crate::error::TxError;
use vstd::prelude::*;

verus! {

/// The lower-case hexadecimal digit of a value below 16.
pub open spec fn hex_digit(value: u8) -> char {
    if value < 10 {
        ((value + 48) as u8) as char
    } else {
        ((value + 87) as u8) as char
    }
}

/// The value of a hexadecimal digit of either case, `None` for any other
/// character.
pub open spec fn hex_value(c: char) -> Option<u8> {
    let code = c as u32;
    if 48 <= code <= 57 {
        Some((code - 48) as u8)
    } else if 97 <= code <= 102 {
        Some((code - 87) as u8)
    } else if 65 <= code <= 70 {
        Some((code - 55) as u8)
    } else {
        None
    }
}

/// Two lower-case digits for each byte, the high half first.
pub open spec fn hex_text(bytes: Seq<u8>) -> Seq<char> {
    Seq::new(
        2 * bytes.len(),
        |i: int|
            if i % 2 == 0 {
                hex_digit(bytes[i / 2] / 16)
            } else {
                hex_digit(bytes[i / 2] % 16)
            },
    )
}

/// An even number of hexadecimal digits and nothing else.
pub open spec fn is_hex(text: Seq<char>) -> bool {
    &&& text.len() % 2 == 0
    &&& forall|i: int| 0 <= i < text.len() ==> (#[trigger] hex_value(text[i])) is Some
}

/// The bytes that the digit pairs of `text` spell.
pub open spec fn hex_bytes(text: Seq<char>) -> Seq<u8> {
    Seq::new(
        text.len() / 2,
        |i: int| (hex_value(text[2 * i]).unwrap() * 16 + hex_value(text[2 * i + 1]).unwrap()) as u8,
    )
}

/// What decoding `text` gives: its bytes, or `MalformedEncoding`.
pub open spec fn hex_decoding(text: Seq<char>) -> Result<Seq<u8>, TxError> {
    if is_hex(text) {
        Ok(hex_bytes(text))
    } else {
        Err(TxError::MalformedEncoding)
    }
}

/// A digit is read back as the value it was written for.
pub proof fn lemma_hex_digit_value(value: u8)
    requires
        value < 16,
    ensures
        hex_value(hex_digit(value)) == Some(value),
{
}

/// Decoding the text of some bytes gives the bytes back.
pub proof fn lemma_hex_round_trip(bytes: Seq<u8>)
    ensures
        is_hex(hex_text(bytes)),
        hex_bytes(hex_text(bytes)) == bytes,
        hex_decoding(hex_text(bytes)) == Ok::<Seq<u8>, TxError>(bytes),
{
    let text = hex_text(bytes);
    assert forall|i: int| 0 <= i < text.len() implies (#[trigger] hex_value(text[i])) is Some by {
        lemma_hex_digit_value(bytes[i / 2] / 16);
        lemma_hex_digit_value(bytes[i / 2] % 16);
    }
    assert forall|k: int| 0 <= k < bytes.len() implies hex_bytes(text)[k] == bytes[k] by {
        lemma_hex_digit_value(bytes[k] / 16);
        lemma_hex_digit_value(bytes[k] % 16);
        assert(text[2 * k] == hex_digit(bytes[k] / 16));
        assert(text[2 * k + 1] == hex_digit(bytes[k] % 16));
    }
    assert(hex_bytes(text) =~= bytes);
}

/// Different byte strings have different texts.
pub proof fn lemma_hex_text_injective(a: Seq<u8>, b: Seq<u8>)
    requires
        hex_text(a) == hex_text(b),
    ensures
        a == b,
{
    lemma_hex_round_trip(a);
    lemma_hex_round_trip(b);
}

/// The error of the hex crate's decoder; the library reports all of its
/// variants as `MalformedEncoding`.
#[verifier::external_type_specification]
#[verifier::external_body]
pub struct ExFromHexError(hex::FromHexError);

/// `hex::encode`: two lower-case digits per byte, high half first, as its
/// documentation and its digit table say.
#[verifier::external_body]
fn hex_encode(bytes: &[u8]) -> (text: String)
    ensures
        text@ == hex_text(bytes@),
{
    hex::encode(bytes)
}

/// `hex::decode`: succeeds exactly on an even number of digits of either
/// case and then returns one byte per pair, high half first; an odd length
/// or any other character is an error.
#[verifier::external_body]
fn hex_decode(text: &str) -> (decoded: Result<Vec<u8>, hex::FromHexError>)
    ensures
        decoded matches Ok(bytes) ==> is_hex(text@) && bytes@ == hex_bytes(text@),
        decoded is Err ==> !is_hex(text@),
{
    hex::decode(text)
}

/// Lower-case hexadecimal text of `bytes`.
pub fn to_hex(bytes: &[u8]) -> (text: String)
    ensures
        text@ == hex_text(bytes@),
{
    hex_encode(bytes)
}

/// The bytes that `text` spells in hexadecimal.
pub fn from_hex(text: &str) -> (decoded: Result<Vec<u8>, TxError>)
    ensures
        decoded matches Ok(bytes) ==> hex_decoding(text@) == Ok::<Seq<u8>, TxError>(bytes@),
        decoded matches Err(e) ==> hex_decoding(text@) == Err::<Seq<u8>, TxError>(e),
{
    match hex_decode(text) {
        Ok(bytes) => Ok(bytes),
        Err(_) => Err(TxError::MalformedEncoding),
    }
}

} // verus!
