//! Bytes as hexadecimal text, two digits per byte, as the frames of the
//! installer channel carry them.

use vstd::prelude::*;

verus! {

/// The digit of a value below sixteen, in lower case.
pub open spec fn hex_digit(n: int) -> char {
    if n == 0 {
        '0'
    } else if n == 1 {
        '1'
    } else if n == 2 {
        '2'
    } else if n == 3 {
        '3'
    } else if n == 4 {
        '4'
    } else if n == 5 {
        '5'
    } else if n == 6 {
        '6'
    } else if n == 7 {
        '7'
    } else if n == 8 {
        '8'
    } else if n == 9 {
        '9'
    } else if n == 10 {
        'a'
    } else if n == 11 {
        'b'
    } else if n == 12 {
        'c'
    } else if n == 13 {
        'd'
    } else if n == 14 {
        'e'
    } else {
        'f'
    }
}

/// The value of a hexadecimal digit of either case; none for any other
/// character.
pub open spec fn hex_value(c: char) -> Option<int> {
    if c == '0' {
        Some(0)
    } else if c == '1' {
        Some(1)
    } else if c == '2' {
        Some(2)
    } else if c == '3' {
        Some(3)
    } else if c == '4' {
        Some(4)
    } else if c == '5' {
        Some(5)
    } else if c == '6' {
        Some(6)
    } else if c == '7' {
        Some(7)
    } else if c == '8' {
        Some(8)
    } else if c == '9' {
        Some(9)
    } else if c == 'a' || c == 'A' {
        Some(10)
    } else if c == 'b' || c == 'B' {
        Some(11)
    } else if c == 'c' || c == 'C' {
        Some(12)
    } else if c == 'd' || c == 'D' {
        Some(13)
    } else if c == 'e' || c == 'E' {
        Some(14)
    } else if c == 'f' || c == 'F' {
        Some(15)
    } else {
        None
    }
}

/// The two digits of one byte.
pub open spec fn hex_byte(b: u8) -> Seq<char> {
    seq![hex_digit(b as int / 16), hex_digit(b as int % 16)]
}

/// Bytes as hexadecimal text: two lower-case digits per byte, in order.
pub open spec fn hex_encode_spec(bytes: Seq<u8>) -> Seq<char>
    decreases bytes.len(),
{
    if bytes.len() == 0 {
        Seq::empty()
    } else {
        hex_encode_spec(bytes.drop_last()) + hex_byte(bytes.last())
    }
}

/// Whether a text stands for bytes: its length is even and every character
/// is a hexadecimal digit.
pub open spec fn hex_decodable(text: Seq<char>) -> bool {
    text.len() % 2 == 0 && forall|i: int| 0 <= i < text.len() ==> hex_value(#[trigger] text[i]) is Some
}

/// The bytes that a hexadecimal text stands for.
pub open spec fn hex_decode_spec(text: Seq<char>) -> Seq<u8>
    decreases text.len(),
{
    if text.len() < 2 {
        Seq::empty()
    } else {
        let n = text.len() as int;
        hex_decode_spec(text.subrange(0, n - 2)).push(
            (hex_value(text[n - 2]).unwrap_or(0) * 16 + hex_value(text[n - 1]).unwrap_or(0)) as u8,
        )
    }
}

/// A failure of `hex::decode`.
#[verifier::external_type_specification]
#[verifier::external_body]
pub struct ExFromHexError(hex::FromHexError);

/// `hex::encode` on a slice of bytes. Trusted: the result holds, for each
/// byte in order, the lower-case digit of its upper half and then that of
/// its lower half.
#[verifier::external_body]
pub(crate) fn hex_encode(bytes: &[u8]) -> (out: String)
    ensures
        out@ == hex_encode_spec(bytes@),
{
    hex::encode(bytes)
}

/// `hex::decode` on a text. Trusted: it succeeds on a text of even length
/// that holds hexadecimal digits of either case only, and on no other; the
/// bytes are made of the digits pair by pair, the first digit of a pair
/// being the upper half.
#[verifier::external_body]
pub(crate) fn hex_decode(text: &str) -> (r: Result<Vec<u8>, hex::FromHexError>)
    ensures
        r is Ok <==> hex_decodable(text@),
        r matches Ok(bytes) ==> bytes@ == hex_decode_spec(text@),
{
    hex::decode(text)
}

/// Bytes as hexadecimal text.
pub fn encode(bytes: &[u8]) -> (out: String)
    ensures
        out@ == hex_encode_spec(bytes@),
{
    hex_encode(bytes)
}

/// The bytes that a hexadecimal text stands for; none for a text that does
/// not stand for bytes.
pub fn decode(text: &str) -> (r: Option<Vec<u8>>)
    ensures
        r is Some <==> hex_decodable(text@),
        r matches Some(bytes) ==> bytes@ == hex_decode_spec(text@),
{
    match hex_decode(text) {
        Ok(bytes) => Some(bytes),
        Err(_) => None,
    }
}

/// The text of one byte stands for that byte.
pub proof fn lemma_hex_byte(b: u8)
    ensures
        hex_value(hex_byte(b)[0]) == Some(b as int / 16),
        hex_value(hex_byte(b)[1]) == Some(b as int % 16),
{
}

/// The text of bytes has two characters per byte and stands for bytes.
pub proof fn lemma_hex_encode_decodable(bytes: Seq<u8>)
    ensures
        hex_encode_spec(bytes).len() == 2 * bytes.len(),
        hex_decodable(hex_encode_spec(bytes)),
    decreases bytes.len(),
{
    if bytes.len() > 0 {
        lemma_hex_encode_decodable(bytes.drop_last());
        lemma_hex_byte(bytes.last());
        let head = hex_encode_spec(bytes.drop_last());
        let text = hex_encode_spec(bytes);
        assert forall|i: int| 0 <= i < text.len() implies hex_value(#[trigger] text[i]) is Some by {
            if i < head.len() {
                assert(text[i] == head[i]);
            } else {
                assert(text[i] == hex_byte(bytes.last())[i - head.len()]);
            }
        }
    }
}

/// Hexadecimal text that was made of bytes stands for those bytes.
pub proof fn law_hex_round_trip(bytes: Seq<u8>)
    ensures
        hex_decodable(hex_encode_spec(bytes)),
        hex_decode_spec(hex_encode_spec(bytes)) == bytes,
    decreases bytes.len(),
{
    lemma_hex_encode_decodable(bytes);
    if bytes.len() > 0 {
        law_hex_round_trip(bytes.drop_last());
        lemma_hex_encode_decodable(bytes.drop_last());
        lemma_hex_byte(bytes.last());
        let head = hex_encode_spec(bytes.drop_last());
        let text = hex_encode_spec(bytes);
        let n = text.len() as int;
        assert(text.subrange(0, n - 2) =~= head);
        assert(text[n - 2] == hex_byte(bytes.last())[0]);
        assert(text[n - 1] == hex_byte(bytes.last())[1]);
        let b = bytes.last();
        assert((b as int / 16) * 16 + b as int % 16 == b as int);
        assert(hex_decode_spec(text) =~= bytes.drop_last().push(b));
        assert(bytes.drop_last().push(b) =~= bytes);
    } else {
        assert(hex_decode_spec(hex_encode_spec(bytes)) =~= bytes);
    }
}

} // verus!
