//! Trusted view of the `hex` crate: lowercase encoding and decoding of byte
//! strings. Both are stated exactly, as the crate's source defines them.
use vstd::prelude::*;

verus! {

#[verifier::external_type_specification]
#[verifier::external_body]
pub struct ExFromHexError(hex::FromHexError);

/// The character of a nibble in lowercase hex.
pub open spec fn hex_digit(n: u8) -> char {
    if n == 0 { '0' } else if n == 1 { '1' } else if n == 2 { '2' } else if n == 3 { '3' }
    else if n == 4 { '4' } else if n == 5 { '5' } else if n == 6 { '6' } else if n == 7 { '7' }
    else if n == 8 { '8' } else if n == 9 { '9' } else if n == 10 { 'a' } else if n == 11 { 'b' }
    else if n == 12 { 'c' } else if n == 13 { 'd' } else if n == 14 { 'e' } else { 'f' }
}

/// Lowercase hex of a byte string: two characters per byte, high nibble first.
pub open spec fn hex_encoding(data: Seq<u8>) -> Seq<char> {
    Seq::new(
        2 * data.len(),
        |i: int|
            if i % 2 == 0 {
                hex_digit(data[i / 2] >> 4u8)
            } else {
                hex_digit(data[i / 2] & 0xfu8)
            },
    )
}

/// Whether `c` is an ASCII hex digit of either case.
pub open spec fn is_hex_byte(c: u8) -> bool {
    (48 <= c <= 57) || (65 <= c <= 70) || (97 <= c <= 102)
}

/// The value of a hex digit byte.
pub open spec fn hex_byte_value(c: u8) -> u8 {
    if 48 <= c <= 57 {
        (c - 48) as u8
    } else if 65 <= c <= 70 {
        (c - 55) as u8
    } else {
        (c - 87) as u8
    }
}

/// Whether `text` is a valid hex string: even length, only hex digits.
pub open spec fn hex_decodable(text: Seq<u8>) -> bool {
    text.len() % 2 == 0 && forall|i: int| 0 <= i < text.len() ==> is_hex_byte(#[trigger] text[i])
}

/// The bytes a valid hex string stands for.
pub open spec fn hex_decoding(text: Seq<u8>) -> Seq<u8> {
    Seq::new(
        text.len() / 2,
        |i: int| ((hex_byte_value(text[2 * i]) as u8) << 4u8) | hex_byte_value(text[2 * i + 1]),
    )
}

/// What `hex::decode` returns.
pub type HexDecoded = Result<Vec<u8>, hex::FromHexError>;

/// `hex::encode`: the lowercase hex of `data`.
#[verifier::external_body]
pub(crate) fn hex_encode(data: &[u8]) -> (r: String)
    ensures
        r@ == hex_encoding(data@),
{
    hex::encode(data)
}

/// `hex::decode`: the decoded bytes of a valid hex string, an error for any
/// other text. Which error (odd length, or the first byte that is not a
/// hex digit) is not stated: the error type is opaque here.
#[verifier::external_body]
pub(crate) fn hex_decode(text: &[u8]) -> (r: HexDecoded)
    ensures
        !hex_decodable(text@) ==> r is Err,
        hex_decodable(text@) ==> r is Ok && r->Ok_0@ == hex_decoding(text@),
{
    hex::decode(text)
}

/// Every character of a hex encoding is ASCII.
pub proof fn lemma_hex_encoding_ascii(data: Seq<u8>)
    ensures
        forall|i: int|
            0 <= i < hex_encoding(data).len() ==> (#[trigger] hex_encoding(data)[i] as u32) < 128,
{
    assert forall|i: int| 0 <= i < hex_encoding(data).len() implies (
    #[trigger] hex_encoding(data)[i] as u32) < 128 by {
        let b = data[i / 2];
        assert((b >> 4u8) < 16 && (b & 0xfu8) < 16) by (bit_vector);
    }
}

/// Decoding the bytes of a hex encoding gives back the encoded bytes.
pub proof fn lemma_hex_roundtrip(data: Seq<u8>)
    ensures
        hex_decodable(Seq::new(hex_encoding(data).len(), |i: int| hex_encoding(data)[i] as u8)),
        hex_decoding(Seq::new(hex_encoding(data).len(), |i: int| hex_encoding(data)[i] as u8))
            == data,
{
    let e = hex_encoding(data);
    let t = Seq::new(e.len(), |i: int| e[i] as u8);
    assert forall|i: int| 0 <= i < t.len() implies is_hex_byte(#[trigger] t[i]) by {
        let b = data[i / 2];
        assert(b >> 4u8 < 16) by (bit_vector);
        assert(b & 0xfu8 < 16) by (bit_vector);
    }
    assert forall|i: int| 0 <= i < data.len() implies #[trigger] hex_decoding(t)[i] == data[i] by {
        let b = data[i];
        assert((2 * i) / 2 == i);
        assert((2 * i + 1) / 2 == i);
        assert((2 * i) % 2 == 0);
        assert((2 * i + 1) % 2 == 1);
        assert((b >> 4u8) < 16 && (b & 0xfu8) < 16) by (bit_vector);
        assert(hex_byte_value(t[2 * i]) == b >> 4u8);
        assert(hex_byte_value(t[2 * i + 1]) == b & 0xfu8);
        assert(((b >> 4u8) << 4u8) | (b & 0xfu8) == b) by (bit_vector);
    }
    assert(hex_decoding(t) =~= data);
}

} // verus!
