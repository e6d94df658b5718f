//! Layout of the persisted secrets, shared by the platforms: the runtime's
//! identity as `private (32) || public (32)`, and the pinned frontend key
//! as lowercase hex.
use vstd::prelude::*;
use vstd::string::StringExecFns;
use crate::crypto::handshake::StaticKeypair;
use crate::ext::hex_codec::{hex_decodable, hex_decode, hex_decoding, hex_encode, hex_encoding, lemma_hex_encoding_ascii, lemma_hex_roundtrip};
use crate::ext::text::{is_unicode_whitespace, lemma_trim_no_whitespace, str_trim, trim_whitespace};
use crate::orchestration::traits::{PlatformError, PlatformResult};

verus! {

pub const PRIVATE_LEN: usize = 32;
pub const PUBLIC_LEN: usize = 32;

/// The bytes an identity is persisted as.
pub open spec fn identity_bytes(private: Seq<u8>, public: Seq<u8>) -> Seq<u8> {
    private + public
}

/// The bytes an identity is persisted as: private key, then public key.
pub fn encode_identity(keypair: &StaticKeypair) -> (r: Vec<u8>)
    ensures
        r@ == identity_bytes(keypair.private@, keypair.public@),
{
    let mut out: Vec<u8> = Vec::new();
    let mut i: usize = 0;
    while i < keypair.private.len()
        invariant
            0 <= i <= keypair.private@.len(),
            out@ == keypair.private@.take(i as int),
        decreases keypair.private@.len() - i,
    {
        out.push(keypair.private[i]);
        i = i + 1;
        assert(out@ =~= keypair.private@.take(i as int));
    }
    let mut j: usize = 0;
    while j < keypair.public.len()
        invariant
            0 <= j <= keypair.public@.len(),
            out@ == keypair.private@ + keypair.public@.take(j as int),
        decreases keypair.public@.len() - j,
    {
        out.push(keypair.public[j]);
        j = j + 1;
        assert(out@ =~= keypair.private@ + keypair.public@.take(j as int));
    }
    assert(keypair.private@.take(keypair.private@.len() as int) =~= keypair.private@);
    assert(keypair.public@.take(keypair.public@.len() as int) =~= keypair.public@);
    out
}

fn copy_range(bytes: &[u8], from: usize, to: usize) -> (r: Vec<u8>)
    requires
        from <= to <= bytes@.len(),
    ensures
        r@ == bytes@.subrange(from as int, to as int),
{
    let mut out: Vec<u8> = Vec::new();
    let mut i: usize = from;
    while i < to
        invariant
            from <= i <= to,
            to <= bytes@.len(),
            out@ == bytes@.subrange(from as int, i as int),
        decreases to - i,
    {
        out.push(bytes[i]);
        i = i + 1;
        assert(out@ =~= bytes@.subrange(from as int, i as int));
    }
    out
}

/// The identity persisted as `bytes`, or `None` when they are not exactly
/// the 64 bytes of a key pair.
pub fn decode_identity(bytes: &[u8]) -> (r: Option<StaticKeypair>)
    ensures
        bytes@.len() != PRIVATE_LEN + PUBLIC_LEN ==> r is None,
        bytes@.len() == PRIVATE_LEN + PUBLIC_LEN ==> r is Some && r->Some_0.private@ == bytes@.take(
            PRIVATE_LEN as int,
        ) && r->Some_0.public@ == bytes@.skip(PRIVATE_LEN as int),
{
    if bytes.len() != PRIVATE_LEN + PUBLIC_LEN {
        return None;
    }
    let private = copy_range(bytes, 0, PRIVATE_LEN);
    let public = copy_range(bytes, PRIVATE_LEN, PRIVATE_LEN + PUBLIC_LEN);
    assert(bytes@.subrange(0, PRIVATE_LEN as int) =~= bytes@.take(PRIVATE_LEN as int));
    assert(bytes@.subrange(PRIVATE_LEN as int, (PRIVATE_LEN + PUBLIC_LEN) as int) =~= bytes@.skip(PRIVATE_LEN as int));
    Some(StaticKeypair { private, public })
}

/// A persisted identity reads back as the key pair that was written, for
/// key pairs of the X25519 sizes.
pub proof fn lemma_identity_roundtrip(private: Seq<u8>, public: Seq<u8>)
    requires
        private.len() == PRIVATE_LEN,
        public.len() == PUBLIC_LEN,
    ensures
        identity_bytes(private, public).len() == PRIVATE_LEN + PUBLIC_LEN,
        identity_bytes(private, public).take(PRIVATE_LEN as int) == private,
        identity_bytes(private, public).skip(PRIVATE_LEN as int) == public,
{
    assert(identity_bytes(private, public).take(PRIVATE_LEN as int) =~= private);
    assert(identity_bytes(private, public).skip(PRIVATE_LEN as int) =~= public);
}

/// The bytes a pin file's text is decoded from: the text without
/// surrounding whitespace, in UTF-8.
pub open spec fn pin_text_bytes(text: Seq<char>) -> Seq<u8> {
    vstd::utf8::encode_utf8(trim_whitespace(text))
}

/// The text a pinned key is persisted as: its lowercase hex.
pub fn encode_pin(key: &[u8]) -> (r: String)
    ensures
        r@ == hex_encoding(key@),
{
    hex_encode(key)
}

/// The key a pin file's text stands for: the hex it holds, surrounding
/// whitespace aside. Text that is not valid hex is reported as a corrupt
/// pin.
pub fn decode_pin(text: &str) -> (r: PlatformResult<Vec<u8>>)
    ensures
        hex_decodable(pin_text_bytes(text@)) ==> r is Ok && r->Ok_0@ == hex_decoding(pin_text_bytes(text@)),
        !hex_decodable(pin_text_bytes(text@)) ==> (r matches Err(PlatformError::Other(m)) && m@.len()
            >= 14 && m@.take(14) == "pin corrupto: "@),
{
    let trimmed = str_trim(text);
    match hex_decode(trimmed.as_bytes()) {
        Ok(key) => Ok(key),
        Err(e) => {
            let mut message = String::from_str("pin corrupto: ");
            proof {
                reveal_strlit("pin corrupto: ");
            }
            let ghost prefix = message@;
            message.append(e.to_string().as_str());
            assert(message@.take(14) =~= prefix);
            Err(PlatformError::Other(message))
        },
    }
}

/// A persisted pin reads back as the key that was pinned.
pub proof fn lemma_pin_roundtrip(key: Seq<u8>)
    ensures
        hex_decodable(pin_text_bytes(hex_encoding(key))),
        hex_decoding(pin_text_bytes(hex_encoding(key))) == key,
{
    let e = hex_encoding(key);
    lemma_hex_encoding_ascii(key);
    assert forall|i: int| 0 <= i < e.len() implies !is_unicode_whitespace(#[trigger] e[i]) by {
        let b = key[i / 2];
        assert((b >> 4u8) < 16 && (b & 0xfu8) < 16) by (bit_vector);
    }
    lemma_trim_no_whitespace(e);
    assert(vstd::utf8::is_ascii_chars(e));
    vstd::utf8::is_ascii_chars_encode_utf8(e);
    let bytes = vstd::utf8::encode_utf8(e);
    assert(bytes =~= Seq::new(e.len(), |i: int| e[i] as u8));
    lemma_hex_roundtrip(key);
}

/// The byte-wise mask of the simulated data protection.
pub open spec fn masked(data: Seq<u8>) -> Seq<u8> {
    Seq::new(data.len(), |i: int| data[i] ^ 0xAAu8)
}

fn mask(data: &[u8]) -> (r: Vec<u8>)
    ensures
        r@ == masked(data@),
{
    let mut out: Vec<u8> = Vec::new();
    let mut i: usize = 0;
    while i < data.len()
        invariant
            0 <= i <= data@.len(),
            out@ == masked(data@).take(i as int),
        decreases data@.len() - i,
    {
        out.push(data[i] ^ 0xAAu8);
        i = i + 1;
        assert(out@ =~= masked(data@).take(i as int));
    }
    assert(out@ =~= masked(data@));
    out
}

/// Data protection where the operating system offers none (anywhere but
/// Windows' DPAPI): every byte masked with `0xAA`. It only keeps the
/// secrets from being readable at a glance; it is no encryption.
pub fn protect_data(data: &[u8]) -> (r: std::io::Result<Vec<u8>>)
    ensures
        r matches Ok(p) && p@ == masked(data@),
{
    Ok(mask(data))
}

/// The inverse of [`protect_data`]: the same mask.
pub fn unprotect_data(data: &[u8]) -> (r: std::io::Result<Vec<u8>>)
    ensures
        r matches Ok(p) && p@ == masked(data@),
{
    Ok(mask(data))
}

/// Unprotecting protected data gives the data back.
pub proof fn lemma_protection_roundtrip(data: Seq<u8>)
    ensures
        masked(masked(data)) == data,
{
    assert forall|i: int| 0 <= i < data.len() implies #[trigger] masked(masked(data))[i] == data[i] by {
        let b = data[i];
        assert((b ^ 0xAAu8) ^ 0xAAu8 == b) by (bit_vector);
    }
    assert(masked(masked(data)) =~= data);
}

} // verus!
