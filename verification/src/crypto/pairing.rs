//! Single-use tokens for the QR enrollment flow, and the wall clock they
//! expire against. A token is no long-term secret: it only proves that
//! whoever presents it saw the QR shown in the right time window.
use vstd::prelude::*;
use crate::ext::clock::unix_clock_millis;
use crate::ext::entropy::random_bytes;
use crate::ext::hex_codec::{hex_encode, hex_encoding, lemma_hex_encoding_ascii};

verus! {

/// Number of random bytes behind a pairing token.
pub const PAIRING_TOKEN_BYTES: usize = 16;

/// Whether `c` is a lowercase hexadecimal digit.
pub open spec fn is_lower_hex_char(c: char) -> bool {
    ('0' <= c <= '9') || ('a' <= c <= 'f')
}

/// Whether `s` has the shape of a pairing token: 32 lowercase hex digits.
pub open spec fn is_pairing_token(s: Seq<char>) -> bool {
    s.len() == 2 * PAIRING_TOKEN_BYTES && forall|i: int|
        0 <= i < s.len() ==> is_lower_hex_char(#[trigger] s[i])
}

/// A fresh token: 16 random bytes in lowercase hex.
pub fn generate_pairing_token() -> (r: String)
    ensures
        is_pairing_token(r@),
        exists|bytes: Seq<u8>| bytes.len() == PAIRING_TOKEN_BYTES && r@ == hex_encoding(bytes),
{
    let bytes = random_bytes(PAIRING_TOKEN_BYTES);
    let token = hex_encode(bytes.as_slice());
    proof {
        let e = hex_encoding(bytes@);
        assert forall|i: int| 0 <= i < e.len() implies is_lower_hex_char(#[trigger] e[i]) by {
            let b = bytes@[i / 2];
            assert((b >> 4u8) < 16 && (b & 0xfu8) < 16) by (bit_vector);
        }
    }
    token
}

/// The milliseconds a clock reading stands for, truncated to 64 bits: a
/// reading earlier than the epoch (`None`) counts as the epoch.
pub open spec fn unix_ms_of(reading: Option<u128>) -> u64 {
    match reading {
        Some(ms) => ms as u64,
        None => 0,
    }
}

/// [`unix_ms_of`] a reading of the system clock in milliseconds since the
/// Unix epoch.
pub fn unix_ms_of_reading(reading: Option<u128>) -> (r: u64)
    ensures
        r == unix_ms_of(reading),
{
    match reading {
        Some(ms) => ms as u64,
        None => 0,
    }
}

/// Milliseconds since the Unix epoch by the system clock, truncated to 64
/// bits. A clock that reads earlier than the epoch counts as the epoch.
/// What the clock reads is up to the moment of the call.
pub fn now_unix_ms() -> (r: u64)
    ensures
        exists|reading: Option<u128>| r == unix_ms_of(reading),
{
    unix_ms_of_reading(unix_clock_millis())
}

} // verus!
