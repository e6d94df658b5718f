//! Trusted view of `bytes::BytesMut`, the growable byte buffer that frames are
//! written into and parsed out of.
//!
//! The buffer is opaque to the verifier: its contents are named by
//! [`buf_contents`], and each method the framing code uses has a wrapper whose
//! contract says, over that name, what the method does to the contents.
use vstd::prelude::*;
use bytes::{Buf, BufMut, BytesMut};

verus! {

#[verifier::external_type_specification]
#[verifier::external_body]
pub struct ExBytesMut(bytes::BytesMut);

/// The bytes currently held by a `BytesMut`, front to back.
pub uninterp spec fn buf_contents(b: BytesMut) -> Seq<u8>;

/// Largest size a `BytesMut` can grow to: `BufMut::remaining_mut` for
/// `BytesMut` is `isize::MAX - len`, and growing past it panics.
pub open spec fn buf_max_len() -> int {
    isize::MAX as int
}

/// `BytesMut::new`: an empty buffer.
#[verifier::external_body]
pub(crate) fn buf_new() -> (r: BytesMut)
    ensures
        buf_contents(r) == Seq::<u8>::empty(),
{
    BytesMut::new()
}

/// `BytesMut::from(&[u8])`: a buffer holding a copy of `s`.
#[verifier::external_body]
pub(crate) fn buf_from_slice(s: &[u8]) -> (r: BytesMut)
    ensures
        buf_contents(r) == s@,
{
    BytesMut::from(s)
}

/// `BytesMut::len`: the number of bytes held.
#[verifier::external_body]
pub(crate) fn buf_len(b: &BytesMut) -> (r: usize)
    ensures
        r == buf_contents(*b).len(),
{
    b.len()
}

/// The slice that `BytesMut` dereferences to: exactly its contents.
#[verifier::external_body]
pub(crate) fn buf_as_slice(b: &BytesMut) -> (r: &[u8])
    ensures
        r@ == buf_contents(*b),
{
    &b[..]
}

/// `BytesMut::reserve`: grows the capacity only; the contents stay as they
/// are. It panics when the new capacity would overflow, which the bound
/// below rules out.
#[verifier::external_body]
pub(crate) fn buf_reserve(b: &mut BytesMut, additional: usize)
    requires
        buf_contents(*old(b)).len() + additional <= buf_max_len(),
    ensures
        buf_contents(*final(b)) == buf_contents(*old(b)),
{
    b.reserve(additional)
}

/// `BufMut::put_u8` on `BytesMut`: appends one byte.
#[verifier::external_body]
pub(crate) fn buf_put_u8(b: &mut BytesMut, v: u8)
    requires
        buf_contents(*old(b)).len() + 1 <= buf_max_len(),
    ensures
        buf_contents(*final(b)) == buf_contents(*old(b)).push(v),
{
    b.put_u8(v)
}

/// `BufMut::put_u32` on `BytesMut`: appends the four big-endian bytes of `v`.
#[verifier::external_body]
pub(crate) fn buf_put_u32(b: &mut BytesMut, v: u32)
    requires
        buf_contents(*old(b)).len() + 4 <= buf_max_len(),
    ensures
        buf_contents(*final(b)) == buf_contents(*old(b)) + crate::protocol::framing::be_u32_bytes(v),
{
    b.put_u32(v)
}

/// `BufMut::put_u64` on `BytesMut`: appends the eight big-endian bytes of `v`.
#[verifier::external_body]
pub(crate) fn buf_put_u64(b: &mut BytesMut, v: u64)
    requires
        buf_contents(*old(b)).len() + 8 <= buf_max_len(),
    ensures
        buf_contents(*final(b)) == buf_contents(*old(b)) + crate::protocol::framing::be_u64_bytes(v),
{
    b.put_u64(v)
}

/// `BufMut::put_slice` on `BytesMut`: appends the bytes of `s`.
#[verifier::external_body]
pub(crate) fn buf_put_slice(b: &mut BytesMut, s: &[u8])
    requires
        buf_contents(*old(b)).len() + s@.len() <= buf_max_len(),
    ensures
        buf_contents(*final(b)) == buf_contents(*old(b)) + s@,
{
    b.put_slice(s)
}

/// `Buf::advance` on `BytesMut`: drops the first `n` bytes. It panics when
/// `n` exceeds the length, which the precondition rules out.
#[verifier::external_body]
pub(crate) fn buf_advance(b: &mut BytesMut, n: usize)
    requires
        n <= buf_contents(*old(b)).len(),
    ensures
        buf_contents(*final(b)) == buf_contents(*old(b)).skip(n as int),
{
    b.advance(n)
}

/// `BytesMut::split_to`: hands out the first `at` bytes and keeps the rest.
/// It panics when `at` exceeds the length, which the precondition rules out.
#[verifier::external_body]
pub(crate) fn buf_split_to(b: &mut BytesMut, at: usize) -> (r: BytesMut)
    requires
        at <= buf_contents(*old(b)).len(),
    ensures
        buf_contents(r) == buf_contents(*old(b)).take(at as int),
        buf_contents(*final(b)) == buf_contents(*old(b)).skip(at as int),
{
    b.split_to(at)
}

} // verus!
