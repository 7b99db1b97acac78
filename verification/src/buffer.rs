//! The growable byte buffer that packets are encoded into.
//!
//! `bytes::BytesMut` and `bytes::Bytes` are opaque to the verifier. Their
//! contents are named by [`buf_bytes`] and [`frozen_bytes`]; the functions
//! below are the only places where the buffer's methods are called, and
//! their contracts are taken on trust from the `bytes` sources.

use vstd::prelude::*;

verus! {

/// `bytes::BytesMut`, a growable buffer of bytes; nothing inside it is
/// visible to the verifier.
#[verifier::external_type_specification]
#[verifier::external_body]
pub struct ExBytesMut(bytes::BytesMut);

/// `bytes::Bytes`, an immutable buffer of bytes; nothing inside it is
/// visible to the verifier.
#[verifier::external_type_specification]
#[verifier::external_body]
pub struct ExBytes(bytes::Bytes);

/// The bytes that a `BytesMut` holds, first to last.
pub uninterp spec fn buf_bytes(buf: bytes::BytesMut) -> Seq<u8>;

/// The bytes that a frozen `Bytes` holds, first to last.
pub uninterp spec fn frozen_bytes(buf: bytes::Bytes) -> Seq<u8>;

/// The two bytes of `n`, most significant first.
pub open spec fn be16(n: u16) -> Seq<u8> {
    seq![(n / 256) as u8, (n % 256) as u8]
}

/// `BytesMut::new`: a buffer of length zero.
#[verifier::external_body]
pub(crate) fn buf_new() -> (buf: bytes::BytesMut)
    ensures
        buf_bytes(buf) == Seq::<u8>::empty(),
{
    bytes::BytesMut::new()
}

/// `BufMut::put_u8` on a `BytesMut`: appends the one byte. The buffer
/// refuses to grow beyond `isize::MAX` bytes, which the precondition
/// excludes.
#[verifier::external_body]
pub(crate) fn buf_put_u8(buf: &mut bytes::BytesMut, n: u8)
    requires
        buf_bytes(*old(buf)).len() + 1 <= isize::MAX,
    ensures
        buf_bytes(*final(buf)) == buf_bytes(*old(buf)).push(n),
{
    bytes::BufMut::put_u8(buf, n)
}

/// `BufMut::put_u16` on a `BytesMut`: appends the value in big-endian
/// order, two bytes.
#[verifier::external_body]
pub(crate) fn buf_put_u16(buf: &mut bytes::BytesMut, n: u16)
    requires
        buf_bytes(*old(buf)).len() + 2 <= isize::MAX,
    ensures
        buf_bytes(*final(buf)) == buf_bytes(*old(buf)) + be16(n),
{
    bytes::BufMut::put_u16(buf, n)
}

/// `BufMut::put_slice` on a `BytesMut`: appends the slice.
#[verifier::external_body]
pub(crate) fn buf_put_slice(buf: &mut bytes::BytesMut, src: &[u8])
    requires
        buf_bytes(*old(buf)).len() + src@.len() <= isize::MAX,
    ensures
        buf_bytes(*final(buf)) == buf_bytes(*old(buf)) + src@,
{
    bytes::BufMut::put_slice(buf, src)
}

/// `BytesMut::clear`: the length becomes zero.
#[verifier::external_body]
pub(crate) fn buf_clear(buf: &mut bytes::BytesMut)
    ensures
        buf_bytes(*final(buf)) == Seq::<u8>::empty(),
{
    buf.clear()
}

/// `BytesMut::as_ref`: the contents as a slice.
#[verifier::external_body]
pub(crate) fn buf_as_slice(buf: &bytes::BytesMut) -> (s: &[u8])
    ensures
        s@ == buf_bytes(*buf),
{
    buf.as_ref()
}

/// `BytesMut::freeze`: the same bytes, now immutable.
#[verifier::external_body]
pub(crate) fn buf_freeze(buf: bytes::BytesMut) -> (b: bytes::Bytes)
    ensures
        frozen_bytes(b) == buf_bytes(buf),
{
    buf.freeze()
}

} // verus!
