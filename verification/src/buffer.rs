//! The byte buffer of a framed stream: `BytesMut` of the `bytes` crate.
use bytes::{Buf, BytesMut};
use vstd::prelude::*;

verus! {

/// `bytes::BytesMut`, a growable buffer that is read from the front.
#[verifier::external_type_specification]
#[verifier::external_body]
pub struct ExBytesMut(bytes::BytesMut);

/// The bytes that a buffer holds, the next one to be read first.
pub uninterp spec fn buffered(buf: BytesMut) -> Seq<u8>;

/// `BytesMut::new`: the new buffer holds nothing.
#[verifier::external_body]
pub(crate) fn empty_buffer() -> (buf: BytesMut)
    ensures
        buffered(buf) == Seq::<u8>::empty(),
{
    BytesMut::new()
}

/// `<BytesMut as From<&[u8]>>::from`: the buffer holds a copy of the bytes, in their order.
#[verifier::external_body]
pub(crate) fn buffer_of(bytes: &[u8]) -> (buf: BytesMut)
    ensures
        buffered(buf) == bytes@,
{
    BytesMut::from(bytes)
}

/// `<BytesMut as Buf>::remaining`: how many bytes the buffer holds.
#[verifier::external_body]
pub(crate) fn remaining(buf: &BytesMut) -> (n: usize)
    ensures
        n == buffered(*buf).len(),
{
    buf.remaining()
}

/// `<BytesMut as Buf>::get_u8`: takes the first byte out of the buffer. It panics on an empty
/// buffer, so there must be one.
#[verifier::external_body]
pub(crate) fn get_u8(buf: &mut BytesMut) -> (byte: u8)
    requires
        buffered(*old(buf)).len() > 0,
    ensures
        byte == buffered(*old(buf))[0],
        buffered(*final(buf)) == buffered(*old(buf)).drop_first(),
{
    buf.get_u8()
}

} // verus!
