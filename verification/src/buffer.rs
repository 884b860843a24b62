//! What the library relies on from `bytes::BytesMut`, the growable byte buffer
//! that requests are accumulated in and responses are written to.
//!
//! Nothing in this file is proved: each contract restates what the `bytes`
//! crate documents for the function it names.

use bytes::BufMut;
use bytes::BytesMut;
use vstd::prelude::*;

verus! {

#[verifier::external_type_specification]
#[verifier::external_body]
pub struct ExBytesMut(BytesMut);

/// The bytes a buffer currently holds, first written first.
pub uninterp spec fn buffered(buf: BytesMut) -> Seq<u8>;

/// `BytesMut::with_capacity`: a buffer that holds no bytes yet. It panics
/// where the capacity asked for is over the largest allocation.
pub assume_specification[ BytesMut::with_capacity ](capacity: usize) -> (buf: BytesMut)
    requires
        capacity <= isize::MAX,
    ensures
        buffered(buf) == Seq::<u8>::empty(),
;

/// `BytesMut::as_ref`: the held bytes as a slice.
#[verifier::external_body]
pub(crate) fn contents(buf: &BytesMut) -> (bytes: &[u8])
    ensures
        bytes@ == buffered(*buf),
{
    buf.as_ref()
}

/// `BufMut::remaining_mut` for `BytesMut`: how many more bytes the buffer may
/// take, which is what separates its length from the largest allocation.
#[verifier::external_body]
pub(crate) fn room(buf: &BytesMut) -> (n: usize)
    ensures
        n == isize::MAX - buffered(*buf).len(),
{
    buf.remaining_mut()
}

/// `BytesMut::extend_from_slice`: appends `bytes` to what the buffer holds.
/// It panics when the grown buffer would exceed the largest allocation, so
/// callers must leave that much room.
pub assume_specification[ BytesMut::extend_from_slice ](buf: &mut BytesMut, bytes: &[u8])
    requires
        buffered(*old(buf)).len() + bytes@.len() <= isize::MAX,
    ensures
        buffered(*final(buf)) == buffered(*old(buf)) + bytes@,
;

} // verus!
