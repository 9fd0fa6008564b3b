//! Byte buffers of the `bytes` crate and what their operations do to the
//! contents.

use bytes::{Bytes, BytesMut};
use vstd::prelude::*;

verus! {

/// `bytes::BytesMut`.
#[verifier::external_type_specification]
#[verifier::external_body]
pub struct ExBytesMut(bytes::BytesMut);

/// `bytes::Bytes`.
#[verifier::external_type_specification]
#[verifier::external_body]
pub struct ExBytes(bytes::Bytes);

/// The bytes that a `BytesMut` holds.
pub uninterp spec fn contents(buf: BytesMut) -> Seq<u8>;

/// The bytes that a `Bytes` holds.
pub uninterp spec fn shared_contents(buf: Bytes) -> Seq<u8>;

/// `BytesMut::with_capacity`: an empty buffer. It panics for a capacity that
/// no allocation can have.
#[verifier::external_body]
pub(crate) fn with_capacity(capacity: usize) -> (buf: BytesMut)
    requires
        capacity <= isize::MAX,
    ensures
        contents(buf).len() == 0,
{
    BytesMut::with_capacity(capacity)
}

/// `BytesMut::capacity`: the room the buffer has, which is at least what it
/// holds. How much more is the allocator's choice.
#[verifier::external_body]
pub(crate) fn capacity(buf: &BytesMut) -> (capacity: usize)
    ensures
        contents(*buf).len() <= capacity,
{
    buf.capacity()
}

/// `BytesMut::reserve`: makes room for `additional` more bytes and keeps the
/// contents. It panics when the new capacity is more than an allocation can
/// have.
#[verifier::external_body]
pub(crate) fn reserve(buf: &mut BytesMut, additional: usize)
    requires
        contents(*old(buf)).len() + additional <= isize::MAX,
    ensures
        contents(*final(buf)) == contents(*old(buf)),
{
    buf.reserve(additional)
}

/// `BytesMut::clear`: empties the buffer.
#[verifier::external_body]
pub(crate) fn clear(buf: &mut BytesMut)
    ensures
        contents(*final(buf)) == Seq::<u8>::empty(),
{
    buf.clear()
}

/// `BytesMut::extend_from_slice`: appends the bytes of `data`.
#[verifier::external_body]
pub(crate) fn extend_from_slice(buf: &mut BytesMut, data: &[u8])
    requires
        contents(*old(buf)).len() + data@.len() <= isize::MAX,
    ensures
        contents(*final(buf)) == contents(*old(buf)) + data@,
{
    buf.extend_from_slice(data)
}

/// `BytesMut::truncate`: keeps the first `len` bytes.
#[verifier::external_body]
pub(crate) fn truncate(buf: &mut BytesMut, len: usize)
    ensures
        contents(*final(buf)) == (if len <= contents(*old(buf)).len() {
            contents(*old(buf)).take(len as int)
        } else {
            contents(*old(buf))
        }),
{
    buf.truncate(len)
}

/// `BytesMut::split_to`: takes the first `at` bytes out of the buffer. It
/// panics when there are fewer.
#[verifier::external_body]
pub(crate) fn split_to(buf: &mut BytesMut, at: usize) -> (front: BytesMut)
    requires
        at <= contents(*old(buf)).len(),
    ensures
        contents(front) == contents(*old(buf)).take(at as int),
        contents(*final(buf)) == contents(*old(buf)).skip(at as int),
{
    buf.split_to(at)
}

/// `BytesMut::split_off`: takes the bytes from `at` on out of the buffer.
#[verifier::external_body]
pub(crate) fn split_off(buf: &mut BytesMut, at: usize) -> (back: BytesMut)
    requires
        at <= contents(*old(buf)).len(),
    ensures
        contents(back) == contents(*old(buf)).skip(at as int),
        contents(*final(buf)) == contents(*old(buf)).take(at as int),
{
    buf.split_off(at)
}

/// `BytesMut::as_ref`: the bytes of the buffer.
#[verifier::external_body]
pub(crate) fn as_slice(buf: &BytesMut) -> (data: &[u8])
    ensures
        data@ == contents(*buf),
{
    buf.as_ref()
}

/// `Bytes::from(Vec<u8>)`: shares the bytes of a vector.
#[verifier::external_body]
pub(crate) fn shared_from_vec(data: Vec<u8>) -> (buf: Bytes)
    ensures
        shared_contents(buf) == data@,
{
    Bytes::from(data)
}

/// `Bytes::as_ref`: the bytes of the buffer.
#[verifier::external_body]
pub(crate) fn shared_as_slice(buf: &Bytes) -> (data: &[u8])
    ensures
        data@ == shared_contents(*buf),
{
    buf.as_ref()
}

/// `Bytes::slice`: shares the bytes from `start` up to `end`. It panics when
/// the range is not within the buffer.
#[verifier::external_body]
pub(crate) fn shared_slice(buf: &Bytes, start: usize, end: usize) -> (part: Bytes)
    requires
        start <= end <= shared_contents(*buf).len(),
    ensures
        shared_contents(part) == shared_contents(*buf).subrange(start as int, end as int),
{
    buf.slice(start..end)
}

} // verus!
