//! Trusted boundary around the `bytes` crate.
//!
//! The framing logic keeps its receive and transmit buffers in
//! `bytes::BytesMut` and its immutable payloads in `bytes::Bytes`, exactly as
//! the surrounding transport code does, so that decoded payloads share storage
//! with the receive buffer instead of being copied.  Both types are opaque
//! here; the two `uninterp` functions below name the byte sequence such a
//! buffer holds, and each wrapper states over those names what the called
//! method does, as the crate's documentation gives it.

use vstd::prelude::*;
use bytes::Bytes;
use bytes::BytesMut;

verus! {

#[verifier::external_type_specification]
#[verifier::external_body]
pub struct ExBytes(Bytes);

#[verifier::external_type_specification]
#[verifier::external_body]
pub struct ExBytesMut(BytesMut);

/// The byte sequence an immutable `Bytes` buffer holds.
pub uninterp spec fn bytes_contents(b: Bytes) -> Seq<u8>;

/// The byte sequence a mutable `BytesMut` buffer holds.
pub uninterp spec fn buf_contents(b: BytesMut) -> Seq<u8>;

/// Relies on `bytes::BytesMut::with_capacity`: the new buffer contains no
/// data, whatever capacity was reserved.
#[verifier::external_body]
pub fn buf_with_capacity(capacity: usize) -> (r: BytesMut)
    ensures
        buf_contents(r) == Seq::<u8>::empty(),
{
    BytesMut::with_capacity(capacity)
}

/// Relies on `bytes::BytesMut::len`: the number of bytes contained in the
/// buffer.
#[verifier::external_body]
pub fn buf_len(b: &BytesMut) -> (r: usize)
    ensures
        r == buf_contents(*b).len(),
{
    b.len()
}

/// Relies on `AsRef<[u8]> for bytes::BytesMut`: a view of all bytes the
/// buffer contains, in order.
#[verifier::external_body]
pub fn buf_as_slice(b: &BytesMut) -> (r: &[u8])
    ensures
        r@ == buf_contents(*b),
{
    b.as_ref()
}

/// Relies on `bytes::BytesMut::extend_from_slice`: appends the slice to the
/// end of the buffer.
#[verifier::external_body]
pub fn buf_extend_from_slice(b: &mut BytesMut, s: &[u8])
    ensures
        buf_contents(*final(b)) == buf_contents(*old(b)) + s@,
{
    b.extend_from_slice(s)
}

/// Relies on `bytes::BytesMut::split_to`: afterwards the buffer contains the
/// elements from `at` on, and the returned buffer the elements before `at`.
/// It panics when `at` exceeds the length, so that is excluded here.
#[verifier::external_body]
pub fn buf_split_to(b: &mut BytesMut, at: usize) -> (r: BytesMut)
    requires
        at <= buf_contents(*old(b)).len(),
    ensures
        buf_contents(r) == buf_contents(*old(b)).subrange(0, at as int),
        buf_contents(*final(b)) == buf_contents(*old(b)).subrange(
            at as int,
            buf_contents(*old(b)).len() as int,
        ),
{
    b.split_to(at)
}

/// Relies on `bytes::BytesMut::freeze`: converts the buffer into an immutable
/// `Bytes` holding the same data.
#[verifier::external_body]
pub fn buf_freeze(b: BytesMut) -> (r: Bytes)
    ensures
        bytes_contents(r) == buf_contents(b),
{
    b.freeze()
}

/// Relies on `bytes::Bytes::len`: the number of bytes the buffer holds.
#[verifier::external_body]
pub fn bytes_len(b: &Bytes) -> (r: usize)
    ensures
        r == bytes_contents(*b).len(),
{
    b.len()
}

/// Relies on `AsRef<[u8]> for bytes::Bytes`: a view of all bytes the buffer
/// holds, in order.
#[verifier::external_body]
pub fn bytes_as_slice(b: &Bytes) -> (r: &[u8])
    ensures
        r@ == bytes_contents(*b),
{
    b.as_ref()
}

/// Relies on `bytes::Bytes::split_off`: afterwards the buffer holds the
/// elements before `at`, and the returned buffer the elements from `at` on.
/// It panics when `at` exceeds the length, so that is excluded here.
#[verifier::external_body]
pub fn bytes_split_off(b: &mut Bytes, at: usize) -> (r: Bytes)
    requires
        at <= bytes_contents(*old(b)).len(),
    ensures
        bytes_contents(*final(b)) == bytes_contents(*old(b)).subrange(0, at as int),
        bytes_contents(r) == bytes_contents(*old(b)).subrange(
            at as int,
            bytes_contents(*old(b)).len() as int,
        ),
{
    b.split_off(at)
}

} // verus!
