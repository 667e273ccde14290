//! The byte buffer that the decoder reads frames from: `bytes::BytesMut`.
//!
//! The contents of a buffer are named by [`bytes_mut_view`]; each method the
//! decoder calls has a wrapper whose contract states its effect on them.

use vstd::prelude::*;

use bytes::BytesMut;

verus! {

/// Declares `bytes::BytesMut`, the growable byte buffer of the `bytes` crate.
#[verifier::external_type_specification]
#[verifier::external_body]
pub struct ExBytesMut(BytesMut);

/// The bytes held by a `BytesMut`, first to last.
pub uninterp spec fn bytes_mut_view(b: BytesMut) -> Seq<u8>;

/// Calls `BytesMut::len`, which returns the number of bytes held.
#[verifier::external_body]
pub fn bytes_mut_len(b: &BytesMut) -> (n: usize)
    ensures
        n == bytes_mut_view(*b).len(),
{
    b.len()
}

/// Dereferences a `BytesMut` to the slice of the bytes it holds
/// (`<BytesMut as Deref>::deref`).
#[verifier::external_body]
pub fn bytes_mut_as_slice(b: &BytesMut) -> (s: &[u8])
    ensures
        s@ == bytes_mut_view(*b),
{
    &b[..]
}

/// Calls `BytesMut::split_to`, which removes the first `at` bytes from the
/// buffer and returns them in a new buffer; it panics when `at` exceeds the
/// length, which `requires` rules out.
#[verifier::external_body]
pub fn bytes_mut_split_to(b: &mut BytesMut, at: usize) -> (front: BytesMut)
    requires
        at <= bytes_mut_view(*old(b)).len(),
    ensures
        bytes_mut_view(front) == bytes_mut_view(*old(b)).take(at as int),
        bytes_mut_view(*final(b)) == bytes_mut_view(*old(b)).skip(at as int),
{
    b.split_to(at)
}

/// Calls `BytesMut::extend_from_slice`, which appends the bytes of `s` to
/// the buffer; it reserves room first and panics when the new length would
/// overflow `usize`, which `requires` rules out.
#[verifier::external_body]
pub fn bytes_mut_extend(b: &mut BytesMut, s: &[u8])
    requires
        bytes_mut_view(*old(b)).len() + s@.len() <= usize::MAX,
    ensures
        bytes_mut_view(*final(b)) == bytes_mut_view(*old(b)) + s@,
{
    b.extend_from_slice(s)
}

/// Calls `BytesMut::clear`, which removes all bytes from the buffer.
#[verifier::external_body]
pub fn bytes_mut_clear(b: &mut BytesMut)
    ensures
        bytes_mut_view(*final(b)) == Seq::<u8>::empty(),
{
    b.clear()
}

} // verus!
