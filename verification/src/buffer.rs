//! A 128-byte-aligned byte buffer kept by the `aligned_vec` crate.

use vstd::prelude::*;

verus! {

/// Alignment, in bytes, of every private sample buffer.
pub const SAMPLE_ALIGNMENT: usize = 128;

/// An `aligned_vec::AVec<u8, ConstAlign<128>>`. Its bytes are known to
/// contracts only through `aligned_bytes`.
#[verifier::external_body]
#[derive(Debug, PartialEq, Eq)]
pub struct AlignedBuffer {
    inner: aligned_vec::AVec<u8, aligned_vec::ConstAlign<128>>,
}

/// The bytes that an aligned buffer holds, in order.
pub uninterp spec fn aligned_bytes(buffer: AlignedBuffer) -> Seq<u8>;

/// Calls `AVec::__from_elem(align, fill, len)`: a buffer of `len` bytes,
/// each of them `fill`. The crate builds it by pushing `len` copies of
/// the element, in memory that it asks for once, `len` bytes at the
/// alignment of the buffer's type (whatever `align` is); the request is
/// sound and does not fail for capacity where `len`, rounded up to that
/// alignment, stays within `isize::MAX`.
#[verifier::external_body]
pub(crate) fn aligned_filled(align: usize, fill: u8, len: usize) -> (buffer: AlignedBuffer)
    requires
        len <= isize::MAX - 128,
    ensures
        aligned_bytes(buffer) == Seq::new(len as nat, |i: int| fill),
{
    AlignedBuffer { inner: aligned_vec::AVec::__from_elem(align, fill, len) }
}

/// Calls `AVec::alignment`: the alignment of the buffer's memory, which
/// for this type is always 128.
#[verifier::external_body]
pub(crate) fn aligned_alignment(buffer: &AlignedBuffer) -> (align: usize)
    ensures
        align == 128,
{
    buffer.inner.alignment()
}

/// Calls `AVec::len`: the number of bytes held.
#[verifier::external_body]
pub(crate) fn aligned_len(buffer: &AlignedBuffer) -> (len: usize)
    ensures
        len == aligned_bytes(*buffer).len(),
{
    buffer.inner.len()
}

/// Calls `AVec::as_mut_slice` and copies `data` over the whole slice
/// (`copy_from_slice`, which wants equal lengths): afterwards the buffer
/// holds exactly the bytes of `data`.
#[verifier::external_body]
pub(crate) fn aligned_overwrite(buffer: &mut AlignedBuffer, data: &[u8])
    requires
        data@.len() == aligned_bytes(*old(buffer)).len(),
    ensures
        aligned_bytes(*final(buffer)) == data@,
{
    buffer.inner.as_mut_slice().copy_from_slice(data)
}

/// Calls `AVec::as_slice` and copies the slice out: the bytes held, in
/// order.
#[verifier::external_body]
pub(crate) fn aligned_to_vec(buffer: &AlignedBuffer) -> (bytes: Vec<u8>)
    ensures
        bytes@ == aligned_bytes(*buffer),
{
    buffer.inner.as_slice().to_vec()
}

} // verus!
