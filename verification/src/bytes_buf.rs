//! Trusted view of `bytes::BytesMut`, the caller-owned byte buffer that the
//! codec reads from and writes to.  The buffer is opaque to the verifier;
//! `bytes_of` names its contents, and each operation the codec relies on is
//! wrapped with a contract over that name.

use vstd::prelude::*;

use crate::model::u16_high;
use crate::model::u16_low;

verus! {

#[verifier::external_type_specification]
#[verifier::external_body]
pub struct ExBytesMut(bytes::BytesMut);

/// The bytes that a `bytes::BytesMut` holds, in order.
pub uninterp spec fn bytes_of(buffer: bytes::BytesMut) -> Seq<u8>;

/// Relies on `bytes::BytesMut::len`: the number of bytes held.
#[verifier::external_body]
pub(crate) fn buffer_len(buffer: &bytes::BytesMut) -> (length: usize)
    ensures
        length == bytes_of(*buffer).len(),
{
    buffer.len()
}

/// Relies on indexing through `bytes::BytesMut`'s slice view: the byte at a
/// position below the length.
#[verifier::external_body]
pub(crate) fn buffer_get(buffer: &bytes::BytesMut, index: usize) -> (byte: u8)
    requires
        index < bytes_of(*buffer).len(),
    ensures
        byte == bytes_of(*buffer)[index as int],
{
    buffer[index]
}

/// Relies on `bytes::BytesMut::split_to`: the first `at` bytes leave the
/// buffer; the split-off prefix itself is dropped here.
#[verifier::external_body]
pub(crate) fn buffer_advance(buffer: &mut bytes::BytesMut, at: usize)
    requires
        at <= bytes_of(*old(buffer)).len(),
    ensures
        bytes_of(*final(buffer)) == bytes_of(*old(buffer)).skip(at as int),
{
    let _ = buffer.split_to(at);
}

/// Relies on `bytes::BytesMut::extend_from_slice`, which reserves room by
/// itself and appends; one byte joins the end of the buffer.
#[verifier::external_body]
pub(crate) fn buffer_put(buffer: &mut bytes::BytesMut, byte: u8)
    ensures
        bytes_of(*final(buffer)) == bytes_of(*old(buffer)).push(byte),
{
    buffer.extend_from_slice(&[byte]);
}

/// Relies on `bytes::BytesMut::extend_from_slice` and `u16::to_be_bytes`:
/// the two big-endian bytes of the value join the end of the buffer.
#[verifier::external_body]
pub(crate) fn buffer_put_u16_be(buffer: &mut bytes::BytesMut, value: u16)
    ensures
        bytes_of(*final(buffer)) == bytes_of(*old(buffer)).push(u16_high(value)).push(
            u16_low(value),
        ),
{
    buffer.extend_from_slice(&value.to_be_bytes());
}

} // verus!
