//! Immutable byte buffers, which are `bytes::Bytes`, and what this library
//! takes for granted of them.

use vstd::prelude::*;
use bytes::Bytes;

verus! {

/// `bytes::Bytes`, a cheaply cloneable immutable byte buffer. Only the items
/// below say anything of its values.
#[verifier::external_type_specification]
#[verifier::external_body]
pub struct ExBytes(Bytes);

/// The bytes that a buffer holds, in order.
pub uninterp spec fn bytes_view(buffer: Bytes) -> Seq<u8>;

/// `Bytes::new`: a buffer that holds nothing.
#[verifier::external_body]
pub(crate) fn bytes_new() -> (buffer: Bytes)
    ensures
        bytes_view(buffer) == Seq::<u8>::empty(),
{
    Bytes::new()
}

/// `Bytes::from` on a `Vec<u8>`: a buffer that holds the vector's bytes.
#[verifier::external_body]
pub(crate) fn bytes_from_vec(bytes: Vec<u8>) -> (buffer: Bytes)
    ensures
        bytes_view(buffer) == bytes@,
{
    Bytes::from(bytes)
}

/// `Bytes::as_ref`: the buffer's bytes as a slice.
#[verifier::external_body]
pub(crate) fn bytes_as_slice(buffer: &Bytes) -> (slice: &[u8])
    ensures
        slice@ == bytes_view(*buffer),
{
    buffer.as_ref()
}

} // verus!
