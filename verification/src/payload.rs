//! Packet payloads, held in reference-counted `bytes::Bytes` buffers.
use vstd::prelude::*;
use bytes::Bytes;

verus! {

/// `bytes::Bytes`, an immutable buffer that is cheap to clone.
#[verifier::external_type_specification]
#[verifier::external_body]
pub struct ExBytes(bytes::Bytes);

/// The bytes that a buffer holds.
pub uninterp spec fn contents(buffer: Bytes) -> Seq<u8>;

/// `Bytes::from(Vec<u8>)`: the new buffer holds exactly the vector's bytes.
#[verifier::external_body]
pub(crate) fn buffer_from(bytes: Vec<u8>) -> (buffer: Bytes)
    ensures
        contents(buffer) == bytes@,
{
    Bytes::from(bytes)
}

/// `<Bytes as AsRef<[u8]>>::as_ref`: the slice shows exactly the buffer's bytes.
#[verifier::external_body]
pub(crate) fn buffer_slice(buffer: &Bytes) -> (bytes: &[u8])
    ensures
        bytes@ == contents(*buffer),
{
    buffer.as_ref()
}

/// `<Bytes as Clone>::clone`: the clone holds the same bytes.
#[verifier::external_body]
pub(crate) fn buffer_clone(buffer: &Bytes) -> (copy: Bytes)
    ensures
        contents(copy) == contents(*buffer),
{
    buffer.clone()
}

} // verus!
