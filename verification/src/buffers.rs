//! Byte buffers and I/O errors, as they pass through a body.

use vstd::prelude::*;

verus! {

/// `bytes`' shared buffer.
#[verifier::external_type_specification]
#[verifier::external_body]
pub struct ExBytes(bytes::Bytes);

/// `bytes`' growable buffer.
#[verifier::external_type_specification]
#[verifier::external_body]
pub struct ExBytesMut(bytes::BytesMut);

/// The error type of I/O operations.
#[verifier::external_type_specification]
#[verifier::external_body]
pub struct ExIoError(std::io::Error);

/// The bytes that a shared buffer holds.
pub uninterp spec fn shared_bytes(buffer: bytes::Bytes) -> Seq<u8>;

/// The bytes that a growable buffer holds.
pub uninterp spec fn growable_bytes(buffer: bytes::BytesMut) -> Seq<u8>;

/// The error that stands for an error code of the operating system.
pub uninterp spec fn os_error(code: i32) -> std::io::Error;

/// `bytes::BytesMut::freeze`: a shared buffer that holds the same bytes.
#[verifier::external_body]
pub(crate) fn freeze(buffer: bytes::BytesMut) -> (shared: bytes::Bytes)
    ensures
        shared_bytes(shared) == growable_bytes(buffer),
{
    buffer.freeze()
}

/// `std::io::Error::from_raw_os_error`: the error that stands for `code`. The
/// code is all that such an error holds.
#[verifier::external_body]
pub(crate) fn from_raw_os_error(code: i32) -> (error: std::io::Error)
    ensures
        error == os_error(code),
{
    std::io::Error::from_raw_os_error(code)
}

} // verus!
