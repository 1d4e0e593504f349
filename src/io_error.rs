//! The generic I/O failure that codec errors carry.
use vstd::prelude::*;

verus! {

#[verifier::external_type_specification]
#[verifier::external_body]
pub struct ExIoError(std::io::Error);

/// Relies on `std::io::Error::new`: the error reported when an item would
/// make a write buffer grow past `isize::MAX` bytes.
#[verifier::external_body]
pub(crate) fn oversize_error() -> (r: std::io::Error) {
    std::io::Error::new(std::io::ErrorKind::OutOfMemory, "write buffer would exceed isize::MAX bytes")
}

} // verus!
