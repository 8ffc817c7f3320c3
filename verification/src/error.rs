//! The typed error taxonomy of the compression facade.

use vstd::prelude::*;

verus! {

/// Errors that can occur during compression and decompression.
///
/// All three kinds are recoverable and are returned to the caller as values.
/// Violations of the native interop protocol itself are not represented here:
/// they are programmer defects, not data errors, and the caller of the native
/// surface terminates the process instead of returning one of these.
#[derive(Clone, Copy, Debug, PartialEq, Eq, Structural)]
pub enum Error {
    /// one or more parameters is invalid
    InvalidParameter,
    /// cannot decompress to an array with a different shape
    DecompressShapeMismatch,
    /// other error
    Other,
}

} // verus!
