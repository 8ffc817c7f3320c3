//! Translation of native status codes into a closed set of outcomes.
//!
//! The native compressor reports every call's result as an integer. The shared
//! convention: `0` is success; `1` means the output-pointer slot handed to the
//! call was not pre-initialized to null, which a correct facade never does;
//! `2` (compression only) means one or more input parameters was rejected by
//! the native validator; `-1` is an unspecified internal failure. Any other
//! value means the interop surface is out of sync with the native library.
//! Codes `1` and the unknown ones are protocol violations: they are never
//! surfaced as a recoverable error, since that would mask a broken binding
//! layer as a data problem.

use vstd::prelude::*;

use crate::error::Error;

verus! {

/// What a native status code means for the call that produced it.
#[derive(Clone, Copy, Debug, PartialEq, Eq, Structural)]
pub enum StatusOutcome {
    /// The call succeeded and handed over a freshly allocated buffer, which
    /// the facade must copy and then free exactly once.
    Produced,
    /// The call failed in a way the caller can act on; no buffer was handed
    /// over, and the error is returned as a value.
    Recoverable(Error),
    /// The call broke the interop protocol; the process must terminate with a
    /// diagnostic instead of returning, and no free is attempted since the
    /// allocation contract itself can no longer be trusted.
    ProtocolViolation,
}

/// The meaning of a status code returned by native compression.
pub open spec fn compress_status_spec(code: i32) -> StatusOutcome {
    if code == 0 {
        StatusOutcome::Produced
    } else if code == 2 {
        StatusOutcome::Recoverable(Error::InvalidParameter)
    } else if code == -1 {
        StatusOutcome::Recoverable(Error::Other)
    } else {
        StatusOutcome::ProtocolViolation
    }
}

/// The meaning of a status code returned by native decompression.
///
/// Decompression has no parameter-validation code: `2` is outside its
/// documented set and therefore a protocol violation.
pub open spec fn decompress_status_spec(code: i32) -> StatusOutcome {
    if code == 0 {
        StatusOutcome::Produced
    } else if code == -1 {
        StatusOutcome::Recoverable(Error::Other)
    } else {
        StatusOutcome::ProtocolViolation
    }
}

/// Classify the status code of a native compression call.
pub fn classify_compress_status(code: i32) -> (o: StatusOutcome)
    ensures
        o == compress_status_spec(code),
{
    if code == 0 {
        StatusOutcome::Produced
    } else if code == 2 {
        StatusOutcome::Recoverable(Error::InvalidParameter)
    } else if code == -1 {
        StatusOutcome::Recoverable(Error::Other)
    } else {
        StatusOutcome::ProtocolViolation
    }
}

/// Classify the status code of a native decompression call.
pub fn classify_decompress_status(code: i32) -> (o: StatusOutcome)
    ensures
        o == decompress_status_spec(code),
{
    if code == 0 {
        StatusOutcome::Produced
    } else if code == -1 {
        StatusOutcome::Recoverable(Error::Other)
    } else {
        StatusOutcome::ProtocolViolation
    }
}

/// A recoverable error never coincides with the success code, and the success
/// outcome arises from the zero status alone. Since the native calls hand over
/// an allocation only when they report success, every recoverable error is
/// returned with no native buffer left behind to free.
pub proof fn lemma_no_buffer_on_recoverable(code: i32)
    ensures
        compress_status_spec(code) is Produced <==> code == 0,
        decompress_status_spec(code) is Produced <==> code == 0,
        compress_status_spec(code) matches StatusOutcome::Recoverable(_) ==> code != 0,
        decompress_status_spec(code) matches StatusOutcome::Recoverable(_) ==> code != 0,
{
}

} // verus!
