//! Error taxonomy: the closed set of outcomes a native status code can mean.

use vstd::prelude::*;

verus! {

/// Every outcome the native layer can report. `Success` is the one
/// non-error outcome; `UnknownError` is the catch-all for any status code
/// outside the documented range, so classification is never partial.
#[derive(Clone, Copy, Debug, PartialEq, Eq, Structural)]
pub enum OpusError {
    Success,
    InvalidArgument,
    BufferTooSmall,
    InternalError,
    CorruptedStream,
    RequestNotImplemented,
    InvalidState,
    MemoryAllocationFailed,
    UnknownError,
}

/// The total classification of a native status code: 0 is `Success`, the
/// documented codes -1 through -7 are the named kinds in order, and every
/// other integer is `UnknownError`.
pub open spec fn classify(code: int) -> OpusError {
    if code == 0 {
        OpusError::Success
    } else if code == -1 {
        OpusError::InvalidArgument
    } else if code == -2 {
        OpusError::BufferTooSmall
    } else if code == -3 {
        OpusError::InternalError
    } else if code == -4 {
        OpusError::CorruptedStream
    } else if code == -5 {
        OpusError::RequestNotImplemented
    } else if code == -6 {
        OpusError::InvalidState
    } else if code == -7 {
        OpusError::MemoryAllocationFailed
    } else {
        OpusError::UnknownError
    }
}

impl OpusError {
    /// Builds the error kind for a raw native status code, exactly as
    /// [`classify`] says. Callers never see a raw code: every status that
    /// crosses the boundary goes through here first.
    pub fn new(error_code: i32) -> (r: OpusError)
        ensures
            r == classify(error_code as int),
    {
        match error_code {
            0 => OpusError::Success,
            -1 => OpusError::InvalidArgument,
            -2 => OpusError::BufferTooSmall,
            -3 => OpusError::InternalError,
            -4 => OpusError::CorruptedStream,
            -5 => OpusError::RequestNotImplemented,
            -6 => OpusError::InvalidState,
            -7 => OpusError::MemoryAllocationFailed,
            _ => OpusError::UnknownError,
        }
    }
}

/// Classification is total and deterministic: every integer in [-7, 0] maps
/// to its one named kind, and every integer outside that range maps to
/// `UnknownError`.
pub proof fn lemma_classify_total(code: int)
    ensures
        code == 0 ==> classify(code) == OpusError::Success,
        code == -1 ==> classify(code) == OpusError::InvalidArgument,
        code == -2 ==> classify(code) == OpusError::BufferTooSmall,
        code == -3 ==> classify(code) == OpusError::InternalError,
        code == -4 ==> classify(code) == OpusError::CorruptedStream,
        code == -5 ==> classify(code) == OpusError::RequestNotImplemented,
        code == -6 ==> classify(code) == OpusError::InvalidState,
        code == -7 ==> classify(code) == OpusError::MemoryAllocationFailed,
        code < -7 || code > 0 ==> classify(code) == OpusError::UnknownError,
        classify(code) == OpusError::Success <==> code == 0,
{
}

} // verus!
