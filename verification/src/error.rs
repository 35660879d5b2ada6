//! Error kinds for a single capture operation. Every error is terminal: the
//! caller reports one diagnostic and gives up; there is no retry path.

use vstd::prelude::*;

verus! {

/// Which required raw-dump parameter was absent (or unusable).
#[derive(Debug, Clone, Copy, PartialEq, Eq, Structural)]
pub enum ParamKind {
    Width,
    Height,
    BitDepth,
    PixelFormat,
}

/// The failure modes of a capture operation.
///
/// `SourceOpenFailed`, `DeviceQueryFailed`, `ShortRead` and `EncodeFailed`
/// are raised by the unverified I/O shell around this library; the resolvers
/// here produce `MissingParameter`, `UnsupportedDepth`, `InvalidFormat` and
/// `OutputExtensionInvalid`.
#[derive(Debug, Clone, Copy, PartialEq, Eq, Structural)]
pub enum CaptureError {
    SourceOpenFailed,
    DeviceQueryFailed,
    MissingParameter(ParamKind),
    UnsupportedDepth,
    InvalidFormat,
    ShortRead,
    OutputExtensionInvalid,
    EncodeFailed,
}

} // verus!
