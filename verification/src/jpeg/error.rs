//! The error kinds a JPEG decode attempt can end with.

use vstd::prelude::*;

verus! {

/// Why a JPEG byte stream was rejected.
///
/// Every kind is terminal for the decode call that reports it: the caller is
/// expected to fall back to a software decoder.
#[derive(Clone, Copy, Debug, PartialEq, Eq, Structural)]
pub enum JpegError {
    /// A segment breaks the marker syntax: a bad length field, a table or
    /// component selector out of range, or a bad precision or class value.
    MalformedSegment,
    /// The stream is well-formed JPEG, but not 8-bit baseline (SOF0) data
    /// that the hardware path can take.
    UnsupportedCodec,
    /// The stream ends (or reaches EOI) before the frame and scan headers
    /// were seen, or the scan data has no terminating marker.
    TruncatedImage,
    /// A segment's length field claims more bytes than the buffer holds.
    UnexpectedEof,
}

impl JpegError {
    /// The description of the error kind, as text.
    pub open spec fn text(self) -> Seq<char> {
        match self {
            JpegError::MalformedSegment => "malformed JPEG segment"@,
            JpegError::UnsupportedCodec => "not an 8-bit baseline JPEG"@,
            JpegError::TruncatedImage => "JPEG image is truncated"@,
            JpegError::UnexpectedEof => "JPEG segment extends past the end of the data"@,
        }
    }

    /// A short human-readable description of the error kind.
    pub fn message(&self) -> (s: &'static str)
        ensures
            s@ == self.text(),
    {
        match self {
            JpegError::MalformedSegment => "malformed JPEG segment",
            JpegError::UnsupportedCodec => "not an 8-bit baseline JPEG",
            JpegError::TruncatedImage => "JPEG image is truncated",
            JpegError::UnexpectedEof => "JPEG segment extends past the end of the data",
        }
    }
}

} // verus!
