//! The metadata needed before a decode session can be created.

use vstd::prelude::*;
use super::error::JpegError;
use super::parser::{JpegParser, SegmentKind, Sof};
use super::syntax::{
    lemma_segment_at_advances, segment_at, SegmentKindView, SofView, MARKER_SOF0, MARKER_SOI,
};

verus! {

/// The first frame header found in `buf` at or after `from`; a stream that
/// ends without one is a truncated image.
pub open spec fn first_frame(buf: Seq<u8>, from: int) -> Result<SofView, JpegError>
    decreases buf.len() - from,
    when 0 <= from <= buf.len()
{
    match segment_at(buf, from) {
        Err(e) => Err(e),
        Ok(None) => Err(JpegError::TruncatedImage),
        Ok(Some((segment, next))) => match segment.kind {
            SegmentKindView::Sof(sof) => Ok(sof),
            _ => {
                proof {
                    lemma_segment_at_advances(buf, from);
                }
                first_frame(buf, next)
            },
        },
    }
}

/// The size `(width, height)` of the JPEG image `buf`.
///
/// The stream must open with an SOI marker, else it is malformed, and its
/// first frame header must be a baseline one (SOF0) with 8-bit samples,
/// else the codec is unsupported.
pub open spec fn image_size(buf: Seq<u8>) -> Result<(u16, u16), JpegError> {
    match segment_at(buf, 0) {
        Err(e) => Err(e),
        Ok(None) => Err(JpegError::TruncatedImage),
        Ok(Some((segment, next))) => {
            if segment.kind matches SegmentKindView::Other { marker, .. } && marker == MARKER_SOI {
                match first_frame(buf, next) {
                    Err(e) => Err(e),
                    Ok(sof) => if sof.sof != MARKER_SOF0 || sof.P != 8 {
                        Err(JpegError::UnsupportedCodec)
                    } else {
                        Ok((sof.X, sof.Y))
                    },
                }
            } else {
                Err(JpegError::MalformedSegment)
            }
        },
    }
}

/// Finds the first frame header at or after the parser's cursor.
fn find_frame(parser: &mut JpegParser<'_>) -> (r: Result<Sof, JpegError>)
    ensures
        match first_frame(old(parser).bytes(), old(parser).cursor()) {
            Ok(sof) => r matches Ok(s) && s@ == sof,
            Err(e) => r matches Err(x) && x == e,
        },
{
    let ghost buf = parser.bytes();
    let ghost start = parser.cursor();
    let _ = parser.position();
    loop
        invariant
            buf == old(parser).bytes(),
            start == old(parser).cursor(),
            0 <= start <= buf.len(),
            parser.bytes() == buf,
            0 <= parser.cursor() <= buf.len(),
            first_frame(buf, start) == first_frame(buf, parser.cursor()),
        decreases buf.len() - parser.cursor(),
    {
        proof {
            lemma_segment_at_advances(buf, parser.cursor());
        }
        match parser.next_segment() {
            Err(e) => {
                return Err(e);
            },
            Ok(None) => {
                return Err(JpegError::TruncatedImage);
            },
            Ok(Some(segment)) => {
                match segment.kind {
                    SegmentKind::Sof(sof) => {
                        return Ok(sof);
                    },
                    _ => {},
                }
            },
        }
    }
}

/// JPEG metadata required to create a JPEG decoding session.
#[derive(Debug, Clone, Copy)]
pub struct JpegInfo {
    pub width: u16,
    pub height: u16,
}

impl JpegInfo {
    /// Parses the given JPEG image as far as its frame header.
    ///
    /// # Errors
    ///
    /// If this returns an error, the JPEG image is either malformed, or of an incompatible format
    /// that the hardware path does not support. In that case, the caller should fall back to
    /// software decoding.
    pub fn new(jpeg: &[u8]) -> (r: Result<Self, JpegError>)
        ensures
            match image_size(jpeg@) {
                Ok(size) => r matches Ok(info) && info.width == size.0 && info.height == size.1,
                Err(e) => r matches Err(x) && x == e,
            },
    {
        let mut parser = JpegParser::new(jpeg);
        let segment = match parser.next_segment() {
            Ok(Some(segment)) => segment,
            Ok(None) => {
                return Err(JpegError::TruncatedImage);
            },
            Err(e) => {
                return Err(e);
            },
        };
        match segment.kind {
            SegmentKind::Other { marker, .. } => {
                if marker != MARKER_SOI {
                    return Err(JpegError::MalformedSegment);
                }
            },
            _ => {
                return Err(JpegError::MalformedSegment);
            },
        }
        let sof = match find_frame(&mut parser) {
            Ok(sof) => sof,
            Err(e) => {
                return Err(e);
            },
        };
        if sof.sof != MARKER_SOF0 || sof.P != 8 {
            return Err(JpegError::UnsupportedCodec);
        }
        Ok(Self { width: sof.X, height: sof.Y })
    }

    #[inline]
    pub fn width(&self) -> (r: u16)
        ensures
            r == self.width,
    {
        self.width
    }

    #[inline]
    pub fn height(&self) -> (r: u16)
        ensures
            r == self.height,
    {
        self.height
    }
}

} // verus!
