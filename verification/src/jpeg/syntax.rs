//! The marker-segment syntax of a JPEG byte stream (ITU-T T.81, Annex B),
//! stated as mathematical functions over byte sequences.
//!
//! Everything here is specification: the executable parser in
//! [`parser`](super::parser) is proved to compute exactly these functions.

#![allow(non_snake_case)]

use vstd::prelude::*;
use super::error::JpegError;
use super::parser::{Dri, FrameComponent, ScanComponent};

verus! {

/// The big-endian 16-bit value formed by two bytes.
pub open spec fn be16(hi: u8, lo: u8) -> int {
    hi as int * 256 + lo as int
}

/// The upper four bits of a packed byte.
pub open spec fn high_nibble(b: u8) -> u8 {
    b >> 4
}

/// The lower four bits of a packed byte.
pub open spec fn low_nibble(b: u8) -> u8 {
    b & 0x0f
}

/// TEM: for temporary private use in arithmetic coding.
pub const MARKER_TEM: u8 = 0x01;

/// SOF0: start of a baseline frame.
pub const MARKER_SOF0: u8 = 0xC0;

/// SOF15: the last of the start-of-frame markers.
pub const MARKER_SOF15: u8 = 0xCF;

/// DHT: define Huffman tables.
pub const MARKER_DHT: u8 = 0xC4;

/// JPG: reserved for JPEG extensions.
pub const MARKER_JPG: u8 = 0xC8;

/// DAC: define arithmetic coding conditioning.
pub const MARKER_DAC: u8 = 0xCC;

/// RST0: the first of the eight restart markers.
pub const MARKER_RST0: u8 = 0xD0;

/// RST7: the last of the eight restart markers.
pub const MARKER_RST7: u8 = 0xD7;

/// SOI: start of image.
pub const MARKER_SOI: u8 = 0xD8;

/// EOI: end of image.
pub const MARKER_EOI: u8 = 0xD9;

/// SOS: start of scan.
pub const MARKER_SOS: u8 = 0xDA;

/// DQT: define quantization tables.
pub const MARKER_DQT: u8 = 0xDB;

/// DRI: define restart interval.
pub const MARKER_DRI: u8 = 0xDD;

/// A marker starts at `p`: a 0xFF byte followed by a byte that is neither a
/// stuffed zero nor another fill byte.
pub open spec fn is_marker_at(buf: Seq<u8>, p: int) -> bool {
    &&& 0 <= p
    &&& p + 1 < buf.len()
    &&& buf[p] == 0xFF
    &&& buf[p + 1] != 0x00
    &&& buf[p + 1] != 0xFF
}

/// The offset of the first marker at or after `from`, or `buf.len()` when
/// no marker follows.
pub open spec fn next_marker(buf: Seq<u8>, from: int) -> int
    decreases buf.len() - from,
{
    if from < 0 || from >= buf.len() {
        buf.len() as int
    } else if is_marker_at(buf, from) {
        from
    } else {
        next_marker(buf, from + 1)
    }
}

/// `next_marker` is the least marker offset at or after `from`.
pub proof fn lemma_next_marker_is_first(buf: Seq<u8>, from: int)
    requires
        0 <= from <= buf.len(),
    ensures
        from <= next_marker(buf, from) <= buf.len(),
        next_marker(buf, from) < buf.len() ==> is_marker_at(buf, next_marker(buf, from)),
        forall|q: int| from <= q < next_marker(buf, from) ==> !is_marker_at(buf, q),
    decreases buf.len() - from,
{
    if from < buf.len() && !is_marker_at(buf, from) {
        lemma_next_marker_is_first(buf, from + 1);
    }
}

/// Markers that stand alone, without a length field or payload:
/// TEM, RST0 to RST7, SOI and EOI.
pub open spec fn is_standalone(marker: u8) -> bool {
    marker == MARKER_TEM || (MARKER_RST0 <= marker && marker <= MARKER_EOI)
}

/// Markers that open a frame header (SOF0 to SOF15; 0xC4, 0xC8 and 0xCC
/// have other meanings).
pub open spec fn is_sof(marker: u8) -> bool {
    &&& MARKER_SOF0 <= marker <= MARKER_SOF15
    &&& marker != MARKER_DHT
    &&& marker != MARKER_JPG
    &&& marker != MARKER_DAC
}

/// The payload bounds `(start, end)` of the segment whose marker is at `p`.
///
/// A stand-alone marker has the empty payload right behind it. Any other
/// marker is followed by a big-endian length that counts itself, so the
/// payload is `buf[p + 4 .. p + 2 + length]`.
pub open spec fn payload_bounds(buf: Seq<u8>, p: int) -> Result<(int, int), JpegError> {
    if is_standalone(buf[p + 1]) {
        Ok((p + 2, p + 2))
    } else if p + 4 > buf.len() {
        Err(JpegError::UnexpectedEof)
    } else if be16(buf[p + 2], buf[p + 3]) < 2 {
        Err(JpegError::MalformedSegment)
    } else if p + 2 + be16(buf[p + 2], buf[p + 3]) > buf.len() {
        Err(JpegError::UnexpectedEof)
    } else {
        Ok((p + 4, p + 2 + be16(buf[p + 2], buf[p + 3])))
    }
}

/// Entropy-coded data stops at `p`: a 0xFF byte followed by anything but a
/// stuffed zero or a restart marker (RST0 to RST7).
pub open spec fn ends_scan_at(buf: Seq<u8>, p: int) -> bool {
    &&& 0 <= p
    &&& p + 1 < buf.len()
    &&& buf[p] == 0xFF
    &&& buf[p + 1] != 0x00
    &&& !(MARKER_RST0 <= buf[p + 1] && buf[p + 1] <= MARKER_RST7)
}

/// The offset at which the entropy-coded data starting at `from` ends,
/// or `buf.len()` when nothing terminates it.
pub open spec fn scan_data_end(buf: Seq<u8>, from: int) -> int
    decreases buf.len() - from,
{
    if from < 0 || from >= buf.len() {
        buf.len() as int
    } else if ends_scan_at(buf, from) {
        from
    } else {
        scan_data_end(buf, from + 1)
    }
}

/// `scan_data_end` is the least terminating offset at or after `from`.
pub proof fn lemma_scan_data_end_is_first(buf: Seq<u8>, from: int)
    requires
        0 <= from <= buf.len(),
    ensures
        from <= scan_data_end(buf, from) <= buf.len(),
        scan_data_end(buf, from) < buf.len() ==> ends_scan_at(buf, scan_data_end(buf, from)),
        forall|q: int| from <= q < scan_data_end(buf, from) ==> !ends_scan_at(buf, q),
    decreases buf.len() - from,
{
    if from < buf.len() && !ends_scan_at(buf, from) {
        lemma_scan_data_end_is_first(buf, from + 1);
    }
}

/// The sum of a sequence of byte values.
pub open spec fn sum_bytes(s: Seq<u8>) -> nat
    decreases s.len(),
{
    if s.len() == 0 {
        0
    } else {
        sum_bytes(s.drop_last()) + s.last() as nat
    }
}

/// One quantization table as a DQT segment defines it.
pub struct DqtView {
    /// Element precision: 0 for 8-bit values (the only one accepted).
    pub Pq: u8,
    /// Destination slot, 0 to 3.
    pub Tq: u8,
    /// The 64 table elements, in the order stored in the segment.
    pub Qk: Seq<u8>,
}

/// One Huffman table as a DHT segment defines it.
pub struct DhtView {
    /// Table class: 0 for a DC table, 1 for an AC table.
    pub Tc: u8,
    /// Destination slot, 0 to 3.
    pub Th: u8,
    /// Number of codes of each length 1 to 16.
    pub Li: Seq<u8>,
    /// The symbol values, `sum_bytes(Li)` of them, in order of code length.
    pub Vij: Seq<u8>,
}

/// A frame header.
pub struct SofView {
    /// The marker byte that opened the header (0xC0 for baseline).
    pub sof: u8,
    /// Sample precision in bits.
    pub P: u8,
    /// Number of lines (image height).
    pub Y: u16,
    /// Samples per line (image width).
    pub X: u16,
    /// The frame components, in file order.
    pub components: Seq<FrameComponent>,
}

/// A scan header together with the extent of the entropy-coded data behind it.
pub struct SosView {
    /// The scan components, in file order.
    pub components: Seq<ScanComponent>,
    /// Start of spectral selection.
    pub Ss: u8,
    /// End of spectral selection.
    pub Se: u8,
    /// Successive approximation bit positions, high and low, packed.
    pub AhAl: u8,
    /// Offset of the first byte of entropy-coded data.
    pub data_start: int,
    /// Offset one past the last byte of entropy-coded data.
    pub data_end: int,
}

/// What a segment holds, by kind.
pub enum SegmentKindView {
    Dqt(Seq<DqtView>),
    Dht(Seq<DhtView>),
    Dri(Dri),
    Sof(SofView),
    Sos(SosView),
    Eoi,
    /// Any other marker, with the bounds of its payload.
    Other { marker: u8, start: int, end: int },
}

/// A segment located in a byte stream.
pub struct SegmentView {
    /// Offset of the segment's marker.
    pub pos: int,
    pub kind: SegmentKindView,
}

/// The quantization tables stored in `buf[at..end]`: one precision/slot byte
/// and 64 elements each, until the payload is used up.
///
/// A table with a non-zero precision, a slot above 3 or fewer than 65 bytes
/// left makes the whole payload malformed.
pub open spec fn dqt_tables(buf: Seq<u8>, at: int, end: int) -> Result<Seq<DqtView>, JpegError>
    recommends
        0 <= at <= end <= buf.len(),
    decreases end - at,
{
    if at >= end {
        Ok(Seq::empty())
    } else if end - at < 65 || high_nibble(buf[at]) != 0 || low_nibble(buf[at]) > 3 {
        Err(JpegError::MalformedSegment)
    } else {
        match dqt_tables(buf, at + 65, end) {
            Ok(rest) => Ok(
                seq![
                    DqtView {
                        Pq: high_nibble(buf[at]),
                        Tq: low_nibble(buf[at]),
                        Qk: buf.subrange(at + 1, at + 65),
                    },
                ] + rest,
            ),
            Err(e) => Err(e),
        }
    }
}

/// The Huffman tables stored in `buf[at..end]`: one class/slot byte, 16 code
/// counts and as many values as the counts add up to, until the payload is
/// used up.
///
/// A class above 1, a slot above 3 or a table that does not fit in the
/// payload makes the whole payload malformed.
pub open spec fn dht_tables(buf: Seq<u8>, at: int, end: int) -> Result<Seq<DhtView>, JpegError>
    recommends
        0 <= at <= end <= buf.len(),
    decreases end - at,
{
    if at >= end {
        Ok(Seq::empty())
    } else if end - at < 17 || high_nibble(buf[at]) > 1 || low_nibble(buf[at]) > 3 {
        Err(JpegError::MalformedSegment)
    } else if at + 17 + sum_bytes(buf.subrange(at + 1, at + 17)) > end {
        Err(JpegError::MalformedSegment)
    } else {
        match dht_tables(buf, at + 17 + sum_bytes(buf.subrange(at + 1, at + 17)), end) {
            Ok(rest) => Ok(
                seq![
                    DhtView {
                        Tc: high_nibble(buf[at]),
                        Th: low_nibble(buf[at]),
                        Li: buf.subrange(at + 1, at + 17),
                        Vij: buf.subrange(
                            at + 17,
                            at + 17 + sum_bytes(buf.subrange(at + 1, at + 17)),
                        ),
                    },
                ] + rest,
            ),
            Err(e) => Err(e),
        }
    }
}

/// The restart interval stored in the payload `buf[start..end]`, which must
/// be exactly two bytes.
pub open spec fn dri_value(buf: Seq<u8>, start: int, end: int) -> Result<Dri, JpegError> {
    if end - start != 2 {
        Err(JpegError::MalformedSegment)
    } else {
        Ok(Dri { Ri: be16(buf[start], buf[start + 1]) as u16 })
    }
}

/// `n` frame components of three bytes each, starting at `at`.
pub open spec fn frame_components(buf: Seq<u8>, at: int, n: int) -> Seq<FrameComponent> {
    Seq::new(
        n as nat,
        |i: int|
            FrameComponent {
                Ci: buf[at + 3 * i],
                HiVi: buf[at + 3 * i + 1],
                Tqi: buf[at + 3 * i + 2],
            },
    )
}

/// The frame header stored in the payload `buf[start..end]`: precision,
/// height, width, component count, then three bytes per component. The
/// payload length must match the component count exactly.
pub open spec fn sof_header(marker: u8, buf: Seq<u8>, start: int, end: int) -> Result<
    SofView,
    JpegError,
> {
    if end - start < 6 || end - start != 6 + 3 * buf[start + 5] {
        Err(JpegError::MalformedSegment)
    } else {
        Ok(
            SofView {
                sof: marker,
                P: buf[start],
                Y: be16(buf[start + 1], buf[start + 2]) as u16,
                X: be16(buf[start + 3], buf[start + 4]) as u16,
                components: frame_components(buf, start + 6, buf[start + 5] as int),
            },
        )
    }
}

/// `n` scan components of two bytes each, starting at `at`.
pub open spec fn scan_components(buf: Seq<u8>, at: int, n: int) -> Seq<ScanComponent> {
    Seq::new(
        n as nat,
        |i: int| ScanComponent { Csj: buf[at + 2 * i], TdjTaj: buf[at + 2 * i + 1] },
    )
}

/// The scan header stored in the payload `buf[start..end]`, with the
/// entropy-coded data that follows it: component count, two bytes per
/// component, then the spectral selection bounds and the packed successive
/// approximation positions. The payload length must match the component
/// count exactly, and the data must be terminated by a marker.
pub open spec fn sos_header(buf: Seq<u8>, start: int, end: int) -> Result<SosView, JpegError> {
    if end - start < 4 || end - start != 4 + 2 * buf[start] {
        Err(JpegError::MalformedSegment)
    } else if scan_data_end(buf, end) >= buf.len() {
        Err(JpegError::TruncatedImage)
    } else {
        Ok(
            SosView {
                components: scan_components(buf, start + 1, buf[start] as int),
                Ss: buf[end - 3],
                Se: buf[end - 2],
                AhAl: buf[end - 1],
                data_start: end,
                data_end: scan_data_end(buf, end),
            },
        )
    }
}

/// The content of the segment with marker byte `marker` and payload
/// `buf[start..end]`, and the offset at which scanning resumes behind it.
pub open spec fn segment_kind(buf: Seq<u8>, marker: u8, start: int, end: int) -> Result<
    (SegmentKindView, int),
    JpegError,
> {
    if marker == MARKER_DQT {
        match dqt_tables(buf, start, end) {
            Ok(tables) => Ok((SegmentKindView::Dqt(tables), end)),
            Err(e) => Err(e),
        }
    } else if marker == MARKER_DHT {
        match dht_tables(buf, start, end) {
            Ok(tables) => Ok((SegmentKindView::Dht(tables), end)),
            Err(e) => Err(e),
        }
    } else if marker == MARKER_DRI {
        match dri_value(buf, start, end) {
            Ok(dri) => Ok((SegmentKindView::Dri(dri), end)),
            Err(e) => Err(e),
        }
    } else if is_sof(marker) {
        match sof_header(marker, buf, start, end) {
            Ok(sof) => Ok((SegmentKindView::Sof(sof), end)),
            Err(e) => Err(e),
        }
    } else if marker == MARKER_SOS {
        match sos_header(buf, start, end) {
            Ok(sos) => Ok((SegmentKindView::Sos(sos), sos.data_end)),
            Err(e) => Err(e),
        }
    } else if marker == MARKER_EOI {
        Ok((SegmentKindView::Eoi, end))
    } else {
        Ok((SegmentKindView::Other { marker, start, end }, end))
    }
}

/// The next segment at or after offset `from`, with the offset at which
/// scanning resumes; `Ok(None)` when no marker follows.
pub open spec fn segment_at(buf: Seq<u8>, from: int) -> Result<
    Option<(SegmentView, int)>,
    JpegError,
> {
    let p = next_marker(buf, from);
    if p >= buf.len() {
        Ok(None)
    } else {
        match payload_bounds(buf, p) {
            Err(e) => Err(e),
            Ok((start, end)) => match segment_kind(buf, buf[p + 1], start, end) {
                Err(e) => Err(e),
                Ok((kind, next)) => Ok(Some((SegmentView { pos: p, kind }, next))),
            },
        }
    }
}

/// Every offset the segment content names lies in a buffer of `len` bytes,
/// and every range it names is in order.
pub open spec fn kind_lies_within(kind: SegmentKindView, len: int) -> bool {
    match kind {
        SegmentKindView::Sos(sos) => 0 <= sos.data_start <= sos.data_end <= len,
        SegmentKindView::Other { start, end, .. } => 0 <= start <= end <= len,
        _ => true,
    }
}

/// Scanning always makes progress and stays inside the buffer: a segment
/// found at or after `from` ends strictly behind `from`, and what it names
/// lies in the buffer. The data of a scan ends where scanning resumes.
pub proof fn lemma_segment_at_advances(buf: Seq<u8>, from: int)
    requires
        0 <= from <= buf.len(),
    ensures
        match segment_at(buf, from) {
            Ok(Some((seg, next))) => {
                &&& from <= seg.pos
                &&& seg.pos + 2 <= next <= buf.len()
                &&& kind_lies_within(seg.kind, buf.len() as int)
                &&& seg.kind matches SegmentKindView::Sos(sos) ==> sos.data_end == next
            },
            _ => true,
        },
{
    lemma_next_marker_is_first(buf, from);
    let p = next_marker(buf, from);
    if p < buf.len() {
        match payload_bounds(buf, p) {
            Ok((start, end)) => {
                lemma_scan_data_end_is_first(buf, end);
            },
            Err(_) => {},
        }
    }
}

} // verus!
