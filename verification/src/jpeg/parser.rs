//! A streaming parser for the marker segments of a JPEG file.

#![allow(non_snake_case)]

use vstd::prelude::*;
use super::error::JpegError;
use super::syntax::{
    be16, dht_tables, dqt_tables, dri_value, frame_components, high_nibble, is_marker_at, is_sof,
    is_standalone, lemma_next_marker_is_first, low_nibble, next_marker, payload_bounds,
    scan_components, scan_data_end, segment_at, segment_kind, sof_header, sos_header, sum_bytes,
    DhtView, DqtView, SegmentKindView, SegmentView, SofView, SosView, MARKER_DAC, MARKER_DHT,
    MARKER_DQT, MARKER_DRI, MARKER_EOI, MARKER_JPG, MARKER_RST0, MARKER_RST7, MARKER_SOF0,
    MARKER_SOF15, MARKER_SOS, MARKER_TEM,
};

verus! {

/// One quantization table from a DQT segment.
#[derive(Clone, Copy, Debug)]
pub struct Dqt {
    /// Element precision: 0 for 8-bit values.
    pub Pq: u8,
    /// Destination slot, 0 to 3.
    pub Tq: u8,
    /// The 64 table elements.
    pub Qk: [u8; 64],
}

/// One Huffman table from a DHT segment.
#[derive(Clone, Debug)]
pub struct Dht {
    /// Table class (0 = DC table, 1 = AC table).
    pub Tc: u8,
    /// Destination slot, 0 to 3.
    pub Th: u8,
    /// Number of codes of each length 1 to 16.
    pub Li: [u8; 16],
    /// The symbol values.
    pub Vij: Vec<u8>,
}

/// The restart interval defined by a DRI segment.
#[derive(Debug, Clone, Copy, PartialEq, Eq, Structural)]
pub struct Dri {
    /// MCUs between restart markers; 0 disables restart markers.
    pub Ri: u16,
}

/// One component of a frame header.
#[derive(Debug, Clone, Copy, PartialEq, Eq, Structural)]
pub struct FrameComponent {
    /// Component identifier.
    pub Ci: u8,
    /// Horizontal (high nibble) and vertical (low nibble) sampling factors.
    pub HiVi: u8,
    /// Quantization table selector.
    pub Tqi: u8,
}

/// One component of a scan header.
#[derive(Debug, Clone, Copy, PartialEq, Eq, Structural)]
pub struct ScanComponent {
    /// Selects the frame component this scan component refers to.
    pub Csj: u8,
    /// DC (high nibble) and AC (low nibble) entropy table selectors.
    pub TdjTaj: u8,
}

/// A frame header (SOF segment).
#[derive(Clone, Debug)]
pub struct Sof {
    /// The marker byte that opened the header (0xC0 for baseline).
    pub sof: u8,
    /// Sample precision in bits.
    pub P: u8,
    /// Number of lines (image height).
    pub Y: u16,
    /// Samples per line (image width).
    pub X: u16,
    /// The frame components, in file order.
    pub components: Vec<FrameComponent>,
}

/// A scan header (SOS segment) and the extent of the entropy-coded data
/// that follows it in the buffer.
#[derive(Clone, Debug)]
pub struct Sos {
    /// The scan components, in file order.
    pub components: Vec<ScanComponent>,
    /// Start of spectral selection.
    pub Ss: u8,
    /// End of spectral selection.
    pub Se: u8,
    /// Successive approximation bit positions, high and low, packed.
    pub AhAl: u8,
    /// Offset of the first byte of entropy-coded data.
    pub data_start: usize,
    /// Offset one past the last byte of entropy-coded data.
    pub data_end: usize,
}

/// What a segment holds, by kind.
#[derive(Clone, Debug)]
pub enum SegmentKind {
    Dqt(Vec<Dqt>),
    Dht(Vec<Dht>),
    Dri(Dri),
    Sof(Sof),
    Sos(Sos),
    Eoi,
    /// Any other marker, with the bounds of its payload in the buffer.
    Other { marker: u8, start: usize, end: usize },
}

/// A segment located in the input buffer.
#[derive(Clone, Debug)]
pub struct Segment {
    /// Offset of the segment's marker in the input buffer.
    pub pos: usize,
    pub kind: SegmentKind,
}

impl View for Dqt {
    type V = DqtView;

    open spec fn view(&self) -> DqtView {
        DqtView { Pq: self.Pq, Tq: self.Tq, Qk: self.Qk@ }
    }
}

impl View for Dht {
    type V = DhtView;

    open spec fn view(&self) -> DhtView {
        DhtView { Tc: self.Tc, Th: self.Th, Li: self.Li@, Vij: self.Vij@ }
    }
}

/// The tables of a decoded DQT segment, as mathematical values.
pub open spec fn dqt_views(tables: Seq<Dqt>) -> Seq<DqtView> {
    Seq::new(tables.len(), |i: int| tables[i]@)
}

/// The tables of a decoded DHT segment, as mathematical values.
pub open spec fn dht_views(tables: Seq<Dht>) -> Seq<DhtView> {
    Seq::new(tables.len(), |i: int| tables[i]@)
}

impl View for Sof {
    type V = SofView;

    open spec fn view(&self) -> SofView {
        SofView { sof: self.sof, P: self.P, Y: self.Y, X: self.X, components: self.components@ }
    }
}

impl View for Sos {
    type V = SosView;

    open spec fn view(&self) -> SosView {
        SosView {
            components: self.components@,
            Ss: self.Ss,
            Se: self.Se,
            AhAl: self.AhAl,
            data_start: self.data_start as int,
            data_end: self.data_end as int,
        }
    }
}

impl View for SegmentKind {
    type V = SegmentKindView;

    open spec fn view(&self) -> SegmentKindView {
        match *self {
            SegmentKind::Dqt(tables) => SegmentKindView::Dqt(dqt_views(tables@)),
            SegmentKind::Dht(tables) => SegmentKindView::Dht(dht_views(tables@)),
            SegmentKind::Dri(dri) => SegmentKindView::Dri(dri),
            SegmentKind::Sof(sof) => SegmentKindView::Sof(sof@),
            SegmentKind::Sos(sos) => SegmentKindView::Sos(sos@),
            SegmentKind::Eoi => SegmentKindView::Eoi,
            SegmentKind::Other { marker, start, end } => SegmentKindView::Other {
                marker,
                start: start as int,
                end: end as int,
            },
        }
    }
}

impl SegmentKind {
    /// Every offset the segment content names lies in a buffer of `len`
    /// bytes, and every range it names is in order.
    pub open spec fn lies_within(&self, len: int) -> bool {
        match *self {
            SegmentKind::Sos(sos) => sos.data_start <= sos.data_end <= len,
            SegmentKind::Other { start, end, .. } => start <= end <= len,
            _ => true,
        }
    }
}

impl Segment {
    /// The segment lies in a buffer of `len` bytes: its marker does, and so
    /// does every range its content names.
    pub open spec fn lies_within(&self, len: int) -> bool {
        self.pos + 2 <= len && self.kind.lies_within(len)
    }

    /// The marker byte of the segment, read from the buffer the segment
    /// was found in.
    pub fn marker(&self, buf: &[u8]) -> (r: u8)
        requires
            self.lies_within(buf.len() as int),
        ensures
            r == buf@[self.pos + 1],
    {
        buf[self.pos + 1]
    }

    /// The payload of a segment of a kind that is not decoded further,
    /// re-sliced from the buffer the segment was found in; `None` for the
    /// other kinds.
    pub fn payload<'a>(&self, buf: &'a [u8]) -> (r: Option<&'a [u8]>)
        requires
            self.lies_within(buf.len() as int),
        ensures
            match self.kind {
                SegmentKind::Other { start, end, .. } => r matches Some(bytes) && bytes@
                    == buf@.subrange(start as int, end as int),
                _ => r is None,
            },
    {
        match self.kind {
            SegmentKind::Other { start, end, .. } => Some(&buf[start..end]),
            _ => None,
        }
    }
}

impl View for Segment {
    type V = SegmentView;

    open spec fn view(&self) -> SegmentView {
        SegmentView { pos: self.pos as int, kind: self.kind@ }
    }
}

impl Dri {
    /// MCUs between restart markers; 0 means restart markers are disabled.
    #[inline]
    pub fn restart_interval(&self) -> (r: u16)
        ensures
            r == self.Ri,
    {
        self.Ri
    }
}

impl FrameComponent {
    /// The component identifier.
    #[inline]
    pub fn id(&self) -> (r: u8)
        ensures
            r == self.Ci,
    {
        self.Ci
    }

    /// The horizontal sampling factor: the high nibble of the packed byte.
    #[inline]
    pub fn horizontal_sampling_factor(&self) -> (r: u8)
        ensures
            r == high_nibble(self.HiVi),
    {
        self.HiVi >> 4
    }

    /// The vertical sampling factor: the low nibble of the packed byte.
    #[inline]
    pub fn vertical_sampling_factor(&self) -> (r: u8)
        ensures
            r == low_nibble(self.HiVi),
    {
        self.HiVi & 0xf
    }

    /// The quantization table selector.
    #[inline]
    pub fn quantization_table(&self) -> (r: u8)
        ensures
            r == self.Tqi,
    {
        self.Tqi
    }
}

impl ScanComponent {
    /// The selector of the frame component this scan component refers to.
    #[inline]
    pub fn id(&self) -> (r: u8)
        ensures
            r == self.Csj,
    {
        self.Csj
    }

    /// The DC entropy table selector: the high nibble of the packed byte.
    #[inline]
    pub fn dc_table(&self) -> (r: u8)
        ensures
            r == high_nibble(self.TdjTaj),
    {
        self.TdjTaj >> 4
    }

    /// The AC entropy table selector: the low nibble of the packed byte.
    #[inline]
    pub fn ac_table(&self) -> (r: u8)
        ensures
            r == low_nibble(self.TdjTaj),
    {
        self.TdjTaj & 0xf
    }
}

impl Sos {
    /// The successive approximation high bit position.
    #[inline]
    pub fn approximation_high(&self) -> (r: u8)
        ensures
            r == high_nibble(self.AhAl),
    {
        self.AhAl >> 4
    }

    /// The successive approximation low bit position.
    #[inline]
    pub fn approximation_low(&self) -> (r: u8)
        ensures
            r == low_nibble(self.AhAl),
    {
        self.AhAl & 0xf
    }

    /// The entropy-coded data of this scan, re-sliced from the buffer the
    /// segment was found in.
    pub fn data<'a>(&self, buf: &'a [u8]) -> (r: &'a [u8])
        requires
            self.data_start <= self.data_end <= buf.len(),
        ensures
            r@ == buf@.subrange(self.data_start as int, self.data_end as int),
    {
        &buf[self.data_start..self.data_end]
    }
}

/// Reads a big-endian 16-bit value.
fn read_be16(buf: &[u8], at: usize) -> (r: u16)
    requires
        at + 2 <= buf.len(),
    ensures
        r == be16(buf@[at as int], buf@[at + 1]),
{
    (buf[at] as u16) * 256 + (buf[at + 1] as u16)
}

/// Finds the first marker at or after `from`.
fn find_marker(buf: &[u8], from: usize) -> (p: usize)
    requires
        from <= buf.len(),
    ensures
        p == next_marker(buf@, from as int),
        from <= p <= buf.len(),
{
    let mut p: usize = from;
    while p < buf.len()
        invariant
            from <= p <= buf.len(),
            next_marker(buf@, from as int) == next_marker(buf@, p as int),
        decreases buf.len() - p,
    {
        if buf[p] == 0xFF && p + 1 < buf.len() && buf[p + 1] != 0x00 && buf[p + 1] != 0xFF {
            return p;
        }
        p += 1;
    }
    p
}

/// Finds the end of the entropy-coded data that starts at `from`.
fn find_scan_data_end(buf: &[u8], from: usize) -> (p: usize)
    requires
        from <= buf.len(),
    ensures
        p == scan_data_end(buf@, from as int),
        from <= p <= buf.len(),
{
    let mut p: usize = from;
    while p < buf.len()
        invariant
            from <= p <= buf.len(),
            scan_data_end(buf@, from as int) == scan_data_end(buf@, p as int),
        decreases buf.len() - p,
    {
        if buf[p] == 0xFF && p + 1 < buf.len() && buf[p + 1] != 0x00 && !(MARKER_RST0 <= buf[p
            + 1] && buf[p + 1] <= MARKER_RST7) {
            return p;
        }
        p += 1;
    }
    p
}

/// Whether a marker byte is one of the stand-alone markers.
fn marker_is_standalone(marker: u8) -> (r: bool)
    ensures
        r == is_standalone(marker),
{
    marker == MARKER_TEM || (MARKER_RST0 <= marker && marker <= MARKER_EOI)
}

/// Whether a marker byte opens a frame header.
fn marker_is_sof(marker: u8) -> (r: bool)
    ensures
        r == is_sof(marker),
{
    MARKER_SOF0 <= marker && marker <= MARKER_SOF15 && marker != MARKER_DHT && marker
        != MARKER_JPG && marker != MARKER_DAC
}

/// Reads the payload bounds of the segment whose marker is at `p`.
fn read_payload_bounds(buf: &[u8], p: usize) -> (r: Result<(usize, usize), JpegError>)
    requires
        is_marker_at(buf@, p as int),
        p + 1 < buf.len(),
    ensures
        match payload_bounds(buf@, p as int) {
            Ok((start, end)) => r == Ok::<(usize, usize), JpegError>((start as usize, end as usize))
                && p + 2 <= start <= end <= buf.len(),
            Err(e) => r == Err::<(usize, usize), JpegError>(e),
        },
{
    if marker_is_standalone(buf[p + 1]) {
        return Ok((p + 2, p + 2));
    }
    if buf.len() - p < 4 {
        return Err(JpegError::UnexpectedEof);
    }
    let length: usize = read_be16(buf, p + 2) as usize;
    if length < 2 {
        return Err(JpegError::MalformedSegment);
    }
    if buf.len() - p - 2 < length {
        return Err(JpegError::UnexpectedEof);
    }
    Ok((p + 4, p + 2 + length))
}

/// Decodes the tables of a DQT payload.
fn read_dqt(buf: &[u8], start: usize, end: usize) -> (r: Result<Vec<Dqt>, JpegError>)
    requires
        start <= end <= buf.len(),
    ensures
        match dqt_tables(buf@, start as int, end as int) {
            Ok(tables) => r matches Ok(v) && dqt_views(v@) == tables,
            Err(e) => r matches Err(x) && x == e,
        },
{
    let mut tables: Vec<Dqt> = Vec::new();
    let mut at: usize = start;
    while at < end
        invariant
            start <= at <= end <= buf.len(),
            dqt_tables(buf@, start as int, end as int) == (match dqt_tables(
                buf@,
                at as int,
                end as int,
            ) {
                Ok(rest) => Ok::<Seq<DqtView>, JpegError>(dqt_views(tables@) + rest),
                Err(e) => Err::<Seq<DqtView>, JpegError>(e),
            }),
        decreases end - at,
    {
        if end - at < 65 {
            return Err(JpegError::MalformedSegment);
        }
        let b: u8 = buf[at];
        if (b >> 4) != 0 || (b & 0x0f) > 3 {
            return Err(JpegError::MalformedSegment);
        }
        let mut qk: [u8; 64] = [0u8; 64];
        let mut i: usize = 0;
        while i < 64
            invariant
                i <= 64,
                at + 65 <= buf.len(),
                forall|j: int| 0 <= j < i ==> qk@[j] == buf@[at + 1 + j],
            decreases 64 - i,
        {
            qk[i] = buf[at + 1 + i];
            i += 1;
        }
        let table = Dqt { Pq: b >> 4, Tq: b & 0x0f, Qk: qk };
        proof {
            assert(table@.Qk =~= buf@.subrange(at + 1, at + 65));
            let rest = dqt_tables(buf@, at + 65, end as int);
            if rest is Ok {
                assert(dqt_views(tables@.push(table)) + rest->Ok_0 =~= dqt_views(tables@) + (
                seq![table@] + rest->Ok_0));
            }
        }
        tables.push(table);
        at += 65;
    }
    proof {
        assert(dqt_views(tables@) + Seq::<DqtView>::empty() =~= dqt_views(tables@));
    }
    Ok(tables)
}

/// Adds up the 16 code counts of a Huffman table, copying them on the way.
fn read_code_counts(buf: &[u8], at: usize) -> (r: ([u8; 16], usize))
    requires
        at + 16 <= buf.len(),
    ensures
        r.0@ == buf@.subrange(at as int, at + 16),
        r.1 == sum_bytes(buf@.subrange(at as int, at + 16)),
        r.1 <= 16 * 255,
{
    let mut counts: [u8; 16] = [0u8; 16];
    let mut total: usize = 0;
    let mut i: usize = 0;
    while i < 16
        invariant
            i <= 16,
            at + 16 <= buf.len(),
            forall|j: int| 0 <= j < i ==> counts@[j] == buf@[at + j],
            total == sum_bytes(buf@.subrange(at as int, at + i)),
            total <= i * 255,
        decreases 16 - i,
    {
        counts[i] = buf[at + i];
        proof {
            assert(buf@.subrange(at as int, at + i + 1).drop_last() =~= buf@.subrange(
                at as int,
                at + i,
            ));
        }
        total += buf[at + i] as usize;
        i += 1;
    }
    proof {
        assert(counts@ =~= buf@.subrange(at as int, at + 16));
    }
    (counts, total)
}

/// Copies `buf[from..to]` into a fresh vector.
fn copy_range(buf: &[u8], from: usize, to: usize) -> (v: Vec<u8>)
    requires
        from <= to <= buf.len(),
    ensures
        v@ == buf@.subrange(from as int, to as int),
{
    let mut v: Vec<u8> = Vec::new();
    let mut i: usize = from;
    while i < to
        invariant
            from <= i <= to <= buf.len(),
            v@ == buf@.subrange(from as int, i as int),
        decreases to - i,
    {
        v.push(buf[i]);
        proof {
            assert(v@ =~= buf@.subrange(from as int, i + 1));
        }
        i += 1;
    }
    v
}

/// Decodes the tables of a DHT payload.
fn read_dht(buf: &[u8], start: usize, end: usize) -> (r: Result<Vec<Dht>, JpegError>)
    requires
        start <= end <= buf.len(),
    ensures
        match dht_tables(buf@, start as int, end as int) {
            Ok(tables) => r matches Ok(v) && dht_views(v@) == tables,
            Err(e) => r matches Err(x) && x == e,
        },
{
    let mut tables: Vec<Dht> = Vec::new();
    let mut at: usize = start;
    while at < end
        invariant
            start <= at <= end <= buf.len(),
            dht_tables(buf@, start as int, end as int) == (match dht_tables(
                buf@,
                at as int,
                end as int,
            ) {
                Ok(rest) => Ok::<Seq<DhtView>, JpegError>(dht_views(tables@) + rest),
                Err(e) => Err::<Seq<DhtView>, JpegError>(e),
            }),
        decreases end - at,
    {
        if end - at < 17 {
            return Err(JpegError::MalformedSegment);
        }
        let b: u8 = buf[at];
        if (b >> 4) > 1 || (b & 0x0f) > 3 {
            return Err(JpegError::MalformedSegment);
        }
        let (counts, total) = read_code_counts(buf, at + 1);
        if end - at - 17 < total {
            return Err(JpegError::MalformedSegment);
        }
        let values = copy_range(buf, at + 17, at + 17 + total);
        let table = Dht { Tc: b >> 4, Th: b & 0x0f, Li: counts, Vij: values };
        proof {
            let rest = dht_tables(buf@, at + 17 + total, end as int);
            if rest is Ok {
                assert(dht_views(tables@.push(table)) + rest->Ok_0 =~= dht_views(tables@) + (
                seq![table@] + rest->Ok_0));
            }
        }
        tables.push(table);
        at = at + 17 + total;
    }
    proof {
        assert(dht_views(tables@) + Seq::<DhtView>::empty() =~= dht_views(tables@));
    }
    Ok(tables)
}

/// Decodes a DRI payload.
fn read_dri(buf: &[u8], start: usize, end: usize) -> (r: Result<Dri, JpegError>)
    requires
        start <= end <= buf.len(),
    ensures
        r == dri_value(buf@, start as int, end as int),
{
    if end - start != 2 {
        return Err(JpegError::MalformedSegment);
    }
    Ok(Dri { Ri: read_be16(buf, start) })
}

/// Decodes a frame header payload.
fn read_sof(marker: u8, buf: &[u8], start: usize, end: usize) -> (r: Result<Sof, JpegError>)
    requires
        start <= end <= buf.len(),
    ensures
        match sof_header(marker, buf@, start as int, end as int) {
            Ok(sof) => r matches Ok(s) && s@ == sof,
            Err(e) => r matches Err(x) && x == e,
        },
{
    if end - start < 6 {
        return Err(JpegError::MalformedSegment);
    }
    let count: usize = buf[start + 5] as usize;
    if end - start != 6 + 3 * count {
        return Err(JpegError::MalformedSegment);
    }
    let mut components: Vec<FrameComponent> = Vec::new();
    let mut i: usize = 0;
    while i < count
        invariant
            i <= count,
            start + 6 + 3 * count == end,
            end <= buf.len(),
            components@.len() == i,
            forall|j: int| 0 <= j < i ==> components@[j] == frame_components(
                buf@,
                start + 6,
                count as int,
            )[j],
        decreases count - i,
    {
        let at: usize = start + 6 + 3 * i;
        components.push(FrameComponent { Ci: buf[at], HiVi: buf[at + 1], Tqi: buf[at + 2] });
        i += 1;
    }
    proof {
        assert(components@ =~= frame_components(buf@, start + 6, count as int));
    }
    Ok(
        Sof {
            sof: marker,
            P: buf[start],
            Y: read_be16(buf, start + 1),
            X: read_be16(buf, start + 3),
            components,
        },
    )
}

/// Decodes a scan header payload and measures the entropy-coded data
/// behind it.
fn read_sos(buf: &[u8], start: usize, end: usize) -> (r: Result<Sos, JpegError>)
    requires
        start <= end <= buf.len(),
    ensures
        match sos_header(buf@, start as int, end as int) {
            Ok(sos) => r matches Ok(s) && s@ == sos && s.data_start == end && end <= s.data_end
                < buf.len(),
            Err(e) => r matches Err(x) && x == e,
        },
{
    if end - start < 4 {
        return Err(JpegError::MalformedSegment);
    }
    let count: usize = buf[start] as usize;
    if end - start != 4 + 2 * count {
        return Err(JpegError::MalformedSegment);
    }
    let data_end = find_scan_data_end(buf, end);
    if data_end >= buf.len() {
        return Err(JpegError::TruncatedImage);
    }
    let mut components: Vec<ScanComponent> = Vec::new();
    let mut i: usize = 0;
    while i < count
        invariant
            i <= count,
            start + 4 + 2 * count == end,
            end <= buf.len(),
            components@.len() == i,
            forall|j: int| 0 <= j < i ==> components@[j] == scan_components(
                buf@,
                start + 1,
                count as int,
            )[j],
        decreases count - i,
    {
        let at: usize = start + 1 + 2 * i;
        components.push(ScanComponent { Csj: buf[at], TdjTaj: buf[at + 1] });
        i += 1;
    }
    proof {
        assert(components@ =~= scan_components(buf@, start + 1, count as int));
    }
    Ok(
        Sos {
            components,
            Ss: buf[end - 3],
            Se: buf[end - 2],
            AhAl: buf[end - 1],
            data_start: end,
            data_end,
        },
    )
}

/// Decodes the content of the segment with marker byte `marker` and payload
/// `buf[start..end]`.
fn read_segment_kind(buf: &[u8], marker: u8, start: usize, end: usize) -> (r: Result<
    (SegmentKind, usize),
    JpegError,
>)
    requires
        start <= end <= buf.len(),
    ensures
        match segment_kind(buf@, marker, start as int, end as int) {
            Ok((kind, next)) => r matches Ok((k, n)) && k@ == kind && n == next && end <= n
                <= buf.len() && k.lies_within(buf.len() as int),
            Err(e) => r matches Err(x) && x == e,
        },
{
    if marker == MARKER_DQT {
        match read_dqt(buf, start, end) {
            Ok(tables) => Ok((SegmentKind::Dqt(tables), end)),
            Err(e) => Err(e),
        }
    } else if marker == MARKER_DHT {
        match read_dht(buf, start, end) {
            Ok(tables) => Ok((SegmentKind::Dht(tables), end)),
            Err(e) => Err(e),
        }
    } else if marker == MARKER_DRI {
        match read_dri(buf, start, end) {
            Ok(dri) => Ok((SegmentKind::Dri(dri), end)),
            Err(e) => Err(e),
        }
    } else if marker_is_sof(marker) {
        match read_sof(marker, buf, start, end) {
            Ok(sof) => Ok((SegmentKind::Sof(sof), end)),
            Err(e) => Err(e),
        }
    } else if marker == MARKER_SOS {
        match read_sos(buf, start, end) {
            Ok(sos) => {
                let next = sos.data_end;
                Ok((SegmentKind::Sos(sos), next))
            },
            Err(e) => Err(e),
        }
    } else if marker == MARKER_EOI {
        Ok((SegmentKind::Eoi, end))
    } else {
        Ok((SegmentKind::Other { marker, start, end }, end))
    }
}

/// A cursor over the marker segments of a JPEG byte buffer.
///
/// Segments are produced one at a time, in stream order, by
/// [`next_segment`](JpegParser::next_segment). The parser borrows the buffer
/// and never copies entropy-coded data.
pub struct JpegParser<'a> {
    buf: &'a [u8],
    pos: usize,
}

impl<'a> JpegParser<'a> {
    /// The bytes being parsed.
    pub closed spec fn bytes(&self) -> Seq<u8> {
        self.buf@
    }

    /// The offset at which the search for the next segment starts.
    pub closed spec fn cursor(&self) -> int {
        self.pos as int
    }

    #[verifier::type_invariant]
    spec fn in_bounds(&self) -> bool {
        self.pos <= self.buf.len()
    }

    /// Creates a parser positioned at the start of `buf`.
    pub fn new(buf: &'a [u8]) -> (r: Self)
        ensures
            r.bytes() == buf@,
            r.cursor() == 0,
    {
        Self { buf, pos: 0 }
    }

    /// The offset at which the search for the next segment starts.
    pub fn position(&self) -> (r: usize)
        ensures
            r == self.cursor(),
            r <= self.bytes().len(),
    {
        proof {
            use_type_invariant(self);
        }
        self.pos
    }

    /// Produces the next segment at or after the cursor and moves the cursor
    /// behind it, or returns `Ok(None)` when no marker follows.
    ///
    /// Bytes in front of the next marker (fill bytes, stuffed pairs, stray
    /// data) are skipped. On an error the cursor stays where it was.
    pub fn next_segment(&mut self) -> (r: Result<Option<Segment>, JpegError>)
        ensures
            final(self).bytes() == old(self).bytes(),
            match segment_at(old(self).bytes(), old(self).cursor()) {
                Ok(Some((segment, next))) => {
                    &&& r matches Ok(Some(s)) && s@ == segment && s.lies_within(
                        old(self).bytes().len() as int,
                    )
                    &&& final(self).cursor() == next
                },
                Ok(None) => r matches Ok(None) && final(self).cursor() == old(self).bytes().len(),
                Err(e) => r matches Err(x) && x == e && final(self).cursor() == old(self).cursor(),
            },
    {
        proof {
            use_type_invariant(&*self);
        }
        let buf = self.buf;
        let p = find_marker(buf, self.pos);
        if p >= buf.len() {
            self.pos = buf.len();
            return Ok(None);
        }
        proof {
            lemma_next_marker_is_first(buf@, self.pos as int);
        }
        let (start, end) = match read_payload_bounds(buf, p) {
            Ok(bounds) => bounds,
            Err(e) => {
                return Err(e);
            },
        };
        match read_segment_kind(buf, buf[p + 1], start, end) {
            Ok((kind, next)) => {
                self.pos = next;
                Ok(Some(Segment { pos: p, kind }))
            },
            Err(e) => Err(e),
        }
    }
}

} // verus!
