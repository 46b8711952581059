//! What holds of every decode.
//!
//! The laws here are proved from the definitions in
//! [`syntax`](super::syntax) and [`decode`](super::decode) alone: a
//! single-scan baseline JPEG always decodes, to exactly the frame and scan
//! header it holds; a quantization table with a precision other than 8 bits
//! and a frame header other than a baseline one always end the decode; a
//! file that stops behind its first segment is a truncated image; and the
//! parameters of every decode that succeeds are sound.

#![allow(non_snake_case)]

use vstd::prelude::*;
use super::decode::{
    accept_frame, accept_scan, decode, dht_fits, dqt_fits, fold_dht, fold_dqt, has_zero_factor,
    lemma_ceiling_division, lemma_max_factors, max_h_factor, max_v_factor, mcu_count,
    picture_component, picture_components, run, slice_component, slice_components, step,
    DecodeParametersView, DecodeStateView, Phase,
};
use super::error::JpegError;
use super::syntax::{
    dqt_tables, high_nibble, kind_lies_within, lemma_next_marker_is_first,
    lemma_segment_at_advances, next_marker, payload_bounds, segment_at, DhtView, DqtView,
    SegmentKindView, SegmentView, SofView, SosView, MARKER_SOF0,
};
use super::{ColorSpace, HuffmanTableBufferView, IQMatrixView, PictureView, SliceView};
use crate::{Rotation, SliceDataFlags};

verus! {

/// A DQT payload either is malformed or yields tables that can all be
/// stored, 64 elements each. In particular a table with a non-zero
/// precision field never yields a table: it makes the segment malformed.
pub proof fn lemma_dqt_tables_fit(buf: Seq<u8>, at: int, end: int)
    requires
        0 <= at <= end <= buf.len(),
    ensures
        match dqt_tables(buf, at, end) {
            Ok(tables) => forall|i: int|
                0 <= i < tables.len() ==> dqt_fits(#[trigger] tables[i]) && tables[i].Qk.len()
                    == 64,
            Err(e) => e == JpegError::MalformedSegment,
        },
        at < end && high_nibble(buf[at]) != 0 ==> dqt_tables(buf, at, end) == Err::<
            Seq<DqtView>,
            JpegError,
        >(JpegError::MalformedSegment),
    decreases end - at,
{
    if at < end && end - at >= 65 {
        lemma_dqt_tables_fit(buf, at + 65, end);
    }
}

/// Folding DQT tables succeeds exactly when every table can be stored, and
/// fails as malformed otherwise.
pub proof fn lemma_fold_dqt_succeeds(quant: IQMatrixView, tables: Seq<DqtView>)
    ensures
        fold_dqt(quant, tables) is Ok <==> forall|i: int|
            0 <= i < tables.len() ==> dqt_fits(#[trigger] tables[i]),
        fold_dqt(quant, tables) matches Err(e) ==> e == JpegError::MalformedSegment,
    decreases tables.len(),
{
    if tables.len() > 0 {
        lemma_fold_dqt_succeeds(quant, tables.drop_last());
        if fold_dqt(quant, tables) is Ok {
            assert forall|i: int| 0 <= i < tables.len() implies dqt_fits(#[trigger] tables[i]) by {
                if i < tables.len() - 1 {
                    assert(tables.drop_last()[i] == tables[i]);
                }
            }
        } else if fold_dqt(quant, tables.drop_last()) is Ok {
            assert(!dqt_fits(tables[tables.len() - 1]));
        } else {
            let j = choose|j: int|
                0 <= j < tables.drop_last().len() && !dqt_fits(#[trigger] tables.drop_last()[j]);
            assert(tables.drop_last()[j] == tables[j]);
        }
    }
}

/// Folding DHT tables succeeds exactly when every table can be stored, and
/// fails as malformed otherwise.
pub proof fn lemma_fold_dht_succeeds(huffman: HuffmanTableBufferView, tables: Seq<DhtView>)
    ensures
        fold_dht(huffman, tables) is Ok <==> forall|i: int|
            0 <= i < tables.len() ==> dht_fits(#[trigger] tables[i]),
        fold_dht(huffman, tables) matches Err(e) ==> e == JpegError::MalformedSegment,
    decreases tables.len(),
{
    if tables.len() > 0 {
        lemma_fold_dht_succeeds(huffman, tables.drop_last());
        if fold_dht(huffman, tables) is Ok {
            assert forall|i: int| 0 <= i < tables.len() implies dht_fits(#[trigger] tables[i]) by {
                if i < tables.len() - 1 {
                    assert(tables.drop_last()[i] == tables[i]);
                }
            }
        } else if fold_dht(huffman, tables.drop_last()) is Ok {
            assert(!dht_fits(tables[tables.len() - 1]));
        } else {
            let j = choose|j: int|
                0 <= j < tables.drop_last().len() && !dht_fits(#[trigger] tables.drop_last()[j]);
            assert(tables.drop_last()[j] == tables[j]);
        }
    }
}

/// A frame header that a decode accepts whatever came before it: baseline
/// (SOF0), 8-bit samples, non-zero size, 1 to 255 components, no sampling
/// factor of zero.
pub open spec fn is_baseline_frame(sof: SofView) -> bool {
    &&& sof.sof == MARKER_SOF0
    &&& sof.P == 8
    &&& sof.X != 0
    &&& sof.Y != 0
    &&& 0 < sof.components.len() <= 255
    &&& !has_zero_factor(picture_components(sof.components))
}

/// A scan header that a decode accepts behind a baseline frame header: full
/// spectrum, no successive approximation, 1 to 4 components, and data that
/// a 32-bit size can express.
pub open spec fn is_baseline_scan(sos: SosView) -> bool {
    &&& sos.Ss == 0
    &&& sos.Se == 63
    &&& sos.AhAl == 0
    &&& 0 < sos.components.len() <= 4
    &&& 0 <= sos.data_end - sos.data_start <= u32::MAX
}

/// The picture parameters that the frame header `frame` stands for.
pub open spec fn picture_of(frame: SofView) -> PictureView {
    PictureView {
        picture_width: frame.X,
        picture_height: frame.Y,
        components: picture_components(frame.components),
        color_space: ColorSpace(ColorSpace::YUV),
        rotation: Rotation(Rotation::NONE),
    }
}

/// Read from offset `from` on by a decode in phase `phase`, `buf` has the
/// shape of a single-scan baseline JPEG with the frame header `frame` and
/// the scan header `scan`: every segment parses; `frame` is the only frame
/// header and is a baseline one; `scan` is the only scan header and follows
/// it; the Huffman tables in front of the scan can be stored; and an EOI
/// follows the scan.
pub open spec fn is_baseline_stream(
    buf: Seq<u8>,
    from: int,
    phase: Phase,
    frame: SofView,
    scan: SosView,
) -> bool
    decreases buf.len() - from,
    when 0 <= from <= buf.len()
{
    match segment_at(buf, from) {
        Ok(Some((segment, next))) => {
            proof {
                lemma_segment_at_advances(buf, from);
            }
            match segment.kind {
                SegmentKindView::Sof(sof) => {
                    &&& phase == Phase::AwaitFrame
                    &&& sof == frame
                    &&& is_baseline_frame(frame)
                    &&& is_baseline_stream(buf, next, Phase::AwaitScan, frame, scan)
                },
                SegmentKindView::Sos(sos) => {
                    &&& phase == Phase::AwaitScan
                    &&& sos == scan
                    &&& is_baseline_scan(scan)
                    &&& is_baseline_stream(buf, next, Phase::Ready, frame, scan)
                },
                SegmentKindView::Eoi => phase == Phase::Ready,
                SegmentKindView::Dht(tables) => {
                    &&& phase == Phase::Ready || forall|i: int|
                        0 <= i < tables.len() ==> dht_fits(#[trigger] tables[i])
                    &&& is_baseline_stream(buf, next, phase, frame, scan)
                },
                _ => is_baseline_stream(buf, next, phase, frame, scan),
            }
        },
        _ => false,
    }
}

/// A decode that stands in a baseline stream, with what it has accepted so
/// far matching the stream's headers, ends ready, holding the picture that
/// the frame header stands for and the scan's components and data extent.
pub proof fn lemma_baseline_stream_runs(
    buf: Seq<u8>,
    from: int,
    state: DecodeStateView,
    frame: SofView,
    scan: SosView,
)
    requires
        0 <= from <= buf.len(),
        is_baseline_stream(buf, from, state.phase(), frame, scan),
        state.expected matches Some(size) ==> size == (frame.X, frame.Y),
        state.phase() != Phase::AwaitFrame ==> is_baseline_frame(frame) && state.picture == Some(
            picture_of(frame),
        ),
        state.phase() == Phase::Ready ==> state.slice->Some_0.components == slice_components(
            scan.components,
        ) && state.data_start == scan.data_start && state.data_end == scan.data_end,
    ensures
        run(buf, from, state) matches Ok(end) && end.phase() == Phase::Ready && end.picture
            == Some(picture_of(frame)) && end.slice->Some_0.components == slice_components(
            scan.components,
        ) && end.data_start == scan.data_start && end.data_end == scan.data_end,
    decreases buf.len() - from,
{
    lemma_segment_at_advances(buf, from);
    let (segment, next) = segment_at(buf, from)->Ok_0->Some_0;
    if state.phase() == Phase::Ready {
        if !(segment.kind is Eoi) {
            assert(step(state, segment.kind) == Ok::<DecodeStateView, JpegError>(state));
            assert(is_baseline_stream(buf, next, state.phase(), frame, scan));
            lemma_baseline_stream_runs(buf, next, state, frame, scan);
        }
    } else {
        match segment.kind {
            SegmentKindView::Dqt(tables) => {
                lemma_dqt_segment_fits(buf, from);
                lemma_fold_dqt_succeeds(state.quant, tables);
                let after = step(state, segment.kind)->Ok_0;
                assert(after.phase() == state.phase());
                lemma_baseline_stream_runs(buf, next, after, frame, scan);
            },
            SegmentKindView::Dht(tables) => {
                lemma_fold_dht_succeeds(state.huffman, tables);
                let after = step(state, segment.kind)->Ok_0;
                assert(after.phase() == state.phase());
                lemma_baseline_stream_runs(buf, next, after, frame, scan);
            },
            SegmentKindView::Dri(dri) => {
                let after = step(state, segment.kind)->Ok_0;
                assert(after.phase() == state.phase());
                lemma_baseline_stream_runs(buf, next, after, frame, scan);
            },
            SegmentKindView::Sof(sof) => {
                assert(state.phase() == Phase::AwaitFrame);
                assert(sof == frame);
                let after = accept_frame(state, sof)->Ok_0;
                assert(after.phase() == Phase::AwaitScan);
                lemma_baseline_stream_runs(buf, next, after, frame, scan);
            },
            SegmentKindView::Sos(sos) => {
                assert(state.phase() == Phase::AwaitScan);
                lemma_max_factors(picture_components(frame.components));
                let after = accept_scan(state, sos)->Ok_0;
                assert(after.phase() == Phase::Ready);
                lemma_baseline_stream_runs(buf, next, after, frame, scan);
            },
            SegmentKindView::Eoi => {
                assert(false);
            },
            SegmentKindView::Other { .. } => {
                lemma_baseline_stream_runs(buf, next, state, frame, scan);
            },
        }
    }
}

/// A single-scan baseline JPEG decodes, and its parameters hold exactly one
/// picture with the components of its frame header and exactly one slice
/// with the components of its scan header, each in file order.
pub proof fn lemma_baseline_jpeg_yields_its_headers(
    buf: Seq<u8>,
    expected: Option<(u16, u16)>,
    frame: SofView,
    scan: SosView,
)
    requires
        is_baseline_stream(buf, 0, Phase::AwaitFrame, frame, scan),
        expected matches Some(size) ==> size == (frame.X, frame.Y),
    ensures
        decode(buf, expected) matches Ok(parameters) && {
            &&& parameters.picture == picture_of(frame)
            &&& parameters.picture.components.len() == frame.components.len()
            &&& forall|i: int|
                0 <= i < frame.components.len() ==> parameters.picture.components[i]
                    == picture_component(#[trigger] frame.components[i])
            &&& parameters.slice.components.len() == scan.components.len()
            &&& forall|i: int|
                0 <= i < scan.components.len() ==> parameters.slice.components[i]
                    == slice_component(#[trigger] scan.components[i])
            &&& parameters.data_start == scan.data_start
            &&& parameters.data_end == scan.data_end
        },
{
    lemma_baseline_stream_runs(buf, 0, DecodeStateView::initial(expected), frame, scan);
}

/// The tables of a DQT segment found by the scanner can all be stored.
pub proof fn lemma_dqt_segment_fits(buf: Seq<u8>, from: int)
    requires
        0 <= from <= buf.len(),
    ensures
        segment_at(buf, from) matches Ok(Some((segment, _))) ==> (segment.kind
            matches SegmentKindView::Dqt(tables) ==> forall|i: int|
            0 <= i < tables.len() ==> dqt_fits(#[trigger] tables[i])),
{
    lemma_next_marker_is_first(buf, from);
    let p = next_marker(buf, from);
    if p < buf.len() {
        match payload_bounds(buf, p) {
            Ok((start, end)) => {
                lemma_dqt_tables_fit(buf, start, end);
            },
            Err(_) => {},
        }
    }
}

/// A frame header other than a baseline one (SOF0), met while the frame
/// header is awaited, ends the decode: the codec is unsupported.
pub proof fn lemma_non_baseline_frame_is_unsupported(
    buf: Seq<u8>,
    from: int,
    state: DecodeStateView,
    sof: SofView,
)
    requires
        0 <= from <= buf.len(),
        state.phase() == Phase::AwaitFrame,
        sof.sof != MARKER_SOF0,
    ensures
        step(state, SegmentKindView::Sof(sof)) == Err::<DecodeStateView, JpegError>(
            JpegError::UnsupportedCodec,
        ),
        (segment_at(buf, from) matches Ok(Some((segment, _))) && segment.kind
            == SegmentKindView::Sof(sof)) ==> run(buf, from, state) == Err::<
            DecodeStateView,
            JpegError,
        >(JpegError::UnsupportedCodec),
{
}

/// A stream in which nothing follows the first segment is a truncated
/// image, whatever that segment is, unless the segment itself is refused.
pub proof fn lemma_lone_segment_is_truncated(buf: Seq<u8>, expected: Option<(u16, u16)>)
    requires
        segment_at(buf, 0) matches Ok(Some((_, next))) && segment_at(buf, next) == Ok::<
            Option<(SegmentView, int)>,
            JpegError,
        >(None),
    ensures
        decode(buf, expected) is Err,
        step(DecodeStateView::initial(expected), segment_at(buf, 0)->Ok_0->Some_0.0.kind) is Ok
            ==> decode(buf, expected) == Err::<DecodeParametersView, JpegError>(
            JpegError::TruncatedImage,
        ),
{
    lemma_segment_at_advances(buf, 0);
    let (segment, next) = segment_at(buf, 0)->Ok_0->Some_0;
    let initial = DecodeStateView::initial(expected);
    match step(initial, segment.kind) {
        Ok(after) => {
            assert(after.slice is None);
            assert(run(buf, next, after) == Ok::<DecodeStateView, JpegError>(after));
        },
        Err(_) => {},
    }
}

/// The picture parameters are those of a picture that can be decoded:
/// non-zero size, the expected one if one is expected, 1 to 255 components
/// without a sampling factor of zero, tagged YUV and not rotated.
pub open spec fn picture_is_sound(picture: PictureView, expected: Option<(u16, u16)>) -> bool {
    &&& picture.picture_width >= 1
    &&& picture.picture_height >= 1
    &&& expected matches Some(size) ==> picture.picture_width == size.0 && picture.picture_height
        == size.1
    &&& 1 <= picture.components.len() <= 255
    &&& !has_zero_factor(picture.components)
    &&& picture.color_space == ColorSpace(ColorSpace::YUV)
    &&& picture.rotation == Rotation(Rotation::NONE)
}

/// The slice parameters belong to the picture and to the data extent: 1 to
/// 4 components, the whole data as one slice that starts at offset 0 of its
/// buffer, and the MCU count that the picture's size and largest sampling
/// factors give, which is at least 1.
pub open spec fn slice_is_sound(
    slice: SliceView,
    picture: PictureView,
    data_start: int,
    data_end: int,
    len: int,
) -> bool {
    &&& 1 <= slice.components.len() <= 4
    &&& 0 <= data_start <= data_end <= len
    &&& slice.base.slice_data_size == data_end - data_start
    &&& slice.base.slice_data_offset == 0
    &&& slice.base.slice_data_flags == SliceDataFlags(SliceDataFlags::ALL)
    &&& slice.slice_horizontal_position == 0
    &&& slice.slice_vertical_position == 0
    &&& slice.num_mcus >= 1
    &&& slice.num_mcus == mcu_count(
        picture.picture_width as int,
        picture.picture_height as int,
        max_h_factor(picture.components) as int,
        max_v_factor(picture.components) as int,
    )
}

/// What holds of the state of every decode of a buffer of `len` bytes,
/// whatever the buffer holds: there are 4 quantization and 2 Huffman
/// tables, and what has been accepted is sound.
pub open spec fn state_is_sound(state: DecodeStateView, len: int) -> bool {
    &&& state.quant.tables.len() == 4
    &&& state.huffman.tables.len() == 2
    &&& state.picture matches Some(picture) ==> picture_is_sound(picture, state.expected)
    &&& state.slice matches Some(slice) ==> state.picture is Some && slice_is_sound(
        slice,
        state.picture->Some_0,
        state.data_start,
        state.data_end,
        len,
    )
}

/// The MCU count of a picture of non-zero size is at least 1 and fits in
/// 32 bits.
pub proof fn lemma_mcu_count_bounds(width: int, height: int, h: int, v: int)
    requires
        1 <= width <= u16::MAX,
        1 <= height <= u16::MAX,
        1 <= h,
        1 <= v,
    ensures
        1 <= mcu_count(width, height, h, v) <= u32::MAX,
{
    let cols = (width + 8 * h - 1) / (8 * h);
    let rows = (height + 8 * v - 1) / (8 * v);
    lemma_ceiling_division(width, 8 * h);
    lemma_ceiling_division(height, 8 * v);
    assert(cols >= 1) by (nonlinear_arith)
        requires
            cols * (8 * h) >= width,
            width >= 1,
            h >= 1,
    ;
    assert(rows >= 1) by (nonlinear_arith)
        requires
            rows * (8 * v) >= height,
            height >= 1,
            v >= 1,
    ;
    assert(1 <= cols * rows <= 65535 * 65535) by (nonlinear_arith)
        requires
            1 <= cols <= 65535,
            1 <= rows <= 65535,
    ;
}

/// Folding the tables of a DQT segment into 4 quantization tables leaves 4
/// tables.
pub proof fn lemma_fold_dqt_keeps_count(quant: IQMatrixView, tables: Seq<DqtView>)
    requires
        quant.tables.len() == 4,
    ensures
        fold_dqt(quant, tables) matches Ok(q) ==> q.tables.len() == 4,
    decreases tables.len(),
{
    if tables.len() > 0 {
        lemma_fold_dqt_keeps_count(quant, tables.drop_last());
    }
}

/// Folding the tables of a DHT segment into 2 Huffman tables leaves 2
/// tables.
pub proof fn lemma_fold_dht_keeps_count(huffman: HuffmanTableBufferView, tables: Seq<DhtView>)
    requires
        huffman.tables.len() == 2,
    ensures
        fold_dht(huffman, tables) matches Ok(h) ==> h.tables.len() == 2,
    decreases tables.len(),
{
    if tables.len() > 0 {
        lemma_fold_dht_keeps_count(huffman, tables.drop_last());
    }
}

/// One segment of the buffer keeps the state of a decode sound.
pub proof fn lemma_step_keeps_sound(
    state: DecodeStateView,
    segment: SegmentKindView,
    len: int,
)
    requires
        state_is_sound(state, len),
        kind_lies_within(segment, len),
    ensures
        step(state, segment) matches Ok(after) ==> state_is_sound(after, len) && after.expected
            == state.expected,
{
    if state.phase() != Phase::Ready {
        match segment {
            SegmentKindView::Dqt(tables) => {
                lemma_fold_dqt_keeps_count(state.quant, tables);
            },
            SegmentKindView::Dht(tables) => {
                lemma_fold_dht_keeps_count(state.huffman, tables);
            },
            SegmentKindView::Sos(sos) => {
                if state.phase() == Phase::AwaitScan && accept_scan(state, sos) is Ok {
                    let picture = state.picture->Some_0;
                    lemma_max_factors(picture.components);
                    lemma_mcu_count_bounds(
                        picture.picture_width as int,
                        picture.picture_height as int,
                        max_h_factor(picture.components) as int,
                        max_v_factor(picture.components) as int,
                    );
                }
            },
            _ => {},
        }
    }
}

/// Whatever the buffer holds, a decode that starts sound ends sound.
pub proof fn lemma_run_keeps_sound(buf: Seq<u8>, from: int, state: DecodeStateView)
    requires
        0 <= from <= buf.len(),
        state_is_sound(state, buf.len() as int),
    ensures
        run(buf, from, state) matches Ok(end) ==> state_is_sound(end, buf.len() as int)
            && end.expected == state.expected,
    decreases buf.len() - from,
{
    lemma_segment_at_advances(buf, from);
    match segment_at(buf, from) {
        Ok(Some((segment, next))) => {
            if !(state.phase() == Phase::Ready && segment.kind is Eoi) {
                lemma_step_keeps_sound(state, segment.kind, buf.len() as int);
                match step(state, segment.kind) {
                    Ok(after) => {
                        lemma_run_keeps_sound(buf, next, after);
                    },
                    Err(_) => {},
                }
            }
        },
        _ => {},
    }
}

/// Whatever the file holds, the parameters of a decode that succeeds are
/// sound: the picture has a non-zero size (the expected one, if one is
/// expected) and 1 to 255 components without a zero sampling factor; the
/// slice has 1 to 4 components, covers the whole entropy-coded data, which
/// lies in the file, and has the MCU count that the picture gives; and
/// there are 4 quantization and 2 Huffman tables.
pub proof fn lemma_decoded_parameters_are_sound(buf: Seq<u8>, expected: Option<(u16, u16)>)
    ensures
        decode(buf, expected) matches Ok(parameters) ==> {
            &&& picture_is_sound(parameters.picture, expected)
            &&& slice_is_sound(
                parameters.slice,
                parameters.picture,
                parameters.data_start,
                parameters.data_end,
                buf.len() as int,
            )
            &&& parameters.quant.tables.len() == 4
            &&& parameters.huffman.tables.len() == 2
        },
{
    lemma_run_keeps_sound(buf, 0, DecodeStateView::initial(expected));
}

} // verus!
