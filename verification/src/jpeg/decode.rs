//! Derives the parameters of a hardware decode job from a JPEG file.
//!
//! A decode walks the segments of the file in stream order through three
//! phases: until the frame header has been seen, until the scan header has
//! been seen, and ready. [`step`] says what one segment does to the state of
//! a decode, [`run`] folds it over a byte stream, and [`decode`] is the
//! outcome for a whole file. [`DecodeParameters::parse`] computes exactly
//! that outcome. What follows from these definitions for every file is
//! proved in [`baseline`](super::baseline).

#![allow(non_snake_case)]

use vstd::prelude::*;
use super::error::JpegError;
use super::parser::{
    dht_views, dqt_views, Dht, Dqt, FrameComponent, JpegParser, SegmentKind, Sof, Sos,
};
use super::syntax::{
    high_nibble, lemma_segment_at_advances, low_nibble, segment_at, DhtView, DqtView,
    SegmentKindView, SofView, SosView, MARKER_SOF0,
};
use super::{
    ColorSpace, Component, HuffmanTableBuffer, HuffmanTableBufferView, IQMatrixBuffer,
    IQMatrixView, PictureParameterBuffer, PictureView, ScanComponent, SliceParameterBuffer,
    SliceView,
};
use crate::buffer::BufferType;
use crate::{Rotation, SliceDataFlags, SliceParameterBufferBase};

verus! {

/// How far a decode has come.
#[derive(Clone, Copy, Debug, PartialEq, Eq, Structural)]
pub enum Phase {
    /// No frame header has been accepted yet.
    AwaitFrame,
    /// The frame header has been accepted, the scan header has not.
    AwaitScan,
    /// Frame and scan header have been accepted: the parameters are complete.
    Ready,
}

/// The number of minimum coded units of a `width` x `height` image whose
/// largest sampling factors are `h` and `v`:
/// `ceil(width / (8 h)) * ceil(height / (8 v))`, in integer arithmetic.
pub open spec fn mcu_count(width: int, height: int, h: int, v: int) -> int {
    ((width + 8 * h - 1) / (8 * h)) * ((height + 8 * v - 1) / (8 * v))
}

/// `(a + d - 1) / d` is the ceiling of `a / d`: the least `q` with
/// `q * d >= a`.
pub proof fn lemma_ceiling_division(a: int, d: int)
    requires
        a >= 0,
        d >= 1,
    ensures
        ((a + d - 1) / d) * d >= a,
        ((a + d - 1) / d - 1) * d < a,
        0 <= (a + d - 1) / d <= a,
{
    let q = (a + d - 1) / d;
    vstd::arithmetic::div_mod::lemma_fundamental_div_mod(a + d - 1, d);
    vstd::arithmetic::div_mod::lemma_mod_bound(a + d - 1, d);
    assert(a + d - 1 == d * q + (a + d - 1) % d);
    assert(q * d == d * q) by (nonlinear_arith);
    assert((q - 1) * d == q * d - d) by (nonlinear_arith);
    if q > a {
        assert(q * d >= (a + 1) * d) by (nonlinear_arith)
            requires
                q >= a + 1,
                d >= 1,
        ;
        assert((a + 1) * d >= a + d) by (nonlinear_arith)
            requires
                a >= 0,
                d >= 1,
        ;
    }
    if q < 0 {
        assert(q * d <= -d) by (nonlinear_arith)
            requires
                q <= -1,
                d >= 1,
        ;
    }
}

/// The MCU count is the product of the two ceilings: each factor is the
/// least number of `8 h` (or `8 v`) wide blocks that covers the dimension.
pub proof fn lemma_mcu_count_is_ceiling(width: int, height: int, h: int, v: int)
    requires
        width >= 0,
        height >= 0,
        h >= 1,
        v >= 1,
    ensures
        ({
            let cols = (width + 8 * h - 1) / (8 * h);
            let rows = (height + 8 * v - 1) / (8 * v);
            &&& mcu_count(width, height, h, v) == cols * rows
            &&& cols * (8 * h) >= width && (cols - 1) * (8 * h) < width
            &&& rows * (8 * v) >= height && (rows - 1) * (8 * v) < height
        }),
{
    lemma_ceiling_division(width, h * 8);
    lemma_ceiling_division(height, v * 8);
}

/// Computes the number of MCUs of a `width` x `height` image whose largest
/// horizontal and vertical sampling factors are `max_h_factor` and
/// `max_v_factor`.
pub fn num_mcus(width: u16, height: u16, max_h_factor: u8, max_v_factor: u8) -> (r: u32)
    requires
        max_h_factor >= 1,
        max_v_factor >= 1,
    ensures
        r == mcu_count(width as int, height as int, max_h_factor as int, max_v_factor as int),
{
    let w: u32 = width as u32;
    let h: u32 = height as u32;
    let mcu_w: u32 = max_h_factor as u32 * 8;
    let mcu_h: u32 = max_v_factor as u32 * 8;
    let cols: u32 = (w + mcu_w - 1) / mcu_w;
    let rows: u32 = (h + mcu_h - 1) / mcu_h;
    proof {
        lemma_ceiling_division(w as int, mcu_w as int);
        lemma_ceiling_division(h as int, mcu_h as int);
        assert(cols * rows <= 65535 * 65535) by (nonlinear_arith)
            requires
                0 <= cols <= 65535,
                0 <= rows <= 65535,
        ;
    }
    cols * rows
}

/// The picture component that a frame component describes.
pub open spec fn picture_component(c: FrameComponent) -> Component {
    Component {
        component_id: c.Ci,
        h_sampling_factor: high_nibble(c.HiVi),
        v_sampling_factor: low_nibble(c.HiVi),
        quantiser_table_selector: c.Tqi,
    }
}

/// The picture components that the components of a frame header describe,
/// in the same order.
pub open spec fn picture_components(components: Seq<FrameComponent>) -> Seq<Component> {
    Seq::new(components.len(), |i: int| picture_component(components[i]))
}

/// The slice component that a scan component describes.
pub open spec fn slice_component(c: super::parser::ScanComponent) -> ScanComponent {
    ScanComponent {
        component_selector: c.Csj,
        dc_table_selector: high_nibble(c.TdjTaj),
        ac_table_selector: low_nibble(c.TdjTaj),
    }
}

/// The slice components that the components of a scan header describe,
/// in the same order.
pub open spec fn slice_components(components: Seq<super::parser::ScanComponent>) -> Seq<
    ScanComponent,
> {
    Seq::new(components.len(), |i: int| slice_component(components[i]))
}

/// The component has a horizontal or vertical sampling factor of zero.
pub open spec fn is_zero_factor(component: Component) -> bool {
    component.h_sampling_factor == 0 || component.v_sampling_factor == 0
}

/// Some component has a horizontal or vertical sampling factor of zero.
pub open spec fn has_zero_factor(components: Seq<Component>) -> bool {
    exists|i: int| 0 <= i < components.len() && is_zero_factor(#[trigger] components[i])
}

/// The largest horizontal sampling factor among `components`, 0 if there
/// are none.
pub open spec fn max_h_factor(components: Seq<Component>) -> u8
    decreases components.len(),
{
    if components.len() == 0 {
        0
    } else if components.last().h_sampling_factor >= max_h_factor(components.drop_last()) {
        components.last().h_sampling_factor
    } else {
        max_h_factor(components.drop_last())
    }
}

/// The largest vertical sampling factor among `components`, 0 if there
/// are none.
pub open spec fn max_v_factor(components: Seq<Component>) -> u8
    decreases components.len(),
{
    if components.len() == 0 {
        0
    } else if components.last().v_sampling_factor >= max_v_factor(components.drop_last()) {
        components.last().v_sampling_factor
    } else {
        max_v_factor(components.drop_last())
    }
}

/// The largest factors are what their name says: each bounds the factors
/// of every component from above and is the factor of some component. So
/// they are at least 1 when there is a component and no factor is zero.
pub proof fn lemma_max_factors(components: Seq<Component>)
    ensures
        forall|i: int|
            0 <= i < components.len() ==> (#[trigger] components[i]).h_sampling_factor
                <= max_h_factor(components) && components[i].v_sampling_factor <= max_v_factor(
                components,
            ),
        components.len() > 0 ==> exists|i: int|
            0 <= i < components.len() && (#[trigger] components[i]).h_sampling_factor
                == max_h_factor(components),
        components.len() > 0 ==> exists|i: int|
            0 <= i < components.len() && (#[trigger] components[i]).v_sampling_factor
                == max_v_factor(components),
        components.len() > 0 && !has_zero_factor(components) ==> max_h_factor(components) >= 1
            && max_v_factor(components) >= 1,
    decreases components.len(),
{
    if components.len() > 0 {
        let front = components.drop_last();
        let last = components.len() - 1;
        lemma_max_factors(front);
        assert forall|i: int| 0 <= i < components.len() implies (#[trigger] components[i])
            .h_sampling_factor <= max_h_factor(components) && components[i].v_sampling_factor
            <= max_v_factor(components) by {
            if i < last {
                assert(front[i] == components[i]);
            }
        }
        if components[last].h_sampling_factor >= max_h_factor(front) {
            assert(components[last].h_sampling_factor == max_h_factor(components));
        } else {
            let i = choose|i: int|
                0 <= i < front.len() && (#[trigger] front[i]).h_sampling_factor == max_h_factor(
                    front,
                );
            assert(components[i] == front[i]);
        }
        if components[last].v_sampling_factor >= max_v_factor(front) {
            assert(components[last].v_sampling_factor == max_v_factor(components));
        } else {
            let i = choose|i: int|
                0 <= i < front.len() && (#[trigger] front[i]).v_sampling_factor == max_v_factor(
                    front,
                );
            assert(components[i] == front[i]);
        }
        if !has_zero_factor(components) {
            let h = choose|i: int|
                0 <= i < components.len() && (#[trigger] components[i]).h_sampling_factor
                    == max_h_factor(components);
            let v = choose|i: int|
                0 <= i < components.len() && (#[trigger] components[i]).v_sampling_factor
                    == max_v_factor(components);
            assert(!is_zero_factor(components[h]));
            assert(!is_zero_factor(components[v]));
        }
    }
}

/// One table of a DQT segment can be stored: its elements are 8-bit
/// (precision 0) and its slot is 0 to 3.
pub open spec fn dqt_fits(table: DqtView) -> bool {
    table.Pq == 0 && table.Tq <= 3
}

/// The quantization tables after the tables of one DQT segment have been
/// written into them, in segment order; malformed if one of them cannot be
/// stored.
pub open spec fn fold_dqt(quant: IQMatrixView, tables: Seq<DqtView>) -> Result<
    IQMatrixView,
    JpegError,
>
    decreases tables.len(),
{
    if tables.len() == 0 {
        Ok(quant)
    } else {
        match fold_dqt(quant, tables.drop_last()) {
            Err(e) => Err(e),
            Ok(q) => if dqt_fits(tables.last()) {
                Ok(q.set(tables.last().Tq as int, tables.last().Qk))
            } else {
                Err(JpegError::MalformedSegment)
            },
        }
    }
}

/// One table of a DHT segment can be stored: its slot is 0 or 1, its class
/// is DC with at most 12 values or AC with at most 162 values.
pub open spec fn dht_fits(table: DhtView) -> bool {
    &&& table.Th <= 1
    &&& table.Tc <= 1
    &&& table.Tc == 0 ==> table.Vij.len() <= 12
    &&& table.Tc == 1 ==> table.Vij.len() <= 162
}

/// The Huffman tables after one table of a DHT segment has been written
/// into its slot.
pub open spec fn apply_dht(
    huffman: HuffmanTableBufferView,
    table: DhtView,
) -> HuffmanTableBufferView {
    if table.Tc == 0 {
        huffman.set(table.Th as int, huffman.tables[table.Th as int].set_dc(table.Li, table.Vij))
    } else {
        huffman.set(table.Th as int, huffman.tables[table.Th as int].set_ac(table.Li, table.Vij))
    }
}

/// The Huffman tables after the tables of one DHT segment have been written
/// into them, in segment order; malformed if one of them cannot be stored.
pub open spec fn fold_dht(huffman: HuffmanTableBufferView, tables: Seq<DhtView>) -> Result<
    HuffmanTableBufferView,
    JpegError,
>
    decreases tables.len(),
{
    if tables.len() == 0 {
        Ok(huffman)
    } else {
        match fold_dht(huffman, tables.drop_last()) {
            Err(e) => Err(e),
            Ok(h) => if dht_fits(tables.last()) {
                Ok(apply_dht(h, tables.last()))
            } else {
                Err(JpegError::MalformedSegment)
            },
        }
    }
}

/// The mathematical state of a decode in progress.
pub struct DecodeStateView {
    /// The picture size the caller's session was created for, if any.
    pub expected: Option<(u16, u16)>,
    /// The quantization tables collected so far.
    pub quant: IQMatrixView,
    /// The Huffman tables collected so far.
    pub huffman: HuffmanTableBufferView,
    /// Whether a DHT segment has been seen.
    pub seen_dht: bool,
    /// The restart interval defined last, 0 if none was.
    pub restart_interval: u16,
    /// The picture parameters, once the frame header has been accepted.
    pub picture: Option<PictureView>,
    /// The slice parameters, once the scan header has been accepted.
    pub slice: Option<SliceView>,
    /// Offset of the first byte of entropy-coded data.
    pub data_start: int,
    /// Offset one past the last byte of entropy-coded data.
    pub data_end: int,
}

impl DecodeStateView {
    /// The state before any segment has been seen.
    pub open spec fn initial(expected: Option<(u16, u16)>) -> Self {
        DecodeStateView {
            expected,
            quant: IQMatrixView::zeroed(),
            huffman: HuffmanTableBufferView::zeroed(),
            seen_dht: false,
            restart_interval: 0,
            picture: None,
            slice: None,
            data_start: 0,
            data_end: 0,
        }
    }

    /// How far the decode has come.
    pub open spec fn phase(self) -> Phase {
        if self.picture is None {
            Phase::AwaitFrame
        } else if self.slice is None {
            Phase::AwaitScan
        } else {
            Phase::Ready
        }
    }
}

/// What a frame header does to a decode that awaits one.
///
/// The header must be a baseline one (SOF0) with 8-bit samples and the
/// expected size, else the codec is unsupported. Its dimensions, its
/// component count and every sampling factor must be non-zero, else the
/// segment is malformed. The picture is tagged YUV, and the decode goes on
/// to await the scan header.
pub open spec fn accept_frame(state: DecodeStateView, sof: SofView) -> Result<
    DecodeStateView,
    JpegError,
> {
    if sof.sof != MARKER_SOF0 || sof.P != 8 {
        Err(JpegError::UnsupportedCodec)
    } else if state.expected matches Some(size) && (sof.X != size.0 || sof.Y != size.1) {
        Err(JpegError::UnsupportedCodec)
    } else if sof.X == 0 || sof.Y == 0 || sof.components.len() == 0 || sof.components.len()
        > 255 || has_zero_factor(picture_components(sof.components)) {
        Err(JpegError::MalformedSegment)
    } else {
        Ok(
            DecodeStateView {
                picture: Some(
                    PictureView {
                        picture_width: sof.X,
                        picture_height: sof.Y,
                        components: picture_components(sof.components),
                        color_space: ColorSpace(ColorSpace::YUV),
                        rotation: Rotation(Rotation::NONE),
                    },
                ),
                slice: None,
                ..state
            },
        )
    }
}

/// What a scan header does to a decode that awaits one.
///
/// The header must select the full spectrum (0 to 63) without successive
/// approximation, and its data must not exceed what a 32-bit size can
/// express, else the codec is unsupported. It must name 1 to 4 components,
/// its data extent must be in order, and the picture must have a non-zero
/// sampling factor in each direction, else the segment is malformed. The
/// slice covers the whole entropy-coded data and the MCU count follows from
/// the accepted frame header.
pub open spec fn accept_scan(state: DecodeStateView, sos: SosView) -> Result<
    DecodeStateView,
    JpegError,
> {
    if sos.Ss != 0 || sos.Se != 63 || sos.AhAl != 0 {
        Err(JpegError::UnsupportedCodec)
    } else if sos.components.len() == 0 || sos.components.len() > 4 || sos.data_end
        < sos.data_start {
        Err(JpegError::MalformedSegment)
    } else if sos.data_end - sos.data_start > u32::MAX {
        Err(JpegError::UnsupportedCodec)
    } else if max_h_factor(state.picture->Some_0.components) == 0 || max_v_factor(
        state.picture->Some_0.components,
    ) == 0 {
        Err(JpegError::MalformedSegment)
    } else {
        let picture = state.picture->Some_0;
        Ok(
            DecodeStateView {
                slice: Some(
                    SliceView {
                        base: SliceParameterBufferBase {
                            slice_data_size: (sos.data_end - sos.data_start) as u32,
                            slice_data_offset: 0,
                            slice_data_flags: SliceDataFlags(SliceDataFlags::ALL),
                        },
                        slice_horizontal_position: 0,
                        slice_vertical_position: 0,
                        components: slice_components(sos.components),
                        restart_interval: state.restart_interval,
                        num_mcus: mcu_count(
                            picture.picture_width as int,
                            picture.picture_height as int,
                            max_h_factor(picture.components) as int,
                            max_v_factor(picture.components) as int,
                        ) as u32,
                    },
                ),
                data_start: sos.data_start,
                data_end: sos.data_end,
                ..state
            },
        )
    }
}

/// What one segment does to the state of a decode.
///
/// Before the scan header has been accepted, table and restart-interval
/// segments are folded into the state, the frame header is accepted while
/// one is awaited and the scan header once the frame header is there, and
/// an EOI is a truncated image. Every other combination leaves the state
/// as it is.
pub open spec fn step(state: DecodeStateView, segment: SegmentKindView) -> Result<
    DecodeStateView,
    JpegError,
> {
    if state.phase() == Phase::Ready {
        Ok(state)
    } else {
        match segment {
            SegmentKindView::Dqt(tables) => match fold_dqt(state.quant, tables) {
                Ok(quant) => Ok(DecodeStateView { quant, ..state }),
                Err(e) => Err(e),
            },
            SegmentKindView::Dht(tables) => match fold_dht(state.huffman, tables) {
                Ok(huffman) => Ok(DecodeStateView { huffman, seen_dht: true, ..state }),
                Err(e) => Err(e),
            },
            SegmentKindView::Dri(dri) => Ok(DecodeStateView { restart_interval: dri.Ri, ..state }),
            SegmentKindView::Sof(sof) => if state.phase() == Phase::AwaitFrame {
                accept_frame(state, sof)
            } else {
                Ok(state)
            },
            SegmentKindView::Sos(sos) => if state.phase() == Phase::AwaitScan {
                accept_scan(state, sos)
            } else {
                Ok(state)
            },
            SegmentKindView::Eoi => Err(JpegError::TruncatedImage),
            SegmentKindView::Other { .. } => Ok(state),
        }
    }
}

/// The state in which a decode of `buf` ends when it is in `state` with the
/// cursor at `from`: segments are taken in stream order until the input is
/// used up or an EOI is met with the parameters ready.
pub open spec fn run(buf: Seq<u8>, from: int, state: DecodeStateView) -> Result<
    DecodeStateView,
    JpegError,
>
    decreases buf.len() - from,
    when 0 <= from <= buf.len()
{
    match segment_at(buf, from) {
        Err(e) => Err(e),
        Ok(None) => Ok(state),
        Ok(Some((segment, next))) => {
            if state.phase() == Phase::Ready && segment.kind is Eoi {
                Ok(state)
            } else {
                match step(state, segment.kind) {
                    Err(e) => Err(e),
                    Ok(after) => {
                        proof {
                            lemma_segment_at_advances(buf, from);
                        }
                        run(buf, next, after)
                    },
                }
            }
        },
    }
}

/// The mathematical content of a [`DecodeParameters`] bundle.
pub struct DecodeParametersView {
    pub huffman: HuffmanTableBufferView,
    pub quant: IQMatrixView,
    pub picture: PictureView,
    pub slice: SliceView,
    /// Offset of the first byte of entropy-coded data in the file.
    pub data_start: int,
    /// Offset one past the last byte of entropy-coded data in the file.
    pub data_end: int,
}

/// The parameters a finished decode yields: a decode that never reached its
/// scan header is a truncated image; one that saw no DHT segment at all
/// gets the recommended default Huffman tables.
pub open spec fn finish(state: DecodeStateView) -> Result<DecodeParametersView, JpegError> {
    if state.phase() != Phase::Ready {
        Err(JpegError::TruncatedImage)
    } else {
        Ok(
            DecodeParametersView {
                huffman: if state.seen_dht {
                    state.huffman
                } else {
                    HuffmanTableBufferView::default_tables()
                },
                quant: state.quant,
                picture: state.picture->Some_0,
                slice: state.slice->Some_0,
                data_start: state.data_start,
                data_end: state.data_end,
            },
        )
    }
}

/// The decode parameters of the JPEG file `buf`, for a session created for
/// pictures of size `expected` (width, height) if one is given.
pub open spec fn decode(buf: Seq<u8>, expected: Option<(u16, u16)>) -> Result<
    DecodeParametersView,
    JpegError,
> {
    match run(buf, 0, DecodeStateView::initial(expected)) {
        Err(e) => Err(e),
        Ok(state) => finish(state),
    }
}

/// The state of a decode in progress: the tables collected so far and the
/// picture and slice parameters, as far as the headers have been accepted.
#[derive(Clone, Copy)]
pub struct DecodeState {
    /// The picture size the caller's session was created for, if any.
    pub expected: Option<(u16, u16)>,
    /// The quantization tables collected so far.
    pub quant: IQMatrixBuffer,
    /// The Huffman tables collected so far.
    pub huffman: HuffmanTableBuffer,
    /// Whether a DHT segment has been seen.
    pub seen_dht: bool,
    /// The restart interval defined last, 0 if none was.
    pub restart_interval: u16,
    /// The picture parameters, once the frame header has been accepted.
    pub picture: Option<PictureParameterBuffer>,
    /// The slice parameters, once the scan header has been accepted.
    pub slice: Option<SliceParameterBuffer>,
    /// Offset of the first byte of entropy-coded data.
    pub data_start: usize,
    /// Offset one past the last byte of entropy-coded data.
    pub data_end: usize,
}

impl View for DecodeState {
    type V = DecodeStateView;

    open spec fn view(&self) -> DecodeStateView {
        DecodeStateView {
            expected: self.expected,
            quant: self.quant@,
            huffman: self.huffman@,
            seen_dht: self.seen_dht,
            restart_interval: self.restart_interval,
            picture: match self.picture {
                Some(picture) => Some(picture@),
                None => None,
            },
            slice: match self.slice {
                Some(slice) => Some(slice@),
                None => None,
            },
            data_start: self.data_start as int,
            data_end: self.data_end as int,
        }
    }
}

/// Writes the tables of one DQT segment into the quantization tables.
fn fold_quantization_tables(quant: &mut IQMatrixBuffer, tables: &Vec<Dqt>) -> (r: Result<
    (),
    JpegError,
>)
    ensures
        match fold_dqt(old(quant)@, dqt_views(tables@)) {
            Ok(q) => r is Ok && final(quant)@ == q,
            Err(e) => r == Err::<(), JpegError>(e),
        },
        old(quant).wf() ==> final(quant).wf(),
{
    let ghost views = dqt_views(tables@);
    let mut i: usize = 0;
    while i < tables.len()
        invariant
            i <= tables.len(),
            views == dqt_views(tables@),
            fold_dqt(old(quant)@, views.take(i as int)) == Ok::<IQMatrixView, JpegError>(quant@),
            old(quant).wf() ==> quant.wf(),
        decreases tables.len() - i,
    {
        let table = &tables[i];
        proof {
            assert(views.take(i + 1).drop_last() =~= views.take(i as int));
            assert(views.take(i + 1).last() == table@);
            assert(views.take(tables.len() as int) =~= views);
            lemma_fold_dqt_error_persists(old(quant)@, views, i + 1);
        }
        if table.Pq != 0 || table.Tq > 3 {
            return Err(JpegError::MalformedSegment);
        }
        quant.set_quantization_table(table.Tq, &table.Qk);
        i += 1;
    }
    proof {
        assert(views.take(tables.len() as int) =~= views);
    }
    Ok(())
}

/// Once folding a prefix of the tables has failed, folding all of them
/// fails in the same way.
pub proof fn lemma_fold_dqt_error_persists(quant: IQMatrixView, tables: Seq<DqtView>, n: int)
    requires
        0 <= n <= tables.len(),
    ensures
        fold_dqt(quant, tables.take(n)) is Err ==> fold_dqt(quant, tables) == fold_dqt(
            quant,
            tables.take(n),
        ),
    decreases tables.len() - n,
{
    if n < tables.len() {
        assert(tables.take(n + 1).drop_last() =~= tables.take(n));
        lemma_fold_dqt_error_persists(quant, tables, n + 1);
    } else {
        assert(tables.take(n) =~= tables);
    }
}

/// Once folding a prefix of the tables has failed, folding all of them
/// fails in the same way.
pub proof fn lemma_fold_dht_error_persists(
    huffman: HuffmanTableBufferView,
    tables: Seq<DhtView>,
    n: int,
)
    requires
        0 <= n <= tables.len(),
    ensures
        fold_dht(huffman, tables.take(n)) is Err ==> fold_dht(huffman, tables) == fold_dht(
            huffman,
            tables.take(n),
        ),
    decreases tables.len() - n,
{
    if n < tables.len() {
        assert(tables.take(n + 1).drop_last() =~= tables.take(n));
        lemma_fold_dht_error_persists(huffman, tables, n + 1);
    } else {
        assert(tables.take(n) =~= tables);
    }
}

/// Writes the tables of one DHT segment into the Huffman tables.
fn fold_huffman_tables(huffman: &mut HuffmanTableBuffer, tables: &Vec<Dht>) -> (r: Result<
    (),
    JpegError,
>)
    ensures
        match fold_dht(old(huffman)@, dht_views(tables@)) {
            Ok(h) => r is Ok && final(huffman)@ == h,
            Err(e) => r == Err::<(), JpegError>(e),
        },
        old(huffman).wf() ==> final(huffman).wf(),
{
    let ghost views = dht_views(tables@);
    let mut i: usize = 0;
    while i < tables.len()
        invariant
            i <= tables.len(),
            views == dht_views(tables@),
            fold_dht(old(huffman)@, views.take(i as int)) == Ok::<
                HuffmanTableBufferView,
                JpegError,
            >(huffman@),
            old(huffman).wf() ==> huffman.wf(),
        decreases tables.len() - i,
    {
        let table = &tables[i];
        proof {
            assert(views.take(i + 1).drop_last() =~= views.take(i as int));
            assert(views.take(i + 1).last() == table@);
            lemma_fold_dht_error_persists(old(huffman)@, views, i + 1);
        }
        if table.Th > 1 || table.Tc > 1 {
            return Err(JpegError::MalformedSegment);
        }
        let ghost before = huffman@;
        let ghost was_wf = huffman.wf();
        if table.Tc == 0 {
            if table.Vij.len() > 12 {
                return Err(JpegError::MalformedSegment);
            }
            let slot = huffman.huffman_table_mut(table.Th);
            slot.set_dc_table(table.Li.as_slice(), table.Vij.as_slice());
        } else {
            if table.Vij.len() > 162 {
                return Err(JpegError::MalformedSegment);
            }
            let slot = huffman.huffman_table_mut(table.Th);
            slot.set_ac_table(table.Li.as_slice(), table.Vij.as_slice());
        }
        proof {
            assert(huffman@ == apply_dht(before, table@));
            if was_wf {
                assert forall|j: int| 0 <= j < 2 implies (#[trigger] huffman.huffman_table[j])
                    .wf() by {}
            }
        }
        i += 1;
    }
    proof {
        assert(views.take(tables.len() as int) =~= views);
    }
    Ok(())
}

/// The largest sampling factors among the components of a picture.
fn max_sampling_factors(picture: &PictureParameterBuffer) -> (r: (u8, u8))
    ensures
        r.0 == max_h_factor(picture@.components),
        r.1 == max_v_factor(picture@.components),
{
    let ghost components = picture@.components;
    let mut max_h: u8 = 0;
    let mut max_v: u8 = 0;
    let mut i: u8 = 0;
    while i < picture.num_components()
        invariant
            i <= components.len(),
            components == picture@.components,
            max_h == max_h_factor(components.take(i as int)),
            max_v == max_v_factor(components.take(i as int)),
        decreases components.len() - i,
    {
        let component = picture.component(i);
        proof {
            assert(components.take(i + 1).drop_last() =~= components.take(i as int));
            assert(components.take(i + 1).last() == component);
        }
        if component.h_sampling_factor >= max_h {
            max_h = component.h_sampling_factor;
        }
        if component.v_sampling_factor >= max_v {
            max_v = component.v_sampling_factor;
        }
        i += 1;
    }
    proof {
        assert(components.take(components.len() as int) =~= components);
    }
    (max_h, max_v)
}

impl DecodeState {
    /// Every record of the state is as the builder functions leave it.
    pub open spec fn wf(&self) -> bool {
        &&& self.quant.wf()
        &&& self.huffman.wf()
        &&& self.picture matches Some(picture) ==> picture.wf()
        &&& self.slice matches Some(slice) ==> slice.wf()
    }

    /// The state before any segment has been seen.
    ///
    /// `expected` is the picture size (width, height) that the caller's
    /// decode session was created for, if it was created for one.
    pub fn new(expected: Option<(u16, u16)>) -> (r: Self)
        ensures
            r@ == DecodeStateView::initial(expected),
            r.wf(),
    {
        DecodeState {
            expected,
            quant: IQMatrixBuffer::new(),
            huffman: HuffmanTableBuffer::zeroed(),
            seen_dht: false,
            restart_interval: 0,
            picture: None,
            slice: None,
            data_start: 0,
            data_end: 0,
        }
    }

    /// How far the decode has come.
    pub fn phase(&self) -> (r: Phase)
        ensures
            r == self@.phase(),
    {
        if self.picture.is_none() {
            Phase::AwaitFrame
        } else if self.slice.is_none() {
            Phase::AwaitScan
        } else {
            Phase::Ready
        }
    }

    /// Takes a frame header into a decode that awaits one.
    fn accept_frame(self, sof: &Sof) -> (r: Result<DecodeState, JpegError>)
        ensures
            match accept_frame(self@, sof@) {
                Ok(state) => r matches Ok(s) && s@ == state && (self.wf() ==> s.wf()),
                Err(e) => r matches Err(x) && x == e,
            },
    {
        if sof.sof != MARKER_SOF0 || sof.P != 8 {
            return Err(JpegError::UnsupportedCodec);
        }
        match self.expected {
            Some(size) => {
                if sof.X != size.0 || sof.Y != size.1 {
                    return Err(JpegError::UnsupportedCodec);
                }
            },
            None => {},
        }
        if sof.X == 0 || sof.Y == 0 || sof.components.len() == 0 || sof.components.len() > 255 {
            return Err(JpegError::MalformedSegment);
        }
        let ghost wanted = picture_components(sof@.components);
        let mut picture = PictureParameterBuffer::new(sof.X, sof.Y, ColorSpace(ColorSpace::YUV));
        let mut i: usize = 0;
        proof {
            assert(wanted.take(0) =~= Seq::<Component>::empty());
        }
        while i < sof.components.len()
            invariant
                0 < sof.components.len() <= 255,
                i <= sof.components.len(),
                sof.sof == MARKER_SOF0,
                sof.P == 8,
                sof.X != 0,
                sof.Y != 0,
                self.expected matches Some(size) ==> sof.X == size.0 && sof.Y == size.1,
                wanted == picture_components(sof@.components),
                picture@ == (PictureView {
                    picture_width: sof.X,
                    picture_height: sof.Y,
                    components: wanted.take(i as int),
                    color_space: ColorSpace(ColorSpace::YUV),
                    rotation: Rotation(Rotation::NONE),
                }),
                picture.wf(),
                !has_zero_factor(wanted.take(i as int)),
            decreases sof.components.len() - i,
        {
            let component = &sof.components[i];
            let h = component.horizontal_sampling_factor();
            let v = component.vertical_sampling_factor();
            if h == 0 || v == 0 {
                proof {
                    assert(is_zero_factor(wanted[i as int]));
                }
                return Err(JpegError::MalformedSegment);
            }
            picture.push_component(component.id(), h, v, component.quantization_table());
            proof {
                assert(wanted.take(i + 1) =~= wanted.take(i as int).push(wanted[i as int]));
                assert forall|j: int| 0 <= j < i + 1 implies !is_zero_factor(
                    #[trigger] wanted.take(i + 1)[j],
                ) by {
                    if j < i {
                        assert(wanted.take(i as int)[j] == wanted.take(i + 1)[j]);
                    }
                }
            }
            i += 1;
        }
        proof {
            assert(wanted.take(sof.components.len() as int) =~= wanted);
        }
        Ok(DecodeState { picture: Some(picture), slice: None, ..self })
    }

    /// Takes a scan header into a decode that has its frame header.
    fn accept_scan(self, sos: &Sos) -> (r: Result<DecodeState, JpegError>)
        requires
            self@.phase() == Phase::AwaitScan,
        ensures
            match accept_scan(self@, sos@) {
                Ok(state) => r matches Ok(s) && s@ == state && (self.wf() ==> s.wf()),
                Err(e) => r matches Err(x) && x == e,
            },
    {
        if sos.Ss != 0 || sos.Se != 63 || sos.AhAl != 0 {
            return Err(JpegError::UnsupportedCodec);
        }
        if sos.components.len() == 0 || sos.components.len() > 4 || sos.data_end
            < sos.data_start {
            return Err(JpegError::MalformedSegment);
        }
        if sos.data_end - sos.data_start > u32::MAX as usize {
            return Err(JpegError::UnsupportedCodec);
        }
        let picture = match self.picture {
            Some(picture) => picture,
            None => {
                return Err(JpegError::TruncatedImage);
            },
        };
        let (max_h, max_v) = max_sampling_factors(&picture);
        if max_h == 0 || max_v == 0 {
            return Err(JpegError::MalformedSegment);
        }
        let count = num_mcus(picture.picture_width(), picture.picture_height(), max_h, max_v);
        let size: u32 = (sos.data_end - sos.data_start) as u32;
        let mut slice = SliceParameterBuffer::new(
            SliceParameterBufferBase::new(size),
            self.restart_interval,
            count,
        );
        let ghost wanted = slice_components(sos@.components);
        let ghost empty = slice@;
        let mut i: usize = 0;
        proof {
            assert(wanted.take(0) =~= Seq::<ScanComponent>::empty());
        }
        while i < sos.components.len()
            invariant
                i <= sos.components.len() <= 4,
                wanted == slice_components(sos@.components),
                slice.num_components == i,
                slice.wf(),
                slice@ == (SliceView { components: wanted.take(i as int), ..empty }),
            decreases sos.components.len() - i,
        {
            let component = &sos.components[i];
            slice.push_component(component.id(), component.dc_table(), component.ac_table());
            proof {
                assert(wanted.take(i + 1) =~= wanted.take(i as int).push(wanted[i as int]));
            }
            i += 1;
        }
        proof {
            assert(wanted.take(sos.components.len() as int) =~= wanted);
        }
        Ok(
            DecodeState {
                slice: Some(slice),
                data_start: sos.data_start,
                data_end: sos.data_end,
                ..self
            },
        )
    }

    /// Applies one segment to the state of a decode.
    pub fn step(self, segment: &SegmentKind) -> (r: Result<DecodeState, JpegError>)
        ensures
            match step(self@, segment@) {
                Ok(state) => r matches Ok(s) && s@ == state && (self.wf() ==> s.wf()),
                Err(e) => r matches Err(x) && x == e,
            },
    {
        let phase = self.phase();
        if phase == Phase::Ready {
            return Ok(self);
        }
        match segment {
            SegmentKind::Dqt(tables) => {
                let mut quant = self.quant;
                match fold_quantization_tables(&mut quant, tables) {
                    Ok(()) => Ok(DecodeState { quant, ..self }),
                    Err(e) => Err(e),
                }
            },
            SegmentKind::Dht(tables) => {
                let mut huffman = self.huffman;
                match fold_huffman_tables(&mut huffman, tables) {
                    Ok(()) => Ok(DecodeState { huffman, seen_dht: true, ..self }),
                    Err(e) => Err(e),
                }
            },
            SegmentKind::Dri(dri) => Ok(
                DecodeState { restart_interval: dri.restart_interval(), ..self },
            ),
            SegmentKind::Sof(sof) => {
                if phase == Phase::AwaitFrame {
                    self.accept_frame(sof)
                } else {
                    Ok(self)
                }
            },
            SegmentKind::Sos(sos) => {
                if phase == Phase::AwaitScan {
                    self.accept_scan(sos)
                } else {
                    Ok(self)
                }
            },
            SegmentKind::Eoi => Err(JpegError::TruncatedImage),
            SegmentKind::Other { .. } => Ok(self),
        }
    }
}

/// Everything a hardware decoder needs to decode one baseline JPEG: the
/// four parameter records and the position of the entropy-coded data in
/// the file. All of it has to be submitted together.
#[derive(Clone, Copy)]
pub struct DecodeParameters {
    /// The Huffman tables: those the file defines, or the recommended
    /// defaults if it defines none.
    pub huffman: HuffmanTableBuffer,
    /// The quantization tables the file defines.
    pub quant: IQMatrixBuffer,
    /// Picture size, components and color space.
    pub picture: PictureParameterBuffer,
    /// Slice size, scan components, restart interval and MCU count.
    pub slice: SliceParameterBuffer,
    /// Offset of the first byte of entropy-coded data in the file.
    pub data_start: usize,
    /// Offset one past the last byte of entropy-coded data in the file.
    pub data_end: usize,
}

/// One parameter record as the decoder takes it: the type of buffer it
/// goes into and its bytes.
#[derive(Clone, Debug)]
pub struct Record {
    pub buffer_type: BufferType,
    pub bytes: Vec<u8>,
}

impl View for Record {
    type V = (BufferType, Seq<u8>);

    open spec fn view(&self) -> (BufferType, Seq<u8>) {
        (self.buffer_type, self.bytes@)
    }
}

impl View for DecodeParameters {
    type V = DecodeParametersView;

    open spec fn view(&self) -> DecodeParametersView {
        DecodeParametersView {
            huffman: self.huffman@,
            quant: self.quant@,
            picture: self.picture@,
            slice: self.slice@,
            data_start: self.data_start as int,
            data_end: self.data_end as int,
        }
    }
}

impl DecodeState {
    /// Closes a decode: yields the parameters if they are complete.
    pub fn finish(self) -> (r: Result<DecodeParameters, JpegError>)
        ensures
            match finish(self@) {
                Ok(parameters) => r matches Ok(p) && p@ == parameters && (self.wf() ==> p.wf()),
                Err(e) => r matches Err(x) && x == e,
            },
    {
        let picture = match self.picture {
            Some(picture) => picture,
            None => {
                return Err(JpegError::TruncatedImage);
            },
        };
        let slice = match self.slice {
            Some(slice) => slice,
            None => {
                return Err(JpegError::TruncatedImage);
            },
        };
        let huffman = if self.seen_dht {
            self.huffman
        } else {
            HuffmanTableBuffer::default_tables()
        };
        Ok(
            DecodeParameters {
                huffman,
                quant: self.quant,
                picture,
                slice,
                data_start: self.data_start,
                data_end: self.data_end,
            },
        )
    }
}

impl DecodeParameters {
    /// Every record is as the builder functions leave it.
    pub open spec fn wf(&self) -> bool {
        &&& self.huffman.wf()
        &&& self.quant.wf()
        &&& self.picture.wf()
        &&& self.slice.wf()
    }

    /// Parses the JPEG file `jpeg` and derives the parameters of its decode.
    ///
    /// `expected` is the picture size (width, height) that the caller's
    /// decode session was created for, if it was created for one; a file
    /// of another size is then rejected as unsupported.
    ///
    /// # Errors
    ///
    /// Any error means that the file is malformed or not a baseline JPEG
    /// that the hardware path supports; the caller should fall back to
    /// software decoding.
    pub fn parse(jpeg: &[u8], expected: Option<(u16, u16)>) -> (r: Result<
        DecodeParameters,
        JpegError,
    >)
        ensures
            match decode(jpeg@, expected) {
                Ok(parameters) => r matches Ok(p) && p@ == parameters && p.wf()
                    && p.data_start <= p.data_end <= jpeg@.len(),
                Err(e) => r matches Err(x) && x == e,
            },
    {
        let mut parser = JpegParser::new(jpeg);
        let mut state = DecodeState::new(expected);
        let ghost initial = state@;
        loop
            invariant_except_break
                run(jpeg@, 0, initial) == run(jpeg@, parser.cursor(), state@),
            invariant
                parser.bytes() == jpeg@,
                0 <= parser.cursor() <= jpeg@.len(),
                initial == DecodeStateView::initial(expected),
                state.wf(),
                state.slice is Some ==> state.data_start <= state.data_end <= jpeg@.len(),
            ensures
                run(jpeg@, 0, initial) == Ok::<DecodeStateView, JpegError>(state@),
                initial == DecodeStateView::initial(expected),
                state.wf(),
                state.slice is Some ==> state.data_start <= state.data_end <= jpeg@.len(),
            decreases jpeg@.len() - parser.cursor(),
        {
            proof {
                lemma_segment_at_advances(jpeg@, parser.cursor());
            }
            let segment = match parser.next_segment() {
                Ok(Some(segment)) => segment,
                Ok(None) => {
                    break ;
                },
                Err(e) => {
                    return Err(e);
                },
            };
            if state.phase() == Phase::Ready {
                match segment.kind {
                    SegmentKind::Eoi => {
                        break ;
                    },
                    _ => {},
                }
            }
            state = match state.step(&segment.kind) {
                Ok(after) => after,
                Err(e) => {
                    return Err(e);
                },
            };
        }
        state.finish()
    }

    /// What has to be handed to the decoder, in the order in which it has
    /// to be handed over: the Huffman tables, the quantization tables, the
    /// picture parameters and the slice parameters, each with its buffer
    /// type and its bytes. The entropy-coded data follows them.
    pub open spec fn submission(&self) -> Seq<(BufferType, Seq<u8>)> {
        seq![
            (BufferType(BufferType::HuffmanTable), self.huffman.layout()),
            (BufferType(BufferType::IQMatrix), self.quant.layout()),
            (BufferType(BufferType::PictureParameter), self.picture.layout()),
            (BufferType(BufferType::SliceParameter), self.slice.layout()),
        ]
    }

    /// The four parameter records as bytes, in the order in which the
    /// decoder has to be given them. All four, and the slice data behind
    /// them, belong to one decode operation: none is to be submitted
    /// without the others.
    pub fn records(&self) -> (r: Vec<Record>)
        ensures
            r@.len() == 4,
            forall|i: int| 0 <= i < 4 ==> (#[trigger] r@[i])@ == self.submission()[i],
    {
        let mut records: Vec<Record> = Vec::new();
        records.push(
            Record {
                buffer_type: BufferType(BufferType::HuffmanTable),
                bytes: self.huffman.to_bytes(),
            },
        );
        records.push(
            Record { buffer_type: BufferType(BufferType::IQMatrix), bytes: self.quant.to_bytes() },
        );
        records.push(
            Record {
                buffer_type: BufferType(BufferType::PictureParameter),
                bytes: self.picture.to_bytes(),
            },
        );
        records.push(
            Record {
                buffer_type: BufferType(BufferType::SliceParameter),
                bytes: self.slice.to_bytes(),
            },
        );
        records
    }

    /// The entropy-coded data of the scan, re-sliced from the file the
    /// parameters were derived from.
    pub fn slice_data<'a>(&self, jpeg: &'a [u8]) -> (r: &'a [u8])
        requires
            self.data_start <= self.data_end <= jpeg@.len(),
        ensures
            r@ == jpeg@.subrange(self.data_start as int, self.data_end as int),
    {
        &jpeg[self.data_start..self.data_end]
    }
}

} // verus!
