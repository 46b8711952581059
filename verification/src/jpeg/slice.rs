//! The slice-level parameters of a decode job.

#![allow(non_snake_case)]
#![allow(non_upper_case_globals)]

use vstd::prelude::*;
use crate::raw::VA_PADDING_LOW;
use crate::SliceParameterBufferBase;

verus! {

/// One scan component as the decoder wants it.
///
/// Layout: three bytes, in field order.
#[derive(Clone, Copy, Debug, PartialEq, Eq, Structural)]
pub struct ScanComponent {
    pub component_selector: u8,
    pub dc_table_selector: u8,
    pub ac_table_selector: u8,
}

impl ScanComponent {
    /// The component with every field zero: the content of an unused slot.
    pub open spec fn zeroed() -> Self {
        ScanComponent { component_selector: 0, dc_table_selector: 0, ac_table_selector: 0 }
    }
}

/// The mathematical content of a [`SliceParameterBuffer`].
pub struct SliceView {
    pub base: SliceParameterBufferBase,
    pub slice_horizontal_position: u32,
    pub slice_vertical_position: u32,
    /// The components pushed so far, in order.
    pub components: Seq<ScanComponent>,
    pub restart_interval: u16,
    pub num_mcus: u32,
}

/// Slice-level decode parameters of one scan.
///
/// Layout, in field order: the codec-independent base (3 words), the
/// horizontal and vertical slice position (32-bit each), 4 components of
/// 3 bytes, the component count (1 byte), 1 byte of padding, the restart
/// interval (16-bit), the MCU count (32-bit), then `VA_PADDING_LOW`
/// reserved 32-bit words.
#[derive(Clone, Copy)]
pub struct SliceParameterBuffer {
    pub base: SliceParameterBufferBase,
    pub slice_horizontal_position: u32,
    pub slice_vertical_position: u32,
    pub components: [ScanComponent; 4],
    pub num_components: u8,
    pub restart_interval: u16,
    pub num_mcus: u32,
    pub va_reserved: [u32; VA_PADDING_LOW],
}

impl View for SliceParameterBuffer {
    type V = SliceView;

    open spec fn view(&self) -> SliceView {
        SliceView {
            base: self.base,
            slice_horizontal_position: self.slice_horizontal_position,
            slice_vertical_position: self.slice_vertical_position,
            components: self.components@.take(self.num_components as int),
            restart_interval: self.restart_interval,
            num_mcus: self.num_mcus,
        }
    }
}

impl SliceParameterBuffer {
    /// The record is as the builder functions leave it: it counts at most
    /// 4 components, and the component slots behind them and the reserved
    /// words are all zero.
    pub open spec fn wf(&self) -> bool {
        &&& self.num_components <= 4
        &&& forall|i: int|
            self.num_components <= i < 4 ==> self.components[i] == ScanComponent::zeroed()
        &&& forall|i: int| 0 <= i < VA_PADDING_LOW ==> self.va_reserved[i] == 0
    }

    /// Creates a new JPEG slice parameter structure with no components, at
    /// position (0, 0).
    ///
    /// # Parameters
    ///
    /// - `base`: codec-independent slice parameters
    /// - `Ri`: number of MCUs per restart interval
    /// - `num_mcus`: total number of MCUs in this scan
    pub fn new(base: SliceParameterBufferBase, Ri: u16, num_mcus: u32) -> (r: Self)
        ensures
            r.wf(),
            r.num_components == 0,
            r@ == (SliceView {
                base,
                slice_horizontal_position: 0,
                slice_vertical_position: 0,
                components: Seq::empty(),
                restart_interval: Ri,
                num_mcus,
            }),
    {
        let zero = ScanComponent {
            component_selector: 0,
            dc_table_selector: 0,
            ac_table_selector: 0,
        };
        let r = SliceParameterBuffer {
            base,
            slice_horizontal_position: 0,
            slice_vertical_position: 0,
            components: [zero; 4],
            num_components: 0,
            restart_interval: Ri,
            num_mcus,
            va_reserved: [0u32; VA_PADDING_LOW],
        };
        proof {
            assert(r@.components =~= Seq::<ScanComponent>::empty());
        }
        r
    }

    /// The number of components pushed so far.
    #[inline]
    pub fn num_components(&self) -> (r: u8)
        ensures
            r == self.num_components,
    {
        self.num_components
    }

    /// The total number of MCUs in this scan.
    #[inline]
    pub fn num_mcus(&self) -> (r: u32)
        ensures
            r == self@.num_mcus,
    {
        self.num_mcus
    }

    /// The number of MCUs per restart interval.
    #[inline]
    pub fn restart_interval(&self) -> (r: u16)
        ensures
            r == self@.restart_interval,
    {
        self.restart_interval
    }

    /// The codec-independent slice parameters.
    #[inline]
    pub fn base(&self) -> (r: SliceParameterBufferBase)
        ensures
            r == self@.base,
    {
        self.base
    }

    /// The component at position `index`.
    pub fn component(&self, index: u8) -> (r: ScanComponent)
        requires
            self.num_components <= 4,
            index < self.num_components,
        ensures
            r == self@.components[index as int],
    {
        self.components[index as usize]
    }

    /// Adds a scan component.
    ///
    /// # Parameters
    ///
    /// - `Csj`: selector of the frame component.
    /// - `Tdj`: DC entropy table selector.
    /// - `Taj`: AC entropy table selector.
    pub fn push_component(&mut self, Csj: u8, Tdj: u8, Taj: u8)
        requires
            old(self).num_components < 4,
        ensures
            old(self).wf() ==> final(self).wf(),
            final(self).num_components == old(self).num_components + 1,
            final(self)@ == (SliceView {
                components: old(self)@.components.push(
                    ScanComponent {
                        component_selector: Csj,
                        dc_table_selector: Tdj,
                        ac_table_selector: Taj,
                    },
                ),
                ..old(self)@
            }),
    {
        let index = self.num_components as usize;
        self.num_components = self.num_components + 1;
        self.components[index] = ScanComponent {
            component_selector: Csj,
            dc_table_selector: Tdj,
            ac_table_selector: Taj,
        };
        proof {
            assert(self@.components =~= old(self)@.components.push(self.components[index as int]));
        }
    }
}

} // verus!
