//! The picture-level parameters of a decode job.

#![allow(non_snake_case)]
#![allow(non_upper_case_globals)]

use vstd::prelude::*;
use super::ColorSpace;
use crate::raw::Rectangle;
use crate::Rotation;

verus! {

/// One frame component as the decoder wants it.
///
/// Layout: four bytes, in field order.
#[derive(Clone, Copy, Debug, PartialEq, Eq, Structural)]
pub struct Component {
    pub component_id: u8,
    pub h_sampling_factor: u8,
    pub v_sampling_factor: u8,
    pub quantiser_table_selector: u8,
}

impl Component {
    /// The component with every field zero: the content of an unused slot.
    pub open spec fn zeroed() -> Self {
        Component {
            component_id: 0,
            h_sampling_factor: 0,
            v_sampling_factor: 0,
            quantiser_table_selector: 0,
        }
    }
}

/// The mathematical content of a [`PictureParameterBuffer`].
pub struct PictureView {
    pub picture_width: u16,
    pub picture_height: u16,
    /// The components pushed so far, in order.
    pub components: Seq<Component>,
    pub color_space: ColorSpace,
    pub rotation: Rotation,
}

/// Picture-level decode parameters: the image size, its components and
/// its color space.
///
/// Layout, in field order: width and height (16-bit each), 255 components
/// of 4 bytes, the component count (1 byte), the color space (1 byte),
/// 2 bytes of padding, the rotation (32-bit), the crop rectangle (8 bytes),
/// then 5 reserved 32-bit words.
#[derive(Clone, Copy)]
pub struct PictureParameterBuffer {
    pub picture_width: u16,
    pub picture_height: u16,
    pub components: [Component; 255],
    pub num_components: u8,
    pub color_space: ColorSpace,
    pub rotation: Rotation,
    pub crop_rectangle: Rectangle,
    pub va_reserved: [u32; 5],
}

impl View for PictureParameterBuffer {
    type V = PictureView;

    open spec fn view(&self) -> PictureView {
        PictureView {
            picture_width: self.picture_width,
            picture_height: self.picture_height,
            components: self.components@.take(self.num_components as int),
            color_space: self.color_space,
            rotation: self.rotation,
        }
    }
}

impl PictureParameterBuffer {
    /// The record is as the builder functions leave it: the component
    /// slots behind the pushed components, the crop rectangle and the
    /// reserved words are all zero.
    pub open spec fn wf(&self) -> bool {
        &&& forall|i: int|
            self.num_components <= i < 255 ==> self.components[i] == Component::zeroed()
        &&& self.crop_rectangle == (Rectangle { x: 0, y: 0, width: 0, height: 0 })
        &&& forall|i: int| 0 <= i < 5 ==> self.va_reserved[i] == 0
    }

    /// Parameters for a picture of the given size and color space, with no
    /// components, no rotation and every other field zero.
    pub fn new(picture_width: u16, picture_height: u16, color_space: ColorSpace) -> (r: Self)
        ensures
            r@ == (PictureView {
                picture_width,
                picture_height,
                components: Seq::empty(),
                color_space,
                rotation: Rotation(Rotation::NONE),
            }),
            r.num_components == 0,
            r.wf(),
    {
        let zero = Component {
            component_id: 0,
            h_sampling_factor: 0,
            v_sampling_factor: 0,
            quantiser_table_selector: 0,
        };
        let r = PictureParameterBuffer {
            picture_width,
            picture_height,
            components: [zero; 255],
            num_components: 0,
            color_space,
            rotation: Rotation(Rotation::NONE),
            crop_rectangle: Rectangle::zeroed(),
            va_reserved: [0u32; 5],
        };
        proof {
            assert(r@.components =~= Seq::<Component>::empty());
        }
        r
    }

    #[inline]
    pub fn picture_width(&self) -> (r: u16)
        ensures
            r == self@.picture_width,
    {
        self.picture_width
    }

    #[inline]
    pub fn picture_height(&self) -> (r: u16)
        ensures
            r == self@.picture_height,
    {
        self.picture_height
    }

    /// The number of components pushed so far.
    #[inline]
    pub fn num_components(&self) -> (r: u8)
        ensures
            r == self@.components.len(),
    {
        self.num_components
    }

    /// The component at position `index`.
    pub fn component(&self, index: u8) -> (r: Component)
        requires
            index < self@.components.len(),
        ensures
            r == self@.components[index as int],
    {
        self.components[index as usize]
    }

    #[inline]
    pub fn set_rotation(&mut self, rotation: Rotation)
        ensures
            *final(self) == (PictureParameterBuffer { rotation, ..*old(self) }),
            final(self)@ == (PictureView { rotation, ..old(self)@ }),
    {
        self.rotation = rotation;
    }

    /// Adds a frame component.
    ///
    /// # Parameters
    ///
    /// - `Ci`: component identifier.
    /// - `Hi`: horizontal sampling factor.
    /// - `Vi`: vertical sampling factor.
    /// - `Tqi`: quantization table destination selector.
    pub fn push_component(&mut self, Ci: u8, Hi: u8, Vi: u8, Tqi: u8)
        requires
            old(self)@.components.len() < 255,
        ensures
            final(self)@ == (PictureView {
                components: old(self)@.components.push(
                    Component {
                        component_id: Ci,
                        h_sampling_factor: Hi,
                        v_sampling_factor: Vi,
                        quantiser_table_selector: Tqi,
                    },
                ),
                ..old(self)@
            }),
            final(self).num_components == old(self).num_components + 1,
            old(self).wf() ==> final(self).wf(),
    {
        let index = self.num_components as usize;
        self.num_components = self.num_components + 1;
        self.components[index] = Component {
            component_id: Ci,
            h_sampling_factor: Hi,
            v_sampling_factor: Vi,
            quantiser_table_selector: Tqi,
        };
        proof {
            assert(self@.components =~= old(self)@.components.push(self.components[index as int]));
        }
    }
}

} // verus!
