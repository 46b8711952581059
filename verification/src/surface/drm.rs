//! Descriptors of surfaces exported as DRM PRIME buffers.

use vstd::prelude::*;
use crate::pixelformat::PixelFormat;

verus! {

/// One plane of a layer: where its data lies.
#[derive(Clone, Copy, Debug, PartialEq, Eq, Structural)]
pub struct PrimePlane {
    pub object_index: u32,
    pub offset: u32,
    pub pitch: u32,
}

impl PrimePlane {
    /// Index of the object that holds the plane's data.
    #[inline]
    pub fn object_index(&self) -> (r: u32)
        ensures
            r == self.object_index,
    {
        self.object_index
    }

    /// Offset of the plane within its object.
    #[inline]
    pub fn offset(&self) -> (r: u32)
        ensures
            r == self.offset,
    {
        self.offset
    }

    /// Distance in bytes between the starts of two rows.
    #[inline]
    pub fn pitch(&self) -> (r: u32)
        ensures
            r == self.pitch,
    {
        self.pitch
    }
}

/// One layer of an exported surface, made of up to 4 planes.
///
/// Layout, in field order: the format code and the plane count (32 bits
/// each), then 4 object indices, 4 offsets and 4 pitches (32 bits each).
#[derive(Clone, Copy, Debug)]
pub struct PrimeLayer {
    pub drm_format: PixelFormat,
    pub num_planes: u32,
    pub object_index: [u32; 4],
    pub offset: [u32; 4],
    pub pitch: [u32; 4],
}

impl PrimeLayer {
    /// The layer names no more planes than it has room for.
    pub open spec fn wf(&self) -> bool {
        self.num_planes <= 4
    }

    /// Plane `index` of the layer, as a mathematical value.
    pub open spec fn plane_at(&self, index: int) -> PrimePlane {
        PrimePlane {
            object_index: self.object_index[index],
            offset: self.offset[index],
            pitch: self.pitch[index],
        }
    }

    #[inline]
    pub fn drm_format(&self) -> (r: PixelFormat)
        ensures
            r == self.drm_format,
    {
        self.drm_format
    }

    #[inline]
    pub fn num_planes(&self) -> (r: u32)
        ensures
            r == self.num_planes,
    {
        self.num_planes
    }

    /// Plane `index` of the layer.
    pub fn plane(&self, index: u32) -> (r: PrimePlane)
        requires
            index < self.num_planes,
            index < 4,
        ensures
            r == self.plane_at(index as int),
    {
        PrimePlane {
            object_index: self.object_index[index as usize],
            offset: self.offset[index as usize],
            pitch: self.pitch[index as usize],
        }
    }

    /// The planes of the layer, in order.
    pub fn planes(&self) -> (r: Vec<PrimePlane>)
        requires
            self.wf(),
        ensures
            r@.len() == self.num_planes,
            forall|i: int| 0 <= i < self.num_planes ==> r@[i] == self.plane_at(i),
    {
        let mut planes: Vec<PrimePlane> = Vec::new();
        let mut i: u32 = 0;
        while i < self.num_planes
            invariant
                i <= self.num_planes <= 4,
                planes@.len() == i,
                forall|j: int| 0 <= j < i ==> planes@[j] == self.plane_at(j),
            decreases self.num_planes - i,
        {
            planes.push(self.plane(i));
            i += 1;
        }
        planes
    }
}

/// One memory object of an exported surface.
///
/// Layout, in field order: the file descriptor and the size (32 bits each),
/// then the format modifier (64-bit).
#[derive(Clone, Copy, Debug, PartialEq, Eq, Structural)]
pub struct PrimeObject {
    pub fd: i32,
    pub size: u32,
    pub drm_format_modifier: u64,
}

impl PrimeObject {
    /// The DMA-BUF file descriptor of the object.
    #[inline]
    pub fn fd(&self) -> (r: i32)
        ensures
            r == self.fd,
    {
        self.fd
    }

    /// The size of the object in bytes.
    #[inline]
    pub fn size(&self) -> (r: u32)
        ensures
            r == self.size,
    {
        self.size
    }

    /// The format modifier that applies to the object.
    #[inline]
    pub fn drm_format_modifier(&self) -> (r: u64)
        ensures
            r == self.drm_format_modifier,
    {
        self.drm_format_modifier
    }
}

/// Describes a surface exported as DRM PRIME buffers: up to 4 memory
/// objects and up to 4 layers that refer to them.
///
/// Layout, in field order: the format code, width, height and object count
/// (32 bits each), 4 objects, the layer count (32-bit), 4 layers.
#[derive(Clone, Copy, Debug)]
pub struct PrimeSurfaceDescriptor {
    pub fourcc: PixelFormat,
    pub width: u32,
    pub height: u32,
    pub num_objects: u32,
    pub objects: [PrimeObject; 4],
    pub num_layers: u32,
    pub layers: [PrimeLayer; 4],
}

impl PrimeSurfaceDescriptor {
    /// The descriptor names no more objects and layers than it has room for.
    pub open spec fn wf(&self) -> bool {
        self.num_objects <= 4 && self.num_layers <= 4
    }

    #[inline]
    pub fn fourcc(&self) -> (r: PixelFormat)
        ensures
            r == self.fourcc,
    {
        self.fourcc
    }

    #[inline]
    pub fn width(&self) -> (r: u32)
        ensures
            r == self.width,
    {
        self.width
    }

    #[inline]
    pub fn height(&self) -> (r: u32)
        ensures
            r == self.height,
    {
        self.height
    }

    /// The objects in use, in order.
    pub fn objects(&self) -> (r: &[PrimeObject])
        requires
            self.wf(),
        ensures
            r@ == self.objects@.take(self.num_objects as int),
    {
        let all = self.objects.as_slice();
        vstd::slice::slice_subrange(all, 0, self.num_objects as usize)
    }

    /// Object `index`.
    pub fn object(&self, index: u32) -> (r: &PrimeObject)
        requires
            index < self.num_objects,
            index < 4,
        ensures
            *r == self.objects[index as int],
    {
        &self.objects[index as usize]
    }

    /// The layers in use, in order.
    pub fn layers(&self) -> (r: &[PrimeLayer])
        requires
            self.wf(),
        ensures
            r@ == self.layers@.take(self.num_layers as int),
    {
        let all = self.layers.as_slice();
        vstd::slice::slice_subrange(all, 0, self.num_layers as usize)
    }
}

} // verus!
