//! JPEG-related types and utilities.
//!
//! [`parser`] splits a JPEG byte stream into marker segments, as [`syntax`]
//! defines them. The builders in [`quantization`], [`huffman`], [`picture`]
//! and [`slice`] collect what the segments define into the parameter
//! records of a hardware decode job, [`decode`] drives both over a whole
//! file, and [`layout`] turns the records into the bytes a decoder reads.

#![allow(non_snake_case)]
#![allow(non_upper_case_globals)]

pub mod baseline;
pub mod decode;
pub mod error;
pub mod huffman;
pub mod info;
pub mod layout;
pub mod parser;
pub mod picture;
pub mod quantization;
pub mod slice;
pub mod syntax;

pub use decode::{DecodeParameters, DecodeState, Phase, Record};
pub use error::JpegError;
pub use huffman::{HuffmanTable, HuffmanTableBuffer, HuffmanTableBufferView, HuffmanTableView};
pub use info::JpegInfo;
pub use picture::{Component, PictureParameterBuffer, PictureView};
pub use quantization::{IQMatrixBuffer, IQMatrixView};
pub use slice::{ScanComponent, SliceParameterBuffer, SliceView};

use vstd::prelude::*;

verus! {

/// The color space of the decoded picture.
///
/// The wrapped value is the code the driver interface uses; the associated
/// constants name the known codes.
#[derive(Clone, Copy, Debug, PartialEq, Eq, Structural)]
pub struct ColorSpace(pub u8);

impl ColorSpace {
    pub const YUV: u8 = 0;
    pub const RGB: u8 = 1;
    pub const BGR: u8 = 2;
}

/// A set of table slots, such as the slots modified since the tables were
/// last handed to the decoder.
#[derive(Clone, Copy, Debug)]
pub struct TableSet {
    /// `slots[i]` tells whether slot `i` is in the set.
    pub slots: [bool; 4],
}

impl View for TableSet {
    type V = Set<int>;

    open spec fn view(&self) -> Set<int> {
        Set::new(|i: int| 0 <= i < 4 && self.slots[i])
    }
}

impl TableSet {
    /// Whether slot `index` is in the set.
    pub fn contains(&self, index: u8) -> (r: bool)
        ensures
            r == self@.contains(index as int),
    {
        index < 4 && self.slots[index as usize]
    }

    /// Whether no slot is in the set.
    pub fn is_empty(&self) -> (r: bool)
        ensures
            r == (self@ == Set::<int>::empty()),
    {
        let r = !self.slots[0] && !self.slots[1] && !self.slots[2] && !self.slots[3];
        proof {
            if r {
                assert(self@ =~= Set::<int>::empty());
            } else {
                let i: int = if self.slots[0] {
                    0
                } else if self.slots[1] {
                    1
                } else if self.slots[2] {
                    2
                } else {
                    3
                };
                assert(self@.contains(i));
            }
        }
        r
    }
}

/// The slots of `flags` that hold a non-zero load flag.
pub open spec fn loaded_slots(flags: Seq<u8>) -> Set<int> {
    Set::new(|i: int| 0 <= i < flags.len() && flags[i] != 0)
}

/// Writes `data` over the front of `base`, keeping the rest of `base`.
pub open spec fn overlay(base: Seq<u8>, data: Seq<u8>) -> Seq<u8> {
    Seq::new(base.len(), |i: int| if i < data.len() { data[i] } else { base[i] })
}

/// Copies `src` over the front of `dst`.
pub(crate) fn copy_prefix<const N: usize>(dst: &mut [u8; N], src: &[u8])
    requires
        src.len() <= N,
    ensures
        final(dst)@ == overlay(old(dst)@, src@),
{
    let mut i: usize = 0;
    while i < src.len()
        invariant
            i <= src.len() <= N,
            forall|j: int| 0 <= j < i ==> dst@[j] == src@[j],
            forall|j: int| i <= j < N ==> dst@[j] == old(dst)@[j],
        decreases src.len() - i,
    {
        dst[i] = src[i];
        i += 1;
    }
    proof {
        assert(dst@ =~= overlay(old(dst)@, src@));
    }
}

} // verus!
