//! Subpicture formats.

use vstd::prelude::*;
use crate::image::ImageFormat;

verus! {

/// What a subpicture format supports.
///
/// The wrapped value holds the flag bits; the associated constants name the
/// known flags.
#[derive(Clone, Copy, Debug, PartialEq, Eq, Structural)]
pub struct SubpictureFlags(pub u32);

impl SubpictureFlags {
    pub const CHROMA_KEYING: u32 = 0x0001;
    pub const GLOBAL_ALPHA: u32 = 0x0002;
    pub const DESTINATION_IS_SCREEN_COORD: u32 = 0x0004;

    /// The set with no flag.
    pub fn empty() -> (r: Self)
        ensures
            r.0 == 0,
    {
        SubpictureFlags(0)
    }

    /// The raw flag bits.
    pub fn bits(&self) -> (r: u32)
        ensures
            r == self.0,
    {
        self.0
    }

    /// Whether every flag set in `other` is also set in `self`.
    pub fn contains(&self, other: SubpictureFlags) -> (r: bool)
        ensures
            r == (self.0 & other.0 == other.0),
    {
        self.0 & other.0 == other.0
    }

    /// The flags set in `self` or in `other`.
    pub fn union(&self, other: SubpictureFlags) -> (r: Self)
        ensures
            r.0 == self.0 | other.0,
    {
        SubpictureFlags(self.0 | other.0)
    }
}

/// An image format that subpictures can have, with what it supports.
#[derive(Clone, Copy, Debug)]
pub struct SubpictureFormat {
    pub format: ImageFormat,
    pub flags: SubpictureFlags,
}

impl SubpictureFormat {
    #[inline]
    pub fn image_format(&self) -> (r: &ImageFormat)
        ensures
            *r == self.format,
    {
        &self.format
    }

    #[inline]
    pub fn flags(&self) -> (r: SubpictureFlags)
        ensures
            r == self.flags,
    {
        self.flags
    }
}

/// The subpicture formats a display supports: image formats and, position
/// by position, the flags that belong to them.
#[derive(Clone)]
pub struct SubpictureFormats {
    pub formats: Vec<ImageFormat>,
    pub flags: Vec<SubpictureFlags>,
}

/// The subpicture formats that two lists pair up to, from position
/// `from` on: one for each position that both lists have.
pub open spec fn paired(formats: Seq<ImageFormat>, flags: Seq<SubpictureFlags>, from: int) -> Seq<
    SubpictureFormat,
>
    decreases formats.len() - from,
{
    if from < 0 || from >= formats.len() || from >= flags.len() {
        Seq::empty()
    } else {
        seq![SubpictureFormat { format: formats[from], flags: flags[from] }] + paired(
            formats,
            flags,
            from + 1,
        )
    }
}

impl SubpictureFormats {
    #[inline]
    pub fn len(&self) -> (r: usize)
        ensures
            r == self.formats@.len(),
    {
        self.formats.len()
    }

    #[inline]
    pub fn is_empty(&self) -> (r: bool)
        ensures
            r == (self.formats@.len() == 0),
    {
        self.formats.len() == 0
    }

    /// Starts walking the formats from the first one.
    pub fn into_iter(self) -> (r: SubpictureFormatIter)
        ensures
            r.formats@ == self.formats@,
            r.flags@ == self.flags@,
            r.next == 0,
    {
        SubpictureFormatIter { formats: self.formats, flags: self.flags, next: 0 }
    }
}

/// A walk over subpicture formats.
pub struct SubpictureFormatIter {
    pub formats: Vec<ImageFormat>,
    pub flags: Vec<SubpictureFlags>,
    /// The position of the format that comes next.
    pub next: usize,
}

impl View for SubpictureFormatIter {
    type V = Seq<SubpictureFormat>;

    /// The formats still to come.
    open spec fn view(&self) -> Seq<SubpictureFormat> {
        paired(self.formats@, self.flags@, self.next as int)
    }
}

impl SubpictureFormatIter {
    /// Hands out the format that comes next, if there is one.
    pub fn next(&mut self) -> (r: Option<SubpictureFormat>)
        ensures
            old(self)@.len() == 0 ==> r is None && final(self)@ == old(self)@,
            old(self)@.len() > 0 ==> r == Some(old(self)@[0]) && final(self)@ == old(self)@.skip(1),
            final(self).formats == old(self).formats,
            final(self).flags == old(self).flags,
    {
        if self.next < self.formats.len() && self.next < self.flags.len() {
            let r = SubpictureFormat {
                format: self.formats[self.next],
                flags: self.flags[self.next],
            };
            proof {
                assert(old(self)@.skip(1) =~= paired(
                    self.formats@,
                    self.flags@,
                    self.next as int + 1,
                ));
            }
            self.next = self.next + 1;
            Some(r)
        } else {
            None
        }
    }
}

} // verus!
