//! The byte layout of the decode parameter records.
//!
//! A hardware decoder reads each record from memory at fixed offsets. The
//! `layout` functions say, byte for byte, what a record looks like in the
//! memory of a little-endian machine: the fields in declaration order, each
//! multi-byte field with its lowest byte first, with zero bytes where the
//! decoder's structure has padding. The `to_bytes` functions produce exactly
//! those bytes.

use vstd::prelude::*;
use super::{
    Component, HuffmanTable, HuffmanTableBuffer, IQMatrixBuffer, PictureParameterBuffer,
    ScanComponent, SliceParameterBuffer,
};
use crate::raw::Rectangle;
use crate::SliceParameterBufferBase;

verus! {

/// The two bytes of a 16-bit value, lowest first.
pub open spec fn le16(value: u16) -> Seq<u8> {
    seq![(value % 0x100) as u8, (value / 0x100) as u8]
}

/// The four bytes of a 32-bit value, lowest first.
pub open spec fn le32(value: u32) -> Seq<u8> {
    seq![
        (value % 0x100) as u8,
        (value / 0x100 % 0x100) as u8,
        (value / 0x1_0000 % 0x100) as u8,
        (value / 0x100_0000) as u8,
    ]
}

/// The 16 bits of a signed value, read as an unsigned one.
pub open spec fn bits16(value: i16) -> u16 {
    if value >= 0 {
        value as u16
    } else {
        (value + 0x1_0000) as u16
    }
}

/// `n` zero bytes.
pub open spec fn zeros(n: nat) -> Seq<u8> {
    Seq::new(n, |i: int| 0u8)
}

/// The bytes of a sequence of 32-bit words, word after word.
pub open spec fn words(values: Seq<u32>) -> Seq<u8> {
    Seq::new(4 * values.len(), |i: int| le32(values[i / 4])[i % 4])
}

/// The bytes of a sequence of picture components, four bytes each.
pub open spec fn component_bytes(components: Seq<Component>) -> Seq<u8> {
    Seq::new(
        4 * components.len(),
        |i: int|
            {
                let c = components[i / 4];
                if i % 4 == 0 {
                    c.component_id
                } else if i % 4 == 1 {
                    c.h_sampling_factor
                } else if i % 4 == 2 {
                    c.v_sampling_factor
                } else {
                    c.quantiser_table_selector
                }
            },
    )
}

/// The bytes of a sequence of slice components, three bytes each.
pub open spec fn scan_component_bytes(components: Seq<ScanComponent>) -> Seq<u8> {
    Seq::new(
        3 * components.len(),
        |i: int|
            {
                let c = components[i / 3];
                if i % 3 == 0 {
                    c.component_selector
                } else if i % 3 == 1 {
                    c.dc_table_selector
                } else {
                    c.ac_table_selector
                }
            },
    )
}

fn push_le16(out: &mut Vec<u8>, value: u16)
    ensures
        final(out)@ == old(out)@ + le16(value),
{
    out.push((value % 0x100) as u8);
    out.push((value / 0x100) as u8);
    proof {
        assert(out@ =~= old(out)@ + le16(value));
    }
}

fn push_le32(out: &mut Vec<u8>, value: u32)
    ensures
        final(out)@ == old(out)@ + le32(value),
{
    out.push((value % 0x100) as u8);
    out.push((value / 0x100 % 0x100) as u8);
    out.push((value / 0x1_0000 % 0x100) as u8);
    out.push((value / 0x100_0000) as u8);
    proof {
        assert(out@ =~= old(out)@ + le32(value));
    }
}

fn push_zeros(out: &mut Vec<u8>, n: usize)
    ensures
        final(out)@ == old(out)@ + zeros(n as nat),
{
    let mut i: usize = 0;
    while i < n
        invariant
            i <= n,
            out@ == old(out)@ + zeros(i as nat),
        decreases n - i,
    {
        out.push(0);
        proof {
            assert(out@ =~= old(out)@ + zeros((i + 1) as nat));
        }
        i += 1;
    }
}

fn push_words(out: &mut Vec<u8>, values: &[u32])
    ensures
        final(out)@ == old(out)@ + words(values@),
{
    let mut i: usize = 0;
    proof {
        assert(out@ =~= old(out)@ + words(values@.take(0)));
    }
    while i < values.len()
        invariant
            i <= values.len(),
            out@ == old(out)@ + words(values@.take(i as int)),
        decreases values.len() - i,
    {
        let ghost before = out@;
        push_le32(out, values[i]);
        proof {
            assert(words(values@.take(i + 1)) =~= words(values@.take(i as int)) + le32(
                values@[i as int],
            ));
            assert(out@ =~= old(out)@ + words(values@.take(i + 1)));
        }
        i += 1;
    }
    proof {
        assert(values@.take(values.len() as int) =~= values@);
    }
}

impl SliceParameterBufferBase {
    /// The record in memory: size, offset and flags, 32 bits each; 12 bytes.
    pub open spec fn layout(&self) -> Seq<u8> {
        le32(self.slice_data_size) + le32(self.slice_data_offset) + le32(self.slice_data_flags.0)
    }
}

impl Rectangle {
    /// The record in memory: x, y, width, height, 16 bits each; 8 bytes.
    pub open spec fn layout(&self) -> Seq<u8> {
        le16(bits16(self.x)) + le16(bits16(self.y)) + le16(self.width) + le16(self.height)
    }
}

/// The 16 bits of a signed value, read as an unsigned one.
fn unsigned16(value: i16) -> (r: u16)
    ensures
        r == bits16(value),
{
    if value >= 0 {
        value as u16
    } else {
        (value as i32 + 0x1_0000) as u16
    }
}

impl IQMatrixBuffer {
    /// The size of the record in memory.
    pub const SIZE: usize = 276;

    /// The record in memory: the 4 load flags, the 4 tables of 64 bytes,
    /// the reserved words.
    pub open spec fn layout(&self) -> Seq<u8> {
        self.load_quantiser_table@ + self.quantiser_table[0]@ + self.quantiser_table[1]@
            + self.quantiser_table[2]@ + self.quantiser_table[3]@ + words(self.va_reserved@)
    }

    /// The record as the bytes a decoder reads.
    pub fn to_bytes(&self) -> (r: Vec<u8>)
        ensures
            r@ == self.layout(),
            r@.len() == IQMatrixBuffer::SIZE,
    {
        let mut out: Vec<u8> = Vec::new();
        out.extend_from_slice(self.load_quantiser_table.as_slice());
        out.extend_from_slice(self.quantiser_table[0].as_slice());
        out.extend_from_slice(self.quantiser_table[1].as_slice());
        out.extend_from_slice(self.quantiser_table[2].as_slice());
        out.extend_from_slice(self.quantiser_table[3].as_slice());
        push_words(&mut out, self.va_reserved.as_slice());
        proof {
            assert(out@ =~= self.layout());
        }
        out
    }
}

impl HuffmanTable {
    /// The size of the record in memory.
    pub const SIZE: usize = 208;

    /// The record in memory: 16 DC code counts, 12 DC values, 16 AC code
    /// counts, 162 AC values, 2 bytes of padding.
    pub open spec fn layout(&self) -> Seq<u8> {
        self.num_dc_codes@ + self.dc_values@ + self.num_ac_codes@ + self.ac_values@ + self.pad@
    }

    /// Appends the record as the bytes a decoder reads.
    fn write_to(&self, out: &mut Vec<u8>)
        ensures
            final(out)@ == old(out)@ + self.layout(),
    {
        out.extend_from_slice(self.num_dc_codes.as_slice());
        out.extend_from_slice(self.dc_values.as_slice());
        out.extend_from_slice(self.num_ac_codes.as_slice());
        out.extend_from_slice(self.ac_values.as_slice());
        out.extend_from_slice(self.pad.as_slice());
        proof {
            assert(out@ =~= old(out)@ + self.layout());
        }
    }

    /// The record as the bytes a decoder reads.
    pub fn to_bytes(&self) -> (r: Vec<u8>)
        ensures
            r@ == self.layout(),
            r@.len() == HuffmanTable::SIZE,
    {
        let mut out: Vec<u8> = Vec::new();
        self.write_to(&mut out);
        proof {
            assert(out@ =~= self.layout());
        }
        out
    }
}

impl HuffmanTableBuffer {
    /// The size of the record in memory.
    pub const SIZE: usize = 436;

    /// The record in memory: the 2 load flags, the 2 tables, 2 bytes of
    /// padding that align the reserved words, the reserved words.
    pub open spec fn layout(&self) -> Seq<u8> {
        self.load_huffman_table@ + self.huffman_table[0].layout() + self.huffman_table[1].layout()
            + zeros(2) + words(self.va_reserved@)
    }

    /// The record as the bytes a decoder reads.
    pub fn to_bytes(&self) -> (r: Vec<u8>)
        ensures
            r@ == self.layout(),
            r@.len() == HuffmanTableBuffer::SIZE,
    {
        let mut out: Vec<u8> = Vec::new();
        out.extend_from_slice(self.load_huffman_table.as_slice());
        self.huffman_table[0].write_to(&mut out);
        self.huffman_table[1].write_to(&mut out);
        push_zeros(&mut out, 2);
        push_words(&mut out, self.va_reserved.as_slice());
        proof {
            assert(out@ =~= self.layout());
        }
        out
    }
}

impl PictureParameterBuffer {
    /// The size of the record in memory.
    pub const SIZE: usize = 1060;

    /// The record in memory: width and height (16 bits each), the 255
    /// component slots of 4 bytes, the component count and the color space
    /// (1 byte each), 2 bytes of padding that align the rotation, the
    /// rotation (32 bits), the crop rectangle, the reserved words.
    pub open spec fn layout(&self) -> Seq<u8> {
        le16(self.picture_width) + le16(self.picture_height) + component_bytes(self.components@)
            + seq![self.num_components, self.color_space.0] + zeros(2) + le32(self.rotation.0)
            + self.crop_rectangle.layout() + words(self.va_reserved@)
    }

    /// The record as the bytes a decoder reads.
    pub fn to_bytes(&self) -> (r: Vec<u8>)
        ensures
            r@ == self.layout(),
            r@.len() == PictureParameterBuffer::SIZE,
    {
        let mut out: Vec<u8> = Vec::new();
        push_le16(&mut out, self.picture_width);
        push_le16(&mut out, self.picture_height);
        let ghost head = out@;
        let mut i: usize = 0;
        proof {
            assert(out@ =~= head + component_bytes(self.components@.take(0)));
        }
        while i < 255
            invariant
                i <= 255,
                out@ == head + component_bytes(self.components@.take(i as int)),
            decreases 255 - i,
        {
            let c = self.components[i];
            out.push(c.component_id);
            out.push(c.h_sampling_factor);
            out.push(c.v_sampling_factor);
            out.push(c.quantiser_table_selector);
            proof {
                assert(out@ =~= head + component_bytes(self.components@.take(i + 1)));
            }
            i += 1;
        }
        proof {
            assert(self.components@.take(255) =~= self.components@);
        }
        out.push(self.num_components);
        out.push(self.color_space.0);
        push_zeros(&mut out, 2);
        push_le32(&mut out, self.rotation.0);
        push_le16(&mut out, unsigned16(self.crop_rectangle.x));
        push_le16(&mut out, unsigned16(self.crop_rectangle.y));
        push_le16(&mut out, self.crop_rectangle.width);
        push_le16(&mut out, self.crop_rectangle.height);
        push_words(&mut out, self.va_reserved.as_slice());
        proof {
            assert(out@ =~= self.layout());
        }
        out
    }
}

impl SliceParameterBuffer {
    /// The size of the record in memory.
    pub const SIZE: usize = 56;

    /// The record in memory: the codec-independent base, the horizontal and
    /// the vertical slice position (32 bits each), the 4 component slots of
    /// 3 bytes, the component count (1 byte), 1 byte of padding that aligns
    /// the restart interval, the restart interval (16 bits), the MCU count
    /// (32 bits), the reserved words.
    pub open spec fn layout(&self) -> Seq<u8> {
        self.base.layout() + le32(self.slice_horizontal_position) + le32(
            self.slice_vertical_position,
        ) + scan_component_bytes(self.components@) + seq![self.num_components] + zeros(1) + le16(
            self.restart_interval,
        ) + le32(self.num_mcus) + words(self.va_reserved@)
    }

    /// The record as the bytes a decoder reads.
    pub fn to_bytes(&self) -> (r: Vec<u8>)
        ensures
            r@ == self.layout(),
            r@.len() == SliceParameterBuffer::SIZE,
    {
        let mut out: Vec<u8> = Vec::new();
        push_le32(&mut out, self.base.slice_data_size);
        push_le32(&mut out, self.base.slice_data_offset);
        push_le32(&mut out, self.base.slice_data_flags.0);
        push_le32(&mut out, self.slice_horizontal_position);
        push_le32(&mut out, self.slice_vertical_position);
        let ghost head = out@;
        let mut i: usize = 0;
        proof {
            assert(out@ =~= head + scan_component_bytes(self.components@.take(0)));
        }
        while i < 4
            invariant
                i <= 4,
                out@ == head + scan_component_bytes(self.components@.take(i as int)),
            decreases 4 - i,
        {
            let c = self.components[i];
            out.push(c.component_selector);
            out.push(c.dc_table_selector);
            out.push(c.ac_table_selector);
            proof {
                assert(out@ =~= head + scan_component_bytes(self.components@.take(i + 1)));
            }
            i += 1;
        }
        proof {
            assert(self.components@.take(4) =~= self.components@);
        }
        out.push(self.num_components);
        push_zeros(&mut out, 1);
        push_le16(&mut out, self.restart_interval);
        push_le32(&mut out, self.num_mcus);
        push_words(&mut out, self.va_reserved.as_slice());
        proof {
            assert(out@ =~= self.layout());
        }
        out
    }
}

/// Two quantization records that the builder functions left with the same
/// content have the same bytes: what the decoder reads depends on nothing
/// but the tables and the modification marks.
pub proof fn lemma_quantization_layout_follows_content(a: IQMatrixBuffer, b: IQMatrixBuffer)
    requires
        a.wf(),
        b.wf(),
        a@ == b@,
    ensures
        a.layout() == b.layout(),
{
    assert forall|i: int| 0 <= i < 4 implies a.load_quantiser_table[i]
        == b.load_quantiser_table[i] by {
        assert(a@.dirty.contains(i) <==> a.load_quantiser_table@[i] != 0);
        assert(b@.dirty.contains(i) <==> b.load_quantiser_table@[i] != 0);
    }
    assert(a.load_quantiser_table@ =~= b.load_quantiser_table@);
    assert forall|i: int| 0 <= i < 4 implies a.quantiser_table[i]@ == b.quantiser_table[i]@ by {
        assert(a@.tables[i] == b@.tables[i]);
    }
    assert(a.va_reserved@ =~= b.va_reserved@);
}

/// Two Huffman tables that the builder functions left with the same content
/// have the same bytes.
pub proof fn lemma_huffman_table_layout_follows_content(a: HuffmanTable, b: HuffmanTable)
    requires
        a.wf(),
        b.wf(),
        a@ == b@,
    ensures
        a.layout() == b.layout(),
{
    assert(a.pad@ =~= b.pad@);
}

/// Two Huffman table records that the builder functions left with the same
/// content have the same bytes.
pub proof fn lemma_huffman_layout_follows_content(a: HuffmanTableBuffer, b: HuffmanTableBuffer)
    requires
        a.wf(),
        b.wf(),
        a@ == b@,
    ensures
        a.layout() == b.layout(),
{
    assert forall|i: int| 0 <= i < 2 implies a.load_huffman_table[i] == b.load_huffman_table[i] by {
        assert(a@.dirty.contains(i) <==> a.load_huffman_table@[i] != 0);
        assert(b@.dirty.contains(i) <==> b.load_huffman_table@[i] != 0);
    }
    assert(a.load_huffman_table@ =~= b.load_huffman_table@);
    assert(a@.tables[0] == a.huffman_table[0]@ && b@.tables[0] == b.huffman_table[0]@);
    assert(a@.tables[1] == a.huffman_table[1]@ && b@.tables[1] == b.huffman_table[1]@);
    assert(a.huffman_table[0].wf() && b.huffman_table[0].wf());
    assert(a.huffman_table[1].wf() && b.huffman_table[1].wf());
    lemma_huffman_table_layout_follows_content(a.huffman_table[0], b.huffman_table[0]);
    lemma_huffman_table_layout_follows_content(a.huffman_table[1], b.huffman_table[1]);
    assert(a.va_reserved@ =~= b.va_reserved@);
}

/// Two picture records that the builder functions left with the same
/// content have the same bytes.
pub proof fn lemma_picture_layout_follows_content(
    a: PictureParameterBuffer,
    b: PictureParameterBuffer,
)
    requires
        a.wf(),
        b.wf(),
        a@ == b@,
    ensures
        a.layout() == b.layout(),
{
    assert(a@.components.len() == a.num_components);
    assert(b@.components.len() == b.num_components);
    assert forall|i: int| 0 <= i < 255 implies a.components[i] == b.components[i] by {
        if i < a.num_components {
            assert(a@.components[i] == a.components[i]);
            assert(b@.components[i] == b.components[i]);
        }
    }
    assert(a.components@ =~= b.components@);
    assert(a.va_reserved@ =~= b.va_reserved@);
}

/// Two slice records that the builder functions left with the same content
/// have the same bytes.
pub proof fn lemma_slice_layout_follows_content(a: SliceParameterBuffer, b: SliceParameterBuffer)
    requires
        a.wf(),
        b.wf(),
        a@ == b@,
    ensures
        a.layout() == b.layout(),
{
    assert(a@.components.len() == a.num_components);
    assert(b@.components.len() == b.num_components);
    assert forall|i: int| 0 <= i < 4 implies a.components[i] == b.components[i] by {
        if i < a.num_components {
            assert(a@.components[i] == a.components[i]);
            assert(b@.components[i] == b.components[i]);
        }
    }
    assert(a.components@ =~= b.components@);
    assert(a.va_reserved@ =~= b.va_reserved@);
}

} // verus!
