//! The Huffman tables of a decode job, and the tables that ITU-T T.81
//! recommends for files that define none.

#![allow(non_snake_case)]
#![allow(non_upper_case_globals)]

use vstd::prelude::*;
use super::syntax::sum_bytes;
use super::{copy_prefix, loaded_slots, overlay, TableSet};
use crate::raw::VA_PADDING_LOW;

verus! {

/// The mathematical content of a [`HuffmanTable`].
pub struct HuffmanTableView {
    /// Number of DC codes of each length 1 to 16.
    pub num_dc_codes: Seq<u8>,
    /// The 12 DC symbol values.
    pub dc_values: Seq<u8>,
    /// Number of AC codes of each length 1 to 16.
    pub num_ac_codes: Seq<u8>,
    /// The 162 AC symbol values.
    pub ac_values: Seq<u8>,
}

impl HuffmanTableView {
    /// A table with every count and value zero.
    pub open spec fn zeroed() -> Self {
        HuffmanTableView {
            num_dc_codes: Seq::new(16, |i: int| 0u8),
            dc_values: Seq::new(12, |i: int| 0u8),
            num_ac_codes: Seq::new(16, |i: int| 0u8),
            ac_values: Seq::new(162, |i: int| 0u8),
        }
    }

    /// The DC counts and values overwritten from the front with `Li` and
    /// `Vij`; positions behind the given data keep their content.
    pub open spec fn set_dc(self, Li: Seq<u8>, Vij: Seq<u8>) -> Self {
        HuffmanTableView {
            num_dc_codes: overlay(self.num_dc_codes, Li),
            dc_values: overlay(self.dc_values, Vij),
            ..self
        }
    }

    /// The AC counts and values overwritten from the front with `Li` and
    /// `Vij`; positions behind the given data keep their content.
    pub open spec fn set_ac(self, Li: Seq<u8>, Vij: Seq<u8>) -> Self {
        HuffmanTableView {
            num_ac_codes: overlay(self.num_ac_codes, Li),
            ac_values: overlay(self.ac_values, Vij),
            ..self
        }
    }

    /// The table ITU-T T.81 recommends for luminance data (tables K.3 and K.5).
    pub open spec fn default_luminance() -> Self {
        Self::zeroed().set_dc(luminance_dc_counts(), dc_symbols()).set_ac(
            luminance_ac_counts(),
            luminance_ac_symbols(),
        )
    }

    /// The table ITU-T T.81 recommends for chrominance data (tables K.4 and K.6).
    pub open spec fn default_chrominance() -> Self {
        Self::zeroed().set_dc(chrominance_dc_counts(), dc_symbols()).set_ac(
            chrominance_ac_counts(),
            chrominance_ac_symbols(),
        )
    }
}

/// Code counts of the recommended luminance DC table.
pub open spec fn luminance_dc_counts() -> Seq<u8> {
    seq![0u8, 1, 5, 1, 1, 1, 1, 1, 1, 0, 0, 0]
}

/// Code counts of the recommended chrominance DC table.
pub open spec fn chrominance_dc_counts() -> Seq<u8> {
    seq![0u8, 3, 1, 1, 1, 1, 1, 1, 1, 1, 1, 0]
}

/// Symbol values of both recommended DC tables: the categories 0 to 11.
pub open spec fn dc_symbols() -> Seq<u8> {
    Seq::new(12, |i: int| i as u8)
}

/// Code counts of the recommended luminance AC table.
pub open spec fn luminance_ac_counts() -> Seq<u8> {
    seq![0u8, 2, 1, 3, 3, 2, 4, 3, 5, 5, 4, 4, 0, 0, 1, 125]
}

/// Code counts of the recommended chrominance AC table.
pub open spec fn chrominance_ac_counts() -> Seq<u8> {
    seq![0u8, 2, 1, 2, 4, 4, 3, 4, 7, 5, 4, 4, 0, 1, 2, 119]
}

/// Symbol values of the recommended luminance AC table.
pub open spec fn luminance_ac_symbols() -> Seq<u8> {
    LUMINANCE_AC_SYMBOLS@
}

/// Symbol values of the recommended chrominance AC table.
pub open spec fn chrominance_ac_symbols() -> Seq<u8> {
    CHROMINANCE_AC_SYMBOLS@
}

/// Symbol values of the recommended luminance AC table, in code order.
pub const LUMINANCE_AC_SYMBOLS: [u8; 162] = [
    0x01, 0x02, 0x03, 0x00, 0x04, 0x11, 0x05, 0x12,
    0x21, 0x31, 0x41, 0x06, 0x13, 0x51, 0x61, 0x07,
    0x22, 0x71, 0x14, 0x32, 0x81, 0x91, 0xa1, 0x08,
    0x23, 0x42, 0xb1, 0xc1, 0x15, 0x52, 0xd1, 0xf0,
    0x24, 0x33, 0x62, 0x72, 0x82, 0x09, 0x0a, 0x16,
    0x17, 0x18, 0x19, 0x1a, 0x25, 0x26, 0x27, 0x28,
    0x29, 0x2a, 0x34, 0x35, 0x36, 0x37, 0x38, 0x39,
    0x3a, 0x43, 0x44, 0x45, 0x46, 0x47, 0x48, 0x49,
    0x4a, 0x53, 0x54, 0x55, 0x56, 0x57, 0x58, 0x59,
    0x5a, 0x63, 0x64, 0x65, 0x66, 0x67, 0x68, 0x69,
    0x6a, 0x73, 0x74, 0x75, 0x76, 0x77, 0x78, 0x79,
    0x7a, 0x83, 0x84, 0x85, 0x86, 0x87, 0x88, 0x89,
    0x8a, 0x92, 0x93, 0x94, 0x95, 0x96, 0x97, 0x98,
    0x99, 0x9a, 0xa2, 0xa3, 0xa4, 0xa5, 0xa6, 0xa7,
    0xa8, 0xa9, 0xaa, 0xb2, 0xb3, 0xb4, 0xb5, 0xb6,
    0xb7, 0xb8, 0xb9, 0xba, 0xc2, 0xc3, 0xc4, 0xc5,
    0xc6, 0xc7, 0xc8, 0xc9, 0xca, 0xd2, 0xd3, 0xd4,
    0xd5, 0xd6, 0xd7, 0xd8, 0xd9, 0xda, 0xe1, 0xe2,
    0xe3, 0xe4, 0xe5, 0xe6, 0xe7, 0xe8, 0xe9, 0xea,
    0xf1, 0xf2, 0xf3, 0xf4, 0xf5, 0xf6, 0xf7, 0xf8,
    0xf9, 0xfa,
];

/// Symbol values of the recommended chrominance AC table, in code order.
pub const CHROMINANCE_AC_SYMBOLS: [u8; 162] = [
    0x00, 0x01, 0x02, 0x03, 0x11, 0x04, 0x05, 0x21,
    0x31, 0x06, 0x12, 0x41, 0x51, 0x07, 0x61, 0x71,
    0x13, 0x22, 0x32, 0x81, 0x08, 0x14, 0x42, 0x91,
    0xa1, 0xb1, 0xc1, 0x09, 0x23, 0x33, 0x52, 0xf0,
    0x15, 0x62, 0x72, 0xd1, 0x0a, 0x16, 0x24, 0x34,
    0xe1, 0x25, 0xf1, 0x17, 0x18, 0x19, 0x1a, 0x26,
    0x27, 0x28, 0x29, 0x2a, 0x35, 0x36, 0x37, 0x38,
    0x39, 0x3a, 0x43, 0x44, 0x45, 0x46, 0x47, 0x48,
    0x49, 0x4a, 0x53, 0x54, 0x55, 0x56, 0x57, 0x58,
    0x59, 0x5a, 0x63, 0x64, 0x65, 0x66, 0x67, 0x68,
    0x69, 0x6a, 0x73, 0x74, 0x75, 0x76, 0x77, 0x78,
    0x79, 0x7a, 0x82, 0x83, 0x84, 0x85, 0x86, 0x87,
    0x88, 0x89, 0x8a, 0x92, 0x93, 0x94, 0x95, 0x96,
    0x97, 0x98, 0x99, 0x9a, 0xa2, 0xa3, 0xa4, 0xa5,
    0xa6, 0xa7, 0xa8, 0xa9, 0xaa, 0xb2, 0xb3, 0xb4,
    0xb5, 0xb6, 0xb7, 0xb8, 0xb9, 0xba, 0xc2, 0xc3,
    0xc4, 0xc5, 0xc6, 0xc7, 0xc8, 0xc9, 0xca, 0xd2,
    0xd3, 0xd4, 0xd5, 0xd6, 0xd7, 0xd8, 0xd9, 0xda,
    0xe2, 0xe3, 0xe4, 0xe5, 0xe6, 0xe7, 0xe8, 0xe9,
    0xea, 0xf2, 0xf3, 0xf4, 0xf5, 0xf6, 0xf7, 0xf8,
    0xf9, 0xfa,
];

/// Each recommended table has as many symbol values as its code counts add
/// up to: 12 in a DC table and 162 in an AC table, which fills the value
/// arrays of a [`HuffmanTable`] exactly.
pub proof fn lemma_default_tables_are_complete()
    ensures
        sum_bytes(luminance_dc_counts()) == dc_symbols().len() == 12,
        sum_bytes(chrominance_dc_counts()) == dc_symbols().len() == 12,
        sum_bytes(luminance_ac_counts()) == luminance_ac_symbols().len() == 162,
        sum_bytes(chrominance_ac_counts()) == chrominance_ac_symbols().len() == 162,
{
    reveal_with_fuel(partial_sum, 17);
    lemma_sum_of_counts(luminance_dc_counts(), 12);
    lemma_sum_of_counts(chrominance_dc_counts(), 12);
    lemma_sum_of_counts(luminance_ac_counts(), 16);
    lemma_sum_of_counts(chrominance_ac_counts(), 16);
}

/// The sum of the first `n` bytes of `s`.
spec fn partial_sum(s: Seq<u8>, n: nat) -> nat
    decreases n,
{
    if n == 0 {
        0
    } else {
        partial_sum(s, (n - 1) as nat) + s[n - 1] as nat
    }
}

/// The sum of a sequence is the sum of its bytes taken one after another.
proof fn lemma_sum_of_counts(s: Seq<u8>, n: nat)
    requires
        n <= s.len(),
    ensures
        sum_bytes(s.take(n as int)) == partial_sum(s, n),
        n == s.len() ==> sum_bytes(s) == partial_sum(s, n),
    decreases n,
{
    if n > 0 {
        lemma_sum_of_counts(s, (n - 1) as nat);
        assert(s.take(n as int).drop_last() =~= s.take(n - 1));
    }
    if n == s.len() {
        assert(s.take(n as int) =~= s);
    }
}

/// The DC and AC Huffman tables of one destination slot.
///
/// Layout, in field order: 16 DC code counts, 12 DC values, 16 AC code
/// counts, 162 AC values, 2 bytes of padding; 208 bytes.
#[derive(Clone, Copy)]
pub struct HuffmanTable {
    pub num_dc_codes: [u8; 16],
    pub dc_values: [u8; 12],
    pub num_ac_codes: [u8; 16],
    pub ac_values: [u8; 162],
    pub pad: [u8; 2],
}

impl View for HuffmanTable {
    type V = HuffmanTableView;

    open spec fn view(&self) -> HuffmanTableView {
        HuffmanTableView {
            num_dc_codes: self.num_dc_codes@,
            dc_values: self.dc_values@,
            num_ac_codes: self.num_ac_codes@,
            ac_values: self.ac_values@,
        }
    }
}

impl HuffmanTable {
    /// The record is as the builder functions leave it: the two padding
    /// bytes are zero.
    pub open spec fn wf(&self) -> bool {
        self.pad[0] == 0 && self.pad[1] == 0
    }

    /// Returns the default [`HuffmanTable`] to use for luminance data.
    pub fn default_luminance() -> (r: Self)
        ensures
            r@ == HuffmanTableView::default_luminance(),
            r.wf(),
    {
        let mut this = Self::zeroed();
        let dc_counts: [u8; 12] = [0, 1, 5, 1, 1, 1, 1, 1, 1, 0, 0, 0];
        let dc_values: [u8; 12] = [
            0x00, 0x01, 0x02, 0x03, 0x04, 0x05, 0x06, 0x07, 0x08, 0x09, 0x0a, 0x0b,
        ];
        let ac_counts: [u8; 16] = [0, 2, 1, 3, 3, 2, 4, 3, 5, 5, 4, 4, 0, 0, 1, 125];
        let ac_values: [u8; 162] = LUMINANCE_AC_SYMBOLS;
        proof {
            assert(dc_counts@ =~= luminance_dc_counts());
            assert(dc_values@ =~= dc_symbols());
            assert(ac_counts@ =~= luminance_ac_counts());
        }
        this.set_dc_table(dc_counts.as_slice(), dc_values.as_slice());
        this.set_ac_table(ac_counts.as_slice(), ac_values.as_slice());
        this
    }

    /// Returns the default [`HuffmanTable`] to use for chrominance data.
    pub fn default_chrominance() -> (r: Self)
        ensures
            r@ == HuffmanTableView::default_chrominance(),
            r.wf(),
    {
        let mut this = Self::zeroed();
        let dc_counts: [u8; 12] = [0, 3, 1, 1, 1, 1, 1, 1, 1, 1, 1, 0];
        let dc_values: [u8; 12] = [
            0x00, 0x01, 0x02, 0x03, 0x04, 0x05, 0x06, 0x07, 0x08, 0x09, 0x0a, 0x0b,
        ];
        let ac_counts: [u8; 16] = [0, 2, 1, 2, 4, 4, 3, 4, 7, 5, 4, 4, 0, 1, 2, 119];
        let ac_values: [u8; 162] = CHROMINANCE_AC_SYMBOLS;
        proof {
            assert(dc_counts@ =~= chrominance_dc_counts());
            assert(dc_values@ =~= dc_symbols());
            assert(ac_counts@ =~= chrominance_ac_counts());
        }
        this.set_dc_table(dc_counts.as_slice(), dc_values.as_slice());
        this.set_ac_table(ac_counts.as_slice(), ac_values.as_slice());
        this
    }

    /// A table with every count and value zero.
    pub fn zeroed() -> (r: Self)
        ensures
            r@ == HuffmanTableView::zeroed(),
            r.wf(),
    {
        let r = HuffmanTable {
            num_dc_codes: [0u8; 16],
            dc_values: [0u8; 12],
            num_ac_codes: [0u8; 16],
            ac_values: [0u8; 162],
            pad: [0u8; 2],
        };
        proof {
            assert(r@.num_dc_codes =~= HuffmanTableView::zeroed().num_dc_codes);
            assert(r@.dc_values =~= HuffmanTableView::zeroed().dc_values);
            assert(r@.num_ac_codes =~= HuffmanTableView::zeroed().num_ac_codes);
            assert(r@.ac_values =~= HuffmanTableView::zeroed().ac_values);
        }
        r
    }

    /// Writes a DC table: `Li` over the front of the code counts and `Vij`
    /// over the front of the values.
    pub fn set_dc_table(&mut self, Li: &[u8], Vij: &[u8])
        requires
            Li@.len() <= 16,
            Vij@.len() <= 12,
        ensures
            final(self)@ == old(self)@.set_dc(Li@, Vij@),
            final(self).pad == old(self).pad,
    {
        copy_prefix(&mut self.num_dc_codes, Li);
        copy_prefix(&mut self.dc_values, Vij);
    }

    /// Writes an AC table: `Li` over the front of the code counts and `Vij`
    /// over the front of the values.
    pub fn set_ac_table(&mut self, Li: &[u8], Vij: &[u8])
        requires
            Li@.len() <= 16,
            Vij@.len() <= 162,
        ensures
            final(self)@ == old(self)@.set_ac(Li@, Vij@),
            final(self).pad == old(self).pad,
    {
        copy_prefix(&mut self.num_ac_codes, Li);
        copy_prefix(&mut self.ac_values, Vij);
    }
}

/// The mathematical content of a [`HuffmanTableBuffer`].
pub struct HuffmanTableBufferView {
    /// The slots written since the modification marks were last cleared.
    pub dirty: Set<int>,
    /// The two tables.
    pub tables: Seq<HuffmanTableView>,
}

impl HuffmanTableBufferView {
    /// Two all-zero tables, none marked modified.
    pub open spec fn zeroed() -> Self {
        HuffmanTableBufferView {
            dirty: Set::empty(),
            tables: seq![HuffmanTableView::zeroed(), HuffmanTableView::zeroed()],
        }
    }

    /// Slot `index` overwritten with `table` and marked modified.
    pub open spec fn set(self, index: int, table: HuffmanTableView) -> Self {
        HuffmanTableBufferView {
            dirty: self.dirty.insert(index),
            tables: self.tables.update(index, table),
        }
    }

    /// The same tables with no slot marked modified.
    pub open spec fn clear_modified(self) -> Self {
        HuffmanTableBufferView { dirty: Set::empty(), tables: self.tables }
    }

    /// The recommended luminance table in slot 0 and the recommended
    /// chrominance table in slot 1, both marked modified.
    pub open spec fn default_tables() -> Self {
        Self::zeroed().set(0, HuffmanTableView::default_luminance()).set(
            1,
            HuffmanTableView::default_chrominance(),
        )
    }
}

/// Stores up to 2 [`HuffmanTable`]s and remembers which have been modified and need reloading.
///
/// Layout, in field order: 2 load flags (1 byte each), 2 tables of 208
/// bytes, 2 bytes of padding, then `VA_PADDING_LOW` reserved 32-bit words.
#[derive(Clone, Copy)]
pub struct HuffmanTableBuffer {
    /// `load_huffman_table[i]` is 1 when table `i` must be reloaded.
    pub load_huffman_table: [u8; 2],
    pub huffman_table: [HuffmanTable; 2],
    pub va_reserved: [u32; VA_PADDING_LOW],
}

impl View for HuffmanTableBuffer {
    type V = HuffmanTableBufferView;

    open spec fn view(&self) -> HuffmanTableBufferView {
        HuffmanTableBufferView {
            dirty: loaded_slots(self.load_huffman_table@),
            tables: Seq::new(2, |i: int| self.huffman_table[i]@),
        }
    }
}

impl HuffmanTableBuffer {
    /// The record is as the builder functions leave it: every load flag is
    /// 0 or 1, and the padding of both tables and the reserved words are
    /// all zero.
    pub open spec fn wf(&self) -> bool {
        &&& forall|i: int| 0 <= i < 2 ==> self.load_huffman_table[i] <= 1
        &&& forall|i: int| 0 <= i < 2 ==> (#[trigger] self.huffman_table[i]).wf()
        &&& forall|i: int| 0 <= i < VA_PADDING_LOW ==> self.va_reserved[i] == 0
    }

    /// The recommended luminance table in slot 0 and the recommended
    /// chrominance table in slot 1, both marked modified.
    pub fn default_tables() -> (r: Self)
        ensures
            r@ == HuffmanTableBufferView::default_tables(),
            r.wf(),
    {
        let mut this = Self::zeroed();
        this.set_huffman_table(0, &HuffmanTable::default_luminance());
        this.set_huffman_table(1, &HuffmanTable::default_chrominance());
        this
    }

    /// Two all-zero tables, none marked modified.
    pub fn zeroed() -> (r: Self)
        ensures
            r@ == HuffmanTableBufferView::zeroed(),
            r.wf(),
    {
        let r = HuffmanTableBuffer {
            load_huffman_table: [0u8; 2],
            huffman_table: [HuffmanTable::zeroed(); 2],
            va_reserved: [0u32; VA_PADDING_LOW],
        };
        proof {
            assert(r@.dirty =~= Set::<int>::empty());
            assert(r@.tables =~= HuffmanTableBufferView::zeroed().tables);
        }
        r
    }

    /// Overwrites the table in slot `index` and marks the slot modified.
    ///
    /// Returns the set of slots that are now marked modified.
    pub fn set_huffman_table(&mut self, index: u8, tbl: &HuffmanTable) -> (modified: TableSet)
        requires
            index <= 1,
        ensures
            final(self)@ == old(self)@.set(index as int, tbl@),
            final(self).va_reserved == old(self).va_reserved,
            old(self).wf() && tbl.wf() ==> final(self).wf(),
            modified@ == final(self)@.dirty,
    {
        let index = index as usize;
        self.huffman_table[index] = *tbl;
        self.load_huffman_table[index] = 1;
        proof {
            assert(self@.dirty =~= old(self)@.dirty.insert(index as int));
            assert(self@.tables =~= old(self)@.tables.update(index as int, tbl@));
        }
        self.modified()
    }

    /// Marks slot `index` modified and hands out its table for writing.
    pub fn huffman_table_mut(&mut self, index: u8) -> (r: &mut HuffmanTable)
        requires
            index <= 1,
        ensures
            *r == old(self).huffman_table[index as int],
            final(self)@.dirty =~= old(self)@.dirty.insert(index as int),
            final(self)@.tables =~= old(self)@.tables.update(index as int, final(r)@),
            final(self).huffman_table@ == old(self).huffman_table@.update(
                index as int,
                *final(r),
            ),
            final(self).load_huffman_table@ == old(self).load_huffman_table@.update(
                index as int,
                1u8,
            ),
            final(self).va_reserved == old(self).va_reserved,
    {
        let index = index as usize;
        self.load_huffman_table[index] = 1;
        proof {
            assert(loaded_slots(self.load_huffman_table@) =~= old(self)@.dirty.insert(
                index as int,
            ));
        }
        &mut self.huffman_table[index]
    }

    /// The table in slot `index`.
    pub fn huffman_table(&self, index: u8) -> (r: &HuffmanTable)
        requires
            index <= 1,
        ensures
            r@ == self@.tables[index as int],
    {
        &self.huffman_table[index as usize]
    }

    /// The set of slots written since the marks were last cleared.
    pub fn modified(&self) -> (r: TableSet)
        ensures
            r@ == self@.dirty,
    {
        let r = TableSet {
            slots: [self.load_huffman_table[0] != 0, self.load_huffman_table[1] != 0, false, false],
        };
        proof {
            assert(r@ =~= self@.dirty);
        }
        r
    }

    /// Clears the modification marks, leaving the tables as they are.
    ///
    /// Returns the set of slots that were marked, for the caller to reload.
    pub fn clear_modified(&mut self) -> (cleared: TableSet)
        ensures
            final(self)@ == old(self)@.clear_modified(),
            final(self).va_reserved == old(self).va_reserved,
            old(self).wf() ==> final(self).wf(),
            cleared@ == old(self)@.dirty,
    {
        let cleared = self.modified();
        self.load_huffman_table = [0; 2];
        proof {
            assert(self@.dirty =~= Set::<int>::empty());
            assert(self@.tables =~= old(self)@.tables);
        }
        cleared
    }
}

} // verus!
