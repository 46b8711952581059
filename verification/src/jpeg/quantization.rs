//! The quantization tables of a decode job.

#![allow(non_snake_case)]
#![allow(non_upper_case_globals)]

use vstd::prelude::*;
use super::{loaded_slots, TableSet};
use crate::raw::VA_PADDING_LOW;

verus! {

/// The mathematical content of an [`IQMatrixBuffer`].
pub struct IQMatrixView {
    /// The slots written since the modification marks were last cleared.
    pub dirty: Set<int>,
    /// The four tables, 64 elements each.
    pub tables: Seq<Seq<u8>>,
}

impl IQMatrixView {
    /// Four all-zero tables, none marked modified.
    pub open spec fn zeroed() -> Self {
        IQMatrixView {
            dirty: Set::empty(),
            tables: Seq::new(4, |i: int| Seq::new(64, |j: int| 0u8)),
        }
    }

    /// Slot `index` overwritten with `data` and marked modified.
    pub open spec fn set(self, index: int, data: Seq<u8>) -> Self {
        IQMatrixView { dirty: self.dirty.insert(index), tables: self.tables.update(index, data) }
    }

    /// The same tables with no slot marked modified.
    pub open spec fn clear_modified(self) -> Self {
        IQMatrixView { dirty: Set::empty(), tables: self.tables }
    }
}

/// Stores up to 4 quantizer tables and remembers which ones have been
/// modified and need reloading.
///
/// Layout, in field order: 4 load flags (1 byte each), 4 tables of 64 bytes,
/// then `VA_PADDING_LOW` reserved 32-bit words; 276 bytes, no padding.
#[derive(Clone, Copy)]
pub struct IQMatrixBuffer {
    /// `load_quantiser_table[i]` is 1 when table `i` must be reloaded.
    pub load_quantiser_table: [u8; 4],
    /// 4 quantization tables, indexed by the `Tqi` field of the color component.
    pub quantiser_table: [[u8; 64]; 4],
    pub va_reserved: [u32; VA_PADDING_LOW],
}

impl View for IQMatrixBuffer {
    type V = IQMatrixView;

    open spec fn view(&self) -> IQMatrixView {
        IQMatrixView {
            dirty: loaded_slots(self.load_quantiser_table@),
            tables: Seq::new(4, |i: int| self.quantiser_table[i]@),
        }
    }
}

impl IQMatrixBuffer {
    /// The record is as the builder functions leave it: every load flag is
    /// 0 or 1 and every reserved word is zero.
    pub open spec fn wf(&self) -> bool {
        &&& forall|i: int| 0 <= i < 4 ==> self.load_quantiser_table[i] <= 1
        &&& forall|i: int| 0 <= i < VA_PADDING_LOW ==> self.va_reserved[i] == 0
    }

    /// Four all-zero tables, none marked modified.
    pub fn new() -> (r: Self)
        ensures
            r@ == IQMatrixView::zeroed(),
            r.wf(),
    {
        let r = IQMatrixBuffer {
            load_quantiser_table: [0u8; 4],
            quantiser_table: [[0u8; 64]; 4],
            va_reserved: [0u32; VA_PADDING_LOW],
        };
        proof {
            assert(r@.dirty =~= Set::<int>::empty());
            assert(r@.tables =~~= IQMatrixView::zeroed().tables);
        }
        r
    }

    /// Overwrites the table in slot `index` and marks the slot modified.
    ///
    /// Returns the set of slots that are now marked modified.
    pub fn set_quantization_table(&mut self, index: u8, table_data: &[u8; 64]) -> (modified:
        TableSet)
        requires
            index <= 3,
        ensures
            final(self)@ == old(self)@.set(index as int, table_data@),
            final(self).va_reserved == old(self).va_reserved,
            old(self).wf() ==> final(self).wf(),
            modified@ == final(self)@.dirty,
    {
        let index = index as usize;
        self.load_quantiser_table[index] = 1;
        self.quantiser_table[index] = *table_data;
        proof {
            assert(self@.dirty =~= old(self)@.dirty.insert(index as int));
            assert(self@.tables =~= old(self)@.tables.update(index as int, table_data@));
        }
        self.modified()
    }

    /// The table in slot `index`.
    pub fn quantization_table(&self, index: u8) -> (r: &[u8; 64])
        requires
            index <= 3,
        ensures
            r@ == self@.tables[index as int],
    {
        &self.quantiser_table[index as usize]
    }

    /// The set of slots written since the marks were last cleared.
    pub fn modified(&self) -> (r: TableSet)
        ensures
            r@ == self@.dirty,
    {
        let r = TableSet {
            slots: [
                self.load_quantiser_table[0] != 0,
                self.load_quantiser_table[1] != 0,
                self.load_quantiser_table[2] != 0,
                self.load_quantiser_table[3] != 0,
            ],
        };
        proof {
            assert(r@ =~= self@.dirty);
        }
        r
    }

    /// Clears the modification marks, leaving the tables as they are.
    ///
    /// Returns the set of slots that were marked, for the caller to reload.
    pub fn clear_modified(&mut self) -> (cleared: TableSet)
        ensures
            final(self)@ == old(self)@.clear_modified(),
            final(self).va_reserved == old(self).va_reserved,
            old(self).wf() ==> final(self).wf(),
            cleared@ == old(self)@.dirty,
    {
        let cleared = self.modified();
        self.load_quantiser_table = [0u8; 4];
        proof {
            assert(self@.dirty =~= Set::<int>::empty());
            assert(self@.tables =~= old(self)@.tables);
        }
        cleared
    }
}

/// Writing a table and reading the slot back returns the table and leaves
/// the slot marked; the other slots keep their tables. Clearing the marks
/// keeps every table and forgets exactly the marks made before it: a slot
/// written after the clearing is the only one marked.
pub proof fn lemma_quantization_round_trip(
    tables: IQMatrixView,
    index: int,
    data: Seq<u8>,
    later: int,
    more: Seq<u8>,
)
    requires
        tables.tables.len() == 4,
        0 <= index < 4,
        0 <= later < 4,
    ensures
        tables.set(index, data).tables[index] == data,
        tables.set(index, data).dirty.contains(index),
        forall|i: int|
            0 <= i < 4 && i != index ==> tables.set(index, data).tables[i] == tables.tables[i],
        tables.set(index, data).clear_modified().tables == tables.set(index, data).tables,
        tables.set(index, data).clear_modified().dirty == Set::<int>::empty(),
        tables.set(index, data).clear_modified().set(later, more).dirty
            == Set::<int>::empty().insert(later),
{
}

} // verus!
