//! The offset table of a column.

use vstd::prelude::*;

verus! {

/// One signed 32-bit offset per row: negative for a null row, otherwise the
/// byte position in the data segment at which the row's entry starts.
#[derive(Debug)]
pub struct Offsets {
    values: Vec<i32>,
}

impl View for Offsets {
    type V = Seq<i32>;

    closed spec fn view(&self) -> Seq<i32> {
        self.values@
    }
}

impl Offsets {
    /// The table that holds `values`, one per row, in row order.
    pub fn new(values: Vec<i32>) -> (table: Offsets)
        ensures
            table@ == values@,
    {
        Offsets { values }
    }

    /// The number of rows.
    pub fn len(&self) -> (len: usize)
        ensures
            len == self@.len(),
    {
        self.values.len()
    }

    /// The offset stored for `row`, or nothing when `row` is past the end.
    pub fn get(&self, row: usize) -> (offset: Option<i32>)
        ensures
            row < self@.len() ==> offset == Some(self@[row as int]),
            row >= self@.len() ==> offset is None,
    {
        if row < self.values.len() {
            Some(self.values[row])
        } else {
            None
        }
    }

    /// The offset stored for `row`, which the caller certifies to be in range.
    pub fn get_unchecked(&self, row: usize) -> (offset: i32)
        requires
            row < self@.len(),
        ensures
            offset == self@[row as int],
    {
        self.values[row]
    }
}

} // verus!
