//! The column view and its row iterator.

use crate::buffer::buffer_contents;
use crate::inline_str::{entry_error, DecodeError, InlineStr};
use crate::layout::{
    column_valid, declared_len, payload_at, row_payload, row_text, row_valid,
};
use crate::offsets::Offsets;
use crate::value::{BorrowedValue, Ty};
use bytes::Bytes;
use core::ops::Deref;
use vstd::prelude::*;

verus! {

/// The payload bytes of a cell, or nothing for a null cell.
pub open spec fn payload_of(cell: Option<InlineStr<'_>>) -> Option<Seq<u8>> {
    match cell {
        Some(s) => Some(s.bytes()),
        None => None,
    }
}

/// The text of a cell, or nothing for a null cell.
pub open spec fn text_of(cell: Option<InlineStr<'_>>) -> Option<Seq<char>> {
    match cell {
        Some(s) => Some(s@),
        None => None,
    }
}

/// The reason, if any, for which `row` cannot be read.
pub open spec fn row_error(offsets: Seq<i32>, data: Seq<u8>, row: int) -> Option<DecodeError>
    recommends
        0 <= row < offsets.len(),
{
    if offsets[row] < 0 {
        None
    } else {
        entry_error(data, offsets[row] as int)
    }
}

/// `row` cannot be read, and every row before it can.
pub open spec fn first_invalid_row(offsets: Seq<i32>, data: Seq<u8>, row: int) -> bool {
    &&& 0 <= row < offsets.len()
    &&& row_error(offsets, data, row) is Some
    &&& forall|earlier: int|
        0 <= earlier < row ==> #[trigger] row_error(offsets, data, earlier) is None
}

/// One column of nullable strings: an offset table and the data segment that
/// its non-negative offsets point into.
#[derive(Debug)]
pub struct VarCharView {
    offsets: Offsets,
    data: Bytes,
}

impl View for VarCharView {
    type V = Seq<Option<Seq<char>>>;

    /// The text of every row, in row order.
    open spec fn view(&self) -> Seq<Option<Seq<char>>> {
        Seq::new(self.offset_table().len(), |row: int| self.text(row))
    }
}

impl VarCharView {
    /// The offsets of the rows, in row order.
    pub closed spec fn offset_table(&self) -> Seq<i32> {
        self.offsets@
    }

    /// The bytes of the data segment.
    pub closed spec fn data_segment(&self) -> Seq<u8> {
        buffer_contents(self.data)
    }

    /// Every row is null or names a valid entry of the data segment.
    #[verifier::type_invariant]
    pub open spec fn wf(&self) -> bool {
        column_valid(self.offset_table(), self.data_segment())
    }

    /// The payload bytes of `row`, or nothing when the row is null.
    pub open spec fn payload(&self, row: int) -> Option<Seq<u8>>
        recommends
            0 <= row < self.offset_table().len(),
    {
        row_payload(self.offset_table(), self.data_segment(), row)
    }

    /// The text of `row`, or nothing when the row is null.
    pub open spec fn text(&self, row: int) -> Option<Seq<char>>
        recommends
            0 <= row < self.offset_table().len(),
    {
        row_text(self.offset_table(), self.data_segment(), row)
    }

    /// Whether `row` is null: in range, with a negative offset.
    pub open spec fn null_at(&self, row: int) -> bool {
        0 <= row < self.offset_table().len() && self.offset_table()[row] < 0
    }

    /// The cell of `row` as a type tag, a byte length and the bytes that the
    /// length counts.
    pub open spec fn raw_value(&self, row: int) -> (Ty, int, Seq<u8>)
        recommends
            0 <= row < self.offset_table().len(),
    {
        let offset = self.offset_table()[row];
        if offset < 0 {
            (Ty::Null, 0, Seq::empty())
        } else {
            (
                Ty::VarChar,
                declared_len(self.data_segment(), offset as int),
                payload_at(self.data_segment(), offset as int),
            )
        }
    }

    /// Binds an offset table to a data segment that the caller certifies to
    /// hold a valid entry at every non-negative offset.
    pub fn new_unchecked(offsets: Offsets, data: Bytes) -> (view: VarCharView)
        requires
            column_valid(offsets@, buffer_contents(data)),
        ensures
            view.offset_table() == offsets@,
            view.data_segment() == buffer_contents(data),
            view.wf(),
    {
        VarCharView { offsets, data }
    }

    /// Binds an offset table to its data segment, after one pass that checks
    /// every non-null row. Fails with the error of the first row that cannot
    /// be read.
    pub fn new(offsets: Offsets, data: Bytes) -> (r: Result<VarCharView, DecodeError>)
        ensures
            r is Ok <==> column_valid(offsets@, buffer_contents(data)),
            r matches Ok(view) ==> view.offset_table() == offsets@ && view.data_segment()
                == buffer_contents(data) && view.wf(),
            r matches Err(e) ==> exists|row: int|
                #[trigger] first_invalid_row(offsets@, buffer_contents(data), row) && row_error(
                    offsets@,
                    buffer_contents(data),
                    row,
                ) == Some(e),
    {
        let bytes: &[u8] = data.deref();
        let rows: usize = offsets.len();
        let mut row: usize = 0;
        while row < rows
            invariant
                rows == offsets@.len(),
                row <= rows,
                bytes@ == buffer_contents(data),
                forall|earlier: int|
                    0 <= earlier < row ==> #[trigger] row_error(offsets@, bytes@, earlier) is None,
            decreases rows - row,
        {
            let offset: i32 = offsets.get_unchecked(row);
            if offset >= 0 {
                match InlineStr::decode(bytes, offset as usize) {
                    Ok(_) => {},
                    Err(e) => {
                        proof {
                            // `row` is the first row that cannot be read, and
                            // it witnesses that the column is not valid.
                            assert(first_invalid_row(offsets@, bytes@, row as int));
                            assert(!row_valid(offsets@, bytes@, row as int));
                        }
                        return Err(e);
                    },
                }
            }
            row += 1;
        }
        assert forall|r: int| 0 <= r < offsets@.len() implies #[trigger] row_valid(
            offsets@,
            bytes@,
            r,
        ) by {
            assert(row_error(offsets@, bytes@, r) is None);
        }
        Ok(VarCharView::new_unchecked(offsets, data))
    }

    /// The offset table.
    pub fn offsets(&self) -> (offsets: &Offsets)
        ensures
            offsets@ == self.offset_table(),
    {
        &self.offsets
    }

    /// The data segment.
    pub fn data(&self) -> (data: &Bytes)
        ensures
            buffer_contents(*data) == self.data_segment(),
    {
        &self.data
    }

    /// The number of rows.
    pub fn len(&self) -> (len: usize)
        ensures
            len == self.offset_table().len(),
    {
        self.offsets.len()
    }

    /// Whether `row` is null. A row past the end is reported as not null.
    pub fn is_null(&self, row: usize) -> (null: bool)
        ensures
            null == self.null_at(row as int),
            row < self.offset_table().len() ==> null == (self.offset_table()[row as int] < 0),
            row >= self.offset_table().len() ==> !null,
    {
        if row < self.len() {
            self.is_null_unchecked(row)
        } else {
            false
        }
    }

    /// Whether `row`, which the caller certifies to be in range, is null.
    pub fn is_null_unchecked(&self, row: usize) -> (null: bool)
        requires
            row < self.offset_table().len(),
        ensures
            null == (self.offset_table()[row as int] < 0),
    {
        self.offsets.get_unchecked(row) < 0
    }

    /// The string of `row`, which the caller certifies to be in range, read
    /// in place; nothing when the row is null.
    pub fn get_unchecked(&self, row: usize) -> (cell: Option<InlineStr<'_>>)
        requires
            row < self.offset_table().len(),
        ensures
            cell is None <==> self.offset_table()[row as int] < 0,
            payload_of(cell) == self.payload(row as int),
            text_of(cell) == self.text(row as int),
    {
        proof {
            use_type_invariant(self);
            assert(row_valid(self.offset_table(), self.data_segment(), row as int));
        }
        let offset: i32 = self.offsets.get_unchecked(row);
        if offset >= 0 {
            Some(InlineStr::decode_unchecked(self.data.deref(), offset as usize))
        } else {
            None
        }
    }

    /// The value of `row`, which the caller certifies to be in range.
    pub fn get_value_unchecked(&self, row: usize) -> (value: BorrowedValue<'_>)
        requires
            row < self.offset_table().len(),
        ensures
            value@ == self.text(row as int),
    {
        match self.get_unchecked(row) {
            Some(s) => BorrowedValue::VarChar(s.as_str()),
            None => BorrowedValue::Null,
        }
    }

    /// The cell of `row`, which the caller certifies to be in range, as a
    /// type tag, a byte length and the payload bytes themselves. A null row
    /// gives the null tag, length 0 and no bytes.
    pub fn get_raw_value_unchecked(&self, row: usize) -> (raw: (Ty, u32, &[u8]))
        requires
            row < self.offset_table().len(),
        ensures
            (raw.0, raw.1 as int, raw.2@) == self.raw_value(row as int),
            raw.1 == raw.2@.len(),
    {
        proof {
            use_type_invariant(self);
            assert(row_valid(self.offset_table(), self.data_segment(), row as int));
        }
        match self.get_unchecked(row) {
            Some(s) => (Ty::VarChar, s.len() as u32, s.as_bytes()),
            None => (Ty::Null, 0, &[]),
        }
    }

    /// A cursor over the rows, placed before the first one.
    pub fn iter(&self) -> (rows: VarCharIter<'_>)
        ensures
            rows.column() == *self,
            rows.position() == 0,
    {
        VarCharIter { view: self, row: 0 }
    }

    /// Owned copies of the text of every row, in row order.
    pub fn to_vec(&self) -> (texts: Vec<Option<String>>)
        ensures
            texts.deep_view() == self@,
            texts.len() == self.offset_table().len(),
            forall|row: int|
                0 <= row < texts.len() ==> (#[trigger] texts[row]).deep_view() == self.text(row),
    {
        let rows: usize = self.len();
        let mut texts: Vec<Option<String>> = Vec::with_capacity(rows);
        let mut row: usize = 0;
        while row < rows
            invariant
                rows == self.offset_table().len(),
                row <= rows,
                texts.len() == row,
                forall|earlier: int|
                    0 <= earlier < row ==> (#[trigger] texts[earlier]).deep_view() == self.text(
                        earlier,
                    ),
            decreases rows - row,
        {
            let text: Option<String> = match self.get_unchecked(row) {
                Some(s) => Some(s.to_string()),
                None => None,
            };
            texts.push(text);
            row += 1;
        }
        assert(texts.deep_view() =~= self@);
        texts
    }
}

/// A forward cursor over the rows of a column.
#[derive(Debug)]
pub struct VarCharIter<'a> {
    view: &'a VarCharView,
    row: usize,
}

impl<'a> VarCharIter<'a> {
    /// The column that the cursor walks.
    pub closed spec fn column(&self) -> VarCharView {
        *self.view
    }

    /// The row that the next step yields.
    pub closed spec fn position(&self) -> nat {
        self.row as nat
    }

    /// Yields the cell at the cursor and moves one row on; yields nothing,
    /// and stays, once the cursor is past the last row.
    pub fn next(&mut self) -> (item: Option<Option<InlineStr<'a>>>)
        ensures
            final(self).column() == old(self).column(),
            old(self).position() < old(self).column().offset_table().len() ==> {
                &&& item matches Some(cell)
                &&& payload_of(cell) == old(self).column().payload(old(self).position() as int)
                &&& text_of(cell) == old(self).column().text(old(self).position() as int)
                &&& final(self).position() == old(self).position() + 1
            },
            old(self).position() >= old(self).column().offset_table().len() ==> {
                &&& item is None
                &&& final(self).position() == old(self).position()
            },
    {
        if self.row < self.view.len() {
            let row: usize = self.row;
            self.row += 1;
            Some(self.view.get_unchecked(row))
        } else {
            None
        }
    }
}

} // verus!
