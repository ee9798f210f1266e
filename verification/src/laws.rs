//! How the accessors of a column agree with one another.

use crate::column::{payload_of, text_of, VarCharView};
use crate::inline_str::InlineStr;
use crate::layout::row_valid;
use crate::value::Ty;
use vstd::prelude::*;

verus! {

/// The raw form of a row carries the null tag exactly when reading the row in
/// place gives nothing; otherwise its length is the byte length of the string
/// read in place, and its bytes are that string's payload.
pub proof fn lemma_raw_value_agrees_with_get(
    view: VarCharView,
    row: int,
    cell: Option<InlineStr<'_>>,
    raw: (Ty, u32, &[u8]),
)
    requires
        view.wf(),
        0 <= row < view.offset_table().len(),
        payload_of(cell) == view.payload(row),
        (raw.0, raw.1 as int, raw.2@) == view.raw_value(row),
    ensures
        raw.0 == Ty::Null <==> cell is None,
        cell is None ==> raw.1 == 0 && raw.2@.len() == 0,
        cell matches Some(s) ==> raw.0 == Ty::VarChar && raw.1 == s.bytes().len() && raw.2@
            == s.bytes(),
{
    assert(row_valid(view.offset_table(), view.data_segment(), row));
}

/// Every entry of the owned form of a column is a copy of the text of the
/// string read in place from the same row, and is nothing exactly when the
/// row reads as nothing.
pub proof fn lemma_to_vec_agrees_with_get(
    view: VarCharView,
    row: int,
    cell: Option<InlineStr<'_>>,
    texts: Vec<Option<String>>,
)
    requires
        0 <= row < view.offset_table().len(),
        payload_of(cell) == view.payload(row),
        texts.deep_view() == view@,
    ensures
        texts.len() == view.offset_table().len(),
        texts[row].deep_view() == text_of(cell),
        texts[row] is None <==> cell is None,
{
    assert(texts.deep_view().len() == texts@.len());
    assert(view@.len() == view.offset_table().len());
    assert(texts.deep_view()[row] == texts@[row].deep_view());
    assert(view@[row] == view.text(row));
}

} // verus!
