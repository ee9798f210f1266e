//! The wire layout of the data segment, as mathematical definitions.
//!
//! Every non-null row names a byte offset at which an entry starts: a 16-bit
//! little-endian length `L`, then `L` bytes of UTF-8 payload.

use vstd::prelude::*;
use vstd::utf8::*;

verus! {

/// Number of bytes of the length field that starts every entry.
pub const HEADER_LEN: usize = 2;

/// The value of a 16-bit little-endian length field.
pub open spec fn length_field(low: u8, high: u8) -> int {
    low as int + 256 * (high as int)
}

/// The two bytes of the length field at `offset` lie inside `data`.
pub open spec fn header_fits(data: Seq<u8>, offset: int) -> bool {
    0 <= offset && offset + HEADER_LEN <= data.len()
}

/// The payload length that the entry at `offset` declares.
pub open spec fn declared_len(data: Seq<u8>, offset: int) -> int
    recommends
        header_fits(data, offset),
{
    length_field(data[offset], data[offset + 1])
}

/// The length field and the whole declared payload lie inside `data`.
pub open spec fn entry_fits(data: Seq<u8>, offset: int) -> bool {
    header_fits(data, offset) && offset + HEADER_LEN + declared_len(data, offset) <= data.len()
}

/// The payload bytes of the entry at `offset`.
pub open spec fn payload_at(data: Seq<u8>, offset: int) -> Seq<u8>
    recommends
        entry_fits(data, offset),
{
    data.subrange(offset + HEADER_LEN, offset + HEADER_LEN + declared_len(data, offset))
}

/// The entry at `offset` lies inside `data` and its payload is UTF-8.
pub open spec fn entry_valid(data: Seq<u8>, offset: int) -> bool {
    entry_fits(data, offset) && valid_utf8(payload_at(data, offset))
}

/// The payload bytes of `row`, or nothing when the row is null.
pub open spec fn row_payload(offsets: Seq<i32>, data: Seq<u8>, row: int) -> Option<Seq<u8>>
    recommends
        0 <= row < offsets.len(),
{
    if offsets[row] < 0 {
        None
    } else {
        Some(payload_at(data, offsets[row] as int))
    }
}

/// The text of `row`, or nothing when the row is null.
pub open spec fn row_text(offsets: Seq<i32>, data: Seq<u8>, row: int) -> Option<Seq<char>>
    recommends
        0 <= row < offsets.len(),
{
    match row_payload(offsets, data, row) {
        Some(payload) => Some(decode_utf8(payload)),
        None => None,
    }
}

/// `row` is null, or its offset names a valid entry of `data`.
pub open spec fn row_valid(offsets: Seq<i32>, data: Seq<u8>, row: int) -> bool
    recommends
        0 <= row < offsets.len(),
{
    offsets[row] >= 0 ==> entry_valid(data, offsets[row] as int)
}

/// Every row is null or names a valid entry of `data`.
pub open spec fn column_valid(offsets: Seq<i32>, data: Seq<u8>) -> bool {
    forall|row: int| 0 <= row < offsets.len() ==> #[trigger] row_valid(offsets, data, row)
}

} // verus!
