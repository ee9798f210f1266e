use bytes::Bytes;
use varchar_view::column::VarCharView;
use varchar_view::inline_str::{DecodeError, InlineStr};
use varchar_view::offsets::Offsets;
use varchar_view::value::{BorrowedValue, Ty};

const ALPHA_BOB: [u8; 12] = [5, 0, b'a', b'l', b'p', b'h', b'a', 3, 0, b'b', b'o', b'b'];

fn column(offsets: Vec<i32>, data: &[u8]) -> VarCharView {
    VarCharView::new(Offsets::new(offsets), Bytes::copy_from_slice(data)).unwrap()
}

fn text<'a>(cell: Option<InlineStr<'a>>) -> Option<&'a str> {
    cell.map(|s| s.as_str())
}

fn owned(texts: &[Option<&str>]) -> Vec<Option<String>> {
    texts.iter().map(|t| t.map(|s| s.to_string())).collect()
}

#[test]
fn three_rows_with_a_null_in_the_middle() {
    let view = column(vec![0, -1, 7], &ALPHA_BOB);
    assert_eq!(view.len(), 3);
    assert!(!view.is_null(0));
    assert!(view.is_null(1));
    assert!(!view.is_null(2));
    assert_eq!(text(view.get_unchecked(0)), Some("alpha"));
    assert!(view.get_unchecked(1).is_none());
    assert_eq!(text(view.get_unchecked(2)), Some("bob"));
    assert_eq!(view.to_vec(), owned(&[Some("alpha"), None, Some("bob")]));
}

#[test]
fn empty_column() {
    let view = column(vec![], &[]);
    assert_eq!(view.len(), 0);
    assert!(!view.is_null(0));
    let mut rows = view.iter();
    assert!(rows.next().is_none());
    assert!(rows.next().is_none());
    assert_eq!(view.to_vec(), Vec::<Option<String>>::new());
}

#[test]
fn all_null_column() {
    let view = column(vec![-1, -1], &[]);
    assert_eq!(view.len(), 2);
    for row in 0..2 {
        assert!(view.is_null(row));
        assert!(view.is_null_unchecked(row));
        assert!(view.get_unchecked(row).is_none());
        assert_eq!(view.get_value_unchecked(row), BorrowedValue::Null);
        let (ty, len, bytes) = view.get_raw_value_unchecked(row);
        assert_eq!(ty, Ty::Null);
        assert_eq!(len, 0);
        assert!(bytes.is_empty());
    }
    let mut rows = view.iter();
    assert!(matches!(rows.next(), Some(None)));
    assert!(matches!(rows.next(), Some(None)));
    assert!(rows.next().is_none());
    assert_eq!(view.to_vec(), owned(&[None, None]));
}

#[test]
fn is_null_follows_the_sign_of_the_offset() {
    let offsets = vec![7, -1, 0, i32::MIN, -2, 0];
    let view = column(offsets.clone(), &ALPHA_BOB);
    for row in 0..offsets.len() {
        assert_eq!(view.is_null(row), offsets[row] < 0);
        assert_eq!(view.is_null_unchecked(row), offsets[row] < 0);
        assert_eq!(view.offsets().get(row), Some(offsets[row]));
    }
}

#[test]
fn is_null_is_false_past_the_end() {
    let view = column(vec![-1, 0, -1], &ALPHA_BOB);
    assert!(view.is_null(2));
    assert!(!view.is_null(3));
    assert!(!view.is_null(4));
    assert!(!view.is_null(usize::MAX));
}

#[test]
fn raw_value_agrees_with_get() {
    let view = column(vec![0, -1, 7, -9, 0], &ALPHA_BOB);
    for row in 0..view.len() {
        let (ty, len, bytes) = view.get_raw_value_unchecked(row);
        match view.get_unchecked(row) {
            None => {
                assert_eq!(ty, Ty::Null);
                assert_eq!(len, 0);
                assert!(bytes.is_empty());
            }
            Some(s) => {
                assert_eq!(ty, Ty::VarChar);
                assert_eq!(len as usize, s.len());
                assert_eq!(bytes, s.as_bytes());
                assert_eq!(bytes.as_ptr(), s.as_bytes().as_ptr());
            }
        }
    }
}

#[test]
fn raw_value_of_a_row() {
    let view = column(vec![0, -1, 7], &ALPHA_BOB);
    assert_eq!(view.get_raw_value_unchecked(0), (Ty::VarChar, 5, &b"alpha"[..]));
    assert_eq!(view.get_raw_value_unchecked(1), (Ty::Null, 0, &b""[..]));
    assert_eq!(view.get_raw_value_unchecked(2), (Ty::VarChar, 3, &b"bob"[..]));
}

#[test]
fn raw_value_points_into_the_data_segment() {
    let data = Bytes::copy_from_slice(&ALPHA_BOB);
    let start = data.as_ptr();
    let view = VarCharView::new(Offsets::new(vec![7, 0]), data).unwrap();
    let (_, _, bob) = view.get_raw_value_unchecked(0);
    let (_, _, alpha) = view.get_raw_value_unchecked(1);
    assert_eq!(bob.as_ptr(), start.wrapping_add(9));
    assert_eq!(alpha.as_ptr(), start.wrapping_add(2));
}

#[test]
fn value_of_a_row() {
    let view = column(vec![0, -1, 7], &ALPHA_BOB);
    assert_eq!(view.get_value_unchecked(0), BorrowedValue::VarChar("alpha"));
    assert_eq!(view.get_value_unchecked(1), BorrowedValue::Null);
    assert_eq!(view.get_value_unchecked(2), BorrowedValue::VarChar("bob"));
}

#[test]
fn to_vec_agrees_with_get() {
    let view = column(vec![7, 7, -3, 0, -1], &ALPHA_BOB);
    let texts = view.to_vec();
    assert_eq!(texts.len(), view.len());
    for row in 0..view.len() {
        let cell = view.get_unchecked(row);
        assert_eq!(texts[row], cell.map(|s| s.to_string()));
        assert_eq!(texts[row].as_deref(), text(cell));
    }
    assert_eq!(texts, owned(&[Some("bob"), Some("bob"), None, Some("alpha"), None]));
}

#[test]
fn to_vec_outlives_the_column() {
    let texts = {
        let view = column(vec![0, -1, 7], &ALPHA_BOB);
        view.to_vec()
    };
    assert_eq!(texts, owned(&[Some("alpha"), None, Some("bob")]));
}

#[test]
fn iter_yields_every_row_in_order_then_stops() {
    let view = column(vec![7, -1, 0], &ALPHA_BOB);
    let mut rows = view.iter();
    assert_eq!(rows.next().map(text), Some(Some("bob")));
    assert_eq!(rows.next().map(text), Some(None));
    assert_eq!(rows.next().map(text), Some(Some("alpha")));
    assert!(rows.next().is_none());
    assert!(rows.next().is_none());
}

#[test]
fn iter_starts_over_with_each_call() {
    let view = column(vec![0, 7], &ALPHA_BOB);
    let mut first = view.iter();
    assert_eq!(first.next().map(text), Some(Some("alpha")));
    let mut second = view.iter();
    assert_eq!(second.next().map(text), Some(Some("alpha")));
    assert_eq!(first.next().map(text), Some(Some("bob")));
    assert!(first.next().is_none());
    assert_eq!(second.next().map(text), Some(Some("bob")));
    assert!(second.next().is_none());
}

#[test]
fn iter_agrees_with_to_vec() {
    let view = column(vec![0, -1, 7, -1, 0], &ALPHA_BOB);
    let mut rows = view.iter();
    let mut seen: Vec<Option<String>> = Vec::new();
    while let Some(cell) = rows.next() {
        seen.push(cell.map(|s| s.to_string()));
    }
    assert_eq!(seen, view.to_vec());
    assert_eq!(seen.len(), 5);
}

#[test]
fn rows_may_share_an_entry() {
    let view = column(vec![0, 0, 0], &ALPHA_BOB);
    assert_eq!(view.to_vec(), owned(&[Some("alpha"), Some("alpha"), Some("alpha")]));
}

#[test]
fn empty_string_is_not_null() {
    let view = column(vec![0, 2, -1], &[0, 0, 0, 0]);
    assert!(!view.is_null(0));
    assert_eq!(text(view.get_unchecked(0)), Some(""));
    assert_eq!(view.get_raw_value_unchecked(1), (Ty::VarChar, 0, &b""[..]));
    assert_eq!(view.get_value_unchecked(1), BorrowedValue::VarChar(""));
    assert_eq!(view.to_vec(), owned(&[Some(""), Some(""), None]));
}

#[test]
fn text_beyond_ascii() {
    let word = "héllo, 世界";
    let mut data = vec![word.len() as u8, 0];
    data.extend_from_slice(word.as_bytes());
    let view = column(vec![0], &data);
    assert_eq!(text(view.get_unchecked(0)), Some(word));
    assert_eq!(view.get_raw_value_unchecked(0), (Ty::VarChar, 14, word.as_bytes()));
    assert_eq!(view.to_vec(), owned(&[Some(word)]));
}

#[test]
fn new_keeps_the_table_and_the_buffer() {
    let data = Bytes::copy_from_slice(&ALPHA_BOB);
    let start = data.as_ptr();
    let view = VarCharView::new(Offsets::new(vec![0, -1, 7]), data).unwrap();
    assert_eq!(view.offsets().len(), 3);
    assert_eq!(view.offsets().get(2), Some(7));
    assert_eq!(&view.data()[..], &ALPHA_BOB[..]);
    assert_eq!(view.data().as_ptr(), start);
}

#[test]
fn new_rejects_an_offset_past_the_buffer() {
    let r = VarCharView::new(Offsets::new(vec![0, 12]), Bytes::copy_from_slice(&ALPHA_BOB));
    assert_eq!(r.unwrap_err(), DecodeError::HeaderOutOfBounds);
    let r = VarCharView::new(Offsets::new(vec![11]), Bytes::copy_from_slice(&ALPHA_BOB));
    assert_eq!(r.unwrap_err(), DecodeError::HeaderOutOfBounds);
    let r = VarCharView::new(Offsets::new(vec![i32::MAX]), Bytes::copy_from_slice(&ALPHA_BOB));
    assert_eq!(r.unwrap_err(), DecodeError::HeaderOutOfBounds);
    let r = VarCharView::new(Offsets::new(vec![0]), Bytes::new());
    assert_eq!(r.unwrap_err(), DecodeError::HeaderOutOfBounds);
}

#[test]
fn new_rejects_a_payload_that_runs_past_the_buffer() {
    let r = VarCharView::new(Offsets::new(vec![0]), Bytes::copy_from_slice(&ALPHA_BOB[..6]));
    assert_eq!(r.unwrap_err(), DecodeError::PayloadOutOfBounds);
    let r = VarCharView::new(Offsets::new(vec![7, 8]), Bytes::copy_from_slice(&ALPHA_BOB));
    assert_eq!(r.unwrap_err(), DecodeError::PayloadOutOfBounds);
}

#[test]
fn new_rejects_text_that_is_not_utf8() {
    let r = VarCharView::new(Offsets::new(vec![0]), Bytes::from_static(&[2, 0, 0xc3, 0x28]));
    assert_eq!(r.unwrap_err(), DecodeError::InvalidUtf8);
    let r = VarCharView::new(Offsets::new(vec![-1, 0]), Bytes::from_static(&[1, 0, 0xff]));
    assert_eq!(r.unwrap_err(), DecodeError::InvalidUtf8);
}

#[test]
fn new_reports_the_first_row_that_cannot_be_read() {
    let data = [1, 0, 0xff, 1, 0, b'x', 9, 0];
    let r = VarCharView::new(Offsets::new(vec![3, 0, 6, 8]), Bytes::copy_from_slice(&data));
    assert_eq!(r.unwrap_err(), DecodeError::InvalidUtf8);
    let r = VarCharView::new(Offsets::new(vec![3, 6, 0, 8]), Bytes::copy_from_slice(&data));
    assert_eq!(r.unwrap_err(), DecodeError::PayloadOutOfBounds);
    let r = VarCharView::new(Offsets::new(vec![-1, 8, 6, 0]), Bytes::copy_from_slice(&data));
    assert_eq!(r.unwrap_err(), DecodeError::HeaderOutOfBounds);
    let r = VarCharView::new(Offsets::new(vec![3, -1, 3]), Bytes::copy_from_slice(&data));
    assert_eq!(r.unwrap().to_vec(), owned(&[Some("x"), None, Some("x")]));
}

#[test]
fn new_ignores_bytes_that_no_row_names() {
    let view = column(vec![-1, 3], &[0xff, 0xff, 0xff, 2, 0, b'o', b'k', 0xff]);
    assert_eq!(view.to_vec(), owned(&[None, Some("ok")]));
}

#[test]
fn new_unchecked_binds_a_certified_column() {
    let view = VarCharView::new_unchecked(Offsets::new(vec![7, -1]), Bytes::copy_from_slice(&ALPHA_BOB));
    assert_eq!(view.len(), 2);
    assert_eq!(view.to_vec(), owned(&[Some("bob"), None]));
}

#[test]
fn type_tags_are_numbered_with_null_as_zero() {
    assert_eq!(Ty::Null.code(), 0);
    assert_eq!(Ty::VarChar.code(), 8);
    assert_ne!(Ty::VarChar.code(), Ty::Null.code());
}
