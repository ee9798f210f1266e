//! What a cell of the column is handed out as.

use vstd::prelude::*;

verus! {

/// The type tag of a cell.
#[derive(Clone, Copy, Debug, PartialEq, Eq, Structural)]
pub enum Ty {
    /// The cell holds no value.
    Null,
    /// The cell holds a variable-length string.
    VarChar,
}

impl Ty {
    /// The tag as the native cell representation numbers it; 0 means null.
    pub open spec fn spec_code(self) -> u8 {
        match self {
            Ty::Null => 0,
            Ty::VarChar => 8,
        }
    }

    /// The tag as the native cell representation numbers it; 0 means null.
    #[verifier::when_used_as_spec(spec_code)]
    pub fn code(self) -> (code: u8)
        ensures
            code == self.spec_code(),
            code == 0 <==> self == Ty::Null,
    {
        match self {
            Ty::Null => 0,
            Ty::VarChar => 8,
        }
    }
}

/// A cell's value, borrowed from the column.
#[derive(Clone, Copy, Debug, PartialEq, Eq)]
pub enum BorrowedValue<'a> {
    /// The cell holds no value.
    Null,
    /// The text of the cell.
    VarChar(&'a str),
}

impl<'a> View for BorrowedValue<'a> {
    type V = Option<Seq<char>>;

    /// The text of the cell, if it holds any.
    open spec fn view(&self) -> Option<Seq<char>> {
        match self {
            BorrowedValue::Null => None,
            BorrowedValue::VarChar(text) => Some(text@),
        }
    }
}

} // verus!
