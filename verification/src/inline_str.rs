//! Length-prefixed strings, read in place.

use crate::layout::{
    declared_len, entry_fits, entry_valid, header_fits, payload_at, HEADER_LEN,
};
use vstd::prelude::*;
use vstd::string::*;
use vstd::utf8::*;

verus! {

/// Why an entry of the data segment cannot be read.
#[derive(Clone, Copy, Debug, PartialEq, Eq, Structural)]
pub enum DecodeError {
    /// The two bytes of the length field do not lie inside the buffer.
    HeaderOutOfBounds,
    /// The declared payload runs past the end of the buffer.
    PayloadOutOfBounds,
    /// The payload is not well-formed UTF-8.
    InvalidUtf8,
}

/// The reason, if any, for which the entry at `offset` cannot be read.
pub open spec fn entry_error(data: Seq<u8>, offset: int) -> Option<DecodeError> {
    if !header_fits(data, offset) {
        Some(DecodeError::HeaderOutOfBounds)
    } else if !entry_fits(data, offset) {
        Some(DecodeError::PayloadOutOfBounds)
    } else if !valid_utf8(payload_at(data, offset)) {
        Some(DecodeError::InvalidUtf8)
    } else {
        None
    }
}

/// A string of at most 65535 bytes of UTF-8, borrowed from the buffer it was
/// read from.
#[derive(Clone, Copy, Debug)]
pub struct InlineStr<'a> {
    payload: &'a [u8],
}

impl<'a> View for InlineStr<'a> {
    type V = Seq<char>;

    /// The text of the string.
    open spec fn view(&self) -> Seq<char> {
        decode_utf8(self.bytes())
    }
}

/// Reads the length field at `offset`.
fn read_declared_len(data: &[u8], offset: usize) -> (len: u16)
    requires
        header_fits(data@, offset as int),
    ensures
        len == declared_len(data@, offset as int),
{
    let low: u16 = data[offset] as u16;
    let high: u16 = data[offset + 1] as u16;
    low + 256 * high
}

impl<'a> InlineStr<'a> {
    #[verifier::type_invariant]
    spec fn well_formed(&self) -> bool {
        self.payload@.len() <= u16::MAX && valid_utf8(self.payload@)
    }

    /// The payload bytes of the string.
    pub closed spec fn bytes(&self) -> Seq<u8> {
        self.payload@
    }

    /// Reads the entry at `offset`, or says why it cannot be read.
    pub fn decode(data: &'a [u8], offset: usize) -> (r: Result<InlineStr<'a>, DecodeError>)
        ensures
            r is Ok <==> entry_valid(data@, offset as int),
            r matches Ok(s) ==> s.bytes() == payload_at(data@, offset as int) && s.bytes().len()
                == declared_len(data@, offset as int),
            r matches Err(e) ==> entry_error(data@, offset as int) == Some(e),
    {
        if offset > data.len() || data.len() - offset < HEADER_LEN {
            return Err(DecodeError::HeaderOutOfBounds);
        }
        let len: usize = read_declared_len(data, offset) as usize;
        let start: usize = offset + HEADER_LEN;
        if data.len() - start < len {
            return Err(DecodeError::PayloadOutOfBounds);
        }
        let payload: &'a [u8] = &data[start..start + len];
        match core::str::from_utf8(payload) {
            Ok(_) => Ok(InlineStr { payload }),
            Err(_) => Err(DecodeError::InvalidUtf8),
        }
    }

    /// Reads the entry at `offset`, which the caller certifies to be valid.
    pub fn decode_unchecked(data: &'a [u8], offset: usize) -> (s: InlineStr<'a>)
        requires
            entry_valid(data@, offset as int),
        ensures
            s.bytes() == payload_at(data@, offset as int),
            s.bytes().len() == declared_len(data@, offset as int),
    {
        proof {
            vstd::slice::axiom_spec_len(data);
        }
        let len: usize = read_declared_len(data, offset) as usize;
        let start: usize = offset + HEADER_LEN;
        InlineStr { payload: &data[start..start + len] }
    }

    /// The length of the payload in bytes.
    pub fn len(&self) -> (len: usize)
        ensures
            len == self.bytes().len(),
            len <= u16::MAX,
    {
        proof {
            use_type_invariant(self);
        }
        self.payload.len()
    }

    /// The payload bytes.
    pub fn as_bytes(&self) -> (bytes: &'a [u8])
        ensures
            bytes@ == self.bytes(),
    {
        self.payload
    }

    /// The payload as text.
    pub fn as_str(&self) -> (text: &'a str)
        ensures
            text@ == self@,
            text.spec_bytes() == self.bytes(),
    {
        proof {
            use_type_invariant(self);
        }
        match core::str::from_utf8(self.payload) {
            Ok(text) => {
                proof {
                    encode_utf8_decode_utf8(text@);
                }
                text
            },
            Err(_) => vstd::pervasive::unreached(),
        }
    }

    /// An owned copy of the text.
    pub fn to_string(&self) -> (text: String)
        ensures
            text@ == self@,
    {
        self.as_str().to_owned()
    }
}

} // verus!
