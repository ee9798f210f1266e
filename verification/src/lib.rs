//! A read-only view over one column of nullable, variable-length UTF-8
//! strings, stored back to back in a shared byte buffer and addressed through
//! a table of signed offsets.

pub mod buffer;
pub mod column;
pub mod inline_str;
pub mod laws;
pub mod layout;
pub mod offsets;
pub mod text;
pub mod value;

