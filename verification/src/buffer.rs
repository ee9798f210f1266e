//! The shared byte buffer that holds a column's data segment.

use bytes::Bytes;
use vstd::prelude::*;

verus! {

/// `bytes::Bytes`, an immutable and cheaply shared run of bytes, taken as
/// opaque: nothing is known of a buffer but what the items below say.
#[verifier::external_type_specification]
#[verifier::external_body]
pub struct ExBytes(bytes::Bytes);

/// The bytes that a buffer holds, in order.
pub uninterp spec fn buffer_contents(buffer: Bytes) -> Seq<u8>;

/// `Bytes::deref` lends the buffer's memory as a slice: exactly the bytes the
/// buffer holds, in order, without copying. This is assumed, not proved.
pub assume_specification[ <Bytes as core::ops::Deref>::deref ](buffer: &Bytes) -> (bytes: &[u8])
    ensures
        bytes@ == buffer_contents(*buffer),
;

} // verus!
