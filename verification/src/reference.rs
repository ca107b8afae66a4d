//! Reference addresses: 32-byte addresses that point at a value stored
//! externally, for values with children or with more auxiliary data than
//! fits inline.

use vstd::prelude::*;

verus! {

/// Address for values with children or much auxiliary data.
///
/// A reference address is an opaque 32-byte identifier: its internal
/// layout is owned by the external storage collaborator. This crate only
/// constrains the tag bit (bit 0 of byte 31), which is 1 for every
/// reference address, and gives the bytes byte-wise equality.
#[derive(Clone, Copy, Debug, PartialEq, Eq)]
pub struct Reference {
    bytes: [u8; 32],
}

impl View for Reference {
    type V = Seq<u8>;

    closed spec fn view(&self) -> Seq<u8> {
        self.bytes@
    }
}

impl Reference {
    /// Whether the stored bytes carry the reference tag: bit 0 of byte 31
    /// is 1. Nothing else is constrained; the rest of the layout belongs
    /// to the storage collaborator.
    pub open spec fn wf(&self) -> bool {
        self@[31] & 0x01u8 == 0x01u8
    }

    /// Wraps 32 bytes as a reference view without inspecting them.
    pub(crate) fn from_raw(bytes: [u8; 32]) -> (r: Reference)
        ensures
            r@ == bytes@,
    {
        Reference { bytes }
    }

    /// The bytes that make up the address.
    pub(crate) fn as_bytes(&self) -> (r: &[u8; 32])
        ensures
            r@ == self@,
    {
        &self.bytes
    }
}

} // verus!
