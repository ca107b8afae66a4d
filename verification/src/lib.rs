//! Fixed-size addresses for a content-addressed value store.
//!
//! An address is always exactly 32 bytes and is either an immediate
//! address, which inlines a small value's data directly, or a reference
//! address, which points at a value stored elsewhere. One tag bit lets any
//! 32 bytes be interpreted unambiguously as one kind or the other.

use vstd::prelude::*;

mod immediate;
mod reference;

pub use crate::immediate::Immediate;
pub use crate::immediate::aux_len_of;
pub use crate::immediate::immediate_bytes_for;
pub use crate::immediate::is_immediate_form;
pub use crate::immediate::lemma_round_trip;
pub use crate::reference::Reference;

verus! {

/// The tag bit (bit 0 of byte 31) selects the immediate interpretation
/// when it is 0.
pub open spec fn selects_immediate(bytes: Seq<u8>) -> bool {
    bytes[31] & 0x01u8 == 0x00u8
}

/// The tag bit (bit 0 of byte 31) selects the reference interpretation
/// when it is 1.
pub open spec fn selects_reference(bytes: Seq<u8>) -> bool {
    bytes[31] & 0x01u8 == 0x01u8
}

/// A 32-byte value that is polymorphic over the two address kinds.
///
/// The immediate and the reference view are both reinterpretations of the
/// identical underlying 32 bytes; which one applies is determined purely
/// by the tag bit, re-derived on every access rather than stored
/// separately. Raw reinterpretation of shared storage is not expressible
/// safely, so each view is constructed as a copy of the 32 bytes behind
/// an accessor that re-derives the tag, keeping the cost constant.
#[verifier::ext_equal]
#[derive(Clone, Copy)]
pub struct Address {
    bytes: [u8; 32],
}

impl View for Address {
    type V = Seq<u8>;

    closed spec fn view(&self) -> Seq<u8> {
        self.bytes@
    }
}

impl Address {
    /// Accept externally supplied 32 bytes as an address, regardless of
    /// kind.
    pub fn from_bytes(bytes: &[u8; 32]) -> (r: Address)
        ensures
            r@ == bytes@,
    {
        Address { bytes: *bytes }
    }

    /// The physical representation, regardless of kind.
    pub fn as_bytes(&self) -> (r: &[u8; 32])
        ensures
            r@ == self@,
    {
        &self.bytes
    }

    /// The immediate view of the address: succeeds exactly when the tag
    /// bit is 0, and fails with the reference view otherwise. Either view
    /// carries the same 32 bytes as the address itself.
    pub fn as_immediate(&self) -> (r: Result<Immediate, Reference>)
        ensures
            r is Ok <==> selects_immediate(self@),
            r matches Ok(im) ==> im@ == self@,
            r matches Err(re) ==> re@ == self@ && re.wf(),
    {
        proof {
            lemma_exactly_one_kind(self@);
        }
        if self.bytes[31] & 0x01 == 0x00 {
            Ok(Immediate::from_raw(self.bytes))
        } else {
            Err(Reference::from_raw(self.bytes))
        }
    }

    /// Mutable analogue of [`Self::as_immediate`]: exclusive write access
    /// through the immediate view, for the duration of the borrow of
    /// `self`. The same tag dispatch decides: when the tag bit is 0 the
    /// address bytes are replaced by `im`'s bytes and the call succeeds;
    /// otherwise the address is unchanged and the reference view is
    /// returned.
    pub fn as_immediate_mut(&mut self, im: &Immediate) -> (r: Result<(), Reference>)
        ensures
            r is Ok <==> selects_immediate(old(self)@),
            r is Ok ==> final(self)@ == im@,
            r matches Err(re) ==> re@ == old(self)@ && re.wf() && final(self)@ == old(self)@,
    {
        proof {
            lemma_exactly_one_kind(old(self)@);
        }
        if self.bytes[31] & 0x01 == 0x00 {
            self.bytes = *im.as_bytes();
            Ok(())
        } else {
            Err(Reference::from_raw(self.bytes))
        }
    }

    /// The reference view of the address: the logical complement of
    /// [`Self::as_immediate`]. Succeeds exactly when the tag bit is 1,
    /// and fails with the immediate view otherwise.
    pub fn as_external(&self) -> (r: Result<Reference, Immediate>)
        ensures
            r is Ok <==> selects_reference(self@),
            r matches Ok(re) ==> re@ == self@ && re.wf(),
            r matches Err(im) ==> im@ == self@,
    {
        proof {
            lemma_exactly_one_kind(self@);
        }
        match self.as_immediate() {
            Ok(immediate) => Err(immediate),
            Err(reference) => Ok(reference),
        }
    }

    /// Mutable analogue of [`Self::as_external`]: exclusive write access
    /// through the reference view. When the tag bit is 1 the address
    /// bytes are replaced by `re`'s bytes and the call succeeds;
    /// otherwise the address is unchanged and the immediate view is
    /// returned.
    pub fn as_external_mut(&mut self, re: &Reference) -> (r: Result<(), Immediate>)
        ensures
            r is Ok <==> selects_reference(old(self)@),
            r is Ok ==> final(self)@ == re@,
            r matches Err(im) ==> im@ == old(self)@ && final(self)@ == old(self)@,
    {
        proof {
            lemma_exactly_one_kind(old(self)@);
        }
        if self.bytes[31] & 0x01 == 0x01 {
            self.bytes = *re.as_bytes();
            Ok(())
        } else {
            Err(Immediate::from_raw(self.bytes))
        }
    }
}

impl PartialEq for Address {
    /// Two addresses are equal exactly when their 32 raw bytes are
    /// identical byte for byte.
    fn eq(&self, other: &Address) -> (r: bool) {
        let mut i: usize = 0;
        while i < 32
            invariant
                i <= 32,
                forall|j: int| 0 <= j < i ==> self@[j] == other@[j],
            decreases 32 - i,
        {
            if self.bytes[i] != other.bytes[i] {
                return false;
            }
            i += 1;
        }
        proof {
            assert(self@ =~= other@);
        }
        true
    }
}

impl Eq for Address {

}

impl vstd::std_specs::cmp::PartialEqSpecImpl for Address {
    open spec fn obeys_eq_spec() -> bool {
        true
    }

    open spec fn eq_spec(&self, other: &Address) -> bool {
        self@ == other@
    }
}

/// Kind discrimination is exhaustive and exclusive: for any 32 bytes,
/// exactly one of the immediate and the reference interpretation is
/// selected, determined solely by bit 0 of byte 31.
pub proof fn lemma_exactly_one_kind(bytes: Seq<u8>)
    ensures
        selects_immediate(bytes) <==> !selects_reference(bytes),
{
    let m = bytes[31];
    assert((m & 0x01u8 == 0x00u8) <==> !(m & 0x01u8 == 0x01u8)) by (bit_vector);
}

/// Address equality coincides with byte equality: two addresses built
/// from identical raw bytes are equal, and changing any single byte,
/// a padding byte included, makes them unequal.
pub proof fn lemma_eq_iff_same_bytes(a: Address, b: Address)
    ensures
        (a == b) <==> a@ == b@,
{
    if a@ == b@ {
        assert(a.bytes =~= b.bytes);
        assert(a =~= b);
    }
}

} // verus!
