//! Immediate addresses: 32-byte addresses that inline a small value's
//! auxiliary data directly, so that no external lookup is needed.

use vstd::prelude::*;
use vstd::slice::slice_subrange;

verus! {

/// The auxiliary length stored in the metadata byte: bits 6..2 of byte 31.
pub open spec fn aux_len_of(bytes: Seq<u8>) -> int {
    (bytes[31] >> 2) as int
}

/// Whether 32 bytes satisfy the immediate-address layout: in the metadata
/// byte (byte 31) bit 7 is 0 (reserved), bit 1 is 0 (reserved) and bit 0 is
/// 1 (tag), and every padding byte between the auxiliary payload and the
/// metadata byte is zero.
pub open spec fn is_immediate_form(bytes: Seq<u8>) -> bool {
    &&& bytes.len() == 32
    &&& bytes[31] & 0x83u8 == 0x01u8
    &&& forall|i: int| aux_len_of(bytes) <= i < 31 ==> bytes[i] == 0u8
}

/// The canonical immediate encoding of an auxiliary payload: the payload
/// itself, then zero padding up to byte 30, then the metadata byte
/// `(len << 2) | 1`.
pub open spec fn immediate_bytes_for(aux: Seq<u8>) -> Seq<u8>
    recommends
        aux.len() <= 31,
{
    Seq::new(
        32,
        |i: int|
            if i < aux.len() {
                aux[i]
            } else if i < 31 {
                0u8
            } else {
                (((aux.len() as u8) << 2) | 1u8)
            },
    )
}

/// Address for short auxiliary-only values.
///
/// Any value with at most 31 bytes of auxiliary data and no children is
/// referred to by an immediate address: the address itself stores the
/// auxiliary data, so no dereferencing needs to take place to find it.
///
/// The layout is: the auxiliary bytes first, then all-zero padding bytes,
/// then the metadata byte. The metadata byte consists, from most to least
/// significant bit, of an unset reserved bit, five bits that encode the
/// number of auxiliary bytes, an unset reserved bit, and a set tag bit.
#[derive(Clone, Copy, Debug, PartialEq, Eq)]
pub struct Immediate {
    bytes: [u8; 32],
}

impl View for Immediate {
    type V = Seq<u8>;

    closed spec fn view(&self) -> Seq<u8> {
        self.bytes@
    }
}

impl Immediate {
    /// Whether the stored bytes satisfy the immediate-address layout.
    pub open spec fn wf(&self) -> bool {
        is_immediate_form(self@)
    }

    /// The auxiliary payload carried by the address, as a sequence.
    pub open spec fn spec_auxiliary(&self) -> Seq<u8> {
        self@.subrange(0, aux_len_of(self@))
    }

    /// Wraps 32 bytes as an immediate view without inspecting them, for
    /// the address union's tag dispatch.
    pub(crate) fn from_raw(bytes: [u8; 32]) -> (r: Immediate)
        ensures
            r@ == bytes@,
    {
        Immediate { bytes }
    }

    /// Address of the empty value: all bytes zero except byte 31, which
    /// holds the metadata `(0 << 2) | 1 = 0x01`.
    pub fn empty() -> (r: Immediate)
        ensures
            r.wf(),
            r@ == immediate_bytes_for(Seq::<u8>::empty()),
            r@[31] == 0x01u8,
            forall|i: int| 0 <= i < 31 ==> r@[i] == 0u8,
            r.spec_auxiliary() == Seq::<u8>::empty(),
    {
        let mut bytes: [u8; 32] = [0u8; 32];
        bytes[31] = 0x01;
        proof {
            assert(0x01u8 & 0x83u8 == 0x01u8) by (bit_vector);
            assert(0x01u8 >> 2 == 0u8) by (bit_vector);
            assert((((0u8) << 2) | 1u8) == 0x01u8) by (bit_vector);
            assert(bytes@ =~= immediate_bytes_for(Seq::<u8>::empty()));
            assert(bytes@.subrange(0, 0) =~= Seq::<u8>::empty());
        }
        Immediate { bytes }
    }

    /// Create an immediate address from the bytes that make it up.
    ///
    /// Succeeds exactly when the bytes satisfy the immediate-address
    /// layout; an improperly formatted address gives `None`.
    pub fn from_bytes(bytes: &[u8; 32]) -> (r: Option<Immediate>)
        ensures
            r is Some <==> is_immediate_form(bytes@),
            r matches Some(im) ==> im@ == bytes@ && im.wf(),
    {
        let meta = bytes[31];
        if meta & 0x83 != 0x01 {
            return None;
        }
        let len: usize = (meta >> 2) as usize;
        proof {
            assert(meta & 0x83u8 == 0x01u8 ==> meta >> 2 <= 31u8) by (bit_vector);
        }
        let mut i: usize = len;
        while i < 31
            invariant
                len == aux_len_of(bytes@),
                len <= i <= 31,
                meta == bytes@[31],
                meta & 0x83u8 == 0x01u8,
                forall|j: int| len <= j < i ==> bytes@[j] == 0u8,
            decreases 31 - i,
        {
            if bytes[i] != 0 {
                return None;
            }
            i += 1;
        }
        Some(Immediate { bytes: *bytes })
    }

    /// Create an immediate address from bytes already known to satisfy the
    /// immediate-address layout, skipping validation.
    ///
    /// The fast path for bytes whose origin already guarantees the layout,
    /// such as bytes re-read from a collaborator that wrote them through
    /// the checked path. The precondition must never be discharged with
    /// externally supplied bytes; those go through [`Self::from_bytes`].
    pub fn from_bytes_unchecked(bytes: &[u8; 32]) -> (r: Immediate)
        requires
            is_immediate_form(bytes@),
        ensures
            r@ == bytes@,
            r.wf(),
    {
        Immediate { bytes: *bytes }
    }

    /// The bytes that make up the address.
    ///
    /// This is different from the auxiliary data: it includes the padding
    /// bytes and the metadata byte.
    pub fn as_bytes(&self) -> (r: &[u8; 32])
        ensures
            r@ == self@,
    {
        &self.bytes
    }

    /// Create an immediate address from auxiliary data.
    ///
    /// With more than 31 bytes of auxiliary data the value cannot be
    /// inlined and this function returns `None`. Otherwise the result is
    /// the canonical encoding: the payload, zero padding, and the metadata
    /// byte `(len << 2) | 1`.
    pub fn from_auxiliary(auxiliary: &[u8]) -> (r: Option<Immediate>)
        ensures
            r is Some <==> auxiliary@.len() <= 31,
            r matches Some(im) ==> im@ == immediate_bytes_for(auxiliary@) && im.wf()
                && im.spec_auxiliary() == auxiliary@,
    {
        if auxiliary.len() > 31 {
            return None;
        }
        let len = auxiliary.len();
        let mut bytes: [u8; 32] = [0u8; 32];
        let mut i: usize = 0;
        while i < len
            invariant
                len == auxiliary@.len(),
                len <= 31,
                i <= len,
                forall|j: int| 0 <= j < i ==> bytes@[j] == auxiliary@[j],
                forall|j: int| i <= j < 32 ==> bytes@[j] == 0u8,
            decreases len - i,
        {
            bytes[i] = auxiliary[i];
            i += 1;
        }
        bytes[31] = ((len as u8) << 2) | 0x01;
        proof {
            let l = len as u8;
            assert(l <= 31 ==> ((l << 2) | 0x01u8) & 0x83u8 == 0x01u8) by (bit_vector);
            assert(l <= 31 ==> (((l << 2) | 0x01u8) >> 2) == l) by (bit_vector);
            assert(bytes@ =~= immediate_bytes_for(auxiliary@));
            assert(bytes@.subrange(0, aux_len_of(bytes@)) =~= auxiliary@);
        }
        Some(Immediate { bytes })
    }

    /// The auxiliary data in the address: the first `L` bytes, where `L`
    /// is read from bits 6..2 of the metadata byte. Never includes padding
    /// or the metadata byte, and is always shorter than 32 bytes.
    pub fn auxiliary(&self) -> (r: &[u8])
        requires
            self.wf(),
        ensures
            r@ == self.spec_auxiliary(),
            r@.len() == aux_len_of(self@),
    {
        let meta = self.bytes[31];
        proof {
            assert(meta & 0x83u8 == 0x01u8 ==> meta >> 2 <= 31u8) by (bit_vector);
        }
        let len: usize = (meta >> 2) as usize;
        slice_subrange(self.bytes.as_slice(), 0, len)
    }

    /// Rewrite one byte of the auxiliary data in place.
    ///
    /// Mutation through this entry point can never change the number of
    /// auxiliary bytes: the padding bytes and the metadata byte are left
    /// untouched, so the address stays in canonical form. This is safe
    /// because any two immediate addresses with the same number of
    /// auxiliary bytes have identical padding and metadata.
    pub fn auxiliary_mut(&mut self, index: usize, value: u8)
        requires
            old(self).wf(),
            index < aux_len_of(old(self)@),
        ensures
            final(self)@ == old(self)@.update(index as int, value),
            final(self).wf(),
            aux_len_of(final(self)@) == aux_len_of(old(self)@),
            final(self).spec_auxiliary() == old(self).spec_auxiliary().update(
                index as int,
                value,
            ),
    {
        proof {
            let m = old(self)@[31];
            assert(m & 0x83u8 == 0x01u8 ==> m >> 2 <= 31u8) by (bit_vector);
        }
        self.bytes[index] = value;
        proof {
            assert(self@.subrange(0, aux_len_of(self@)) =~= old(self)@.subrange(
                0,
                aux_len_of(old(self)@),
            ).update(index as int, value));
        }
    }
}

/// Round trip: the canonical encoding of any auxiliary payload of at most
/// 31 bytes satisfies the immediate-address layout, so decoding its raw
/// bytes succeeds, and the decoded auxiliary data is the original payload.
pub proof fn lemma_round_trip(aux: Seq<u8>)
    requires
        aux.len() <= 31,
    ensures
        is_immediate_form(immediate_bytes_for(aux)),
        aux_len_of(immediate_bytes_for(aux)) == aux.len(),
        immediate_bytes_for(aux).subrange(0, aux.len() as int) == aux,
{
    let bytes = immediate_bytes_for(aux);
    let l = aux.len() as u8;
    assert(l <= 31 ==> ((l << 2) | 0x01u8) & 0x83u8 == 0x01u8) by (bit_vector);
    assert(l <= 31 ==> (((l << 2) | 0x01u8) >> 2) == l) by (bit_vector);
    assert(bytes.subrange(0, aux.len() as int) =~= aux);
}

} // verus!
