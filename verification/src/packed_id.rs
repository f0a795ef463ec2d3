//! Identifiers packed into one 64-bit word: the index in the high half, the
//! generation in the low half. The word is never zero, since no generation
//! is.

use crate::gen::{next_gen, Gen};
use crate::id::{compare_ids, id_bits, IdView};
use std::cmp::Ordering;
use std::marker::PhantomData;
use vstd::prelude::*;
use vstd::std_specs::cmp::PartialEqSpecImpl;
use vstd::std_specs::cmp::PartialOrdSpecImpl;

verus! {

/// The index that a packed word holds.
pub open spec fn unpack_index(bits: u64) -> u32 {
    (bits >> 32) as u32
}

/// The generation that a packed word holds.
pub open spec fn unpack_gen(bits: u64) -> u32 {
    (bits & 0xffff_ffff) as u32
}

/// Packing an identifier and taking the word apart again gives the
/// identifier back, and the word of an identifier is not zero.
pub proof fn pack_unpack(id: IdView)
    ensures
        unpack_index(id_bits(id)) == id.index,
        unpack_gen(id_bits(id)) == id.gen,
        id.gen != 0 ==> id_bits(id) != 0,
{
    let (index, gen) = (id.index, id.gen);
    assert(((((index as u64) << 32) | (gen as u64)) >> 32) as u32 == index) by (bit_vector);
    assert(((((index as u64) << 32) | (gen as u64)) & 0xffff_ffff) as u32 == gen) by (bit_vector);
    assert(gen != 0 ==> ((index as u64) << 32) | (gen as u64) != 0) by (bit_vector);
}

/// An identifier of the arena `Arena`, held as one word.
#[derive(Debug, Ord, Hash)]
pub struct Id<Arena> {
    bits: u64,
    marker: PhantomData<Arena>,
}

impl<Arena> View for Id<Arena> {
    type V = IdView;

    closed spec fn view(&self) -> IdView {
        IdView { index: unpack_index(self.bits), gen: unpack_gen(self.bits) }
    }
}

impl<Arena> Clone for Id<Arena> {
    fn clone(&self) -> (r: Self)
        ensures
            r == *self,
    {
        *self
    }
}

impl<Arena> Copy for Id<Arena> {

}

impl<Arena> PartialEq for Id<Arena> {
    fn eq(&self, other: &Self) -> (r: bool) {
        proof {
            use_type_invariant(self);
            use_type_invariant(other);
            let (a, b) = (self.bits, other.bits);
            assert((a >> 32) as u32 == (b >> 32) as u32 && (a & 0xffff_ffff) as u32 == (b
                & 0xffff_ffff) as u32 ==> a == b) by (bit_vector);
        }
        self.bits == other.bits
    }
}

impl<Arena> Eq for Id<Arena> {

}

impl<Arena> PartialOrd for Id<Arena> {
    fn partial_cmp(&self, other: &Self) -> (r: Option<Ordering>) {
        proof {
            let (a, b) = (self.bits, other.bits);
            assert(a < b <==> (a >> 32) < (b >> 32) || ((a >> 32) == (b >> 32) && (a & 0xffff_ffff)
                < (b & 0xffff_ffff))) by (bit_vector);
            assert(a == b <==> (a >> 32) == (b >> 32) && (a & 0xffff_ffff) == (b & 0xffff_ffff))
                by (bit_vector);
            assert((a >> 32) <= 0xffff_ffff && (a & 0xffff_ffff) <= 0xffff_ffff) by (bit_vector);
            assert((b >> 32) <= 0xffff_ffff && (b & 0xffff_ffff) <= 0xffff_ffff) by (bit_vector);
        }
        if self.bits < other.bits {
            Some(Ordering::Less)
        } else if self.bits > other.bits {
            Some(Ordering::Greater)
        } else {
            Some(Ordering::Equal)
        }
    }
}

impl<Arena> PartialOrdSpecImpl for Id<Arena> {
    open spec fn obeys_partial_cmp_spec() -> bool {
        true
    }

    open spec fn partial_cmp_spec(&self, other: &Self) -> Option<Ordering> {
        Some(compare_ids(self@, other@))
    }
}

impl<Arena> PartialEqSpecImpl for Id<Arena> {
    open spec fn obeys_eq_spec() -> bool {
        true
    }

    open spec fn eq_spec(&self, other: &Self) -> bool {
        self@ == other@
    }
}

impl<Arena> Id<Arena> {
    #[verifier::type_invariant]
    spec fn gen_nonzero(self) -> bool {
        unpack_gen(self.bits) != 0
    }

    /// The word that holds the identifier.
    pub closed spec fn bits(self) -> u64 {
        self.bits
    }

    /// The word of an identifier is made of its index and its generation
    /// as `id_bits` says, so two identifiers with the same index and
    /// generation are the same.
    pub proof fn bits_are_packed(self)
        ensures
            self.bits() == id_bits(self@),
    {
        let bits = self.bits;
        assert(bits == ((((bits >> 32) as u32) as u64) << 32) | (((bits & 0xffff_ffff) as u32)
            as u64)) by (bit_vector);
    }

    /// The identifier of the first occupant of slot `index`. An index that
    /// does not fit in 32 bits is reduced to its low 32 bits.
    pub fn first(index: usize) -> (id: Self)
        ensures
            id@.index == (index as int) % 0x1_0000_0000,
            id@.gen == 1,
    {
        Self::new(index, Gen::default())
    }

    /// Moves this identifier on to the next occupant of the same slot.
    pub fn increment_gen(&mut self)
        ensures
            final(self)@.index == old(self)@.index,
            final(self)@.gen == next_gen(old(self)@.gen),
    {
        let gen = self.gen().next();
        *self = Self::new(self.index(), gen);
    }

    /// The identifier of slot `index` in generation `gen`. An index that
    /// does not fit in 32 bits is reduced to its low 32 bits.
    pub fn new(index: usize, gen: Gen) -> (id: Self)
        ensures
            id@.index == (index as int) % 0x1_0000_0000,
            id@.gen == gen@,
    {
        let index_bits: u64 = (index as u64) << Gen::SIZE_IN_BITS;
        let gen_bits: u64 = gen.get_bits();

        let bits: u64 = index_bits | gen_bits;

        proof {
            let wide = index as u64;
            assert(gen_bits <= 0xffff_ffff ==> (((wide << 32u32) | gen_bits) & 0xffff_ffff)
                == gen_bits) by (bit_vector);
            assert(gen_bits <= 0xffff_ffff ==> (((wide << 32u32) | gen_bits) >> 32) as u32 == wide
                % 0x1_0000_0000) by (bit_vector);
        }

        Self::from_bits(bits)
    }

    fn from_bits(bits: u64) -> (id: Self)
        requires
            unpack_gen(bits) != 0,
        ensures
            id.bits() == bits,
            id@ == (IdView { index: unpack_index(bits), gen: unpack_gen(bits) }),
    {
        Self { bits, marker: PhantomData }
    }

    /// The slot that this identifier points at.
    pub fn index(&self) -> (r: usize)
        ensures
            r == self@.index,
    {
        let index = self.index_u64();
        index as usize
    }

    pub(crate) fn index_u32(&self) -> (r: u32)
        ensures
            r == self@.index,
    {
        let index = self.index_u64();
        index as u32
    }

    fn index_u64(&self) -> (r: u64)
        ensures
            r == self@.index,
            r <= u32::MAX,
    {
        let bits = self.bits;
        assert(bits >> 32u32 <= 0xffff_ffff) by (bit_vector);
        self.bits >> Gen::SIZE_IN_BITS
    }

    /// The generation of the occupant that this identifier names.
    pub fn gen(&self) -> (r: Gen)
        ensures
            r@ == self@.gen,
    {
        proof {
            use_type_invariant(self);
        }
        let bits = self.bits;
        assert(bits & 0xffff_ffff <= 0xffff_ffff) by (bit_vector);
        let gen = self.bits & Gen::MASK;
        match Gen::new(gen as u32) {
            Some(gen) => gen,
            None => Gen::default(),
        }
    }
}

} // verus!
