//! Identifiers: an index into a slot table together with the generation of
//! the slot's occupant.

use crate::gen::Gen;
use crate::traits::{Fixed, ValidId};
use std::cmp::Ordering;
use std::marker::PhantomData;
use vstd::prelude::*;
use vstd::std_specs::cmp::PartialEqSpecImpl;
use vstd::std_specs::cmp::PartialOrdSpecImpl;

verus! {

/// What an identifier is, as plain numbers.
pub struct IdView {
    pub index: u32,
    pub gen: u32,
}

/// The 64-bit pattern of an identifier: the index in the high half, the
/// generation in the low half.
pub open spec fn id_bits(id: IdView) -> u64 {
    ((id.index as u64) << 32) | (id.gen as u64)
}

/// How two identifiers compare: by index first, then by generation.
pub open spec fn compare_ids(a: IdView, b: IdView) -> Ordering {
    if a.index < b.index {
        Ordering::Less
    } else if a.index > b.index {
        Ordering::Greater
    } else if a.gen < b.gen {
        Ordering::Less
    } else if a.gen > b.gen {
        Ordering::Greater
    } else {
        Ordering::Equal
    }
}

/// An identifier that is not tied to any arena.
#[derive(Debug, Clone, Copy, PartialEq, Eq, Ord, Hash, Structural)]
pub struct UntypedId {
    pub index: u32,
    pub(crate) gen: Gen,
}

impl View for UntypedId {
    type V = IdView;

    closed spec fn view(&self) -> IdView {
        IdView { index: self.index, gen: self.gen@ }
    }
}

impl PartialOrd for UntypedId {
    fn partial_cmp(&self, other: &Self) -> (r: Option<Ordering>) {
        let (mine, theirs) = (self.gen.get(), other.gen.get());
        if self.index < other.index {
            Some(Ordering::Less)
        } else if self.index > other.index {
            Some(Ordering::Greater)
        } else if mine < theirs {
            Some(Ordering::Less)
        } else if mine > theirs {
            Some(Ordering::Greater)
        } else {
            Some(Ordering::Equal)
        }
    }
}

impl PartialOrdSpecImpl for UntypedId {
    open spec fn obeys_partial_cmp_spec() -> bool {
        true
    }

    open spec fn partial_cmp_spec(&self, other: &Self) -> Option<Ordering> {
        Some(compare_ids(self@, other@))
    }
}

impl UntypedId {
    /// The identifier of the first occupant of slot `index`. An index that
    /// does not fit in 32 bits is reduced to its low 32 bits.
    pub fn first(index: usize) -> (id: UntypedId)
        ensures
            id@.index == (index as int) % 0x1_0000_0000,
            id@.gen == 1,
    {
        assert(index as u32 == (index as u64) % 0x1_0000_0000) by (bit_vector);
        UntypedId::first_u32(#[verifier::truncate] (index as u32))
    }

    pub(crate) fn first_u32(index: u32) -> (id: UntypedId)
        ensures
            id@ == (IdView { index, gen: 1 }),
    {
        UntypedId { index, gen: Gen::default() }
    }

    pub(crate) fn from_parts(index: u32, gen: Gen) -> (id: UntypedId)
        ensures
            id@ == (IdView { index, gen: gen@ }),
    {
        UntypedId { index, gen }
    }

    /// Two identifiers with the same index and generation are the same.
    pub proof fn view_injective(a: UntypedId, b: UntypedId)
        requires
            a@ == b@,
        ensures
            a == b,
    {
        Gen::view_injective(a.gen, b.gen);
    }

    /// The slot that this identifier points at.
    pub fn index(&self) -> (r: usize)
        ensures
            r == self@.index,
    {
        self.index as usize
    }

    pub(crate) fn index_u32(&self) -> (r: u32)
        ensures
            r == self@.index,
    {
        self.index
    }

    /// Moves this identifier on to the next occupant of the same slot.
    pub fn increment_gen(&mut self)
        ensures
            final(self)@.index == old(self)@.index,
            final(self)@.gen == crate::gen::next_gen(old(self)@.gen),
    {
        self.gen = self.gen.next();
    }

    /// The generation of the occupant that this identifier names.
    pub fn gen(&self) -> (r: Gen)
        ensures
            r@ == self@.gen,
    {
        self.gen
    }

    pub(crate) fn bits(self) -> (r: u64)
        ensures
            r == id_bits(self@),
    {
        (self.index as u64) << 32 | self.gen.get() as u64
    }
}

/// An identifier of the arena `Arena`. Identifiers of different arenas are
/// different types, whatever their index and generation.
#[derive(Debug, Ord, Hash)]
pub struct Id<Arena> {
    pub untyped: UntypedId,
    marker: PhantomData<Arena>,
}

impl<Arena> View for Id<Arena> {
    type V = IdView;

    closed spec fn view(&self) -> IdView {
        self.untyped@
    }
}

impl<Arena> Clone for Id<Arena> {
    fn clone(&self) -> (r: Self)
        ensures
            r == *self,
    {
        *self
    }
}

impl<Arena> Copy for Id<Arena> {

}

impl<Arena> PartialEq for Id<Arena> {
    fn eq(&self, other: &Self) -> (r: bool) {
        proof {
            if self@ == other@ {
                UntypedId::view_injective(self.untyped, other.untyped);
            }
        }
        self.untyped == other.untyped
    }
}

impl<Arena> Eq for Id<Arena> {

}

impl<Arena> PartialOrd for Id<Arena> {
    fn partial_cmp(&self, other: &Self) -> (r: Option<Ordering>) {
        self.untyped.partial_cmp(&other.untyped)
    }
}

impl<Arena> PartialOrdSpecImpl for Id<Arena> {
    open spec fn obeys_partial_cmp_spec() -> bool {
        true
    }

    open spec fn partial_cmp_spec(&self, other: &Self) -> Option<Ordering> {
        Some(compare_ids(self@, other@))
    }
}

impl<Arena> PartialEqSpecImpl for Id<Arena> {
    open spec fn obeys_eq_spec() -> bool {
        true
    }

    open spec fn eq_spec(&self, other: &Self) -> bool {
        self@ == other@
    }
}

impl<Arena> Id<Arena> {
    /// The identifier of the first occupant of slot `index`. An index that
    /// does not fit in 32 bits is reduced to its low 32 bits.
    pub fn first(index: usize) -> (id: Self)
        ensures
            id@.index == (index as int) % 0x1_0000_0000,
            id@.gen == 1,
    {
        Id::new(UntypedId::first(index))
    }

    /// The identifier of arena `Arena` with the index and generation of `id`.
    pub fn new(id: UntypedId) -> (r: Self)
        ensures
            r@ == id@,
    {
        Id { untyped: id, marker: PhantomData }
    }

    /// The same identifier without its arena.
    pub fn untyped(&self) -> (r: UntypedId)
        ensures
            r@ == self@,
    {
        self.untyped
    }

    /// The slot that this identifier points at.
    pub fn index(self) -> (r: usize)
        ensures
            r == self@.index,
    {
        self.untyped.index()
    }

    /// The generation of the occupant that this identifier names.
    pub fn gen(&self) -> (r: Gen)
        ensures
            r@ == self@.gen,
    {
        self.untyped.gen()
    }

    /// Two identifiers of one arena with the same index and generation are
    /// the same.
    pub proof fn view_injective(a: Self, b: Self)
        requires
            a@ == b@,
        ensures
            a == b,
    {
        UntypedId::view_injective(a.untyped, b.untyped);
    }
}

impl<Arena: Fixed> ValidId for Id<Arena> {
    type Arena = Arena;

    open spec fn id_view(&self) -> IdView {
        self@
    }

    fn index(&self) -> (r: usize) {
        Id::index(*self)
    }

    fn id(&self) -> (r: Id<Arena>) {
        *self
    }
}

impl<Arena: Fixed> ValidId for &Id<Arena> {
    type Arena = Arena;

    open spec fn id_view(&self) -> IdView {
        (**self)@
    }

    fn index(&self) -> (r: usize) {
        Id::index(**self)
    }

    fn id(&self) -> (r: Id<Arena>) {
        **self
    }
}

} // verus!
