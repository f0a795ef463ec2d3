//! Epochs: the rolling summary of an allocator's kills, held by the
//! allocator and, as snapshots, by whoever depends on its identifiers.

use crate::id::{Id, UntypedId};
use crate::model::advance_epoch;
use std::marker::PhantomData;
use vstd::prelude::*;
use vstd::std_specs::cmp::PartialEqSpecImpl;

verus! {

fn wrapping_shl_bit_xor(hash: &mut u64, id: UntypedId)
    ensures
        *final(hash) == advance_epoch(*old(hash), id@),
{
    let bits = id.bits();
    *hash <<= 1;
    *hash ^= bits;
}

/// A consumer's snapshot of an allocator's epoch.
#[derive(Debug)]
pub struct UntypedArenaGen(u64);

impl View for UntypedArenaGen {
    type V = u64;

    closed spec fn view(&self) -> u64 {
        self.0
    }
}

impl Default for UntypedArenaGen {
    /// The snapshot that matches a new allocator.
    fn default() -> (r: Self)
        ensures
            r@ == 0,
    {
        UntypedArenaGen(0)
    }
}

impl Clone for UntypedArenaGen {
    fn clone(&self) -> (r: Self)
        ensures
            r@ == self@,
    {
        UntypedArenaGen(self.0)
    }
}

impl UntypedArenaGen {
    /// Folds the kill of `id` into the snapshot.
    pub fn increment_gen(&mut self, id: UntypedId)
        ensures
            final(self)@ == advance_epoch(old(self)@, id@),
    {
        wrapping_shl_bit_xor(&mut self.0, id);
    }

    /// Moves the snapshot from `before` to `after`. The snapshot has to
    /// stand at `before`.
    pub fn update(&mut self, before: &UntypedAllocGen, after: &UntypedAllocGen)
        requires
            old(self)@ == before@,
        ensures
            final(self)@ == after@,
    {
        if self.0 != before.0 {
            unreached()
        }
        self.0 = after.0;
    }
}

impl PartialEq<UntypedAllocGen> for UntypedArenaGen {
    fn eq(&self, other: &UntypedAllocGen) -> (r: bool) {
        self.0 == other.0
    }
}

impl PartialEqSpecImpl<UntypedAllocGen> for UntypedArenaGen {
    open spec fn obeys_eq_spec() -> bool {
        true
    }

    open spec fn eq_spec(&self, other: &UntypedAllocGen) -> bool {
        self@ == other@
    }
}

/// The epoch as an allocator holds it.
#[derive(Debug)]
pub struct UntypedAllocGen(u64);

impl View for UntypedAllocGen {
    type V = u64;

    closed spec fn view(&self) -> u64 {
        self.0
    }
}

impl Default for UntypedAllocGen {
    /// The epoch of a new allocator.
    fn default() -> (r: Self)
        ensures
            r@ == 0,
    {
        UntypedAllocGen(0)
    }
}

impl UntypedAllocGen {
    pub(crate) fn clone(&self) -> (r: Self)
        ensures
            r@ == self@,
    {
        UntypedAllocGen(self.0)
    }

    /// Folds the kill of `id` into the epoch.
    pub fn increment_gen(&mut self, id: UntypedId)
        ensures
            final(self)@ == advance_epoch(old(self)@, id@),
    {
        wrapping_shl_bit_xor(&mut self.0, id);
    }
}

/// A consumer's snapshot of the epoch of the allocator of arena `Arena`.
#[derive(Debug)]
pub struct ArenaGen<Arena>(UntypedArenaGen, PhantomData<Arena>);

impl<Arena> View for ArenaGen<Arena> {
    type V = u64;

    closed spec fn view(&self) -> u64 {
        self.0@
    }
}

impl<Arena> Default for ArenaGen<Arena> {
    /// The snapshot that matches a new allocator.
    fn default() -> (r: Self)
        ensures
            r@ == 0,
    {
        ArenaGen(UntypedArenaGen::default(), PhantomData)
    }
}

impl<Arena> Clone for ArenaGen<Arena> {
    fn clone(&self) -> (r: Self)
        ensures
            r@ == self@,
    {
        ArenaGen(self.0.clone(), PhantomData)
    }
}

impl<Arena> ArenaGen<Arena> {
    /// Folds the kill of `id` into the snapshot.
    pub fn increment_gen(&mut self, id: Id<Arena>)
        ensures
            final(self)@ == advance_epoch(old(self)@, id@),
    {
        self.0.increment_gen(id.untyped());
    }

    /// Moves the snapshot from `before` to `after`. The snapshot has to
    /// stand at `before`.
    pub fn update(&mut self, before: &AllocGen<Arena>, after: &AllocGen<Arena>)
        requires
            old(self)@ == before@,
        ensures
            final(self)@ == after@,
    {
        self.0.update(&before.0, &after.0);
    }
}

impl<Arena> PartialEq<AllocGen<Arena>> for ArenaGen<Arena> {
    fn eq(&self, other: &AllocGen<Arena>) -> (r: bool) {
        self.0.eq(&other.0)
    }
}

impl<Arena> PartialEqSpecImpl<AllocGen<Arena>> for ArenaGen<Arena> {
    open spec fn obeys_eq_spec() -> bool {
        true
    }

    open spec fn eq_spec(&self, other: &AllocGen<Arena>) -> bool {
        self@ == other@
    }
}

/// The epoch of the allocator of arena `Arena`. It cannot be copied: a value
/// is handed out by the allocator that it belongs to.
#[derive(Debug)]
pub struct AllocGen<Arena>(UntypedAllocGen, PhantomData<Arena>);

impl<Arena> View for AllocGen<Arena> {
    type V = u64;

    closed spec fn view(&self) -> u64 {
        self.0@
    }
}

impl<Arena> AllocGen<Arena> {
    pub(crate) fn new(gen: UntypedAllocGen) -> (r: Self)
        ensures
            r@ == gen@,
    {
        AllocGen(gen, PhantomData)
    }
}

} // verus!
