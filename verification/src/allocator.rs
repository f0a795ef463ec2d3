//! The slot allocator: a growable table of slots with the dead ones chained
//! into a free list that runs through the table itself.

use crate::alloc_gen::{AllocGen, ArenaGen, UntypedAllocGen};
use crate::gen::Gen;
use crate::id::{Id, IdView, UntypedId};
use crate::model::{AllocView, Slot};
use crate::range::{IdRange, RangeView, UntypedIdRange};
use crate::traits::{Fixed, Validator};
use crate::valid::{Valid, ValidIter};
use nonmax::NonMaxU32;
use std::marker::PhantomData;
use vstd::prelude::*;
use vstd::std_specs::iter::IteratorSpec;

verus! {

/// `nonmax::NonMaxU32`, a 32-bit number that is never `u32::MAX`, so that
/// an optional one takes no more room than the number. Nothing is known of
/// its inside but what `nonmax_value` names.
#[verifier::external_type_specification]
#[verifier::external_body]
pub struct ExNonMaxU32(NonMaxU32);

/// The number that a `NonMaxU32` stands for.
pub uninterp spec fn nonmax_value(n: NonMaxU32) -> u32;

/// `NonMaxU32::new` accepts every number but `u32::MAX`, and what it returns
/// stands for the number given.
pub assume_specification[ NonMaxU32::new ](value: u32) -> (r: Option<NonMaxU32>)
    ensures
        value == u32::MAX <==> r is None,
        r matches Some(n) ==> nonmax_value(n) == value,
;

/// `NonMaxU32::get` returns the number that the value stands for, which is
/// never `u32::MAX`.
pub assume_specification[ NonMaxU32::get ](n: &NonMaxU32) -> (r: u32)
    ensures
        r == nonmax_value(*n),
        r < u32::MAX,
;

/// The index that a free-list link points at, if it points anywhere.
spec fn link_target(link: Option<NonMaxU32>) -> Option<u32> {
    match link {
        Some(n) => Some(nonmax_value(n)),
        None => None,
    }
}

/// What a dead slot keeps.
#[derive(Debug)]
pub struct Dead {
    next_dead: Option<NonMaxU32>,
    gen: Gen,
}

/// One row of the slot table.
#[derive(Debug)]
pub enum Entry {
    Dead(Dead),
    Alive(UntypedId),
}

impl Entry {
    /// The slot's state in the model.
    pub closed spec fn slot(self) -> Slot {
        match self {
            Entry::Dead(dead) => Slot::Dead { next_gen: dead.gen@ },
            Entry::Alive(id) => Slot::Alive { gen: id@.gen },
        }
    }

    fn dead(&self) -> (r: Option<&Dead>)
        ensures
            r == match *self {
                Entry::Dead(dead) => Some(&dead),
                Entry::Alive(_) => None,
            },
    {
        match self {
            Entry::Dead(dead) => Some(dead),
            Entry::Alive(_) => None,
        }
    }

    fn alive(&self) -> (r: Option<UntypedId>)
        ensures
            r == match *self {
                Entry::Dead(_) => None,
                Entry::Alive(id) => Some(id),
            },
    {
        match self {
            Entry::Dead(_) => None,
            Entry::Alive(id) => Some(*id),
        }
    }
}

/// A slot allocator whose identifiers belong to no arena.
pub struct UntypedAllocator {
    entries: Vec<Entry>,
    next_dead: Option<NonMaxU32>,
    gen: UntypedAllocGen,
    free: Ghost<Seq<u32>>,
}

impl View for UntypedAllocator {
    type V = AllocView;

    closed spec fn view(&self) -> AllocView {
        AllocView {
            slots: self.entries@.map_values(|e: Entry| e.slot()),
            free: self.free@,
            epoch: self.gen@,
        }
    }
}

impl UntypedAllocator {
    #[verifier::type_invariant]
    spec fn inv(self) -> bool {
        &&& self.entries@.len() <= u32::MAX
        &&& forall|i: int|
            0 <= i < self.entries@.len() ==> match #[trigger] self.entries@[i] {
                Entry::Alive(id) => id@.index == i && id@.gen != 0,
                Entry::Dead(dead) => dead.gen@ != 0 && self.free@.contains(i as u32),
            }
        &&& self.free@.no_duplicates()
        &&& forall|k: int|
            0 <= k < self.free@.len() ==> {
                &&& (#[trigger] self.free@[k]) < self.entries@.len()
                &&& self.entries@[self.free@[k] as int] matches Entry::Dead(dead)
                &&& link_target(dead.next_dead) == if k + 1 < self.free@.len() {
                    Some(self.free@[k + 1])
                } else {
                    None
                }
            }
        &&& link_target(self.next_dead) == if self.free@.len() > 0 {
            Some(self.free@[0])
        } else {
            None
        }
    }

    /// The state of every allocator is well formed.
    pub fn well_formed(&self)
        ensures
            self@.wf(),
    {
        proof {
            use_type_invariant(self);
        }
    }

    /// Hands the allocator out and leaves an empty one in its place. The
    /// fields depend on each other, so a change is made on the parts and the
    /// whole is put back at once.
    fn take(&mut self) -> (taken: Self)
        ensures
            taken == *old(self),
            taken.inv(),
    {
        proof {
            use_type_invariant(&*self);
        }
        let mut taken = UntypedAllocator::default();
        core::mem::swap(self, &mut taken);
        taken
    }

    /// Whether `id` names the current occupant of its slot.
    pub fn is_alive(&self, id: UntypedId) -> (r: bool)
        ensures
            r == self@.is_alive(id@),
    {
        proof {
            use_type_invariant(self);
        }
        let index = id.index();
        if index < self.entries.len() {
            match self.entries[index].alive() {
                Some(living) => {
                    proof {
                        if living@ == id@ {
                            UntypedId::view_injective(living, id);
                        }
                    }
                    living == id
                },
                None => false,
            }
        } else {
            false
        }
    }

    /// Makes an identifier: on the slot that died last, if any slot is dead,
    /// with the generation kept for it; else on a new slot at the end of the
    /// table, with generation 1.
    pub fn create(&mut self) -> (id: UntypedId)
        requires
            old(self)@.can_create(),
        ensures
            (final(self)@, id@) == old(self)@.create(),
    {
        match self.reuse_index() {
            Some(id) => id,
            None => self.create_new(),
        }
    }

    /// Appends `len` slots to the table, each alive in generation 1, and
    /// returns the indices that they took.
    pub fn create_range(&mut self, len: usize) -> (range: UntypedIdRange)
        requires
            old(self)@.slots.len() + len <= u32::MAX,
        ensures
            final(self)@ == old(self)@.grow(len as nat),
            range@ == (RangeView {
                start: old(self)@.slots.len() as int,
                end: old(self)@.slots.len() + len,
            }),
    {
        proof {
            use_type_invariant(&*self);
        }
        let start = self.entries.len();
        let end = start + len;
        let ghost before = self@;
        assert(before.grow(0).slots =~= before.slots);
        for made in 0..len
            invariant
                self@ == before.grow(made as nat),
                before.slots.len() + len <= u32::MAX,
        {
            // guarantees that the new slots are contiguous at the end of the table
            let _ = self.create_new();
            assert(before.grow(made as nat).grow(1).slots =~= before.grow((made + 1) as nat).slots);
        }
        UntypedIdRange::new(start, end)
    }

    fn reuse_index(&mut self) -> (r: Option<UntypedId>)
        ensures
            r is Some <==> old(self)@.free.len() > 0,
            r matches Some(id) ==> (final(self)@, id@) == old(self)@.create(),
            r is None ==> *final(self) == *old(self),
    {
        proof {
            use_type_invariant(&*self);
        }
        let index = match self.next_dead {
            Some(link) => link.get(),
            None => {
                return None;
            },
        };
        if index as usize >= self.entries.len() {
            return None;
        }
        let (next_dead, gen) = match self.entries[index as usize].dead() {
            Some(dead) => (dead.next_dead, dead.gen),
            None => {
                return None;
            },
        };
        let ghost before = *self;
        let UntypedAllocator { mut entries, next_dead: _, gen: epoch, free } = self.take();

        let id = UntypedId::from_parts(index, gen);
        entries.set(index as usize, Entry::Alive(id));
        let ghost chain = free@.skip(1);
        proof {
            assert forall|k: int| 0 <= k < chain.len() implies chain[k] == free@[k + 1] && chain[k]
                != index by {}
            assert forall|i: int|
                0 <= i < entries@.len() && entries@[i] is Dead implies chain.contains(i as u32) by {
                assert(before.entries@[i] is Dead);
                let k = choose|k: int| 0 <= k < free@.len() && free@[k] == i as u32;
                assert(chain[k - 1] == i as u32);
            }
        }
        *self = UntypedAllocator { entries, next_dead, gen: epoch, free: Ghost(chain) };
        assert(self@.slots =~= before@.create().0.slots);
        Some(id)
    }

    fn create_new(&mut self) -> (id: UntypedId)
        requires
            old(self)@.slots.len() < u32::MAX,
        ensures
            final(self)@ == old(self)@.grow(1),
            final(self)@.slots == old(self)@.slots.push(Slot::Alive { gen: 1 }),
            id@ == (IdView { index: old(self)@.slots.len() as u32, gen: 1 }),
    {
        proof {
            use_type_invariant(&*self);
        }
        let ghost before = *self;
        let UntypedAllocator { mut entries, next_dead, gen, free } = self.take();
        let index = entries.len();
        let id = UntypedId::first(index);
        entries.push(Entry::Alive(id));
        *self = UntypedAllocator { entries, next_dead, gen, free };
        assert(self@.slots =~= before@.slots.push(Slot::Alive { gen: 1 }));
        assert(self@.slots =~= before@.grow(1).slots);
        id
    }

    /// The identifiers that are alive, by ascending index.
    pub fn ids(&self) -> (r: Vec<UntypedId>)
        ensures
            forall|i: int| 0 <= i < r.len() ==> self@.is_alive(#[trigger] r[i]@),
            forall|i: int, j: int| 0 <= i < j < r.len() ==> r[i]@.index < r[j]@.index,
            forall|id: IdView|
                self@.is_alive(id) ==> exists|i: int| 0 <= i < r.len() && #[trigger] r[i]@ == id,
    {
        proof {
            use_type_invariant(self);
        }
        let mut r: Vec<UntypedId> = Vec::new();
        for at in 0..self.entries.len()
            invariant
                self@.slots.len() == self.entries@.len(),
                forall|i: int|
                    0 <= i < r.len() ==> self@.is_alive(#[trigger] r[i]@) && r[i]@.index < at,
                forall|i: int, j: int| 0 <= i < j < r.len() ==> r[i]@.index < r[j]@.index,
                forall|id: IdView|
                    self@.is_alive(id) && id.index < at ==> exists|i: int|
                        0 <= i < r.len() && #[trigger] r[i]@ == id,
        {
            proof {
                use_type_invariant(self);
            }
            let ghost seen = r@;
            match self.entries[at].alive() {
                Some(id) => {
                    r.push(id);
                    assert forall|other: IdView|
                        self@.is_alive(other) && other.index < at + 1 implies exists|i: int|
                        0 <= i < r.len() && #[trigger] r[i]@ == other by {
                        if other.index < at {
                            let i = choose|i: int|
                                0 <= i < seen.len() && #[trigger] seen[i]@ == other;
                            assert(r[i]@ == other);
                        } else {
                            assert(r[seen.len() as int]@ == other);
                        }
                    }
                },
                None => {},
            }
        }
        r
    }

    /// Kills `id` if it is alive, and says whether it was. The slot of a
    /// killed identifier is the next to be reused, with the generation after
    /// that of `id`, and the epoch advances by `id`. A stale, dead or unknown
    /// identifier changes nothing.
    pub fn kill(&mut self, id: UntypedId) -> (killed: bool)
        ensures
            killed == old(self)@.is_alive(id@),
            final(self)@ == old(self)@.kill(id@),
    {
        if !self.is_alive(id) {
            return false;
        }
        proof {
            use_type_invariant(&*self);
        }
        let ghost before = *self;
        let UntypedAllocator { mut entries, next_dead, mut gen, free } = self.take();
        let index = id.index();
        entries.set(index, Entry::Dead(Dead { next_dead, gen: id.gen().next() }));
        let head = NonMaxU32::new(id.index_u32());
        gen.increment_gen(id);
        let ghost chain = seq![id@.index] + free@;
        proof {
            assert forall|k: int| 0 <= k < free@.len() implies free@[k] != id@.index by {
                assert(before.entries@[free@[k] as int] is Dead);
            }
            assert forall|k: int| 0 < k < chain.len() implies chain[k] == free@[k - 1] by {}
            assert forall|i: int|
                0 <= i < entries@.len() && entries@[i] is Dead implies chain.contains(i as u32) by {
                if i == index {
                    assert(chain[0] == i as u32);
                } else {
                    assert(before.entries@[i] is Dead);
                    let k = choose|k: int| 0 <= k < free@.len() && free@[k] == i as u32;
                    assert(chain[k + 1] == i as u32);
                }
            }
        }
        *self = UntypedAllocator { entries, next_dead: head, gen, free: Ghost(chain) };
        assert(self@.slots =~= before@.kill(id@).slots);
        true
    }
}

impl Default for UntypedAllocator {
    /// An allocator with no slot.
    fn default() -> (r: Self)
        ensures
            r@ == AllocView::empty(),
    {
        let r = UntypedAllocator {
            entries: Vec::new(),
            next_dead: None,
            gen: UntypedAllocGen::default(),
            free: Ghost(Seq::empty()),
        };
        assert(r@.slots =~= Seq::empty());
        r
    }
}

/// The identifiers of `ids` as plain numbers.
pub open spec fn id_views<Arena>(ids: Seq<Id<Arena>>) -> Seq<IdView> {
    ids.map_values(|id: Id<Arena>| id@)
}

/// The slot table of the arena `Arena`. By itself it makes identifiers and
/// answers questions; it takes the allocator that owns it to kill.
pub struct Slots<Arena> {
    untyped: UntypedAllocator,
    arena: PhantomData<Arena>,
}

impl<Arena> View for Slots<Arena> {
    type V = AllocView;

    closed spec fn view(&self) -> AllocView {
        self.untyped@
    }
}

impl<Arena> Slots<Arena> {
    /// The state of every slot table is well formed.
    pub fn well_formed(&self)
        ensures
            self@.wf(),
    {
        self.untyped.well_formed()
    }

    /// Makes an identifier, as `UntypedAllocator::create` does, and marks it
    /// as alive.
    pub fn create(&mut self) -> (id: Valid<Id<Arena>>)
        requires
            old(self)@.can_create(),
        ensures
            (final(self)@, id@@) == old(self)@.create(),
    {
        Valid::new(self.create_id())
    }

    /// Makes an identifier, as `UntypedAllocator::create` does.
    pub fn create_id(&mut self) -> (id: Id<Arena>)
        requires
            old(self)@.can_create(),
        ensures
            (final(self)@, id@) == old(self)@.create(),
    {
        Id::new(self.untyped.create())
    }

    fn kill(&mut self, id: Id<Arena>) -> (killed: bool)
        ensures
            killed == old(self)@.is_alive(id@),
            final(self)@ == old(self)@.kill(id@),
    {
        self.untyped.kill(id.untyped())
    }

    /// Whether `id` names the current occupant of its slot.
    pub fn is_alive(&self, id: Id<Arena>) -> (r: bool)
        ensures
            r == self@.is_alive(id@),
    {
        self.untyped.is_alive(id.untyped())
    }

    /// The mark on `id`, if `id` is alive.
    pub fn validate(&self, id: Id<Arena>) -> (r: Option<Valid<Id<Arena>>>)
        ensures
            r is Some <==> self@.is_alive(id@),
            r matches Some(valid) ==> valid@ == id,
    {
        if self.is_alive(id) {
            Some(Valid::new(id))
        } else {
            None
        }
    }

    /// The identifiers that are alive, by ascending index, each marked as
    /// alive.
    pub fn ids<'valid>(&'valid self) -> (r: Vec<Valid<'valid, Id<Arena>>>)
        ensures
            forall|i: int| 0 <= i < r.len() ==> self@.is_alive(#[trigger] r[i]@@),
            forall|i: int, j: int| 0 <= i < j < r.len() ==> r[i]@@.index < r[j]@@.index,
            forall|id: IdView|
                self@.is_alive(id) ==> exists|i: int| 0 <= i < r.len() && #[trigger] r[i]@@ == id,
    {
        let untyped = self.untyped.ids();
        let mut r: Vec<Valid<'valid, Id<Arena>>> = Vec::new();
        for at in 0..untyped.len()
            invariant
                r.len() == at,
                forall|i: int| 0 <= i < at ==> (#[trigger] r[i])@@ == untyped[i]@,
        {
            r.push(Valid::new(Id::new(untyped[at])));
        }
        assert forall|id: IdView| self@.is_alive(id) implies exists|i: int|
            0 <= i < r.len() && #[trigger] r[i]@@ == id by {
            let i = choose|i: int| 0 <= i < untyped.len() && #[trigger] untyped[i]@ == id;
            assert(r[i]@@ == id);
        }
        r
    }
}

impl<Arena: Fixed> Slots<Arena> {
    /// Appends `len` slots to the table, each alive in generation 1, and
    /// returns the range of their indices.
    pub fn create_range(&mut self, len: usize) -> (range: IdRange<Arena>)
        requires
            old(self)@.slots.len() + len <= u32::MAX,
        ensures
            final(self)@ == old(self)@.grow(len as nat),
            range@ == (RangeView {
                start: old(self)@.slots.len() as int,
                end: old(self)@.slots.len() + len,
            }),
    {
        let range = self.untyped.create_range(len);
        proof {
            IdRange::<Arena>::from_range_view(range);
        }
        IdRange::from(range)
    }
}

/// The slot allocator of the arena `Arena`.
pub struct Allocator<Arena> {
    slots: Slots<Arena>,
}

impl<Arena> View for Allocator<Arena> {
    type V = AllocView;

    closed spec fn view(&self) -> AllocView {
        self.slots@
    }
}

impl<Arena> Default for Allocator<Arena> {
    /// An allocator with no slot.
    fn default() -> (r: Self)
        ensures
            r@ == AllocView::empty(),
    {
        Allocator { slots: Slots { untyped: UntypedAllocator::default(), arena: PhantomData } }
    }
}

impl<Arena> Allocator<Arena> {
    /// The state of every allocator is well formed.
    pub fn well_formed(&self)
        ensures
            self@.wf(),
    {
        self.slots.well_formed()
    }

    /// Makes an identifier, as `UntypedAllocator::create` does, and marks it
    /// as alive.
    pub fn create(&mut self) -> (id: Valid<Id<Arena>>)
        requires
            old(self)@.can_create(),
        ensures
            (final(self)@, id@@) == old(self)@.create(),
    {
        Valid::new(self.create_id())
    }

    /// Makes an identifier, as `UntypedAllocator::create` does.
    pub fn create_id(&mut self) -> (id: Id<Arena>)
        requires
            old(self)@.can_create(),
        ensures
            (final(self)@, id@) == old(self)@.create(),
    {
        self.slots.create_id()
    }

    /// Kills `id` if it is alive, and says whether it was, as
    /// `UntypedAllocator::kill` does.
    pub fn kill(&mut self, id: Id<Arena>) -> (killed: bool)
        ensures
            killed == old(self)@.is_alive(id@),
            final(self)@ == old(self)@.kill(id@),
    {
        self.slots.kill(id)
    }

    /// Empties `ids` and kills each identifier that was in it, in order.
    /// What comes back holds those that died, in the order in which they
    /// died, with the epoch before the first kill and the epoch after the
    /// last. An identifier that is dead or stale, or that stood in `ids`
    /// before, does not die and is left out.
    #[must_use]
    pub fn kill_multiple(&mut self, ids: &mut Vec<Id<Arena>>) -> (killed: Killed<Arena>)
        ensures
            final(ids)@.len() == 0,
            final(self)@ == old(self)@.kill_all(id_views(old(ids)@)),
            id_views(killed.ids()) == old(self)@.killed_of(id_views(old(ids)@)),
            killed.before() == old(self)@.epoch,
            killed.after() == final(self)@.epoch,
    {
        // Take the epoch before any identifier is killed
        let start = AllocGen::new(self.slots.untyped.gen.clone());

        // Leaves out the dead identifiers and any repeated one
        let ghost before = self@;
        let ghost all = id_views(ids@);
        let mut dead: Vec<Id<Arena>> = Vec::new();
        for at in 0..ids.len()
            invariant
                all == id_views(ids@),
                self@ == before.kill_all(all.take(at as int)),
                id_views(dead@) == before.killed_of(all.take(at as int)),
        {
            let id = ids[at];
            let ghost seen = dead@;
            proof {
                assert(all.take(at + 1).drop_last() == all.take(at as int));
                assert(all.take(at + 1).last() == id@);
            }
            if self.kill(id) {
                dead.push(id);
                assert(id_views(dead@) == id_views(seen).push(id@));
            }
        }
        assert(all.take(ids@.len() as int) == all);
        ids.clear();

        // Take the epoch after the identifiers are killed
        let end = AllocGen::new(self.slots.untyped.gen.clone());

        Killed { ids: Valid::new(dead), before: start, after: end }
    }

    /// Whether `id` names the current occupant of its slot.
    pub fn is_alive(&self, id: Id<Arena>) -> (r: bool)
        ensures
            r == self@.is_alive(id@),
    {
        self.slots.is_alive(id)
    }

    /// A view of this allocator through which identifiers can be made and
    /// checked, but none killed. What it finds alive stays alive for as long
    /// as the view lasts. When the view ends, the allocator is in the state
    /// in which the view left the slot table.
    pub fn create_only<'valid>(&'valid mut self) -> (view: CreateOnly<'valid, Arena>)
        ensures
            view@ == old(self)@,
            final(self)@ == (*final(view.allocator))@,
    {
        CreateOnly { allocator: &mut self.slots }
    }

    /// The mark on `id`, if `id` is alive.
    pub fn validate(&self, id: Id<Arena>) -> (r: Option<Valid<Id<Arena>>>)
        ensures
            r is Some <==> self@.is_alive(id@),
            r matches Some(valid) ==> valid@ == id,
    {
        self.slots.validate(id)
    }

    /// The identifiers that are alive, by ascending index, each marked as
    /// alive.
    pub fn ids<'valid>(&'valid self) -> (r: Vec<Valid<'valid, Id<Arena>>>)
        ensures
            forall|i: int| 0 <= i < r.len() ==> self@.is_alive(#[trigger] r[i]@@),
            forall|i: int, j: int| 0 <= i < j < r.len() ==> r[i]@@.index < r[j]@@.index,
            forall|id: IdView|
                self@.is_alive(id) ==> exists|i: int| 0 <= i < r.len() && #[trigger] r[i]@@ == id,
    {
        self.slots.ids()
    }

    /// The epoch at which the allocator stands.
    pub fn alloc_gen(&self) -> (r: AllocGen<Arena>)
        ensures
            r@ == self@.epoch,
    {
        AllocGen::new(self.slots.untyped.gen.clone())
    }
}

impl<Arena: Fixed> Allocator<Arena> {
    /// Appends `len` slots to the table, each alive in generation 1, and
    /// returns the range of their indices.
    pub fn create_range(&mut self, len: usize) -> (range: IdRange<Arena>)
        requires
            old(self)@.slots.len() + len <= u32::MAX,
        ensures
            final(self)@ == old(self)@.grow(len as nat),
            range@ == (RangeView {
                start: old(self)@.slots.len() as int,
                end: old(self)@.slots.len() + len,
            }),
    {
        self.slots.create_range(len)
    }
}

/// A view of an allocator that makes and checks identifiers and kills none.
pub struct CreateOnly<'valid, Arena> {
    pub allocator: &'valid mut Slots<Arena>,
}

impl<'valid, Arena> View for CreateOnly<'valid, Arena> {
    type V = AllocView;

    open spec fn view(&self) -> AllocView {
        (*self.allocator)@
    }
}

impl<'valid, Arena> CreateOnly<'valid, Arena> {
    /// Makes an identifier, as `UntypedAllocator::create` does, and marks it
    /// as alive for as long as the view lasts. Every identifier that was
    /// alive before is alive after.
    pub fn create(&mut self) -> (id: Valid<'valid, Id<Arena>>)
        requires
            old(self)@.can_create(),
        ensures
            (final(self)@, id@@) == old(self)@.create(),
            *final(final(self).allocator) == *final(old(self).allocator),
    {
        Valid::new(self.allocator.create_id())
    }

    /// Whether `id` names the current occupant of its slot.
    pub fn is_alive(&self, id: Id<Arena>) -> (r: bool)
        ensures
            r == self@.is_alive(id@),
    {
        self.allocator.is_alive(id)
    }

    /// The identifiers that are alive, by ascending index, each marked as
    /// alive for as long as the view lasts.
    pub fn ids(&self) -> (r: Vec<Valid<'valid, Id<Arena>>>)
        ensures
            forall|i: int| 0 <= i < r.len() ==> self@.is_alive(#[trigger] r[i]@@),
            forall|i: int, j: int| 0 <= i < j < r.len() ==> r[i]@@.index < r[j]@@.index,
            forall|id: IdView|
                self@.is_alive(id) ==> exists|i: int| 0 <= i < r.len() && #[trigger] r[i]@@ == id,
    {
        let marked = self.allocator.ids();
        let mut r: Vec<Valid<'valid, Id<Arena>>> = Vec::new();
        for at in 0..marked.len()
            invariant
                r.len() == at,
                forall|i: int| 0 <= i < at ==> (#[trigger] r[i])@@ == marked[i]@@,
        {
            r.push(Valid::new(*marked[at].get()));
        }
        assert forall|id: IdView| self@.is_alive(id) implies exists|i: int|
            0 <= i < r.len() && #[trigger] r[i]@@ == id by {
            let i = choose|i: int| 0 <= i < marked.len() && #[trigger] marked[i]@@ == id;
            assert(r[i]@@ == id);
        }
        r
    }

    /// The epoch at which the allocator stands.
    pub fn alloc_gen(&self) -> (r: AllocGen<Arena>)
        ensures
            r@ == self@.epoch,
    {
        AllocGen::new(self.allocator.untyped.gen.clone())
    }
}

impl<'valid, Arena> Validator<'valid, Arena> for &'valid Allocator<Arena> {
    open spec fn state(&self) -> AllocView {
        (**self)@
    }

    fn validate(&self, id: Id<Arena>) -> (r: Option<Valid<'valid, Id<Arena>>>) {
        if self.is_alive(id) {
            Some(Valid::new(id))
        } else {
            None
        }
    }
}

impl<'valid, Arena> Validator<'valid, Arena> for &'valid mut Allocator<Arena> {
    open spec fn state(&self) -> AllocView {
        (**self)@
    }

    fn validate(&self, id: Id<Arena>) -> (r: Option<Valid<'valid, Id<Arena>>>) {
        if self.is_alive(id) {
            Some(Valid::new(id))
        } else {
            None
        }
    }
}

impl<'valid, Arena> Validator<'valid, Arena> for CreateOnly<'valid, Arena> {
    open spec fn state(&self) -> AllocView {
        self@
    }

    fn validate(&self, id: Id<Arena>) -> (r: Option<Valid<'valid, Id<Arena>>>) {
        if self.is_alive(id) {
            Some(Valid::new(id))
        } else {
            None
        }
    }
}

impl<'a, 'valid, Arena> Validator<'valid, Arena> for &'a mut CreateOnly<'valid, Arena> {
    open spec fn state(&self) -> AllocView {
        (**self)@
    }

    fn validate(&self, id: Id<Arena>) -> (r: Option<Valid<'valid, Id<Arena>>>) {
        if self.is_alive(id) {
            Some(Valid::new(id))
        } else {
            None
        }
    }
}

/// The identifiers that one call of `kill_multiple` killed, each once, with
/// the epochs between which they died.
#[derive(Debug)]
pub struct Killed<'v, Arena> {
    ids: Valid<'v, Vec<Id<Arena>>>,
    before: AllocGen<Arena>,
    after: AllocGen<Arena>,
}

impl<'v, Arena> Killed<'v, Arena> {
    /// The identifiers that died, in the order in which they died.
    pub closed spec fn ids(&self) -> Seq<Id<Arena>> {
        self.ids@@
    }

    /// The epoch before the first of them died.
    pub closed spec fn before(&self) -> u64 {
        self.before@
    }

    /// The epoch after the last of them died.
    pub closed spec fn after(&self) -> u64 {
        self.after@
    }

    /// Moves a snapshot over the kills of this batch. The snapshot has to
    /// stand at the epoch before them.
    pub fn update_gen(&self, gen: &mut ArenaGen<Arena>)
        requires
            old(gen)@ == self.before(),
        ensures
            final(gen)@ == self.after(),
    {
        gen.update(&self.before, &self.after);
    }

    /// The identifiers that died, in the order in which they died, to be
    /// taken one by one. Each is marked as alive for those who still have to
    /// take it out of their own tables.
    pub fn iter<'a>(&'a self) -> (r: ValidIter<'v, std::slice::Iter<'a, Id<Arena>>>)
        ensures
            r.inner().obeys_prophetic_iter_laws(),
            r.inner().remaining() == self.ids().as_ref(),
    {
        self.ids.iter()
    }
}

/// A counter that hands out ranges of indices, one after the other, for an
/// arena that only grows and keeps no slot table.
#[derive(Debug)]
pub struct RangeAllocator<Arena> {
    next: usize,
    arena: PhantomData<Arena>,
}

impl<Arena> View for RangeAllocator<Arena> {
    type V = nat;

    closed spec fn view(&self) -> nat {
        self.next as nat
    }
}

impl<Arena> Default for RangeAllocator<Arena> {
    /// A counter at zero.
    fn default() -> (r: Self)
        ensures
            r@ == 0,
    {
        RangeAllocator { next: 0, arena: PhantomData }
    }
}

impl<Arena> Clone for RangeAllocator<Arena> {
    fn clone(&self) -> (r: Self)
        ensures
            r@ == self@,
    {
        RangeAllocator { next: self.next, arena: PhantomData }
    }
}

impl<Arena: Fixed> RangeAllocator<Arena> {
    /// Hands out the next `len` indices.
    pub fn create(&mut self, len: usize) -> (range: IdRange<Arena>)
        requires
            old(self)@ + len <= usize::MAX,
        ensures
            final(self)@ == old(self)@ + len,
            range@ == (RangeView { start: old(self)@ as int, end: old(self)@ + len }),
    {
        let start = self.next;
        self.next += len;
        let end = self.next;
        IdRange::new(start, end)
    }
}

} // verus!
