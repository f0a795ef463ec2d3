//! The mathematical model of a slot allocator: a table of slots, the order
//! in which dead slots are reused, and the epoch that sums up every kill.

use crate::gen::next_gen;
use crate::id::{id_bits, IdView};
use vstd::prelude::*;

verus! {

/// One row of the slot table.
pub enum Slot {
    /// Occupied by the identifier of this generation.
    Alive { gen: u32 },
    /// Free. The next identifier made at this index gets `next_gen`.
    Dead { next_gen: u32 },
}

impl Slot {
    /// The generation stored in the slot, whatever its state.
    pub open spec fn stored_gen(self) -> u32 {
        match self {
            Slot::Alive { gen } => gen,
            Slot::Dead { next_gen } => next_gen,
        }
    }
}

/// The epoch after `id` was killed at epoch `epoch`: the old value moved one
/// bit to the left, then mixed with the bits of the identifier.
pub open spec fn advance_epoch(epoch: u64, id: IdView) -> u64 {
    (epoch << 1) ^ id_bits(id)
}

/// The epoch after the identifiers of `killed` died one after the other.
pub open spec fn fold_epoch(epoch: u64, killed: Seq<IdView>) -> u64
    decreases killed.len(),
{
    if killed.len() == 0 {
        epoch
    } else {
        advance_epoch(fold_epoch(epoch, killed.drop_last()), killed.last())
    }
}

/// The state of an allocator.
pub struct AllocView {
    /// The slot table; an identifier's index points into it.
    pub slots: Seq<Slot>,
    /// The indices of the dead slots, the one to be reused next first.
    pub free: Seq<u32>,
    /// The rolling summary of every kill so far.
    pub epoch: u64,
}

impl AllocView {
    /// The state of a new allocator.
    pub open spec fn empty() -> AllocView {
        AllocView { slots: Seq::empty(), free: Seq::empty(), epoch: 0 }
    }

    /// Every index below `u32::MAX` names at most one slot, no generation is
    /// zero, and the free list holds each dead slot exactly once and nothing
    /// else.
    pub open spec fn wf(self) -> bool {
        &&& self.slots.len() <= u32::MAX
        &&& forall|i: int|
            0 <= i < self.slots.len() ==> (#[trigger] self.slots[i]).stored_gen() != 0
        &&& self.free.no_duplicates()
        &&& forall|k: int|
            0 <= k < self.free.len() ==> (#[trigger] self.free[k]) < self.slots.len()
                && self.slots[self.free[k] as int] is Dead
        &&& forall|i: int|
            0 <= i < self.slots.len() && (#[trigger] self.slots[i]) is Dead ==> self.free.contains(
                i as u32,
            )
    }

    /// Whether `id` names the current occupant of its slot.
    pub open spec fn is_alive(self, id: IdView) -> bool {
        id.index < self.slots.len() && self.slots[id.index as int] == (Slot::Alive { gen: id.gen })
    }

    /// Whether a further identifier can be made: a dead slot waits for
    /// reuse, or the table can still grow.
    pub open spec fn can_create(self) -> bool {
        self.free.len() > 0 || self.slots.len() < u32::MAX
    }

    /// Making one identifier: the head of the free list is reused with the
    /// generation kept for it; with no dead slot, the table grows by a slot
    /// of generation 1.
    pub open spec fn create(self) -> (AllocView, IdView) {
        if self.free.len() > 0 {
            let index = self.free[0];
            let gen = self.slots[index as int].stored_gen();
            (
                AllocView {
                    slots: self.slots.update(index as int, Slot::Alive { gen }),
                    free: self.free.skip(1),
                    epoch: self.epoch,
                },
                IdView { index, gen },
            )
        } else {
            (
                AllocView {
                    slots: self.slots.push(Slot::Alive { gen: 1 }),
                    free: self.free,
                    epoch: self.epoch,
                },
                IdView { index: self.slots.len() as u32, gen: 1 },
            )
        }
    }

    /// Growing the table by `len` slots of generation 1.
    pub open spec fn grow(self, len: nat) -> AllocView {
        AllocView {
            slots: self.slots + Seq::new(len, |i: int| Slot::Alive { gen: 1 }),
            free: self.free,
            epoch: self.epoch,
        }
    }

    /// Killing `id`: where it is alive its slot dies and keeps the next
    /// generation, the slot becomes the head of the free list, and the epoch
    /// advances. Anything else changes nothing.
    pub open spec fn kill(self, id: IdView) -> AllocView {
        if self.is_alive(id) {
            AllocView {
                slots: self.slots.update(
                    id.index as int,
                    Slot::Dead { next_gen: next_gen(id.gen) },
                ),
                free: seq![id.index] + self.free,
                epoch: advance_epoch(self.epoch, id),
            }
        } else {
            self
        }
    }

    /// Killing each of `ids` in turn.
    pub open spec fn kill_all(self, ids: Seq<IdView>) -> AllocView
        decreases ids.len(),
    {
        if ids.len() == 0 {
            self
        } else {
            self.kill_all(ids.drop_last()).kill(ids.last())
        }
    }

    /// The identifiers among `ids` that die when each is killed in turn, in
    /// the order in which they die.
    pub open spec fn killed_of(self, ids: Seq<IdView>) -> Seq<IdView>
        decreases ids.len(),
    {
        if ids.len() == 0 {
            Seq::empty()
        } else {
            let before = self.killed_of(ids.drop_last());
            if self.kill_all(ids.drop_last()).is_alive(ids.last()) {
                before.push(ids.last())
            } else {
                before
            }
        }
    }

    /// Making `n` identifiers one after the other.
    pub open spec fn create_many(self, n: nat) -> (AllocView, Seq<IdView>)
        decreases n,
    {
        if n == 0 {
            (self, Seq::empty())
        } else {
            let (state, made) = self.create_many((n - 1) as nat);
            let (next, id) = state.create();
            (next, made.push(id))
        }
    }
}

/// The identifier of the first occupant of slot `index`.
pub open spec fn first_occupant(index: int) -> IdView {
    IdView { index: index as u32, gen: 1 }
}

/// The identifier that takes the place of `id` when its slot is reused.
pub open spec fn successor(id: IdView) -> IdView {
    IdView { index: id.index, gen: next_gen(id.gen) }
}

/// Whether every identifier of `ids` is alive in `state` and no two of them
/// share a slot.
pub open spec fn alive_and_distinct(state: AllocView, ids: Seq<IdView>) -> bool {
    &&& forall|i: int| 0 <= i < ids.len() ==> state.is_alive(#[trigger] ids[i])
    &&& forall|i: int, j: int|
        0 <= i < j < ids.len() ==> (#[trigger] ids[i]).index != (#[trigger] ids[j]).index
}

/// Two identifiers with the same bits are the same identifier.
pub proof fn id_bits_injective(a: IdView, b: IdView)
    requires
        id_bits(a) == id_bits(b),
    ensures
        a == b,
{
    let (ai, ag, bi, bg) = (a.index, a.gen, b.index, b.gen);
    assert(((ai as u64) << 32) | (ag as u64) == ((bi as u64) << 32) | (bg as u64) ==> ai == bi
        && ag == bg) by (bit_vector);
}

/// The bits of an identifier are zero only if its generation is.
pub proof fn id_bits_nonzero(id: IdView)
    requires
        id.gen != 0,
    ensures
        id_bits(id) != 0,
{
    let (i, g) = (id.index, id.gen);
    assert(g != 0 ==> ((i as u64) << 32) | (g as u64) != 0) by (bit_vector);
}

/// From one epoch, the kills of two different identifiers lead to two
/// different epochs.
pub proof fn advance_epoch_injective(epoch: u64, a: IdView, b: IdView)
    requires
        advance_epoch(epoch, a) == advance_epoch(epoch, b),
    ensures
        a == b,
{
    let (x, y) = (id_bits(a), id_bits(b));
    assert((epoch << 1) ^ x == (epoch << 1) ^ y ==> x == y) by (bit_vector);
    id_bits_injective(a, b);
}

/// A kill leaves the epoch where it was for exactly one pattern of bits:
/// the epoch mixed with itself moved one bit to the left. Every other
/// identifier moves the epoch.
pub proof fn kill_keeps_epoch_iff(epoch: u64, id: IdView)
    ensures
        advance_epoch(epoch, id) == epoch <==> id_bits(id) == epoch ^ (epoch << 1),
{
    let x = id_bits(id);
    assert(((epoch << 1) ^ x == epoch) <==> (x == epoch ^ (epoch << 1))) by (bit_vector);
}

/// The first kill of an allocator moves its epoch away from zero.
pub proof fn first_kill_marks_epoch(id: IdView)
    requires
        id.gen != 0,
    ensures
        advance_epoch(0, id) != 0,
{
    let x = id_bits(id);
    id_bits_nonzero(id);
    assert((0u64 << 1) ^ x == x) by (bit_vector);
}

impl AllocView {
    /// The state of a new allocator is well formed.
    pub proof fn empty_wf()
        ensures
            Self::empty().wf(),
    {
    }

    /// Making an identifier keeps the state well formed, the identifier made
    /// is alive, and its generation is not zero.
    pub proof fn create_wf(self)
        requires
            self.wf(),
            self.can_create(),
        ensures
            self.create().0.wf(),
            self.create().0.is_alive(self.create().1),
            self.create().1.gen != 0,
    {
        let (next, id) = self.create();
        if self.free.len() > 0 {
            let head = self.free[0];
            assert(self.slots[head as int] is Dead);
            assert forall|k: int| 0 <= k < next.free.len() implies (#[trigger] next.free[k])
                < next.slots.len() && next.slots[next.free[k] as int] is Dead by {
                assert(next.free[k] == self.free[k + 1]);
            }
            assert forall|i: int|
                0 <= i < next.slots.len() && (#[trigger] next.slots[i]) is Dead
                implies next.free.contains(i as u32) by {
                assert(self.slots[i] is Dead);
                let k = choose|k: int| 0 <= k < self.free.len() && self.free[k] == i as u32;
                assert(next.free[k - 1] == i as u32);
            }
        } else {
            assert forall|i: int|
                0 <= i < next.slots.len() && (#[trigger] next.slots[i]) is Dead
                implies next.free.contains(i as u32) by {
                assert(self.slots[i] is Dead);
            }
        }
    }

    /// Killing keeps the state well formed.
    pub proof fn kill_wf(self, id: IdView)
        requires
            self.wf(),
        ensures
            self.kill(id).wf(),
    {
        let next = self.kill(id);
        if self.is_alive(id) {
            assert forall|k: int| 0 <= k < self.free.len() implies self.free[k] != id.index by {
                assert(self.slots[self.free[k] as int] is Dead);
            }
            assert forall|k: int| 0 < k < next.free.len() implies next.free[k] == self.free[k
                - 1] by {}
            assert forall|i: int|
                0 <= i < next.slots.len() && (#[trigger] next.slots[i]) is Dead
                implies next.free.contains(i as u32) by {
                if i == id.index {
                    assert(next.free[0] == i as u32);
                } else {
                    assert(self.slots[i] is Dead);
                    let k = choose|k: int| 0 <= k < self.free.len() && self.free[k] == i as u32;
                    assert(next.free[k + 1] == i as u32);
                }
            }
        }
    }

    /// Growing keeps the state well formed, and every new slot is alive in
    /// generation 1.
    pub proof fn grow_wf(self, len: nat)
        requires
            self.wf(),
            self.slots.len() + len <= u32::MAX,
        ensures
            self.grow(len).wf(),
            forall|k: int|
                0 <= k < len ==> self.grow(len).is_alive(
                    #[trigger] first_occupant(self.slots.len() + k),
                ),
    {
        let next = self.grow(len);
        assert forall|i: int|
            0 <= i < next.slots.len() && (#[trigger] next.slots[i]) is Dead
            implies next.free.contains(i as u32) by {
            assert(self.slots[i] is Dead);
        }
    }

    /// Growing by `len` slots is making `len` identifiers while no slot is
    /// dead.
    pub proof fn create_many_grows(self, n: nat)
        requires
            self.free.len() == 0,
            self.slots.len() + n <= u32::MAX,
        ensures
            self.create_many(n).0 == self.grow(n),
            self.create_many(n).1.len() == n,
            forall|k: int|
                0 <= k < n ==> #[trigger] self.create_many(n).1[k] == first_occupant(
                    self.slots.len() + k,
                ),
        decreases n,
    {
        if n == 0 {
            assert(self.grow(0).slots =~= self.slots);
        } else {
            self.create_many_grows((n - 1) as nat);
            let (state, made) = self.create_many((n - 1) as nat);
            assert(state.create().0.slots =~= self.grow(n).slots);
        }
    }

    /// While no slot is dead, the identifiers that are made come with
    /// strictly ascending indices.
    pub proof fn fresh_indices_ascend(self, n: nat)
        requires
            self.free.len() == 0,
            self.slots.len() + n <= u32::MAX,
        ensures
            forall|i: int, j: int|
                0 <= i < j < n ==> self.create_many(n).1[i].index < self.create_many(n).1[j].index,
    {
        self.create_many_grows(n);
    }

    /// Making an identifier leaves every identifier alive that was alive,
    /// makes none alive but the one it returns, and leaves the epoch alone.
    pub proof fn create_keeps_alive(self, id: IdView)
        requires
            self.wf(),
            self.can_create(),
        ensures
            self.is_alive(id) ==> self.create().0.is_alive(id),
            self.create().0.is_alive(id) ==> self.is_alive(id) || id == self.create().1,
            self.create().0.epoch == self.epoch,
    {
        if self.free.len() > 0 {
            assert(self.slots[self.free[0] as int] is Dead);
        }
    }

    /// A killed identifier is dead, killing it once more changes nothing,
    /// and no other identifier is touched.
    pub proof fn killed_stays_dead(self, id: IdView, other: IdView)
        requires
            self.is_alive(id),
        ensures
            !self.kill(id).is_alive(id),
            self.kill(id).kill(id) == self.kill(id),
            other != id ==> (self.kill(id).is_alive(other) <==> self.is_alive(other)),
    {
    }

    /// An identifier that is not alive cannot be killed: the state stays as
    /// it is, the epoch with it.
    pub proof fn stale_kill_changes_nothing(self, id: IdView)
        requires
            !self.is_alive(id),
        ensures
            self.kill(id) == self,
    {
    }

    /// The slot of a killed identifier is the first to be reused, and its
    /// new occupant has the next generation: one more, or 1 after the
    /// largest. The free list is then as it was before the kill.
    pub proof fn recreate_bumps_generation(self, id: IdView)
        requires
            self.is_alive(id),
        ensures
            self.kill(id).create().1 == successor(id),
            successor(id).gen != 0,
            id.gen < u32::MAX ==> successor(id).gen == id.gen + 1,
            id.gen == u32::MAX ==> successor(id).gen == 1,
            self.kill(id).create().0.free == self.free,
            self.kill(id).create().0.slots == self.slots.update(
                id.index as int,
                Slot::Alive { gen: next_gen(id.gen) },
            ),
            self.kill(id).create().0.epoch == advance_epoch(self.epoch, id),
    {
        let killed = self.kill(id);
        assert(killed.free[0] == id.index);
        assert(killed.free.skip(1) =~= self.free);
        assert(killed.create().0.slots =~= self.slots.update(
            id.index as int,
            Slot::Alive { gen: next_gen(id.gen) },
        ));
    }

    /// Killing `ids` one after the other is killing the first, then the
    /// rest.
    pub proof fn kill_all_from_front(self, ids: Seq<IdView>)
        requires
            ids.len() > 0,
        ensures
            self.kill_all(ids) == self.kill(ids[0]).kill_all(ids.skip(1)),
        decreases ids.len(),
    {
        if ids.len() == 1 {
            assert(ids.drop_last() =~= Seq::<IdView>::empty());
            assert(ids.skip(1) =~= Seq::<IdView>::empty());
            assert(self.kill_all(ids.drop_last()) == self);
        } else {
            self.kill_all_from_front(ids.drop_last());
            assert(ids.drop_last().skip(1) =~= ids.skip(1).drop_last());
            assert(ids.drop_last()[0] == ids[0]);
            assert(ids.skip(1).last() == ids.last());
        }
    }

    /// The epoch after killing `ids` is the old one moved on by those that
    /// died, in the order of their death.
    pub proof fn kill_all_epoch(self, ids: Seq<IdView>)
        ensures
            self.kill_all(ids).epoch == fold_epoch(self.epoch, self.killed_of(ids)),
        decreases ids.len(),
    {
        if ids.len() > 0 {
            self.kill_all_epoch(ids.drop_last());
            let before = self.killed_of(ids.drop_last());
            if self.kill_all(ids.drop_last()).is_alive(ids.last()) {
                assert(before.push(ids.last()).drop_last() =~= before);
            }
        }
    }

    /// Killing `ids` makes nothing alive, and kills exactly those of `ids`
    /// that were alive.
    pub proof fn kill_all_alive(self, ids: Seq<IdView>, id: IdView)
        ensures
            self.kill_all(ids).is_alive(id) <==> self.is_alive(id) && !ids.contains(id),
        decreases ids.len(),
    {
        if ids.len() > 0 {
            let front = ids.drop_last();
            self.kill_all_alive(front, id);
            if ids.contains(id) {
                let i = choose|i: int| 0 <= i < ids.len() && ids[i] == id;
                if i < front.len() {
                    assert(front[i] == id);
                }
            }
            if front.contains(id) {
                let i = choose|i: int| 0 <= i < front.len() && front[i] == id;
                assert(ids[i] == id);
            }
            assert(ids[ids.len() - 1] == ids.last());
        }
    }

    /// Those that die are the identifiers of `ids` that were alive, each
    /// once.
    pub proof fn killed_of_is_the_living(self, ids: Seq<IdView>)
        ensures
            self.killed_of(ids).no_duplicates(),
            forall|id: IdView|
                self.killed_of(ids).contains(id) <==> ids.contains(id) && self.is_alive(id),
        decreases ids.len(),
    {
        let killed = self.killed_of(ids);
        if ids.len() > 0 {
            let front = ids.drop_last();
            let last = ids.last();
            let before = self.killed_of(front);
            self.killed_of_is_the_living(front);
            self.kill_all_alive(front, last);
            assert forall|id: IdView|
                killed.contains(id) <==> ids.contains(id) && self.is_alive(id) by {
                if front.contains(id) {
                    let i = choose|i: int| 0 <= i < front.len() && front[i] == id;
                    assert(ids[i] == id);
                }
                if ids.contains(id) {
                    let i = choose|i: int| 0 <= i < ids.len() && ids[i] == id;
                    if i < front.len() {
                        assert(front[i] == id);
                    }
                }
                assert(ids[ids.len() - 1] == last);
                if before.contains(id) {
                    let i = choose|i: int| 0 <= i < before.len() && before[i] == id;
                    if killed.len() > before.len() {
                        assert(killed[i] == id);
                    }
                }
                if killed.contains(id) {
                    let i = choose|i: int| 0 <= i < killed.len() && killed[i] == id;
                    if i < before.len() {
                        assert(before[i] == id);
                    }
                }
                if killed.len() > before.len() {
                    assert(killed[killed.len() - 1] == last);
                }
            }
        }
    }

    /// An identifier that stands twice in a batch dies once.
    pub proof fn duplicate_dies_once(self, id: IdView)
        requires
            self.is_alive(id),
        ensures
            self.killed_of(seq![id, id]) == seq![id],
            self.kill_all(seq![id, id]) == self.kill(id),
    {
        let ids = seq![id, id];
        assert(ids.drop_last() =~= seq![id]);
        assert(seq![id].drop_last() =~= Seq::<IdView>::empty());
        assert(self.kill_all(Seq::<IdView>::empty()) == self);
        assert(self.killed_of(Seq::<IdView>::empty()) =~= Seq::<IdView>::empty());
        assert(self.kill_all(seq![id]) == self.kill(id));
        assert(self.killed_of(seq![id]) =~= seq![id]);
    }

    /// Making `n + 1` identifiers is making one, then `n`.
    pub proof fn create_many_from_front(self, n: nat)
        ensures
            self.create_many(n + 1) == (
                self.create().0.create_many(n).0,
                seq![self.create().1] + self.create().0.create_many(n).1,
            ),
        decreases n,
    {
        if n == 0 {
            assert(self.create_many(0).1 =~= Seq::<IdView>::empty());
            assert(self.create_many(1).1 =~= seq![self.create().1]);
            assert(seq![self.create().1] + self.create().0.create_many(0).1 =~= seq![
                self.create().1,
            ]);
        } else {
            self.create_many_from_front((n - 1) as nat);
            let (state, made) = self.create_many(n);
            let rest = self.create().0.create_many((n - 1) as nat);
            assert(made == seq![self.create().1] + rest.1);
            let (next, id) = state.create();
            assert(made.push(id) =~= seq![self.create().1] + rest.1.push(id));
        }
    }

    /// The free list works last in, first out. After the identifiers of
    /// `ids` were killed in order, as many new identifiers come on their
    /// slots in the opposite order, each in the generation after the one
    /// that died there, and the free list is then as it was before.
    pub proof fn reuse_is_lifo(self, ids: Seq<IdView>)
        requires
            alive_and_distinct(self, ids),
        ensures
            self.kill_all(ids).create_many(ids.len()).1 == ids.reverse().map_values(
                |id: IdView| successor(id),
            ),
            self.kill_all(ids).create_many(ids.len()).0.free == self.free,
            self.kill_all(ids).create_many(ids.len()).0.slots.len() == self.slots.len(),
            forall|i: int|
                0 <= i < self.slots.len() && (forall|k: int|
                    0 <= k < ids.len() ==> (#[trigger] ids[k]).index != i)
                    ==> #[trigger] self.kill_all(ids).create_many(ids.len()).0.slots[i]
                    == self.slots[i],
        decreases ids.len(),
    {
        let n = ids.len();
        let bumped = ids.reverse().map_values(|id: IdView| successor(id));
        if n == 0 {
            assert(self.kill_all(ids).create_many(0).1 =~= bumped);
        } else {
            let first = ids[0];
            let rest = ids.skip(1);
            let killed = self.kill(first);
            self.kill_all_from_front(ids);
            assert forall|i: int| 0 <= i < rest.len() implies killed.is_alive(
                #[trigger] rest[i],
            ) by {
                assert(rest[i] == ids[i + 1]);
                assert(self.is_alive(ids[i + 1]));
            }
            assert forall|i: int, j: int| 0 <= i < j < rest.len() implies (#[trigger] rest[i]).index
                != (#[trigger] rest[j]).index by {
                assert(rest[i] == ids[i + 1] && rest[j] == ids[j + 1]);
            }
            killed.reuse_is_lifo(rest);
            let m = (n - 1) as nat;
            let (state, made) = killed.kill_all(rest).create_many(m);
            assert(self.kill_all(ids).create_many(n) == (
                state.create().0,
                made.push(state.create().1),
            ));
            assert(state.free == killed.free);
            assert(state.free[0] == first.index);
            assert(forall|k: int| 0 <= k < rest.len() ==> (#[trigger] rest[k]).index != first.index)
                by {
                assert forall|k: int| 0 <= k < rest.len() implies (#[trigger] rest[k]).index
                    != first.index by {
                    assert(rest[k] == ids[k + 1]);
                }
            }
            assert(state.slots[first.index as int] == killed.slots[first.index as int]);
            assert(state.create().1 == successor(first));
            assert(state.free.skip(1) =~= self.free);
            let rest_bumped = rest.reverse().map_values(|id: IdView| successor(id));
            assert(made == rest_bumped);
            assert(made.push(successor(first)) =~= bumped) by {
                assert(made.push(successor(first)).len() == bumped.len());
                assert forall|i: int| 0 <= i < bumped.len() implies made.push(successor(first))[i]
                    == bumped[i] by {
                    if i < m {
                        assert(rest.reverse()[i] == rest[m - 1 - i]);
                        assert(ids.reverse()[i] == ids[n - 1 - i]);
                        assert(rest[m - 1 - i] == ids[m - i]);
                    } else {
                        assert(ids.reverse()[i] == ids[0]);
                    }
                }
            }
            let end = state.create().0;
            assert forall|i: int|
                0 <= i < self.slots.len() && (forall|k: int|
                    0 <= k < ids.len() ==> (#[trigger] ids[k]).index != i)
                implies #[trigger] end.slots[i] == self.slots[i] by {
                assert(ids[0].index != i);
                assert forall|k: int| 0 <= k < rest.len() implies (#[trigger] rest[k]).index
                    != i by {
                    assert(rest[k] == ids[k + 1]);
                }
                assert(state.slots[i] == killed.slots[i]);
            }
        }
    }
}

} // verus!
