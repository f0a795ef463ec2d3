//! Runs of consecutive indices for arenas that only grow. Every member of a
//! range is an identifier of generation 1.

use crate::id::{Id, IdView, UntypedId};
use crate::traits::{Fixed, ValidId, ValidRange};
use std::marker::PhantomData;
use std::ops::Range;
use vstd::prelude::*;
use vstd::std_specs::cmp::PartialEqSpecImpl;
use vstd::std_specs::convert::FromSpec;
use vstd::std_specs::convert::FromSpecImpl;

verus! {

/// A range as plain numbers: the indices from `start` up to, not
/// including, `end`.
pub struct RangeView {
    pub start: int,
    pub end: int,
}

impl RangeView {
    /// How many indices the range holds.
    pub open spec fn len(self) -> int {
        self.end - self.start
    }

    /// Whether `index` lies in the range.
    pub open spec fn contains(self, index: int) -> bool {
        self.start <= index < self.end
    }

    /// Whether `index` can be taken into the range: it lies directly at one
    /// of its two ends, or the range is the empty range at zero.
    pub open spec fn accepts(self, index: int) -> bool {
        index == self.end || index + 1 == self.start || (self.start == 0 && self.end == 0)
    }

    /// The range after `index` was taken in: grown by one at the end that
    /// `index` touches, or started anew at `index`.
    pub open spec fn extend(self, index: int) -> RangeView {
        if index == self.end {
            RangeView { start: self.start, end: self.end + 1 }
        } else if index + 1 == self.start {
            RangeView { start: self.start - 1, end: self.end }
        } else {
            RangeView { start: index, end: index + 1 }
        }
    }

    /// Where `index` stands in the range, counted from its start.
    pub open spec fn position(self, index: int) -> Option<int> {
        if self.contains(index) {
            Some(index - self.start)
        } else {
            None
        }
    }

    /// The identifier of the member at `offset`: its index, reduced to 32
    /// bits, in generation 1.
    pub open spec fn member(self, offset: int) -> IdView {
        IdView { index: ((self.start + offset) % 0x1_0000_0000) as u32, gen: 1 }
    }
}

/// A range of indices of no particular arena.
#[derive(Debug, Clone, Copy, PartialEq, Eq, Hash, Structural)]
pub struct UntypedIdRange {
    pub(crate) start: usize,
    pub(crate) end: usize,
}

impl View for UntypedIdRange {
    type V = RangeView;

    closed spec fn view(&self) -> RangeView {
        RangeView { start: self.start as int, end: self.end as int }
    }
}

impl Default for UntypedIdRange {
    /// The empty range at zero.
    fn default() -> (r: Self)
        ensures
            r@ == (RangeView { start: 0, end: 0 }),
    {
        UntypedIdRange { start: 0, end: 0 }
    }
}

impl UntypedIdRange {
    /// The range from `start` up to `end`.
    pub fn new(start: usize, end: usize) -> (r: Self)
        ensures
            r@ == (RangeView { start: start as int, end: end as int }),
    {
        Self { start, end }
    }

    /// Two ranges with the same bounds are the same.
    pub proof fn view_injective(a: Self, b: Self)
        requires
            a@ == b@,
        ensures
            a == b,
    {
    }

    /// How many indices the range holds.
    pub fn len(self) -> (r: usize)
        requires
            self@.start <= self@.end,
        ensures
            r == self@.len(),
    {
        self.end - self.start
    }

    /// The same range as a range of `usize`.
    pub fn range(self) -> (r: Range<usize>)
        ensures
            r.start == self@.start,
            r.end == self@.end,
    {
        Range { start: self.start, end: self.end }
    }

    /// Takes the index of `id` into the range. It has to lie directly at one
    /// of the two ends, unless the range is the empty range at zero, which
    /// becomes the range of that index alone.
    pub fn extend(&mut self, id: UntypedId)
        requires
            id@.gen == 1,
            old(self)@.accepts(id@.index as int),
            id@.index < usize::MAX,
        ensures
            final(self)@ == old(self)@.extend(id@.index as int),
    {
        let index = id.index();

        if self.end == index {
            self.end += 1;
        } else if self.start == index + 1 {
            self.start -= 1;
        } else if *self == UntypedIdRange::default() {
            *self = UntypedIdRange::from(id)
        } else {
            unreached()
        }
    }

    /// Where `id` stands in the range, counted from its start; nothing for
    /// an index outside the range.
    pub fn position(self, id: UntypedId) -> (r: Option<usize>)
        ensures
            r is Some <==> self@.contains(id@.index as int),
            r matches Some(offset) ==> self@.position(id@.index as int) == Some(offset as int),
    {
        let index = id.index();
        if index < self.end {
            index.checked_sub(self.start)
        } else {
            None
        }
    }

    /// The members in ascending order, to be taken one by one.
    pub fn into_iter(self) -> (r: UntypedIter)
        ensures
            r@ == self@,
    {
        UntypedIter { range: self.start..self.end }
    }
}

impl From<UntypedId> for UntypedIdRange {
    /// The range that holds the index of `id` and nothing else.
    fn from(id: UntypedId) -> (r: Self) {
        let start = id.index();
        let end = start.wrapping_add(1);

        UntypedIdRange { start, end }
    }
}

impl FromSpecImpl<UntypedId> for UntypedIdRange {
    open spec fn obeys_from_spec() -> bool {
        true
    }

    open spec fn from_spec(id: UntypedId) -> Self {
        UntypedIdRange::single(id@.index)
    }
}

impl UntypedIdRange {
    /// The range of `index` alone. Were `index` the largest `usize`, its end
    /// would wrap around to zero.
    pub closed spec fn single(index: u32) -> Self {
        UntypedIdRange {
            start: index as usize,
            end: if index < usize::MAX {
                (index + 1) as usize
            } else {
                0
            },
        }
    }

    /// The bounds of the range of one index.
    pub proof fn single_bounds(index: u32)
        ensures
            Self::single(index)@.start == index,
            index < usize::MAX ==> Self::single(index)@.end == index + 1,
            index == usize::MAX ==> Self::single(index)@.end == 0,
    {
    }
}

/// The members of an untyped range that are still to come.
#[derive(Debug)]
pub struct UntypedIter {
    range: Range<usize>,
}

impl Clone for UntypedIter {
    fn clone(&self) -> (r: Self)
        ensures
            r@ == self@,
    {
        UntypedIter { range: self.range.start..self.range.end }
    }
}

impl View for UntypedIter {
    type V = RangeView;

    closed spec fn view(&self) -> RangeView {
        RangeView { start: self.range.start as int, end: self.range.end as int }
    }
}

impl UntypedIter {
    /// The next member, if one is left.
    pub fn next(&mut self) -> (r: Option<UntypedId>)
        ensures
            r is Some <==> old(self)@.start < old(self)@.end,
            r matches Some(id) ==> id@ == old(self)@.member(0) && final(self)@ == (RangeView {
                start: old(self)@.start + 1,
                end: old(self)@.end,
            }),
            r is None ==> final(self)@ == old(self)@,
    {
        if self.range.start < self.range.end {
            let index = self.range.start;
            self.range.start = index + 1;
            Some(UntypedId::first(index))
        } else {
            None
        }
    }
}

/// A range of indices of the arena `Arena`.
#[derive(Debug, Hash)]
pub struct IdRange<Arena> {
    pub(crate) range: UntypedIdRange,
    arena: PhantomData<Arena>,
}

impl<Arena> View for IdRange<Arena> {
    type V = RangeView;

    closed spec fn view(&self) -> RangeView {
        self.range@
    }
}

impl<Arena> Default for IdRange<Arena> {
    /// The empty range at zero.
    fn default() -> (r: Self)
        ensures
            r@ == (RangeView { start: 0, end: 0 }),
    {
        IdRange { range: UntypedIdRange::default(), arena: PhantomData }
    }
}

impl<Arena> Clone for IdRange<Arena> {
    fn clone(&self) -> (r: Self)
        ensures
            r == *self,
    {
        *self
    }
}

impl<Arena> Copy for IdRange<Arena> {

}

impl<Arena> PartialEq for IdRange<Arena> {
    fn eq(&self, other: &Self) -> (r: bool) {
        self.range == other.range
    }
}

impl<Arena> Eq for IdRange<Arena> {

}

impl<Arena> PartialEqSpecImpl for IdRange<Arena> {
    open spec fn obeys_eq_spec() -> bool {
        true
    }

    open spec fn eq_spec(&self, other: &Self) -> bool {
        self@ == other@
    }
}

impl<Arena: Fixed> From<UntypedIdRange> for IdRange<Arena> {
    /// The same range, tied to the arena.
    fn from(range: UntypedIdRange) -> (r: Self) {
        Self { range, arena: PhantomData }
    }
}

impl<Arena: Fixed> FromSpecImpl<UntypedIdRange> for IdRange<Arena> {
    open spec fn obeys_from_spec() -> bool {
        true
    }

    closed spec fn from_spec(range: UntypedIdRange) -> Self {
        IdRange { range, arena: PhantomData }
    }
}

impl<Arena: Fixed> From<Id<Arena>> for IdRange<Arena> {
    /// The range that holds the index of `id` and nothing else.
    fn from(id: Id<Arena>) -> (r: Self) {
        UntypedIdRange::from(id.untyped()).into()
    }
}

impl<Arena: Fixed> FromSpecImpl<Id<Arena>> for IdRange<Arena> {
    open spec fn obeys_from_spec() -> bool {
        true
    }

    closed spec fn from_spec(id: Id<Arena>) -> Self {
        IdRange { range: UntypedIdRange::single(id@.index), arena: PhantomData }
    }
}

impl<Arena: Fixed> IdRange<Arena> {
    /// The view of a range made from an untyped one.
    pub proof fn from_range_view(range: UntypedIdRange)
        ensures
            <Self as FromSpec<UntypedIdRange>>::from_spec(range)@ == range@,
    {
    }

    /// The view of the range made from one identifier.
    pub proof fn from_id_view(id: Id<Arena>)
        ensures
            <Self as FromSpec<Id<Arena>>>::from_spec(id)@ == UntypedIdRange::single(
                id@.index,
            )@,
    {
    }

    /// The range from `start` up to `end`.
    pub fn new(start: usize, end: usize) -> (r: Self)
        ensures
            r@ == (RangeView { start: start as int, end: end as int }),
    {
        Self::from(UntypedIdRange::new(start, end))
    }

    /// How many indices the range holds.
    pub fn len(self) -> (r: usize)
        requires
            self@.start <= self@.end,
        ensures
            r == self@.len(),
    {
        self.range.len()
    }

    /// The same range without its arena.
    pub fn range(self) -> (r: UntypedIdRange)
        ensures
            r@ == self@,
    {
        self.range
    }

    /// Takes the index of `id` into the range. It has to lie directly at one
    /// of the two ends, unless the range is the empty range at zero, which
    /// becomes the range of that index alone.
    pub fn extend<V: ValidId<Arena = Arena>>(&mut self, id: V)
        requires
            id.id_view().gen == 1,
            old(self)@.accepts(id.id_view().index as int),
            id.id_view().index < usize::MAX,
        ensures
            final(self)@ == old(self)@.extend(id.id_view().index as int),
    {
        self.range.extend(id.id().untyped())
    }

    /// Where `id` stands in the range, counted from its start; nothing for
    /// an index outside the range.
    pub fn position(self, id: Id<Arena>) -> (r: Option<usize>)
        ensures
            r is Some <==> self@.contains(id@.index as int),
            r matches Some(offset) ==> self@.position(id@.index as int) == Some(offset as int),
    {
        self.range.position(id.untyped())
    }
}

impl<Arena> IdRange<Arena> {
    /// The members in ascending order, to be taken one by one.
    pub fn into_iter(self) -> (r: Iter<Arena>)
        ensures
            r@ == self@,
    {
        Iter { iter: self.range.into_iter(), arena: PhantomData }
    }
}

impl<Arena: Fixed> ValidRange for IdRange<Arena> {
    type Arena = Arena;

    open spec fn range_view(&self) -> RangeView {
        self@
    }

    fn range(&self) -> (r: IdRange<Arena>) {
        *self
    }
}

impl<Arena: Fixed> ValidRange for &IdRange<Arena> {
    type Arena = Arena;

    open spec fn range_view(&self) -> RangeView {
        (**self)@
    }

    fn range(&self) -> (r: IdRange<Arena>) {
        **self
    }
}

/// The members of a range that are still to come.
#[derive(Debug)]
pub struct Iter<Arena> {
    iter: UntypedIter,
    arena: PhantomData<Arena>,
}

impl<Arena> View for Iter<Arena> {
    type V = RangeView;

    closed spec fn view(&self) -> RangeView {
        self.iter@
    }
}

impl<Arena> Clone for Iter<Arena> {
    fn clone(&self) -> (r: Self)
        ensures
            r@ == self@,
    {
        Iter { iter: self.iter.clone(), arena: PhantomData }
    }
}

impl<Arena> Iter<Arena> {
    /// The next member, if one is left.
    pub fn next(&mut self) -> (r: Option<Id<Arena>>)
        ensures
            r is Some <==> old(self)@.start < old(self)@.end,
            r matches Some(id) ==> id@ == old(self)@.member(0) && final(self)@ == (RangeView {
                start: old(self)@.start + 1,
                end: old(self)@.end,
            }),
            r is None ==> final(self)@ == old(self)@,
    {
        match self.iter.next() {
            Some(id) => Some(Id::new(id)),
            None => None,
        }
    }
}

} // verus!
