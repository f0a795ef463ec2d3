//! The two flavours of arena, and what counts as an identifier that is known
//! to be alive.

use crate::id::{Id, IdView};
use crate::model::AllocView;
use crate::range::{IdRange, RangeView};
use crate::valid::Valid;
use vstd::prelude::*;

verus! {

/// Marks an arena that only grows: its identifiers are never killed, so
/// each of them is alive for as long as the arena exists.
pub trait Fixed {

}

/// Marks an arena whose identifiers can be killed and whose slots are
/// reused.
pub trait Dynamic {

}

/// A value that stands for an identifier which is known to be alive: a
/// checked identifier, or any identifier of an arena that never kills.
pub trait ValidId: Copy {
    /// The arena of the identifier.
    type Arena;

    /// The identifier that this value stands for.
    spec fn id_view(&self) -> IdView;

    /// The slot that the identifier points at.
    fn index(&self) -> (r: usize)
        ensures
            r == self.id_view().index,
    ;

    /// The identifier itself.
    fn id(&self) -> (r: Id<Self::Arena>)
        ensures
            r@ == self.id_view(),
    ;

    /// The identifier, marked as alive.
    fn valid<'valid>(&self) -> (r: Valid<'valid, Id<Self::Arena>>) where Self: 'valid
        ensures
            r@@ == self.id_view(),
    {
        Valid::new(self.id())
    }
}

/// A view of an allocator that can check identifiers, and during which
/// nothing is killed: what it finds alive stays alive for `'valid`.
pub trait Validator<'valid, Arena> {
    /// The state of the allocator behind the view.
    spec fn state(&self) -> AllocView;

    /// The mark on `id`, if `id` is alive.
    fn validate(&self, id: Id<Arena>) -> (r: Option<Valid<'valid, Id<Arena>>>)
        ensures
            r is Some <==> self.state().is_alive(id@),
            r matches Some(valid) ==> valid@ == id,
    ;
}

/// A value that stands for a range whose members are known to be alive.
pub trait ValidRange: Copy {
    /// The arena of the range.
    type Arena;

    /// The range that this value stands for.
    spec fn range_view(&self) -> RangeView;

    /// The range itself.
    fn range(&self) -> (r: IdRange<Self::Arena>)
        ensures
            r@ == self.range_view(),
    ;
}

/// A value that may stand for an identifier which is known to be alive, or
/// for none.
pub trait MaybeValidId {
    /// The arena of the identifier.
    type Arena;

    /// What stands for the identifier where there is one.
    type Output: ValidId<Arena = Self::Arena>;

    /// The identifier that this value stands for, if any.
    spec fn maybe_id_view(&self) -> Option<IdView>;

    /// What stands for the identifier, if there is one.
    fn try_valid(&self) -> (r: Option<Self::Output>)
        ensures
            r is Some <==> self.maybe_id_view() is Some,
            r matches Some(v) ==> self.maybe_id_view() == Some(v.id_view()),
    ;
}

impl<V: ValidId> MaybeValidId for Option<V> {
    type Arena = V::Arena;

    type Output = V;

    open spec fn maybe_id_view(&self) -> Option<IdView> {
        match *self {
            Some(v) => Some(v.id_view()),
            None => None,
        }
    }

    fn try_valid(&self) -> (r: Option<V>) {
        *self
    }
}

impl<V: ValidId> MaybeValidId for &Option<V> {
    type Arena = V::Arena;

    type Output = V;

    open spec fn maybe_id_view(&self) -> Option<IdView> {
        match **self {
            Some(v) => Some(v.id_view()),
            None => None,
        }
    }

    fn try_valid(&self) -> (r: Option<V>) {
        **self
    }
}

impl<V: ValidId> MaybeValidId for V {
    type Arena = V::Arena;

    type Output = V;

    open spec fn maybe_id_view(&self) -> Option<IdView> {
        Some(self.id_view())
    }

    fn try_valid(&self) -> (r: Option<V>) {
        Some(*self)
    }
}

impl<'valid, Arena> MaybeValidId for Valid<'valid, Option<Id<Arena>>> {
    type Arena = Arena;

    type Output = Valid<'valid, Id<Arena>>;

    open spec fn maybe_id_view(&self) -> Option<IdView> {
        match self@ {
            Some(id) => Some(id@),
            None => None,
        }
    }

    fn try_valid(&self) -> (r: Option<Valid<'valid, Id<Arena>>>) {
        match *self.get() {
            Some(id) => Some(Valid::new(id)),
            None => None,
        }
    }
}

impl<'a, 'valid, Arena> MaybeValidId for Valid<'valid, &'a Option<Id<Arena>>> {
    type Arena = Arena;

    type Output = Valid<'valid, &'a Id<Arena>>;

    open spec fn maybe_id_view(&self) -> Option<IdView> {
        match *self@ {
            Some(id) => Some(id@),
            None => None,
        }
    }

    fn try_valid(&self) -> (r: Option<Valid<'valid, &'a Id<Arena>>>) {
        match *self.get() {
            Some(id) => Some(Valid::new(id)),
            None => None,
        }
    }
}

impl<'valid, Arena> MaybeValidId for &Valid<'valid, Option<Id<Arena>>> {
    type Arena = Arena;

    type Output = Valid<'valid, Id<Arena>>;

    open spec fn maybe_id_view(&self) -> Option<IdView> {
        match (**self)@ {
            Some(id) => Some(id@),
            None => None,
        }
    }

    fn try_valid(&self) -> (r: Option<Valid<'valid, Id<Arena>>>) {
        match *(*self).get() {
            Some(id) => Some(Valid::new(id)),
            None => None,
        }
    }
}

impl<'a, 'valid, Arena> MaybeValidId for &Valid<'valid, &'a Option<Id<Arena>>> {
    type Arena = Arena;

    type Output = Valid<'valid, &'a Id<Arena>>;

    open spec fn maybe_id_view(&self) -> Option<IdView> {
        match *(**self)@ {
            Some(id) => Some(id@),
            None => None,
        }
    }

    fn try_valid(&self) -> (r: Option<Valid<'valid, &'a Id<Arena>>>) {
        match *(*self).get() {
            Some(id) => Some(Valid::new(id)),
            None => None,
        }
    }
}

} // verus!
