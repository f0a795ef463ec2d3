//! The mark of a value that was checked to be alive.

use crate::id::{Id, IdView};
use crate::range::{IdRange, RangeView};
use crate::traits::{ValidId, ValidRange};
use std::marker::PhantomData;
use std::ops::Index;
use vstd::prelude::*;
use vstd::std_specs::convert::FromSpec;
use vstd::std_specs::iter::IteratorSpec;

verus! {

/// A value that is known to be alive for as long as `'valid` lasts. Only a
/// check against an allocator, or an arena that never kills, makes one.
#[derive(Debug)]
pub struct Valid<'valid, T> {
    pub value: T,
    valid: PhantomData<&'valid ()>,
}

impl<'valid, T: Clone> Clone for Valid<'valid, T> {
    fn clone(&self) -> (r: Self)
        ensures
            cloned(self@, r@),
    {
        Valid { value: self.value.clone(), valid: PhantomData }
    }
}

impl<'valid, T: Copy> Copy for Valid<'valid, T> {

}

impl<'valid, T> View for Valid<'valid, T> {
    type V = T;

    closed spec fn view(&self) -> T {
        self.value
    }
}

impl<'valid, T> Valid<'valid, T> {
    pub(crate) fn new(value: T) -> (r: Self)
        ensures
            r@ == value,
    {
        Valid { value, valid: PhantomData }
    }

    /// Takes the caller's word that `value` is alive.
    pub fn assert_valid(value: T) -> (r: Self)
        ensures
            r@ == value,
    {
        Valid::new(value)
    }

    /// The value that is marked.
    pub fn get(&self) -> (r: &T)
        ensures
            *r == self@,
    {
        &self.value
    }

    /// The value without the mark.
    pub fn into_inner(self) -> (r: T)
        ensures
            r == self@,
    {
        self.value
    }

    /// Converts the value and keeps the mark.
    pub fn from<U>(valid: Valid<'valid, U>) -> (r: Self) where T: From<U>
        ensures
            <T as FromSpec<U>>::obeys_from_spec() ==> r@ == <T as FromSpec<U>>::from_spec(valid@),
    {
        Valid::new(T::from(valid.value))
    }

    /// Applies `f` to the value and keeps the mark.
    pub fn map<F: FnOnce(T) -> U, U>(self, f: F) -> (r: Valid<'valid, U>)
        requires
            f.requires((self@,)),
        ensures
            f.ensures((self@,), r@),
    {
        Valid::new(f(self.value))
    }
}

impl<'valid, T> Valid<'valid, T> {
    /// The item of the value that the identifier `index` names, with the
    /// mark. The identifier is known to be alive, so no check is made.
    pub fn index<'a, I: ValidId>(&'a self, index: I) -> (r: Valid<'valid, &'a T::Output>) where
        T: Index<I>,
        T::Output: Sized,

        requires
            call_requires(<T as Index<I>>::index, (&self@, index)),
        ensures
            call_ensures(<T as Index<I>>::index, (&self@, index), r@),
    {
        Valid::new(self.value.index(index))
    }
}

impl<'valid, 'a, T> Valid<'valid, &'a T> {
    /// Takes the caller's word that what `value` refers to is alive.
    pub fn assert_ref(value: &'a T) -> (r: Self)
        ensures
            r@ == value,
    {
        Valid::new(value)
    }
}

impl<'valid, 'a, T> Valid<'valid, &'a mut T> {
    /// Takes the caller's word that what `value` refers to is alive.
    pub fn assert_mut(value: &'a mut T) -> (r: Self)
        ensures
            *r@ == *old(value),
            *final(value) == *final(r@),
    {
        Valid::new(value)
    }
}

impl<'valid, T: Copy> Valid<'valid, &T> {
    /// The mark on a copy of the value that is referred to.
    pub fn copied(&self) -> (r: Valid<'valid, T>)
        ensures
            r@ == *self@,
    {
        Valid::new(*self.value)
    }
}

impl<'valid, Arena> ValidId for Valid<'valid, Id<Arena>> {
    type Arena = Arena;

    open spec fn id_view(&self) -> IdView {
        self@@
    }

    fn index(&self) -> (r: usize) {
        self.value.index()
    }

    fn id(&self) -> (r: Id<Arena>) {
        self.value
    }
}

impl<'valid, Arena> ValidId for Valid<'valid, &Id<Arena>> {
    type Arena = Arena;

    open spec fn id_view(&self) -> IdView {
        (*self@)@
    }

    fn index(&self) -> (r: usize) {
        self.value.index()
    }

    fn id(&self) -> (r: Id<Arena>) {
        *self.value
    }
}

impl<'valid, Arena> ValidId for &Valid<'valid, Id<Arena>> {
    type Arena = Arena;

    open spec fn id_view(&self) -> IdView {
        (**self)@@
    }

    fn index(&self) -> (r: usize) {
        self.value.index()
    }

    fn id(&self) -> (r: Id<Arena>) {
        self.value
    }
}

impl<'valid, Arena> ValidId for &Valid<'valid, &Id<Arena>> {
    type Arena = Arena;

    open spec fn id_view(&self) -> IdView {
        (*(**self)@)@
    }

    fn index(&self) -> (r: usize) {
        self.value.index()
    }

    fn id(&self) -> (r: Id<Arena>) {
        *self.value
    }
}

impl<'valid, T> Valid<'valid, Vec<T>> {
    /// The items of the vector, to be taken one by one, each with the mark.
    pub fn into_iter(self) -> (r: ValidIter<'valid, std::vec::IntoIter<T>>)
        ensures
            r.inner().obeys_prophetic_iter_laws(),
            r.inner().remaining() == self@@,
    {
        broadcast use vstd::std_specs::vec::axiom_spec_into_iter;

        ValidIter::new(self.value.into_iter())
    }

    /// The items of the vector by reference, to be taken one by one, each
    /// with the mark.
    pub fn iter<'a>(&'a self) -> (r: ValidIter<'valid, std::slice::Iter<'a, T>>)
        ensures
            r.inner().obeys_prophetic_iter_laws(),
            r.inner().remaining() == self@@.as_ref(),
    {
        broadcast use vstd::std_specs::vec::axiom_spec_into_iter_borrowed;

        ValidIter::new((&self.value).into_iter())
    }
}

/// Hands out the items of another iterator, each marked as alive.
#[derive(Debug)]
pub struct ValidIter<'valid, Iter> {
    iter: Iter,
    valid: PhantomData<&'valid ()>,
}

impl<'valid, Iter> ValidIter<'valid, Iter> {
    /// The iterator whose items are handed out.
    pub closed spec fn inner(&self) -> Iter {
        self.iter
    }

    /// Takes the caller's word that every item of `iter` is alive.
    pub fn new(iter: Iter) -> (r: Self)
        ensures
            r.inner() == iter,
    {
        ValidIter { iter, valid: PhantomData }
    }
}

impl<'valid, Iter: Iterator> ValidIter<'valid, Iter> {
    /// The next item of the inner iterator, with the mark.
    pub fn next(&mut self) -> (r: Option<Valid<'valid, Iter::Item>>)
        ensures
            final(self).inner().obeys_prophetic_iter_laws() == old(
                self,
            ).inner().obeys_prophetic_iter_laws(),
            final(self).inner().obeys_prophetic_iter_laws() ==> if old(
                self,
            ).inner().remaining().len() > 0 {
                &&& final(self).inner().remaining() == old(self).inner().remaining().drop_first()
                &&& r is Some
                &&& r->0@ == old(self).inner().remaining()[0]
            } else {
                &&& final(self).inner().remaining() == old(self).inner().remaining()
                &&& r is None
            },
    {
        match self.iter.next() {
            Some(item) => Some(Valid::new(item)),
            None => None,
        }
    }
}

impl<'valid, Arena> ValidRange for Valid<'valid, IdRange<Arena>> {
    type Arena = Arena;

    open spec fn range_view(&self) -> RangeView {
        self@@
    }

    fn range(&self) -> (r: IdRange<Arena>) {
        self.value
    }
}

impl<'valid, Arena> ValidRange for Valid<'valid, &IdRange<Arena>> {
    type Arena = Arena;

    open spec fn range_view(&self) -> RangeView {
        (*self@)@
    }

    fn range(&self) -> (r: IdRange<Arena>) {
        *self.value
    }
}

impl<'valid, Arena> ValidRange for &Valid<'valid, IdRange<Arena>> {
    type Arena = Arena;

    open spec fn range_view(&self) -> RangeView {
        (**self)@@
    }

    fn range(&self) -> (r: IdRange<Arena>) {
        self.value
    }
}

impl<'valid, Arena> ValidRange for &Valid<'valid, &IdRange<Arena>> {
    type Arena = Arena;

    open spec fn range_view(&self) -> RangeView {
        (*(**self)@)@
    }

    fn range(&self) -> (r: IdRange<Arena>) {
        *self.value
    }
}

} // verus!
