use gen_id_allocator::{
    Allocator, Id, IdRange, MaybeValidId, Valid, ValidId, ValidIter, ValidRange, Validator,
};
use std::ops::Index;

#[derive(Debug, Copy, Clone)]
struct Columns;

impl gen_id_allocator::Fixed for Columns {}

#[derive(Debug)]
struct Things;

impl gen_id_allocator::Dynamic for Things {}

struct Names(Vec<&'static str>);

impl<V: ValidId<Arena = Columns>> Index<V> for Names {
    type Output = &'static str;

    fn index(&self, id: V) -> &Self::Output {
        &self.0[ValidId::index(&id)]
    }
}

#[test]
fn a_mark_keeps_the_value() {
    let valid = Valid::assert_valid(12u32);

    assert_eq!(12, valid.value);
    assert_eq!(12, *valid.get());
    assert_eq!(12, valid.clone().into_inner());
}

#[test]
fn marks_on_references() {
    let mut number = 5u32;

    assert_eq!(5, **Valid::assert_ref(&number).get());
    assert_eq!(5, Valid::assert_ref(&number).copied().value);

    let marked = Valid::assert_mut(&mut number);
    *marked.into_inner() = 6;

    assert_eq!(6, number);
}

#[test]
fn from_converts_under_the_mark() {
    let small = Valid::assert_valid(7u32);

    let wide: Valid<u64> = Valid::from(small);

    assert_eq!(7u64, wide.value);

    let id = Valid::assert_valid(Id::<Columns>::first(3));
    let range: Valid<IdRange<Columns>> = Valid::from(id);

    assert_eq!(IdRange::new(3, 4), range.value);
}

#[test]
fn map_applies_under_the_mark() {
    let valid = Valid::assert_valid(20u32);

    let mapped = valid.map(|n| n as u64 * 3);

    assert_eq!(60u64, mapped.value);
}

#[test]
fn indexing_under_the_mark() {
    let names = Valid::assert_valid(Names(vec!["a", "b", "c"]));

    let name = names.index(Id::<Columns>::first(1));

    assert_eq!("b", *name.value);
    assert_eq!("c", *names.index(&Id::<Columns>::first(2)).copied().get());
}

#[test]
fn items_of_a_marked_vector_are_marked() {
    let valid = Valid::assert_valid(vec![4u8, 5, 6]);

    let mut by_reference = Vec::new();
    let mut iter = valid.iter();
    while let Some(item) = iter.next() {
        by_reference.push(*item.value);
    }
    let mut by_value = Vec::new();
    let mut iter = valid.into_iter();
    while let Some(item) = iter.next() {
        by_value.push(item.value);
    }

    assert_eq!(vec![4, 5, 6], by_reference);
    assert_eq!(vec![4, 5, 6], by_value);
}

#[test]
fn a_marking_cursor_passes_every_item_on() {
    let mut iter = ValidIter::new(vec![1u8, 2].into_iter());

    assert_eq!(Some(1), iter.next().map(|item| item.value));
    assert_eq!(Some(2), iter.next().map(|item| item.value));
    assert!(iter.next().is_none());
    assert!(iter.next().is_none());
}

#[test]
fn ids_of_a_growing_arena_are_valid_by_themselves() {
    let id = Id::<Columns>::first(4);

    assert_eq!(4, ValidId::index(&id));
    assert_eq!(id, ValidId::id(&id));
    assert_eq!(id, id.valid().value);
    assert_eq!(4, ValidId::index(&&id));
    assert_eq!(id, ValidId::id(&&id));
}

#[test]
fn checked_ids_are_valid() {
    let mut allocator = Allocator::<Things>::default();
    allocator.create_id();
    let id = allocator.create_id();

    let valid = (&allocator).validate(id).unwrap();

    assert_eq!(1, ValidId::index(&valid));
    assert_eq!(id, valid.id());
    assert_eq!(id, (&valid).id());
    assert_eq!(id, valid.valid().value);

    let by_reference = Valid::assert_ref(&id);
    assert_eq!(1, ValidId::index(&by_reference));
    assert_eq!(id, by_reference.id());
    assert_eq!(id, (&by_reference).id());
}

#[test]
fn a_mutable_allocator_reference_checks_too() {
    let mut allocator = Allocator::<Things>::default();
    let id = allocator.create_id();
    let dead = allocator.create_id();
    allocator.kill(dead);

    let by_mut = &mut allocator;

    assert_eq!(Some(id), Validator::validate(&by_mut, id).map(|valid| valid.value));
    assert!(Validator::validate(&by_mut, dead).is_none());

    let mut view = allocator.create_only();
    let by_mut = &mut view;

    assert_eq!(Some(id), Validator::validate(&by_mut, id).map(|valid| valid.value));
    assert!(Validator::validate(&by_mut, dead).is_none());
}

#[test]
fn maybe_valid_ids() {
    let id = Id::<Columns>::first(2);
    let none: Option<Id<Columns>> = None;

    assert_eq!(Some(id), Some(id).try_valid());
    assert_eq!(None, none.try_valid());
    assert_eq!(Some(id), (&Some(id)).try_valid());
    assert_eq!(None, (&none).try_valid());
    assert_eq!(Some(id), MaybeValidId::try_valid(&id));

    let some = Valid::assert_valid(Some(Id::<Things>::first(5)));
    let nothing = Valid::assert_valid(None::<Id<Things>>);

    assert_eq!(Some(Id::first(5)), some.try_valid().map(|valid| valid.value));
    assert!(nothing.try_valid().is_none());
    assert_eq!(Some(Id::first(5)), (&some).try_valid().map(|valid| valid.value));
    assert!((&nothing).try_valid().is_none());

    let held = Some(Id::<Things>::first(6));
    let empty = None::<Id<Things>>;
    let by_reference = Valid::assert_ref(&held);
    let empty_by_reference = Valid::assert_ref(&empty);

    assert_eq!(Some(Id::first(6)), by_reference.try_valid().map(|valid| *valid.value));
    assert!(empty_by_reference.try_valid().is_none());
    assert_eq!(Some(Id::first(6)), (&by_reference).try_valid().map(|valid| *valid.value));
    assert!((&empty_by_reference).try_valid().is_none());
}

#[test]
fn marked_ranges_stand_for_their_range() {
    let range = IdRange::<Things>::default();
    let marked = Valid::assert_valid(range);
    let by_reference = Valid::assert_ref(&range);

    assert_eq!(range, marked.range());
    assert_eq!(range, (&marked).range());
    assert_eq!(range, by_reference.range());
    assert_eq!(range, (&by_reference).range());
}
