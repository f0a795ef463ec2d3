use gen_id_allocator::untyped::{UntypedAllocator, UntypedId};
use gen_id_allocator::{Allocator, Id, Validator};

#[derive(Debug)]
struct Things;

impl gen_id_allocator::Dynamic for Things {}

fn pair(id: UntypedId) -> (usize, u32) {
    (id.index(), id.gen().get())
}

fn typed_pair(id: Id<Things>) -> (usize, u32) {
    (id.index(), id.gen().get())
}

#[test]
fn end_to_end() {
    let mut allocator = UntypedAllocator::default();

    let first = allocator.create();
    assert_eq!((0, 1), pair(first));

    let second = allocator.create();
    assert_eq!((1, 1), pair(second));

    assert!(allocator.kill(first));

    let third = allocator.create();
    assert_eq!((0, 2), pair(third));

    assert!(!allocator.is_alive(first));
    assert!(allocator.is_alive(third));
    assert!(allocator.is_alive(second));
}

#[test]
fn creates_without_kill_ascend() {
    let mut allocator = UntypedAllocator::default();
    let mut made = Vec::new();

    for expected in 0..6 {
        let id = allocator.create();
        assert_eq!((expected, 1), pair(id));
        made.push(id);
    }

    for id in made {
        assert!(allocator.is_alive(id));
    }
}

#[test]
fn generation_grows_with_each_reuse() {
    let mut allocator = UntypedAllocator::default();
    let mut id = allocator.create();

    for expected in 2..6 {
        assert!(allocator.kill(id));
        id = allocator.create();
        assert_eq!((0, expected), pair(id));
    }
}

#[test]
fn killed_id_is_dead_and_cannot_die_twice() {
    let mut allocator = UntypedAllocator::default();
    let keep = allocator.create();
    let id = allocator.create();

    assert!(allocator.kill(id));
    assert!(!allocator.is_alive(id));
    assert!(!allocator.kill(id));
    assert!(!allocator.is_alive(id));
    assert!(allocator.is_alive(keep));
}

#[test]
fn free_list_is_last_in_first_out() {
    let mut allocator = UntypedAllocator::default();
    let ids: Vec<UntypedId> = (0..4).map(|_| allocator.create()).collect();

    assert!(allocator.kill(ids[2]));
    assert!(allocator.kill(ids[0]));
    assert!(allocator.kill(ids[3]));

    assert_eq!((3, 2), pair(allocator.create()));
    assert_eq!((0, 2), pair(allocator.create()));
    assert_eq!((2, 2), pair(allocator.create()));
    assert_eq!((4, 1), pair(allocator.create()));
}

#[test]
fn kill_rejects_a_stale_generation() {
    let mut allocator = UntypedAllocator::default();
    let old = allocator.create();
    allocator.kill(old);
    let new = allocator.create();

    assert!(!allocator.kill(old));
    assert!(allocator.is_alive(new));

    let mut ahead = new;
    ahead.increment_gen();

    assert!(!allocator.is_alive(ahead));
    assert!(!allocator.kill(ahead));
    assert!(allocator.is_alive(new));
}

#[test]
fn kill_rejects_an_index_beyond_the_table() {
    let mut allocator = UntypedAllocator::default();
    let id = allocator.create();

    assert!(!allocator.is_alive(UntypedId::first(1)));
    assert!(!allocator.kill(UntypedId::first(1)));
    assert!(!allocator.kill(UntypedId::first(u32::MAX as usize)));
    assert!(allocator.is_alive(id));
    assert_eq!((1, 1), pair(allocator.create()));
}

#[test]
fn a_new_allocator_has_nothing_alive() {
    let allocator = UntypedAllocator::default();

    assert!(allocator.ids().is_empty());
    assert!(!allocator.is_alive(UntypedId::first(0)));
}

#[test]
fn ids_are_the_living_by_ascending_index() {
    let mut allocator = UntypedAllocator::default();
    let ids: Vec<UntypedId> = (0..5).map(|_| allocator.create()).collect();
    allocator.kill(ids[1]);
    allocator.kill(ids[3]);
    let again = allocator.create();

    let alive: Vec<(usize, u32)> = allocator.ids().into_iter().map(pair).collect();

    assert_eq!((3, 2), pair(again));
    assert_eq!(vec![(0, 1), (2, 1), (3, 2), (4, 1)], alive);
}

#[test]
fn untyped_create_range_appends_behind_dead_slots() {
    let mut allocator = UntypedAllocator::default();
    let first = allocator.create();
    allocator.create();
    allocator.kill(first);

    let range = allocator.create_range(3);

    assert_eq!(2..5, range.range());
    assert_eq!(3, range.len());
    let alive: Vec<(usize, u32)> = allocator.ids().into_iter().map(pair).collect();
    assert_eq!(vec![(1, 1), (2, 1), (3, 1), (4, 1)], alive);
    assert_eq!((0, 2), pair(allocator.create()));
    assert_eq!((5, 1), pair(allocator.create()));
}

#[test]
fn create_range_of_nothing_changes_nothing() {
    let mut allocator = UntypedAllocator::default();
    allocator.create();

    let range = allocator.create_range(0);

    assert_eq!(1..1, range.range());
    assert_eq!(0, range.len());
    assert_eq!(1, allocator.ids().len());
}

#[test]
fn typed_allocator_marks_what_it_makes() {
    let mut allocator = Allocator::<Things>::default();

    let id = allocator.create().value;

    assert_eq!((0, 1), typed_pair(id));
    assert!(allocator.is_alive(id));
    assert_eq!(Some((0, 1)), allocator.validate(id).map(|valid| typed_pair(valid.value)));
}

#[test]
fn validate_refuses_the_dead() {
    let mut allocator = Allocator::<Things>::default();
    let id = allocator.create_id();
    allocator.kill(id);

    assert!(allocator.validate(id).is_none());
    assert!((&allocator).validate(id).is_none());
    assert!(allocator.create_only().validate(id).is_none());
}

#[test]
fn typed_ids_list_the_living() {
    let mut allocator = Allocator::<Things>::default();
    let a = allocator.create_id();
    let b = allocator.create_id();
    let c = allocator.create_id();
    allocator.kill(b);

    let alive: Vec<Id<Things>> = allocator.ids().into_iter().map(|valid| valid.value).collect();

    assert_eq!(vec![a, c], alive);
}

#[test]
fn create_only_makes_and_checks() {
    let mut allocator = Allocator::<Things>::default();
    let a = allocator.create_id();
    let b = allocator.create_id();
    allocator.kill(a);

    let mut view = allocator.create_only();
    let checked = view.validate(b).unwrap();
    assert!(view.validate(a).is_none());
    assert!(!view.is_alive(a));

    let reused = view.create();
    let fresh = view.create();

    assert_eq!((0, 2), typed_pair(reused.value));
    assert_eq!((2, 1), typed_pair(fresh.value));
    assert!(view.is_alive(checked.value));
    let alive: Vec<(usize, u32)> =
        view.ids().into_iter().map(|valid| typed_pair(valid.value)).collect();
    assert_eq!(vec![(0, 2), (1, 1), (2, 1)], alive);

    let (reused, fresh) = (reused.value, fresh.value);
    assert!(allocator.is_alive(reused));
    assert!(allocator.is_alive(fresh));
    assert!(allocator.is_alive(b));
}

#[test]
fn kill_multiple_empties_its_input() {
    let mut allocator = Allocator::<Things>::default();
    let a = allocator.create_id();
    let b = allocator.create_id();
    let mut ids = vec![a, b];

    let _ = allocator.kill_multiple(&mut ids);

    assert!(ids.is_empty());
    assert!(!allocator.is_alive(a));
    assert!(!allocator.is_alive(b));
}

#[test]
fn kill_multiple_keeps_the_order_and_leaves_out_what_cannot_die() {
    let mut allocator = Allocator::<Things>::default();
    let a = allocator.create_id();
    let b = allocator.create_id();
    let c = allocator.create_id();
    let d = allocator.create_id();
    allocator.kill(b);
    let mut ids = vec![d, b, a, d, Id::first(9), a];

    let killed = allocator.kill_multiple(&mut ids);

    let mut died = Vec::new();
    let mut iter = killed.iter();
    while let Some(id) = iter.next() {
        died.push(*id.value);
    }
    assert_eq!(vec![d, a], died);

    assert!(allocator.is_alive(c));
    assert_eq!((0, 2), typed_pair(allocator.create_id()));
    assert_eq!((3, 2), typed_pair(allocator.create_id()));
    assert_eq!((1, 2), typed_pair(allocator.create_id()));
}
