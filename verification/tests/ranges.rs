use gen_id_allocator::range::UntypedIter;
use gen_id_allocator::untyped::{UntypedId, UntypedIdRange};
use gen_id_allocator::{Allocator, Id, IdRange, RangeAllocator, ValidRange};

#[derive(Debug, Copy, Clone)]
struct Columns;

impl gen_id_allocator::Fixed for Columns {}

fn members(mut iter: UntypedIter) -> Vec<(usize, u32)> {
    let mut seen = Vec::new();
    while let Some(id) = iter.next() {
        seen.push((id.index(), id.gen().get()));
    }
    seen
}

#[test]
fn the_default_range_is_empty_at_zero() {
    let range = UntypedIdRange::default();

    assert_eq!(0..0, range.range());
    assert_eq!(0, range.len());
    assert_eq!(UntypedIdRange::new(0, 0), range);
    assert_eq!(None, range.position(UntypedId::first(0)));
}

#[test]
fn a_range_of_one_id_holds_its_index_alone() {
    let range = UntypedIdRange::from(UntypedId::first(7));

    assert_eq!(7..8, range.range());
    assert_eq!(1, range.len());
    assert_eq!(Some(0), range.position(UntypedId::first(7)));
    assert_eq!(None, range.position(UntypedId::first(8)));
    assert_eq!(None, range.position(UntypedId::first(6)));
}

#[test]
fn extend_grows_at_the_end_that_the_index_touches() {
    let mut range = UntypedIdRange::new(4, 6);

    range.extend(UntypedId::first(6));
    assert_eq!(4..7, range.range());

    range.extend(UntypedId::first(3));
    assert_eq!(3..7, range.range());

    range.extend(UntypedId::first(2));
    range.extend(UntypedId::first(7));
    assert_eq!(2..8, range.range());
    assert_eq!(6, range.len());
}

#[test]
fn extend_starts_the_default_range_anywhere() {
    let mut at_zero = UntypedIdRange::default();
    at_zero.extend(UntypedId::first(0));
    assert_eq!(0..1, at_zero.range());

    let mut far = UntypedIdRange::default();
    far.extend(UntypedId::first(40));
    assert_eq!(40..41, far.range());

    far.extend(UntypedId::first(41));
    far.extend(UntypedId::first(39));
    assert_eq!(39..42, far.range());
}

#[test]
fn extend_at_zero_grows_to_the_right() {
    let mut range = UntypedIdRange::new(0, 3);

    range.extend(UntypedId::first(3));

    assert_eq!(0..4, range.range());
}

#[test]
fn an_empty_range_away_from_zero_extends_by_its_neighbours() {
    let mut up = UntypedIdRange::new(5, 5);
    up.extend(UntypedId::first(5));
    assert_eq!(5..6, up.range());

    let mut down = UntypedIdRange::new(5, 5);
    down.extend(UntypedId::first(4));
    assert_eq!(4..5, down.range());
}

#[test]
fn position_counts_from_the_start() {
    let range = IdRange::<Columns>::new(10, 13);

    assert_eq!(None, range.position(Id::first(9)));
    assert_eq!(Some(0), range.position(Id::first(10)));
    assert_eq!(Some(2), range.position(Id::first(12)));
    assert_eq!(None, range.position(Id::first(13)));
}

#[test]
fn position_in_a_range_turned_around_is_nothing() {
    let range = UntypedIdRange::new(8, 3);

    assert_eq!(None, range.position(UntypedId::first(2)));
    assert_eq!(None, range.position(UntypedId::first(5)));
    assert_eq!(None, range.position(UntypedId::first(8)));
}

#[test]
fn members_come_in_ascending_order_in_generation_one() {
    assert_eq!(vec![(3, 1), (4, 1), (5, 1)], members(UntypedIdRange::new(3, 6).into_iter()));
    assert_eq!(Vec::<(usize, u32)>::new(), members(UntypedIdRange::new(3, 3).into_iter()));
    assert_eq!(Vec::<(usize, u32)>::new(), members(UntypedIdRange::new(6, 3).into_iter()));
}

#[test]
fn a_cursor_can_be_copied_and_stays_empty_once_empty() {
    let mut iter = UntypedIdRange::new(1, 3).into_iter();
    assert_eq!(Some(UntypedId::first(1)), iter.next());
    let rest = iter.clone();

    assert_eq!(Some(UntypedId::first(2)), iter.next());
    assert_eq!(None, iter.next());
    assert_eq!(None, iter.next());
    assert_eq!(vec![(2, 1)], members(rest));
}

#[test]
fn created_ranges_follow_each_other() {
    let mut allocator = Allocator::<Columns>::default();
    let single = *allocator.create().get();

    let first = allocator.create_range(3);
    let second = allocator.create_range(2);

    assert_eq!(0, single.index());
    assert_eq!(IdRange::new(1, 4), first);
    assert_eq!(IdRange::new(4, 6), second);
    assert_eq!(3, first.len());

    let mut iter = first.into_iter();
    let mut seen = Vec::new();
    while let Some(id) = iter.next() {
        assert!(allocator.is_alive(id));
        seen.push(id);
    }
    assert_eq!(vec![Id::first(1), Id::first(2), Id::first(3)], seen);
    assert_eq!(6, allocator.ids().len());
}

#[test]
fn typed_ranges_convert_and_compare() {
    let untyped = UntypedIdRange::new(2, 9);
    let range = IdRange::<Columns>::from(untyped);

    assert_eq!(untyped, range.range());
    assert_eq!(IdRange::new(2, 9), range);
    assert_ne!(IdRange::new(2, 8), range);
    assert_eq!(7, range.len());
    assert_eq!(IdRange::<Columns>::default().range(), UntypedIdRange::default());
    assert_eq!(IdRange::new(5, 6), IdRange::<Columns>::from(Id::first(5)));
}

#[test]
fn a_range_of_a_growing_arena_stands_for_itself() {
    let range = IdRange::<Columns>::new(1, 4);

    assert_eq!(range, ValidRange::range(&range));
    assert_eq!(range, ValidRange::range(&&range));
}

#[test]
fn the_counter_hands_out_what_follows() {
    let mut counter = RangeAllocator::<Columns>::default();

    assert_eq!(IdRange::new(0, 0), counter.create(0));
    assert_eq!(IdRange::new(0, 4), counter.create(4));
    let copy = counter.clone();
    assert_eq!(IdRange::new(4, 5), counter.create(1));
    assert_eq!(IdRange::new(5, 5), counter.create(0));

    let mut copy = copy;
    assert_eq!(IdRange::new(4, 10), copy.create(6));
}
