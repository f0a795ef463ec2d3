use gen_id_allocator::gen::Gen;
use gen_id_allocator::packed_id;
use gen_id_allocator::untyped::UntypedId;
use gen_id_allocator::Id;
use std::cmp::Ordering;

#[derive(Debug, PartialEq, Eq, PartialOrd, Ord)]
struct Arena;

fn id_at(index: usize, bumps: u32) -> UntypedId {
    let mut id = UntypedId::first(index);
    for _ in 0..bumps {
        id.increment_gen();
    }
    id
}

#[test]
fn first_starts_in_generation_one() {
    let id = UntypedId::first(17);

    assert_eq!(17, id.index());
    assert_eq!(17, id.index);
    assert_eq!(Gen::default(), id.gen());
}

#[test]
fn first_keeps_the_low_32_bits_of_the_index() {
    let id = UntypedId::first(0x1_0000_0005);

    assert_eq!(5, id.index());
    assert_eq!(0xffff_ffff, UntypedId::first(0xffff_ffff).index());
}

#[test]
fn equality_needs_index_and_generation() {
    assert_eq!(id_at(3, 0), id_at(3, 0));
    assert_ne!(id_at(3, 0), id_at(4, 0));
    assert_ne!(id_at(3, 0), id_at(3, 1));
}

#[test]
fn order_is_by_index_then_generation() {
    assert_eq!(Some(Ordering::Less), id_at(1, 5).partial_cmp(&id_at(2, 0)));
    assert_eq!(Some(Ordering::Greater), id_at(2, 0).partial_cmp(&id_at(1, 5)));
    assert_eq!(Some(Ordering::Less), id_at(1, 0).partial_cmp(&id_at(1, 1)));
    assert_eq!(Some(Ordering::Greater), id_at(1, 2).partial_cmp(&id_at(1, 1)));
    assert_eq!(Some(Ordering::Equal), id_at(1, 1).partial_cmp(&id_at(1, 1)));

    assert!(id_at(1, 5) < id_at(2, 0));
    assert_eq!(Ordering::Less, id_at(1, 5).cmp(&id_at(2, 0)));
    assert_eq!(Ordering::Less, id_at(1, 0).cmp(&id_at(1, 1)));
    assert_eq!(Ordering::Equal, id_at(1, 1).cmp(&id_at(1, 1)));
}

#[test]
fn increment_gen_steps_over_zero() {
    let mut id = UntypedId::first(8);
    id.increment_gen();
    id.increment_gen();

    assert_eq!(8, id.index());
    assert_eq!(3, id.gen().get());
}

#[test]
fn typed_id_keeps_index_and_generation() {
    let untyped = id_at(6, 2);
    let id = Id::<Arena>::new(untyped);

    assert_eq!(6, id.index());
    assert_eq!(3, id.gen().get());
    assert_eq!(untyped, id.untyped());
    assert_eq!(untyped, id.untyped);
    assert_eq!(id, id.clone());
    assert_eq!(Id::<Arena>::first(6).untyped(), UntypedId::first(6));
}

#[test]
fn typed_ids_order_as_untyped_ones() {
    let low = Id::<Arena>::new(id_at(1, 3));
    let high = Id::<Arena>::new(id_at(2, 0));

    assert_eq!(Some(Ordering::Less), low.partial_cmp(&high));
    assert_eq!(Some(Ordering::Equal), low.partial_cmp(&low));
    assert_eq!(Ordering::Greater, high.cmp(&low));
    assert!(low != high);
}

#[test]
fn packed_first_and_increment() {
    let mut id = packed_id::Id::<Arena>::first(4);

    assert_eq!(4, id.index());
    assert_eq!(1, id.gen().get());

    id.increment_gen();

    assert_eq!(4, id.index());
    assert_eq!(2, id.gen().get());
}

#[test]
fn packed_increment_steps_over_zero() {
    let mut id = packed_id::Id::<Arena>::new(9, Gen::new(u32::MAX).unwrap());

    id.increment_gen();

    assert_eq!(9, id.index());
    assert_eq!(1, id.gen().get());
}

#[test]
fn packed_keeps_the_low_32_bits_of_the_index() {
    let id = packed_id::Id::<Arena>::new(0x3_0000_0007, Gen::new(11).unwrap());

    assert_eq!(7, id.index());
    assert_eq!(11, id.gen().get());

    let last = packed_id::Id::<Arena>::new(0xffff_ffff, Gen::new(u32::MAX).unwrap());

    assert_eq!(0xffff_ffff, last.index());
    assert_eq!(u32::MAX, last.gen().get());
}

#[test]
fn packed_ids_compare_by_index_then_generation() {
    let a = packed_id::Id::<Arena>::new(1, Gen::new(9).unwrap());
    let b = packed_id::Id::<Arena>::new(2, Gen::new(1).unwrap());
    let c = packed_id::Id::<Arena>::new(2, Gen::new(2).unwrap());

    assert_eq!(Some(Ordering::Less), a.partial_cmp(&b));
    assert_eq!(Some(Ordering::Less), b.partial_cmp(&c));
    assert_eq!(Some(Ordering::Greater), c.partial_cmp(&a));
    assert_eq!(Some(Ordering::Equal), c.partial_cmp(&c));
    assert_eq!(Ordering::Less, a.cmp(&b));
    assert!(a == a.clone());
    assert!(a != b);
}
