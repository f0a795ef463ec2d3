use gen_id_allocator::untyped::{UntypedId, UntypedIdRange};
use gen_id_allocator::{Id, IdRange};

#[derive(Debug)]
struct Fixed;

impl gen_id_allocator::Fixed for Fixed {}

#[test]
fn len() {
    let range = IdRange::<Fixed>::new(2, 5);

    assert_eq!(3, range.len());
}

#[test]
fn extend_default() {
    let mut range = IdRange::<Fixed>::default();
    let id = Id::first(3);

    range.extend(id);

    assert_eq!(IdRange::from(id), range);
}

#[test]
fn extend_end() {
    let id2 = Id::first(2);
    let id3 = Id::first(3);
    let mut range = IdRange::<Fixed>::from(id2);

    range.extend(id3);

    assert_eq!(IdRange::new(2, 4), range);
}

#[test]
fn extend_start() {
    let id2 = Id::first(2);
    let id3 = Id::first(3);
    let mut range = IdRange::<Fixed>::from(id3);

    range.extend(id2);

    assert_eq!(IdRange::new(2, 4), range);
}

#[test]
fn position() {
    let range = UntypedIdRange::new(5, 10);

    assert_eq!(None, range.position(UntypedId::first(4)));
    assert_eq!(Some(0), range.position(UntypedId::first(5)));
    assert_eq!(Some(4), range.position(UntypedId::first(9)));
    assert_eq!(None, range.position(UntypedId::first(10)));
}
