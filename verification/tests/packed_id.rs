use gen_id_allocator::gen::Gen;
use gen_id_allocator::packed_id::Id;

#[test]
fn bit_packing() {
    let id = Id::<()>::new(2, Gen::new(3).unwrap());

    assert_eq!(2, id.index());
    assert_eq!(3, id.gen().get());
}
