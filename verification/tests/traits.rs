use gen_id_allocator::{Allocator, ValidId, Validator};

#[test]
fn valid_test() {
    let mut alloc = Allocator::<()>::default();
    let id = alloc.create().value;

    let create_only = alloc.create_only();
    let valid = create_only.validate(id).unwrap();
    let valid2 = valid.valid();

    println!("{:?}", valid2);
}
