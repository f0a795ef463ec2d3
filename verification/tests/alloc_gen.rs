use gen_id_allocator::untyped::{UntypedAllocGen, UntypedArenaGen, UntypedId};

#[test]
fn arena_gen_alloc_gen_eq() {
    let mut arena_gen = UntypedArenaGen::default();
    let mut alloc_gen = UntypedAllocGen::default();
    let id = UntypedId::first(1);

    assert!(arena_gen.eq(&alloc_gen));

    arena_gen.increment_gen(id);

    assert!(arena_gen.ne(&alloc_gen));

    alloc_gen.increment_gen(id);

    assert!(arena_gen.eq(&alloc_gen));
}
