//! The same machinery without arenas, for callers that keep their tables
//! apart by themselves.

pub use crate::alloc_gen::{UntypedAllocGen, UntypedArenaGen};
pub use crate::allocator::UntypedAllocator;
pub use crate::id::UntypedId;
pub use crate::range::UntypedIdRange;
