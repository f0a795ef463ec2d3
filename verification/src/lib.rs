//! Generational slot identifiers: allocation, recycling and staleness
//! detection for rows of externally owned dense collections.
//!
//! An [`Allocator`] hands out identifiers, each an index into a slot table
//! together with the generation of the slot's occupant. Killing an
//! identifier frees its slot for the next one, which gets the following
//! generation, so that the old identifier is told apart from the new one
//! for as long as the generations do not come around. Every kill moves the
//! allocator's epoch; whoever keeps identifiers keeps a snapshot of it and
//! sees in one comparison whether anything may have died since.
//!
//! What the allocators do is stated over the model in [`model`]: a sequence
//! of slots, the order in which dead slots are reused, and the epoch. The
//! laws that follow from it are proved there.
//!
//! - [`gen`]: generations, which are never zero.
//! - [`id`], [`packed_id`]: identifiers, as two fields or as one word.
//! - [`alloc_gen`]: epochs and snapshots of them.
//! - [`allocator`]: the slot allocator, its create-only view, batches of
//!   kills, and the plain counter for arenas that only grow.
//! - [`range`]: runs of consecutive identifiers.
//! - [`valid`], [`traits`]: the mark of what is known to be alive.
//! - [`untyped`]: the same without arenas.

pub mod alloc_gen;
pub mod allocator;
pub mod gen;
pub mod id;
pub mod model;
pub mod packed_id;
pub mod range;
pub mod traits;
pub mod untyped;
pub mod valid;

pub use alloc_gen::{AllocGen, ArenaGen};
pub use allocator::{Allocator, CreateOnly, Killed, RangeAllocator};
pub use id::Id;
pub use range::IdRange;
pub use traits::{Dynamic, Fixed, MaybeValidId, ValidId, ValidRange, Validator};
pub use valid::{Valid, ValidIter};
