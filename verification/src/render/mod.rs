//! The rendering core.

use generational_arena::Arena;
use vstd::prelude::*;

use crate::render::gpu::Buffer;

pub mod builder;
pub mod bundle;
pub mod bytes;
pub mod camera;
pub mod color;
pub mod framework;
pub mod gpu;
pub mod handle;
pub mod material;
pub mod mesh;
pub mod raw;
pub mod time;
pub mod vertex;

verus! {

/// The number of buffers that a new arena has room for.
pub const ARENA_CAPACITY: usize = 32;

#[verifier::external_type_specification]
#[verifier::external_body]
#[verifier::reject_recursive_types(T)]
pub struct ExArena<T>(generational_arena::Arena<T>);

/// Where a buffer lies in an arena: the slot, and the generation in which the
/// slot was filled.
#[derive(Clone, Copy, Debug, PartialEq, Eq, Hash, Structural)]
pub struct BufferIndex {
    pub slot: usize,
    pub generation: u64,
}

/// Why a buffer could not be taken out of an arena.
#[derive(Clone, Copy, Debug, PartialEq, Eq, Structural)]
pub enum ArenaError {
    /// No buffer lies at the index: it never did, or it has been removed.
    Stale,
    /// The arena has run out of generations and can remove no more.
    Exhausted,
}

/// No buffers at all.
pub open spec fn no_buffers() -> Map<BufferIndex, Buffer> {
    Map::empty()
}

/// The buffers that an arena holds, each under its index.
pub uninterp spec fn arena_buffers(arena: Arena<Buffer>) -> Map<BufferIndex, Buffer>;

/// The generation that an arena stamps the next buffer with.
pub uninterp spec fn arena_generation(arena: Arena<Buffer>) -> u64;

/// Makes an arena with `Arena::with_capacity`. The contract claims that it
/// holds nothing and is in generation 0.
#[verifier::external_body]
fn arena_with_capacity(n: usize) -> (arena: Arena<Buffer>)
    ensures
        arena_buffers(arena) == no_buffers(),
        arena_generation(arena) == 0,
{
    Arena::with_capacity(n)
}

/// Puts a buffer into the arena with `Arena::insert`, which grows the arena
/// where it is full, and takes the index apart with `Index::into_raw_parts`.
/// The contract claims that the buffer is then held under the index returned,
/// which held nothing before and bears the arena's generation; that the other
/// buffers stay; and that the generation stays.
#[verifier::external_body]
fn arena_insert(arena: &mut Arena<Buffer>, buffer: Buffer) -> (index: BufferIndex)
    ensures
        !arena_buffers(*old(arena)).contains_key(index),
        index.generation == arena_generation(*old(arena)),
        arena_buffers(*final(arena)) == arena_buffers(*old(arena)).insert(index, buffer),
        arena_generation(*final(arena)) == arena_generation(*old(arena)),
{
    let (slot, generation) = arena.insert(buffer).into_raw_parts();
    BufferIndex { slot, generation }
}

/// Looks a buffer up with `Arena::get`, under an index made with
/// `Index::from_raw_parts`; the lookup compares slot and generation and takes
/// any index, also one that the arena never gave out. The contract claims
/// that the buffer held under the index is returned, and nothing where none
/// is held under it.
#[verifier::external_body]
fn arena_get<'a>(arena: &'a Arena<Buffer>, index: BufferIndex) -> (buffer: Option<&'a Buffer>)
    ensures
        match buffer {
            Some(buffer) => arena_buffers(*arena).contains_key(index) && arena_buffers(
                *arena,
            )[index] == *buffer,
            None => !arena_buffers(*arena).contains_key(index),
        },
{
    arena.get(generational_arena::Index::from_raw_parts(index.slot, index.generation))
}

/// Takes a buffer out with `Arena::remove`, under an index made with
/// `Index::from_raw_parts`. The removal counts the generation up, so the
/// arena must not be in its last generation. The contract claims that the buffer held under the index is returned and is
/// held no more, the others staying, and that the arena is then in the next
/// generation; and that nothing is returned and nothing changes where no
/// buffer is held under the index.
#[verifier::external_body]
fn arena_remove(arena: &mut Arena<Buffer>, index: BufferIndex) -> (buffer: Option<Buffer>)
    requires
        arena_generation(*old(arena)) < u64::MAX,
    ensures
        match buffer {
            Some(buffer) => {
                &&& arena_buffers(*old(arena)).contains_key(index)
                &&& arena_buffers(*old(arena))[index] == buffer
                &&& arena_buffers(*final(arena)) == arena_buffers(*old(arena)).remove(index)
                &&& arena_generation(*final(arena)) == arena_generation(*old(arena)) + 1
            },
            None => {
                &&& !arena_buffers(*old(arena)).contains_key(index)
                &&& arena_buffers(*final(arena)) == arena_buffers(*old(arena))
                &&& arena_generation(*final(arena)) == arena_generation(*old(arena))
            },
        },
{
    arena.remove(generational_arena::Index::from_raw_parts(index.slot, index.generation))
}

/// A pool of buffers. A buffer is found again by the index that it was
/// inserted under, until it is removed; from then on the index is stale, and
/// stays so whatever is inserted afterwards.
#[derive(Debug)]
pub struct BufferArena {
    arena: Arena<Buffer>,
    removed: u64,
}

impl View for BufferArena {
    type V = Map<BufferIndex, Buffer>;

    closed spec fn view(&self) -> Map<BufferIndex, Buffer> {
        arena_buffers(self.arena)
    }
}

impl BufferArena {
    /// The generation that the next buffer is stamped with: the number of
    /// buffers removed so far.
    pub closed spec fn generation(&self) -> u64 {
        arena_generation(self.arena)
    }

    /// No buffer is of a later generation than the arena is in.
    pub closed spec fn wf(&self) -> bool {
        &&& self.removed == arena_generation(self.arena)
        &&& forall|index: BufferIndex| #[trigger]
            self@.contains_key(index) ==> index.generation <= self.generation()
    }

    /// Whether a buffer once lay at `index` and has been removed.
    pub open spec fn is_stale(&self, index: BufferIndex) -> bool {
        !self@.contains_key(index) && index.generation < self.generation()
    }

    /// Puts `buffer` into the arena and returns the index to find it by. The
    /// index was not in use, and no stale index comes back to life.
    pub fn insert(&mut self, buffer: Buffer) -> (index: BufferIndex)
        requires
            old(self).wf(),
        ensures
            final(self).wf(),
            !old(self)@.contains_key(index),
            !old(self).is_stale(index),
            final(self)@ == old(self)@.insert(index, buffer),
            final(self).generation() == old(self).generation(),
            forall|stale: BufferIndex| old(self).is_stale(stale) ==> final(self).is_stale(stale),
    {
        let index = arena_insert(&mut self.arena, buffer);
        assert forall|other: BufferIndex| #[trigger] self@.contains_key(other) implies other.generation
            <= self.generation() by {
            if other != index {
                assert(old(self)@.contains_key(other));
            }
        }
        index
    }

    /// The buffer at `index`, or nothing if the index is stale or was never
    /// given out.
    pub fn get(&self, index: BufferIndex) -> (buffer: Option<&Buffer>)
        ensures
            match buffer {
                Some(buffer) => self@.contains_key(index) && self@[index] == *buffer,
                None => !self@.contains_key(index),
            },
    {
        arena_get(&self.arena, index)
    }

    /// Whether a buffer lies at `index`.
    pub fn contains(&self, index: BufferIndex) -> (held: bool)
        ensures
            held == self@.contains_key(index),
    {
        arena_get(&self.arena, index).is_some()
    }

    /// Takes the buffer at `index` out of the arena. From then on the index
    /// is stale. Nothing is removed where no buffer lies at the index, nor
    /// once `u64::MAX` buffers have been removed.
    pub fn remove(&mut self, index: BufferIndex) -> (removed: Result<Buffer, ArenaError>)
        requires
            old(self).wf(),
        ensures
            final(self).wf(),
            forall|stale: BufferIndex| old(self).is_stale(stale) ==> final(self).is_stale(stale),
            match removed {
                Ok(buffer) => {
                    &&& old(self)@.contains_key(index)
                    &&& old(self).generation() < u64::MAX
                    &&& buffer == old(self)@[index]
                    &&& final(self)@ == old(self)@.remove(index)
                    &&& final(self).generation() == old(self).generation() + 1
                    &&& final(self).is_stale(index)
                },
                Err(ArenaError::Stale) => {
                    &&& !old(self)@.contains_key(index)
                    &&& final(self)@ == old(self)@
                    &&& final(self).generation() == old(self).generation()
                },
                Err(ArenaError::Exhausted) => {
                    &&& old(self)@.contains_key(index)
                    &&& old(self).generation() == u64::MAX
                    &&& final(self)@ == old(self)@
                    &&& final(self).generation() == old(self).generation()
                },
            },
    {
        if !self.contains(index) {
            return Err(ArenaError::Stale);
        }
        if self.removed == u64::MAX {
            return Err(ArenaError::Exhausted);
        }
        match arena_remove(&mut self.arena, index) {
            Some(buffer) => {
                self.removed = self.removed + 1;
                Ok(buffer)
            },
            None => Err(ArenaError::Stale),
        }
    }
}

impl Default for BufferArena {
    fn default() -> (arena: Self)
        ensures
            arena.wf(),
            arena@ == no_buffers(),
            arena.generation() == 0,
    {
        Self { arena: arena_with_capacity(ARENA_CAPACITY), removed: 0 }
    }
}

} // verus!
