//! Entities and the generational entity allocator.
//!
//! An entity is an index paired with a generation. Deallocating an entity
//! bumps its slot's generation, so stale entity values no longer count as
//! alive; freed indices are recycled for later allocations.

use vstd::prelude::*;

verus! {

/// A handle to one entity: a slot index and the generation it was
/// allocated in.
#[derive(Copy, Clone, Eq, PartialEq, Hash, Debug, Structural)]
pub struct Entity {
    pub id: u32,
    pub generation: u32,
}

impl Entity {
    /// Pair an index with a generation.
    pub fn new(id: u32, generation: u32) -> (r: Self)
        ensures
            r == (Entity { id, generation }),
    {
        Self { id, generation }
    }

    /// The entity's slot index.
    pub fn index(&self) -> (r: usize)
        ensures
            r == self.id as usize,
    {
        self.id as usize
    }
}

/// The generation a slot carries after one more deallocation: one higher,
/// wrapping at the end of the generation space.
pub open spec fn spec_next_generation(g: u32) -> u32 {
    if g == u32::MAX {
        0
    } else {
        (g + 1) as u32
    }
}

/// Issues entities and tracks which are alive, recycling freed indices
/// under fresh generations.
pub struct EntityAllocator {
    pub generations: Vec<u32>,
    pub free_ids: Vec<u32>,
    pub next_id: u32,
}

impl EntityAllocator {
    /// Every issued index has a generation slot, and every free index is an
    /// issued one.
    pub open spec fn inv(self) -> bool {
        &&& self.next_id as int == self.generations@.len()
        &&& forall|k: int|
            0 <= k < self.free_ids@.len() ==> ((#[trigger] self.free_ids@[k]) as int)
                < self.generations@.len()
    }

    /// An entity is alive when its slot exists and still carries the
    /// generation the entity was allocated in.
    pub open spec fn spec_is_alive(self, entity: Entity) -> bool {
        &&& (entity.id as int) < self.generations@.len()
        &&& self.generations@[entity.id as int] == entity.generation
    }

    /// Whether another entity can be allocated: an index is free to recycle,
    /// or the index space is not exhausted.
    pub open spec fn spec_can_allocate(self) -> bool {
        self.free_ids@.len() > 0 || self.generations@.len() < u32::MAX as int
    }

    /// An allocator that has issued nothing.
    pub fn new() -> (r: Self)
        ensures
            r.inv(),
            r.generations@.len() == 0,
            r.free_ids@.len() == 0,
    {
        Self { generations: Vec::new(), free_ids: Vec::new(), next_id: 0 }
    }

    /// Allocate an entity: recycle the most recently freed index under its
    /// current generation, or issue the next fresh index at generation
    /// zero. Every entity alive before stays alive.
    pub fn allocate(&mut self) -> (r: Entity)
        requires
            old(self).inv(),
            old(self).spec_can_allocate(),
        ensures
            final(self).inv(),
            final(self).spec_is_alive(r),
            forall|e: Entity|
                old(self).spec_is_alive(e) ==> #[trigger] final(self).spec_is_alive(e),
            old(self).free_ids@.len() > 0 ==> {
                &&& r == (Entity {
                    id: old(self).free_ids@.last(),
                    generation: old(self).generations@[old(self).free_ids@.last() as int],
                })
                &&& final(self).generations@ == old(self).generations@
                &&& final(self).free_ids@ == old(self).free_ids@.drop_last()
            },
            old(self).free_ids@.len() == 0 ==> {
                &&& r == (Entity { id: (old(self).generations@.len() as u32), generation: 0 })
                &&& final(self).generations@ == old(self).generations@.push(0)
                &&& final(self).free_ids@ == old(self).free_ids@
            },
    {
        match self.free_ids.pop() {
            Some(id) => {
                let generation = self.generations[id as usize];
                Entity::new(id, generation)
            },
            None => {
                let id = self.next_id;
                self.next_id = self.next_id + 1;
                self.generations.push(0);
                Entity::new(id, 0)
            },
        }
    }

    /// Deallocate an entity. Returns whether it was alive; a dead or stale
    /// entity is ignored. On success the slot's generation moves on — the
    /// entity is no longer alive, every other entity's liveness is
    /// untouched — and the index becomes free for recycling.
    pub fn deallocate(&mut self, entity: Entity) -> (r: bool)
        requires
            old(self).inv(),
        ensures
            final(self).inv(),
            r == old(self).spec_is_alive(entity),
            !r ==> final(self).generations@ == old(self).generations@ && final(self).free_ids@
                == old(self).free_ids@,
            r ==> {
                &&& final(self).generations@ == old(self).generations@.update(
                    entity.id as int,
                    spec_next_generation(entity.generation),
                )
                &&& final(self).free_ids@ == old(self).free_ids@.push(entity.id)
                &&& !final(self).spec_is_alive(entity)
                &&& forall|e: Entity|
                    e.id != entity.id ==> #[trigger] final(self).spec_is_alive(e) == old(
                        self,
                    ).spec_is_alive(e)
            },
    {
        let idx = entity.id as usize;
        if idx < self.generations.len() && self.generations[idx] == entity.generation {
            let bumped: u32 = if entity.generation == u32::MAX {
                0
            } else {
                entity.generation + 1
            };
            self.generations.set(idx, bumped);
            self.free_ids.push(entity.id);
            true
        } else {
            false
        }
    }

    /// Whether an entity is alive: its slot still carries its generation.
    pub fn is_alive(&self, entity: Entity) -> (r: bool)
        ensures
            r == self.spec_is_alive(entity),
    {
        let idx = entity.id as usize;
        idx < self.generations.len() && self.generations[idx] == entity.generation
    }
}

impl Default for EntityAllocator {
    /// Same as `new`: an allocator that has issued nothing.
    fn default() -> (r: Self)
        ensures
            r.inv(),
            r.generations@.len() == 0,
            r.free_ids@.len() == 0,
    {
        EntityAllocator::new()
    }
}

} // verus!
