//! Slot accounting for the streaming staging buffer: a fixed number of
//! equally sized slots handed out from a free list. The backing buffer, its
//! mapping and the actual writes and copies are device work done by the
//! surrounding program; every offset and bound it uses is computed and
//! checked here.

use vstd::prelude::*;

verus! {

/// Handle to one sub-allocation within the streaming buffer.
#[derive(Debug, PartialEq, Eq, Clone, Copy, Structural)]
pub struct StreamingAllocation {
    /// Byte offset of the slot within the buffer.
    pub offset: u64,
    /// Size of the slot in bytes.
    pub size: u64,
    /// Index of the slot, returned to the free list on free.
    pub slot_index: usize,
}

/// One buffer-to-buffer copy for the surrounding program to record.
#[derive(Debug, PartialEq, Eq, Clone, Copy, Structural)]
pub struct BufferCopyRegion {
    pub src_offset: u64,
    pub dst_offset: u64,
    pub size: u64,
}

/// Why a streaming-buffer operation was refused.
#[derive(Debug, PartialEq, Eq, Clone, Copy, Structural)]
pub enum StreamingError {
    /// The slot size must be greater than zero.
    ZeroSlotSize,
    /// The total size must hold at least one slot.
    ZeroSlotCount,
    /// A write or copy would exceed the allocation's bounds.
    OutOfBounds,
}

/// Free-list allocator over the streaming buffer's slots.
pub struct BnanStreamingBuffer {
    pub slot_size: u64,
    pub slot_count: usize,
    pub free_slots: Vec<usize>,
}

impl BnanStreamingBuffer {
    /// Slots are real, every slot's end fits the address space, and every
    /// free slot is one of the buffer's.
    pub open spec fn inv(self) -> bool {
        &&& self.slot_size > 0
        &&& (self.slot_count as int) * (self.slot_size as int) <= u64::MAX as int
        &&& forall|k: int|
            0 <= k < self.free_slots@.len() ==> (#[trigger] self.free_slots@[k]) < self.slot_count
    }

    /// Lay out `total_size / slot_size` slots of `slot_size` bytes each,
    /// all free, so that the lowest-numbered slot is allocated first.
    /// Refused when the slot size is zero or no whole slot fits.
    pub fn new(total_size: u64, slot_size: u64) -> (r: Result<Self, StreamingError>)
        requires
            slot_size == 0 || total_size as int / slot_size as int <= usize::MAX as int,
        ensures
            slot_size == 0 ==> r == Err::<Self, StreamingError>(StreamingError::ZeroSlotSize),
            slot_size > 0 && total_size / slot_size == 0 ==> r == Err::<Self, StreamingError>(
                StreamingError::ZeroSlotCount,
            ),
            slot_size > 0 && total_size / slot_size > 0 ==> (r matches Ok(b) && {
                &&& b.inv()
                &&& b.slot_size == slot_size
                &&& b.slot_count as int == total_size as int / slot_size as int
                &&& b.free_slots@.len() == b.slot_count
                &&& forall|k: int|
                    0 <= k < b.free_slots@.len() ==> (#[trigger] b.free_slots@[k]) as int
                        == b.slot_count - 1 - k
            }),
    {
        if slot_size == 0 {
            return Err(StreamingError::ZeroSlotSize);
        }
        let slot_count_wide = total_size / slot_size;
        if slot_count_wide == 0 {
            return Err(StreamingError::ZeroSlotCount);
        }
        proof {
            vstd::arithmetic::div_mod::lemma_fundamental_div_mod(
                total_size as int,
                slot_size as int,
            );
            vstd::arithmetic::mul::lemma_mul_is_commutative(
                slot_size as int,
                total_size as int / slot_size as int,
            );
        }
        let slot_count = slot_count_wide as usize;
        let mut free_slots: Vec<usize> = Vec::new();
        let mut next: usize = slot_count;
        while next > 0
            invariant
                next <= slot_count,
                free_slots@.len() == slot_count - next,
                forall|k: int|
                    0 <= k < free_slots@.len() ==> (#[trigger] free_slots@[k]) as int == slot_count
                        - 1 - k,
            decreases next,
        {
            next = next - 1;
            free_slots.push(next);
        }
        Ok(Self { slot_size, slot_count, free_slots })
    }

    /// Take a slot from the free list: the allocation covers exactly that
    /// slot's bytes. Empty when every slot is in use.
    pub fn allocate(&mut self) -> (r: Option<StreamingAllocation>)
        requires
            old(self).inv(),
        ensures
            final(self).inv(),
            final(self).slot_size == old(self).slot_size,
            final(self).slot_count == old(self).slot_count,
            old(self).free_slots@.len() == 0 ==> r is None && final(self).free_slots@ == old(
                self,
            ).free_slots@,
            old(self).free_slots@.len() > 0 ==> {
                &&& final(self).free_slots@ == old(self).free_slots@.drop_last()
                &&& r == Some(
                    StreamingAllocation {
                        offset: (old(self).free_slots@.last() * old(self).slot_size as int) as u64,
                        size: old(self).slot_size,
                        slot_index: old(self).free_slots@.last(),
                    },
                )
            },
    {
        match self.free_slots.pop() {
            Some(slot_index) => {
                proof {
                    vstd::arithmetic::mul::lemma_mul_inequality(
                        slot_index as int + 1,
                        self.slot_count as int,
                        self.slot_size as int,
                    );
                    vstd::arithmetic::mul::lemma_mul_is_distributive_add_other_way(
                        self.slot_size as int,
                        slot_index as int,
                        1,
                    );
                }
                Some(
                    StreamingAllocation {
                        offset: (slot_index as u64) * self.slot_size,
                        size: self.slot_size,
                        slot_index,
                    },
                )
            },
            None => None,
        }
    }

    /// The absolute byte offset for a write of `len` bytes at
    /// `offset_in_alloc` within the allocation — refused if the write would
    /// exceed the allocation's bounds.
    pub fn write_offset(
        &self,
        alloc: &StreamingAllocation,
        offset_in_alloc: u64,
        len: u64,
    ) -> (r: Result<u64, StreamingError>)
        requires
            self.inv(),
            alloc.slot_index < self.slot_count,
            alloc.size == self.slot_size,
            alloc.offset as int == alloc.slot_index as int * self.slot_size as int,
        ensures
            offset_in_alloc + len <= alloc.size ==> r == Ok::<u64, StreamingError>(
                (alloc.offset + offset_in_alloc) as u64,
            ),
            offset_in_alloc + len > alloc.size ==> r == Err::<u64, StreamingError>(
                StreamingError::OutOfBounds,
            ),
    {
        if offset_in_alloc > alloc.size || len > alloc.size - offset_in_alloc {
            return Err(StreamingError::OutOfBounds);
        }
        proof {
            vstd::arithmetic::mul::lemma_mul_inequality(
                alloc.slot_index as int + 1,
                self.slot_count as int,
                self.slot_size as int,
            );
            vstd::arithmetic::mul::lemma_mul_is_distributive_add_other_way(
                self.slot_size as int,
                alloc.slot_index as int,
                1,
            );
        }
        Ok(alloc.offset + offset_in_alloc)
    }

    /// Consume an allocation: the returned region copies `size` bytes from
    /// the slot into the destination offset, and the slot returns to the
    /// free list. Refused if the copy exceeds the allocation.
    pub fn move_to(
        &mut self,
        alloc: StreamingAllocation,
        dst_offset: u64,
        size: u64,
    ) -> (r: Result<BufferCopyRegion, StreamingError>)
        requires
            old(self).inv(),
            alloc.slot_index < old(self).slot_count,
        ensures
            final(self).inv(),
            final(self).slot_size == old(self).slot_size,
            final(self).slot_count == old(self).slot_count,
            size > alloc.size ==> r == Err::<BufferCopyRegion, StreamingError>(
                StreamingError::OutOfBounds,
            ) && final(self).free_slots@ == old(self).free_slots@,
            size <= alloc.size ==> {
                &&& r == Ok::<BufferCopyRegion, StreamingError>(
                    BufferCopyRegion { src_offset: alloc.offset, dst_offset, size },
                )
                &&& final(self).free_slots@ == old(self).free_slots@.push(alloc.slot_index)
            },
    {
        if size > alloc.size {
            return Err(StreamingError::OutOfBounds);
        }
        let region = BufferCopyRegion { src_offset: alloc.offset, dst_offset, size };
        self.free(alloc);
        Ok(region)
    }

    /// Return an allocation's slot to the free list without copying.
    pub fn free(&mut self, alloc: StreamingAllocation)
        requires
            old(self).inv(),
            alloc.slot_index < old(self).slot_count,
        ensures
            final(self).inv(),
            final(self).slot_size == old(self).slot_size,
            final(self).slot_count == old(self).slot_count,
            final(self).free_slots@ == old(self).free_slots@.push(alloc.slot_index),
    {
        self.free_slots.push(alloc.slot_index);
    }

    /// How many slots are free.
    pub fn free_slot_count(&self) -> (r: usize)
        ensures
            r == self.free_slots@.len(),
    {
        self.free_slots.len()
    }

    /// How many slots the buffer holds in total.
    pub fn total_slot_count(&self) -> (r: usize)
        ensures
            r == self.slot_count,
    {
        self.slot_count
    }
}

} // verus!
