use super::bitmap::BitMap;
use crate::memory::physical::inline_free_list::InlineFreeList;
use vstd::prelude::*;

verus! {

/// The number of the pair of buddies that the block at `block_addr` belongs
/// to, among blocks of `block_size` bytes counted from `base_addr`.
pub open spec fn buddy_bitmap_index(base_addr: int, block_addr: int, block_size: int) -> int {
    ((block_addr - base_addr) / block_size) / 2
}

/// One size class of the buddy system: the free blocks of that size and one
/// bit for each pair of buddies.
pub struct MemoryArea {
    pub free_list: InlineFreeList<()>,
    pub bitmap: BitMap,
    pub block_size: usize,
    pub merge_buddies: bool,
}

impl MemoryArea {
    /// Takes the head of the free list, inverts the bit of its pair and
    /// returns its address; `None`, and no change, when the list is empty.
    pub fn allocate_block(&mut self, base_addr: usize) -> (block: Option<usize>)
        requires
            old(self).block_size > 0,
            old(self).free_list@.len() > 0 ==> old(self).free_list@[0] >= base_addr
                && buddy_bitmap_index(
                base_addr as int,
                old(self).free_list@[0] as int,
                old(self).block_size as int,
            ) < old(self).bitmap@.len(),
        ensures
            final(self).block_size == old(self).block_size,
            final(self).merge_buddies == old(self).merge_buddies,
            old(self).free_list@.len() == 0 ==> block.is_none() && final(self).free_list@ == old(self).free_list@ && final(self).bitmap@ == old(self).bitmap@,
            old(self).free_list@.len() > 0 ==> block == Some(old(self).free_list@[0]) && final(self).free_list@ == old(self).free_list@.remove(0) && final(self).bitmap@ == ({
                let pair = buddy_bitmap_index(
                    base_addr as int,
                    old(self).free_list@[0] as int,
                    old(self).block_size as int,
                );
                old(self).bitmap@.update(pair, !old(self).bitmap@[pair])
            }),
    {
        match self.free_list.pop_head() {
            Some(start_address) => {
                let buddy_index = self.get_buddy_bitmap_index(base_addr, start_address);
                // the bit is set exactly while one block of the pair is free
                match self.bitmap.get_bit(buddy_index) {
                    Some(current_bitmap_status) => {
                        let _ = self.bitmap.set_bit(buddy_index, !current_bitmap_status);
                    },
                    None => {},
                }
                Some(start_address)
            },
            None => None,
        }
    }

    fn get_buddy_bitmap_index(&self, base_addr: usize, block_addr: usize) -> (index: usize)
        requires
            self.block_size > 0,
            block_addr >= base_addr,
        ensures
            index == buddy_bitmap_index(base_addr as int, block_addr as int, self.block_size as int),
    {
        ((block_addr - base_addr) / self.block_size) / 2
    }

    /// Gives the block at `freed_memory` back to this class and inverts the
    /// bit of its pair. Where the bit was set and this class merges buddies,
    /// the buddy leaves the free list, so that the caller can free the two as
    /// one block of the next class; otherwise the block goes to the head of
    /// the free list. Returns the bit as it was, or `None`, with nothing
    /// changed, when the pair has no bit.
    pub fn free_block(&mut self, freed_memory: usize, alloc_base_addr: usize) -> (merged: Option<
        bool,
    >)
        requires
            old(self).block_size > 0,
            freed_memory >= alloc_base_addr,
            ({
                let pair = buddy_bitmap_index(
                    alloc_base_addr as int,
                    freed_memory as int,
                    old(self).block_size as int,
                );
                old(self).merge_buddies && pair < old(self).bitmap@.len() && old(self).bitmap@[pair]
                    ==> old(self).free_list@.contains(freed_memory ^ old(self).block_size)
            }),
        ensures
            final(self).block_size == old(self).block_size,
            final(self).merge_buddies == old(self).merge_buddies,
            ({
                let pair = buddy_bitmap_index(
                    alloc_base_addr as int,
                    freed_memory as int,
                    old(self).block_size as int,
                );
                if pair < old(self).bitmap@.len() {
                    &&& merged == Some(old(self).bitmap@[pair])
                    &&& final(self).bitmap@ == old(self).bitmap@.update(pair, !old(self).bitmap@[pair])
                    &&& final(self).free_list@ == if old(self).merge_buddies && old(self).bitmap@[pair] {
                        old(self).free_list@.remove_value(freed_memory ^ old(self).block_size)
                    } else {
                        old(self).free_list@.insert(0, freed_memory)
                    }
                } else {
                    &&& merged.is_none()
                    &&& final(self).bitmap@ == old(self).bitmap@
                    &&& final(self).free_list@ == old(self).free_list@
                }
            }),
    {
        let buddy_addr = freed_memory ^ self.block_size;
        let buddy_index = self.get_buddy_bitmap_index(alloc_base_addr, freed_memory);
        let current_bitmap_status = match self.bitmap.get_bit(buddy_index) {
            Some(status) => status,
            None => {
                return None;
            },
        };
        let _ = self.bitmap.set_bit(buddy_index, !current_bitmap_status);

        // two free buddies leave this class as one block of the next
        if self.merge_buddies && current_bitmap_status {
            self.free_list.pop_at_address(buddy_addr);
        } else {
            self.free_list.push_head(freed_memory, ());
        }
        Some(current_bitmap_status)
    }
}

} // verus!
