use super::buddy_allocator::buddy_allocator::{taken_address, BuddyAllocator};
use super::buddy_allocator::free_space::{block_fits, lemma_block_size};
use super::inline_free_list::InlineFreeList;
use super::{AllocatorError, PhysicalMemoryAllocator, PhysicalMemoryBlock};
use vstd::prelude::*;

verus! {

/// The chunk sizes in bytes, each twice the one before it.
pub const CHUNK_SIZES: [usize; 8] = [8, 16, 32, 64, 128, 256, 512, 1024];

/// The size of the largest chunk, in bytes.
pub const LARGEST_CHUNK_SIZE: usize = 1024;

/// The class whose chunks are the smallest that hold `size` bytes; 8 for a
/// size that no chunk holds.
pub open spec fn chunk_class(size: int) -> int {
    if size <= 8 {
        0
    } else if size <= 16 {
        1
    } else if size <= 32 {
        2
    } else if size <= 64 {
        3
    } else if size <= 128 {
        4
    } else if size <= 256 {
        5
    } else if size <= 512 {
        6
    } else if size <= 1024 {
        7
    } else {
        8
    }
}

/// The chunks that a block of 4096 bytes at `base` is cut into for class
/// `class`, lowest address first.
pub open spec fn carved(base: int, class: int) -> Seq<usize> {
    Seq::new(
        (4096int / CHUNK_SIZES[class] as int) as nat,
        |k: int| (base + k * CHUNK_SIZES[class]) as usize,
    )
}

/// What is known of every class: a block of 4096 bytes is cut into chunks
/// without a rest.
pub proof fn lemma_chunk_size(class: int)
    requires
        0 <= class < 8,
    ensures
        8 <= CHUNK_SIZES[class] <= LARGEST_CHUNK_SIZE,
        (4096int / CHUNK_SIZES[class] as int) * CHUNK_SIZES[class] == 4096,
        4096int / CHUNK_SIZES[class] as int >= 4,
        carved(0, class).len() >= 4,
{
    let cs = CHUNK_SIZES[class] as int;
    if class == 0 {
        assert(CHUNK_SIZES[0] == 8 && 4096int / 8 == 512);
        assert((4096int / cs) * cs == 4096) by (nonlinear_arith)
            requires
                cs == 8,
        ;
    } else if class == 1 {
        assert(CHUNK_SIZES[1] == 16 && 4096int / 16 == 256);
        assert((4096int / cs) * cs == 4096) by (nonlinear_arith)
            requires
                cs == 16,
        ;
    } else if class == 2 {
        assert(CHUNK_SIZES[2] == 32 && 4096int / 32 == 128);
        assert((4096int / cs) * cs == 4096) by (nonlinear_arith)
            requires
                cs == 32,
        ;
    } else if class == 3 {
        assert(CHUNK_SIZES[3] == 64 && 4096int / 64 == 64);
        assert((4096int / cs) * cs == 4096) by (nonlinear_arith)
            requires
                cs == 64,
        ;
    } else if class == 4 {
        assert(CHUNK_SIZES[4] == 128 && 4096int / 128 == 32);
        assert((4096int / cs) * cs == 4096) by (nonlinear_arith)
            requires
                cs == 128,
        ;
    } else if class == 5 {
        assert(CHUNK_SIZES[5] == 256 && 4096int / 256 == 16);
        assert((4096int / cs) * cs == 4096) by (nonlinear_arith)
            requires
                cs == 256,
        ;
    } else if class == 6 {
        assert(CHUNK_SIZES[6] == 512 && 4096int / 512 == 8);
        assert((4096int / cs) * cs == 4096) by (nonlinear_arith)
            requires
                cs == 512,
        ;
    } else {
        assert(CHUNK_SIZES[7] == 1024 && 4096int / 1024 == 4);
        assert((4096int / cs) * cs == 4096) by (nonlinear_arith)
            requires
                cs == 1024,
        ;
    }
}

/// An allocator of small chunks of eight sizes, from 8 to 1024 bytes, that
/// cuts its chunks out of the smallest blocks of a buddy allocator and hands
/// larger requests on to it.
pub struct FixedBlockAllocator {
    free_lists: [InlineFreeList<()>; 8],
    buddy_allocator: Option<BuddyAllocator>,
}

impl FixedBlockAllocator {
    /// The free chunks of the eight classes, each list head first.
    pub closed spec fn chunk_lists(&self) -> Seq<Seq<usize>> {
        Seq::new(8, |i: int| self.free_lists[i]@)
    }

    /// The buddy allocator behind this one, once it is installed.
    pub closed spec fn buddy(&self) -> Option<BuddyAllocator> {
        self.buddy_allocator
    }

    /// The allocator is in order: it has its eight lists, and the buddy
    /// allocator behind it, if any, is in order.
    pub open spec fn wf(&self) -> bool {
        &&& self.chunk_lists().len() == 8
        &&& self.buddy() matches Some(buddy) ==> buddy.wf()
    }

    /// An allocator without chunks and without a buddy allocator.
    pub fn new() -> (allocator: Self)
        ensures
            allocator.buddy().is_none(),
            allocator.chunk_lists() == Seq::new(8, |i: int| Seq::<usize>::empty()),
            allocator.wf(),
    {
        let allocator = FixedBlockAllocator {
            free_lists: [
                InlineFreeList::new(),
                InlineFreeList::new(),
                InlineFreeList::new(),
                InlineFreeList::new(),
                InlineFreeList::new(),
                InlineFreeList::new(),
                InlineFreeList::new(),
                InlineFreeList::new(),
            ],
            buddy_allocator: None,
        };
        assert(allocator.chunk_lists() =~= Seq::new(8, |i: int| Seq::<usize>::empty()));
        allocator
    }

    /// Installs the buddy allocator from which chunks and large blocks come.
    pub fn init(&mut self, buddy_allocator: BuddyAllocator)
        requires
            buddy_allocator.wf(),
        ensures
            final(self).buddy() == Some(buddy_allocator),
            final(self).chunk_lists() == old(self).chunk_lists(),
            final(self).wf(),
    {
        self.buddy_allocator = Some(buddy_allocator);
        assert(self.chunk_lists() =~= old(self).chunk_lists());
    }

    fn get_free_list_index(required_size: usize) -> (index: Option<usize>)
        ensures
            required_size > LARGEST_CHUNK_SIZE ==> index.is_none(),
            required_size <= LARGEST_CHUNK_SIZE ==> index == Some(
                chunk_class(required_size as int) as usize,
            ),
    {
        let mut index: usize = 0;
        while index < 8
            invariant
                index <= 8,
                forall|i: int| 0 <= i < index ==> CHUNK_SIZES[i] < required_size,
            decreases 8 - index,
        {
            if CHUNK_SIZES[index] >= required_size {
                proof {
                    if index > 0 {
                        assert(CHUNK_SIZES[index - 1] < required_size);
                    }
                }
                return Some(index);
            }
            index = index + 1;
        }
        assert(CHUNK_SIZES[7] < required_size);
        None
    }

    /// What `grow_free_list` leaves for class `class`: `after` and `result`,
    /// given this allocator. Without a buddy allocator, or when that has no
    /// block to give, nothing changes and the error is returned; else the
    /// block's chunks stand in front of the class's list, lowest address
    /// first.
    pub open spec fn growth(&self, class: int, result: Result<(), AllocatorError>, after: Self) -> bool {
        match self.buddy() {
            None => result == Err::<(), AllocatorError>(AllocatorError::UninitializedAllocator)
                && after == *self,
            Some(buddy) => if buddy.can_allocate(4096) {
                let chunk = PhysicalMemoryBlock {
                    base_address: taken_address(buddy.free_lists(), 0) as usize,
                    size: 4096,
                };
                &&& result.is_ok()
                &&& after.buddy() matches Some(shrunk) && buddy.allocation(4096, chunk, shrunk)
                &&& after.chunk_lists() == self.chunk_lists().update(
                    class,
                    carved(chunk.base_address as int, class) + self.chunk_lists()[class],
                )
            } else {
                result == Err::<(), AllocatorError>(buddy.allocate_error(4096)) && after == *self
            },
        }
    }

    /// Takes one of the buddy allocator's smallest blocks and puts its
    /// chunks of class `block_index` on that class's list.
    fn grow_free_list(&mut self, block_index: usize) -> (result: Result<(), AllocatorError>)
        requires
            old(self).wf(),
            block_index < 8,
        ensures
            final(self).wf(),
            old(self).growth(block_index as int, result, *final(self)),
    {
        let new_chunk = match &mut self.buddy_allocator {
            Some(inner_allocator) => {
                let smallest = inner_allocator.smallest_block_size();
                match inner_allocator.allocate(smallest) {
                    Ok(new_chunk) => new_chunk,
                    Err(error) => {
                        return Err(error);
                    },
                }
            },
            None => {
                return Err(AllocatorError::UninitializedAllocator);
            },
        };
        let free_list_block_size = CHUNK_SIZES[block_index];
        let chunk_count = new_chunk.size / free_list_block_size;
        let ghost class = block_index as int;
        let ghost chunks = carved(new_chunk.base_address as int, class);
        let ghost before = old(self).chunk_lists();
        let ghost shrunk = self.buddy_allocator;
        proof {
            lemma_block_size(0);
            lemma_chunk_size(class);
            old(self).buddy().unwrap().lemma_region_fits();
            assert(self.chunk_lists() =~= before);
            assert(chunks.subrange(chunk_count as int, chunk_count as int) + before[class]
                =~= before[class]);
            assert(chunk_count * free_list_block_size == 4096);
        }
        // the chunk at the lowest address goes in last and so is handed out first
        let mut remaining = chunk_count;
        while remaining > 0
            invariant
                remaining <= chunk_count,
                block_index < 8,
                class == block_index,
                free_list_block_size == CHUNK_SIZES[class],
                chunk_count == 4096int / free_list_block_size as int,
                chunk_count * free_list_block_size == 4096,
                chunks == carved(new_chunk.base_address as int, class),
                new_chunk.base_address + 4096 <= usize::MAX,
                self.buddy_allocator == shrunk,
                self.chunk_lists() == before.update(
                    class,
                    chunks.subrange(remaining as int, chunk_count as int) + before[class],
                ),
                before.len() == 8,
            decreases remaining,
        {
            remaining -= 1;
            assert(remaining * free_list_block_size <= (chunk_count - 1) * free_list_block_size)
                by (nonlinear_arith)
                requires
                    remaining <= chunk_count - 1,
                    free_list_block_size >= 0,
            ;
            assert((chunk_count - 1) * free_list_block_size == 4096 - free_list_block_size)
                by (nonlinear_arith)
                requires
                    chunk_count * free_list_block_size == 4096,
            ;
            let ghost listed = self.chunk_lists();
            self.free_lists[block_index].push_head(
                new_chunk.base_address + remaining * free_list_block_size,
                (),
            );
            proof {
                assert(chunks[remaining as int] == new_chunk.base_address + remaining
                    * free_list_block_size);
                assert(chunks.subrange(remaining as int, chunk_count as int) + before[class]
                    =~= (chunks.subrange(remaining + 1, chunk_count as int) + before[class]).insert(
                    0,
                    chunks[remaining as int],
                ));
                assert(self.chunk_lists()[class] == listed[class].insert(
                    0,
                    chunks[remaining as int],
                ));
                assert(listed[class] == chunks.subrange(remaining + 1, chunk_count as int)
                    + before[class]);
                assert forall|i: int| 0 <= i < 8 && i != class implies self.chunk_lists()[i]
                    == before[i] by {
                    assert(self.chunk_lists()[i] == listed[i]);
                }
                assert(self.chunk_lists() =~= before.update(
                    class,
                    chunks.subrange(remaining as int, chunk_count as int) + before[class],
                ));
            }
        }
        proof {
            assert(chunks.subrange(0, chunk_count as int) =~= chunks);
        }
        Ok(())
    }

    /// What `allocate` leaves: `after` and `result`, given this allocator. A
    /// request that a chunk holds is served with the head of its class's
    /// list, after the list was grown if it was empty; a larger one goes to
    /// the buddy allocator.
    pub open spec fn allocation(
        &self,
        size: usize,
        result: Result<PhysicalMemoryBlock, AllocatorError>,
        after: Self,
    ) -> bool {
        let class = chunk_class(size as int);
        if class < 8 {
            if self.chunk_lists()[class].len() > 0 {
                &&& result == Ok::<PhysicalMemoryBlock, AllocatorError>(
                    PhysicalMemoryBlock {
                        base_address: self.chunk_lists()[class][0],
                        size: CHUNK_SIZES[class],
                    },
                )
                &&& after.chunk_lists() == self.chunk_lists().update(
                    class,
                    self.chunk_lists()[class].remove(0),
                )
                &&& after.buddy() == self.buddy()
            } else {
                match self.buddy() {
                    None => result == Err::<PhysicalMemoryBlock, AllocatorError>(
                        AllocatorError::UninitializedAllocator,
                    ) && after == *self,
                    Some(buddy) => if buddy.can_allocate(4096) {
                        let chunk = PhysicalMemoryBlock {
                            base_address: taken_address(buddy.free_lists(), 0) as usize,
                            size: 4096,
                        };
                        &&& result == Ok::<PhysicalMemoryBlock, AllocatorError>(
                            PhysicalMemoryBlock {
                                base_address: chunk.base_address,
                                size: CHUNK_SIZES[class],
                            },
                        )
                        &&& after.buddy() matches Some(shrunk) && buddy.allocation(
                            4096,
                            chunk,
                            shrunk,
                        )
                        &&& after.chunk_lists() == self.chunk_lists().update(
                            class,
                            carved(chunk.base_address as int, class).remove(0),
                        )
                    } else {
                        result == Err::<PhysicalMemoryBlock, AllocatorError>(
                            buddy.allocate_error(4096),
                        ) && after == *self
                    },
                }
            }
        } else {
            match self.buddy() {
                None => result == Err::<PhysicalMemoryBlock, AllocatorError>(
                    AllocatorError::UninitializedAllocator,
                ) && after == *self,
                Some(buddy) => match result {
                    Ok(block) => {
                        &&& buddy.can_allocate(size)
                        &&& after.buddy() matches Some(shrunk) && buddy.allocation(
                            size,
                            block,
                            shrunk,
                        )
                        &&& after.chunk_lists() == self.chunk_lists()
                    },
                    Err(error) => !buddy.can_allocate(size) && error == buddy.allocate_error(size)
                        && after == *self,
                },
            }
        }
    }

    /// Hands out a chunk of the smallest class that holds `size` bytes, or,
    /// for a size that no chunk holds, a block of the buddy allocator. Fails
    /// with `UninitializedAllocator` where the buddy allocator is needed and
    /// not installed, and with the buddy allocator's error where that fails.
    pub fn allocate(&mut self, size: usize) -> (result: Result<PhysicalMemoryBlock, AllocatorError>)
        requires
            old(self).wf(),
        ensures
            final(self).wf(),
            old(self).allocation(size, result, *final(self)),
    {
        match Self::get_free_list_index(size) {
            Some(index) => {
                let ghost before = old(self).chunk_lists();
                if self.free_lists[index].len() == 0 {
                    match self.grow_free_list(index) {
                        Ok(()) => {},
                        Err(error) => {
                            return Err(error);
                        },
                    }
                    proof {
                        let chunks = carved(
                            taken_address(old(self).buddy().unwrap().free_lists(), 0),
                            index as int,
                        );
                        lemma_chunk_size(index as int);
                        assert(chunks.len() > 0);
                        assert(chunks + before[index as int] =~= chunks);
                    }
                }
                let ghost stocked = self.chunk_lists();
                proof {
                    assert(stocked[index as int] == self.free_lists[index as int]@);
                    assert(stocked[index as int].len() > 0);
                }
                let adder = match self.free_lists[index].pop_head() {
                    Some(result) => result,
                    None => {
                        return Err(AllocatorError::OutOfMemory);
                    },
                };
                proof {
                    assert(self.chunk_lists() =~= stocked.update(
                        index as int,
                        stocked[index as int].remove(0),
                    ));
                    if before[index as int].len() == 0 {
                        let base = taken_address(old(self).buddy().unwrap().free_lists(), 0);
                        let chunks = carved(base, index as int);
                        old(self).buddy().unwrap().lemma_taken_address_fits(0);
                        assert(before.update(index as int, chunks).update(
                            index as int,
                            chunks.remove(0),
                        ) =~= before.update(index as int, chunks.remove(0)));
                        assert(chunks[0] == (base + 0 * CHUNK_SIZES[index as int]) as usize);
                        assert(0 * CHUNK_SIZES[index as int] == 0);
                    }
                }
                Ok(PhysicalMemoryBlock { base_address: adder, size: CHUNK_SIZES[index] })
            },
            None => match &mut self.buddy_allocator {
                Some(buddy_allocator) => buddy_allocator.allocate(size),
                None => Err(AllocatorError::UninitializedAllocator),
            },
        }
    }

    /// What `free` leaves: `after` and `result`, given this allocator. A
    /// block of a size that a chunk holds goes to the head of its class's
    /// list; a larger one goes back to the buddy allocator.
    pub open spec fn release(
        &self,
        block: PhysicalMemoryBlock,
        result: Result<(), AllocatorError>,
        after: Self,
    ) -> bool {
        let class = chunk_class(block.size as int);
        if class < 8 {
            &&& result.is_ok()
            &&& after.chunk_lists() == self.chunk_lists().update(
                class,
                self.chunk_lists()[class].insert(0, block.base_address),
            )
            &&& after.buddy() == self.buddy()
        } else {
            match self.buddy() {
                None => result == Err::<(), AllocatorError>(AllocatorError::UninitializedAllocator)
                    && after == *self,
                Some(buddy) => match result {
                    Ok(()) => {
                        &&& buddy.can_free(block)
                        &&& after.buddy() matches Some(grown) && buddy.release(block, grown)
                        &&& after.chunk_lists() == self.chunk_lists()
                    },
                    Err(error) => !buddy.can_free(block) && error == buddy.free_error(block)
                        && after == *self,
                },
            }
        }
    }

    /// A block larger than any chunk that the buddy allocator would take
    /// back is one that it handed out and that is still out.
    pub open spec fn may_free(&self, block: PhysicalMemoryBlock) -> bool {
        block.size > LARGEST_CHUNK_SIZE ==> (self.buddy() matches Some(buddy) ==> (buddy.can_free(
            block,
        ) ==> buddy.holds(block)))
    }

    /// Takes a chunk or a block back. Fails with `UninitializedAllocator`
    /// where the buddy allocator is needed and not installed, and with the
    /// buddy allocator's error where that fails.
    pub fn free(&mut self, block_to_free: PhysicalMemoryBlock) -> (result: Result<
        (),
        AllocatorError,
    >)
        requires
            old(self).wf(),
            old(self).may_free(block_to_free),
        ensures
            final(self).wf(),
            old(self).release(block_to_free, result, *final(self)),
    {
        match Self::get_free_list_index(block_to_free.size) {
            Some(index) => {
                self.free_lists[index].push_head(block_to_free.base_address, ());
                assert(self.chunk_lists() =~= old(self).chunk_lists().update(
                    index as int,
                    old(self).chunk_lists()[index as int].insert(0, block_to_free.base_address),
                ));
                Ok(())
            },
            None => match &mut self.buddy_allocator {
                Some(buddy_allocator) => buddy_allocator.free(block_to_free),
                None => Err(AllocatorError::UninitializedAllocator),
            },
        }
    }
}

/// The larger of a size and an alignment: what is asked of the allocator
/// for memory of that size and alignment, since every chunk and block
/// starts at a multiple of its own size.
pub open spec fn layout_size(size: usize, align: usize) -> usize {
    if size >= align {
        size
    } else {
        align
    }
}

impl FixedBlockAllocator {
    /// The address of memory for `size` bytes at a multiple of `align`:
    /// what `allocate` returns for the larger of the two.
    pub fn allocate_layout(&mut self, size: usize, align: usize) -> (address: Result<
        usize,
        AllocatorError,
    >)
        requires
            old(self).wf(),
        ensures
            final(self).wf(),
            match address {
                Ok(address) => exists|block: PhysicalMemoryBlock|
                    #[trigger] old(self).allocation(
                        layout_size(size, align),
                        Ok::<PhysicalMemoryBlock, AllocatorError>(block),
                        *final(self),
                    ) && block.base_address == address,
                Err(error) => old(self).allocation(
                    layout_size(size, align),
                    Err::<PhysicalMemoryBlock, AllocatorError>(error),
                    *final(self),
                ),
            },
    {
        let wanted = if size >= align {
            size
        } else {
            align
        };
        match self.allocate(wanted) {
            Ok(block) => {
                let address = block.base_address;
                assert(old(self).allocation(
                    layout_size(size, align),
                    Ok::<PhysicalMemoryBlock, AllocatorError>(block),
                    *final(self),
                ) && block.base_address == address);
                Ok(address)
            },
            Err(error) => Err(error),
        }
    }

    /// Takes back the memory at `address` that was handed out for `size`
    /// bytes at a multiple of `align`: what `free` does with the block at
    /// `address` of the larger of the two.
    pub fn free_layout(&mut self, address: usize, size: usize, align: usize) -> (result: Result<
        (),
        AllocatorError,
    >)
        requires
            old(self).wf(),
            old(self).may_free(
                PhysicalMemoryBlock { base_address: address, size: layout_size(size, align) },
            ),
        ensures
            final(self).wf(),
            old(self).release(
                PhysicalMemoryBlock { base_address: address, size: layout_size(size, align) },
                result,
                *final(self),
            ),
    {
        let wanted = if size >= align {
            size
        } else {
            align
        };
        self.free(PhysicalMemoryBlock { base_address: address, size: wanted })
    }
}

impl PhysicalMemoryAllocator for FixedBlockAllocator {
    open spec fn valid(&self) -> bool {
        self.wf()
    }

    open spec fn may_free(&self, block: PhysicalMemoryBlock) -> bool {
        FixedBlockAllocator::may_free(self, block)
    }

    /// A request is answered as `allocation` describes: with a chunk, with
    /// a block of the buddy allocator, or with an error.
    open spec fn hands_out(
        &self,
        size: usize,
        result: Result<PhysicalMemoryBlock, AllocatorError>,
        after: &Self,
    ) -> bool {
        self.allocation(size, result, *after)
    }

    /// A block is taken back as `release` describes: to the list of its
    /// class or to the buddy allocator.
    open spec fn takes_back(
        &self,
        block: PhysicalMemoryBlock,
        result: Result<(), AllocatorError>,
        after: &Self,
    ) -> bool {
        self.release(block, result, *after)
    }

    fn allocate(&mut self, size: usize) -> (result: Result<PhysicalMemoryBlock, AllocatorError>) {
        FixedBlockAllocator::allocate(self, size)
    }

    fn free(&mut self, physical_memory_block: PhysicalMemoryBlock) -> (result: Result<
        (),
        AllocatorError,
    >) {
        FixedBlockAllocator::free(self, physical_memory_block)
    }
}

} // verus!
