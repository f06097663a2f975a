use vstd::prelude::*;

pub mod buddy_allocator;
pub mod fixed_block_allocator;
pub mod inline_free_list;

verus! {

/// An address in physical memory.
pub type PhysicalAddress = usize;

/// A run of physically contiguous bytes: `size` bytes from `base_address` on.
#[derive(Debug)]
pub struct PhysicalMemoryBlock {
    pub base_address: PhysicalAddress,
    pub size: usize,
}

/// Why a request to an allocator of physical memory was turned down.
#[derive(Debug, Clone, Copy, PartialEq, Eq, Structural)]
pub enum AllocatorError {
    OutOfMemory,
    UnsupportedSize,
    FreeOutOfBounds,
    UninitializedAllocator,
}

/// Something that hands out blocks of physical memory and takes them back.
pub trait PhysicalMemoryAllocator {
    /// The allocator is in order.
    spec fn valid(&self) -> bool;

    /// The block may be given back: it came from this allocator and is
    /// still out.
    spec fn may_free(&self, block: PhysicalMemoryBlock) -> bool;

    /// What a request for `size` bytes comes to: `result` is what the
    /// request returns, the block handed out or the error, and `after` is
    /// the allocator once the request is answered.
    spec fn hands_out(
        &self,
        size: usize,
        result: Result<PhysicalMemoryBlock, AllocatorError>,
        after: &Self,
    ) -> bool;

    /// What giving `block` back comes to: `result` says whether the block
    /// was taken, and `after` is the allocator once it is answered.
    spec fn takes_back(
        &self,
        block: PhysicalMemoryBlock,
        result: Result<(), AllocatorError>,
        after: &Self,
    ) -> bool;

    /// Hands out a block of at least `size` bytes, or says why not.
    fn allocate(&mut self, size: usize) -> (result: Result<PhysicalMemoryBlock, AllocatorError>)
        requires
            old(self).valid(),
        ensures
            final(self).valid(),
            old(self).hands_out(size, result, final(self)),
            result matches Ok(block) ==> block.size >= size,
    ;

    /// Takes a block back, or says why not.
    fn free(&mut self, physical_memory_block: PhysicalMemoryBlock) -> (result: Result<
        (),
        AllocatorError,
    >)
        requires
            old(self).valid(),
            old(self).may_free(physical_memory_block),
        ensures
            final(self).valid(),
            old(self).takes_back(physical_memory_block, result, final(self)),
    ;
}

} // verus!
