use kernel_core::memory::physical::buddy_allocator::buddy_allocator::BuddyAllocator;
use kernel_core::memory::physical::fixed_block_allocator::FixedBlockAllocator;
use kernel_core::memory::physical::{AllocatorError, PhysicalMemoryBlock};

const MIB: usize = 1024 * 1024;

fn ready() -> FixedBlockAllocator {
    let mut slab = FixedBlockAllocator::new();
    slab.init(BuddyAllocator::new(0x1_000_000, 16 * MIB));
    slab
}

#[test]
fn small_chunks_come_in_address_order_and_are_reused() {
    let mut slab = ready();
    let first = slab.allocate(10).unwrap();
    assert_eq!(first.size, 16);
    let second = slab.allocate(10).unwrap();
    assert_eq!(second.base_address, first.base_address + 16);
    assert_eq!(second.size, 16);
    let address = first.base_address;
    slab.free(first).unwrap();
    let again = slab.allocate(10).unwrap();
    assert_eq!(again.base_address, address);
}

#[test]
fn chunks_are_cut_from_the_buddy_allocators_page() {
    let mut slab = ready();
    let first = slab.allocate(1024).unwrap();
    // the one free page of the buddy allocator is the last below the pair bits
    assert_eq!(first.base_address, 0x1_000_000 + 16 * MIB - 8 * 1024);
    assert_eq!(first.size, 1024);
    for k in 1..4 {
        assert_eq!(slab.allocate(1000).unwrap().base_address, first.base_address + k * 1024);
    }
    // the page is used up: the next chunk comes from a new page
    let next = slab.allocate(1024).unwrap();
    assert_eq!(next.base_address % 4096, 0);
    assert!(next.base_address != first.base_address);
}

#[test]
fn every_class_rounds_up() {
    let mut slab = ready();
    let expected = [(1, 8), (8, 8), (9, 16), (17, 32), (33, 64), (65, 128), (129, 256), (
        257,
        512,
    ), (513, 1024)];
    for (size, chunk) in expected {
        assert_eq!(slab.allocate(size).unwrap().size, chunk);
    }
}

#[test]
fn large_requests_go_to_the_buddy_allocator() {
    let mut slab = ready();
    let block = slab.allocate(1025).unwrap();
    assert_eq!(block.size, 4096);
    let large = slab.allocate(MIB).unwrap();
    assert_eq!(large.size, MIB);
    slab.free(large).unwrap();
    slab.free(block).unwrap();
    assert_eq!(slab.allocate(3 * MIB).unwrap_err(), AllocatorError::UnsupportedSize);
}

#[test]
fn uninitialized_allocator_reports_it() {
    let mut slab = FixedBlockAllocator::new();
    assert_eq!(slab.allocate(10).unwrap_err(), AllocatorError::UninitializedAllocator);
    assert_eq!(slab.allocate(4096).unwrap_err(), AllocatorError::UninitializedAllocator);
    let block = PhysicalMemoryBlock { base_address: 0x2000, size: 4096 };
    assert_eq!(slab.free(block).unwrap_err(), AllocatorError::UninitializedAllocator);
    // a chunk is taken back without the buddy allocator
    slab.free(PhysicalMemoryBlock { base_address: 0x3000, size: 64 }).unwrap();
    assert_eq!(slab.allocate(64).unwrap().base_address, 0x3000);
}

#[test]
fn alignment_counts_as_size() {
    let mut slab = ready();
    let first = slab.allocate_layout(10, 64).unwrap();
    assert_eq!(first % 64, 0);
    assert_eq!(slab.allocate_layout(10, 64).unwrap(), first + 64);
    assert_eq!(slab.allocate_layout(100, 8).unwrap() % 128, 0);
    slab.free_layout(first, 10, 64).unwrap();
    assert_eq!(slab.allocate_layout(64, 1).unwrap(), first);
    assert_eq!(
        FixedBlockAllocator::new().allocate_layout(10, 8),
        Err(AllocatorError::UninitializedAllocator)
    );
    assert_eq!(slab.allocate_layout(3 * MIB, 8), Err(AllocatorError::UnsupportedSize));
}

#[test]
fn out_of_memory_is_passed_on() {
    let mut slab = FixedBlockAllocator::new();
    slab.init(BuddyAllocator::new(0, 0));
    assert_eq!(slab.allocate(10).unwrap_err(), AllocatorError::OutOfMemory);
}
