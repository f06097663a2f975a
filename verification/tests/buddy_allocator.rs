use kernel_core::memory::physical::buddy_allocator::bitmap::BitMap;
use kernel_core::memory::physical::buddy_allocator::buddy_allocator::BuddyAllocator;
use kernel_core::memory::physical::{AllocatorError, PhysicalMemoryBlock};

const KIB: usize = 1024;
const MIB: usize = 1024 * 1024;

fn sixteen_mib() -> BuddyAllocator {
    BuddyAllocator::new(0x1_000_000, 16 * MIB)
}

#[test]
fn construction_reserves_one_page_for_the_pair_bits() {
    let buddy = sixteen_mib();
    // 512 bytes of pair bits fit in one 4 KiB block at the top
    assert_eq!(buddy.remaining_memory(), 16 * MIB - 4 * KIB);
    assert_eq!(buddy.smallest_block_size(), 4 * KIB);
}

#[test]
fn alloc_free_cycle_returns_the_same_addresses() {
    let mut buddy = sixteen_mib();
    let mut first_round = Vec::new();
    for _ in 0..4 {
        let block = buddy.allocate(MIB).unwrap();
        assert_eq!(block.size, MIB);
        assert_eq!(block.base_address % MIB, 0);
        first_round.push(block.base_address);
    }
    let small = buddy.allocate(1).unwrap();
    assert_eq!(small.size, 4 * KIB);
    first_round.push(small.base_address);

    // no two of the five blocks share a byte
    let sizes = [MIB, MIB, MIB, MIB, 4 * KIB];
    for i in 0..5 {
        for j in 0..5 {
            if i != j {
                let disjoint = first_round[i] + sizes[i] <= first_round[j]
                    || first_round[j] + sizes[j] <= first_round[i];
                assert!(disjoint);
            }
        }
    }

    for i in (0..5).rev() {
        buddy
            .free(PhysicalMemoryBlock { base_address: first_round[i], size: sizes[i] })
            .unwrap();
    }
    assert_eq!(buddy.remaining_memory(), 16 * MIB - 4 * KIB);

    let mut second_round = Vec::new();
    for _ in 0..4 {
        second_round.push(buddy.allocate(MIB).unwrap().base_address);
    }
    second_round.push(buddy.allocate(1).unwrap().base_address);
    assert_eq!(first_round, second_round);
}

#[test]
fn first_blocks_come_from_the_expected_places() {
    let mut buddy = sixteen_mib();
    let base = 0x1_000_000;
    // the one free block of 1 MiB follows the seven blocks of 2 MiB
    assert_eq!(buddy.allocate(MIB).unwrap().base_address, base + 14 * MIB);
    // then the block of 2 MiB that was freed last is split, lower half first
    assert_eq!(buddy.allocate(MIB).unwrap().base_address, base + 12 * MIB);
    assert_eq!(buddy.allocate(MIB).unwrap().base_address, base + 13 * MIB);
    // the one free page is the last below the pair bits
    assert_eq!(buddy.allocate(1).unwrap().base_address, base + 16 * MIB - 8 * KIB);
}

#[test]
fn boundary_sizes() {
    let mut buddy = sixteen_mib();
    let smallest = buddy.allocate(4 * KIB).unwrap();
    assert_eq!(smallest.size, 4 * KIB);
    let largest = buddy.allocate(2 * MIB).unwrap();
    assert_eq!(largest.size, 2 * MIB);
    assert_eq!(largest.base_address % (2 * MIB), 0);
    assert_eq!(buddy.allocate(2 * MIB + 1).unwrap_err(), AllocatorError::UnsupportedSize);
    let one_more = buddy.allocate(4 * KIB + 1).unwrap();
    assert_eq!(one_more.size, 8 * KIB);
}

#[test]
fn allocate_then_free_restores_remaining_memory() {
    let mut buddy = sixteen_mib();
    for size in [1usize, 4 * KIB, 5 * KIB, 64 * KIB, MIB, 2 * MIB] {
        let before = buddy.remaining_memory();
        let block = buddy.allocate(size).unwrap();
        assert_eq!(buddy.remaining_memory(), before - block.size);
        buddy.free(block).unwrap();
        assert_eq!(buddy.remaining_memory(), before);
    }
}

#[test]
fn out_of_memory_when_too_little_is_free() {
    let mut buddy = BuddyAllocator::new(0, 2 * MIB);
    // one page holds the pair bits, so no block of 2 MiB is left
    assert_eq!(buddy.remaining_memory(), 2 * MIB - 4 * KIB);
    assert_eq!(buddy.allocate(2 * MIB).unwrap_err(), AllocatorError::OutOfMemory);
    assert_eq!(buddy.allocate(3 * MIB).unwrap_err(), AllocatorError::OutOfMemory);
    let block = buddy.allocate(MIB).unwrap();
    assert_eq!(block.base_address, 0);
    assert_eq!(buddy.allocate(MIB).unwrap_err(), AllocatorError::OutOfMemory);
}

#[test]
fn out_of_memory_when_no_block_is_large_enough() {
    let mut buddy = BuddyAllocator::new(0, 8 * MIB);
    let mut blocks = Vec::new();
    for _ in 0..7 {
        blocks.push(buddy.allocate(MIB).unwrap());
    }
    let addresses: Vec<usize> = blocks.iter().map(|block| block.base_address).collect();
    assert_eq!(addresses, vec![6 * MIB, 4 * MIB, 5 * MIB, 2 * MIB, 3 * MIB, 0, MIB]);
    assert_eq!(buddy.remaining_memory(), MIB - 4 * KIB);
    // two blocks of 1 MiB that are not buddies go back
    buddy.free(PhysicalMemoryBlock { base_address: 0, size: MIB }).unwrap();
    buddy.free(PhysicalMemoryBlock { base_address: 3 * MIB, size: MIB }).unwrap();
    assert_eq!(buddy.remaining_memory(), 3 * MIB - 4 * KIB);
    // enough bytes are free, but no block of 2 MiB is
    assert_eq!(buddy.allocate(2 * MIB).unwrap_err(), AllocatorError::OutOfMemory);
    // the buddy of the block at 0 goes back: the two merge
    buddy.free(PhysicalMemoryBlock { base_address: MIB, size: MIB }).unwrap();
    assert_eq!(buddy.allocate(2 * MIB).unwrap().base_address, 0);
}

#[test]
fn free_rejects_what_it_does_not_manage() {
    let mut buddy = sixteen_mib();
    let below = PhysicalMemoryBlock { base_address: 0x1_000_000 - 4 * KIB, size: 4 * KIB };
    assert_eq!(buddy.free(below).unwrap_err(), AllocatorError::FreeOutOfBounds);
    let above = PhysicalMemoryBlock { base_address: 0x1_000_000 + 16 * MIB, size: 4 * KIB };
    assert_eq!(buddy.free(above).unwrap_err(), AllocatorError::FreeOutOfBounds);
    let block = buddy.allocate(4 * KIB).unwrap();
    let too_large = PhysicalMemoryBlock { base_address: block.base_address, size: 2 * MIB + 1 };
    assert_eq!(buddy.free(too_large).unwrap_err(), AllocatorError::UnsupportedSize);
    assert_eq!(buddy.remaining_memory(), 16 * MIB - 8 * KIB);
}

#[test]
fn unaligned_base_loses_only_the_prefix() {
    let base = 0x1_000_000 + 0x1000;
    let buddy = BuddyAllocator::new(base, 16 * MIB);
    // the managed region starts at the next multiple of 2 MiB
    let prefix = 2 * MIB - 0x1000;
    assert_eq!(buddy.remaining_memory(), 16 * MIB - prefix - 4 * KIB);
    let mut buddy = buddy;
    let block = buddy.allocate(2 * MIB).unwrap();
    assert_eq!(block.base_address % (2 * MIB), 0);
    assert!(block.base_address >= 0x1_200_000);
}

#[test]
fn region_too_small_for_alignment_is_empty() {
    let mut buddy = BuddyAllocator::new(0x1000, 8 * KIB);
    assert_eq!(buddy.remaining_memory(), 0);
    assert_eq!(buddy.allocate(1).unwrap_err(), AllocatorError::OutOfMemory);
}

#[test]
fn free_merges_buddies_up_to_the_largest_block() {
    let mut buddy = BuddyAllocator::new(0, 4 * MIB);
    let mut pages = Vec::new();
    // take the whole first block of 2 MiB page by page
    while let Ok(block) = buddy.allocate(4 * KIB) {
        pages.push(block);
    }
    assert_eq!(buddy.remaining_memory(), 0);
    assert_eq!(buddy.allocate(4 * KIB).unwrap_err(), AllocatorError::OutOfMemory);
    for block in pages {
        buddy.free(block).unwrap();
    }
    assert_eq!(buddy.remaining_memory(), 4 * MIB - 4 * KIB);
    assert_eq!(buddy.allocate(2 * MIB).unwrap().base_address, 0);
}

#[test]
fn bitmap_set_then_get() {
    let mut map = BitMap::new(2);
    for index in 0..16 {
        assert_eq!(map.get_bit(index), Some(false));
    }
    assert_eq!(map.set_bit(5, true), Some(()));
    assert_eq!(map.set_bit(9, true), Some(()));
    for index in 0..16 {
        assert_eq!(map.get_bit(index), Some(index == 5 || index == 9));
    }
    assert_eq!(map.set_bit(5, false), Some(()));
    for index in 0..16 {
        assert_eq!(map.get_bit(index), Some(index == 9));
    }
    assert_eq!(map.get_bit(16), None);
    assert_eq!(map.set_bit(16, true), None);
    assert_eq!(map.get_bit(9), Some(true));
}

#[test]
fn handed_out_blocks_never_exceed_the_usable_size() {
    let mut buddy = BuddyAllocator::new(0x40_0000, 6 * MIB + 0x1234);
    let usable = buddy.remaining_memory();
    assert!(usable <= 6 * MIB + 0x1234);
    let mut handed_out = 0;
    let mut blocks = Vec::new();
    for size in [MIB, 3 * KIB, 2 * MIB, 64 * KIB, 5 * KIB, 2 * MIB, 512 * KIB, MIB, MIB, MIB] {
        if let Ok(block) = buddy.allocate(size) {
            handed_out += block.size;
            blocks.push(block);
        }
        assert_eq!(buddy.remaining_memory() + handed_out, usable);
        assert!(handed_out <= usable);
    }
    while let Ok(block) = buddy.allocate(4 * KIB) {
        handed_out += block.size;
        blocks.push(block);
    }
    assert_eq!(handed_out, usable);
    assert_eq!(buddy.remaining_memory(), 0);
    for block in blocks {
        buddy.free(block).unwrap();
    }
    assert_eq!(buddy.remaining_memory(), usable);
}

#[test]
fn fresh_free_lists_have_the_highest_address_at_the_head() {
    let mut buddy = BuddyAllocator::new(0, 8 * MIB);
    // 8 MiB less one page of pair bits: three blocks of 2 MiB, the highest first
    assert_eq!(buddy.allocate(2 * MIB).unwrap().base_address, 4 * MIB);
    assert_eq!(buddy.allocate(2 * MIB).unwrap().base_address, 2 * MIB);
    assert_eq!(buddy.allocate(2 * MIB).unwrap().base_address, 0);
    assert_eq!(buddy.allocate(2 * MIB).unwrap_err(), AllocatorError::OutOfMemory);
}
