use kernel_core::memory::physical::buddy_allocator::free_list::FreeList;
use kernel_core::memory::physical::buddy_allocator::memory_area::MemoryArea;
use kernel_core::memory::physical::buddy_allocator::bitmap::BitMap;
use kernel_core::memory::physical::inline_free_list::InlineFreeList;

#[test]
fn inline_free_list_is_a_deque() {
    let mut list: InlineFreeList<u8> = InlineFreeList::new();
    assert_eq!(list.len(), 0);
    assert_eq!(list.pop_head(), None);
    assert_eq!(list.pop_tail(), None);
    list.push_head(0x2000, 2);
    list.push_head(0x1000, 1);
    list.push_tail(0x3000, 3);
    assert_eq!(list.len(), 3);
    assert_eq!(list.pop_head(), Some(0x1000));
    assert_eq!(list.pop_tail(), Some(0x3000));
    assert_eq!(list.pop_head(), Some(0x2000));
    assert_eq!(list.len(), 0);
}

#[test]
fn inline_free_list_pop_at_address() {
    let mut list: InlineFreeList<()> = InlineFreeList::new();
    for address in [0x1000, 0x2000, 0x3000, 0x4000] {
        list.push_tail(address, ());
    }
    list.pop_at_address(0x3000);
    assert_eq!(list.len(), 3);
    list.pop_at_address(0x1000);
    list.pop_at_address(0x4000);
    assert_eq!(list.pop_head(), Some(0x2000));
    assert_eq!(list.pop_head(), None);
}

#[test]
fn inline_free_list_pop_on() {
    let mut list: InlineFreeList<u32> = InlineFreeList::new();
    list.push_tail(0x1000, 10);
    list.push_tail(0x2000, 20);
    list.push_tail(0x3000, 20);
    assert_eq!(list.pop_on(|value| *value == 20), Some(0x2000));
    assert_eq!(list.pop_on(|value| *value == 20), Some(0x3000));
    assert_eq!(list.pop_on(|value| *value == 20), None);
    assert_eq!(list.len(), 1);
    assert_eq!(list.pop_on(|value| *value < 100), Some(0x1000));
}

#[test]
fn free_list_inserts_at_the_head() {
    let mut list = FreeList::new_empty();
    assert_eq!(list.pop(), None);
    list.insert(0x1000);
    list.insert(0x2000);
    list.insert(0x3000);
    list.remove_at_address(0x2000);
    assert_eq!(list.pop(), Some(0x3000));
    assert_eq!(list.pop(), Some(0x1000));
    assert_eq!(list.pop(), None);
}

fn area(block_size: usize, merge_buddies: bool) -> MemoryArea {
    MemoryArea {
        free_list: InlineFreeList::new(),
        bitmap: BitMap::new(1),
        block_size,
        merge_buddies,
    }
}

#[test]
fn memory_area_merges_two_free_buddies() {
    let mut area = area(0x1000, true);
    let base = 0x10_0000;
    // the lower block of pair 1 is freed: the bit goes up
    assert_eq!(area.free_block(base + 0x2000, base), Some(false));
    assert_eq!(area.bitmap.get_bit(1), Some(true));
    assert_eq!(area.free_list.len(), 1);
    // its buddy is freed: the two leave the class
    assert_eq!(area.free_block(base + 0x3000, base), Some(true));
    assert_eq!(area.bitmap.get_bit(1), Some(false));
    assert_eq!(area.free_list.len(), 0);
}

#[test]
fn memory_area_top_class_keeps_both_buddies() {
    let mut area = area(0x1000, false);
    let base = 0x10_0000;
    assert_eq!(area.free_block(base, base), Some(false));
    assert_eq!(area.free_block(base + 0x1000, base), Some(true));
    assert_eq!(area.free_list.len(), 2);
    assert_eq!(area.bitmap.get_bit(0), Some(false));
    assert_eq!(area.allocate_block(base), Some(base + 0x1000));
    assert_eq!(area.bitmap.get_bit(0), Some(true));
    assert_eq!(area.allocate_block(base), Some(base));
    assert_eq!(area.allocate_block(base), None);
}

#[test]
fn memory_area_without_a_bit_for_the_pair() {
    let mut area = area(0x1000, true);
    let base = 0x10_0000;
    // one byte of bits covers pairs 0 to 7, blocks 0 to 15
    assert_eq!(area.free_block(base + 15 * 0x1000, base), Some(false));
    assert_eq!(area.free_block(base + 16 * 0x1000, base), None);
    assert_eq!(area.free_list.len(), 1);
}
