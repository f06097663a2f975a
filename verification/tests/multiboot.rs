use kernel_core::memory::simple_allocator::SimpleAllocator;
use kernel_core::memory::{Frame, FrameAllocator};
use kernel_core::multiboot::memory_map::{
    largest_available_region, MemoryEntryType, MemoryMapEntry,
};
use kernel_core::multiboot::tags::{Tag, TagType};
use kernel_core::multiboot::{read_le32, read_le64, MultiBootInfo};

fn put32(bytes: &mut Vec<u8>, value: u32) {
    bytes.extend_from_slice(&value.to_le_bytes());
}

fn put64(bytes: &mut Vec<u8>, value: u64) {
    bytes.extend_from_slice(&value.to_le_bytes());
}

/// Boot information with a command line tag, a memory map, and the end tag.
fn boot_information(entries: &[(u64, u64, u32)]) -> Vec<u8> {
    let mut bytes = Vec::new();
    put32(&mut bytes, 0);
    put32(&mut bytes, 0);
    // a tag of type 1 and 13 bytes, padded to 16
    put32(&mut bytes, 1);
    put32(&mut bytes, 13);
    bytes.extend_from_slice(b"boot\0\0\0\0");
    // the memory map
    put32(&mut bytes, 6);
    put32(&mut bytes, 16 + 24 * entries.len() as u32);
    put32(&mut bytes, 24);
    put32(&mut bytes, 0);
    for (base, length, kind) in entries {
        put64(&mut bytes, *base);
        put64(&mut bytes, *length);
        put32(&mut bytes, *kind);
        put32(&mut bytes, 0);
    }
    put32(&mut bytes, 0);
    put32(&mut bytes, 8);
    let total = bytes.len() as u32;
    bytes[..4].copy_from_slice(&total.to_le_bytes());
    bytes
}

const REGIONS: [(u64, u64, u32); 5] = [
    (0x0, 0x9_FC00, 1),
    (0x9_FC00, 0x400, 2),
    (0x10_0000, 0x7EE_0000, 1),
    (0x7FE_0000, 0x2_0000, 3),
    (0xFFFC_0000, 0x4_0000, 7),
];

#[test]
fn tags_are_walked_in_steps_of_eight_bytes() {
    let bytes = boot_information(&REGIONS);
    let info = MultiBootInfo::new(&bytes);
    assert_eq!(info.total_size(), Some(168));
    assert_eq!(MultiBootInfo::new(&bytes[..3]).total_size(), None);
    let mut tags = info.tags();
    assert_eq!(tags.next(), Some(Tag { tag_type: TagType::Other(1), size: 13, offset: 8 }));
    assert_eq!(tags.next(), Some(Tag { tag_type: TagType::MemoryMap, size: 136, offset: 24 }));
    assert_eq!(tags.next(), None);
    assert_eq!(tags.next(), None);
    assert_eq!(tags.current_tag, 160);
}

#[test]
fn memory_map_entries() {
    let bytes = boot_information(&REGIONS);
    let info = MultiBootInfo::new(&bytes);
    let map = info.memory_map_tag().unwrap();
    assert_eq!(map.entry_layout(), (24, 0));
    let mut entries = map.get_memory_map_entries();
    let mut read = Vec::new();
    while let Some(entry) = entries.next() {
        read.push(entry);
    }
    assert_eq!(read.len(), 5);
    assert_eq!(
        read[2],
        MemoryMapEntry {
            base_addr: 0x10_0000,
            length: 0x7EE_0000,
            memory_type: MemoryEntryType::Available
        }
    );
    assert_eq!(read[1].memory_type, MemoryEntryType::Reserved);
    assert_eq!(read[3].memory_type, MemoryEntryType::AcpiAvailable);
    // a type that is not known is reserved
    assert_eq!(read[4].memory_type, MemoryEntryType::Reserved);
    let available = map.get_available_memory_map_entries();
    assert_eq!(available, vec![read[0], read[2]]);
    assert_eq!(largest_available_region(&read), (0x10_0000, 0x7EE_0000));
}

#[test]
fn entry_types() {
    assert_eq!(MemoryEntryType::from_u32(1), MemoryEntryType::Available);
    assert_eq!(MemoryEntryType::from_u32(2), MemoryEntryType::Reserved);
    assert_eq!(MemoryEntryType::from_u32(3), MemoryEntryType::AcpiAvailable);
    assert_eq!(MemoryEntryType::from_u32(4), MemoryEntryType::ReservedHibernate);
    assert_eq!(MemoryEntryType::from_u32(5), MemoryEntryType::Defective);
    assert_eq!(MemoryEntryType::from_u32(0), MemoryEntryType::Reserved);
    assert_eq!(TagType::from_u32(0), TagType::End);
    assert_eq!(TagType::from_u32(6), TagType::MemoryMap);
    assert_eq!(TagType::from_u32(8), TagType::Other(8));
}

#[test]
fn no_memory_map() {
    let mut bytes = Vec::new();
    put32(&mut bytes, 16);
    put32(&mut bytes, 0);
    put32(&mut bytes, 0);
    put32(&mut bytes, 8);
    let info = MultiBootInfo::new(&bytes);
    assert!(info.memory_map_tag().is_none());
    assert_eq!(info.get_tag(TagType::MemoryMap), None);
    assert!(MultiBootInfo::new(&[]).memory_map_tag().is_none());
    assert!(MultiBootInfo::new(&bytes[..12]).memory_map_tag().is_none());
}

#[test]
fn truncated_tags_end_the_walk() {
    let bytes = boot_information(&REGIONS);
    // the memory map tag is cut short
    let info = MultiBootInfo::new(&bytes[..100]);
    let mut tags = info.tags();
    assert!(tags.next().is_some());
    assert_eq!(tags.next(), None);
    assert!(info.memory_map_tag().is_none());
    // a tag that says it is shorter than its header
    let mut broken = bytes.clone();
    broken[12..16].copy_from_slice(&4u32.to_le_bytes());
    assert_eq!(MultiBootInfo::new(&broken).tags().next(), None);
}

#[test]
fn entries_too_short_to_read_are_none() {
    let mut bytes = boot_information(&REGIONS);
    // entry size 8
    bytes[32..36].copy_from_slice(&8u32.to_le_bytes());
    let info = MultiBootInfo::new(&bytes);
    let map = info.memory_map_tag().unwrap();
    assert_eq!(map.get_memory_map_entries().next(), None);
    bytes[32..36].copy_from_slice(&0u32.to_le_bytes());
    let info = MultiBootInfo::new(&bytes);
    assert_eq!(info.memory_map_tag().unwrap().get_memory_map_entries().next(), None);
}

#[test]
fn largest_region() {
    let entry = |base_addr, length, memory_type| MemoryMapEntry { base_addr, length, memory_type };
    assert_eq!(largest_available_region(&vec![]), (0, 0));
    let regions = vec![
        entry(0x1000, 0x5000, MemoryEntryType::Available),
        entry(0x10_0000, 0x90_0000, MemoryEntryType::Reserved),
        entry(0x20_0000, 0x8000, MemoryEntryType::Available),
        entry(0x30_0000, 0x8000, MemoryEntryType::Available),
    ];
    // the first of the largest that are available
    assert_eq!(largest_available_region(&regions), (0x20_0000, 0x8000));
    assert_eq!(
        largest_available_region(&vec![entry(0x1000, 0x5000, MemoryEntryType::Defective)]),
        (0, 0)
    );
}

#[test]
fn little_endian_numbers() {
    let bytes = [0x78, 0x56, 0x34, 0x12, 0xEF, 0xCD, 0xAB, 0x90];
    assert_eq!(read_le32(&bytes, 0), 0x1234_5678);
    assert_eq!(read_le32(&bytes, 4), 0x90AB_CDEF);
    assert_eq!(read_le64(&bytes, 0), 0x90AB_CDEF_1234_5678);
}

#[test]
fn frames_are_handed_out_in_order() {
    let entry = |base_addr, length, memory_type| MemoryMapEntry { base_addr, length, memory_type };
    let areas = vec![
        entry(0x0, 0x3000, MemoryEntryType::Available),
        entry(0x3000, 0x2000, MemoryEntryType::Reserved),
        entry(0x10_0000, 0x2800, MemoryEntryType::Available),
    ];
    // the kernel takes the second frame, the boot information the first of the second region
    let mut allocator = SimpleAllocator::new(areas, 0x1000..0x2000, 0x10_0000..0x10_0400);
    let mut frames = Vec::new();
    while let Some(frame) = allocator.get_next_frame() {
        frames.push(frame.physical_addr);
    }
    assert_eq!(frames, vec![0x0, 0x2000, 0x10_1000, 0x10_2000]);
    assert_eq!(allocator.allocate_frame(), None);
    allocator.free_frame(Frame { physical_addr: 0 });
    assert_eq!(allocator.allocate_frame(), None);
}
