use super::tags::{Tag, TagType};
use super::{le32_at, le64_at, read_le32, read_le64};
use vstd::prelude::*;

verus! {

/// What a region of memory is.
#[derive(Debug, Clone, Copy, PartialEq, Eq, Structural)]
pub enum MemoryEntryType {
    Available,
    Reserved,
    AcpiAvailable,
    ReservedHibernate,
    Defective,
}

impl MemoryEntryType {
    /// The kind that the number `value` stands for: 1 is available memory,
    /// 3 holds ACPI tables, 4 is to be kept over hibernation, 5 is
    /// defective, and all else is reserved.
    pub open spec fn of(value: u32) -> MemoryEntryType {
        if value == 1 {
            MemoryEntryType::Available
        } else if value == 3 {
            MemoryEntryType::AcpiAvailable
        } else if value == 4 {
            MemoryEntryType::ReservedHibernate
        } else if value == 5 {
            MemoryEntryType::Defective
        } else {
            MemoryEntryType::Reserved
        }
    }

    /// The kind that the number `value` stands for.
    pub fn from_u32(value: u32) -> (memory_type: MemoryEntryType)
        ensures
            memory_type == MemoryEntryType::of(value),
    {
        if value == 1 {
            MemoryEntryType::Available
        } else if value == 3 {
            MemoryEntryType::AcpiAvailable
        } else if value == 4 {
            MemoryEntryType::ReservedHibernate
        } else if value == 5 {
            MemoryEntryType::Defective
        } else {
            MemoryEntryType::Reserved
        }
    }
}

/// One region of memory.
#[derive(Debug, Clone, Copy, PartialEq, Eq, Structural)]
pub struct MemoryMapEntry {
    pub base_addr: u64,
    pub length: u64,
    pub memory_type: MemoryEntryType,
}

/// The offset of the first entry in the memory map tag: it follows the
/// tag's header, the entry size and the entry version.
pub const FIRST_ENTRY_OFFSET: usize = 16;

/// The bytes of an entry that are read: base, length and type.
pub const ENTRY_BYTES: u32 = 20;

/// The entry that starts at `at`: base and length in eight bytes each,
/// then the type.
pub open spec fn entry_at(bytes: Seq<u8>, at: int) -> MemoryMapEntry {
    MemoryMapEntry {
        base_addr: le64_at(bytes, at),
        length: le64_at(bytes, at + 8),
        memory_type: MemoryEntryType::of(le32_at(bytes, at + 16)),
    }
}

/// The number of entries in a tag of `size` bytes whose entries take
/// `entry_size` bytes each; none where an entry is too short to be read.
pub open spec fn entry_count(size: u32, entry_size: u32) -> int {
    if entry_size < ENTRY_BYTES || size < FIRST_ENTRY_OFFSET {
        0
    } else {
        (size - FIRST_ENTRY_OFFSET) / entry_size as int
    }
}

/// The memory map tag: where it stands, and how its entries are laid out.
pub struct MemoryMapTag<'a> {
    bytes: &'a [u8],
    offset: usize,
    size: u32,
    entry_size: u32,
    entry_version: u32,
}

impl<'a> MemoryMapTag<'a> {
    /// The bytes of the information that holds the tag.
    pub closed spec fn view(&self) -> Seq<u8> {
        self.bytes@
    }

    /// Where the tag starts.
    pub closed spec fn start(&self) -> int {
        self.offset as int
    }

    /// The size of the tag in bytes.
    pub closed spec fn tag_size(&self) -> u32 {
        self.size
    }

    /// The size of one entry in bytes.
    pub closed spec fn stride(&self) -> u32 {
        self.entry_size
    }

    /// The version of the entries' layout.
    pub closed spec fn version(&self) -> u32 {
        self.entry_version
    }

    /// The tag lies within the bytes and has room for its header.
    pub open spec fn wf(&self) -> bool {
        &&& 0 <= self.start()
        &&& self.tag_size() >= FIRST_ENTRY_OFFSET
        &&& self.start() + self.tag_size() <= self@.len()
    }

    /// The entries of the tag.
    pub open spec fn entries(&self) -> Seq<MemoryMapEntry> {
        Seq::new(
            entry_count(self.tag_size(), self.stride()) as nat,
            |k: int| entry_at(self@, self.start() + FIRST_ENTRY_OFFSET + k * self.stride()),
        )
    }

    /// What `parse` makes of a tag: the memory map, if the tag is there and
    /// has room for the entry size and the entry version.
    pub open spec fn parsed(bytes: Seq<u8>, tag: Option<Tag>, map: Option<MemoryMapTag<'a>>) -> bool {
        match tag {
            Some(tag) => if tag.size >= FIRST_ENTRY_OFFSET && tag.offset + tag.size <= bytes.len() {
                map matches Some(map) && map@ == bytes && map.start() == tag.offset
                    && map.tag_size() == tag.size && map.stride() == le32_at(
                    bytes,
                    tag.offset + 8,
                ) && map.version() == le32_at(bytes, tag.offset + 12) && map.wf()
            } else {
                map.is_none()
            },
            None => map.is_none(),
        }
    }

    /// The memory map that the tag `tag` in `bytes` holds.
    pub fn parse(bytes: &'a [u8], tag: Tag) -> (map: Option<MemoryMapTag<'a>>)
        ensures
            Self::parsed(bytes@, Some(tag), map),
    {
        if tag.size < 16 || tag.offset > bytes.len() || (tag.size as usize) > bytes.len()
            - tag.offset {
            return None;
        }
        let entry_size = read_le32(bytes, tag.offset + 8);
        let entry_version = read_le32(bytes, tag.offset + 12);
        Some(MemoryMapTag { bytes, offset: tag.offset, size: tag.size, entry_size, entry_version })
    }

    /// The size of one entry in bytes, and the version of the entries' layout.
    pub fn entry_layout(&self) -> (layout: (u32, u32))
        ensures
            layout == (self.stride(), self.version()),
    {
        (self.entry_size, self.entry_version)
    }

    /// A walk over the entries.
    pub fn get_memory_map_entries(&self) -> (iter: MemoryMapEntryIter<'a>)
        requires
            self.wf(),
        ensures
            iter.wf(),
            iter.remaining() == self.entries(),
    {
        let _ = self.bytes.len();
        let entry_count = if self.entry_size < ENTRY_BYTES {
            0
        } else {
            (self.size - FIRST_ENTRY_OFFSET as u32) / self.entry_size
        };
        proof {
            let room = (self.size - FIRST_ENTRY_OFFSET) as int;
            let stride = self.entry_size as int;
            if entry_count > 0 {
                vstd::arithmetic::div_mod::lemma_fundamental_div_mod(room, stride);
                assert(entry_count * stride <= room) by (nonlinear_arith)
                    requires
                        room == stride * (room / stride) + room % stride,
                        entry_count == room / stride,
                        0 <= room % stride,
                ;
            } else {
                assert(entry_count * stride == 0) by (nonlinear_arith)
                    requires
                        entry_count == 0,
                ;
            }
        }
        let iter = MemoryMapEntryIter::new(
            self.bytes,
            entry_count,
            self.entry_size,
            self.offset + FIRST_ENTRY_OFFSET,
        );
        proof {
            assert(iter.remaining() =~= self.entries());
        }
        iter
    }

    /// The entries that are available memory, in their order.
    pub fn get_available_memory_map_entries(&self) -> (available: Vec<MemoryMapEntry>)
        requires
            self.wf(),
        ensures
            available@ == available_among(self.entries(), self.entries().len() as int),
    {
        let mut iter = self.get_memory_map_entries();
        let mut available: Vec<MemoryMapEntry> = Vec::new();
        let ghost all = self.entries();
        let ghost mut seen: int = 0;
        proof {
            assert(all.subrange(0, all.len() as int) =~= all);
        }
        loop
            invariant
                iter.wf(),
                0 <= seen <= all.len(),
                iter.remaining() == all.subrange(seen, all.len() as int),
                available@ == available_among(all, seen),
            ensures
                available@ == available_among(all, all.len() as int),
            decreases iter.remaining().len(),
        {
            match iter.next() {
                Some(entry) => {
                    proof {
                        assert(entry == all[seen]);
                        assert(iter.remaining() =~= all.subrange(seen + 1, all.len() as int));
                    }
                    if entry.memory_type == MemoryEntryType::Available {
                        available.push(entry);
                    }
                    proof {
                        seen = seen + 1;
                    }
                },
                None => {
                    break ;
                },
            }
        }
        available
    }
}

/// Those of the first `count` entries that are available memory, in their
/// order.
pub open spec fn available_among(entries: Seq<MemoryMapEntry>, count: int) -> Seq<MemoryMapEntry>
    decreases count,
{
    if count <= 0 {
        Seq::empty()
    } else if entries[count - 1].memory_type == MemoryEntryType::Available {
        available_among(entries, count - 1).push(entries[count - 1])
    } else {
        available_among(entries, count - 1)
    }
}

/// A walk over the entries of a memory map.
pub struct MemoryMapEntryIter<'a> {
    bytes: &'a [u8],
    current_entry: u32,
    entry_count: u32,
    entry_size: u32,
    first_entry_offset: usize,
}

impl<'a> MemoryMapEntryIter<'a> {
    /// The entries that the walk has yet to come to.
    pub closed spec fn remaining(&self) -> Seq<MemoryMapEntry> {
        Seq::new(
            (self.entry_count - self.current_entry) as nat,
            |k: int|
                entry_at(
                    self.bytes@,
                    self.first_entry_offset + (self.current_entry + k) * self.entry_size,
                ),
        )
    }

    /// Every entry lies within the bytes and can be read.
    pub closed spec fn wf(&self) -> bool {
        &&& self.current_entry <= self.entry_count
        &&& self.entry_count > 0 ==> self.entry_size >= ENTRY_BYTES
        &&& self.first_entry_offset + self.entry_count * self.entry_size <= self.bytes@.len()
    }

    /// A walk over `entry_count` entries of `entry_size` bytes each, the
    /// first at `first_entry_offset`.
    pub fn new(bytes: &'a [u8], entry_count: u32, entry_size: u32, first_entry_offset: usize) -> (iter:
        Self)
        requires
            entry_count > 0 ==> entry_size >= ENTRY_BYTES,
            first_entry_offset + entry_count * entry_size <= bytes@.len(),
        ensures
            iter.wf(),
            iter.remaining() == Seq::new(
                entry_count as nat,
                |k: int| entry_at(bytes@, first_entry_offset + k * entry_size),
            ),
    {
        let iter = Self { bytes, current_entry: 0, entry_count, entry_size, first_entry_offset };
        assert(iter.remaining() =~= Seq::new(
            entry_count as nat,
            |k: int| entry_at(bytes@, first_entry_offset + k * entry_size),
        ));
        iter
    }

    /// The next entry, if there is one.
    pub fn next(&mut self) -> (entry: Option<MemoryMapEntry>)
        requires
            old(self).wf(),
        ensures
            final(self).wf(),
            old(self).remaining().len() == 0 ==> entry.is_none() && final(self).remaining() == old(self).remaining(),
            old(self).remaining().len() > 0 ==> entry == Some(old(self).remaining()[0]) && final(self).remaining() == old(self).remaining().drop_first(),
    {
        let _ = self.bytes.len();
        if self.current_entry >= self.entry_count {
            None
        } else {
            proof {
                let count = self.entry_count as int;
                let current = self.current_entry as int;
                let stride = self.entry_size as int;
                assert((current + 1) * stride <= count * stride) by (nonlinear_arith)
                    requires
                        current + 1 <= count,
                        stride >= 0,
                ;
                assert((current + 1) * stride == current * stride + stride) by (nonlinear_arith);
                assert(current * stride >= 0) by (nonlinear_arith)
                    requires
                        current >= 0,
                        stride >= 0,
                ;
            }
            let new_entry_addr = self.first_entry_offset + (self.current_entry as usize) * (
            self.entry_size as usize);
            let entry = MemoryMapEntry {
                base_addr: read_le64(self.bytes, new_entry_addr),
                length: read_le64(self.bytes, new_entry_addr + 8),
                memory_type: MemoryEntryType::from_u32(read_le32(self.bytes, new_entry_addr + 16)),
            };
            self.current_entry += 1;
            proof {
                assert(entry == old(self).remaining()[0]);
                assert forall|k: int| 0 <= k < final(self).remaining().len() implies final(self).remaining()[k] == old(self).remaining().drop_first()[k] by {
                    assert(old(self).current_entry + (k + 1) == self.current_entry + k);
                }
                assert(final(self).remaining() =~= old(self).remaining().drop_first());
            }
            Some(entry)
        }
    }
}

/// The base and the length of the largest of the first `count` regions
/// that is available memory, the first of them among equals; 0 and 0 where
/// none is available or all are empty.
pub open spec fn largest_among(entries: Seq<MemoryMapEntry>, count: int) -> (u64, u64)
    decreases count,
{
    if count <= 0 {
        (0, 0)
    } else {
        let before = largest_among(entries, count - 1);
        let entry = entries[count - 1];
        if entry.memory_type == MemoryEntryType::Available && entry.length > before.1 {
            (entry.base_addr, entry.length)
        } else {
            before
        }
    }
}

/// The base and the length of the largest region of available memory.
pub fn largest_available_region(entries: &Vec<MemoryMapEntry>) -> (region: (u64, u64))
    ensures
        region == largest_among(entries@, entries@.len() as int),
        forall|k: int|
            0 <= k < entries@.len() && entries@[k].memory_type == MemoryEntryType::Available
                ==> entries@[k].length <= region.1,
        region.1 > 0 ==> exists|k: int|
            0 <= k < entries@.len() && entries@[k].memory_type == MemoryEntryType::Available
                && entries@[k].base_addr == region.0 && entries@[k].length == region.1,
{
    let mut largest_mem_addr: u64 = 0;
    let mut largest_size: u64 = 0;
    let mut index: usize = 0;
    while index < entries.len()
        invariant
            index <= entries@.len(),
            (largest_mem_addr, largest_size) == largest_among(entries@, index as int),
            forall|k: int|
                0 <= k < index && entries@[k].memory_type == MemoryEntryType::Available
                    ==> entries@[k].length <= largest_size,
            largest_size > 0 ==> exists|k: int|
                0 <= k < index && entries@[k].memory_type == MemoryEntryType::Available
                    && entries@[k].base_addr == largest_mem_addr && entries@[k].length
                    == largest_size,
        decreases entries@.len() - index,
    {
        let entry = entries[index];
        if entry.memory_type == MemoryEntryType::Available && entry.length > largest_size {
            largest_mem_addr = entry.base_addr;
            largest_size = entry.length;
            assert(entries@[index as int].memory_type == MemoryEntryType::Available
                && entries@[index as int].base_addr == largest_mem_addr);
        } else {
            proof {
                if largest_size > 0 {
                    let k = choose|k: int|
                        0 <= k < index && entries@[k].memory_type == MemoryEntryType::Available
                            && entries@[k].base_addr == largest_mem_addr && entries@[k].length
                            == largest_size;
                    assert(0 <= k < index + 1);
                }
            }
        }
        index = index + 1;
    }
    (largest_mem_addr, largest_size)
}

} // verus!
