use vstd::prelude::*;

pub mod memory_map;
pub mod tags;

use memory_map::MemoryMapTag;
use tags::{find_tag, Tag, TagIter, TagType};

verus! {

/// The four bytes at `at` as one number, the first the least significant.
pub open spec fn le32_at(bytes: Seq<u8>, at: int) -> u32 {
    (bytes[at] as int + bytes[at + 1] as int * 0x100 + bytes[at + 2] as int * 0x1_0000 + bytes[at
        + 3] as int * 0x100_0000) as u32
}

/// The eight bytes at `at` as one number, the first the least significant.
pub open spec fn le64_at(bytes: Seq<u8>, at: int) -> u64 {
    (le32_at(bytes, at) as int + le32_at(bytes, at + 4) as int * 0x1_0000_0000) as u64
}

/// The four bytes at `at` as one number, the first the least significant.
pub fn read_le32(bytes: &[u8], at: usize) -> (value: u32)
    requires
        at + 4 <= bytes@.len(),
    ensures
        value == le32_at(bytes@, at as int),
{
    let _ = bytes.len();
    (bytes[at] as u32) + (bytes[at + 1] as u32) * 0x100 + (bytes[at + 2] as u32) * 0x1_0000 + (
    bytes[at + 3] as u32) * 0x100_0000
}

/// The eight bytes at `at` as one number, the first the least significant.
pub fn read_le64(bytes: &[u8], at: usize) -> (value: u64)
    requires
        at + 8 <= bytes@.len(),
    ensures
        value == le64_at(bytes@, at as int),
{
    let _ = bytes.len();
    (read_le32(bytes, at) as u64) + (read_le32(bytes, at + 4) as u64) * 0x1_0000_0000
}

/// The offset of the first tag: it follows the total size and a reserved
/// word.
pub const FIRST_TAG_OFFSET: usize = 8;

/// The information that the boot loader hands over: a total size, a
/// reserved word, and tags, each starting at a multiple of eight bytes.
pub struct MultiBootInfo<'a> {
    bytes: &'a [u8],
}

impl<'a> MultiBootInfo<'a> {
    /// The bytes of the information.
    pub closed spec fn view(&self) -> Seq<u8> {
        self.bytes@
    }

    /// The information that `bytes` hold.
    pub fn new(bytes: &'a [u8]) -> (info: Self)
        ensures
            info@ == bytes@,
    {
        Self { bytes }
    }

    /// The size of the information in bytes as its first word states it;
    /// `None` where the bytes do not hold that word.
    pub fn total_size(&self) -> (size: Option<u32>)
        ensures
            size == if self@.len() >= 4 {
                Some(le32_at(self@, 0))
            } else {
                None
            },
    {
        if self.bytes.len() >= 4 {
            Some(read_le32(self.bytes, 0))
        } else {
            None
        }
    }

    /// The tags, from the first on.
    pub fn tags(&self) -> (iter: TagIter<'a>)
        ensures
            iter@ == self@,
            iter.position() == FIRST_TAG_OFFSET,
    {
        // tags come right after the size and the reserved word
        TagIter::new(self.bytes, FIRST_TAG_OFFSET)
    }

    /// The first tag of type `tag_type`, if there is one before the end tag.
    pub fn get_tag(&self, tag_type: TagType) -> (tag: Option<Tag>)
        ensures
            tag == find_tag(self@, FIRST_TAG_OFFSET as int, tag_type),
    {
        let mut iter = self.tags();
        loop
            invariant
                iter@ == self@,
                find_tag(self@, iter.position() as int, tag_type) == find_tag(
                    self@,
                    FIRST_TAG_OFFSET as int,
                    tag_type,
                ),
            decreases self@.len() + 8 - iter.position(),
        {
            match iter.next() {
                Some(tag) => {
                    if tag.tag_type == tag_type {
                        return Some(tag);
                    }
                },
                None => {
                    return None;
                },
            }
        }
    }

    /// The memory map, if the information holds one.
    pub fn memory_map_tag(&self) -> (tag: Option<MemoryMapTag<'a>>)
        ensures
            MemoryMapTag::parsed(
                self@,
                find_tag(self@, FIRST_TAG_OFFSET as int, TagType::MemoryMap),
                tag,
            ),
    {
        match self.get_tag(TagType::MemoryMap) {
            Some(tag) => MemoryMapTag::parse(self.bytes, tag),
            None => None,
        }
    }
}

} // verus!
