use super::{le32_at, read_le32};
use vstd::prelude::*;

verus! {

/// The kinds of tag.
#[derive(Debug, Clone, Copy, PartialEq, Eq, Structural)]
pub enum TagType {
    End,
    MemoryMap,
    Other(u32),
}

impl TagType {
    /// The kind that the number `value` stands for: 0 ends the tags, 6 is
    /// the memory map.
    pub open spec fn of(value: u32) -> TagType {
        if value == 0 {
            TagType::End
        } else if value == 6 {
            TagType::MemoryMap
        } else {
            TagType::Other(value)
        }
    }

    /// The kind that the number `value` stands for.
    pub fn from_u32(value: u32) -> (tag_type: TagType)
        ensures
            tag_type == TagType::of(value),
    {
        if value == 0 {
            TagType::End
        } else if value == 6 {
            TagType::MemoryMap
        } else {
            TagType::Other(value)
        }
    }
}

/// A tag: its kind, its size in bytes with its header of eight, and where
/// it starts.
#[derive(Debug, Clone, Copy, PartialEq, Eq, Structural)]
pub struct Tag {
    pub tag_type: TagType,
    pub size: u32,
    pub offset: usize,
}

/// The tag that starts at `at`, if a whole tag other than the end tag
/// stands there: its header fits, its size holds at least the header, and
/// the bytes reach as far as its size says.
pub open spec fn tag_at(bytes: Seq<u8>, at: int) -> Option<Tag> {
    if 0 <= at && at + 8 <= bytes.len() && le32_at(bytes, at + 4) >= 8 && at + le32_at(
        bytes,
        at + 4,
    ) <= bytes.len() && at + le32_at(bytes, at + 4) + 7 <= usize::MAX && !(le32_at(bytes, at) == 0
        && le32_at(bytes, at + 4) == 8) {
        Some(
            Tag {
                tag_type: TagType::of(le32_at(bytes, at)),
                size: le32_at(bytes, at + 4),
                offset: at as usize,
            },
        )
    } else {
        None
    }
}

/// Where the tag after `tag` starts: at the next multiple of eight bytes
/// after its end.
pub open spec fn next_tag_offset(tag: Tag) -> int {
    tag.offset + (tag.size + 7) / 8 * 8
}

/// The first tag of kind `wanted` among the tags from `at` on.
pub open spec fn find_tag(bytes: Seq<u8>, at: int, wanted: TagType) -> Option<Tag>
    decreases bytes.len() - at,
{
    match tag_at(bytes, at) {
        None => None,
        Some(tag) => if tag.tag_type == wanted {
            Some(tag)
        } else if at < next_tag_offset(tag) <= bytes.len() {
            find_tag(bytes, next_tag_offset(tag), wanted)
        } else {
            None
        },
    }
}

/// A walk over the tags.
pub struct TagIter<'a> {
    bytes: &'a [u8],
    pub current_tag: usize,
}

impl<'a> TagIter<'a> {
    /// The bytes that hold the tags.
    pub closed spec fn view(&self) -> Seq<u8> {
        self.bytes@
    }

    /// Where the tag starts at which the walk stands.
    pub closed spec fn position(&self) -> usize {
        self.current_tag
    }

    /// A walk over the tags in `bytes` from the tag at `first` on.
    pub fn new(bytes: &'a [u8], first: usize) -> (iter: Self)
        ensures
            iter@ == bytes@,
            iter.position() == first,
    {
        Self { bytes, current_tag: first }
    }

    /// The tag at which the walk stands, after which the walk moves on to
    /// the next; `None`, without a move, at the end tag and where no whole
    /// tag stands.
    pub fn next(&mut self) -> (tag: Option<Tag>)
        ensures
            final(self)@ == old(self)@,
            tag == tag_at(old(self)@, old(self).position() as int),
            tag.is_none() ==> final(self).position() == old(self).position(),
            tag matches Some(found) ==> final(self).position() == next_tag_offset(found)
                && final(self).position() > old(self).position() && final(self).position() <= old(self)@.len() + 7,
    {
        let at = self.current_tag;
        let len = self.bytes.len();
        if len < 8 || at > len - 8 {
            return None;
        }
        let kind = read_le32(self.bytes, at);
        let size = read_le32(self.bytes, at + 4);
        if size < 8 || (size as usize) > len - at {
            return None;
        }
        if (size as usize) > usize::MAX - 7 - at {
            return None;
        }
        if kind == 0 && size == 8 {
            return None;
        }
        // the next tag starts at a multiple of eight bytes
        self.current_tag = at + ((size as usize) + 7) / 8 * 8;
        Some(Tag { tag_type: TagType::from_u32(kind), size, offset: at })
    }
}

} // verus!
