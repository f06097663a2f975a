use super::{Frame, FrameAllocator, FRAME_SIZE};
use crate::multiboot::memory_map::{MemoryEntryType, MemoryMapEntry};
use core::ops::Range;
use vstd::prelude::*;

verus! {

/// Whether frames are taken from the region: it is available memory and
/// ends within the address space.
pub open spec fn yields_frames(area: MemoryMapEntry) -> bool {
    area.memory_type == MemoryEntryType::Available && area.base_addr + area.length <= usize::MAX
}

/// The number of frames that the region yields: one at its start and one
/// every 4096 bytes after it, as far as the region reaches.
pub open spec fn frame_count(area: MemoryMapEntry) -> int {
    if yields_frames(area) {
        (area.length + 4095) / 4096
    } else {
        0
    }
}

/// Whether the frame at `addr` may be handed out: it starts neither in the
/// kernel nor in the boot information.
pub open spec fn may_use(addr: int, kernel_range: Range<usize>, multiboot_range: Range<usize>) -> bool {
    !(kernel_range.start <= addr < kernel_range.end) && !(multiboot_range.start <= addr
        < multiboot_range.end)
}

/// The frame that is handed out after `skip` others, counted from frame
/// `frame` of region `area` on: the regions are gone through in their
/// order and the frames of each from its start, and those that may not be
/// used are passed over.
pub open spec fn frame_after(
    areas: Seq<MemoryMapEntry>,
    kernel_range: Range<usize>,
    multiboot_range: Range<usize>,
    area: int,
    frame: int,
    skip: int,
) -> Option<Frame>
    decreases areas.len() - area, frame_count(areas[area]) - frame,
{
    if area < 0 || area >= areas.len() || frame < 0 {
        None
    } else if frame >= frame_count(areas[area]) {
        frame_after(areas, kernel_range, multiboot_range, area + 1, 0, skip)
    } else {
        let addr = areas[area].base_addr + 4096 * frame;
        if may_use(addr, kernel_range, multiboot_range) {
            if skip <= 0 {
                Some(Frame { physical_addr: addr as usize })
            } else {
                frame_after(areas, kernel_range, multiboot_range, area, frame + 1, skip - 1)
            }
        } else {
            frame_after(areas, kernel_range, multiboot_range, area, frame + 1, skip)
        }
    }
}

/// The simplest allocator that can bring a system up: it hands out the
/// frames of the available regions one after the other and takes none back.
pub struct SimpleAllocator {
    next_frame_index: usize,
    areas: Vec<MemoryMapEntry>,
    kernel_range: Range<usize>,
    multiboot_range: Range<usize>,
}

impl SimpleAllocator {
    /// The number of frames handed out so far.
    pub closed spec fn handed_out(&self) -> usize {
        self.next_frame_index
    }

    /// The regions of memory.
    pub closed spec fn regions(&self) -> Seq<MemoryMapEntry> {
        self.areas@
    }

    /// Where the kernel lies.
    pub closed spec fn kernel(&self) -> Range<usize> {
        self.kernel_range
    }

    /// Where the boot information lies.
    pub closed spec fn boot_information(&self) -> Range<usize> {
        self.multiboot_range
    }

    /// An allocator over the regions `areas` that has handed out nothing.
    pub fn new(areas: Vec<MemoryMapEntry>, kernel_range: Range<usize>, multiboot_range: Range<usize>) -> (allocator:
        Self)
        ensures
            allocator.handed_out() == 0,
            allocator.regions() == areas@,
            allocator.kernel() == kernel_range,
            allocator.boot_information() == multiboot_range,
    {
        Self { next_frame_index: 0, areas, kernel_range, multiboot_range }
    }

    /// Hands out the next frame; `None` when all are handed out.
    pub fn get_next_frame(&mut self) -> (frame: Option<Frame>)
        requires
            old(self).handed_out() < usize::MAX,
        ensures
            frame == frame_after(
                old(self).regions(),
                old(self).kernel(),
                old(self).boot_information(),
                0,
                0,
                old(self).handed_out() as int,
            ),
            final(self).handed_out() == old(self).handed_out() + 1,
            final(self).regions() == old(self).regions(),
            final(self).kernel() == old(self).kernel(),
            final(self).boot_information() == old(self).boot_information(),
    {
        let mut skip = self.next_frame_index;
        self.next_frame_index += 1;
        let mut area_index: usize = 0;
        while area_index < self.areas.len()
            invariant
                area_index <= self.areas@.len(),
                self.areas == old(self).areas,
                self.kernel_range == old(self).kernel_range,
                self.multiboot_range == old(self).multiboot_range,
                self.next_frame_index == old(self).next_frame_index + 1,
                frame_after(
                    self.areas@,
                    self.kernel_range,
                    self.multiboot_range,
                    area_index as int,
                    0,
                    skip as int,
                ) == frame_after(
                    self.areas@,
                    self.kernel_range,
                    self.multiboot_range,
                    0,
                    0,
                    old(self).next_frame_index as int,
                ),
            decreases self.areas@.len() - area_index,
        {
            let area = self.areas[area_index];
            let fits = area.length <= (usize::MAX as u64) && area.base_addr <= (usize::MAX as u64)
                - area.length;
            if area.memory_type == MemoryEntryType::Available && fits {
                let base = area.base_addr as usize;
                let length = area.length as usize;
                let mut offset: usize = 0;
                let ghost frame_index: int = 0;
                let mut frame_number: usize = 0;
                while offset < length
                    invariant
                        area_index < self.areas@.len(),
                        area == self.areas@[area_index as int],
                        yields_frames(area),
                        base == area.base_addr,
                        length == area.length,
                        offset == 4096 * frame_number || (offset == length && frame_number
                            == frame_count(area)),
                        offset <= length,
                        frame_number <= frame_count(area),
                        self.areas == old(self).areas,
                        self.kernel_range == old(self).kernel_range,
                        self.multiboot_range == old(self).multiboot_range,
                        self.next_frame_index == old(self).next_frame_index + 1,
                        frame_after(
                            self.areas@,
                            self.kernel_range,
                            self.multiboot_range,
                            area_index as int,
                            frame_number as int,
                            skip as int,
                        ) == frame_after(
                            self.areas@,
                            self.kernel_range,
                            self.multiboot_range,
                            0,
                            0,
                            old(self).next_frame_index as int,
                        ),
                    decreases length - offset,
                {
                    let addr = base + offset;
                    let in_kernel = self.kernel_range.start <= addr && addr < self.kernel_range.end;
                    let in_multiboot = self.multiboot_range.start <= addr && addr
                        < self.multiboot_range.end;
                    if !in_kernel && !in_multiboot {
                        if skip == 0 {
                            return Some(Frame { physical_addr: addr });
                        }
                        skip -= 1;
                    }
                    frame_number += 1;
                    if length - offset > FRAME_SIZE {
                        offset += FRAME_SIZE;
                    } else {
                        offset = length;
                    }
                }
                assert(frame_number == frame_count(area));
            }
            area_index += 1;
        }
        None
    }
}

impl FrameAllocator for SimpleAllocator {
    open spec fn ready(&self) -> bool {
        self.handed_out() < usize::MAX
    }

    /// The frame is the one that follows those handed out so far, in the
    /// order of the regions and, within a region, of the addresses; it
    /// counts as handed out afterwards, also where there is none left; and
    /// nothing else changes.
    open spec fn hands_out(&self, frame: Option<Frame>, after: &Self) -> bool {
        &&& frame == frame_after(
            self.regions(),
            self.kernel(),
            self.boot_information(),
            0,
            0,
            self.handed_out() as int,
        )
        &&& after.handed_out() == self.handed_out() + 1
        &&& after.regions() == self.regions()
        &&& after.kernel() == self.kernel()
        &&& after.boot_information() == self.boot_information()
    }

    fn allocate_frame(&mut self) -> (frame: Option<Frame>) {
        self.get_next_frame()
    }

    fn free_frame(&mut self, _frame: Frame) {
        // the frame is not taken back: it leaks
    }
}

} // verus!
