use vstd::prelude::*;

pub mod physical;
pub mod simple_allocator;

verus! {

/// The size of a frame in bytes.
pub const FRAME_SIZE: usize = 4096;

/// One frame of physical memory, known by the address at which it starts.
#[derive(Debug, Clone, Copy, PartialEq, Eq, Structural)]
pub struct Frame {
    pub physical_addr: usize,
}

/// Something that hands out frames and takes them back.
pub trait FrameAllocator {
    /// The allocator is in order and can hand out one more frame.
    spec fn ready(&self) -> bool;

    /// What asking for a frame comes to: `frame` is the frame handed out,
    /// if there is one left, and `after` is the allocator once it is asked.
    spec fn hands_out(&self, frame: Option<Frame>, after: &Self) -> bool;

    /// Hands out a frame that is not handed out yet, if there is one left.
    fn allocate_frame(&mut self) -> (frame: Option<Frame>)
        requires
            old(self).ready(),
        ensures
            old(self).hands_out(frame, final(self)),
    ;

    fn free_frame(&mut self, frame: Frame)
        ensures
            final(self).ready() == old(self).ready(),
    ;
}

} // verus!
