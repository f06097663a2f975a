use vstd::prelude::*;

pub mod bitmap;
pub mod buddy_allocator;
pub mod coalescing;
pub mod free_list;
pub mod free_space;
pub mod memory_area;

verus! {

/// The size of the smallest block, in bytes.
pub const PAGE_SIZE: usize = 4096;

/// The number of block sizes.
pub const BLOCK_CLASSES: usize = 10;

/// The block sizes in bytes, each twice the one before it.
pub const BLOCK_SIZES: [usize; 10] = [
    4096,
    8192,
    16384,
    32768,
    65536,
    131072,
    262144,
    524288,
    1048576,
    2097152,
];

/// The size of the largest block, in bytes.
pub const LARGEST_BLOCK_SIZE: usize = 2097152;

} // verus!
