//! Why a buddy system in which every whole page is free holds the same free
//! blocks whatever was allocated and freed before: free buddies always merge,
//! so the free blocks are the largest that fit.
use super::free_space::{
    block_fits, block_size, buddy_of, disjoint, is_free_byte, lemma_aligned_difference,
    lemma_block_size, lemma_free_block_bit, lemma_multiple_of_largest, lemma_pair, lemma_quotient,
    lemma_sum_aligned, lower_of, pair_index, upper_of, well_formed, FreeBlock,
};
use super::LARGEST_BLOCK_SIZE;
use vstd::prelude::*;

verus! {

/// The bytes of the region of `size` bytes that lie in whole pages.
pub open spec fn whole_pages(size: int) -> int {
    size - size % 4096
}

/// The block of class `class` at `addr` fits in the region and cannot be
/// part of a larger block that fits: it is of the top class, or it is the
/// lower block of a pair whose upper block reaches beyond the region.
pub open spec fn is_largest_fitting(base: int, size: int, class: int, addr: int) -> bool {
    &&& block_fits(base, size, class, addr)
    &&& class < 9 ==> ((addr - base) / block_size(class)) % 2 == 0 && addr + 2 * block_size(class)
        > base + size
}

/// The free blocks of a buddy system over the region in which every whole
/// page is free.
pub open spec fn largest_fitting_blocks(base: int, size: int) -> Set<FreeBlock> {
    Set::new(|b: FreeBlock| is_largest_fitting(base, size, b.0, b.1))
}

/// Every byte of the whole pages of the region is free.
pub open spec fn all_free(base: int, size: int, free: Set<FreeBlock>) -> bool {
    forall|x: int| base <= x < base + whole_pages(size) ==> is_free_byte(free, x)
}

/// A positive multiple of `d` is at least `d`.
proof fn lemma_positive_multiple(x: int, d: int)
    requires
        d > 0,
        x > 0,
        x % d == 0,
    ensures
        x >= d,
{
    lemma_aligned_difference(0, x, d);
    let q = x / d;
    assert(q >= 1) by (nonlinear_arith)
        requires
            x == q * d,
            x > 0,
            d > 0,
    ;
    assert(q * d >= d) by (nonlinear_arith)
        requires
            q >= 1,
            d > 0,
    ;
}

/// A multiple of the block size of a class is a multiple of the block size
/// of every class below it.
proof fn lemma_aligned_to_lower(x: int, class: int, lower: int)
    requires
        0 <= lower <= class < 10,
        x % block_size(class) == 0,
    ensures
        x % block_size(lower) == 0,
    decreases class - lower,
{
    if lower < class {
        lemma_block_size(class - 1);
        lemma_block_size(class);
        lemma_aligned_difference(0, x, block_size(class));
        let q = x / block_size(class);
        assert(x == (2 * q) * block_size(class - 1)) by (nonlinear_arith)
            requires
                x == q * block_size(class),
                block_size(class) == 2 * block_size(class - 1),
        ;
        lemma_quotient(x, block_size(class - 1), 2 * q);
        lemma_aligned_to_lower(x, class - 1, lower);
    }
}

/// The block size of a class is a multiple of that of every class below it.
proof fn lemma_size_aligned(class: int, lower: int)
    requires
        0 <= lower <= class < 10,
    ensures
        block_size(class) % block_size(lower) == 0,
{
    lemma_block_size(class);
    lemma_quotient(block_size(class), block_size(class), 1);
    lemma_aligned_to_lower(block_size(class), class, lower);
}

/// An aligned block of a class that holds the first byte of an aligned block
/// of a lower or the same class holds all of that block.
proof fn lemma_holds_whole_block(start: int, class: int, outer: int, outer_class: int)
    requires
        0 <= class <= outer_class < 10,
        0 <= outer,
        start % block_size(class) == 0,
        outer % block_size(outer_class) == 0,
        outer <= start < outer + block_size(outer_class),
    ensures
        start + block_size(class) <= outer + block_size(outer_class),
{
    lemma_block_size(class);
    lemma_block_size(outer_class);
    let d = block_size(class);
    lemma_aligned_to_lower(outer, outer_class, class);
    lemma_size_aligned(outer_class, class);
    lemma_sum_aligned(outer, block_size(outer_class), d);
    lemma_aligned_difference(start, outer + block_size(outer_class), d);
    lemma_positive_multiple(outer + block_size(outer_class) - start, d);
}

/// Two aligned blocks of one class that share a byte are one block.
proof fn lemma_same_block(start: int, other: int, class: int)
    requires
        0 <= class < 10,
        start % block_size(class) == 0,
        other % block_size(class) == 0,
        other <= start < other + block_size(class),
    ensures
        start == other,
{
    lemma_block_size(class);
    if start > other {
        lemma_aligned_difference(other, start, block_size(class));
        lemma_positive_multiple(start - other, block_size(class));
    }
}

/// An aligned block of a higher class that holds the first byte of the
/// upper block of a pair holds the first byte of the lower block too.
proof fn lemma_holds_lower_block(lower: int, class: int, outer: int, outer_class: int)
    requires
        0 <= class < outer_class < 10,
        0 <= outer,
        lower % block_size(class + 1) == 0,
        outer % block_size(outer_class) == 0,
        outer <= lower + block_size(class) < outer + block_size(outer_class),
    ensures
        outer <= lower,
{
    lemma_block_size(class);
    lemma_block_size(class + 1);
    lemma_aligned_to_lower(outer, outer_class, class + 1);
    if outer > lower {
        lemma_aligned_difference(lower, outer, block_size(class + 1));
        lemma_positive_multiple(outer - lower, block_size(class + 1));
    }
}

/// What fits in the region and ends at a page boundary ends within the
/// whole pages.
pub proof fn lemma_within_whole_pages(base: int, size: int, class: int, addr: int)
    requires
        base >= 0,
        base % (LARGEST_BLOCK_SIZE as int) == 0,
        block_fits(base, size, class, addr),
    ensures
        addr + block_size(class) <= base + whole_pages(size),
{
    lemma_block_size(class);
    lemma_multiple_of_largest(base, 0);
    lemma_block_size(0);
    lemma_aligned_to_lower(addr, class, 0);
    lemma_size_aligned(class, 0);
    lemma_sum_aligned(addr, block_size(class), 4096);
    lemma_aligned_difference(base, addr + block_size(class), 4096);
    let q = (addr + block_size(class) - base) / 4096;
    let w = size / 4096;
    vstd::arithmetic::div_mod::lemma_fundamental_div_mod(size, 4096);
    assert(q <= w) by (nonlinear_arith)
        requires
            q * 4096 <= 4096 * w + size % 4096,
            0 <= size % 4096 < 4096,
    ;
    assert(q * 4096 <= 4096 * w) by (nonlinear_arith)
        requires
            q <= w,
    ;
}

/// Where every whole page is free, a block that fits lies within one free
/// block of its own or a higher class.
proof fn lemma_inside_free_block(
    base: int,
    size: int,
    free: Set<FreeBlock>,
    bits: Seq<Seq<bool>>,
    class: int,
    addr: int,
) -> (outer: FreeBlock)
    requires
        well_formed(base, size, free, bits),
        all_free(base, size, free),
        block_fits(base, size, class, addr),
    ensures
        free.contains(outer),
        class <= outer.0 < 10,
        outer.1 <= addr,
        addr + block_size(class) <= outer.1 + block_size(outer.0),
    decreases class,
{
    lemma_block_size(class);
    lemma_within_whole_pages(base, size, class, addr);
    assert(is_free_byte(free, addr));
    let found = choose|b: FreeBlock|
        #[trigger] free.contains(b) && b.1 <= addr < b.1 + block_size(b.0);
    assert(block_fits(base, size, found.0, found.1));
    lemma_block_size(found.0);
    if found.0 >= class {
        lemma_holds_whole_block(addr, class, found.1, found.0);
        found
    } else {
        // a smaller free block starts here: its buddy lies in the block
        // too, is free in some way, and would have merged with it
        let small = found.0;
        let half = block_size(small);
        lemma_aligned_to_lower(addr, class, small);
        lemma_same_block(addr, found.1, small);
        lemma_aligned_to_lower(addr, class, small + 1);
        lemma_block_size(small + 1);
        lemma_size_aligned(class, small + 1);
        let upper = addr + half;
        lemma_sum_aligned(addr, half, half);
        assert(block_fits(base, size, small, upper));
        let around = lemma_inside_free_block(base, size, free, bits, small, upper);
        lemma_block_size(around.0);
        assert(block_fits(base, size, around.0, around.1));
        // the block at `addr` is the lower one of its pair
        lemma_multiple_of_largest(base, small + 1);
        lemma_aligned_difference(base, addr, block_size(small + 1));
        let q = (addr - base) / block_size(small + 1);
        assert(addr - base == (2 * q) * half) by (nonlinear_arith)
            requires
                addr - base == q * block_size(small + 1),
                block_size(small + 1) == 2 * half,
        ;
        lemma_quotient(addr - base, half, 2 * q);
        lemma_pair(base, size, small, addr);
        assert(buddy_of(base, small, addr) == upper);
        lemma_free_block_bit(base, size, free, bits, small, addr);
        if around.0 == small {
            lemma_same_block(upper, around.1, small);
            assert(false);
        } else {
            lemma_holds_lower_block(addr, small, around.1, around.0);
            assert(!disjoint(around, found));
            assert(false);
        }
        found
    }
}

/// Where every whole page is free, every free block is one of the largest
/// that fit.
proof fn lemma_free_is_largest(
    base: int,
    size: int,
    free: Set<FreeBlock>,
    bits: Seq<Seq<bool>>,
    class: int,
    addr: int,
)
    requires
        well_formed(base, size, free, bits),
        all_free(base, size, free),
        free.contains((class, addr)),
    ensures
        is_largest_fitting(base, size, class, addr),
{
    lemma_block_size(class);
    assert(block_fits(base, size, class, addr));
    if class < 9 {
        let bs = block_size(class);
        lemma_pair(base, size, class, addr);
        lemma_free_block_bit(base, size, free, bits, class, addr);
        let buddy = buddy_of(base, class, addr);
        let pair = pair_index(base, class, addr);
        let lower = lower_of(base, class, pair);
        lemma_block_size(class + 1);
        // the lower block of a pair starts at a multiple of twice the block size
        lemma_multiple_of_largest(base, class + 1);
        assert(2 * pair * bs == pair * block_size(class + 1)) by (nonlinear_arith)
            requires
                block_size(class + 1) == 2 * bs,
        ;
        lemma_quotient(2 * pair * bs, block_size(class + 1), pair);
        lemma_sum_aligned(base, 2 * pair * bs, block_size(class + 1));
        assert(lower % block_size(class + 1) == 0);
        assert(upper_of(base, class, pair) == lower + bs) by {
            assert((2 * pair + 1) * bs == 2 * pair * bs + bs) by (nonlinear_arith);
        }
        if buddy + bs <= base + size {
            assert(block_fits(base, size, class, buddy));
            let around = lemma_inside_free_block(base, size, free, bits, class, buddy);
            lemma_block_size(around.0);
            assert(block_fits(base, size, around.0, around.1));
            if around.0 == class {
                lemma_same_block(buddy, around.1, class);
                assert(false);
            } else {
                // a larger free block around the buddy is around this block too
                if buddy == lower + bs {
                    lemma_holds_lower_block(lower, class, around.1, around.0);
                } else {
                    assert(buddy == lower);
                    lemma_holds_whole_block(lower, class + 1, around.1, around.0);
                }
                assert(!disjoint(around, (class, addr)));
                assert(false);
            }
        }
    }
}

/// Where every whole page is free, each of the largest blocks that fit is free.
proof fn lemma_largest_is_free(
    base: int,
    size: int,
    free: Set<FreeBlock>,
    bits: Seq<Seq<bool>>,
    class: int,
    addr: int,
)
    requires
        well_formed(base, size, free, bits),
        all_free(base, size, free),
        is_largest_fitting(base, size, class, addr),
    ensures
        free.contains((class, addr)),
{
    lemma_block_size(class);
    let around = lemma_inside_free_block(base, size, free, bits, class, addr);
    lemma_block_size(around.0);
    assert(block_fits(base, size, around.0, around.1));
    if around.0 == class {
        lemma_same_block(addr, around.1, class);
    } else {
        // a larger free block would hold the whole pair, which does not fit
        lemma_block_size(class + 1);
        lemma_multiple_of_largest(base, class + 1);
        lemma_multiple_of_largest(base, class);
        lemma_aligned_difference(base, addr, block_size(class));
        let n = (addr - base) / block_size(class);
        assert(addr - base == (n / 2) * block_size(class + 1)) by (nonlinear_arith)
            requires
                addr - base == n * block_size(class),
                n % 2 == 0,
                block_size(class + 1) == 2 * block_size(class),
        ;
        lemma_quotient(addr - base, block_size(class + 1), n / 2);
        lemma_sum_aligned(base, addr - base, block_size(class + 1));
        lemma_holds_whole_block(addr, class + 1, around.1, around.0);
        assert(false);
    }
}

/// Where every whole page is free, the free blocks are the largest blocks
/// that fit, and no others.
pub proof fn lemma_all_free_blocks(base: int, size: int, free: Set<FreeBlock>, bits: Seq<Seq<bool>>)
    requires
        well_formed(base, size, free, bits),
        all_free(base, size, free),
    ensures
        free == largest_fitting_blocks(base, size),
{
    let largest = largest_fitting_blocks(base, size);
    assert forall|b: FreeBlock| free.contains(b) == largest.contains(b) by {
        if free.contains(b) {
            lemma_free_is_largest(base, size, free, bits, b.0, b.1);
        }
        if largest.contains(b) {
            lemma_largest_is_free(base, size, free, bits, b.0, b.1);
        }
    }
    assert(free =~= largest);
}

} // verus!
