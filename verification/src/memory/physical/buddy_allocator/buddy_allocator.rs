use super::bitmap::BitMap;
use super::coalescing::{
    largest_fitting_blocks, lemma_all_free_blocks, lemma_within_whole_pages, whole_pages,
};
use super::free_space::{
    all_distinct, block_bytes, block_fits, block_size, buddy_of, free_byte_set, free_bytes,
    free_set_of, is_free_byte, lemma_aligned_difference, lemma_bit_tells_buddy, lemma_block_size,
    lemma_free_block_bit, lemma_free_bytes_bounds, lemma_free_bytes_full_converse,
    lemma_free_bytes_none, lemma_free_bytes_split, lemma_halves, lemma_insert, lemma_insert_count,
    lemma_multiple_of_largest, lemma_pair, lemma_quotient, lemma_remove, lemma_remove_count,
    lemma_remove_value, lemma_set_after_push, lemma_set_after_remove, lemma_sum_aligned,
    lemma_unclaimed, lower_of, pair_index, toggled, unclaimed, upper_of, well_formed, FreeBlock,
};
use super::memory_area::MemoryArea;
use super::{BLOCK_SIZES, LARGEST_BLOCK_SIZE};
use crate::memory::physical::inline_free_list::InlineFreeList;
use crate::memory::physical::{AllocatorError, PhysicalMemoryAllocator, PhysicalMemoryBlock};
use vstd::prelude::*;

verus! {

/// The start of the block of `block_size` bytes that holds `addr`, where blocks
/// start at multiples of their size.
pub open spec fn align_down(addr: int, block_size: int) -> int {
    addr - addr % block_size
}

/// What masking and flipping the bit of a block size do to an address.
proof fn lemma_address_bits(addr: usize, class: int)
    requires
        0 <= class < 10,
    ensures
        addr & !((BLOCK_SIZES[class] - 1) as usize) == addr - addr % BLOCK_SIZES[class],
        addr % BLOCK_SIZES[class] == 0 && (addr / BLOCK_SIZES[class]) % 2 == 0 ==> addr
            ^ BLOCK_SIZES[class] == addr + BLOCK_SIZES[class],
        addr % BLOCK_SIZES[class] == 0 && (addr / BLOCK_SIZES[class]) % 2 != 0 ==> addr
            ^ BLOCK_SIZES[class] == addr - BLOCK_SIZES[class],
{
    lemma_block_size(class);
    if class == 0 {
        assert(addr & !4095usize == addr - addr % 4096usize && (addr % 4096usize == 0 && (addr
            / 4096usize) % 2 == 0 ==> addr ^ 4096usize == addr + 4096usize) && (addr % 4096usize == 0 && (
        addr / 4096usize) % 2 != 0 ==> addr ^ 4096usize == addr - 4096usize)) by (bit_vector);
    } else if class == 1 {
        assert(addr & !8191usize == addr - addr % 8192usize && (addr % 8192usize == 0 && (addr
            / 8192usize) % 2 == 0 ==> addr ^ 8192usize == addr + 8192usize) && (addr % 8192usize == 0 && (
        addr / 8192usize) % 2 != 0 ==> addr ^ 8192usize == addr - 8192usize)) by (bit_vector);
    } else if class == 2 {
        assert(addr & !16383usize == addr - addr % 16384usize && (addr % 16384usize == 0 && (addr
            / 16384usize) % 2 == 0 ==> addr ^ 16384usize == addr + 16384usize) && (addr % 16384usize == 0 && (
        addr / 16384usize) % 2 != 0 ==> addr ^ 16384usize == addr - 16384usize)) by (bit_vector);
    } else if class == 3 {
        assert(addr & !32767usize == addr - addr % 32768usize && (addr % 32768usize == 0 && (addr
            / 32768usize) % 2 == 0 ==> addr ^ 32768usize == addr + 32768usize) && (addr % 32768usize == 0 && (
        addr / 32768usize) % 2 != 0 ==> addr ^ 32768usize == addr - 32768usize)) by (bit_vector);
    } else if class == 4 {
        assert(addr & !65535usize == addr - addr % 65536usize && (addr % 65536usize == 0 && (addr
            / 65536usize) % 2 == 0 ==> addr ^ 65536usize == addr + 65536usize) && (addr % 65536usize == 0 && (
        addr / 65536usize) % 2 != 0 ==> addr ^ 65536usize == addr - 65536usize)) by (bit_vector);
    } else if class == 5 {
        assert(addr & !131071usize == addr - addr % 131072usize && (addr % 131072usize == 0 && (addr
            / 131072usize) % 2 == 0 ==> addr ^ 131072usize == addr + 131072usize) && (addr % 131072usize == 0 && (
        addr / 131072usize) % 2 != 0 ==> addr ^ 131072usize == addr - 131072usize)) by (bit_vector);
    } else if class == 6 {
        assert(addr & !262143usize == addr - addr % 262144usize && (addr % 262144usize == 0 && (addr
            / 262144usize) % 2 == 0 ==> addr ^ 262144usize == addr + 262144usize) && (addr % 262144usize == 0 && (
        addr / 262144usize) % 2 != 0 ==> addr ^ 262144usize == addr - 262144usize)) by (bit_vector);
    } else if class == 7 {
        assert(addr & !524287usize == addr - addr % 524288usize && (addr % 524288usize == 0 && (addr
            / 524288usize) % 2 == 0 ==> addr ^ 524288usize == addr + 524288usize) && (addr % 524288usize == 0 && (
        addr / 524288usize) % 2 != 0 ==> addr ^ 524288usize == addr - 524288usize)) by (bit_vector);
    } else if class == 8 {
        assert(addr & !1048575usize == addr - addr % 1048576usize && (addr % 1048576usize == 0 && (addr
            / 1048576usize) % 2 == 0 ==> addr ^ 1048576usize == addr + 1048576usize) && (addr % 1048576usize == 0 && (
        addr / 1048576usize) % 2 != 0 ==> addr ^ 1048576usize == addr - 1048576usize)) by (bit_vector);
    } else {
        assert(addr & !2097151usize == addr - addr % 2097152usize && (addr % 2097152usize == 0 && (addr
            / 2097152usize) % 2 == 0 ==> addr ^ 2097152usize == addr + 2097152usize) && (addr % 2097152usize == 0 && (
        addr / 2097152usize) % 2 != 0 ==> addr ^ 2097152usize == addr - 2097152usize)) by (bit_vector);
    }
}

/// Masking the low bits of an address off gives the start of its block.
pub proof fn lemma_mask_aligns(addr: usize, class: int)
    requires
        0 <= class < 10,
    ensures
        addr & !((BLOCK_SIZES[class] - 1) as usize) == align_down(addr as int, block_size(class)),
        align_down(addr as int, block_size(class)) % block_size(class) == 0,
        0 <= align_down(addr as int, block_size(class)) <= addr,
{
    lemma_block_size(class);
    lemma_address_bits(addr, class);
    let bs = block_size(class);
    assert(addr as int == bs * (addr as int / bs) + addr as int % bs) by {
        vstd::arithmetic::div_mod::lemma_fundamental_div_mod(addr as int, bs);
    }
    assert(bs * (addr as int / bs) == (addr as int / bs) * bs) by (nonlinear_arith);
    lemma_quotient(align_down(addr as int, bs), bs, addr as int / bs);
}

/// Below the top class, flipping the bit of the block size in the address of
/// a block gives the address of its buddy.
pub proof fn lemma_xor_is_buddy(base: int, size: int, class: int, addr: usize)
    requires
        0 <= class < 9,
        base >= 0,
        base % (LARGEST_BLOCK_SIZE as int) == 0,
        block_fits(base, size, class, addr as int),
        base + size <= usize::MAX,
    ensures
        (addr ^ BLOCK_SIZES[class]) as int == buddy_of(base, class, addr as int),
{
    lemma_block_size(class);
    lemma_address_bits(addr, class);
    lemma_parity(base, class, addr as int);
}

/// Rounding an address at or above `base` down to a block size that divides
/// `base` does not take it below `base`.
pub proof fn lemma_start_above_base(base: int, addr: int, block_size: int)
    requires
        block_size > 0,
        0 <= base <= addr,
        base % block_size == 0,
    ensures
        base <= align_down(addr, block_size),
{
    let q = addr / block_size;
    let h = base / block_size;
    vstd::arithmetic::div_mod::lemma_fundamental_div_mod(addr, block_size);
    vstd::arithmetic::div_mod::lemma_fundamental_div_mod(base, block_size);
    assert(h <= q) by (nonlinear_arith)
        requires
            block_size * h <= block_size * q + addr % block_size,
            0 <= addr % block_size < block_size,
            block_size > 0,
    ;
    assert(block_size * h <= block_size * q) by (nonlinear_arith)
        requires
            h <= q,
            block_size > 0,
    ;
}

/// A multiple of the block size of the next class is a multiple of this one's.
pub proof fn lemma_aligned_to_smaller(addr: int, class: int)
    requires
        0 <= class < 9,
        addr % block_size(class + 1) == 0,
    ensures
        addr % block_size(class) == 0,
{
    lemma_block_size(class);
    lemma_block_size(class + 1);
    lemma_aligned_difference(0, addr, block_size(class + 1));
    let q = addr / block_size(class + 1);
    assert(addr == (2 * q) * block_size(class)) by (nonlinear_arith)
        requires
            addr == q * block_size(class + 1),
            block_size(class + 1) == 2 * block_size(class),
    ;
    lemma_quotient(addr, block_size(class), 2 * q);
}

/// A multiple of a block size is a multiple of the page size.
pub proof fn lemma_aligned_to_page(addr: int, class: int)
    requires
        0 <= class < 10,
        addr % block_size(class) == 0,
    ensures
        addr % 4096 == 0,
    decreases class,
{
    lemma_block_size(class);
    if class > 0 {
        lemma_aligned_to_smaller(addr, class - 1);
        lemma_aligned_to_page(addr, class - 1);
    }
}

/// The class for a request of exactly one block size is the class of that size.
pub proof fn lemma_class_of_block_size(class: int)
    requires
        0 <= class < 10,
    ensures
        class_for(block_size(class)) == class,
{
    lemma_block_size(class);
    if class > 0 {
        lemma_block_size(class - 1);
    }
}

/// Below the top class a block is the lower one of its pair exactly when its
/// address is an even multiple of the block size.
pub proof fn lemma_parity(base: int, class: int, addr: int)
    requires
        0 <= class < 9,
        base >= 0,
        base % (LARGEST_BLOCK_SIZE as int) == 0,
        base <= addr,
        addr % block_size(class) == 0,
    ensures
        (addr / block_size(class)) % 2 == ((addr - base) / block_size(class)) % 2,
{
    lemma_block_size(class);
    let bs = block_size(class);
    lemma_multiple_of_largest(base, class);
    lemma_aligned_difference(base, addr, bs);
    lemma_aligned_difference(0, addr, bs);
    lemma_aligned_difference(0, base, 2 * bs);
    let n = (addr - base) / bs;
    let q = addr / bs;
    let h = base / (2 * bs);
    assert(q * bs == (n + 2 * h) * bs) by (nonlinear_arith)
        requires
            q * bs == n * bs + h * (2 * bs),
    ;
    assert(q == n + 2 * h) by (nonlinear_arith)
        requires
            q * bs == (n + 2 * h) * bs,
            bs > 0,
    ;
}

/// The block of the next class that holds `addr` starts where the block of
/// this class does, or one block size below it.
pub proof fn lemma_parent_block(addr: int, class: int)
    requires
        0 <= class < 9,
        0 <= addr,
    ensures
        align_down(addr, block_size(class + 1)) == if (align_down(addr, block_size(class))
            / block_size(class)) % 2 == 0 {
            align_down(addr, block_size(class))
        } else {
            align_down(addr, block_size(class)) - block_size(class)
        },
{
    lemma_block_size(class);
    let bs = block_size(class);
    let q = addr / bs;
    let r = addr % bs;
    vstd::arithmetic::div_mod::lemma_fundamental_div_mod(addr, bs);
    assert(bs * q == q * bs) by (nonlinear_arith);
    lemma_quotient(align_down(addr, bs), bs, q);
    let k = q / 2;
    if q % 2 == 0 {
        assert(addr == k * (2 * bs) + r) by (nonlinear_arith)
            requires
                addr == q * bs + r,
                q == 2 * k,
        ;
        vstd::arithmetic::div_mod::lemma_fundamental_div_mod_converse(addr, 2 * bs, k, r);
    } else {
        assert(addr == k * (2 * bs) + (bs + r)) by (nonlinear_arith)
            requires
                addr == q * bs + r,
                q == 2 * k + 1,
        ;
        vstd::arithmetic::div_mod::lemma_fundamental_div_mod_converse(addr, 2 * bs, k, bs + r);
    }
}

/// The class whose blocks are the smallest that hold `size` bytes; the top
/// class for every size that no block holds.
pub open spec fn class_for(size: int) -> int {
    if size <= 4096 {
        0
    } else if size <= 8192 {
        1
    } else if size <= 16384 {
        2
    } else if size <= 32768 {
        3
    } else if size <= 65536 {
        4
    } else if size <= 131072 {
        5
    } else if size <= 262144 {
        6
    } else if size <= 524288 {
        7
    } else if size <= 1048576 {
        8
    } else {
        9
    }
}

/// The first class from `from` upwards whose free list holds a block; 10 when
/// there is none.
pub open spec fn first_stocked(lists: Seq<Seq<usize>>, from: int) -> int
    decreases 10 - from,
{
    if from < 0 || from >= 10 {
        10
    } else if lists[from].len() > 0 {
        from
    } else {
        first_stocked(lists, from + 1)
    }
}

/// The address that an allocation from class `class` returns: the head of the
/// first stocked class from `class` upwards.
pub open spec fn taken_address(lists: Seq<Seq<usize>>, class: int) -> int {
    lists[first_stocked(lists, class)][0] as int
}

/// The free lists after an allocation from class `class`: the first stocked
/// class loses its head, and each class below it, down to `class`, gains the
/// upper half of the block that was split there.
pub open spec fn lists_after_take(lists: Seq<Seq<usize>>, class: int) -> Seq<Seq<usize>>
    decreases 10 - class,
{
    if class < 0 || class >= 10 {
        lists
    } else if lists[class].len() > 0 {
        lists.update(class, lists[class].remove(0))
    } else {
        let deeper = lists_after_take(lists, class + 1);
        deeper.update(
            class,
            deeper[class].insert(0, (taken_address(lists, class) + block_size(class)) as usize),
        )
    }
}

/// The free lists after the block of class `class` that holds `addr` was
/// given back. While the buddy of the block is free, below the top class,
/// the buddy leaves its list and the two go on as one block of the next
/// class; where that ends, the block goes to the head of the list. The start
/// of a block is its address with the bits below the block size cleared, and
/// its buddy is at the start with the bit of the block size inverted.
pub open spec fn lists_after_give(lists: Seq<Seq<usize>>, class: int, addr: usize) -> Seq<
    Seq<usize>,
>
    decreases 10 - class,
{
    if class < 0 || class >= 10 {
        lists
    } else {
        let start = addr & !((BLOCK_SIZES[class] - 1) as usize);
        let buddy = start ^ BLOCK_SIZES[class];
        if class < 9 && lists[class].contains(buddy) {
            lists_after_give(
                lists.update(class, lists[class].remove_value(buddy)),
                class + 1,
                addr,
            )
        } else {
            lists.update(class, lists[class].insert(0, start))
        }
    }
}

/// `base` rounded up to a multiple of the largest block size.
pub open spec fn aligned_start(base: int) -> int {
    if base % (LARGEST_BLOCK_SIZE as int) == 0 {
        base
    } else {
        base + (LARGEST_BLOCK_SIZE - base % (LARGEST_BLOCK_SIZE as int))
    }
}

/// The bytes of pair bits that class `class` needs for a region of `size`
/// bytes: one bit for each two blocks, the last byte filled up.
pub open spec fn bitmap_bytes(size: int, class: int) -> int {
    (size + 16 * block_size(class) - 1) / (16 * block_size(class))
}

/// The bytes of pair bits that the classes below `class` need together.
pub open spec fn bitmap_bytes_below(size: int, class: int) -> int
    decreases class,
{
    if class <= 0 {
        0
    } else {
        bitmap_bytes_below(size, class - 1) + bitmap_bytes(size, class - 1)
    }
}

/// The block size in which room for `total` bytes of pair bits is set
/// aside: the smallest that exceeds `total`, or else the largest.
pub open spec fn reserve_unit(total: int, from: int) -> int
    decreases 10 - from,
{
    if from < 0 || from >= 9 {
        LARGEST_BLOCK_SIZE as int
    } else if block_size(from) > total {
        block_size(from)
    } else {
        reserve_unit(total, from + 1)
    }
}

/// The bytes set aside at the top of a region of `size` bytes for the pair
/// bits: whole blocks of the reserve unit.
pub open spec fn reserved_bytes(size: int) -> int {
    let total = bitmap_bytes_below(size, 10);
    let unit = reserve_unit(total, 0);
    ((total + unit - 1) / unit) * unit
}

/// The bytes that remain to be managed of a region of `size` bytes at
/// `base`: what follows the aligned start, less the room for the pair bits;
/// nothing where the region is too small for either.
pub open spec fn usable_bytes(base: int, size: int) -> int {
    let aligned = size - (aligned_start(base) - base);
    if aligned < 0 || reserved_bytes(aligned) > aligned {
        0
    } else {
        aligned - reserved_bytes(aligned)
    }
}

/// Where the managed region starts: at the aligned start, or, where the
/// region does not reach that far, at the multiple below `base`.
pub open spec fn managed_start(base: int, size: int) -> int {
    if aligned_start(base) - base <= size {
        aligned_start(base)
    } else {
        base - base % (LARGEST_BLOCK_SIZE as int)
    }
}

/// The addresses on the list fall from the head on.
pub open spec fn descending(list: Seq<usize>) -> bool {
    forall|i: int, j: int| 0 <= i < j < list.len() ==> list[i] > list[j]
}

/// The addresses on each of the ten lists fall from the head on.
pub open spec fn all_descending(lists: Seq<Seq<usize>>) -> bool {
    forall|c: int| 0 <= c < 10 ==> descending(#[trigger] lists[c])
}

/// Every address on the ten lists lies below `bound`.
pub open spec fn all_below(lists: Seq<Seq<usize>>, bound: int) -> bool {
    forall|c: int, i: int| 0 <= c < 10 && 0 <= i < lists[c].len() ==> (#[trigger] lists[c][i]) < bound
}

/// A block that is given back above all free blocks, and that is the lower
/// one of its pair or of the top class, goes to the head of its list
/// without a merge.
proof fn lemma_give_above_all(lists: Seq<Seq<usize>>, class: int, addr: usize)
    requires
        lists.len() == 10,
        0 <= class < 10,
        all_descending(lists),
        all_below(lists, addr as int),
        addr as int % block_size(class) == 0,
        class < 9 ==> addr as int % block_size(class + 1) == 0,
        addr + block_size(class) <= usize::MAX,
    ensures
        lists_after_give(lists, class, addr) == lists.update(class, lists[class].insert(0, addr)),
        all_descending(lists.update(class, lists[class].insert(0, addr))),
        all_below(lists.update(class, lists[class].insert(0, addr)), addr + block_size(class)),
{
    lemma_block_size(class);
    lemma_address_bits(addr, class);
    let bs = block_size(class);
    let list = lists[class];
    let longer = list.insert(0, addr);
    let after = lists.update(class, longer);
    if class < 9 {
        lemma_block_size(class + 1);
        lemma_aligned_difference(0, addr as int, block_size(class + 1));
        let q = addr as int / block_size(class + 1);
        assert(addr as int == (2 * q) * bs) by (nonlinear_arith)
            requires
                addr as int == q * block_size(class + 1),
                block_size(class + 1) == 2 * bs,
        ;
        lemma_quotient(addr as int, bs, 2 * q);
        let buddy = addr ^ BLOCK_SIZES[class];
        assert(buddy == addr + bs);
        if list.contains(buddy) {
            let i = choose|i: int| 0 <= i < list.len() && list[i] == buddy;
            assert(lists[class][i] < addr);
        }
    }
    assert(descending(longer)) by {
        assert forall|i: int, j: int| 0 <= i < j < longer.len() implies longer[i] > longer[j] by {
            if i == 0 {
                assert(longer[j] == lists[class][j - 1]);
            } else {
                assert(longer[i] == list[i - 1] && longer[j] == list[j - 1]);
            }
        }
    }
    assert forall|c: int| 0 <= c < 10 implies descending(#[trigger] after[c]) by {
        if c != class {
            assert(after[c] == lists[c]);
        }
    }
    assert forall|c: int, i: int| 0 <= c < 10 && 0 <= i < after[c].len() implies (
    #[trigger] after[c][i]) < addr + bs by {
        if c == class {
            if i > 0 {
                assert(after[c][i] == lists[c][i - 1]);
            }
        } else {
            assert(after[c][i] == lists[c][i]);
        }
    }
}

/// A buddy allocator over one region of physical memory: blocks of ten sizes,
/// from 4 KiB to 2 MiB, that split into two buddies of the next smaller size
/// and merge again when both are free.
pub struct BuddyAllocator {
    memory_areas: [MemoryArea; 10],
    size: usize,
    remaining_memory: usize,
    base_address: usize,
}

impl BuddyAllocator {
    /// The address at which the managed region starts.
    pub closed spec fn base(&self) -> int {
        self.base_address as int
    }

    /// The number of bytes in the managed region.
    pub closed spec fn usable_size(&self) -> int {
        self.size as int
    }

    /// The free lists of the ten classes, each head first.
    pub closed spec fn free_lists(&self) -> Seq<Seq<usize>> {
        Seq::new(10, |c: int| self.memory_areas[c].free_list@)
    }

    /// The pair bits of the ten classes.
    pub closed spec fn pair_bits(&self) -> Seq<Seq<bool>> {
        Seq::new(10, |c: int| self.memory_areas[c].bitmap@)
    }

    /// The free blocks.
    pub open spec fn free_set(&self) -> Set<FreeBlock> {
        free_set_of(self.free_lists())
    }

    /// The bytes that belong to free blocks.
    pub open spec fn free_space(&self) -> Set<int> {
        free_byte_set(self.free_set())
    }

    /// The count of free bytes that the allocator keeps.
    pub closed spec fn remaining(&self) -> int {
        self.remaining_memory as int
    }

    /// All but the count of free bytes is in order.
    closed spec fn structure_ok(&self) -> bool {
        &&& well_formed(self.base(), self.usable_size(), self.free_set(), self.pair_bits())
        &&& all_distinct(self.free_lists())
        &&& self.base() + self.usable_size() <= usize::MAX
        &&& forall|c: int|
            0 <= c < 10 ==> (#[trigger] self.memory_areas[c]).block_size == BLOCK_SIZES[c]
                && self.memory_areas[c].merge_buddies == (c != 9)
    }

    /// The allocator is in order: its free blocks and pair bits form a
    /// well-formed buddy system, and it has counted its free bytes right.
    pub closed spec fn wf(&self) -> bool {
        &&& self.structure_ok()
        &&& self.remaining() == free_bytes(
            self.free_set(),
            self.base(),
            self.base() + self.usable_size(),
        )
    }

    /// The bytes of pair bits for class `class` over `size` bytes.
    fn bitmap_byte_count(size: usize, class: usize) -> (count: usize)
        requires
            class < 10,
        ensures
            count == bitmap_bytes(size as int, class as int),
            count * 8 * (2 * block_size(class as int)) >= size,
            count <= size / 65536 + 1,
    {
        proof {
            lemma_block_size(class as int);
        }
        // one bit for a pair of buddies, eight bits to the byte
        let divisor = BLOCK_SIZES[class] * 2 * 8;
        proof {
            vstd::arithmetic::div_mod::lemma_div_is_ordered_by_denominator(
                size as int,
                65536,
                divisor as int,
            );
        }
        let count = if size % divisor == 0 {
            size / divisor
        } else {
            size / divisor + 1
        };
        proof {
            let d = divisor as int;
            let q = size as int / d;
            let r = size as int % d;
            vstd::arithmetic::div_mod::lemma_fundamental_div_mod(size as int, d);
            if r == 0 {
                assert(size + d - 1 == q * d + (d - 1)) by (nonlinear_arith)
                    requires
                        size as int == d * q + r,
                        r == 0,
                ;
                vstd::arithmetic::div_mod::lemma_fundamental_div_mod_converse(
                    size + d - 1,
                    d,
                    q,
                    d - 1,
                );
            } else {
                assert(size + d - 1 == (q + 1) * d + (r - 1)) by (nonlinear_arith)
                    requires
                        size as int == d * q + r,
                ;
                vstd::arithmetic::div_mod::lemma_fundamental_div_mod_converse(
                    size + d - 1,
                    d,
                    q + 1,
                    r - 1,
                );
            }
            assert(count * d >= size) by (nonlinear_arith)
                requires
                    size as int == d * q + r,
                    0 <= r < d,
                    count >= q,
                    r != 0 ==> count == q + 1,
            ;
            assert(count * 8 * (2 * block_size(class as int)) == count * d) by (nonlinear_arith)
                requires
                    d == block_size(class as int) * 2 * 8,
            ;
            assert(q <= size as int / 65536) by {
                vstd::arithmetic::div_mod::lemma_div_is_ordered_by_denominator(
                    size as int,
                    65536,
                    d,
                );
            }
        }
        count
    }

    /// An empty class with room for `byte_count` bytes of pair bits.
    fn empty_area(class: usize, byte_count: usize) -> (area: MemoryArea)
        requires
            class < 10,
        ensures
            area.free_list@ == Seq::<usize>::empty(),
            area.bitmap@.len() == byte_count * 8,
            forall|i: int| 0 <= i < area.bitmap@.len() ==> !area.bitmap@[i],
            area.block_size == BLOCK_SIZES[class as int],
            area.merge_buddies == (class != 9),
    {
        MemoryArea {
            bitmap: BitMap::new(byte_count),
            free_list: InlineFreeList::new(),
            block_size: BLOCK_SIZES[class],
            merge_buddies: class != 9,
        }
    }

    /// The block size in which room for `total` bytes is set aside.
    fn fittest_block_size(total: usize) -> (unit: usize)
        ensures
            unit == reserve_unit(total as int, 0),
            4096 <= unit <= LARGEST_BLOCK_SIZE,
    {
        let mut index: usize = 0;
        while index < 9
            invariant
                index <= 9,
                reserve_unit(total as int, 0) == reserve_unit(total as int, index as int),
            decreases 9 - index,
        {
            proof {
                lemma_block_size(index as int);
            }
            if BLOCK_SIZES[index] > total {
                return BLOCK_SIZES[index];
            }
            index = index + 1;
        }
        LARGEST_BLOCK_SIZE
    }

    /// The region that starts at the first multiple of the largest block size
    /// in the region given: its start and its size.
    fn aligned_region(base_address: usize, size: usize) -> (region: (usize, usize))
        requires
            base_address + size <= usize::MAX,
        ensures
            region.0 == managed_start(base_address as int, size as int),
            region.0 as int % (LARGEST_BLOCK_SIZE as int) == 0,
            region.0 + region.1 <= usize::MAX,
            aligned_start(base_address as int) - base_address <= size ==> region.1 == size - (
            aligned_start(base_address as int) - base_address),
            aligned_start(base_address as int) - base_address > size ==> region.1 == 0,
    {
        let largest_block_size = LARGEST_BLOCK_SIZE;
        // the base is a multiple of the largest block, so that a block and
        // its buddy differ in one bit of their addresses
        let misalignment = base_address % largest_block_size;
        let prefix = if misalignment == 0 {
            0
        } else {
            largest_block_size - misalignment
        };
        proof {
            let l = LARGEST_BLOCK_SIZE as int;
            let q = base_address as int / l;
            vstd::arithmetic::div_mod::lemma_fundamental_div_mod(base_address as int, l);
            lemma_quotient(base_address - misalignment, l, q);
            if misalignment != 0 {
                lemma_quotient(base_address + prefix, l, q + 1);
            }
        }
        if prefix <= size {
            (base_address + prefix, size - prefix)
        } else {
            (base_address - misalignment, 0)
        }
    }

    /// The bytes of pair bits that all the classes need for `size` bytes.
    fn total_bitmap_byte_count(size: usize) -> (total: usize)
        ensures
            total == bitmap_bytes_below(size as int, 10),
            total <= 10 * (size / 65536 + 1),
    {
        let mut total_bitmap_bytes: usize = 0;
        let mut block_size_index: usize = 0;
        while block_size_index < 10
            invariant
                block_size_index <= 10,
                total_bitmap_bytes == bitmap_bytes_below(size as int, block_size_index as int),
                total_bitmap_bytes <= block_size_index * (size / 65536 + 1),
            decreases 10 - block_size_index,
        {
            let byte_count = Self::bitmap_byte_count(size, block_size_index);
            proof {
                let k = size as int / 65536 + 1;
                assert((block_size_index + 1) * k == block_size_index * k + k) by (nonlinear_arith);
                assert(block_size_index * k <= 9 * k) by (nonlinear_arith)
                    requires
                        block_size_index <= 9,
                        k >= 0,
                ;
            }
            total_bitmap_bytes += byte_count;
            block_size_index += 1;
        }
        total_bitmap_bytes
    }

    /// What is left of `size` bytes once room for the pair bits is set aside.
    fn size_below_bitmaps(size: usize) -> (managed_size: usize)
        ensures
            managed_size <= size,
            managed_size == if reserved_bytes(size as int) > size {
                0
            } else {
                size - reserved_bytes(size as int)
            },
    {
        let total_bitmap_bytes = Self::total_bitmap_byte_count(size);
        let fittest_block_size_for_bitmaps = Self::fittest_block_size(total_bitmap_bytes);

        // round up to whole blocks
        let required_fit_blocks = (total_bitmap_bytes + fittest_block_size_for_bitmaps - 1)
            / fittest_block_size_for_bitmaps;
        proof {
            let unit = fittest_block_size_for_bitmaps as int;
            let sum = total_bitmap_bytes + unit - 1;
            let blocks = required_fit_blocks as int;
            vstd::arithmetic::div_mod::lemma_fundamental_div_mod(sum, unit);
            assert(blocks * unit <= sum) by (nonlinear_arith)
                requires
                    sum == unit * blocks + sum % unit,
                    0 <= sum % unit,
            ;
        }
        let reserved = required_fit_blocks * fittest_block_size_for_bitmaps;
        if reserved <= size {
            size - reserved
        } else {
            0
        }
    }

    /// An allocator over `managed_size` bytes at `base_address` in which no
    /// block is free yet, with pair bits enough for `size` bytes.
    fn with_nothing_free(base_address: usize, size: usize, managed_size: usize) -> (allocator: Self)
        requires
            base_address as int % (LARGEST_BLOCK_SIZE as int) == 0,
            base_address + size <= usize::MAX,
            managed_size <= size,
        ensures
            allocator.wf(),
            allocator.base() == base_address,
            allocator.usable_size() == managed_size,
            allocator.free_space() == Set::<int>::empty(),
            allocator.free_lists() == Seq::new(10, |c: int| Seq::<usize>::empty()),
            allocator.remaining() == 0,
    {
        let memory_areas: [MemoryArea; 10] = [
            Self::empty_area(0, Self::bitmap_byte_count(size, 0)),
            Self::empty_area(1, Self::bitmap_byte_count(size, 1)),
            Self::empty_area(2, Self::bitmap_byte_count(size, 2)),
            Self::empty_area(3, Self::bitmap_byte_count(size, 3)),
            Self::empty_area(4, Self::bitmap_byte_count(size, 4)),
            Self::empty_area(5, Self::bitmap_byte_count(size, 5)),
            Self::empty_area(6, Self::bitmap_byte_count(size, 6)),
            Self::empty_area(7, Self::bitmap_byte_count(size, 7)),
            Self::empty_area(8, Self::bitmap_byte_count(size, 8)),
            Self::empty_area(9, Self::bitmap_byte_count(size, 9)),
        ];
        let new_allocator = Self {
            memory_areas,
            size: managed_size,
            remaining_memory: 0,
            base_address,
        };
        proof {
            let free = new_allocator.free_set();
            let bits = new_allocator.pair_bits();
            let lists = new_allocator.free_lists();
            assert forall|c: int| 0 <= c < 10 implies #[trigger] lists[c] == Seq::<usize>::empty() by {
                assert(lists[c] == new_allocator.memory_areas[c].free_list@);
            }
            assert forall|b: FreeBlock| !free.contains(b) by {
                if 0 <= b.0 < 10 {
                    assert(lists[b.0] == Seq::<usize>::empty());
                }
            }
            assert forall|c: int| 0 <= c < 10 implies (#[trigger] bits[c]).len() * (2 * block_size(
                c,
            )) >= managed_size by {
                let count = bitmap_bytes(size as int, c);
                assert(bits[c] == new_allocator.memory_areas[c].bitmap@);
                assert(bits[c].len() == count * 8);
                assert(count * 8 * (2 * block_size(c)) >= size);
            }
            assert forall|c: int, p: int| 0 <= c < 10 && 0 <= p < bits[c].len() implies !(
            #[trigger] bits[c][p]) by {
                assert(bits[c] == new_allocator.memory_areas[c].bitmap@);
            }
            assert(all_distinct(lists));
            assert(well_formed(base_address as int, managed_size as int, free, bits));
            assert forall|x: int| !is_free_byte(free, x) by {}
            assert(new_allocator.free_space() =~= Set::<int>::empty());
            assert(lists =~= Seq::new(10, |c: int| Seq::<usize>::empty()));
            lemma_free_bytes_none(
                free,
                base_address as int,
                base_address as int + managed_size as int,
            );
        }
        new_allocator
    }

    /// An allocator over the region of `size` bytes at `base_address`. The
    /// managed region starts at the next multiple of the largest block size
    /// and ends below the room that is set aside, in whole blocks at the top,
    /// for the pair bits. Its whole pages are free, in the largest blocks
    /// that fit, and each free list holds its blocks with the highest
    /// address at the head.
    pub fn new(base_address: usize, size: usize) -> (allocator: Self)
        requires
            base_address + size <= usize::MAX,
        ensures
            allocator.wf(),
            allocator.base() == managed_start(base_address as int, size as int),
            allocator.usable_size() == usable_bytes(base_address as int, size as int),
            allocator.remaining() == whole_pages(allocator.usable_size()),
            allocator.free_set() == largest_fitting_blocks(
                allocator.base(),
                allocator.usable_size(),
            ),
            all_descending(allocator.free_lists()),
    {
        let (base_address, size) = Self::aligned_region(base_address, size);
        let managed_size = Self::size_below_bitmaps(size);
        let mut new_allocator = Self::with_nothing_free(base_address, size, managed_size);

        new_allocator.populate_memory();
        proof {
            new_allocator.lemma_coalescing_complete();
        }

        new_allocator
    }

    /// Frees the whole blocks of the managed region, from its start on, each
    /// the largest that still fits.
    fn populate_memory(&mut self)
        requires
            old(self).wf(),
            old(self).free_space() == Set::<int>::empty(),
            old(self).free_lists() == Seq::new(10, |c: int| Seq::<usize>::empty()),
        ensures
            final(self).wf(),
            final(self).base() == old(self).base(),
            final(self).usable_size() == old(self).usable_size(),
            final(self).remaining() == old(self).usable_size() - old(self).usable_size() % 4096,
            all_descending(final(self).free_lists()),
    {
        let smallest_block_size = self.memory_areas[0].block_size;

        let mut remaining_size = self.size;
        let mut next_block_address = self.base_address;

        let mut current_block_size_index: usize = 9;
        proof {
            assert forall|x: int| !is_free_byte(self.free_set(), x) by {
                assert(!self.free_space().contains(x));
            }
            lemma_free_bytes_none(self.free_set(), self.base(), self.base() + self.usable_size());
            lemma_block_size(9);
            lemma_block_size(0);
        }

        while remaining_size >= smallest_block_size
            invariant
                smallest_block_size == 4096,
                self.wf(),
                self.base() == old(self).base(),
                self.usable_size() == old(self).usable_size(),
                self.base_address == self.base(),
                current_block_size_index < 10,
                next_block_address + remaining_size == self.base() + self.usable_size(),
                next_block_address as int % block_size(current_block_size_index as int) == 0,
                current_block_size_index < 9 ==> remaining_size < block_size(
                    current_block_size_index + 1,
                ),
                forall|x: int| x >= next_block_address ==> !self.free_space().contains(x),
                self.remaining() == next_block_address - self.base(),
                current_block_size_index < 9 && remaining_size >= block_size(
                    current_block_size_index as int,
                ) ==> next_block_address as int % block_size(current_block_size_index + 1) == 0,
                all_descending(self.free_lists()),
                all_below(self.free_lists(), next_block_address as int),
            decreases remaining_size, current_block_size_index,
        {
            proof {
                lemma_block_size(current_block_size_index as int);
            }
            if remaining_size < BLOCK_SIZES[current_block_size_index] {
                proof {
                    lemma_block_size(current_block_size_index - 1);
                    lemma_aligned_to_smaller(
                        next_block_address as int,
                        current_block_size_index - 1,
                    );
                }
                current_block_size_index -= 1;
                continue ;
            }
            let block_size = self.memory_areas[current_block_size_index].block_size;
            proof {
                lemma_class_of_block_size(current_block_size_index as int);
                lemma_multiple_of_largest(self.base(), current_block_size_index as int);
                lemma_give_above_all(
                    self.free_lists(),
                    current_block_size_index as int,
                    next_block_address,
                );
            }
            let _ = self.free(
                PhysicalMemoryBlock { base_address: next_block_address, size: block_size },
            );

            remaining_size -= block_size;
            next_block_address += block_size;
            proof {
                lemma_sum_aligned(
                    next_block_address - block_size,
                    block_size as int,
                    block_size as int,
                );
            }
        }
        proof {
            let managed = next_block_address - self.base();
            lemma_block_size(current_block_size_index as int);
            lemma_multiple_of_largest(self.base(), 0);
            lemma_aligned_to_page(next_block_address as int, current_block_size_index as int);
            lemma_aligned_difference(self.base(), next_block_address as int, 4096);
            let q = managed / 4096;
            assert(self.usable_size() == q * 4096 + remaining_size) by (nonlinear_arith)
                requires
                    managed == q * 4096,
                    self.usable_size() == managed + remaining_size,
            ;
            vstd::arithmetic::div_mod::lemma_fundamental_div_mod_converse(
                self.usable_size(),
                4096,
                q,
                remaining_size as int,
            );
        }
    }

    /// The number of free bytes.
    pub fn remaining_memory(&self) -> (remaining: usize)
        ensures
            remaining == self.remaining(),
    {
        self.remaining_memory
    }

    /// The size of the smallest block that the allocator hands out.
    pub fn smallest_block_size(&self) -> (size: usize)
        requires
            self.wf(),
        ensures
            size == 4096,
    {
        self.memory_areas[0].block_size
    }

    fn fit_arena_index(&self, size: usize) -> (index: Option<usize>)
        requires
            self.structure_ok(),
        ensures
            size > LARGEST_BLOCK_SIZE ==> index.is_none(),
            size <= LARGEST_BLOCK_SIZE ==> index == Some(class_for(size as int) as usize),
    {
        let mut index: usize = 0;
        while index < 10
            invariant
                index <= 10,
                self.structure_ok(),
                forall|c: int| 0 <= c < index ==> size > block_size(c),
            decreases 10 - index,
        {
            if size <= self.memory_areas[index].block_size {
                proof {
                    if index > 0 {
                        assert(size > block_size(index - 1));
                    }
                }
                return Some(index);
            }
            index = index + 1;
        }
        assert(size > block_size(9));
        None
    }

    /// Takes a block of class `area_index` out of the free lists: the head of
    /// that class, or else the lower half of a block taken from the next
    /// class, whose upper half joins this class.
    fn inner_alloc(&mut self, area_index: usize) -> (block: usize)
        requires
            old(self).structure_ok(),
            area_index < 10,
            first_stocked(old(self).free_lists(), area_index as int) < 10,
        ensures
            final(self).structure_ok(),
            final(self).base() == old(self).base(),
            final(self).usable_size() == old(self).usable_size(),
            final(self).remaining() == old(self).remaining(),
            block == taken_address(old(self).free_lists(), area_index as int),
            final(self).free_lists() == lists_after_take(old(self).free_lists(), area_index as int),
            block_fits(old(self).base(), old(self).usable_size(), area_index as int, block as int),
            free_bytes(
                final(self).free_set(),
                old(self).base(),
                old(self).base() + old(self).usable_size(),
            ) == free_bytes(
                old(self).free_set(),
                old(self).base(),
                old(self).base() + old(self).usable_size(),
            ) - block_size(area_index as int),
            final(self).free_space() == old(self).free_space().difference(
                block_bytes(area_index as int, block as int),
            ),
            block_bytes(area_index as int, block as int).subset_of(old(self).free_space()),
        decreases 10 - area_index,
    {
        let ghost class = area_index as int;
        let ghost base = self.base();
        let ghost size = self.usable_size();
        let ghost lists = self.free_lists();
        let ghost bits = self.pair_bits();
        let ghost free = self.free_set();
        proof {
            lemma_block_size(class);
        }
        if self.memory_areas[area_index].free_list.len() > 0 {
            proof {
                let head = lists[class][0];
                assert(lists[class].contains(head));
                assert(free.contains((class, head as int)));
                lemma_free_block_bit(base, size, free, bits, class, head as int);
            }
            let taken = self.memory_areas[area_index].allocate_block(self.base_address);
            let head = taken.unwrap();
            proof {
                let pair = pair_index(base, class, head as int);
                assert(self.free_lists() =~= lists.update(class, lists[class].remove(0)));
                assert(self.pair_bits() =~= toggled(bits, class, pair));
                lemma_set_after_remove(lists, class, 0);
                lemma_remove(base, size, free, bits, class, head as int);
                lemma_remove_count(base, size, free, bits, class, head as int);
            }
            head
        } else {
            proof {
                assert(first_stocked(lists, class) == first_stocked(lists, class + 1));
            }
            let parent = self.inner_alloc(area_index + 1);
            let ghost mid_lists = self.free_lists();
            let ghost mid_bits = self.pair_bits();
            let ghost mid_free = self.free_set();
            let half = self.memory_areas[area_index].block_size;
            proof {
                lemma_block_size(class + 1);
                lemma_aligned_to_smaller(parent as int, class);
            }
            let upper = parent + half;
            proof {
                lemma_sum_aligned(parent as int, block_size(class), block_size(class));
                assert(block_fits(base, size, class, upper as int));
                assert(block_fits(base, size, class, parent as int));
                lemma_halves(class, parent as int);
                // neither half is free, so the pair's bit is clear
                assert(block_bytes(class, upper as int).disjoint(free_byte_set(mid_free)));
                assert(block_bytes(class, parent as int).disjoint(free_byte_set(mid_free)));
                lemma_unclaimed(mid_free, class, upper as int);
                lemma_unclaimed(mid_free, class, parent as int);
                lemma_pair(base, size, class, upper as int);
                lemma_pair(base, size, class, parent as int);
                assert(((parent - base) / block_size(class)) % 2 == 0) by {
                    lemma_multiple_of_largest(base, class + 1);
                    lemma_aligned_difference(base, parent as int, block_size(class + 1));
                    let q = (parent - base) / block_size(class + 1);
                    assert(parent - base == (2 * q) * block_size(class)) by (nonlinear_arith)
                        requires
                            parent - base == q * block_size(class + 1),
                            block_size(class + 1) == 2 * block_size(class),
                    ;
                    lemma_quotient(parent - base, block_size(class), 2 * q);
                }
                assert(buddy_of(base, class, upper as int) == parent as int);
                lemma_bit_tells_buddy(base, size, mid_free, mid_bits, class, upper as int);
            }
            let _ = self.memory_areas[area_index].free_block(upper, self.base_address);
            proof {
                let pair = pair_index(base, class, upper as int);
                assert(self.free_lists() =~= mid_lists.update(
                    class,
                    mid_lists[class].insert(0, upper),
                ));
                assert(self.pair_bits() =~= toggled(mid_bits, class, pair));
                assert(!mid_lists[class].contains(upper));
                lemma_set_after_push(mid_lists, class, upper);
                lemma_insert(base, size, mid_free, mid_bits, class, upper as int);
                lemma_insert_count(base, size, mid_free, mid_bits, class, upper as int);
                assert(self.free_space() =~= old(self).free_space().difference(
                    block_bytes(class, parent as int),
                ));
                assert(block_bytes(class, parent as int).subset_of(old(self).free_space()));
            }
            parent
        }
    }

    /// Whether a request for `size` bytes is met: that many bytes are free,
    /// a block holds them, and a block of a fitting class is free.
    pub open spec fn can_allocate(&self, size: usize) -> bool {
        &&& self.remaining() >= size
        &&& size <= LARGEST_BLOCK_SIZE
        &&& first_stocked(self.free_lists(), class_for(size as int)) < 10
    }

    /// The error for a request for `size` bytes that is not met.
    pub open spec fn allocate_error(&self, size: usize) -> AllocatorError {
        if self.remaining() >= size && size > LARGEST_BLOCK_SIZE {
            AllocatorError::UnsupportedSize
        } else {
            AllocatorError::OutOfMemory
        }
    }

    /// `after` is this allocator once `block` was handed out for a request
    /// of `size` bytes: the block is the head of the first stocked class from
    /// the class for `size` upwards, cut down to that class, and its bytes,
    /// free before, are free no more.
    pub open spec fn allocation(&self, size: usize, block: PhysicalMemoryBlock, after: Self) -> bool {
        let class = class_for(size as int);
        &&& after.wf()
        &&& after.base() == self.base()
        &&& after.usable_size() == self.usable_size()
        &&& block.size == block_size(class)
        &&& block.base_address == taken_address(self.free_lists(), class)
        &&& block_fits(self.base(), self.usable_size(), class, block.base_address as int)
        &&& after.free_lists() == lists_after_take(self.free_lists(), class)
        &&& after.remaining() == self.remaining() - block.size
        &&& after.free_space() == self.free_space().difference(
            block_bytes(class, block.base_address as int),
        )
        &&& block_bytes(class, block.base_address as int).subset_of(self.free_space())
    }

    /// Hands out a block of the smallest class that holds `size` bytes. The
    /// block is the head of the first class from there upwards that has a
    /// free block; a larger block is split, and the upper half of each split
    /// stays free. Fails with `OutOfMemory` when fewer than `size` bytes are
    /// free or no block of a fitting class is, and with `UnsupportedSize`
    /// when `size` exceeds the largest block.
    pub fn allocate(&mut self, size: usize) -> (result: Result<PhysicalMemoryBlock, AllocatorError>)
        requires
            old(self).wf(),
        ensures
            match result {
                Ok(block) => old(self).can_allocate(size) && old(self).allocation(
                    size,
                    block,
                    *final(self),
                ),
                Err(error) => !old(self).can_allocate(size) && error == old(self).allocate_error(
                    size,
                ) && *final(self) == *old(self),
            },
    {
        if self.remaining_memory < size {
            return Err(AllocatorError::OutOfMemory);
        }
        let area_index = match self.fit_arena_index(size) {
            Some(area_index) => area_index,
            None => {
                return Err(AllocatorError::UnsupportedSize);
            },
        };
        if !self.has_block_from(area_index) {
            return Err(AllocatorError::OutOfMemory);
        }
        let base_address = self.inner_alloc(area_index);
        let granted = self.memory_areas[area_index].block_size;
        proof {
            lemma_free_bytes_bounds(
                self.free_set(),
                self.base(),
                self.base() + self.usable_size(),
            );
        }
        let ghost taken = *self;
        self.remaining_memory -= granted;
        proof {
            assert(self.free_lists() =~= taken.free_lists());
            assert(self.pair_bits() =~= taken.pair_bits());
        }
        Ok(PhysicalMemoryBlock { base_address, size: granted })
    }

    /// The block lies in the managed region, and no byte of the block of its
    /// class that it stands for is free: it was handed out and not given back.
    pub open spec fn holds(&self, block: PhysicalMemoryBlock) -> bool {
        let class = class_for(block.size as int);
        let start = align_down(block.base_address as int, block_size(class));
        &&& start + block_size(class) <= self.base() + self.usable_size()
        &&& block_bytes(class, start).disjoint(self.free_space())
    }

    /// While a block is given back: the block of class `class` that holds
    /// `address` is neither free nor counted yet, and with it this allocator
    /// holds the free bytes of `origin` and the block that is given back.
    closed spec fn giving(&self, origin: Self, address: usize, first_class: int, class: int) -> bool {
        let start = align_down(address as int, block_size(class));
        let first_start = align_down(address as int, block_size(first_class));
        &&& 0 <= first_class <= class < 10
        &&& self.structure_ok()
        &&& self.base() == origin.base()
        &&& self.usable_size() == origin.usable_size()
        &&& self.remaining() == origin.remaining() + block_size(first_class)
        &&& block_fits(self.base(), self.usable_size(), class, start)
        &&& block_bytes(class, start).disjoint(self.free_space())
        &&& free_bytes(self.free_set(), self.base(), self.base() + self.usable_size()) + block_size(
            class,
        ) == free_bytes(origin.free_set(), self.base(), self.base() + self.usable_size())
            + block_size(first_class)
        &&& self.free_space().union(block_bytes(class, start)) == origin.free_space().union(
            block_bytes(first_class, first_start),
        )
        &&& lists_after_give(self.free_lists(), class, address) == lists_after_give(
            origin.free_lists(),
            first_class,
            address,
        )
    }

    /// The block of class `first_class` that holds `address` was given back
    /// to `origin`, and this allocator is what came of it.
    closed spec fn given(&self, origin: Self, address: usize, first_class: int) -> bool {
        let first_start = align_down(address as int, block_size(first_class));
        &&& self.structure_ok()
        &&& self.base() == origin.base()
        &&& self.usable_size() == origin.usable_size()
        &&& self.remaining() == origin.remaining() + block_size(first_class)
        &&& free_bytes(self.free_set(), self.base(), self.base() + self.usable_size())
            == free_bytes(origin.free_set(), self.base(), self.base() + self.usable_size())
            + block_size(first_class)
        &&& self.free_space() == origin.free_space().union(block_bytes(first_class, first_start))
        &&& self.free_lists() == lists_after_give(origin.free_lists(), first_class, address)
    }

    /// What holds of the pending block before its class takes it.
    proof fn lemma_give_prepare(&self, origin: Self, address: usize, first_class: int, class: int)
        requires
            self.giving(origin, address, first_class, class),
        ensures
            ({
                let start = address & !((BLOCK_SIZES[class] - 1) as usize);
                let pair = pair_index(self.base(), class, start as int);
                &&& start as int == align_down(address as int, block_size(class))
                &&& start >= self.base()
                &&& 0 <= pair < self.pair_bits()[class].len()
                &&& pair == super::memory_area::buddy_bitmap_index(
                    self.base(),
                    start as int,
                    block_size(class),
                )
                &&& !self.free_lists()[class].contains(start)
                &&& unclaimed(self.free_set(), class, start as int)
                &&& class < 9 ==> self.pair_bits()[class][pair] == self.free_lists()[class].contains(
                    start ^ BLOCK_SIZES[class],
                )
            }),
    {
        let base = self.base();
        let size = self.usable_size();
        let free = self.free_set();
        let bits = self.pair_bits();
        let start = address & !((BLOCK_SIZES[class] - 1) as usize);
        lemma_block_size(class);
        lemma_mask_aligns(address, class);
        lemma_unclaimed(free, class, start as int);
        lemma_bit_tells_buddy(base, size, free, bits, class, start as int);
        lemma_pair(base, size, class, start as int);
        if class < 9 {
            lemma_xor_is_buddy(base, size, class, start);
        }
    }

    /// One step up: the buddy of the pending block left its list, and the two
    /// are the pending block of the next class.
    proof fn lemma_give_merged(
        &self,
        after: Self,
        origin: Self,
        address: usize,
        first_class: int,
        class: int,
    )
        requires
            self.giving(origin, address, first_class, class),
            class < 9,
            ({
                let start = address & !((BLOCK_SIZES[class] - 1) as usize);
                let pair = pair_index(self.base(), class, start as int);
                &&& self.free_lists()[class].contains(start ^ BLOCK_SIZES[class])
                &&& after.free_lists() == self.free_lists().update(
                    class,
                    self.free_lists()[class].remove_value(start ^ BLOCK_SIZES[class]),
                )
                &&& after.pair_bits() == toggled(self.pair_bits(), class, pair)
            }),
            after.base() == self.base(),
            after.usable_size() == self.usable_size(),
            after.remaining() == self.remaining(),
            forall|c: int|
                0 <= c < 10 ==> (#[trigger] after.memory_areas[c]).block_size == BLOCK_SIZES[c]
                    && after.memory_areas[c].merge_buddies == (c != 9),
        ensures
            after.giving(origin, address, first_class, class + 1),
    {
        let base = self.base();
        let size = self.usable_size();
        let lists = self.free_lists();
        let bits = self.pair_bits();
        let free = self.free_set();
        let start = address & !((BLOCK_SIZES[class] - 1) as usize);
        let gone = start ^ BLOCK_SIZES[class];
        let buddy = buddy_of(base, class, start as int);
        self.lemma_give_prepare(origin, address, first_class, class);
        lemma_block_size(class);
        lemma_block_size(class + 1);
        lemma_pair(base, size, class, start as int);
        lemma_xor_is_buddy(base, size, class, start);
        assert(gone as int == buddy);
        assert(free.contains((class, buddy)));
        lemma_remove_value(lists[class], gone);
        let index = lists[class].index_of(gone);
        lemma_set_after_remove(lists, class, index);
        lemma_free_block_bit(base, size, free, bits, class, buddy);
        lemma_remove(base, size, free, bits, class, buddy);
        lemma_remove_count(base, size, free, bits, class, buddy);
        assert(after.free_set() == free.remove((class, buddy)));
        // the two buddies are the block of the next class
        lemma_parent_block(address as int, class);
        lemma_parity(base, class, start as int);
        let parent = align_down(address as int, block_size(class + 1));
        lemma_mask_aligns(address, class + 1);
        assert(parent == if start as int <= buddy {
            start as int
        } else {
            buddy
        });
        assert(block_fits(base, size, class + 1, parent));
        lemma_halves(class, parent);
        let first_start = align_down(address as int, block_size(first_class));
        assert(block_bytes(class + 1, parent) =~= block_bytes(class, start as int).union(
            block_bytes(class, buddy),
        ));
        assert(block_bytes(class + 1, parent).disjoint(after.free_space()));
        assert(after.free_space().union(block_bytes(class + 1, parent)) =~= self.free_space().union(
            block_bytes(class, start as int),
        ));
    }

    /// The last step: the pending block went to the head of its list.
    proof fn lemma_give_pushed(
        &self,
        after: Self,
        origin: Self,
        address: usize,
        first_class: int,
        class: int,
    )
        requires
            self.giving(origin, address, first_class, class),
            ({
                let start = address & !((BLOCK_SIZES[class] - 1) as usize);
                let pair = pair_index(self.base(), class, start as int);
                &&& class < 9 ==> !self.free_lists()[class].contains(start ^ BLOCK_SIZES[class])
                &&& after.free_lists() == self.free_lists().update(
                    class,
                    self.free_lists()[class].insert(0, start),
                )
                &&& after.pair_bits() == toggled(self.pair_bits(), class, pair)
            }),
            after.base() == self.base(),
            after.usable_size() == self.usable_size(),
            after.remaining() == self.remaining(),
            forall|c: int|
                0 <= c < 10 ==> (#[trigger] after.memory_areas[c]).block_size == BLOCK_SIZES[c]
                    && after.memory_areas[c].merge_buddies == (c != 9),
        ensures
            after.given(origin, address, first_class),
    {
        let base = self.base();
        let size = self.usable_size();
        let lists = self.free_lists();
        let bits = self.pair_bits();
        let free = self.free_set();
        let start = address & !((BLOCK_SIZES[class] - 1) as usize);
        self.lemma_give_prepare(origin, address, first_class, class);
        lemma_block_size(class);
        lemma_pair(base, size, class, start as int);
        if class < 9 {
            lemma_xor_is_buddy(base, size, class, start);
            if free.contains((class, buddy_of(base, class, start as int))) {
                assert(lists[class].contains(start ^ BLOCK_SIZES[class]));
            }
        }
        lemma_set_after_push(lists, class, start);
        lemma_insert(base, size, free, bits, class, start as int);
        lemma_insert_count(base, size, free, bits, class, start as int);
        assert(after.free_set() == free.insert((class, start as int)));
    }

    /// Whether `block` is taken back: its address lies in the managed region
    /// and a block holds its size.
    pub open spec fn can_free(&self, block: PhysicalMemoryBlock) -> bool {
        &&& self.base() <= block.base_address < self.base() + self.usable_size()
        &&& block.size <= LARGEST_BLOCK_SIZE
    }

    /// The error for a block that is not taken back.
    pub open spec fn free_error(&self, block: PhysicalMemoryBlock) -> AllocatorError {
        if self.base() <= block.base_address < self.base() + self.usable_size() {
            AllocatorError::UnsupportedSize
        } else {
            AllocatorError::FreeOutOfBounds
        }
    }

    /// `after` is this allocator once `block` was taken back: its bytes are
    /// free again, merged with every free buddy on the way up.
    pub open spec fn release(&self, block: PhysicalMemoryBlock, after: Self) -> bool {
        let class = class_for(block.size as int);
        let start = align_down(block.base_address as int, block_size(class));
        &&& after.wf()
        &&& after.base() == self.base()
        &&& after.usable_size() == self.usable_size()
        &&& after.free_lists() == lists_after_give(self.free_lists(), class, block.base_address)
        &&& after.remaining() == self.remaining() + block_size(class)
        &&& after.free_space() == self.free_space().union(block_bytes(class, start))
    }

    /// Takes a block back. The block is the one of the smallest class that
    /// holds `block_to_free.size` bytes, at `block_to_free.base_address`
    /// rounded down to that class's block size. It merges with its buddy as
    /// long as the buddy is free, and what results goes to the head of its
    /// class's free list. Fails with `FreeOutOfBounds` when the address lies
    /// outside the managed region, and with `UnsupportedSize` when the size
    /// exceeds the largest block.
    pub fn free(&mut self, block_to_free: PhysicalMemoryBlock) -> (result: Result<
        (),
        AllocatorError,
    >)
        requires
            old(self).wf(),
            old(self).can_free(block_to_free) ==> old(self).holds(block_to_free),
        ensures
            match result {
                Ok(()) => old(self).can_free(block_to_free) && old(self).release(
                    block_to_free,
                    *final(self),
                ),
                Err(error) => !old(self).can_free(block_to_free) && error == old(self).free_error(
                    block_to_free,
                ) && *final(self) == *old(self),
            },
    {
        if block_to_free.base_address < self.base_address || block_to_free.base_address
            - self.base_address >= self.size {
            return Err(AllocatorError::FreeOutOfBounds);
        }
        let mut area_index = match self.fit_arena_index(block_to_free.size) {
            Some(area_index) => area_index,
            None => {
                return Err(AllocatorError::UnsupportedSize);
            },
        };
        let ghost first_class = area_index as int;
        let address = block_to_free.base_address;
        proof {
            let base = self.base();
            let size = self.usable_size();
            let first_start = align_down(address as int, block_size(first_class));
            lemma_block_size(first_class);
            lemma_mask_aligns(address, first_class);
            lemma_multiple_of_largest(base, first_class);
            lemma_start_above_base(base, address as int, block_size(first_class));
            lemma_unclaimed(self.free_set(), first_class, first_start);
            lemma_insert_count(
                base,
                size,
                self.free_set(),
                self.pair_bits(),
                first_class,
                first_start,
            );
            lemma_free_bytes_bounds(
                self.free_set().insert((first_class, first_start)),
                base,
                base + size,
            );
        }
        self.remaining_memory += self.memory_areas[area_index].block_size;
        proof {
            assert(self.free_lists() =~= old(self).free_lists());
            assert(self.pair_bits() =~= old(self).pair_bits());
        }
        loop
            invariant_except_break
                self.giving(*old(self), address, first_class, area_index as int),
            invariant
                area_index < 10,
            ensures
                self.given(*old(self), address, first_class),
            decreases 10 - area_index,
        {
            let ghost class = area_index as int;
            let ghost before = *self;
            let area_block_size = self.memory_areas[area_index].block_size;
            // the lower block of a pair, where blocks are freed in a chain
            let start = address & !(area_block_size - 1);
            proof {
                lemma_block_size(class);
                before.lemma_give_prepare(*old(self), address, first_class, class);
                if class < 9 && before.pair_bits()[class][pair_index(
                    before.base(),
                    class,
                    start as int,
                )] {
                    assert(before.memory_areas[class].free_list@ == before.free_lists()[class]);
                }
            }
            let merged = self.memory_areas[area_index].free_block(start, self.base_address);
            proof {
                let pair = pair_index(before.base(), class, start as int);
                assert(self.pair_bits() =~= toggled(before.pair_bits(), class, pair));
                assert(merged == Some(before.pair_bits()[class][pair]));
            }
            if area_index < 9 && merged == Some(true) {
                proof {
                    assert(self.free_lists() =~= before.free_lists().update(
                        class,
                        before.free_lists()[class].remove_value(start ^ area_block_size),
                    ));
                    before.lemma_give_merged(*self, *old(self), address, first_class, class);
                }
                area_index += 1;
            } else {
                proof {
                    assert(self.free_lists() =~= before.free_lists().update(
                        class,
                        before.free_lists()[class].insert(0, start),
                    ));
                    before.lemma_give_pushed(*self, *old(self), address, first_class, class);
                }
                break ;
            }
        }
        Ok(())
    }

    /// No more bytes are free than the whole pages of the managed region
    /// hold: so the blocks handed out and not given back, which are what
    /// construction made free less what is free now, never exceed the usable
    /// size.
    pub proof fn lemma_remaining_is_bounded(&self)
        requires
            self.wf(),
        ensures
            0 <= self.remaining() <= whole_pages(self.usable_size()),
            whole_pages(self.usable_size()) <= self.usable_size(),
    {
        let base = self.base();
        let size = self.usable_size();
        let free = self.free_set();
        let whole = whole_pages(size);
        lemma_free_bytes_split(free, base, base + whole, base + size);
        lemma_free_bytes_bounds(free, base, base + whole);
        self.lemma_no_free_byte_in_the_rest();
        lemma_free_bytes_none(free, base + whole, base + size);
    }

    /// The bit of a pair is set exactly when one of its two blocks is free
    /// and the other is not; and below the top class the two are never both
    /// free, so a clear bit there says that neither is.
    pub proof fn lemma_pair_bit(&self, class: int, pair: int)
        requires
            self.wf(),
            0 <= class < 10,
            0 <= pair < self.pair_bits()[class].len(),
        ensures
            self.pair_bits()[class][pair] == (self.free_set().contains(
                (class, lower_of(self.base(), class, pair)),
            ) != self.free_set().contains((class, upper_of(self.base(), class, pair)))),
            class < 9 ==> !(self.free_set().contains((class, lower_of(self.base(), class, pair)))
                && self.free_set().contains((class, upper_of(self.base(), class, pair)))),
    {
    }

    /// A block that was handed out may be given back, and giving it back
    /// right away restores the count of free bytes and the free bytes
    /// themselves.
    pub proof fn lemma_allocate_then_free(
        &self,
        size: usize,
        block: PhysicalMemoryBlock,
        between: Self,
        after: Self,
    )
        requires
            self.wf(),
            self.allocation(size, block, between),
            between.release(block, after),
        ensures
            between.can_free(block),
            between.holds(block),
            after.remaining() == self.remaining(),
            after.free_space() == self.free_space(),
    {
        let class = class_for(size as int);
        lemma_block_size(class);
        lemma_class_of_block_size(class);
        let start = block.base_address as int;
        assert(align_down(start, block_size(class)) == start);
        assert(after.free_space() =~= self.free_space());
    }

    /// Where every whole page of the managed region is free, the free
    /// blocks are the largest blocks that fit, whatever was handed out and
    /// given back before: free buddies have all merged.
    pub proof fn lemma_coalescing_complete(&self)
        requires
            self.wf(),
            self.remaining() == whole_pages(self.usable_size()),
        ensures
            self.free_set() == largest_fitting_blocks(self.base(), self.usable_size()),
    {
        let base = self.base();
        let size = self.usable_size();
        let free = self.free_set();
        let whole = whole_pages(size);
        self.lemma_remaining_is_bounded();
        lemma_free_bytes_split(free, base, base + whole, base + size);
        lemma_free_bytes_bounds(free, base, base + whole);
        lemma_free_bytes_bounds(free, base + whole, base + size);
        assert(free_bytes(free, base + whole, base + size) == 0) by {
            self.lemma_no_free_byte_in_the_rest();
            lemma_free_bytes_none(free, base + whole, base + size);
        }
        assert forall|x: int| base <= x < base + whole implies is_free_byte(free, x) by {
            lemma_free_bytes_full_converse(free, base, base + whole, x);
        }
        lemma_all_free_blocks(base, size, free, self.pair_bits());
    }

    /// Once every block is given back, the free blocks are those of the
    /// allocator as it was made: two allocators over one region in which
    /// every whole page is free hold the same free blocks.
    pub proof fn lemma_all_given_back(&self, fresh: Self)
        requires
            self.wf(),
            fresh.wf(),
            self.base() == fresh.base(),
            self.usable_size() == fresh.usable_size(),
            fresh.remaining() == whole_pages(fresh.usable_size()),
            self.remaining() == fresh.remaining(),
        ensures
            self.free_set() == fresh.free_set(),
    {
        self.lemma_coalescing_complete();
        fresh.lemma_coalescing_complete();
    }

    /// No byte after the whole pages of the managed region is free.
    proof fn lemma_no_free_byte_in_the_rest(&self)
        requires
            self.wf(),
        ensures
            forall|x: int|
                self.base() + whole_pages(self.usable_size()) <= x < self.base()
                    + self.usable_size() ==> !is_free_byte(self.free_set(), x),
    {
        let base = self.base();
        let size = self.usable_size();
        let free = self.free_set();
        let whole = whole_pages(size);
        assert forall|x: int| base + whole <= x < base + size implies !is_free_byte(free, x) by {
            if is_free_byte(free, x) {
                let b = choose|b: FreeBlock|
                    #[trigger] free.contains(b) && b.1 <= x < b.1 + block_size(b.0);
                lemma_within_whole_pages(base, size, b.0, b.1);
            }
        }
    }

    /// The managed region of an allocator in order ends within the address
    /// space.
    pub proof fn lemma_region_fits(&self)
        requires
            self.wf(),
        ensures
            0 <= self.base(),
            0 <= self.usable_size(),
            self.base() + self.usable_size() <= usize::MAX,
            self.base() % (LARGEST_BLOCK_SIZE as int) == 0,
    {
    }

    /// Where a class from `class` upwards has a free block, the address that
    /// an allocation from `class` returns is that of a block of `class` in
    /// the managed region.
    pub proof fn lemma_taken_address_fits(&self, class: int)
        requires
            self.wf(),
            0 <= class < 10,
            first_stocked(self.free_lists(), class) < 10,
        ensures
            block_fits(
                self.base(),
                self.usable_size(),
                class,
                taken_address(self.free_lists(), class),
            ),
            0 <= taken_address(self.free_lists(), class) <= usize::MAX,
        decreases 10 - class,
    {
        let lists = self.free_lists();
        lemma_block_size(class);
        if lists[class].len() > 0 {
            let head = lists[class][0];
            assert(lists[class].contains(head));
            assert(self.free_set().contains((class, head as int)));
        } else {
            assert(first_stocked(lists, class) == first_stocked(lists, class + 1));
            self.lemma_taken_address_fits(class + 1);
            lemma_block_size(class + 1);
            lemma_aligned_to_smaller(taken_address(lists, class + 1), class);
        }
    }

    /// Whether a class from `area_index` upwards has a free block.
    fn has_block_from(&self, area_index: usize) -> (found: bool)
        requires
            area_index <= 10,
        ensures
            found == (first_stocked(self.free_lists(), area_index as int) < 10),
    {
        let mut index = area_index;
        while index < 10
            invariant
                area_index <= index <= 10,
                first_stocked(self.free_lists(), area_index as int) == first_stocked(
                    self.free_lists(),
                    index as int,
                ),
            decreases 10 - index,
        {
            if self.memory_areas[index].free_list.len() > 0 {
                return true;
            }
            index = index + 1;
        }
        false
    }
}

impl PhysicalMemoryAllocator for BuddyAllocator {
    open spec fn valid(&self) -> bool {
        self.wf()
    }

    open spec fn may_free(&self, block: PhysicalMemoryBlock) -> bool {
        self.can_free(block) ==> self.holds(block)
    }

    /// A request that can be met hands out the block that `allocation`
    /// describes; any other returns its error and changes nothing.
    open spec fn hands_out(
        &self,
        size: usize,
        result: Result<PhysicalMemoryBlock, AllocatorError>,
        after: &Self,
    ) -> bool {
        match result {
            Ok(block) => self.can_allocate(size) && self.allocation(size, block, *after),
            Err(error) => !self.can_allocate(size) && error == self.allocate_error(size) && *after
                == *self,
        }
    }

    /// A block that can be taken back is freed as `release` describes; any
    /// other returns its error and changes nothing.
    open spec fn takes_back(
        &self,
        block: PhysicalMemoryBlock,
        result: Result<(), AllocatorError>,
        after: &Self,
    ) -> bool {
        match result {
            Ok(()) => self.can_free(block) && self.release(block, *after),
            Err(error) => !self.can_free(block) && error == self.free_error(block) && *after
                == *self,
        }
    }

    fn allocate(&mut self, size: usize) -> (result: Result<PhysicalMemoryBlock, AllocatorError>) {
        BuddyAllocator::allocate(self, size)
    }

    fn free(&mut self, physical_memory_block: PhysicalMemoryBlock) -> (result: Result<
        (),
        AllocatorError,
    >) {
        BuddyAllocator::free(self, physical_memory_block)
    }
}

} // verus!
