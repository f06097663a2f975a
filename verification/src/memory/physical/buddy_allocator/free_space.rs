//! The mathematics of the buddy system: which blocks are free, how the pair
//! bits follow from that, and what inserting or removing one block does.
use super::{BLOCK_SIZES, LARGEST_BLOCK_SIZE};
use vstd::prelude::*;

verus! {

/// The size in bytes of the blocks of a class.
pub open spec fn block_size(class: int) -> int {
    BLOCK_SIZES[class] as int
}

/// A free block: its class and its start address.
pub type FreeBlock = (int, int);

/// What is known of every class: the sizes double, and each divides the largest.
pub proof fn lemma_block_size(class: int)
    requires
        0 <= class < 10,
    ensures
        4096 <= block_size(class) <= LARGEST_BLOCK_SIZE,
        block_size(class) % 4096 == 0,
        LARGEST_BLOCK_SIZE as int % block_size(class) == 0,
        class < 9 ==> block_size(class + 1) == 2 * block_size(class),
        class < 9 ==> LARGEST_BLOCK_SIZE as int % (2 * block_size(class)) == 0,
        class == 9 ==> block_size(class) == LARGEST_BLOCK_SIZE,
        class == 0 ==> block_size(class) == 4096,
{
    if class == 0 {
        assert(block_size(0) == 4096);
        assert(2097152int % 4096 == 0 && 2097152int % 8192 == 0);
    } else if class == 1 {
        assert(block_size(1) == 8192);
        assert(2097152int % 8192 == 0 && 2097152int % 16384 == 0 && 8192int % 4096 == 0);
    } else if class == 2 {
        assert(block_size(2) == 16384);
        assert(2097152int % 16384 == 0 && 2097152int % 32768 == 0 && 16384int % 4096 == 0);
    } else if class == 3 {
        assert(block_size(3) == 32768);
        assert(2097152int % 32768 == 0 && 2097152int % 65536 == 0 && 32768int % 4096 == 0);
    } else if class == 4 {
        assert(block_size(4) == 65536);
        assert(2097152int % 65536 == 0 && 2097152int % 131072 == 0 && 65536int % 4096 == 0);
    } else if class == 5 {
        assert(block_size(5) == 131072);
        assert(2097152int % 131072 == 0 && 2097152int % 262144 == 0 && 131072int % 4096 == 0);
    } else if class == 6 {
        assert(block_size(6) == 262144);
        assert(2097152int % 262144 == 0 && 2097152int % 524288 == 0 && 262144int % 4096 == 0);
    } else if class == 7 {
        assert(block_size(7) == 524288);
        assert(2097152int % 524288 == 0 && 2097152int % 1048576 == 0 && 524288int % 4096 == 0);
    } else if class == 8 {
        assert(block_size(8) == 1048576);
        assert(2097152int % 1048576 == 0 && 2097152int % 2097152 == 0 && 1048576int % 4096 == 0);
    } else {
        assert(block_size(9) == 2097152);
        assert(2097152int % 2097152 == 0 && 2097152int % 4096 == 0);
    }
}

/// A block of class `class` at `addr` lies inside the region of `size` bytes
/// at `base` and starts at a multiple of its own size.
pub open spec fn block_fits(base: int, size: int, class: int, addr: int) -> bool {
    &&& 0 <= class < 10
    &&& base <= addr
    &&& addr % block_size(class) == 0
    &&& addr + block_size(class) <= base + size
}

/// The number of the pair of buddies that the block at `addr` belongs to.
pub open spec fn pair_index(base: int, class: int, addr: int) -> int {
    ((addr - base) / block_size(class)) / 2
}

/// The start of the lower block of pair `pair`.
pub open spec fn lower_of(base: int, class: int, pair: int) -> int {
    base + 2 * pair * block_size(class)
}

/// The start of the upper block of pair `pair`.
pub open spec fn upper_of(base: int, class: int, pair: int) -> int {
    base + (2 * pair + 1) * block_size(class)
}

/// The start of the other block of the pair that the block at `addr` belongs to.
pub open spec fn buddy_of(base: int, class: int, addr: int) -> int {
    if ((addr - base) / block_size(class)) % 2 == 0 {
        addr + block_size(class)
    } else {
        addr - block_size(class)
    }
}

/// The two blocks share no byte.
pub open spec fn disjoint(first: FreeBlock, second: FreeBlock) -> bool {
    first.1 + block_size(first.0) <= second.1 || second.1 + block_size(second.0) <= first.1
}

/// No free block shares a byte with the block of class `class` at `addr`.
pub open spec fn unclaimed(free: Set<FreeBlock>, class: int, addr: int) -> bool {
    forall|b: FreeBlock| #[trigger] free.contains(b) ==> disjoint(b, (class, addr))
}

/// The byte at `x` belongs to a free block.
pub open spec fn is_free_byte(free: Set<FreeBlock>, x: int) -> bool {
    exists|b: FreeBlock| #[trigger] free.contains(b) && b.1 <= x < b.1 + block_size(b.0)
}

/// The bytes of the block of class `class` at `addr`.
pub open spec fn block_bytes(class: int, addr: int) -> Set<int> {
    Set::new(|x: int| addr <= x < addr + block_size(class))
}

/// The bytes that belong to free blocks.
pub open spec fn free_byte_set(free: Set<FreeBlock>) -> Set<int> {
    Set::new(|x: int| is_free_byte(free, x))
}

/// The bits of class `class` with the bit of pair `pair` inverted.
pub open spec fn toggled(bits: Seq<Seq<bool>>, class: int, pair: int) -> Seq<Seq<bool>> {
    bits.update(class, bits[class].update(pair, !bits[class][pair]))
}

/// The state of a buddy system over the region of `size` bytes at `base`:
/// the free blocks lie in the region, aligned and apart from each other; a
/// pair's bit is set exactly when one of its two blocks is free and the other
/// is not; below the top class two buddies are never both free.
pub open spec fn well_formed(base: int, size: int, free: Set<FreeBlock>, bits: Seq<Seq<bool>>) -> bool {
    &&& base >= 0
    &&& size >= 0
    &&& base % (LARGEST_BLOCK_SIZE as int) == 0
    &&& bits.len() == 10
    &&& forall|c: int| 0 <= c < 10 ==> (#[trigger] bits[c]).len() * (2 * block_size(c)) >= size
    &&& forall|b: FreeBlock| #[trigger] free.contains(b) ==> block_fits(base, size, b.0, b.1)
    &&& forall|b1: FreeBlock, b2: FreeBlock|
        #[trigger] free.contains(b1) && #[trigger] free.contains(b2) && b1 != b2 ==> disjoint(b1, b2)
    &&& forall|c: int, p: int|
        0 <= c < 10 && 0 <= p < bits[c].len() ==> #[trigger] bits[c][p] == (free.contains(
            (c, lower_of(base, c, p)),
        ) != free.contains((c, upper_of(base, c, p))))
    &&& forall|c: int, p: int|
        0 <= c < 9 && 0 <= p ==> !(free.contains((c, #[trigger] lower_of(base, c, p)))
            && free.contains((c, upper_of(base, c, p))))
}

/// Where a fitting block stands in its pair.
pub proof fn lemma_pair(base: int, size: int, class: int, addr: int)
    requires
        base >= 0,
        base % (LARGEST_BLOCK_SIZE as int) == 0,
        block_fits(base, size, class, addr),
    ensures
        0 <= pair_index(base, class, addr),
        pair_index(base, class, addr) * (2 * block_size(class)) < size,
        ((addr - base) / block_size(class)) % 2 == 0 ==> addr == lower_of(
            base,
            class,
            pair_index(base, class, addr),
        ) && buddy_of(base, class, addr) == upper_of(base, class, pair_index(base, class, addr)),
        ((addr - base) / block_size(class)) % 2 != 0 ==> addr == upper_of(
            base,
            class,
            pair_index(base, class, addr),
        ) && buddy_of(base, class, addr) == lower_of(base, class, pair_index(base, class, addr)),
        buddy_of(base, class, addr) >= base,
        buddy_of(base, class, addr) % block_size(class) == 0,
        pair_index(base, class, buddy_of(base, class, addr)) == pair_index(base, class, addr),
        buddy_of(base, class, buddy_of(base, class, addr)) == addr,
{
    lemma_block_size(class);
    let bs = block_size(class);
    let n = (addr - base) / bs;
    assert(base % bs == 0) by {
        lemma_multiple_of_largest(base, class);
    }
    assert(addr - base == n * bs) by {
        lemma_aligned_difference(base, addr, bs);
    }
    let p = n / 2;
    assert(n == 2 * p + n % 2);
    if n % 2 == 0 {
        assert(n * bs == 2 * p * bs) by (nonlinear_arith)
            requires
                n == 2 * p,
        ;
        assert((n + 1) * bs == n * bs + bs) by (nonlinear_arith);
        assert((2 * p + 1) * bs == (n + 1) * bs);
        lemma_quotient(addr + bs - base, bs, n + 1);
    } else {
        assert(n * bs == (2 * p + 1) * bs);
        assert((n - 1) * bs == n * bs - bs) by (nonlinear_arith);
        assert((n - 1) * bs == 2 * p * bs) by (nonlinear_arith)
            requires
                n - 1 == 2 * p,
        ;
        lemma_quotient(addr - bs - base, bs, n - 1);
    }
    assert(p * (2 * bs) == 2 * p * bs) by (nonlinear_arith);
    lemma_sum_aligned(base, buddy_of(base, class, addr) - base, bs);
}

/// A multiple of the largest block size is a multiple of every block size.
pub proof fn lemma_multiple_of_largest(x: int, class: int)
    requires
        0 <= class < 10,
        x % (LARGEST_BLOCK_SIZE as int) == 0,
    ensures
        x % block_size(class) == 0,
        class < 9 ==> x % (2 * block_size(class)) == 0,
{
    lemma_block_size(class);
    let bs = block_size(class);
    let k = LARGEST_BLOCK_SIZE as int / bs;
    assert(LARGEST_BLOCK_SIZE as int == k * bs) by {
        lemma_aligned_difference(0, LARGEST_BLOCK_SIZE as int, bs);
    }
    let q = x / (LARGEST_BLOCK_SIZE as int);
    assert(x == q * (LARGEST_BLOCK_SIZE as int));
    assert(x == (q * k) * bs) by (nonlinear_arith)
        requires
            x == q * (LARGEST_BLOCK_SIZE as int),
            LARGEST_BLOCK_SIZE as int == k * bs,
    ;
    lemma_multiple(q * k, bs);
    if class < 9 {
        let k2 = LARGEST_BLOCK_SIZE as int / (2 * bs);
        assert(LARGEST_BLOCK_SIZE as int == k2 * (2 * bs)) by {
            lemma_aligned_difference(0, LARGEST_BLOCK_SIZE as int, 2 * bs);
        }
        assert(x == (q * k2) * (2 * bs)) by (nonlinear_arith)
            requires
                x == q * (LARGEST_BLOCK_SIZE as int),
                LARGEST_BLOCK_SIZE as int == k2 * (2 * bs),
        ;
        lemma_multiple(q * k2, 2 * bs);
    }
}

/// `k * d` is a multiple of `d`, and dividing it by `d` gives `k` back.
pub proof fn lemma_multiple(k: int, d: int)
    requires
        d > 0,
    ensures
        (k * d) % d == 0,
        (k * d) / d == k,
{
    vstd::arithmetic::div_mod::lemma_fundamental_div_mod_converse(k * d, d, k, 0);
}

/// If `x == k * d` then `x / d == k`.
pub proof fn lemma_quotient(x: int, d: int, k: int)
    requires
        d > 0,
        x == k * d,
    ensures
        x / d == k,
        x % d == 0,
{
    lemma_multiple(k, d);
}

/// The difference of two multiples of `d` is the quotient times `d`.
pub proof fn lemma_aligned_difference(base: int, addr: int, d: int)
    requires
        d > 0,
        base % d == 0,
        addr % d == 0,
    ensures
        addr - base == ((addr - base) / d) * d,
        (addr - base) % d == 0,
{
    let qa = addr / d;
    let qb = base / d;
    assert(addr == qa * d + addr % d) by {
        vstd::arithmetic::div_mod::lemma_fundamental_div_mod(addr, d);
        assert(d * qa == qa * d) by (nonlinear_arith);
    }
    assert(base == qb * d + base % d) by {
        vstd::arithmetic::div_mod::lemma_fundamental_div_mod(base, d);
        assert(d * qb == qb * d) by (nonlinear_arith);
    }
    assert(addr - base == (qa - qb) * d) by (nonlinear_arith)
        requires
            addr == qa * d,
            base == qb * d,
    ;
    lemma_quotient(addr - base, d, qa - qb);
}

/// The sum of two multiples of `d` is a multiple of `d`.
pub proof fn lemma_sum_aligned(base: int, offset: int, d: int)
    requires
        d > 0,
        base % d == 0,
        offset % d == 0,
    ensures
        (base + offset) % d == 0,
{
    lemma_aligned_difference(0, base, d);
    lemma_aligned_difference(0, offset, d);
    let qb = base / d;
    let qo = offset / d;
    assert(base + offset == (qb + qo) * d) by (nonlinear_arith)
        requires
            base == qb * d,
            offset == qo * d,
    ;
    lemma_quotient(base + offset, d, qb + qo);
}

/// The blocks of pair `pair` belong to pair `pair`.
pub proof fn lemma_pair_of_halves(base: int, class: int, pair: int)
    requires
        0 <= class < 10,
        0 <= pair,
    ensures
        pair_index(base, class, lower_of(base, class, pair)) == pair,
        pair_index(base, class, upper_of(base, class, pair)) == pair,
        lower_of(base, class, pair) + block_size(class) == upper_of(base, class, pair),
{
    lemma_block_size(class);
    let bs = block_size(class);
    lemma_quotient(2 * pair * bs, bs, 2 * pair);
    lemma_quotient((2 * pair + 1) * bs, bs, 2 * pair + 1);
    assert((2 * pair + 1) * bs == 2 * pair * bs + bs) by (nonlinear_arith);
}

/// The pair of a fitting block has a bit.
pub proof fn lemma_pair_in_range(base: int, size: int, bit_count: int, class: int, addr: int)
    requires
        base >= 0,
        base % (LARGEST_BLOCK_SIZE as int) == 0,
        block_fits(base, size, class, addr),
        bit_count * (2 * block_size(class)) >= size,
    ensures
        0 <= pair_index(base, class, addr) < bit_count,
{
    lemma_block_size(class);
    lemma_pair(base, size, class, addr);
    let p = pair_index(base, class, addr);
    let k = 2 * block_size(class);
    assert(p < bit_count) by (nonlinear_arith)
        requires
            p * k < bit_count * k,
            k > 0,
    ;
}

/// The bit of a block that is not free tells whether its buddy is free.
pub proof fn lemma_bit_tells_buddy(
    base: int,
    size: int,
    free: Set<FreeBlock>,
    bits: Seq<Seq<bool>>,
    class: int,
    addr: int,
)
    requires
        well_formed(base, size, free, bits),
        block_fits(base, size, class, addr),
        !free.contains((class, addr)),
    ensures
        0 <= pair_index(base, class, addr) < bits[class].len(),
        bits[class][pair_index(base, class, addr)] == free.contains(
            (class, buddy_of(base, class, addr)),
        ),
{
    lemma_pair(base, size, class, addr);
    lemma_pair_in_range(base, size, bits[class].len() as int, class, addr);
    let p = pair_index(base, class, addr);
    assert(bits[class][p] == (free.contains((class, lower_of(base, class, p))) != free.contains(
        (class, upper_of(base, class, p)),
    )));
}

/// A free block's bit is set below the top class: its buddy is not free.
pub proof fn lemma_free_block_bit(
    base: int,
    size: int,
    free: Set<FreeBlock>,
    bits: Seq<Seq<bool>>,
    class: int,
    addr: int,
)
    requires
        well_formed(base, size, free, bits),
        free.contains((class, addr)),
    ensures
        block_fits(base, size, class, addr),
        0 <= pair_index(base, class, addr) < bits[class].len(),
        class < 9 ==> bits[class][pair_index(base, class, addr)],
        class < 9 ==> !free.contains((class, buddy_of(base, class, addr))),
{
    lemma_pair(base, size, class, addr);
    lemma_pair_in_range(base, size, bits[class].len() as int, class, addr);
    let p = pair_index(base, class, addr);
    assert(bits[class][p] == (free.contains((class, lower_of(base, class, p))) != free.contains(
        (class, upper_of(base, class, p)),
    )));
    if class < 9 {
        assert(!(free.contains((class, lower_of(base, class, p))) && free.contains(
            (class, upper_of(base, class, p)),
        )));
    }
}

/// Taking one block out of the free set, or putting one in, and inverting the
/// bit of its pair keeps every bit equal to what the free set says of its pair.
proof fn lemma_bits_follow(
    base: int,
    size: int,
    free: Set<FreeBlock>,
    after: Set<FreeBlock>,
    bits: Seq<Seq<bool>>,
    class: int,
    addr: int,
)
    requires
        well_formed(base, size, free, bits),
        block_fits(base, size, class, addr),
        forall|b: FreeBlock| b != (class, addr) ==> after.contains(b) == free.contains(b),
        after.contains((class, addr)) != free.contains((class, addr)),
    ensures
        0 <= pair_index(base, class, addr) < bits[class].len(),
        forall|c: int, p: int|
            0 <= c < 10 && 0 <= p < toggled(bits, class, pair_index(base, class, addr))[c].len()
                ==> #[trigger] toggled(bits, class, pair_index(base, class, addr))[c][p] == (
            after.contains((c, lower_of(base, c, p))) != after.contains((c, upper_of(base, c, p)))),
{
    lemma_pair(base, size, class, addr);
    lemma_pair_in_range(base, size, bits[class].len() as int, class, addr);
    let pair = pair_index(base, class, addr);
    let new_bits = toggled(bits, class, pair);
    assert forall|c: int, p: int| 0 <= c < 10 && 0 <= p < new_bits[c].len() implies #[trigger] new_bits[c][p]
        == (after.contains((c, lower_of(base, c, p))) != after.contains(
        (c, upper_of(base, c, p)),
    )) by {
        lemma_pair_of_halves(base, c, p);
        lemma_block_size(c);
        assert(bits[c][p] == (free.contains((c, lower_of(base, c, p))) != free.contains(
            (c, upper_of(base, c, p)),
        )));
        if c == class && p == pair {
        } else {
            assert((c, lower_of(base, c, p)) != (class, addr));
            assert((c, upper_of(base, c, p)) != (class, addr));
        }
    }
}

/// Putting a block that no free block touches into the free set, and
/// inverting the bit of its pair, gives a well-formed state again, provided
/// that below the top class its buddy is not free.
pub proof fn lemma_insert(
    base: int,
    size: int,
    free: Set<FreeBlock>,
    bits: Seq<Seq<bool>>,
    class: int,
    addr: int,
)
    requires
        well_formed(base, size, free, bits),
        block_fits(base, size, class, addr),
        unclaimed(free, class, addr),
        class < 9 ==> !free.contains((class, buddy_of(base, class, addr))),
    ensures
        0 <= pair_index(base, class, addr) < bits[class].len(),
        !free.contains((class, addr)),
        well_formed(
            base,
            size,
            free.insert((class, addr)),
            toggled(bits, class, pair_index(base, class, addr)),
        ),
{
    lemma_block_size(class);
    lemma_pair(base, size, class, addr);
    let pair = pair_index(base, class, addr);
    let after = free.insert((class, addr));
    let new_bits = toggled(bits, class, pair);
    if free.contains((class, addr)) {
        assert(disjoint((class, addr), (class, addr)));
    }
    lemma_bits_follow(base, size, free, after, bits, class, addr);
    assert forall|c: int| 0 <= c < 10 implies (#[trigger] new_bits[c]).len() * (2 * block_size(c))
        >= size by {
        assert(bits[c].len() * (2 * block_size(c)) >= size);
    }
    assert forall|b1: FreeBlock, b2: FreeBlock|
        #[trigger] after.contains(b1) && #[trigger] after.contains(b2) && b1 != b2 implies disjoint(
        b1,
        b2,
    ) by {
        if b1 == (class, addr) {
            assert(free.contains(b2));
        } else if b2 == (class, addr) {
            assert(free.contains(b1));
        } else {
            assert(free.contains(b1) && free.contains(b2));
        }
    }
    assert forall|c: int, p: int| 0 <= c < 9 && 0 <= p implies !(after.contains(
        (c, #[trigger] lower_of(base, c, p)),
    ) && after.contains((c, upper_of(base, c, p)))) by {
        lemma_pair_of_halves(base, c, p);
        assert(!(free.contains((c, lower_of(base, c, p))) && free.contains(
            (c, upper_of(base, c, p)),
        )));
        if c == class && p == pair {
        }
    }
    assert forall|b: FreeBlock| #[trigger] after.contains(b) implies block_fits(
        base,
        size,
        b.0,
        b.1,
    ) by {
        if b != (class, addr) {
            assert(free.contains(b));
        }
    }
}

/// Taking a free block out of the free set, and inverting the bit of its
/// pair, gives a well-formed state again.
pub proof fn lemma_remove(
    base: int,
    size: int,
    free: Set<FreeBlock>,
    bits: Seq<Seq<bool>>,
    class: int,
    addr: int,
)
    requires
        well_formed(base, size, free, bits),
        free.contains((class, addr)),
    ensures
        0 <= pair_index(base, class, addr) < bits[class].len(),
        well_formed(
            base,
            size,
            free.remove((class, addr)),
            toggled(bits, class, pair_index(base, class, addr)),
        ),
{
    lemma_block_size(class);
    lemma_pair(base, size, class, addr);
    let pair = pair_index(base, class, addr);
    let after = free.remove((class, addr));
    let new_bits = toggled(bits, class, pair);
    lemma_bits_follow(base, size, free, after, bits, class, addr);
    assert forall|c: int| 0 <= c < 10 implies (#[trigger] new_bits[c]).len() * (2 * block_size(c))
        >= size by {
        assert(bits[c].len() * (2 * block_size(c)) >= size);
    }
    assert forall|b1: FreeBlock, b2: FreeBlock|
        #[trigger] after.contains(b1) && #[trigger] after.contains(b2) && b1 != b2 implies disjoint(
        b1,
        b2,
    ) by {
        assert(free.contains(b1) && free.contains(b2));
    }
    assert forall|c: int, p: int| 0 <= c < 9 && 0 <= p implies !(after.contains(
        (c, #[trigger] lower_of(base, c, p)),
    ) && after.contains((c, upper_of(base, c, p)))) by {
        assert(!(free.contains((c, lower_of(base, c, p))) && free.contains(
            (c, upper_of(base, c, p)),
        )));
    }
    assert forall|b: FreeBlock| #[trigger] after.contains(b) implies block_fits(
        base,
        size,
        b.0,
        b.1,
    ) by {
        assert(free.contains(b));
    }
}

/// The number of free bytes from `lo` up to, not including, `hi`.
pub open spec fn free_bytes(free: Set<FreeBlock>, lo: int, hi: int) -> int
    decreases hi - lo,
{
    if hi <= lo {
        0
    } else {
        free_bytes(free, lo, hi - 1) + if is_free_byte(free, hi - 1) {
            1int
        } else {
            0int
        }
    }
}

/// A range holds no more free bytes than bytes.
pub proof fn lemma_free_bytes_bounds(free: Set<FreeBlock>, lo: int, hi: int)
    requires
        lo <= hi,
    ensures
        0 <= free_bytes(free, lo, hi) <= hi - lo,
    decreases hi - lo,
{
    if lo < hi {
        lemma_free_bytes_bounds(free, lo, hi - 1);
    }
}

/// The free bytes of a range are those of its two parts together.
pub proof fn lemma_free_bytes_split(free: Set<FreeBlock>, lo: int, mid: int, hi: int)
    requires
        lo <= mid <= hi,
    ensures
        free_bytes(free, lo, hi) == free_bytes(free, lo, mid) + free_bytes(free, mid, hi),
    decreases hi - mid,
{
    if mid < hi {
        lemma_free_bytes_split(free, lo, mid, hi - 1);
    }
}

/// Two free sets that agree on every byte of a range have as many free bytes in it.
pub proof fn lemma_free_bytes_agree(
    first: Set<FreeBlock>,
    second: Set<FreeBlock>,
    lo: int,
    hi: int,
)
    requires
        forall|x: int| lo <= x < hi ==> is_free_byte(first, x) == is_free_byte(second, x),
    ensures
        free_bytes(first, lo, hi) == free_bytes(second, lo, hi),
    decreases hi - lo,
{
    if lo < hi {
        lemma_free_bytes_agree(first, second, lo, hi - 1);
    }
}

/// A range of free bytes counts in full.
pub proof fn lemma_free_bytes_full(free: Set<FreeBlock>, lo: int, hi: int)
    requires
        lo <= hi,
        forall|x: int| lo <= x < hi ==> is_free_byte(free, x),
    ensures
        free_bytes(free, lo, hi) == hi - lo,
    decreases hi - lo,
{
    if lo < hi {
        lemma_free_bytes_full(free, lo, hi - 1);
    }
}

/// A range without a free byte counts nothing.
pub proof fn lemma_free_bytes_none(free: Set<FreeBlock>, lo: int, hi: int)
    requires
        forall|x: int| lo <= x < hi ==> !is_free_byte(free, x),
    ensures
        free_bytes(free, lo, hi) == 0,
    decreases hi - lo,
{
    if lo < hi {
        lemma_free_bytes_none(free, lo, hi - 1);
    }
}

/// A range whose every byte counts is free throughout.
pub proof fn lemma_free_bytes_full_converse(free: Set<FreeBlock>, lo: int, hi: int, x: int)
    requires
        lo <= x < hi,
        free_bytes(free, lo, hi) == hi - lo,
    ensures
        is_free_byte(free, x),
    decreases hi - lo,
{
    lemma_free_bytes_bounds(free, lo, hi - 1);
    if x < hi - 1 {
        lemma_free_bytes_full_converse(free, lo, hi - 1, x);
    }
}

/// What a free set gains, byte by byte, when one block joins or leaves it.
proof fn lemma_bytes_of_change(
    free: Set<FreeBlock>,
    class: int,
    addr: int,
)
    requires
        0 <= class < 10,
        forall|b1: FreeBlock, b2: FreeBlock|
            #[trigger] free.contains(b1) && #[trigger] free.contains(b2) && b1 != b2 ==> disjoint(
                b1,
                b2,
            ),
        free.contains((class, addr)),
    ensures
        forall|x: int|
            is_free_byte(free.remove((class, addr)), x) == (is_free_byte(free, x) && !(addr <= x
                < addr + block_size(class))),
        forall|x: int| addr <= x < addr + block_size(class) ==> is_free_byte(free, x),
{
    let less = free.remove((class, addr));
    assert forall|x: int|
        is_free_byte(less, x) == (is_free_byte(free, x) && !(addr <= x < addr + block_size(
            class,
        ))) by {
        if is_free_byte(less, x) {
            let b = choose|b: FreeBlock| #[trigger] less.contains(b) && b.1 <= x < b.1 + block_size(b.0);
            assert(free.contains(b));
            assert(disjoint(b, (class, addr)));
        }
        if is_free_byte(free, x) && !(addr <= x < addr + block_size(class)) {
            let b = choose|b: FreeBlock| #[trigger] free.contains(b) && b.1 <= x < b.1 + block_size(b.0);
            assert(less.contains(b));
        }
    }
    assert forall|x: int| addr <= x < addr + block_size(class) implies is_free_byte(free, x) by {
        assert(free.contains((class, addr)));
    }
}

/// Taking a free block out of the free set takes its bytes out of the count.
pub proof fn lemma_remove_count(
    base: int,
    size: int,
    free: Set<FreeBlock>,
    bits: Seq<Seq<bool>>,
    class: int,
    addr: int,
)
    requires
        well_formed(base, size, free, bits),
        free.contains((class, addr)),
    ensures
        free_bytes(free.remove((class, addr)), base, base + size) == free_bytes(
            free,
            base,
            base + size,
        ) - block_size(class),
        free_byte_set(free.remove((class, addr))) == free_byte_set(free).difference(
            block_bytes(class, addr),
        ),
        block_bytes(class, addr).subset_of(free_byte_set(free)),
{
    lemma_block_size(class);
    lemma_bytes_of_change(free, class, addr);
    let less = free.remove((class, addr));
    assert(free_byte_set(less) =~= free_byte_set(free).difference(block_bytes(class, addr)));
    let end = addr + block_size(class);
    assert(block_fits(base, size, class, addr));
    lemma_free_bytes_split(free, base, addr, base + size);
    lemma_free_bytes_split(free, addr, end, base + size);
    lemma_free_bytes_split(less, base, addr, base + size);
    lemma_free_bytes_split(less, addr, end, base + size);
    lemma_free_bytes_agree(free, less, base, addr);
    lemma_free_bytes_agree(free, less, end, base + size);
    lemma_free_bytes_full(free, addr, end);
    lemma_free_bytes_none(less, addr, end);
}

/// Putting a block that no free block touches into the free set adds its
/// bytes to the count.
pub proof fn lemma_insert_count(
    base: int,
    size: int,
    free: Set<FreeBlock>,
    bits: Seq<Seq<bool>>,
    class: int,
    addr: int,
)
    requires
        well_formed(base, size, free, bits),
        block_fits(base, size, class, addr),
        unclaimed(free, class, addr),
    ensures
        free_bytes(free.insert((class, addr)), base, base + size) == free_bytes(
            free,
            base,
            base + size,
        ) + block_size(class),
        free_byte_set(free.insert((class, addr))) == free_byte_set(free).union(
            block_bytes(class, addr),
        ),
        block_bytes(class, addr).disjoint(free_byte_set(free)),
{
    lemma_block_size(class);
    let more = free.insert((class, addr));
    if free.contains((class, addr)) {
        assert(disjoint((class, addr), (class, addr)));
    }
    assert(more.remove((class, addr)) =~= free);
    assert forall|b1: FreeBlock, b2: FreeBlock|
        #[trigger] more.contains(b1) && #[trigger] more.contains(b2) && b1 != b2 implies disjoint(
        b1,
        b2,
    ) by {
        if b1 == (class, addr) {
            assert(free.contains(b2));
        } else if b2 == (class, addr) {
            assert(free.contains(b1));
        } else {
            assert(free.contains(b1) && free.contains(b2));
        }
    }
    lemma_bytes_of_change(more, class, addr);
    let end = addr + block_size(class);
    lemma_free_bytes_split(free, base, addr, base + size);
    lemma_free_bytes_split(free, addr, end, base + size);
    lemma_free_bytes_split(more, base, addr, base + size);
    lemma_free_bytes_split(more, addr, end, base + size);
    lemma_free_bytes_agree(free, more, base, addr);
    lemma_free_bytes_agree(free, more, end, base + size);
    lemma_free_bytes_full(more, addr, end);
    lemma_free_bytes_none(free, addr, end);
    assert(free_byte_set(more) =~= free_byte_set(free).union(block_bytes(class, addr)));
}

/// A block that shares no byte with the free bytes shares none with a free block.
pub proof fn lemma_unclaimed(free: Set<FreeBlock>, class: int, addr: int)
    requires
        0 <= class < 10,
        forall|b: FreeBlock| #[trigger] free.contains(b) ==> 0 <= b.0 < 10,
        block_bytes(class, addr).disjoint(free_byte_set(free)),
    ensures
        unclaimed(free, class, addr),
        !free.contains((class, addr)),
{
    lemma_block_size(class);
    assert forall|b: FreeBlock| #[trigger] free.contains(b) implies disjoint(b, (class, addr)) by {
        lemma_block_size(b.0);
        if !disjoint(b, (class, addr)) {
            let x = if b.1 >= addr {
                b.1
            } else {
                addr
            };
            assert(b.1 <= x < b.1 + block_size(b.0));
            assert(is_free_byte(free, x));
            assert(free_byte_set(free).contains(x));
            assert(block_bytes(class, addr).contains(x));
        }
    }
    if free.contains((class, addr)) {
        assert(disjoint((class, addr), (class, addr)));
    }
}

/// The two blocks of a pair make up one block of the next class.
pub proof fn lemma_halves(class: int, addr: int)
    requires
        0 <= class < 9,
    ensures
        block_bytes(class + 1, addr) == block_bytes(class, addr).union(
            block_bytes(class, addr + block_size(class)),
        ),
{
    lemma_block_size(class);
    assert(block_bytes(class + 1, addr) =~= block_bytes(class, addr).union(
        block_bytes(class, addr + block_size(class)),
    ));
}

/// The free blocks that ten free lists, one for each class, stand for.
pub open spec fn free_set_of(lists: Seq<Seq<usize>>) -> Set<FreeBlock> {
    Set::new(
        |b: FreeBlock| 0 <= b.0 < 10 && 0 <= b.1 <= usize::MAX && lists[b.0].contains(b.1 as usize),
    )
}

/// Every list holds each of its addresses once.
pub open spec fn all_distinct(lists: Seq<Seq<usize>>) -> bool {
    forall|c: int| 0 <= c < 10 ==> (#[trigger] lists[c]).no_duplicates()
}

/// What an entry put at the head of one list does to the free set.
pub proof fn lemma_set_after_push(lists: Seq<Seq<usize>>, class: int, addr: usize)
    requires
        lists.len() == 10,
        0 <= class < 10,
    ensures
        free_set_of(lists.update(class, lists[class].insert(0, addr))) == free_set_of(lists).insert(
            (class, addr as int),
        ),
        all_distinct(lists) && !lists[class].contains(addr) ==> all_distinct(
            lists.update(class, lists[class].insert(0, addr)),
        ),
{
    let list = lists[class];
    let longer = list.insert(0, addr);
    let after = lists.update(class, longer);
    assert(longer[0] == addr);
    assert forall|x: usize| longer.contains(x) == (list.contains(x) || x == addr) by {
        if longer.contains(x) {
            let i = choose|i: int| 0 <= i < longer.len() && longer[i] == x;
            if i > 0 {
                assert(list[i - 1] == x);
            }
        }
        if list.contains(x) {
            let i = choose|i: int| 0 <= i < list.len() && list[i] == x;
            assert(longer[i + 1] == x);
        }
    }
    assert forall|b: FreeBlock| free_set_of(after).contains(b) == free_set_of(lists).insert(
        (class, addr as int),
    ).contains(b) by {
        if b.0 == class {
            assert(after[b.0] == longer);
        } else if 0 <= b.0 < 10 {
            assert(after[b.0] == lists[b.0]);
        }
    }
    assert(free_set_of(after) =~= free_set_of(lists).insert((class, addr as int)));
    if all_distinct(lists) && !list.contains(addr) {
        assert forall|c: int| 0 <= c < 10 implies (#[trigger] after[c]).no_duplicates() by {
            if c == class {
                assert forall|i: int, j: int|
                    0 <= i < longer.len() && 0 <= j < longer.len() && i != j implies longer[i]
                    != longer[j] by {
                    if i > 0 && j > 0 {
                        assert(list[i - 1] != list[j - 1]);
                    } else if i > 0 {
                        assert(list.contains(list[i - 1]));
                    } else {
                        assert(list.contains(list[j - 1]));
                    }
                }
            } else {
                assert(after[c] == lists[c]);
            }
        }
    }
}

/// What taking one entry out of a list does to the free set.
pub proof fn lemma_set_after_remove(lists: Seq<Seq<usize>>, class: int, index: int)
    requires
        lists.len() == 10,
        0 <= class < 10,
        0 <= index < lists[class].len(),
        all_distinct(lists),
    ensures
        free_set_of(lists.update(class, lists[class].remove(index))) == free_set_of(lists).remove(
            (class, lists[class][index] as int),
        ),
        all_distinct(lists.update(class, lists[class].remove(index))),
        free_set_of(lists).contains((class, lists[class][index] as int)),
{
    let list = lists[class];
    let addr = list[index];
    let shorter = list.remove(index);
    let after = lists.update(class, shorter);
    assert(list.no_duplicates());
    assert forall|x: usize| shorter.contains(x) == (list.contains(x) && x != addr) by {
        if shorter.contains(x) {
            let i = choose|i: int| 0 <= i < shorter.len() && shorter[i] == x;
            if i < index {
                assert(list[i] == x);
            } else {
                assert(list[i + 1] == x);
            }
        }
        if list.contains(x) && x != addr {
            let i = choose|i: int| 0 <= i < list.len() && list[i] == x;
            if i < index {
                assert(shorter[i] == x);
            } else {
                assert(shorter[i - 1] == x);
            }
        }
    }
    assert forall|b: FreeBlock| free_set_of(after).contains(b) == free_set_of(lists).remove(
        (class, addr as int),
    ).contains(b) by {
        if b.0 == class {
            assert(after[b.0] == shorter);
        } else if 0 <= b.0 < 10 {
            assert(after[b.0] == lists[b.0]);
        }
    }
    assert(free_set_of(after) =~= free_set_of(lists).remove((class, addr as int)));
    assert forall|c: int| 0 <= c < 10 implies (#[trigger] after[c]).no_duplicates() by {
        if c == class {
            assert forall|i: int, j: int|
                0 <= i < shorter.len() && 0 <= j < shorter.len() && i != j implies shorter[i]
                != shorter[j] by {
                let oi = if i < index { i } else { i + 1 };
                let oj = if j < index { j } else { j + 1 };
                assert(list[oi] != list[oj]);
            }
        } else {
            assert(after[c] == lists[c]);
        }
    }
    assert(list.contains(addr));
}

/// In a list without duplicates, `remove_value` takes out the one entry that
/// holds the value.
pub proof fn lemma_remove_value(list: Seq<usize>, addr: usize)
    requires
        list.no_duplicates(),
        list.contains(addr),
    ensures
        0 <= list.index_of(addr) < list.len(),
        list[list.index_of(addr)] == addr,
        list.remove_value(addr) == list.remove(list.index_of(addr)),
{
    list.index_of_first_ensures(addr);
    let first = list.index_of_first(addr).unwrap();
    let any = list.index_of(addr);
    assert(list[first] == addr);
    assert(0 <= any < list.len() && list[any] == addr);
    assert(first == any);
}

} // verus!
