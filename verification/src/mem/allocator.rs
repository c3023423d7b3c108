//! Allocators for Inko objects.
//!
//! Memory is divided into blocks of `BLOCK_SIZE` bytes, aligned to their size
//! and divided into lines of `LINE_SIZE` bytes, following the heap layout of
//! the Immix garbage collector. Every block has a header that holds the bump
//! allocation cursor, the end of the hole being allocated into, a count of
//! reusable lines, and the number of live objects per line.
//!
//! The headers of all blocks live in a `BlockAllocator`, which also holds the
//! pool of blocks not in use by any allocator. The block with index `i` covers
//! the addresses `[(i + 1) * BLOCK_SIZE, (i + 2) * BLOCK_SIZE)`.
use vstd::prelude::*;
use crate::config::Config;

verus! {

/// The size of a line, in bytes.
pub const LINE_SIZE: u64 = 128;

/// The number of lines per block.
pub const LINES_PER_BLOCK: u64 = 256;

/// The size of a block, in bytes.
pub const BLOCK_SIZE: u64 = 32768;

/// The number of bytes reserved for the header at the start of every block.
pub const BLOCK_HEADER_SIZE: u64 = 296;

/// The first line that can be allocated into.
pub const FIRST_USABLE_LINE: u8 = 3;

/// The offset (relative to a block) the first object can be allocated into.
pub const FIRST_ALLOCATION_OFFSET: u64 = 384;

/// The number of usable lines in a block.
pub const USABLE_LINES_PER_BLOCK: u8 = 252;

/// The largest size of a single allocation: the space of a block after its
/// reserved lines.
pub const MAX_ALLOCATION_SIZE: u64 = 32384;

/// The largest number of blocks the block allocator hands out.
pub const MAX_BLOCKS: usize = 0xFF_FFFF;

/// The bit to set for tagged signed integers.
pub const INTEGER_BIT: u64 = 0;

/// The bit to set for tagged unsigned integers.
pub const UNSIGNED_INTEGER_BIT: u64 = 1;

/// The bit to set for reference pointers.
pub const REFERENCE_BIT: u64 = 1;

/// The bit to set for pointers to permanent objects.
pub const PERMANENT_BIT: u64 = 2;

/// The mask to use for creating tagged unsigned integers.
pub const UNSIGNED_INTEGER_MASK: u64 = 3;

/// The mask to use for untagging a pointer.
pub const UNTAG_MASK: u64 = 0xFFFF_FFFF_FFFF_FFF8;

/// The minimum integer value that can be stored as a tagged signed integer.
pub const MIN_INTEGER: i64 = -0x2000_0000_0000_0000;

/// The maximum integer value that can be stored as a tagged signed integer.
pub const MAX_INTEGER: i64 = 0x1FFF_FFFF_FFFF_FFFF;

/// The maximum integer value that can be stored as a tagged unsigned integer.
pub const MAX_UNSIGNED_INTEGER: u64 = 0x3FFF_FFFF_FFFF_FFFF;

/// The address of the start of the block that holds `addr`.
pub open spec fn block_start(addr: u64) -> u64 {
    (addr - addr % BLOCK_SIZE) as u64
}

/// The index of the line that holds `addr`, within its block.
pub open spec fn line_index(addr: u64) -> u8 {
    ((addr % BLOCK_SIZE) / LINE_SIZE) as u8
}

/// Returns the address of the start of the line that holds `addr`.
pub fn line_start_pointer(addr: u64) -> (r: u64)
    ensures
        r == addr - addr % LINE_SIZE,
{
    let r: u64 = addr & 0xFFFF_FFFF_FFFF_FF80u64;
    assert(r == addr - addr % 128) by (bit_vector)
        requires
            r == addr & 0xFFFF_FFFF_FFFF_FF80u64,
    ;
    r
}

/// Returns the line index (within its block) of the line that holds `addr`.
pub fn line_index_for_pointer(addr: u64) -> (r: u8)
    ensures
        r == line_index(addr),
{
    let start: u64 = addr & 0xFFFF_FFFF_FFFF_8000u64;
    assert(start == addr - addr % 32768) by (bit_vector)
        requires
            start == addr & 0xFFFF_FFFF_FFFF_8000u64,
    ;
    ((addr - start) / LINE_SIZE) as u8
}

/// A pointer to an object managed by the Inko runtime, as an address.
///
/// The lowest bits of an address can be set as tags: tagged signed and
/// unsigned integers are stored in the pointer itself, and other tags mark
/// references and permanent objects.
#[derive(Clone, Copy, Debug, PartialEq, Eq, Structural)]
pub struct Pointer(u64);

impl View for Pointer {
    type V = u64;

    closed spec fn view(&self) -> u64 {
        self.0
    }
}

/// The address of a tagged signed integer: the value shifted left by two
/// bits (dropping the top two bits), with the integer bit set.
pub open spec fn tagged_int_address(value: i64) -> u64 {
    ((value as u64) << 2u64) | 1u64
}

/// The address of a tagged unsigned integer: the value shifted left by two
/// bits (dropping the top two bits), with the two lowest bits set.
pub open spec fn tagged_unsigned_int_address(value: u64) -> u64 {
    (value << 2u64) | 3u64
}

/// Holds when bit `bit` of `addr` is set.
pub open spec fn bit_set(addr: u64, bit: u64) -> bool {
    addr & (1u64 << bit) == (1u64 << bit)
}

impl Pointer {
    /// Creates a new Pointer from the raw address.
    pub fn new(raw: u64) -> (r: Self)
        ensures
            r@ == raw,
    {
        Pointer(raw)
    }

    /// Returns a new Pointer with the given bit set.
    pub fn with_bit(raw: u64, bit: u64) -> (r: Self)
        requires
            bit < 64,
        ensures
            r@ == raw | (1u64 << bit),
    {
        Pointer(raw | (1u64 << bit))
    }

    /// Returns a tagged signed integer.
    pub fn integer(value: i64) -> (r: Self)
        ensures
            r@ == tagged_int_address(value),
    {
        let r = Self::with_bit((value as u64) << 2u64, INTEGER_BIT);
        assert(1u64 << 0u64 == 1u64) by (bit_vector);
        r
    }

    /// Returns a tagged unsigned integer.
    pub fn unsigned_int(value: u64) -> (r: Self)
        ensures
            r@ == tagged_unsigned_int_address(value),
    {
        Pointer((value << 2u64) | UNSIGNED_INTEGER_MASK)
    }

    /// Returns a boolean indicating if the pointer is a tagged signed integer.
    pub fn is_tagged_int(self) -> (r: bool)
        ensures
            r == (bit_set(self@, INTEGER_BIT) && !bit_set(self@, UNSIGNED_INTEGER_BIT)),
    {
        self.bit_is_set(INTEGER_BIT) && !self.bit_is_set(UNSIGNED_INTEGER_BIT)
    }

    /// Returns a boolean indicating if the pointer is a tagged unsigned
    /// integer.
    pub fn is_tagged_unsigned_int(self) -> (r: bool)
        ensures
            r == (bit_set(self@, INTEGER_BIT) && bit_set(self@, UNSIGNED_INTEGER_BIT)),
    {
        self.bit_is_set(INTEGER_BIT) && self.bit_is_set(UNSIGNED_INTEGER_BIT)
    }

    /// Returns a boolean indicating if the pointer points to a permanent
    /// object.
    pub fn is_permanent(self) -> (r: bool)
        ensures
            r == bit_set(self@, PERMANENT_BIT),
    {
        self.bit_is_set(PERMANENT_BIT)
    }

    /// Returns a boolean indicating if the pointer points to a non-permanent
    /// heap object: none of the three tag bits is set.
    pub fn is_regular_object(self) -> (r: bool)
        ensures
            r == (self@ & 7u64 == 0u64),
    {
        (self.0 & 7u64) == 0u64
    }

    /// Returns a new pointer with the permanent bit set.
    pub fn as_permanent(self) -> (r: Pointer)
        ensures
            r@ == self@ | 4u64,
    {
        let r = Self::with_bit(self.0, PERMANENT_BIT);
        assert(1u64 << 2u64 == 4u64) by (bit_vector);
        r
    }

    /// Returns a new pointer with the reference bit set.
    pub fn as_reference(self) -> (r: Pointer)
        ensures
            r@ == self@ | 2u64,
    {
        let r = Self::with_bit(self.0, REFERENCE_BIT);
        assert(1u64 << 1u64 == 2u64) by (bit_vector);
        r
    }

    /// Returns the raw address.
    pub fn as_ptr(self) -> (r: u64)
        ensures
            r == self@,
    {
        self.0
    }

    /// Returns the address without any tags set.
    pub fn untagged_ptr(self) -> (r: u64)
        ensures
            r == self@ & UNTAG_MASK,
    {
        self.0 & UNTAG_MASK
    }

    /// Reads the value from a tagged signed integer.
    pub fn as_int(self) -> (r: i64)
        ensures
            r == (self@ as i64) >> 2i64,
    {
        (self.0 as i64) >> 2i64
    }

    /// Reads the value from a tagged unsigned integer.
    pub fn as_unsigned_int(self) -> (r: u64)
        ensures
            r == self@ >> 2u64,
    {
        self.0 >> 2u64
    }

    /// Returns true if the pointer has the given bit set to 1.
    fn bit_is_set(self, bit: u64) -> (r: bool)
        requires
            bit < 64,
        ensures
            r == bit_set(self@, bit),
    {
        let shifted: u64 = 1u64 << bit;
        (self.0 & shifted) == shifted
    }
}

/// A tagged signed integer gives back its value, is tagged as a signed
/// integer and is not a regular object, for every value in the tagged range.
pub proof fn lemma_int_tagging(value: i64)
    requires
        MIN_INTEGER <= value <= MAX_INTEGER,
    ensures
        (tagged_int_address(value) as i64) >> 2i64 == value,
        bit_set(tagged_int_address(value), INTEGER_BIT),
        !bit_set(tagged_int_address(value), UNSIGNED_INTEGER_BIT),
        tagged_int_address(value) & 7u64 != 0u64,
{
    let v = value as u64;
    assert(((v << 2u64) | 1u64) & (1u64 << 1u64) != (1u64 << 1u64)) by (bit_vector);
    assert((((v << 2u64) | 1u64) as i64) >> 2i64 == value) by (bit_vector)
        requires
            v == value as u64,
            -0x2000_0000_0000_0000i64 <= value <= 0x1FFF_FFFF_FFFF_FFFFi64,
    ;
    assert(((v << 2u64) | 1u64) & (1u64 << 0u64) == (1u64 << 0u64)) by (bit_vector);
    assert(((v << 2u64) | 1u64) & 7u64 != 0u64) by (bit_vector);
}

/// A tagged unsigned integer gives back its value, is tagged as an unsigned
/// integer and is not a regular object, for every value in the tagged range.
pub proof fn lemma_unsigned_int_tagging(value: u64)
    requires
        value <= MAX_UNSIGNED_INTEGER,
    ensures
        tagged_unsigned_int_address(value) >> 2u64 == value,
        bit_set(tagged_unsigned_int_address(value), INTEGER_BIT),
        bit_set(tagged_unsigned_int_address(value), UNSIGNED_INTEGER_BIT),
        tagged_unsigned_int_address(value) & 7u64 != 0u64,
{
    assert(((value << 2u64) | 3u64) >> 2u64 == value) by (bit_vector)
        requires
            value <= 0x3FFF_FFFF_FFFF_FFFFu64,
    ;
    assert(((value << 2u64) | 3u64) & (1u64 << 0u64) == (1u64 << 0u64)) by (bit_vector);
    assert(((value << 2u64) | 3u64) & (1u64 << 1u64) == (1u64 << 1u64)) by (bit_vector);
    assert(((value << 2u64) | 3u64) & 7u64 != 0u64) by (bit_vector);
}

/// Setting the permanent or reference bit keeps the address once untagged, and
/// a permanent pointer is not a regular object.
pub proof fn lemma_tag_bits(addr: u64)
    ensures
        bit_set(addr | 4u64, PERMANENT_BIT),
        (addr | 4u64) & UNTAG_MASK == addr & UNTAG_MASK,
        (addr | 2u64) & UNTAG_MASK == addr & UNTAG_MASK,
        (addr | 4u64) & 7u64 != 0u64,
        (addr | 2u64) & 7u64 != 0u64,
        bit_set(addr | 4u64, INTEGER_BIT) == bit_set(addr, INTEGER_BIT),
{
    assert((addr | 4u64) & (1u64 << 2u64) == (1u64 << 2u64)) by (bit_vector);
    assert((addr | 4u64) & 0xFFFF_FFFF_FFFF_FFF8u64 == addr & 0xFFFF_FFFF_FFFF_FFF8u64) by (bit_vector);
    assert((addr | 2u64) & 0xFFFF_FFFF_FFFF_FFF8u64 == addr & 0xFFFF_FFFF_FFFF_FFF8u64) by (bit_vector);
    assert((addr | 4u64) & 7u64 != 0u64) by (bit_vector);
    assert((addr | 2u64) & 7u64 != 0u64) by (bit_vector);
    assert(((addr | 4u64) & (1u64 << 0u64) == (1u64 << 0u64)) == (addr & (1u64 << 0u64) == (1u64 << 0u64))) by (bit_vector);
}

/// The address of the first byte of the block with the given index.
pub open spec fn block_address(index: int) -> int {
    (index + 1) * BLOCK_SIZE
}

/// One more live object in a line; the count wraps around at 256, as the
/// atomic byte that holds it does.
pub open spec fn inc(count: u8) -> u8 {
    ((count + 1) % 256) as u8
}

/// One less live object in a line; the count wraps around below zero, as the
/// atomic byte that holds it does.
pub open spec fn dec(count: u8) -> u8 {
    ((count + 255) % 256) as u8
}

/// The last line covered by an object that starts at `start` and ends just
/// before `end`: the line of its last byte (the line of `start` for an empty
/// object).
pub open spec fn last_line(start: u64, end: u64) -> int {
    if end > start {
        line_index((end - 1) as u64) as int
    } else {
        line_index(start) as int
    }
}

/// A snapshot of the bump allocation state of a block.
#[derive(Clone, Copy, Debug, PartialEq, Eq)]
pub struct BlockHeader {
    /// The address to bump allocate the next object into.
    pub ptr: u64,
    /// The end of the hole to allocate into: no object can be allocated at
    /// this address.
    pub end: u64,
    /// The number of reusable lines in this block.
    pub reusable_lines: u8,
}

/// An unowned pointer to a block: the index of its header in the block
/// allocator.
#[derive(Clone, Copy, Debug, PartialEq, Eq)]
pub struct BlockPointer {
    pub index: usize,
}

/// An owned pointer to a block to allocate into.
pub struct Block {
    ptr: BlockPointer,
}

/// The headers of all blocks, and the blocks not in use by any allocator.
pub struct BlockAllocator {
    /// The bump cursor of every block.
    cursors: Vec<u64>,
    /// The end of the current hole of every block.
    ends: Vec<u64>,
    /// The number of reusable lines of every block.
    reusable: Vec<u8>,
    /// The number of live objects per line, `LINES_PER_BLOCK` per block.
    line_maps: Vec<u8>,
    /// The blocks that are not in use.
    blocks: Vec<Block>,
}

impl Block {
    /// Returns an unowned pointer to the block.
    pub fn as_ptr(&self) -> (r: BlockPointer)
        ensures
            r == self.pointer(),
    {
        self.ptr
    }

    /// The block this owned pointer points to.
    pub closed spec fn pointer(&self) -> BlockPointer {
        self.ptr
    }
}

impl BlockAllocator {
    /// The number of blocks created so far.
    pub closed spec fn num_blocks(&self) -> nat {
        self.cursors@.len()
    }

    /// The bump cursor of a block.
    pub closed spec fn cursor(&self, b: BlockPointer) -> u64 {
        self.cursors@[b.index as int]
    }

    /// The end of the current hole of a block.
    pub closed spec fn hole_end(&self, b: BlockPointer) -> u64 {
        self.ends@[b.index as int]
    }

    /// The number of reusable lines of a block.
    pub closed spec fn reusable_count(&self, b: BlockPointer) -> u8 {
        self.reusable@[b.index as int]
    }

    /// The number of live objects in each line of a block.
    pub closed spec fn lines(&self, b: BlockPointer) -> Seq<u8> {
        self.line_maps@.subrange(
            b.index * LINES_PER_BLOCK as int,
            (b.index + 1) * LINES_PER_BLOCK as int,
        )
    }

    /// The blocks not in use by any allocator, in the order they are handed
    /// out again (last first).
    pub closed spec fn pool(&self) -> Seq<BlockPointer> {
        self.blocks@.map_values(|b: Block| b.ptr)
    }

    /// Holds when `b` points to a block of this allocator.
    pub open spec fn valid(&self, b: BlockPointer) -> bool {
        b.index < self.num_blocks()
    }

    /// The well-formedness of the allocator: every block's cursor lies in its
    /// usable area, before the end of its hole, and every pooled block exists.
    pub closed spec fn wf(&self) -> bool {
        &&& self.ends@.len() == self.cursors@.len()
        &&& self.reusable@.len() == self.cursors@.len()
        &&& self.line_maps@.len() == self.cursors@.len() * LINES_PER_BLOCK
        &&& self.cursors@.len() <= MAX_BLOCKS
        &&& forall|i: int|
            #![trigger self.cursors@[i]]
            0 <= i < self.cursors@.len() ==> {
                &&& block_address(i) + FIRST_ALLOCATION_OFFSET <= self.cursors@[i]
                &&& self.cursors@[i] <= self.ends@[i]
                &&& self.ends@[i] <= block_address(i) + BLOCK_SIZE
            }
        &&& forall|k: int| 0 <= k < self.blocks@.len() ==> (#[trigger] self.blocks@[k]).ptr.index < self.cursors@.len()
    }

    /// All blocks other than `b` have the same state in `self` and `other`.
    pub open spec fn same_except(&self, other: &BlockAllocator, b: BlockPointer) -> bool {
        &&& self.num_blocks() == other.num_blocks()
        &&& forall|c: BlockPointer|
            #![trigger other.cursor(c)]
            c != b && self.valid(c) ==> {
                &&& self.cursor(c) == other.cursor(c)
                &&& self.hole_end(c) == other.hole_end(c)
                &&& self.reusable_count(c) == other.reusable_count(c)
                &&& self.lines(c) == other.lines(c)
            }
    }

    /// Returns a new allocator without any blocks.
    pub fn new() -> (r: Self)
        ensures
            r.wf(),
            r.num_blocks() == 0,
            r.pool() == Seq::<BlockPointer>::empty(),
    {
        let r = BlockAllocator {
            cursors: Vec::new(),
            ends: Vec::new(),
            reusable: Vec::new(),
            line_maps: Vec::new(),
            blocks: Vec::new(),
        };
        assert(r.pool() =~= Seq::<BlockPointer>::empty());
        r
    }

    /// Returns the bump allocation state of a block.
    pub fn header(&self, block: BlockPointer) -> (r: BlockHeader)
        requires
            self.wf(),
            self.valid(block),
        ensures
            r.ptr == self.cursor(block),
            r.end == self.hole_end(block),
            r.reusable_lines == self.reusable_count(block),
    {
        BlockHeader {
            ptr: self.cursors[block.index],
            end: self.ends[block.index],
            reusable_lines: self.reusable[block.index],
        }
    }

    /// Returns the number of live objects in a line of a block.
    pub fn line_object_count(&self, block: BlockPointer, index: u8) -> (r: u8)
        requires
            self.wf(),
            self.valid(block),
        ensures
            r == self.lines(block)[index as int],
    {
        proof {
            self.lemma_lines_index(block, index as int);
        }
        self.line_maps[block.index * 256 + index as usize]
    }

    /// The line counts of a block are its slice of the flat line map.
    proof fn lemma_lines_index(&self, block: BlockPointer, k: int)
        requires
            self.wf(),
            self.valid(block),
            0 <= k < 256,
        ensures
            self.lines(block).len() == 256,
            self.lines(block)[k] == self.line_maps@[block.index * 256 + k],
            block.index * 256 + k < self.line_maps@.len(),
            block.index * 256 + k < 0xFFFF_FFFF,
    {
        assert(block.index * 256 + 256 <= self.cursors@.len() * 256) by (nonlinear_arith)
            requires block.index < self.cursors@.len();
    }

    /// Sets the count of a line of a block.
    fn set_line_count(&mut self, block: BlockPointer, index: u8, count: u8)
        requires
            old(self).wf(),
            old(self).valid(block),
        ensures
            final(self).wf(),
            final(self).same_except(old(self), block),
            final(self).cursor(block) == old(self).cursor(block),
            final(self).hole_end(block) == old(self).hole_end(block),
            final(self).reusable_count(block) == old(self).reusable_count(block),
            final(self).lines(block) == old(self).lines(block).update(index as int, count),
            final(self).pool() == old(self).pool(),
    {
        proof {
            self.lemma_lines_index(block, index as int);
        }
        let k: usize = block.index * 256 + index as usize;
        self.line_maps.set(k, count);
        proof {
            assert(self.lines(block) =~= old(self).lines(block).update(index as int, count));
            assert forall|c: BlockPointer| c != block && self.valid(c) implies #[trigger] self.lines(c) == old(self).lines(c) by {
                assert(c.index * 256 + 256 <= self.cursors@.len() * 256) by (nonlinear_arith)
                    requires c.index < self.cursors@.len();
                if c.index < block.index {
                    assert(c.index * 256 + 256 <= block.index * 256) by (nonlinear_arith)
                        requires c.index < block.index;
                } else {
                    assert(block.index * 256 + 256 <= c.index * 256) by (nonlinear_arith)
                        requires c.index > block.index;
                }
                assert(self.lines(c) =~= old(self).lines(c));
            }
        }
    }

    /// Adds one live object to a line of a block.
    pub fn increase_line_object_count(&mut self, block: BlockPointer, index: u8)
        requires
            old(self).wf(),
            old(self).valid(block),
        ensures
            final(self).wf(),
            final(self).same_except(old(self), block),
            final(self).cursor(block) == old(self).cursor(block),
            final(self).hole_end(block) == old(self).hole_end(block),
            final(self).reusable_count(block) == old(self).reusable_count(block),
            final(self).lines(block) == old(self).lines(block).update(
                index as int,
                inc(old(self).lines(block)[index as int]),
            ),
            final(self).pool() == old(self).pool(),
    {
        let count = self.line_object_count(block, index);
        self.set_line_count(block, index, count.wrapping_add(1));
    }

    /// Removes one live object from a line of a block, returning `true` if
    /// the line had exactly one live object.
    pub fn reduce_line_object_count(&mut self, block: BlockPointer, index: u8) -> (r: bool)
        requires
            old(self).wf(),
            old(self).valid(block),
        ensures
            final(self).wf(),
            final(self).same_except(old(self), block),
            final(self).cursor(block) == old(self).cursor(block),
            final(self).hole_end(block) == old(self).hole_end(block),
            final(self).reusable_count(block) == old(self).reusable_count(block),
            final(self).lines(block) == old(self).lines(block).update(
                index as int,
                dec(old(self).lines(block)[index as int]),
            ),
            r == (old(self).lines(block)[index as int] == 1),
            final(self).pool() == old(self).pool(),
    {
        let count = self.line_object_count(block, index);
        self.set_line_count(block, index, count.wrapping_sub(1));
        count == 1
    }

    /// Adds to the number of reusable lines of a block (wrapping around at
    /// 256, as the atomic byte that holds it does).
    pub fn increase_reusable_lines(&mut self, block: BlockPointer, amount: u8)
        requires
            old(self).wf(),
            old(self).valid(block),
        ensures
            final(self).wf(),
            final(self).same_except(old(self), block),
            final(self).cursor(block) == old(self).cursor(block),
            final(self).hole_end(block) == old(self).hole_end(block),
            final(self).reusable_count(block) == ((old(self).reusable_count(block) + amount) % 256) as u8,
            final(self).lines(block) == old(self).lines(block),
            final(self).pool() == old(self).pool(),
    {
        let current = self.reusable[block.index];
        self.reusable.set(block.index, current.wrapping_add(amount));
        proof {
            assert forall|c: BlockPointer| self.valid(c) implies #[trigger] self.lines(c) == old(self).lines(c) by {
                assert(self.lines(c) =~= old(self).lines(c));
            }
        }
    }
}

/// The first line at or after `from` without live objects, or
/// `LINES_PER_BLOCK` if there is none.
pub open spec fn first_free_line(lines: Seq<u8>, from: int) -> int
    decreases LINES_PER_BLOCK - from,
{
    if from >= LINES_PER_BLOCK {
        LINES_PER_BLOCK as int
    } else if lines[from] == 0 {
        from
    } else {
        first_free_line(lines, from + 1)
    }
}

/// The first line at or after `from` with live objects, or `LINES_PER_BLOCK`
/// if there is none.
pub open spec fn first_used_line(lines: Seq<u8>, from: int) -> int
    decreases LINES_PER_BLOCK - from,
{
    if from >= LINES_PER_BLOCK {
        LINES_PER_BLOCK as int
    } else if lines[from] != 0 {
        from
    } else {
        first_used_line(lines, from + 1)
    }
}

/// The line counts after adding one object to each line of `[first, last]`.
pub open spec fn lines_increased(lines: Seq<u8>, first: int, last: int) -> Seq<u8> {
    Seq::new(lines.len(), |k: int| if first <= k <= last { inc(lines[k]) } else { lines[k] })
}

/// The line counts after removing one object from each line of
/// `[first, last]`.
pub open spec fn lines_reduced(lines: Seq<u8>, first: int, last: int) -> Seq<u8> {
    Seq::new(lines.len(), |k: int| if first <= k <= last { dec(lines[k]) } else { lines[k] })
}

/// The number of lines in `[first, last]` holding exactly one live object.
pub open spec fn single_object_lines(lines: Seq<u8>, first: int, last: int) -> nat
    decreases last - first + 1,
{
    if last < first {
        0
    } else {
        single_object_lines(lines, first, last - 1) + if lines[last] == 1 {
            1nat
        } else {
            0nat
        }
    }
}

impl BlockAllocator {
    /// Sets the cursor and hole end of a block.
    pub fn set_hole(&mut self, block: BlockPointer, ptr: u64, end: u64)
        requires
            old(self).wf(),
            old(self).valid(block),
            block_address(block.index as int) + FIRST_ALLOCATION_OFFSET <= ptr <= end,
            end <= block_address(block.index as int) + BLOCK_SIZE,
        ensures
            final(self).wf(),
            final(self).same_except(old(self), block),
            final(self).cursor(block) == ptr,
            final(self).hole_end(block) == end,
            final(self).reusable_count(block) == old(self).reusable_count(block),
            final(self).lines(block) == old(self).lines(block),
            final(self).pool() == old(self).pool(),
    {
        self.cursors.set(block.index, ptr);
        self.ends.set(block.index, end);
        proof {
            assert forall|c: BlockPointer| self.valid(c) implies #[trigger] self.lines(c) == old(self).lines(c) by {
                assert(self.lines(c) =~= old(self).lines(c));
            }
        }
    }

    /// Sets the number of reusable lines of a block.
    fn set_reusable(&mut self, block: BlockPointer, amount: u8)
        requires
            old(self).wf(),
            old(self).valid(block),
        ensures
            final(self).wf(),
            final(self).same_except(old(self), block),
            final(self).cursor(block) == old(self).cursor(block),
            final(self).hole_end(block) == old(self).hole_end(block),
            final(self).reusable_count(block) == amount,
            final(self).lines(block) == old(self).lines(block),
            final(self).pool() == old(self).pool(),
    {
        self.reusable.set(block.index, amount);
        proof {
            assert forall|c: BlockPointer| self.valid(c) implies #[trigger] self.lines(c) == old(self).lines(c) by {
                assert(self.lines(c) =~= old(self).lines(c));
            }
        }
    }
}

impl BlockPointer {
    /// Returns the address of the first byte of the block.
    pub fn as_ptr(self) -> (r: u64)
        requires
            self.index < MAX_BLOCKS,
        ensures
            r == block_address(self.index as int),
    {
        (self.index as u64 + 1) * BLOCK_SIZE
    }

    /// Returns the address of the start of the first line we can allocate
    /// into.
    pub fn start_address(self) -> (r: u64)
        requires
            self.index < MAX_BLOCKS,
        ensures
            r == block_address(self.index as int) + FIRST_ALLOCATION_OFFSET,
    {
        self.as_ptr() + FIRST_ALLOCATION_OFFSET
    }

    /// Returns the address of the end of the last line we can allocate into.
    pub fn end_address(self) -> (r: u64)
        requires
            self.index < MAX_BLOCKS,
        ensures
            r == block_address(self.index as int) + BLOCK_SIZE,
    {
        self.as_ptr() + BLOCK_SIZE
    }

    /// Returns the number of reusable lines of the block.
    pub fn reusable_lines(self, blocks: &BlockAllocator) -> (r: u8)
        requires
            blocks.wf(),
            blocks.valid(self),
        ensures
            r == blocks.reusable_count(self),
    {
        blocks.reusable[self.index]
    }

    /// Resets the number of reusable lines of the block to zero.
    pub fn reset_reusable_lines(self, blocks: &mut BlockAllocator)
        requires
            old(blocks).wf(),
            old(blocks).valid(self),
        ensures
            final(blocks).wf(),
            final(blocks).same_except(old(blocks), self),
            final(blocks).cursor(self) == old(blocks).cursor(self),
            final(blocks).hole_end(self) == old(blocks).hole_end(self),
            final(blocks).reusable_count(self) == 0,
            final(blocks).lines(self) == old(blocks).lines(self),
            final(blocks).pool() == old(blocks).pool(),
    {
        blocks.set_reusable(self, 0);
    }

    /// Resets the block to its initial state: the hole covers all usable
    /// lines, and no lines are reusable.
    pub fn reset(self, blocks: &mut BlockAllocator)
        requires
            old(blocks).wf(),
            old(blocks).valid(self),
        ensures
            final(blocks).wf(),
            final(blocks).same_except(old(blocks), self),
            final(blocks).cursor(self) == block_address(self.index as int) + FIRST_ALLOCATION_OFFSET,
            final(blocks).hole_end(self) == block_address(self.index as int) + BLOCK_SIZE,
            final(blocks).reusable_count(self) == 0,
            final(blocks).lines(self) == old(blocks).lines(self),
            final(blocks).pool() == old(blocks).pool(),
    {
        let start = self.start_address();
        let end = self.end_address();
        blocks.set_hole(self, start, end);
        blocks.set_reusable(self, 0);
    }

    /// Bump allocates `size` bytes into the current hole of the block.
    ///
    /// Objects may span lines, but not blocks. When an object spans lines,
    /// all the covered lines have their object counts incremented.
    pub fn allocate(self, blocks: &mut BlockAllocator, size: u64) -> (r: Option<u64>)
        requires
            old(blocks).wf(),
            old(blocks).valid(self),
            size <= BLOCK_SIZE - LINE_SIZE,
        ensures
            final(blocks).wf(),
            final(blocks).same_except(old(blocks), self),
            final(blocks).pool() == old(blocks).pool(),
            final(blocks).hole_end(self) == old(blocks).hole_end(self),
            final(blocks).reusable_count(self) == old(blocks).reusable_count(self),
            ({
                let ptr = old(blocks).cursor(self);
                if ptr + size > old(blocks).hole_end(self) {
                    &&& r is None
                    &&& final(blocks).cursor(self) == ptr
                    &&& final(blocks).lines(self) == old(blocks).lines(self)
                } else {
                    &&& r == Some(ptr)
                    &&& final(blocks).cursor(self) == ptr + size
                    &&& final(blocks).lines(self) == lines_increased(
                        old(blocks).lines(self),
                        line_index(ptr) as int,
                        last_line(ptr, (ptr + size) as u64),
                    )
                }
            }),
    {
        let ptr: u64 = blocks.cursors[self.index];
        let end: u64 = blocks.ends[self.index];
        let new_ptr: u64 = ptr + size;
        if new_ptr > end {
            return None;
        }
        blocks.set_hole(self, new_ptr, end);
        let first_line = line_index_for_pointer(ptr);
        let last_line = if new_ptr > ptr {
            line_index_for_pointer(new_ptr - 1)
        } else {
            first_line
        };
        let ghost orig = blocks.lines(self);
        let ghost mid = *blocks;
        proof {
            blocks.lemma_lines_index(self, 0);
            assert(lines_increased(orig, first_line as int, first_line - 1) =~= orig);
        }
        let mut line: u16 = first_line as u16;
        while line <= last_line as u16
            invariant
                blocks.wf(),
                blocks.valid(self),
                blocks.same_except(&mid, self),
                blocks.cursor(self) == new_ptr,
                blocks.hole_end(self) == end,
                blocks.reusable_count(self) == old(blocks).reusable_count(self),
                blocks.pool() == old(blocks).pool(),
                first_line <= line,
                line <= last_line + 1 || line == first_line,
                orig.len() == 256,
                blocks.lines(self) == lines_increased(orig, first_line as int, line - 1),
            decreases last_line + 1 - line,
        {
            let ghost before = *blocks;
            blocks.increase_line_object_count(self, line as u8);
            proof {
                assert(blocks.lines(self) =~= lines_increased(orig, first_line as int, line as int));
            }
            line = line + 1;
        }
        assert(blocks.lines(self) =~= lines_increased(orig, first_line as int, last_line as int));
        Some(ptr)
    }

    /// Advances the bump cursor to the next hole, starting at the given line:
    /// the first line without live objects at or after `line_index`. The
    /// hole runs until the next line with live objects, or the end of the
    /// block. Returns `true` if a hole is found; otherwise the block is left
    /// as it is.
    pub fn find_hole_starting_at(self, blocks: &mut BlockAllocator, line_index: u8) -> (r: bool)
        requires
            old(blocks).wf(),
            old(blocks).valid(self),
            line_index >= FIRST_USABLE_LINE,
        ensures
            final(blocks).wf(),
            final(blocks).same_except(old(blocks), self),
            final(blocks).pool() == old(blocks).pool(),
            final(blocks).lines(self) == old(blocks).lines(self),
            final(blocks).reusable_count(self) == old(blocks).reusable_count(self),
            ({
                let lines = old(blocks).lines(self);
                let hole = first_free_line(lines, line_index as int);
                if hole >= LINES_PER_BLOCK {
                    &&& !r
                    &&& final(blocks).cursor(self) == old(blocks).cursor(self)
                    &&& final(blocks).hole_end(self) == old(blocks).hole_end(self)
                } else {
                    &&& r
                    &&& final(blocks).cursor(self) == block_address(self.index as int) + LINE_SIZE * hole
                    &&& final(blocks).hole_end(self) == block_address(self.index as int)
                        + LINE_SIZE * first_used_line(lines, hole)
                }
            }),
    {
        let ghost lines = blocks.lines(self);
        proof {
            blocks.lemma_lines_index(self, 0);
        }
        let base: u64 = self.as_ptr();
        let mut line: u16 = line_index as u16;
        while line < 256
            invariant
                blocks.wf(),
                blocks.valid(self),
                lines == blocks.lines(self),
                lines.len() == 256,
                line_index <= line <= 256,
                first_free_line(lines, line_index as int) == first_free_line(lines, line as int),
            ensures
                line_index <= line <= 256,
                first_free_line(lines, line_index as int) == first_free_line(lines, line as int),
                line < 256 ==> lines[line as int] == 0,
            decreases 256 - line,
        {
            if blocks.line_object_count(self, line as u8) == 0 {
                break;
            }
            line = line + 1;
        }
        if line >= 256 {
            return false;
        }
        let hole: u16 = line;
        assert(first_free_line(lines, line_index as int) == hole);
        while line < 256
            invariant
                blocks.wf(),
                blocks.valid(self),
                lines == blocks.lines(self),
                lines.len() == 256,
                hole <= line <= 256,
                hole < 256,
                lines[hole as int] == 0,
                first_used_line(lines, hole as int) == first_used_line(lines, line as int),
            ensures
                hole <= line <= 256,
                first_used_line(lines, hole as int) == first_used_line(lines, line as int),
                line < 256 ==> lines[line as int] != 0,
            decreases 256 - line,
        {
            if blocks.line_object_count(self, line as u8) != 0 {
                break;
            }
            line = line + 1;
        }
        let end: u64 = if line >= 256 {
            base + BLOCK_SIZE
        } else {
            base + LINE_SIZE * (line as u64)
        };
        blocks.set_hole(self, base + LINE_SIZE * (hole as u64), end);
        true
    }

    /// Advances the bump cursor to the next hole after the line of the
    /// cursor. Returns `true` if a hole is found.
    pub fn find_hole(self, blocks: &mut BlockAllocator) -> (r: bool)
        requires
            old(blocks).wf(),
            old(blocks).valid(self),
        ensures
            final(blocks).wf(),
            final(blocks).same_except(old(blocks), self),
            final(blocks).pool() == old(blocks).pool(),
            final(blocks).lines(self) == old(blocks).lines(self),
            final(blocks).reusable_count(self) == old(blocks).reusable_count(self),
            ({
                let lines = old(blocks).lines(self);
                let ptr = old(blocks).cursor(self);
                let next = line_index(ptr) + 1;
                let hole = first_free_line(lines, next);
                if ptr == block_address(self.index as int) + BLOCK_SIZE || hole >= LINES_PER_BLOCK {
                    &&& !r
                    &&& final(blocks).cursor(self) == old(blocks).cursor(self)
                    &&& final(blocks).hole_end(self) == old(blocks).hole_end(self)
                } else {
                    &&& r
                    &&& final(blocks).cursor(self) == block_address(self.index as int) + LINE_SIZE * hole
                    &&& final(blocks).hole_end(self) == block_address(self.index as int)
                        + LINE_SIZE * first_used_line(lines, hole)
                    &&& line_index(ptr) < hole
                }
            }),
    {
        let ptr: u64 = blocks.cursors[self.index];
        if ptr == self.end_address() {
            return false;
        }
        let line = line_index_for_pointer(ptr);
        proof {
            lemma_line_of_block_address(self.index as int, ptr);
            lemma_first_free_line_bounds(blocks.lines(self), line + 1);
        }
        if line as u16 + 1 >= 256 {
            return false;
        }
        self.find_hole_starting_at(blocks, line + 1)
    }

    /// Rewinds the allocation cursor to the first hole of the block.
    pub fn find_first_hole(self, blocks: &mut BlockAllocator)
        requires
            old(blocks).wf(),
            old(blocks).valid(self),
        ensures
            final(blocks).wf(),
            final(blocks).same_except(old(blocks), self),
            final(blocks).pool() == old(blocks).pool(),
            final(blocks).lines(self) == old(blocks).lines(self),
            final(blocks).reusable_count(self) == old(blocks).reusable_count(self),
            rewound(final(blocks), old(blocks), self),
    {
        self.find_hole_starting_at(blocks, FIRST_USABLE_LINE);
    }
}

/// Holds when the hole of block `b` in `after` is the first hole of its line
/// map in `before`, from the first usable line on; a block without a free
/// line keeps its hole.
pub open spec fn rewound(after: &BlockAllocator, before: &BlockAllocator, b: BlockPointer) -> bool {
    let lines = before.lines(b);
    let hole = first_free_line(lines, FIRST_USABLE_LINE as int);
    if hole >= LINES_PER_BLOCK {
        &&& after.cursor(b) == before.cursor(b)
        &&& after.hole_end(b) == before.hole_end(b)
    } else {
        &&& after.cursor(b) == block_address(b.index as int) + LINE_SIZE * hole
        &&& after.hole_end(b) == block_address(b.index as int) + LINE_SIZE * first_used_line(lines, hole)
    }
}

/// The first free line from `from` on is at least `from`, and is
/// `LINES_PER_BLOCK` when `from` is past the last line.
proof fn lemma_first_free_line_bounds(lines: Seq<u8>, from: int)
    ensures
        first_free_line(lines, from) >= from || from > LINES_PER_BLOCK,
        from >= LINES_PER_BLOCK ==> first_free_line(lines, from) == LINES_PER_BLOCK,
        first_free_line(lines, from) <= LINES_PER_BLOCK,
    decreases LINES_PER_BLOCK - from,
{
    if from < LINES_PER_BLOCK {
        lemma_first_free_line_bounds(lines, from + 1);
    }
}

/// An address inside the usable area of a block lies in a line of that
/// block from the first usable line on.
proof fn lemma_line_of_block_address(index: int, addr: u64)
    requires
        0 <= index < MAX_BLOCKS,
        block_address(index) + FIRST_ALLOCATION_OFFSET <= addr < block_address(index) + BLOCK_SIZE,
    ensures
        line_index(addr) >= FIRST_USABLE_LINE,
        line_index(addr) < LINES_PER_BLOCK,
        addr % BLOCK_SIZE == addr - block_address(index),
{
    let off = addr - block_address(index);
    vstd::arithmetic::div_mod::lemma_fundamental_div_mod_converse(addr as int, BLOCK_SIZE as int, index + 1, off);
}

/// The block pointers of a list of owned blocks.
pub open spec fn block_pointers(v: Seq<Block>) -> Seq<BlockPointer> {
    v.map_values(|b: Block| b.pointer())
}

impl Block {
    /// Allocates a new block, with all lines free and the hole covering all
    /// usable lines.
    pub fn new(blocks: &mut BlockAllocator) -> (r: Self)
        requires
            old(blocks).wf(),
            old(blocks).num_blocks() < MAX_BLOCKS,
        ensures
            final(blocks).wf(),
            final(blocks).num_blocks() == old(blocks).num_blocks() + 1,
            r.pointer().index == old(blocks).num_blocks(),
            forall|c: BlockPointer|
                #![trigger old(blocks).cursor(c)]
                old(blocks).valid(c) ==> {
                    &&& final(blocks).cursor(c) == old(blocks).cursor(c)
                    &&& final(blocks).hole_end(c) == old(blocks).hole_end(c)
                    &&& final(blocks).reusable_count(c) == old(blocks).reusable_count(c)
                    &&& final(blocks).lines(c) == old(blocks).lines(c)
                },
            final(blocks).cursor(r.pointer()) == block_address(r.pointer().index as int) + FIRST_ALLOCATION_OFFSET,
            final(blocks).hole_end(r.pointer()) == block_address(r.pointer().index as int) + BLOCK_SIZE,
            final(blocks).reusable_count(r.pointer()) == 0,
            final(blocks).lines(r.pointer()) == Seq::new(LINES_PER_BLOCK as nat, |k: int| 0u8),
            final(blocks).pool() == old(blocks).pool(),
    {
        let ptr = BlockPointer { index: blocks.cursors.len() };
        let start = ptr.start_address();
        let end = ptr.end_address();
        let ghost old_maps = blocks.line_maps@;
        blocks.cursors.push(start);
        blocks.ends.push(end);
        blocks.reusable.push(0);
        let ghost cursors = blocks.cursors@;
        let ghost ends = blocks.ends@;
        let ghost reusable = blocks.reusable@;
        let ghost pool = blocks.blocks@;
        let mut k: usize = 0;
        while k < 256
            invariant
                blocks.cursors@ == cursors,
                blocks.ends@ == ends,
                blocks.reusable@ == reusable,
                blocks.blocks@ == pool,
                k <= 256,
                blocks.line_maps@.len() == old_maps.len() + k,
                blocks.line_maps@.subrange(0, old_maps.len() as int) == old_maps,
                forall|i: int| old_maps.len() <= i < blocks.line_maps@.len() ==> blocks.line_maps@[i] == 0,
                old_maps.len() == ptr.index * 256,
            decreases 256 - k,
        {
            blocks.line_maps.push(0);
            k += 1;
        }
        proof {
            assert forall|c: BlockPointer| old(blocks).valid(c) implies #[trigger] blocks.lines(c) == old(blocks).lines(c) by {
                assert(c.index * 256 + 256 <= ptr.index * 256) by (nonlinear_arith)
                    requires c.index < ptr.index;
                assert(blocks.lines(c) =~= old(blocks).lines(c));
            }
            assert(blocks.lines(ptr) =~= Seq::new(LINES_PER_BLOCK as nat, |k: int| 0u8));
            assert(blocks.pool() =~= old(blocks).pool());
        }
        Block { ptr }
    }
}

impl BlockAllocator {
    /// Requests a block: the most recently added block of the pool if there
    /// is one, else a new block.
    pub fn request(&mut self) -> (r: Block)
        requires
            old(self).wf(),
            old(self).num_blocks() < MAX_BLOCKS,
        ensures
            final(self).wf(),
            final(self).valid(r.pointer()),
            forall|c: BlockPointer|
                #![trigger old(self).cursor(c)]
                old(self).valid(c) ==> {
                    &&& final(self).cursor(c) == old(self).cursor(c)
                    &&& final(self).hole_end(c) == old(self).hole_end(c)
                    &&& final(self).reusable_count(c) == old(self).reusable_count(c)
                    &&& final(self).lines(c) == old(self).lines(c)
                },
            old(self).pool().len() > 0 ==> {
                &&& r.pointer() == old(self).pool().last()
                &&& final(self).pool() == old(self).pool().drop_last()
                &&& final(self).num_blocks() == old(self).num_blocks()
            },
            old(self).pool().len() == 0 ==> {
                &&& r.pointer().index == old(self).num_blocks()
                &&& final(self).num_blocks() == old(self).num_blocks() + 1
                &&& final(self).pool() == old(self).pool()
                &&& final(self).cursor(r.pointer()) == block_address(r.pointer().index as int)
                    + FIRST_ALLOCATION_OFFSET
                &&& final(self).hole_end(r.pointer()) == block_address(r.pointer().index as int)
                    + BLOCK_SIZE
                &&& final(self).reusable_count(r.pointer()) == 0
                &&& final(self).lines(r.pointer()) == Seq::new(LINES_PER_BLOCK as nat, |k: int| 0u8)
            },
    {
        match self.blocks.pop() {
            Some(block) => {
                proof {
                    assert(self.pool() =~= old(self).pool().drop_last());
                    assert(old(self).blocks@[old(self).blocks@.len() - 1].ptr.index < self.cursors@.len());
                    assert forall|c: BlockPointer| #[trigger] old(self).valid(c) implies {
                        &&& self.cursor(c) == old(self).cursor(c)
                        &&& self.hole_end(c) == old(self).hole_end(c)
                        &&& self.reusable_count(c) == old(self).reusable_count(c)
                        &&& self.lines(c) == old(self).lines(c)
                    } by {
                        assert(self.lines(c) =~= old(self).lines(c));
                    }
                }
                block
            },
            None => {
                let ghost mid = *self;
                let b = Block::new(self);
                assert forall|c: BlockPointer| #[trigger] old(self).valid(c) implies {
                    &&& self.cursor(c) == old(self).cursor(c)
                    &&& self.hole_end(c) == old(self).hole_end(c)
                    &&& self.reusable_count(c) == old(self).reusable_count(c)
                    &&& self.lines(c) == old(self).lines(c)
                } by {
                    assert(mid.cursor(c) == old(self).cursor(c));
                    assert(mid.lines(c) =~= old(self).lines(c));
                }
                b
            },
        }
    }

    /// Adds existing blocks back to the pool, leaving `add` empty.
    pub fn add_blocks(&mut self, add: &mut Vec<Block>)
        requires
            old(self).wf(),
            forall|k: int| 0 <= k < old(add)@.len() ==> old(self).valid(#[trigger] old(add)@[k].pointer()),
        ensures
            final(self).wf(),
            final(self).num_blocks() == old(self).num_blocks(),
            forall|c: BlockPointer|
                #![trigger old(self).cursor(c)]
                old(self).valid(c) ==> {
                    &&& final(self).cursor(c) == old(self).cursor(c)
                    &&& final(self).hole_end(c) == old(self).hole_end(c)
                    &&& final(self).reusable_count(c) == old(self).reusable_count(c)
                    &&& final(self).lines(c) == old(self).lines(c)
                },
            final(self).pool() == old(self).pool() + block_pointers(old(add)@),
            final(add)@.len() == 0,
    {
        self.blocks.append(add);
        proof {
            assert(self.pool() =~= old(self).pool() + block_pointers(old(add)@));
            assert forall|k: int| 0 <= k < self.blocks@.len() implies (#[trigger] self.blocks@[k]).ptr.index < self.cursors@.len() by {
                if k >= old(self).blocks@.len() {
                    assert(self.blocks@[k] == old(add)@[k - old(self).blocks@.len()]);
                    assert(old(self).valid(old(add)@[k - old(self).blocks@.len()].pointer()));
                }
            }
            assert forall|c: BlockPointer| old(self).valid(c) implies #[trigger] self.lines(c) == old(self).lines(c) by {
                assert(self.lines(c) =~= old(self).lines(c));
            }
        }
    }
}

/// The block that holds the address `addr`.
pub open spec fn block_of(addr: u64) -> int {
    addr / BLOCK_SIZE - 1
}

/// Returns the block that holds an address, which must lie in a block of the
/// allocator.
pub fn block_header_for_pointer(blocks: &BlockAllocator, addr: u64) -> (r: BlockPointer)
    requires
        blocks.wf(),
        0 <= block_of(addr) < blocks.num_blocks(),
    ensures
        r.index == block_of(addr),
        blocks.valid(r),
        block_address(r.index as int) <= addr < block_address(r.index as int) + BLOCK_SIZE,
{
    let start: u64 = addr & 0xFFFF_FFFF_FFFF_8000u64;
    assert(start == addr - addr % 32768) by (bit_vector)
        requires
            start == addr & 0xFFFF_FFFF_FFFF_8000u64,
    ;
    BlockPointer { index: (start / BLOCK_SIZE - 1) as usize }
}

impl Pointer {
    /// Marks the memory of an object of `size` bytes at this (untagged)
    /// address as ready for recycling: every line the object covers has its
    /// object count reduced, and every line that no longer holds objects
    /// counts as reusable.
    pub fn recycle(self, blocks: &mut BlockAllocator, size: u64)
        requires
            old(blocks).wf(),
            0 <= block_of(self@) < old(blocks).num_blocks(),
            size <= MAX_ALLOCATION_SIZE,
        ensures
            ({
                let b = BlockPointer { index: block_of(self@) as usize };
                let first = line_index(self@) as int;
                let last = last_line(self@, (self@ + size) as u64);
                &&& final(blocks).wf()
                &&& final(blocks).same_except(old(blocks), b)
                &&& final(blocks).pool() == old(blocks).pool()
                &&& final(blocks).cursor(b) == old(blocks).cursor(b)
                &&& final(blocks).hole_end(b) == old(blocks).hole_end(b)
                &&& final(blocks).lines(b) == lines_reduced(old(blocks).lines(b), first, last)
                &&& final(blocks).reusable_count(b) == ((old(blocks).reusable_count(b)
                    + single_object_lines(old(blocks).lines(b), first, last)) % 256) as u8
            }),
    {
        let ptr_start: u64 = self.0;
        let header = block_header_for_pointer(blocks, ptr_start);
        let ptr_end: u64 = ptr_start + size;
        let first_line = line_index_for_pointer(ptr_start);
        let last_line = if ptr_end > ptr_start {
            line_index_for_pointer(ptr_end - 1)
        } else {
            first_line
        };
        let mut reusable: u16 = 0;
        let ghost orig = blocks.lines(header);
        let ghost mid = *blocks;
        proof {
            blocks.lemma_lines_index(header, 0);
            assert(lines_reduced(orig, first_line as int, first_line - 1) =~= orig);
        }
        let mut line: u16 = first_line as u16;
        while line <= last_line as u16
            invariant
                blocks.wf(),
                blocks.valid(header),
                blocks.same_except(&mid, header),
                blocks.pool() == mid.pool(),
                blocks.cursor(header) == mid.cursor(header),
                blocks.hole_end(header) == mid.hole_end(header),
                blocks.reusable_count(header) == mid.reusable_count(header),
                first_line <= line,
                line <= last_line + 1 || line == first_line,
                orig.len() == 256,
                blocks.lines(header) == lines_reduced(orig, first_line as int, line - 1),
                reusable == single_object_lines(orig, first_line as int, line - 1),
                reusable <= line - first_line,
            decreases last_line + 1 - line,
        {
            if blocks.reduce_line_object_count(header, line as u8) {
                reusable = reusable + 1;
            }
            proof {
                assert(blocks.lines(header) =~= lines_reduced(orig, first_line as int, line as int));
            }
            line = line + 1;
        }
        assert(blocks.lines(header) =~= lines_reduced(orig, first_line as int, last_line as int));
        assert(reusable == single_object_lines(orig, first_line as int, last_line as int));
        blocks.increase_reusable_lines(header, reusable as u8);
    }
}

/// A type for allocating objects.
pub trait Allocator {
    /// Holds when the allocator can allocate from the blocks of `blocks`.
    spec fn allocator_wf(&self, blocks: &BlockAllocator) -> bool;

    /// Allocates a new object of the given size, returning its address.
    fn allocate(&mut self, blocks: &mut BlockAllocator, size: u64) -> (r: Pointer)
        requires
            old(self).allocator_wf(old(blocks)),
            old(blocks).wf(),
            old(blocks).num_blocks() < MAX_BLOCKS,
            size <= MAX_ALLOCATION_SIZE,
        ensures
            final(self).allocator_wf(final(blocks)),
            final(blocks).wf(),
            final(blocks).num_blocks() <= old(blocks).num_blocks() + 1,
    ;
}

/// An allocator that bump allocates objects into fixed-size blocks.
///
/// The blocks of the allocator form its heap, in order: the first block is
/// the oldest one, and blocks that can be reused are moved to the end.
pub struct BumpAllocator {
    /// The blocks owned by this allocator, in heap order.
    blocks: Vec<Block>,
    /// The position of the block we're allocating into.
    current: usize,
    /// The position of the block to start a recycling scan at.
    recycle_cursor: usize,
    /// A buffer of empty blocks to return to the block allocator.
    empty_blocks: Vec<Block>,
}

/// The line map of a block in which no line holds an object.
pub open spec fn empty_lines() -> Seq<u8> {
    Seq::new(LINES_PER_BLOCK as nat, |k: int| 0u8)
}

/// Holds when a sequence holds no block twice.
pub open spec fn distinct_blocks(s: Seq<BlockPointer>) -> bool {
    forall|i: int, j: int| 0 <= i < s.len() && 0 <= j < s.len() && i != j ==> s[i] != s[j]
}

impl BumpAllocator {
    /// The blocks of the heap, in order.
    pub closed spec fn heap(&self) -> Seq<BlockPointer> {
        block_pointers(self.blocks@)
    }

    /// The position of the current block in the heap.
    pub closed spec fn current_position(&self) -> int {
        self.current as int
    }

    /// The position of the block where the next recycling scan starts.
    pub closed spec fn cursor_position(&self) -> int {
        self.recycle_cursor as int
    }

    /// The well-formedness of the allocator with respect to the block
    /// allocator: the heap is not empty, holds valid and distinct blocks that
    /// are not in the pool, and the recycle cursor doesn't lie after the
    /// current block.
    pub closed spec fn wf(&self, blocks: &BlockAllocator) -> bool {
        &&& self.blocks@.len() >= 1
        &&& self.current < self.blocks@.len()
        &&& self.recycle_cursor <= self.current
        &&& self.empty_blocks@.len() == 0
        &&& distinct_blocks(self.heap())
        &&& forall|k: int| 0 <= k < self.heap().len() ==> blocks.valid(#[trigger] self.heap()[k])
        &&& forall|k: int| 0 <= k < self.heap().len() ==> !blocks.pool().contains(#[trigger] self.heap()[k])
    }

    /// Returns a new allocator whose heap holds a single block requested from
    /// the block allocator.
    pub fn new(blocks: &mut BlockAllocator) -> (r: Self)
        requires
            old(blocks).wf(),
            old(blocks).num_blocks() < MAX_BLOCKS,
            distinct_blocks(old(blocks).pool()),
        ensures
            final(blocks).wf(),
            final(blocks).num_blocks() <= old(blocks).num_blocks() + 1,
            r.wf(final(blocks)),
            r.heap().len() == 1,
            r.current_position() == 0,
            r.cursor_position() == 0,
            distinct_blocks(final(blocks).pool()),
            old(blocks).pool().len() > 0 ==> r.heap()[0] == old(blocks).pool().last(),
            old(blocks).pool().len() > 0 ==> final(blocks).pool() == old(blocks).pool().drop_last(),
            old(blocks).pool().len() == 0 ==> {
                &&& r.heap()[0].index == old(blocks).num_blocks()
                &&& final(blocks).num_blocks() == old(blocks).num_blocks() + 1
                &&& final(blocks).pool() == old(blocks).pool()
                &&& final(blocks).cursor(r.heap()[0]) == block_address(r.heap()[0].index as int)
                    + FIRST_ALLOCATION_OFFSET
                &&& final(blocks).hole_end(r.heap()[0]) == block_address(r.heap()[0].index as int)
                    + BLOCK_SIZE
                &&& final(blocks).lines(r.heap()[0]) == empty_lines()
                &&& final(blocks).reusable_count(r.heap()[0]) == 0
            },
            forall|c: BlockPointer|
                #![trigger old(blocks).cursor(c)]
                old(blocks).valid(c) ==> {
                    &&& final(blocks).cursor(c) == old(blocks).cursor(c)
                    &&& final(blocks).hole_end(c) == old(blocks).hole_end(c)
                    &&& final(blocks).reusable_count(c) == old(blocks).reusable_count(c)
                    &&& final(blocks).lines(c) == old(blocks).lines(c)
                },
    {
        let block = blocks.request();
        assert(Seq::new(LINES_PER_BLOCK as nat, |k: int| 0u8) =~= empty_lines());
        let mut list: Vec<Block> = Vec::new();
        list.push(block);
        let r = BumpAllocator { blocks: list, current: 0, recycle_cursor: 0, empty_blocks: Vec::new() };
        proof {
            assert(r.heap() =~= seq![block.pointer()]);
            assert forall|i: int, j: int|
                0 <= i < blocks.pool().len() && 0 <= j < blocks.pool().len() && i != j
                implies blocks.pool()[i] != blocks.pool()[j] by {
                if old(blocks).pool().len() > 0 {
                    assert(blocks.pool()[i] == old(blocks).pool()[i]);
                    assert(blocks.pool()[j] == old(blocks).pool()[j]);
                }
            }
            if old(blocks).pool().len() > 0 {
                assert forall|k: int| 0 <= k < blocks.pool().len() implies blocks.pool()[k] != block.pointer() by {
                    assert(old(blocks).pool()[k] == blocks.pool()[k]);
                }
            } else {
                assert forall|k: int| 0 <= k < blocks.pool().len() implies blocks.pool()[k] != block.pointer() by {
                    assert(blocks.pool() == old(blocks).pool());
                }
            }
        }
        r
    }

    /// Returns the first block of the heap.
    pub fn first(&self) -> (r: BlockPointer)
        requires
            self.heap().len() >= 1,
        ensures
            r == self.heap()[0],
    {
        self.blocks[0].as_ptr()
    }

    /// Returns the block we're allocating into.
    pub fn current(&self, blocks: &BlockAllocator) -> (r: BlockPointer)
        requires
            self.wf(blocks),
        ensures
            r == self.heap()[self.current_position()],
    {
        self.blocks[self.current].as_ptr()
    }

    /// Returns the last block of the heap.
    pub fn last(&self, blocks: &BlockAllocator) -> (r: BlockPointer)
        requires
            self.wf(blocks),
        ensures
            r == self.heap().last(),
    {
        self.blocks[self.blocks.len() - 1].as_ptr()
    }

    /// Returns the block where the next recycling scan starts.
    pub fn recycle_cursor(&self, blocks: &BlockAllocator) -> (r: BlockPointer)
        requires
            self.wf(blocks),
        ensures
            r == self.heap()[self.cursor_position()],
    {
        self.blocks[self.recycle_cursor].as_ptr()
    }

    /// Returns the block after the given position of the heap, if any.
    pub fn next_block(&self, position: usize) -> (r: Option<BlockPointer>)
        requires
            position < self.heap().len(),
        ensures
            position + 1 < self.heap().len() ==> r == Some(self.heap()[position + 1]),
            position + 1 >= self.heap().len() ==> r is None,
    {
        if position < self.blocks.len() - 1 {
            Some(self.blocks[position + 1].as_ptr())
        } else {
            None
        }
    }

    /// Requests a new block, appends it to the heap and makes it the current
    /// block.
    pub fn add_new_block(&mut self, blocks: &mut BlockAllocator)
        requires
            old(self).wf(old(blocks)),
            old(blocks).wf(),
            old(blocks).num_blocks() < MAX_BLOCKS,
            distinct_blocks(old(blocks).pool()),
        ensures
            final(self).wf(final(blocks)),
            final(blocks).wf(),
            distinct_blocks(final(blocks).pool()),
            final(self).heap().len() == old(self).heap().len() + 1,
            final(self).heap().drop_last() == old(self).heap(),
            final(self).current_position() == old(self).heap().len(),
            final(self).cursor_position() == old(self).cursor_position(),
            old(blocks).pool().len() > 0 ==> {
                &&& final(self).heap().last() == old(blocks).pool().last()
                &&& final(blocks).pool() == old(blocks).pool().drop_last()
                &&& final(blocks).num_blocks() == old(blocks).num_blocks()
            },
            old(blocks).pool().len() == 0 ==> {
                &&& final(self).heap().last().index == old(blocks).num_blocks()
                &&& final(blocks).num_blocks() == old(blocks).num_blocks() + 1
                &&& final(blocks).pool() == old(blocks).pool()
                &&& final(blocks).cursor(final(self).heap().last()) == block_address(
                    final(self).heap().last().index as int,
                ) + FIRST_ALLOCATION_OFFSET
                &&& final(blocks).hole_end(final(self).heap().last()) == block_address(
                    final(self).heap().last().index as int,
                ) + BLOCK_SIZE
                &&& final(blocks).lines(final(self).heap().last()) == empty_lines()
                &&& final(blocks).reusable_count(final(self).heap().last()) == 0
            },
            forall|c: BlockPointer|
                #![trigger old(blocks).cursor(c)]
                old(blocks).valid(c) ==> {
                    &&& final(blocks).cursor(c) == old(blocks).cursor(c)
                    &&& final(blocks).hole_end(c) == old(blocks).hole_end(c)
                    &&& final(blocks).reusable_count(c) == old(blocks).reusable_count(c)
                    &&& final(blocks).lines(c) == old(blocks).lines(c)
                },
    {
        let block = blocks.request();
        let ghost b = block.pointer();
        assert(Seq::new(LINES_PER_BLOCK as nat, |k: int| 0u8) =~= empty_lines());
        self.blocks.push(block);
        self.current = self.blocks.len() - 1;
        proof {
            assert(self.heap() =~= old(self).heap().push(b));
            assert(self.heap().drop_last() =~= old(self).heap());
            assert(!old(self).heap().contains(b)) by {
                if old(blocks).pool().len() > 0 {
                    assert(old(blocks).pool().contains(b));
                    if old(self).heap().contains(b) {
                        let k = choose|k: int| 0 <= k < old(self).heap().len() && old(self).heap()[k] == b;
                        assert(!old(blocks).pool().contains(old(self).heap()[k]));
                    }
                } else {
                    if old(self).heap().contains(b) {
                        let k = choose|k: int| 0 <= k < old(self).heap().len() && old(self).heap()[k] == b;
                        assert(old(blocks).valid(old(self).heap()[k]));
                    }
                }
            }
            assert forall|k: int| 0 <= k < self.heap().len() implies !blocks.pool().contains(#[trigger] self.heap()[k]) by {
                if blocks.pool().contains(self.heap()[k]) {
                    let m = choose|m: int| 0 <= m < blocks.pool().len() && blocks.pool()[m] == self.heap()[k];
                    if k < old(self).heap().len() {
                        assert(old(blocks).pool()[m] == blocks.pool()[m]);
                        assert(!old(blocks).pool().contains(old(self).heap()[k]));
                    } else {
                        assert(old(blocks).pool()[m] == blocks.pool()[m]);
                        assert(distinct_blocks(old(blocks).pool()));
                    }
                }
            }
            assert forall|k: int| 0 <= k < self.heap().len() implies blocks.valid(#[trigger] self.heap()[k]) by {
                if k < old(self).heap().len() {
                    assert(old(blocks).valid(old(self).heap()[k]));
                }
            }
            assert forall|i: int, j: int| 0 <= i < self.heap().len() && 0 <= j < self.heap().len() && i != j
                implies self.heap()[i] != self.heap()[j] by {
                if i < old(self).heap().len() && j < old(self).heap().len() {
                    assert(old(self).heap()[i] != old(self).heap()[j]);
                } else if i < old(self).heap().len() {
                    assert(old(self).heap().contains(old(self).heap()[i]));
                } else if j < old(self).heap().len() {
                    assert(old(self).heap().contains(old(self).heap()[j]));
                }
            }
            assert forall|i: int, j: int| 0 <= i < blocks.pool().len() && 0 <= j < blocks.pool().len() && i != j
                implies blocks.pool()[i] != blocks.pool()[j] by {
                assert(blocks.pool()[i] == old(blocks).pool()[i]);
                assert(blocks.pool()[j] == old(blocks).pool()[j]);
            }
        }
    }
}

impl BumpAllocator {
    /// The block we're allocating into.
    pub open spec fn current_block(&self) -> BlockPointer {
        self.heap()[self.current_position()]
    }
}

/// Holds when the hole of a block covers all of its usable lines, as it does
/// for a block that was never allocated into.
pub open spec fn untouched(blocks: &BlockAllocator, b: BlockPointer) -> bool {
    &&& blocks.cursor(b) == block_address(b.index as int) + FIRST_ALLOCATION_OFFSET
    &&& blocks.hole_end(b) == block_address(b.index as int) + BLOCK_SIZE
}

/// The line map a block had before an allocation: its old line map if it
/// existed, else an empty one.
pub open spec fn lines_before(blocks: &BlockAllocator, b: BlockPointer) -> Seq<u8> {
    if blocks.valid(b) {
        blocks.lines(b)
    } else {
        empty_lines()
    }
}

/// A block other than the one that changed keeps its state.
proof fn lemma_unchanged(after: &BlockAllocator, before: &BlockAllocator, changed: BlockPointer, c: BlockPointer)
    requires
        after.same_except(before, changed),
        c != changed,
        after.valid(c),
    ensures
        after.cursor(c) == before.cursor(c),
        after.hole_end(c) == before.hole_end(c),
        after.reusable_count(c) == before.reusable_count(c),
        after.lines(c) == before.lines(c),
{
    assert(after.cursor(c) == before.cursor(c));
}

impl Allocator for BumpAllocator {
    open spec fn allocator_wf(&self, blocks: &BlockAllocator) -> bool {
        self.wf(blocks) && distinct_blocks(blocks.pool())
    }

    /// Allocates into the current block, moving on to the next hole of the
    /// block, then to the next block of the heap, and finally requesting a
    /// new block, until the object fits.
    #[verifier::spinoff_prover]
    fn allocate(&mut self, blocks: &mut BlockAllocator, size: u64) -> (r: Pointer)
        ensures
            ({
                let b = final(self).current_block();
                &&& final(blocks).cursor(b) == r@ + size
                &&& block_address(b.index as int) + FIRST_ALLOCATION_OFFSET <= r@
                &&& r@ + size <= final(blocks).hole_end(b)
                &&& final(blocks).lines(b) == lines_increased(
                    lines_before(old(blocks), b),
                    line_index(r@) as int,
                    last_line(r@, (r@ + size) as u64),
                )
                &&& final(blocks).reusable_count(b) == (if old(blocks).valid(b) {
                    old(blocks).reusable_count(b)
                } else {
                    0u8
                })
                &&& forall|c: BlockPointer|
                    #![trigger final(blocks).lines(c)]
                    old(blocks).valid(c) && c != b ==> {
                        &&& final(blocks).lines(c) == old(blocks).lines(c)
                        &&& final(blocks).reusable_count(c) == old(blocks).reusable_count(c)
                    }
            }),
            final(blocks).num_blocks() >= old(blocks).num_blocks(),
            final(blocks).num_blocks() <= old(blocks).num_blocks() + 1,
            final(self).heap().len() >= old(self).heap().len(),
            final(self).heap().subrange(0, old(self).heap().len() as int) == old(self).heap(),
            old(self).current_position() <= final(self).current_position(),
            final(self).cursor_position() == old(self).cursor_position(),
            ({
                let c = old(self).current_block();
                old(blocks).cursor(c) + size <= old(blocks).hole_end(c) ==> {
                    &&& r@ == old(blocks).cursor(c)
                    &&& final(self).current_block() == c
                    &&& final(blocks).hole_end(c) == old(blocks).hole_end(c)
                }
            }),
    {
        let ghost b0 = *blocks;
        let ghost s0 = *self;
        let ghost mut first = true;
        loop
            invariant
                b0 == *old(blocks),
                s0 == *old(self),
                first ==> *self == s0 && *blocks == b0,
                !first ==> !(b0.cursor(s0.current_block()) + size <= b0.hole_end(s0.current_block())),
                self.wf(blocks),
                blocks.wf(),
                distinct_blocks(blocks.pool()),
                size <= MAX_ALLOCATION_SIZE,
                blocks.num_blocks() < MAX_BLOCKS || untouched(blocks, self.current_block()),
                blocks.num_blocks() >= b0.num_blocks(),
                blocks.num_blocks() <= b0.num_blocks() + 1,
                blocks.num_blocks() == b0.num_blocks() + 1 ==> untouched(blocks, self.current_block()),
                forall|c: BlockPointer|
                    #![trigger blocks.lines(c)]
                    b0.valid(c) ==> {
                        &&& blocks.lines(c) == b0.lines(c)
                        &&& blocks.reusable_count(c) == b0.reusable_count(c)
                    },
                forall|c: BlockPointer|
                    #![trigger blocks.lines(c)]
                    blocks.valid(c) && !b0.valid(c) ==> {
                        &&& blocks.lines(c) == empty_lines()
                        &&& blocks.reusable_count(c) == 0
                    },
                self.heap().len() >= s0.heap().len(),
                self.heap().subrange(0, s0.heap().len() as int) == s0.heap(),
                s0.current_position() <= self.current_position(),
                self.cursor_position() == s0.cursor_position(),
            decreases
                blocks.pool().len() + (MAX_BLOCKS - blocks.num_blocks()),
                self.heap().len() - self.current_position(),
                block_address(self.current_block().index as int) + BLOCK_SIZE - blocks.cursor(
                    self.current_block(),
                ),
        {
            let current = self.blocks[self.current].as_ptr();
            proof {
                assert(current == self.current_block());
                assert(blocks.valid(self.heap()[self.current as int]));
            }
            let ghost before = *blocks;
            let res = current.allocate(blocks, size);
            match res {
                Some(addr) => {
                    proof {
                        assert(b0.valid(current) ==> before.lines(current) == b0.lines(current));
                        assert(!b0.valid(current) ==> before.lines(current) == empty_lines());
                        assert(lines_before(&b0, current) == before.lines(current));
                        assert(blocks.cursor(current) == addr + size);
                        assert(block_address(current.index as int) + FIRST_ALLOCATION_OFFSET <= addr);
                        assert(addr + size <= blocks.hole_end(current));
                        assert(blocks.lines(current) == lines_increased(
                            lines_before(&b0, current),
                            line_index(addr) as int,
                            last_line(addr, (addr + size) as u64),
                        ));
                        assert(blocks.reusable_count(current) == (if b0.valid(current) {
                            b0.reusable_count(current)
                        } else {
                            0u8
                        }));
                        assert forall|c: BlockPointer|
                            #![trigger blocks.lines(c)]
                            b0.valid(c) && c != current implies {
                                &&& blocks.lines(c) == b0.lines(c)
                                &&& blocks.reusable_count(c) == b0.reusable_count(c)
                            } by {
                            lemma_unchanged(blocks, &before, current, c);
                            assert(before.lines(c) == b0.lines(c));
                            assert(before.reusable_count(c) == b0.reusable_count(c));
                        }
                    }
                    return Pointer::new(addr);
                },
                None => {},
            }
            proof {
                first = false;
            }
            assert(blocks.num_blocks() < MAX_BLOCKS);
            if current.find_hole(blocks) {
                proof {
                    assert forall|c: BlockPointer|
                        #![trigger blocks.lines(c)]
                        b0.valid(c) implies {
                            &&& blocks.lines(c) == b0.lines(c)
                            &&& blocks.reusable_count(c) == b0.reusable_count(c)
                        } by {
                        assert(before.valid(c));
                        assert(blocks.valid(c));
                        if c != current {
                            lemma_unchanged(blocks, &before, current, c);
                        }
                        assert(blocks.lines(c) == before.lines(c));
                        assert(blocks.reusable_count(c) == before.reusable_count(c));
                        assert(before.lines(c) == b0.lines(c));
                        assert(before.reusable_count(c) == b0.reusable_count(c));
                    }
                    assert forall|c: BlockPointer|
                        #![trigger blocks.lines(c)]
                        blocks.valid(c) && !b0.valid(c) implies {
                            &&& blocks.lines(c) == empty_lines()
                            &&& blocks.reusable_count(c) == 0
                        } by {
                        if c != current {
                            lemma_unchanged(blocks, &before, current, c);
                        }
                        assert(blocks.lines(c) == before.lines(c));
                        assert(blocks.reusable_count(c) == before.reusable_count(c));
                        assert(before.lines(c) == empty_lines());
                        assert(before.reusable_count(c) == 0);
                    }
                    assert(self.wf(blocks));
                }
                continue;
            }
            proof {
                assert forall|c: BlockPointer|
                    #![trigger blocks.lines(c)]
                    b0.valid(c) implies {
                        &&& blocks.lines(c) == b0.lines(c)
                        &&& blocks.reusable_count(c) == b0.reusable_count(c)
                    } by {
                    assert(before.valid(c));
                    assert(blocks.valid(c));
                    if c != current {
                        lemma_unchanged(blocks, &before, current, c);
                    }
                    assert(blocks.lines(c) == before.lines(c));
                    assert(blocks.reusable_count(c) == before.reusable_count(c));
                    assert(before.lines(c) == b0.lines(c));
                    assert(before.reusable_count(c) == b0.reusable_count(c));
                }
                assert forall|c: BlockPointer|
                    #![trigger blocks.lines(c)]
                    blocks.valid(c) && !b0.valid(c) implies {
                        &&& blocks.lines(c) == empty_lines()
                        &&& blocks.reusable_count(c) == 0
                    } by {
                    if c != current {
                        lemma_unchanged(blocks, &before, current, c);
                    }
                    assert(blocks.lines(c) == before.lines(c));
                    assert(blocks.reusable_count(c) == before.reusable_count(c));
                    assert(before.lines(c) == empty_lines());
                    assert(before.reusable_count(c) == 0);
                }
            }
            if self.current < self.blocks.len() - 1 {
                self.current = self.current + 1;
                continue;
            }
            let ghost s1 = *self;
            let ghost mid = *blocks;
            self.add_new_block(blocks);
            proof {
                assert forall|c: BlockPointer|
                    #![trigger blocks.lines(c)]
                    b0.valid(c) implies {
                        &&& blocks.lines(c) == b0.lines(c)
                        &&& blocks.reusable_count(c) == b0.reusable_count(c)
                    } by {
                    assert(blocks.cursor(c) == mid.cursor(c));
                    assert(mid.lines(c) == b0.lines(c));
                }
                assert forall|c: BlockPointer|
                    #![trigger blocks.lines(c)]
                    blocks.valid(c) && !b0.valid(c) implies {
                        &&& blocks.lines(c) == empty_lines()
                        &&& blocks.reusable_count(c) == 0
                    } by {
                    if mid.valid(c) {
                        assert(blocks.cursor(c) == mid.cursor(c));
                        assert(mid.lines(c) == empty_lines());
                    }
                }
                assert(self.heap().subrange(0, s0.heap().len() as int) =~= s0.heap()) by {
                    assert(self.heap().drop_last() == s1.heap());
                    assert forall|k: int| 0 <= k < s0.heap().len() implies self.heap()[k] == s0.heap()[k] by {
                        assert(self.heap()[k] == self.heap().drop_last()[k]);
                        assert(s1.heap()[k] == s1.heap().subrange(0, s0.heap().len() as int)[k]);
                    }
                }
            }
        }
    }
}

/// An allocator for permanent objects: objects that are never released.
pub struct PermanentAllocator {
    allocator: BumpAllocator,
}

impl PermanentAllocator {
    /// The bump allocator that provides the memory.
    pub closed spec fn bump(&self) -> BumpAllocator {
        self.allocator
    }

    /// Returns a new permanent allocator with a single reserved block.
    pub fn new(blocks: &mut BlockAllocator) -> (r: Self)
        requires
            old(blocks).wf(),
            old(blocks).num_blocks() < MAX_BLOCKS,
            distinct_blocks(old(blocks).pool()),
        ensures
            final(blocks).wf(),
            final(blocks).num_blocks() <= old(blocks).num_blocks() + 1,
            r.allocator_wf(final(blocks)),
            r.bump().wf(final(blocks)),
            r.bump().heap().len() == 1,
            distinct_blocks(final(blocks).pool()),
            old(blocks).pool().len() == 0 ==> {
                let b = r.bump().current_block();
                &&& b.index == old(blocks).num_blocks()
                &&& final(blocks).cursor(b) == block_address(b.index as int) + FIRST_ALLOCATION_OFFSET
                &&& final(blocks).hole_end(b) == block_address(b.index as int) + BLOCK_SIZE
            },
    {
        let allocator = BumpAllocator::new(blocks);
        PermanentAllocator { allocator }
    }
}

impl Allocator for PermanentAllocator {
    closed spec fn allocator_wf(&self, blocks: &BlockAllocator) -> bool {
        self.allocator.allocator_wf(blocks)
    }

    /// Allocates as the bump allocator does, and marks the object as
    /// permanent.
    fn allocate(&mut self, blocks: &mut BlockAllocator, size: u64) -> (r: Pointer)
        ensures
            r@ == ((final(blocks).cursor(final(self).bump().current_block()) - size) as u64) | 4u64,
            bit_set(r@, PERMANENT_BIT),
            ({
                let c = old(self).bump().current_block();
                old(blocks).cursor(c) + size <= old(blocks).hole_end(c) ==> {
                    &&& r@ == old(blocks).cursor(c) | 4u64
                    &&& final(self).bump().current_block() == c
                    &&& final(blocks).cursor(c) == old(blocks).cursor(c) + size
                    &&& final(blocks).hole_end(c) == old(blocks).hole_end(c)
                }
            }),
    {
        let ptr = self.allocator.allocate(blocks, size);
        let r = ptr.as_permanent();
        proof {
            lemma_tag_bits(ptr@);
        }
        r
    }
}

/// What a recycling scan leaves: the heap, the positions of the current
/// block and of the next scan, the blocks released to the block allocator and
/// the blocks moved to the end of the heap.
pub struct ScanOutcome {
    pub heap: Seq<BlockPointer>,
    pub current: int,
    pub cursor: int,
    pub released: Seq<BlockPointer>,
    pub moved: Seq<BlockPointer>,
}

/// A recycling scan of at most `pending` blocks from position `cursor` of the
/// heap, stopping at the current block. A block without reusable lines is
/// skipped; a block whose usable lines are all reusable is released; any
/// other block is moved to the end of the heap. The reusable line counts are
/// those of `blocks`.
pub open spec fn scan(
    blocks: BlockAllocator,
    heap: Seq<BlockPointer>,
    current: int,
    cursor: int,
    pending: nat,
    released: Seq<BlockPointer>,
    moved: Seq<BlockPointer>,
) -> ScanOutcome
    decreases pending,
{
    if pending == 0 || cursor >= current || cursor < 0 {
        ScanOutcome { heap, current, cursor, released, moved }
    } else {
        let b = heap[cursor];
        let reusable = blocks.reusable_count(b);
        if reusable == 0 {
            scan(blocks, heap, current, cursor + 1, (pending - 1) as nat, released, moved)
        } else if reusable >= USABLE_LINES_PER_BLOCK {
            scan(blocks, heap.remove(cursor), current - 1, cursor, (pending - 1) as nat, released.push(b), moved)
        } else {
            scan(
                blocks,
                heap.remove(cursor).push(b),
                current - 1,
                cursor,
                (pending - 1) as nat,
                released,
                moved.push(b),
            )
        }
    }
}

/// Holds when no block of `a` occurs in `b`.
pub open spec fn disjoint_blocks(a: Seq<BlockPointer>, b: Seq<BlockPointer>) -> bool {
    forall|x: BlockPointer| a.contains(x) ==> !b.contains(x)
}

/// Removing an element from a sequence without duplicates keeps it without
/// duplicates, and leaves only elements of the sequence other than the
/// removed one.
proof fn lemma_remove_distinct(s: Seq<BlockPointer>, i: int)
    requires
        distinct_blocks(s),
        0 <= i < s.len(),
    ensures
        distinct_blocks(s.remove(i)),
        !s.remove(i).contains(s[i]),
        forall|x: BlockPointer| s.remove(i).contains(x) ==> s.contains(x),
        s.remove(i).len() == s.len() - 1,
        forall|k: int| 0 <= k < i ==> s.remove(i)[k] == s[k],
        forall|k: int| i <= k < s.len() - 1 ==> s.remove(i)[k] == s[k + 1],
{
    let r = s.remove(i);
    assert forall|k: int| 0 <= k < i implies r[k] == s[k] by {}
    assert forall|k: int| i <= k < s.len() - 1 implies r[k] == s[k + 1] by {}
    assert forall|x: BlockPointer| r.contains(x) implies s.contains(x) by {
        let k = choose|k: int| 0 <= k < r.len() && r[k] == x;
        if k < i {
            assert(s[k] == x);
        } else {
            assert(s[k + 1] == x);
        }
    }
    if r.contains(s[i]) {
        let k = choose|k: int| 0 <= k < r.len() && r[k] == s[i];
        if k < i {
            assert(s[k] == s[i]);
        } else {
            assert(s[k + 1] == s[i]);
        }
    }
    assert forall|a: int, b: int| 0 <= a < r.len() && 0 <= b < r.len() && a != b implies r[a] != r[b] by {
        let sa = if a < i { a } else { a + 1 };
        let sb = if b < i { b } else { b + 1 };
        assert(r[a] == s[sa]);
        assert(r[b] == s[sb]);
    }
}

/// The elements of a sequence after a push are its old elements and the
/// pushed one.
proof fn lemma_push_contains(s: Seq<BlockPointer>, x: BlockPointer)
    ensures
        forall|y: BlockPointer| s.push(x).contains(y) <==> (s.contains(y) || y == x),
{
    let r = s.push(x);
    assert forall|y: BlockPointer| r.contains(y) <==> (s.contains(y) || y == x) by {
        if r.contains(y) {
            let k = choose|k: int| 0 <= k < r.len() && r[k] == y;
            if k < s.len() {
                assert(s[k] == y);
            }
        }
        if s.contains(y) {
            let k = choose|k: int| 0 <= k < s.len() && s[k] == y;
            assert(r[k] == y);
        }
        if y == x {
            assert(r[s.len() as int] == y);
        }
    }
}

/// Pushing an element that does not occur keeps a sequence without
/// duplicates.
proof fn lemma_push_distinct(s: Seq<BlockPointer>, x: BlockPointer)
    requires
        distinct_blocks(s),
        !s.contains(x),
    ensures
        distinct_blocks(s.push(x)),
        forall|y: BlockPointer| s.push(x).contains(y) <==> (s.contains(y) || y == x),
{
    let r = s.push(x);
    assert forall|a: int, b: int| 0 <= a < r.len() && 0 <= b < r.len() && a != b implies r[a] != r[b] by {
        if a < s.len() && b < s.len() {
            assert(r[a] == s[a] && r[b] == s[b]);
        } else if a < s.len() {
            assert(r[a] == s[a]);
        } else if b < s.len() {
            assert(r[b] == s[b]);
        }
    }
    lemma_push_contains(s, x);
}

impl BumpAllocator {
    /// The blocks waiting to be released to the block allocator.
    pub closed spec fn released_blocks(&self) -> Seq<BlockPointer> {
        block_pointers(self.empty_blocks@)
    }

    /// Rewinds a block to its first hole and moves it to the end of the heap.
    pub fn recycle_block(&mut self, blocks: &mut BlockAllocator, block: Block)
        requires
            old(blocks).wf(),
            old(blocks).valid(block.pointer()),
        ensures
            final(self).heap() == old(self).heap().push(block.pointer()),
            final(self).current_position() == old(self).current_position(),
            final(self).cursor_position() == old(self).cursor_position(),
            final(self).released_blocks() == old(self).released_blocks(),
            final(blocks).wf(),
            final(blocks).same_except(old(blocks), block.pointer()),
            final(blocks).pool() == old(blocks).pool(),
            final(blocks).lines(block.pointer()) == old(blocks).lines(block.pointer()),
            final(blocks).reusable_count(block.pointer()) == old(blocks).reusable_count(block.pointer()),
            rewound(final(blocks), old(blocks), block.pointer()),
    {
        let ptr = block.as_ptr();
        ptr.find_first_hole(blocks);
        self.blocks.push(block);
        assert(self.heap() =~= old(self).heap().push(ptr));
    }

    /// Scans at most `config.recycle_blocks_per_scan` blocks of the heap,
    /// from the recycle cursor up to the current block, to recycle blocks
    /// with reusable lines. Every block whose usable lines are all reusable
    /// is reset and released to the block allocator; every other block with
    /// reusable lines has its count of reusable lines reset, is rewound to its
    /// first hole and is moved to the end of the heap.
    pub fn recycle_blocks(&mut self, blocks: &mut BlockAllocator, config: &Config)
        requires
            old(self).wf(old(blocks)),
            old(blocks).wf(),
            distinct_blocks(old(blocks).pool()),
        ensures
            final(self).wf(final(blocks)),
            final(blocks).wf(),
            distinct_blocks(final(blocks).pool()),
            final(blocks).num_blocks() == old(blocks).num_blocks(),
            ({
                let outcome = scan(
                    *old(blocks),
                    old(self).heap(),
                    old(self).current_position(),
                    old(self).cursor_position(),
                    config.recycle_blocks_per_scan as nat,
                    Seq::empty(),
                    Seq::empty(),
                );
                &&& final(self).heap() == outcome.heap
                &&& final(self).current_position() == outcome.current
                &&& final(self).cursor_position() == outcome.cursor
                &&& final(blocks).pool() == old(blocks).pool() + outcome.released
                &&& recycled(final(blocks), old(blocks), outcome.released, outcome.moved)
            }),
    {
        let ghost b0 = *blocks;
        let ghost s0 = *self;
        let ghost mut moved: Seq<BlockPointer> = Seq::empty();
        let mut pending: usize = config.recycle_blocks_per_scan;
        proof {
            assert(self.released_blocks() =~= Seq::<BlockPointer>::empty());
            assert(self.heap().subrange(self.heap().len() as int, self.heap().len() as int) =~= moved);
            assert(recycled(blocks, &b0, self.released_blocks(), moved));
        }
        while pending > 0 && self.recycle_cursor < self.current
            invariant
                b0 == *old(blocks),
                s0 == *old(self),
                blocks.wf(),
                blocks.num_blocks() == b0.num_blocks(),
                blocks.pool() == b0.pool(),
                distinct_blocks(b0.pool()),
                self.current < self.blocks@.len(),
                self.recycle_cursor <= self.current,
                self.current + moved.len() < self.blocks@.len(),
                self.heap().subrange(self.heap().len() - moved.len(), self.heap().len() as int) == moved,
                distinct_blocks(self.heap()),
                distinct_blocks(self.released_blocks()),
                disjoint_blocks(self.heap(), self.released_blocks()),
                forall|k: int|
                    0 <= k < self.heap().len() ==> blocks.valid(#[trigger] self.heap()[k])
                        && !blocks.pool().contains(self.heap()[k]),
                forall|k: int|
                    0 <= k < self.released_blocks().len() ==> blocks.valid(#[trigger] self.released_blocks()[k])
                        && !blocks.pool().contains(self.released_blocks()[k]),
                scan(
                    b0,
                    self.heap(),
                    self.current as int,
                    self.recycle_cursor as int,
                    pending as nat,
                    self.released_blocks(),
                    moved,
                ) == scan(
                    b0,
                    s0.heap(),
                    s0.current_position(),
                    s0.cursor_position(),
                    config.recycle_blocks_per_scan as nat,
                    Seq::empty(),
                    Seq::empty(),
                ),
                recycled(blocks, &b0, self.released_blocks(), moved),
            decreases pending,
        {
            let ghost h = self.heap();
            let ghost released = self.released_blocks();
            let ghost before = *blocks;
            let ghost i = self.recycle_cursor as int;
            let block = self.blocks[self.recycle_cursor].as_ptr();
            proof {
                assert(block == h[i]);
                assert(blocks.valid(h[i]));
                assert(!moved.contains(block)) by {
                    if moved.contains(block) {
                        let k = choose|k: int| 0 <= k < moved.len() && moved[k] == block;
                        assert(h[h.len() - moved.len() + k] == moved[k]);
                    }
                }
                assert(h.contains(block));
                assert(!released.contains(block));
                lemma_recycled_untouched(&before, &b0, released, moved, block);
            }
            let reusable = block.reusable_lines(blocks);
            pending = pending - 1;
            if reusable == 0 {
                self.recycle_cursor = self.recycle_cursor + 1;
                proof {
                    assert(self.heap() == h);
                    assert(self.released_blocks() == released);
                }
            } else {
                let owned = self.blocks.remove(self.recycle_cursor);
                self.current = self.current - 1;
                proof {
                    lemma_remove_distinct(h, i);
                    assert(self.heap() =~= h.remove(i));
                    assert(owned.pointer() == block);
                }
                block.reset_reusable_lines(blocks);
                let ghost mid = *blocks;
                if reusable >= USABLE_LINES_PER_BLOCK {
                    block.reset(blocks);
                    self.empty_blocks.push(owned);
                    proof {
                        assert(self.released_blocks() =~= released.push(block));
                        lemma_push_distinct(released, block);
                        assert forall|x: BlockPointer| self.heap().contains(x) implies
                            !self.released_blocks().contains(x) by {
                            assert(h.contains(x));
                        }
                        assert(self.heap().subrange(self.heap().len() - moved.len(), self.heap().len() as int) =~= moved) by {
                            assert forall|k: int| 0 <= k < moved.len() implies
                                self.heap()[self.heap().len() - moved.len() + k] == moved[k] by {
                                assert(h[h.len() - moved.len() + k] == moved[k]);
                            }
                        }
                        lemma_recycled_release(blocks, &mid, &before, &b0, released, moved, block);
                    }
                } else {
                    self.recycle_block(blocks, owned);
                    proof {
                        let hr = h.remove(i);
                        lemma_push_distinct(hr, block);
                        assert(self.heap() == hr.push(block));
                        assert(self.released_blocks() == released);
                        assert forall|x: BlockPointer| self.heap().contains(x) implies
                            !self.released_blocks().contains(x) by {
                            if x != block {
                                assert(hr.contains(x));
                                assert(h.contains(x));
                            }
                        }
                        assert(self.heap().subrange(self.heap().len() - moved.len() - 1, self.heap().len() as int) =~= moved.push(block)) by {
                            assert forall|k: int| 0 <= k < moved.len() implies
                                self.heap()[self.heap().len() - moved.len() - 1 + k] == moved[k] by {
                                assert(h[h.len() - moved.len() + k] == moved[k]);
                            }
                        }
                        lemma_recycled_move(blocks, &mid, &before, &b0, released, moved, block);
                        moved = moved.push(block);
                    }
                }
            }
        }
        let ghost released = self.released_blocks();
        let ghost before = *blocks;
        proof {
            assert forall|k: int| 0 <= k < self.empty_blocks@.len() implies
                blocks.valid(#[trigger] self.empty_blocks@[k].pointer()) by {
                assert(released[k] == self.empty_blocks@[k].pointer());
            }
        }
        if self.empty_blocks.len() > 0 {
            blocks.add_blocks(&mut self.empty_blocks);
        }
        proof {
            assert(self.released_blocks() =~= Seq::<BlockPointer>::empty());
            assert(blocks.pool() =~= b0.pool() + released);
            let pool = blocks.pool();
            assert forall|k: int| 0 <= k < self.heap().len() implies
                !blocks.pool().contains(#[trigger] self.heap()[k]) by {
                let x = self.heap()[k];
                assert(self.heap().contains(x));
                assert(!released.contains(x));
                assert(!b0.pool().contains(x));
                if pool.contains(x) {
                    let j = choose|j: int| 0 <= j < pool.len() && pool[j] == x;
                    if j < b0.pool().len() {
                        assert(b0.pool()[j] == x);
                    } else {
                        assert(released[j - b0.pool().len()] == x);
                    }
                }
            }
            assert forall|a: int, b: int| 0 <= a < pool.len() && 0 <= b < pool.len() && a != b
                implies pool[a] != pool[b] by {
                let n = b0.pool().len();
                if a < n && b < n {
                    assert(pool[a] == b0.pool()[a] && pool[b] == b0.pool()[b]);
                } else if a < n {
                    assert(pool[a] == b0.pool()[a] && pool[b] == released[b - n]);
                    assert(!before.pool().contains(released[b - n]));
                } else if b < n {
                    assert(pool[b] == b0.pool()[b] && pool[a] == released[a - n]);
                    assert(!before.pool().contains(released[a - n]));
                } else {
                    assert(pool[a] == released[a - n] && pool[b] == released[b - n]);
                }
            }
            assert forall|c: BlockPointer|
                #![trigger before.cursor(c)]
                before.valid(c) implies {
                    &&& blocks.cursor(c) == before.cursor(c)
                    &&& blocks.hole_end(c) == before.hole_end(c)
                    &&& blocks.reusable_count(c) == before.reusable_count(c)
                    &&& blocks.lines(c) == before.lines(c)
                } by {
                assert(blocks.cursor(c) == before.cursor(c));
            }
            lemma_recycled_same_state(blocks, &before, &b0, released, moved);
            let outcome = scan(
                b0,
                s0.heap(),
                s0.current_position(),
                s0.cursor_position(),
                config.recycle_blocks_per_scan as nat,
                Seq::empty(),
                Seq::empty(),
            );
            assert(outcome.heap == self.heap());
            assert(outcome.current == self.current);
            assert(outcome.cursor == self.recycle_cursor);
            assert(outcome.released == released);
            assert(outcome.moved == moved);
        }
    }
}

/// The state of the blocks after a recycling scan, relative to the state
/// `before` the scan: line maps are unchanged; the `released` blocks are
/// reset; the `moved` blocks are rewound to their first hole; both have no
/// reusable lines; every other block is unchanged.
pub open spec fn recycled(
    after: &BlockAllocator,
    before: &BlockAllocator,
    released: Seq<BlockPointer>,
    moved: Seq<BlockPointer>,
) -> bool {
    &&& forall|c: BlockPointer|
        #![trigger after.lines(c)]
        before.valid(c) ==> after.lines(c) == before.lines(c)
    &&& forall|k: int|
        0 <= k < released.len() ==> untouched(after, #[trigger] released[k])
            && after.reusable_count(released[k]) == 0
    &&& forall|k: int|
        0 <= k < moved.len() ==> rewound(after, before, #[trigger] moved[k])
            && after.reusable_count(moved[k]) == 0
    &&& forall|c: BlockPointer|
        #![trigger after.cursor(c)]
        before.valid(c) && !released.contains(c) && !moved.contains(c) ==> {
            &&& after.cursor(c) == before.cursor(c)
            &&& after.hole_end(c) == before.hole_end(c)
            &&& after.reusable_count(c) == before.reusable_count(c)
        }
}

/// A block not yet touched by a scan has its state from before the scan.
proof fn lemma_recycled_untouched(
    blocks: &BlockAllocator,
    b0: &BlockAllocator,
    released: Seq<BlockPointer>,
    moved: Seq<BlockPointer>,
    b: BlockPointer,
)
    requires
        recycled(blocks, b0, released, moved),
        b0.valid(b),
        !released.contains(b),
        !moved.contains(b),
    ensures
        blocks.cursor(b) == b0.cursor(b),
        blocks.hole_end(b) == b0.hole_end(b),
        blocks.reusable_count(b) == b0.reusable_count(b),
        blocks.lines(b) == b0.lines(b),
{
    assert(blocks.cursor(b) == b0.cursor(b));
    assert(blocks.lines(b) == b0.lines(b));
}

/// Releasing an untouched block extends the released blocks of a scan.
proof fn lemma_recycled_release(
    after: &BlockAllocator,
    mid: &BlockAllocator,
    before: &BlockAllocator,
    b0: &BlockAllocator,
    released: Seq<BlockPointer>,
    moved: Seq<BlockPointer>,
    b: BlockPointer,
)
    requires
        recycled(before, b0, released, moved),
        before.num_blocks() == b0.num_blocks(),
        b0.valid(b),
        !released.contains(b),
        !moved.contains(b),
        mid.same_except(before, b),
        mid.lines(b) == before.lines(b),
        after.same_except(mid, b),
        after.lines(b) == mid.lines(b),
        untouched(after, b),
        after.reusable_count(b) == 0,
        forall|k: int| 0 <= k < released.len() ==> b0.valid(#[trigger] released[k]),
        forall|k: int| 0 <= k < moved.len() ==> b0.valid(#[trigger] moved[k]),
    ensures
        recycled(after, b0, released.push(b), moved),
{
    let r = released.push(b);
    lemma_push_contains(released, b);
    assert forall|c: BlockPointer|
        #![trigger after.lines(c)]
        b0.valid(c) implies after.lines(c) == b0.lines(c) by {
        if c != b {
            lemma_unchanged(after, mid, b, c);
            lemma_unchanged(mid, before, b, c);
        }
        assert(before.lines(c) == b0.lines(c));
    }
    assert forall|k: int| 0 <= k < r.len() implies untouched(after, #[trigger] r[k])
        && after.reusable_count(r[k]) == 0 by {
        if k < released.len() {
            assert(r[k] == released[k]);
            assert(released.contains(r[k]));
            lemma_unchanged(after, mid, b, r[k]);
            lemma_unchanged(mid, before, b, r[k]);
            assert(untouched(before, released[k]));
        }
    }
    assert forall|k: int| 0 <= k < moved.len() implies rewound(after, b0, #[trigger] moved[k])
        && after.reusable_count(moved[k]) == 0 by {
        assert(moved.contains(moved[k]));
        lemma_unchanged(after, mid, b, moved[k]);
        lemma_unchanged(mid, before, b, moved[k]);
        assert(rewound(before, b0, moved[k]));
    }
    assert forall|c: BlockPointer|
        #![trigger after.cursor(c)]
        b0.valid(c) && !r.contains(c) && !moved.contains(c) implies {
            &&& after.cursor(c) == b0.cursor(c)
            &&& after.hole_end(c) == b0.hole_end(c)
            &&& after.reusable_count(c) == b0.reusable_count(c)
        } by {
        lemma_unchanged(after, mid, b, c);
        lemma_unchanged(mid, before, b, c);
        assert(before.cursor(c) == b0.cursor(c));
    }
}

/// Moving an untouched block to the end of the heap extends the moved blocks
/// of a scan.
proof fn lemma_recycled_move(
    after: &BlockAllocator,
    mid: &BlockAllocator,
    before: &BlockAllocator,
    b0: &BlockAllocator,
    released: Seq<BlockPointer>,
    moved: Seq<BlockPointer>,
    b: BlockPointer,
)
    requires
        recycled(before, b0, released, moved),
        before.num_blocks() == b0.num_blocks(),
        b0.valid(b),
        !released.contains(b),
        !moved.contains(b),
        mid.same_except(before, b),
        mid.lines(b) == before.lines(b),
        mid.cursor(b) == before.cursor(b),
        mid.hole_end(b) == before.hole_end(b),
        mid.reusable_count(b) == 0,
        after.same_except(mid, b),
        after.lines(b) == mid.lines(b),
        after.reusable_count(b) == mid.reusable_count(b),
        rewound(after, mid, b),
        forall|k: int| 0 <= k < released.len() ==> b0.valid(#[trigger] released[k]),
        forall|k: int| 0 <= k < moved.len() ==> b0.valid(#[trigger] moved[k]),
    ensures
        recycled(after, b0, released, moved.push(b)),
{
    let m = moved.push(b);
    lemma_push_contains(moved, b);
    lemma_recycled_untouched(before, b0, released, moved, b);
    assert forall|c: BlockPointer|
        #![trigger after.lines(c)]
        b0.valid(c) implies after.lines(c) == b0.lines(c) by {
        if c != b {
            lemma_unchanged(after, mid, b, c);
            lemma_unchanged(mid, before, b, c);
        }
        assert(before.lines(c) == b0.lines(c));
    }
    assert forall|k: int| 0 <= k < released.len() implies untouched(after, #[trigger] released[k])
        && after.reusable_count(released[k]) == 0 by {
        assert(released.contains(released[k]));
        lemma_unchanged(after, mid, b, released[k]);
        lemma_unchanged(mid, before, b, released[k]);
        assert(untouched(before, released[k]));
    }
    assert forall|k: int| 0 <= k < m.len() implies rewound(after, b0, #[trigger] m[k])
        && after.reusable_count(m[k]) == 0 by {
        if k < moved.len() {
            assert(m[k] == moved[k]);
            assert(moved.contains(m[k]));
            lemma_unchanged(after, mid, b, m[k]);
            lemma_unchanged(mid, before, b, m[k]);
            assert(rewound(before, b0, moved[k]));
        } else {
            assert(m[k] == b);
        }
    }
    assert forall|c: BlockPointer|
        #![trigger after.cursor(c)]
        b0.valid(c) && !released.contains(c) && !m.contains(c) implies {
            &&& after.cursor(c) == b0.cursor(c)
            &&& after.hole_end(c) == b0.hole_end(c)
            &&& after.reusable_count(c) == b0.reusable_count(c)
        } by {
        lemma_unchanged(after, mid, b, c);
        lemma_unchanged(mid, before, b, c);
        assert(before.cursor(c) == b0.cursor(c));
    }
}

/// A change that keeps the state of every block keeps the outcome of a scan.
proof fn lemma_recycled_same_state(
    after: &BlockAllocator,
    before: &BlockAllocator,
    b0: &BlockAllocator,
    released: Seq<BlockPointer>,
    moved: Seq<BlockPointer>,
)
    requires
        recycled(before, b0, released, moved),
        before.num_blocks() == b0.num_blocks(),
        after.num_blocks() == before.num_blocks(),
        forall|c: BlockPointer|
            #![trigger before.cursor(c)]
            before.valid(c) ==> {
                &&& after.cursor(c) == before.cursor(c)
                &&& after.hole_end(c) == before.hole_end(c)
                &&& after.reusable_count(c) == before.reusable_count(c)
                &&& after.lines(c) == before.lines(c)
            },
        forall|k: int| 0 <= k < released.len() ==> b0.valid(#[trigger] released[k]),
        forall|k: int| 0 <= k < moved.len() ==> b0.valid(#[trigger] moved[k]),
    ensures
        recycled(after, b0, released, moved),
{
    assert forall|c: BlockPointer|
        #![trigger after.lines(c)]
        b0.valid(c) implies after.lines(c) == b0.lines(c) by {
        assert(after.cursor(c) == before.cursor(c));
        assert(before.lines(c) == b0.lines(c));
    }
    assert forall|k: int| 0 <= k < released.len() implies untouched(after, #[trigger] released[k])
        && after.reusable_count(released[k]) == 0 by {
        assert(after.cursor(released[k]) == before.cursor(released[k]));
        assert(untouched(before, released[k]));
    }
    assert forall|k: int| 0 <= k < moved.len() implies rewound(after, b0, #[trigger] moved[k])
        && after.reusable_count(moved[k]) == 0 by {
        assert(after.cursor(moved[k]) == before.cursor(moved[k]));
        assert(rewound(before, b0, moved[k]));
    }
    assert forall|c: BlockPointer|
        #![trigger after.cursor(c)]
        b0.valid(c) && !released.contains(c) && !moved.contains(c) implies {
            &&& after.cursor(c) == b0.cursor(c)
            &&& after.hole_end(c) == b0.hole_end(c)
            &&& after.reusable_count(c) == b0.reusable_count(c)
        } by {
        assert(after.cursor(c) == before.cursor(c));
        assert(before.cursor(c) == b0.cursor(c));
    }
}

} // verus!
