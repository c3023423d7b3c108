//! VM functions for working with Inko integers.
//!
//! An integer operand is a pointer together with the boxed integer it points
//! to, if any: small integers are stored in the pointer itself. Arithmetic
//! wraps around on overflow, the way two's complement integers do; integers
//! that are produced are allocated with `Int::allocate` or
//! `UnsignedInt::allocate`, and comparisons produce one of the two boolean
//! singletons.
use vstd::prelude::*;
use crate::mem::allocator::{
    Allocator,
    BlockAllocator,
    Pointer,
    MAX_BLOCKS,
    MAX_INTEGER,
    MAX_UNSIGNED_INTEGER,
    MIN_INTEGER,
};
use crate::mem::objects::{
    ClassPointer,
    Int,
    UnsignedInt,
    int_object,
    int_value,
    unsigned_int_object,
    unsigned_int_value,
};
use crate::numeric::{FlooredDiv, Modulo};
use crate::runtime_error::RuntimeError;

verus! {

/// The number of values of a 64-bits integer type.
pub open spec fn range_64() -> int {
    0x1_0000_0000_0000_0000
}

/// `x` wrapped around into the range of `i64`, as two's complement
/// arithmetic does.
pub open spec fn wrap_i64(x: int) -> i64 {
    let m = x % range_64();
    if m > i64::MAX {
        (m - range_64()) as i64
    } else {
        m as i64
    }
}

/// `x` wrapped around into the range of `u64`.
pub open spec fn wrap_u64(x: int) -> u64 {
    (x % range_64()) as u64
}

/// The number of bits a shift by an operand of `amount` moves: the amount
/// is truncated to 32 bits, of which the lowest six bits count.
pub open spec fn shift_bits(amount: int) -> u32 {
    ((amount as u32) % 64u32) as u32
}

/// Holds when an allocator and its blocks can allocate an integer object.
pub open spec fn can_allocate<A: Allocator>(allocator: A, blocks: BlockAllocator) -> bool {
    &&& allocator.allocator_wf(&blocks)
    &&& blocks.wf()
    &&& blocks.num_blocks() < MAX_BLOCKS
}

/// Holds when `r` is the signed integer object for `value`, allocated by an
/// allocator that went from `allocator` to `allocator2` (and its blocks from
/// `blocks` to `blocks2`). A tagged integer takes no memory, so the
/// allocator is left as it was.
pub open spec fn allocated_int<A: Allocator>(
    allocator: A,
    blocks: BlockAllocator,
    allocator2: A,
    blocks2: BlockAllocator,
    class: ClassPointer,
    value: i64,
    r: (Pointer, Option<Int>),
) -> bool {
    &&& allocator2.allocator_wf(&blocks2)
    &&& blocks2.wf()
    &&& int_object(r, class, value)
    &&& (MIN_INTEGER <= value <= MAX_INTEGER) ==> allocator2 == allocator && blocks2 == blocks
}

/// Holds when `r` is the unsigned integer object for `value`, allocated by
/// an allocator that went from `allocator` to `allocator2` (and its blocks
/// from `blocks` to `blocks2`). A tagged integer takes no memory, so the
/// allocator is left as it was.
pub open spec fn allocated_unsigned_int<A: Allocator>(
    allocator: A,
    blocks: BlockAllocator,
    allocator2: A,
    blocks2: BlockAllocator,
    class: ClassPointer,
    value: u64,
    r: (Pointer, Option<UnsignedInt>),
) -> bool {
    &&& allocator2.allocator_wf(&blocks2)
    &&& blocks2.wf()
    &&& unsigned_int_object(r, class, value)
    &&& value <= MAX_UNSIGNED_INTEGER ==> allocator2 == allocator && blocks2 == blocks
}

/// Wrapping `x` into `i64` subtracts or adds the range once when `x` lies
/// within one range of the valid values.
proof fn lemma_wrap_i64(x: int)
    requires
        -range_64() <= x < range_64(),
    ensures
        wrap_i64(x) == (if x > i64::MAX {
            x - range_64()
        } else if x < i64::MIN {
            x + range_64()
        } else {
            x
        }),
{
    if x >= 0 {
        vstd::arithmetic::div_mod::lemma_fundamental_div_mod_converse(x, range_64(), 0, x);
    } else {
        vstd::arithmetic::div_mod::lemma_fundamental_div_mod_converse(
            x,
            range_64(),
            -1,
            x + range_64(),
        );
    }
}

/// Wrapping `x` into `u64` adds or subtracts the range once when `x` lies
/// within one range of the valid values.
proof fn lemma_wrap_u64(x: int)
    requires
        -range_64() <= x < 2 * range_64(),
    ensures
        wrap_u64(x) == (if x < 0 {
            x + range_64()
        } else if x >= range_64() {
            x - range_64()
        } else {
            x
        }),
{
    if x >= range_64() {
        vstd::arithmetic::div_mod::lemma_fundamental_div_mod_converse(
            x,
            range_64(),
            1,
            x - range_64(),
        );
    } else if x >= 0 {
        vstd::arithmetic::div_mod::lemma_fundamental_div_mod_converse(x, range_64(), 0, x);
    } else {
        vstd::arithmetic::div_mod::lemma_fundamental_div_mod_converse(
            x,
            range_64(),
            -1,
            x + range_64(),
        );
    }
}

/// Adds two signed integers, wrapping around on overflow.
pub fn int_add<A: Allocator>(
    allocator: &mut A,
    blocks: &mut BlockAllocator,
    class: ClassPointer,
    left: Pointer,
    left_int: &Option<Int>,
    right: Pointer,
    right_int: &Option<Int>,
) -> (r: (Pointer, Option<Int>))
    requires
        can_allocate(*old(allocator), *old(blocks)),
    ensures
        allocated_int(
            *old(allocator),
            *old(blocks),
            *final(allocator),
            *final(blocks),
            class,
            wrap_i64(int_value(left, *left_int) + int_value(right, *right_int)),
            r,
        ),
{
    let a = Int::read(left, left_int);
    let b = Int::read(right, right_int);
    proof {
        lemma_wrap_i64(a + b);
    }
    Int::allocate(allocator, blocks, class, a.wrapping_add(b))
}

/// Divides two signed integers, rounding towards negative infinity. Fails
/// when dividing by zero.
pub fn int_div<A: Allocator>(
    allocator: &mut A,
    blocks: &mut BlockAllocator,
    class: ClassPointer,
    left: Pointer,
    left_int: &Option<Int>,
    right: Pointer,
    right_int: &Option<Int>,
) -> (r: Result<(Pointer, Option<Int>), RuntimeError>)
    requires
        can_allocate(*old(allocator), *old(blocks)),
        !(int_value(left, *left_int) == i64::MIN && int_value(right, *right_int) == -1),
    ensures
        int_value(right, *right_int) == 0 ==> {
            &&& r matches Err(RuntimeError::Panic(message))
            &&& message@ == "Integer types can't be divided by zero"@
            &&& *final(allocator) == *old(allocator)
            &&& *final(blocks) == *old(blocks)
        },
        int_value(right, *right_int) != 0 ==> (r matches Ok(v) && allocated_int(
            *old(allocator),
            *old(blocks),
            *final(allocator),
            *final(blocks),
            class,
            int_value(left, *left_int).floored_division_spec(int_value(right, *right_int)),
            v,
        )),
{
    let a = Int::read(left, left_int);
    let b = Int::read(right, right_int);
    if b == 0 {
        return Err(RuntimeError::Panic("Integer types can't be divided by zero".to_owned()));
    }
    Ok(Int::allocate(allocator, blocks, class, a.floored_division(b)))
}

/// Multiplies two signed integers, wrapping around on overflow.
pub fn int_mul<A: Allocator>(
    allocator: &mut A,
    blocks: &mut BlockAllocator,
    class: ClassPointer,
    left: Pointer,
    left_int: &Option<Int>,
    right: Pointer,
    right_int: &Option<Int>,
) -> (r: (Pointer, Option<Int>))
    requires
        can_allocate(*old(allocator), *old(blocks)),
    ensures
        allocated_int(
            *old(allocator),
            *old(blocks),
            *final(allocator),
            *final(blocks),
            class,
            wrap_i64(int_value(left, *left_int) * int_value(right, *right_int)),
            r,
        ),
{
    let a = Int::read(left, left_int);
    let b = Int::read(right, right_int);
    Int::allocate(allocator, blocks, class, a.wrapping_mul(b))
}

/// Subtracts two signed integers, wrapping around on overflow.
pub fn int_sub<A: Allocator>(
    allocator: &mut A,
    blocks: &mut BlockAllocator,
    class: ClassPointer,
    left: Pointer,
    left_int: &Option<Int>,
    right: Pointer,
    right_int: &Option<Int>,
) -> (r: (Pointer, Option<Int>))
    requires
        can_allocate(*old(allocator), *old(blocks)),
    ensures
        allocated_int(
            *old(allocator),
            *old(blocks),
            *final(allocator),
            *final(blocks),
            class,
            wrap_i64(int_value(left, *left_int) - int_value(right, *right_int)),
            r,
        ),
{
    let a = Int::read(left, left_int);
    let b = Int::read(right, right_int);
    proof {
        lemma_wrap_i64(a - b);
    }
    Int::allocate(allocator, blocks, class, a.wrapping_sub(b))
}

/// Returns the modulo of two signed integers, which has the sign of the
/// right operand.
pub fn int_modulo<A: Allocator>(
    allocator: &mut A,
    blocks: &mut BlockAllocator,
    class: ClassPointer,
    left: Pointer,
    left_int: &Option<Int>,
    right: Pointer,
    right_int: &Option<Int>,
) -> (r: (Pointer, Option<Int>))
    requires
        can_allocate(*old(allocator), *old(blocks)),
        int_value(left, *left_int).modulo_defined(int_value(right, *right_int)),
    ensures
        allocated_int(
            *old(allocator),
            *old(blocks),
            *final(allocator),
            *final(blocks),
            class,
            int_value(left, *left_int).modulo_spec(int_value(right, *right_int)),
            r,
        ),
{
    let a = Int::read(left, left_int);
    let b = Int::read(right, right_int);
    Int::allocate(allocator, blocks, class, a.modulo(b))
}

/// Returns the bitwise AND of two signed integers.
pub fn int_and<A: Allocator>(
    allocator: &mut A,
    blocks: &mut BlockAllocator,
    class: ClassPointer,
    left: Pointer,
    left_int: &Option<Int>,
    right: Pointer,
    right_int: &Option<Int>,
) -> (r: (Pointer, Option<Int>))
    requires
        can_allocate(*old(allocator), *old(blocks)),
    ensures
        allocated_int(
            *old(allocator),
            *old(blocks),
            *final(allocator),
            *final(blocks),
            class,
            int_value(left, *left_int) & int_value(right, *right_int),
            r,
        ),
{
    let a = Int::read(left, left_int);
    let b = Int::read(right, right_int);
    Int::allocate(allocator, blocks, class, a & b)
}

/// Returns the bitwise OR of two signed integers.
pub fn int_or<A: Allocator>(
    allocator: &mut A,
    blocks: &mut BlockAllocator,
    class: ClassPointer,
    left: Pointer,
    left_int: &Option<Int>,
    right: Pointer,
    right_int: &Option<Int>,
) -> (r: (Pointer, Option<Int>))
    requires
        can_allocate(*old(allocator), *old(blocks)),
    ensures
        allocated_int(
            *old(allocator),
            *old(blocks),
            *final(allocator),
            *final(blocks),
            class,
            int_value(left, *left_int) | int_value(right, *right_int),
            r,
        ),
{
    let a = Int::read(left, left_int);
    let b = Int::read(right, right_int);
    Int::allocate(allocator, blocks, class, a | b)
}

/// Returns the bitwise XOR of two signed integers.
pub fn int_xor<A: Allocator>(
    allocator: &mut A,
    blocks: &mut BlockAllocator,
    class: ClassPointer,
    left: Pointer,
    left_int: &Option<Int>,
    right: Pointer,
    right_int: &Option<Int>,
) -> (r: (Pointer, Option<Int>))
    requires
        can_allocate(*old(allocator), *old(blocks)),
    ensures
        allocated_int(
            *old(allocator),
            *old(blocks),
            *final(allocator),
            *final(blocks),
            class,
            int_value(left, *left_int) ^ int_value(right, *right_int),
            r,
        ),
{
    let a = Int::read(left, left_int);
    let b = Int::read(right, right_int);
    Int::allocate(allocator, blocks, class, a ^ b)
}

/// Shifts a signed integer to the left. Only the lowest six bits of the
/// (truncated) shift amount count, so the shift never overflows.
pub fn int_shl<A: Allocator>(
    allocator: &mut A,
    blocks: &mut BlockAllocator,
    class: ClassPointer,
    left: Pointer,
    left_int: &Option<Int>,
    right: Pointer,
    right_int: &Option<Int>,
) -> (r: (Pointer, Option<Int>))
    requires
        can_allocate(*old(allocator), *old(blocks)),
    ensures
        allocated_int(
            *old(allocator),
            *old(blocks),
            *final(allocator),
            *final(blocks),
            class,
            int_value(left, *left_int) << shift_bits(int_value(right, *right_int) as int),
            r,
        ),
{
    let a = Int::read(left, left_int);
    let b = Int::read(right, right_int);
    Int::allocate(allocator, blocks, class, a.wrapping_shl(b as u32))
}

/// Shifts a signed integer to the right, keeping its sign. Only the lowest
/// six bits of the (truncated) shift amount count.
pub fn int_shr<A: Allocator>(
    allocator: &mut A,
    blocks: &mut BlockAllocator,
    class: ClassPointer,
    left: Pointer,
    left_int: &Option<Int>,
    right: Pointer,
    right_int: &Option<Int>,
) -> (r: (Pointer, Option<Int>))
    requires
        can_allocate(*old(allocator), *old(blocks)),
    ensures
        allocated_int(
            *old(allocator),
            *old(blocks),
            *final(allocator),
            *final(blocks),
            class,
            int_value(left, *left_int) >> shift_bits(int_value(right, *right_int) as int),
            r,
        ),
{
    let a = Int::read(left, left_int);
    let b = Int::read(right, right_int);
    Int::allocate(allocator, blocks, class, a.wrapping_shr(b as u32))
}

/// Returns the true singleton if the left integer is smaller than the right
/// one, else the false singleton.
pub fn int_smaller(
    true_singleton: Pointer,
    false_singleton: Pointer,
    left: Pointer,
    left_int: &Option<Int>,
    right: Pointer,
    right_int: &Option<Int>,
) -> (r: Pointer)
    ensures
        r == (if int_value(left, *left_int) < int_value(right, *right_int) {
            true_singleton
        } else {
            false_singleton
        }),
{
    if Int::read(left, left_int) < Int::read(right, right_int) {
        true_singleton
    } else {
        false_singleton
    }
}

/// Returns the true singleton if the left integer is greater than the right
/// one, else the false singleton.
pub fn int_greater(
    true_singleton: Pointer,
    false_singleton: Pointer,
    left: Pointer,
    left_int: &Option<Int>,
    right: Pointer,
    right_int: &Option<Int>,
) -> (r: Pointer)
    ensures
        r == (if int_value(left, *left_int) > int_value(right, *right_int) {
            true_singleton
        } else {
            false_singleton
        }),
{
    if Int::read(left, left_int) > Int::read(right, right_int) {
        true_singleton
    } else {
        false_singleton
    }
}

/// Returns the true singleton if two signed integers are equal, else the
/// false singleton.
pub fn int_equals(
    true_singleton: Pointer,
    false_singleton: Pointer,
    left: Pointer,
    left_int: &Option<Int>,
    right: Pointer,
    right_int: &Option<Int>,
) -> (r: Pointer)
    ensures
        r == (if int_value(left, *left_int) == int_value(right, *right_int) {
            true_singleton
        } else {
            false_singleton
        }),
{
    if Int::read(left, left_int) == Int::read(right, right_int) {
        true_singleton
    } else {
        false_singleton
    }
}

/// Returns the true singleton if the left integer is greater than or equal
/// to the right one, else the false singleton.
pub fn int_greater_or_equal(
    true_singleton: Pointer,
    false_singleton: Pointer,
    left: Pointer,
    left_int: &Option<Int>,
    right: Pointer,
    right_int: &Option<Int>,
) -> (r: Pointer)
    ensures
        r == (if int_value(left, *left_int) >= int_value(right, *right_int) {
            true_singleton
        } else {
            false_singleton
        }),
{
    if Int::read(left, left_int) >= Int::read(right, right_int) {
        true_singleton
    } else {
        false_singleton
    }
}

/// Returns the true singleton if the left integer is smaller than or equal
/// to the right one, else the false singleton.
pub fn int_smaller_or_equal(
    true_singleton: Pointer,
    false_singleton: Pointer,
    left: Pointer,
    left_int: &Option<Int>,
    right: Pointer,
    right_int: &Option<Int>,
) -> (r: Pointer)
    ensures
        r == (if int_value(left, *left_int) <= int_value(right, *right_int) {
            true_singleton
        } else {
            false_singleton
        }),
{
    if Int::read(left, left_int) <= Int::read(right, right_int) {
        true_singleton
    } else {
        false_singleton
    }
}

/// Adds two unsigned integers, wrapping around on overflow.
pub fn unsigned_int_add<A: Allocator>(
    allocator: &mut A,
    blocks: &mut BlockAllocator,
    class: ClassPointer,
    left: Pointer,
    left_int: &Option<UnsignedInt>,
    right: Pointer,
    right_int: &Option<UnsignedInt>,
) -> (r: (Pointer, Option<UnsignedInt>))
    requires
        can_allocate(*old(allocator), *old(blocks)),
    ensures
        allocated_unsigned_int(
            *old(allocator),
            *old(blocks),
            *final(allocator),
            *final(blocks),
            class,
            wrap_u64(unsigned_int_value(left, *left_int) + unsigned_int_value(right, *right_int)),
            r,
        ),
{
    let a = UnsignedInt::read(left, left_int);
    let b = UnsignedInt::read(right, right_int);
    proof {
        lemma_wrap_u64(a + b);
    }
    UnsignedInt::allocate(allocator, blocks, class, a.wrapping_add(b))
}

/// Divides two unsigned integers, rounding down. Fails when dividing by
/// zero.
pub fn unsigned_int_div<A: Allocator>(
    allocator: &mut A,
    blocks: &mut BlockAllocator,
    class: ClassPointer,
    left: Pointer,
    left_int: &Option<UnsignedInt>,
    right: Pointer,
    right_int: &Option<UnsignedInt>,
) -> (r: Result<(Pointer, Option<UnsignedInt>), RuntimeError>)
    requires
        can_allocate(*old(allocator), *old(blocks)),
    ensures
        unsigned_int_value(right, *right_int) == 0 ==> {
            &&& r matches Err(RuntimeError::Panic(message))
            &&& message@ == "Integer types can't be divided by zero"@
            &&& *final(allocator) == *old(allocator)
            &&& *final(blocks) == *old(blocks)
        },
        unsigned_int_value(right, *right_int) != 0 ==> (r matches Ok(v) && allocated_unsigned_int(
            *old(allocator),
            *old(blocks),
            *final(allocator),
            *final(blocks),
            class,
            unsigned_int_value(left, *left_int).floored_division_spec(unsigned_int_value(right, *right_int)),
            v,
        )),
{
    let a = UnsignedInt::read(left, left_int);
    let b = UnsignedInt::read(right, right_int);
    if b == 0 {
        return Err(RuntimeError::Panic("Integer types can't be divided by zero".to_owned()));
    }
    Ok(UnsignedInt::allocate(allocator, blocks, class, a.floored_division(b)))
}

/// Multiplies two unsigned integers, wrapping around on overflow.
pub fn unsigned_int_mul<A: Allocator>(
    allocator: &mut A,
    blocks: &mut BlockAllocator,
    class: ClassPointer,
    left: Pointer,
    left_int: &Option<UnsignedInt>,
    right: Pointer,
    right_int: &Option<UnsignedInt>,
) -> (r: (Pointer, Option<UnsignedInt>))
    requires
        can_allocate(*old(allocator), *old(blocks)),
    ensures
        allocated_unsigned_int(
            *old(allocator),
            *old(blocks),
            *final(allocator),
            *final(blocks),
            class,
            wrap_u64(unsigned_int_value(left, *left_int) * unsigned_int_value(right, *right_int)),
            r,
        ),
{
    let a = UnsignedInt::read(left, left_int);
    let b = UnsignedInt::read(right, right_int);
    UnsignedInt::allocate(allocator, blocks, class, a.wrapping_mul(b))
}

/// Subtracts two unsigned integers, wrapping around on overflow.
pub fn unsigned_int_sub<A: Allocator>(
    allocator: &mut A,
    blocks: &mut BlockAllocator,
    class: ClassPointer,
    left: Pointer,
    left_int: &Option<UnsignedInt>,
    right: Pointer,
    right_int: &Option<UnsignedInt>,
) -> (r: (Pointer, Option<UnsignedInt>))
    requires
        can_allocate(*old(allocator), *old(blocks)),
    ensures
        allocated_unsigned_int(
            *old(allocator),
            *old(blocks),
            *final(allocator),
            *final(blocks),
            class,
            wrap_u64(unsigned_int_value(left, *left_int) - unsigned_int_value(right, *right_int)),
            r,
        ),
{
    let a = UnsignedInt::read(left, left_int);
    let b = UnsignedInt::read(right, right_int);
    proof {
        lemma_wrap_u64(a - b);
    }
    UnsignedInt::allocate(allocator, blocks, class, a.wrapping_sub(b))
}

/// Returns the modulo of two unsigned integers.
pub fn unsigned_int_modulo<A: Allocator>(
    allocator: &mut A,
    blocks: &mut BlockAllocator,
    class: ClassPointer,
    left: Pointer,
    left_int: &Option<UnsignedInt>,
    right: Pointer,
    right_int: &Option<UnsignedInt>,
) -> (r: (Pointer, Option<UnsignedInt>))
    requires
        can_allocate(*old(allocator), *old(blocks)),
        unsigned_int_value(left, *left_int).modulo_defined(unsigned_int_value(right, *right_int)),
    ensures
        allocated_unsigned_int(
            *old(allocator),
            *old(blocks),
            *final(allocator),
            *final(blocks),
            class,
            unsigned_int_value(left, *left_int).modulo_spec(unsigned_int_value(right, *right_int)),
            r,
        ),
{
    let a = UnsignedInt::read(left, left_int);
    let b = UnsignedInt::read(right, right_int);
    UnsignedInt::allocate(allocator, blocks, class, a.modulo(b))
}

/// Returns the bitwise AND of two unsigned integers.
pub fn unsigned_int_and<A: Allocator>(
    allocator: &mut A,
    blocks: &mut BlockAllocator,
    class: ClassPointer,
    left: Pointer,
    left_int: &Option<UnsignedInt>,
    right: Pointer,
    right_int: &Option<UnsignedInt>,
) -> (r: (Pointer, Option<UnsignedInt>))
    requires
        can_allocate(*old(allocator), *old(blocks)),
    ensures
        allocated_unsigned_int(
            *old(allocator),
            *old(blocks),
            *final(allocator),
            *final(blocks),
            class,
            unsigned_int_value(left, *left_int) & unsigned_int_value(right, *right_int),
            r,
        ),
{
    let a = UnsignedInt::read(left, left_int);
    let b = UnsignedInt::read(right, right_int);
    UnsignedInt::allocate(allocator, blocks, class, a & b)
}

/// Returns the bitwise OR of two unsigned integers.
pub fn unsigned_int_or<A: Allocator>(
    allocator: &mut A,
    blocks: &mut BlockAllocator,
    class: ClassPointer,
    left: Pointer,
    left_int: &Option<UnsignedInt>,
    right: Pointer,
    right_int: &Option<UnsignedInt>,
) -> (r: (Pointer, Option<UnsignedInt>))
    requires
        can_allocate(*old(allocator), *old(blocks)),
    ensures
        allocated_unsigned_int(
            *old(allocator),
            *old(blocks),
            *final(allocator),
            *final(blocks),
            class,
            unsigned_int_value(left, *left_int) | unsigned_int_value(right, *right_int),
            r,
        ),
{
    let a = UnsignedInt::read(left, left_int);
    let b = UnsignedInt::read(right, right_int);
    UnsignedInt::allocate(allocator, blocks, class, a | b)
}

/// Returns the bitwise XOR of two unsigned integers.
pub fn unsigned_int_xor<A: Allocator>(
    allocator: &mut A,
    blocks: &mut BlockAllocator,
    class: ClassPointer,
    left: Pointer,
    left_int: &Option<UnsignedInt>,
    right: Pointer,
    right_int: &Option<UnsignedInt>,
) -> (r: (Pointer, Option<UnsignedInt>))
    requires
        can_allocate(*old(allocator), *old(blocks)),
    ensures
        allocated_unsigned_int(
            *old(allocator),
            *old(blocks),
            *final(allocator),
            *final(blocks),
            class,
            unsigned_int_value(left, *left_int) ^ unsigned_int_value(right, *right_int),
            r,
        ),
{
    let a = UnsignedInt::read(left, left_int);
    let b = UnsignedInt::read(right, right_int);
    UnsignedInt::allocate(allocator, blocks, class, a ^ b)
}

/// Shifts an unsigned integer to the left. Only the lowest six bits of the
/// (truncated) shift amount count, so the shift never overflows.
pub fn unsigned_int_shl<A: Allocator>(
    allocator: &mut A,
    blocks: &mut BlockAllocator,
    class: ClassPointer,
    left: Pointer,
    left_int: &Option<UnsignedInt>,
    right: Pointer,
    right_int: &Option<UnsignedInt>,
) -> (r: (Pointer, Option<UnsignedInt>))
    requires
        can_allocate(*old(allocator), *old(blocks)),
    ensures
        allocated_unsigned_int(
            *old(allocator),
            *old(blocks),
            *final(allocator),
            *final(blocks),
            class,
            unsigned_int_value(left, *left_int) << shift_bits(unsigned_int_value(right, *right_int) as int),
            r,
        ),
{
    let a = UnsignedInt::read(left, left_int);
    let b = UnsignedInt::read(right, right_int);
    UnsignedInt::allocate(allocator, blocks, class, a.wrapping_shl(b as u32))
}

/// Shifts an unsigned integer to the right. Only the lowest six bits of
/// the (truncated) shift amount count.
pub fn unsigned_int_shr<A: Allocator>(
    allocator: &mut A,
    blocks: &mut BlockAllocator,
    class: ClassPointer,
    left: Pointer,
    left_int: &Option<UnsignedInt>,
    right: Pointer,
    right_int: &Option<UnsignedInt>,
) -> (r: (Pointer, Option<UnsignedInt>))
    requires
        can_allocate(*old(allocator), *old(blocks)),
    ensures
        allocated_unsigned_int(
            *old(allocator),
            *old(blocks),
            *final(allocator),
            *final(blocks),
            class,
            unsigned_int_value(left, *left_int) >> shift_bits(unsigned_int_value(right, *right_int) as int),
            r,
        ),
{
    let a = UnsignedInt::read(left, left_int);
    let b = UnsignedInt::read(right, right_int);
    UnsignedInt::allocate(allocator, blocks, class, a.wrapping_shr(b as u32))
}

/// Returns the true singleton if the left unsigned integer is smaller than the
/// right one, else the false singleton.
pub fn unsigned_int_smaller(
    true_singleton: Pointer,
    false_singleton: Pointer,
    left: Pointer,
    left_int: &Option<UnsignedInt>,
    right: Pointer,
    right_int: &Option<UnsignedInt>,
) -> (r: Pointer)
    ensures
        r == (if unsigned_int_value(left, *left_int) < unsigned_int_value(right, *right_int) {
            true_singleton
        } else {
            false_singleton
        }),
{
    if UnsignedInt::read(left, left_int) < UnsignedInt::read(right, right_int) {
        true_singleton
    } else {
        false_singleton
    }
}

/// Returns the true singleton if the left unsigned integer is greater than the
/// right one, else the false singleton.
pub fn unsigned_int_greater(
    true_singleton: Pointer,
    false_singleton: Pointer,
    left: Pointer,
    left_int: &Option<UnsignedInt>,
    right: Pointer,
    right_int: &Option<UnsignedInt>,
) -> (r: Pointer)
    ensures
        r == (if unsigned_int_value(left, *left_int) > unsigned_int_value(right, *right_int) {
            true_singleton
        } else {
            false_singleton
        }),
{
    if UnsignedInt::read(left, left_int) > UnsignedInt::read(right, right_int) {
        true_singleton
    } else {
        false_singleton
    }
}

/// Returns the true singleton if two unsigned integers are equal, else the false singleton.
pub fn unsigned_int_equals(
    true_singleton: Pointer,
    false_singleton: Pointer,
    left: Pointer,
    left_int: &Option<UnsignedInt>,
    right: Pointer,
    right_int: &Option<UnsignedInt>,
) -> (r: Pointer)
    ensures
        r == (if unsigned_int_value(left, *left_int) == unsigned_int_value(right, *right_int) {
            true_singleton
        } else {
            false_singleton
        }),
{
    if UnsignedInt::read(left, left_int) == UnsignedInt::read(right, right_int) {
        true_singleton
    } else {
        false_singleton
    }
}

/// Returns the true singleton if the left unsigned integer is greater than or
/// equal to the right one, else the false singleton.
pub fn unsigned_int_greater_or_equal(
    true_singleton: Pointer,
    false_singleton: Pointer,
    left: Pointer,
    left_int: &Option<UnsignedInt>,
    right: Pointer,
    right_int: &Option<UnsignedInt>,
) -> (r: Pointer)
    ensures
        r == (if unsigned_int_value(left, *left_int) >= unsigned_int_value(right, *right_int) {
            true_singleton
        } else {
            false_singleton
        }),
{
    if UnsignedInt::read(left, left_int) >= UnsignedInt::read(right, right_int) {
        true_singleton
    } else {
        false_singleton
    }
}

/// Returns the true singleton if the left unsigned integer is smaller than or
/// equal to the right one, else the false singleton.
pub fn unsigned_int_smaller_or_equal(
    true_singleton: Pointer,
    false_singleton: Pointer,
    left: Pointer,
    left_int: &Option<UnsignedInt>,
    right: Pointer,
    right_int: &Option<UnsignedInt>,
) -> (r: Pointer)
    ensures
        r == (if unsigned_int_value(left, *left_int) <= unsigned_int_value(right, *right_int) {
            true_singleton
        } else {
            false_singleton
        }),
{
    if UnsignedInt::read(left, left_int) <= UnsignedInt::read(right, right_int) {
        true_singleton
    } else {
        false_singleton
    }
}

} // verus!
