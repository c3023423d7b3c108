//! VM functions for working with byte arrays.
use vstd::prelude::*;
use crate::mem::allocator::{Allocator, BlockAllocator, Pointer};
use crate::mem::generator::Generator;
use crate::mem::objects::{ByteArray, ClassPointer, UnsignedInt, unsigned_int_value};
use crate::mem::permanent_space::PermanentSpace;
use crate::vm::instructions::integer::{allocated_unsigned_int, can_allocate};

verus! {

/// Returns a new byte array object of class `byte_array_class` holding the
/// lowest byte of each of `amount` unsigned integers, read from the
/// registers of the generator's current context from register `start_reg`
/// on. `boxed` holds, for each of those registers in order, the boxed
/// integer its pointer points to, if any.
pub fn allocate<A: Allocator>(
    allocator: &mut A,
    blocks: &mut BlockAllocator,
    byte_array_class: ClassPointer,
    generator: &Generator<'_>,
    start_reg: u16,
    amount: u16,
    boxed: &[Option<UnsignedInt>],
) -> (r: (Pointer, ByteArray))
    requires
        can_allocate(*old(allocator), *old(blocks)),
        start_reg + amount <= generator.context_view().registers_view().len(),
        boxed@.len() == amount,
    ensures
        final(allocator).allocator_wf(final(blocks)),
        final(blocks).wf(),
        r.1.bytes().len() == amount,
        forall|i: int|
            0 <= i < amount ==> #[trigger] r.1.bytes()[i] == unsigned_int_value(
                generator.context_view().registers_view()[start_reg + i],
                boxed@[i],
            ) as u8,
        r.1.class_of() == byte_array_class,
{
    let registers = generator.context().get_registers(start_reg, amount);
    let mut values: Vec<u8> = Vec::new();
    let mut i: usize = 0;
    while i < registers.len()
        invariant
            i <= registers@.len(),
            registers@.len() == amount,
            boxed@.len() == amount,
            start_reg + amount <= generator.context_view().registers_view().len(),
            registers@ == generator.context_view().registers_view().subrange(
                start_reg as int,
                start_reg + amount,
            ),
            values@.len() == i,
            forall|k: int|
                0 <= k < i ==> #[trigger] values@[k] == unsigned_int_value(
                    generator.context_view().registers_view()[start_reg + k],
                    boxed@[k],
                ) as u8,
        decreases registers@.len() - i,
    {
        let value = UnsignedInt::read(registers[i], &boxed[i]);
        assert(registers@[i as int] == generator.context_view().registers_view()[start_reg + i]);
        values.push(#[verifier::truncate] (value as u8));
        i = i + 1;
    }
    ByteArray::allocate(allocator, blocks, byte_array_class, values)
}

/// Returns the number of bytes in a byte array, as an unsigned integer
/// object of class `int_class`.
pub fn length<A: Allocator>(
    allocator: &mut A,
    blocks: &mut BlockAllocator,
    int_class: ClassPointer,
    array: &ByteArray,
) -> (r: (Pointer, Option<UnsignedInt>))
    requires
        can_allocate(*old(allocator), *old(blocks)),
    ensures
        allocated_unsigned_int(
            *old(allocator),
            *old(blocks),
            *final(allocator),
            *final(blocks),
            int_class,
            array.bytes().len() as u64,
            r,
        ),
{
    let count = array.value().len();
    UnsignedInt::allocate(allocator, blocks, int_class, count as u64)
}

/// Returns the true singleton if two byte arrays hold the same bytes, else
/// the false singleton.
pub fn equals(space: &PermanentSpace, compare: &ByteArray, compare_with: &ByteArray) -> (r: Pointer)
    ensures
        r == (if compare.bytes() == compare_with.bytes() {
            space.true_singleton
        } else {
            space.false_singleton
        }),
{
    let left = compare.value();
    let right = compare_with.value();
    if left.len() != right.len() {
        return space.false_singleton;
    }
    let mut i: usize = 0;
    while i < left.len()
        invariant
            i <= left@.len(),
            left@.len() == right@.len(),
            left@ == compare.bytes(),
            right@ == compare_with.bytes(),
            forall|k: int| 0 <= k < i ==> left@[k] == right@[k],
        decreases left@.len() - i,
    {
        if left[i] != right[i] {
            return space.false_singleton;
        }
        i = i + 1;
    }
    proof {
        assert(left@ =~= right@);
    }
    space.true_singleton
}

} // verus!
