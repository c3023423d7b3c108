//! VM functions for working with arrays.
use vstd::prelude::*;
use crate::mem::allocator::{Allocator, BlockAllocator, Pointer};
use crate::mem::generator::Generator;
use crate::mem::objects::{Array, ClassPointer, Int};
use crate::vm::instructions::integer::{allocated_int, can_allocate};

verus! {

/// Returns a new array object of class `array_class` holding the values of
/// `amount` registers of the generator's current context, from register
/// `start_reg` on.
pub fn allocate<A: Allocator>(
    allocator: &mut A,
    blocks: &mut BlockAllocator,
    array_class: ClassPointer,
    generator: &Generator<'_>,
    start_reg: u16,
    amount: u16,
) -> (r: (Pointer, Array))
    requires
        can_allocate(*old(allocator), *old(blocks)),
        start_reg + amount <= generator.context_view().registers_view().len(),
    ensures
        final(allocator).allocator_wf(final(blocks)),
        final(blocks).wf(),
        r.1.values() == generator.context_view().registers_view().subrange(
            start_reg as int,
            start_reg + amount,
        ),
        r.1.class_of() == array_class,
{
    let registers = generator.context().get_registers(start_reg, amount);
    let mut values: Vec<Pointer> = Vec::new();
    let mut i: usize = 0;
    while i < registers.len()
        invariant
            i <= registers@.len(),
            values@ == registers@.subrange(0, i as int),
        decreases registers@.len() - i,
    {
        values.push(registers[i]);
        i = i + 1;
    }
    proof {
        assert(values@ =~= registers@);
    }
    Array::allocate(allocator, blocks, array_class, values)
}

/// Returns the number of values in an array, as an integer object.
pub fn length<A: Allocator>(
    allocator: &mut A,
    blocks: &mut BlockAllocator,
    int_class: ClassPointer,
    array: &Array,
) -> (r: (Pointer, Option<Int>))
    requires
        can_allocate(*old(allocator), *old(blocks)),
    ensures
        allocated_int(
            *old(allocator),
            *old(blocks),
            *final(allocator),
            *final(blocks),
            int_class,
            array.values().len() as i64,
            r,
        ),
{
    let count = array.value().len();
    Int::allocate(allocator, blocks, int_class, count as i64)
}

} // verus!
