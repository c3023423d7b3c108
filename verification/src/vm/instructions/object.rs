//! VM functions for working with objects.
use vstd::prelude::*;
use crate::execution_context::ExecutionContext;
use crate::indexes::{FieldIndex, MethodIndex};
use crate::mem::allocator::{Pointer, INTEGER_BIT, UNSIGNED_INTEGER_BIT, bit_set};
use crate::mem::generator::Generator;
use crate::mem::objects::{Class, Header, Method, Object};
use crate::mem::permanent_space::PermanentSpace;
use crate::numeric::u32_from_u16_pair;

verus! {

/// Returns a field of an object. Only the lowest eight bits of `index`
/// count, as objects have at most 256 fields.
pub fn get_field(receiver: &Object, index: u16) -> (r: Pointer)
    requires
        (index as u8) < receiver.fields_view().len(),
    ensures
        r == receiver.fields_view()[(index as u8) as int],
{
    receiver.get(FieldIndex::new(index as u8))
}

/// Sets a field of an object. Only the lowest eight bits of `index` count,
/// as objects have at most 256 fields.
pub fn set_field(receiver: &mut Object, index: u16, value: Pointer)
    requires
        (index as u8) < old(receiver).fields_view().len(),
    ensures
        final(receiver).fields_view() == old(receiver).fields_view().update((index as u8) as int, value),
        final(receiver).class_of() == old(receiver).class_of(),
{
    receiver.set(FieldIndex::new(index as u8), value);
}

/// Returns the class of the object `pointer` points to, whose header is
/// `header`, as a pointer.
pub fn get_class(space: &PermanentSpace, pointer: Pointer, header: &Header) -> (r: Pointer)
    ensures
        r@ == (if bit_set(pointer@, INTEGER_BIT) && !bit_set(pointer@, UNSIGNED_INTEGER_BIT) {
            space.int_class.pointer_view()@
        } else if bit_set(pointer@, INTEGER_BIT) && bit_set(pointer@, UNSIGNED_INTEGER_BIT) {
            space.unsigned_int_class.pointer_view()@
        } else {
            header.class@
        }),
{
    Class::of(space, pointer, header).as_pointer()
}

/// Returns the true singleton if the two pointers are the same, else the
/// false singleton.
pub fn equals(space: &PermanentSpace, compare: Pointer, compare_with: Pointer) -> (r: Pointer)
    ensures
        r == (if compare == compare_with {
            space.true_singleton
        } else {
            space.false_singleton
        }),
{
    if compare == compare_with {
        space.true_singleton
    } else {
        space.false_singleton
    }
}

/// Holds when the running context of `generator` runs `method` from its
/// start, on top of the context `caller`, with the arguments
/// `arguments` in its first registers.
pub open spec fn called<'a>(
    generator: Generator<'a>,
    caller: ExecutionContext<'a>,
    method: Method,
    arguments: Seq<Pointer>,
) -> bool {
    let context = generator.context_view();
    &&& *context.method == method
    &&& context.index == 0
    &&& context.parent == Some(Box::new(caller))
    &&& context.registers_view().len() == method.registers
    &&& context.registers_view().subrange(0, arguments.len() as int) == arguments
}

/// Calls the method in slot `method_index` of `class`, the class of the
/// receiver: a new context runs the method on top of the running context,
/// with the `num_args` arguments from the registers starting at `start_reg`.
pub fn static_call<'a>(
    class: &'a Class,
    generator: &mut Generator<'a>,
    method_index: u16,
    start_reg: u16,
    num_args: u16,
)
    requires
        class.wf(),
        method_index < class.slots(),
        class.slot(method_index as int) is Some,
        start_reg + num_args <= old(generator).context_view().registers_view().len(),
        num_args <= class.slot(method_index as int)->0.registers,
    ensures
        called(
            *final(generator),
            old(generator).context_view(),
            class.slot(method_index as int)->0,
            old(generator).context_view().registers_view().subrange(
                start_reg as int,
                start_reg + num_args,
            ),
        ),
        final(generator).status_view() == old(generator).status_view(),
        final(generator).result_view() == old(generator).result_view(),
        final(generator).parent_view() == old(generator).parent_view(),
{
    let method = match class.get_method(MethodIndex::new(method_index)) {
        Some(method) => method,
        None => {
            assert(false);
            return;
        },
    };
    let mut new_context = ExecutionContext::for_method(method);
    new_context.set_registers(generator.context().get_registers(start_reg, num_args));
    generator.push_context(new_context);
}

/// Calls the method of `class`, the class of the receiver, whose hash is
/// made of `hash1` (the high 16 bits) and `hash2` (the low 16 bits): a new
/// context runs the method on top of the running context, with the
/// `num_args` arguments from the registers starting at `start_reg`.
pub fn dynamic_call<'a>(
    class: &'a Class,
    generator: &mut Generator<'a>,
    hash1: u16,
    hash2: u16,
    start_reg: u16,
    num_args: u16,
)
    requires
        class.wf(),
        crate::mem::objects::power_of_two(class.slots()),
        exists|i: int|
            0 <= i < class.slots() && #[trigger] class.slot(i) is Some && class.slot(i)->0.hash
                == hash1 as int * 65536 + hash2 as int,
        start_reg + num_args <= old(generator).context_view().registers_view().len(),
        forall|i: int|
            0 <= i < class.slots() && #[trigger] class.slot(i) is Some ==> num_args <= class.slot(
                i,
            )->0.registers,
    ensures
        class.found_by_hash(
            (hash1 as int * 65536 + hash2 as int) as u32,
            *final(generator).context_view().method,
        ),
        called(
            *final(generator),
            old(generator).context_view(),
            *final(generator).context_view().method,
            old(generator).context_view().registers_view().subrange(
                start_reg as int,
                start_reg + num_args,
            ),
        ),
        final(generator).status_view() == old(generator).status_view(),
        final(generator).result_view() == old(generator).result_view(),
        final(generator).parent_view() == old(generator).parent_view(),
{
    let hash = u32_from_u16_pair(hash1, hash2);
    let method = class.get_hashed_method(hash);
    proof {
        let k = choose|k: int|
            0 <= k < class.slots() && #[trigger] class.hit(hash, k)
                && class.slot(class.probe_slot(hash, k)) == Some(*method)
                && forall|j: int| 0 <= j < k ==> !#[trigger] class.hit(hash, j);
        let slot = class.probe_slot(hash, k);
        assert(class.slot(slot) is Some);
    }
    let mut new_context = ExecutionContext::for_method(method);
    new_context.set_registers(generator.context().get_registers(start_reg, num_args));
    generator.push_context(new_context);
}

} // verus!
