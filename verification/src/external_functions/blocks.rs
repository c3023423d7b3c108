//! Functions for working with blocks, such as methods and closures.
use vstd::prelude::*;
use crate::external_functions::object::{allocate_string_array, string_array};
use crate::mem::allocator::{
    Allocator,
    BlockAllocator,
    Pointer,
    MAX_BLOCKS,
    tagged_unsigned_int_address,
};
use crate::mem::objects::{Array, Method, String as InkoString};
use crate::mem::permanent_space::PermanentSpace;
use crate::vm::instructions::integer::can_allocate;

verus! {

/// Returns the name of a method as a new string object.
pub fn method_name<A: Allocator>(
    allocator: &mut A,
    blocks: &mut BlockAllocator,
    space: &PermanentSpace,
    method: &Method,
) -> (r: (Pointer, InkoString))
    requires
        can_allocate(*old(allocator), *old(blocks)),
    ensures
        final(allocator).allocator_wf(final(blocks)),
        final(blocks).wf(),
        r.1.chars() == method.name@,
        r.1.class_of() == space.string_class.pointer_view(),
{
    InkoString::allocate(allocator, blocks, space.string_class(), method.name.clone())
}

/// Returns the path of the file that defines a method as a new string
/// object.
pub fn method_file<A: Allocator>(
    allocator: &mut A,
    blocks: &mut BlockAllocator,
    space: &PermanentSpace,
    method: &Method,
) -> (r: (Pointer, InkoString))
    requires
        can_allocate(*old(allocator), *old(blocks)),
    ensures
        final(allocator).allocator_wf(final(blocks)),
        final(blocks).wf(),
        r.1.chars() == method.file@,
        r.1.class_of() == space.string_class.pointer_view(),
{
    InkoString::allocate(allocator, blocks, space.string_class(), method.file.clone())
}

/// Returns the line a method is defined on, as a tagged unsigned integer.
pub fn method_line(method: &Method) -> (r: Pointer)
    ensures
        r@ == tagged_unsigned_int_address(method.line as u64),
{
    Pointer::unsigned_int(method.line as u64)
}

/// Returns the names of the arguments of a method, as a new array object
/// that holds a new string object for each name, in order.
pub fn method_arguments<A: Allocator>(
    allocator: &mut A,
    blocks: &mut BlockAllocator,
    space: &PermanentSpace,
    method: &Method,
) -> (r: (Pointer, Array, Vec<InkoString>))
    requires
        old(allocator).allocator_wf(old(blocks)),
        old(blocks).wf(),
        old(blocks).num_blocks() + method.arguments@.len() < MAX_BLOCKS,
    ensures
        final(allocator).allocator_wf(final(blocks)),
        final(blocks).wf(),
        string_array(space, method.arguments@, r),
{
    allocate_string_array(allocator, blocks, space, &method.arguments)
}

} // verus!
