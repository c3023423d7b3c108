//! Functions for working with objects.
use vstd::prelude::*;
use crate::mem::allocator::{Allocator, BlockAllocator, Pointer, MAX_BLOCKS};
use crate::mem::objects::{Array, Class, String as InkoString};
use crate::mem::permanent_space::PermanentSpace;

verus! {

/// Holds when `r` is a new array object of the array class of `space`
/// holding new string objects, one for each of `names` in order: the array's
/// pointer and record, and the records of the strings.
pub open spec fn string_array(
    space: &PermanentSpace,
    names: Seq<std::string::String>,
    r: (Pointer, Array, Vec<InkoString>),
) -> bool {
    &&& r.1.class_of() == space.array_class.pointer_view()
    &&& r.1.values().len() == names.len()
    &&& r.2@.len() == names.len()
    &&& forall|i: int|
        0 <= i < r.2@.len() ==> {
            &&& (#[trigger] r.2@[i]).chars() == names[i]@
            &&& r.2@[i].class_of() == space.string_class.pointer_view()
        }
}

/// Returns a new array object holding a new string object for each of
/// `names`, in order.
pub fn allocate_string_array<A: Allocator>(
    allocator: &mut A,
    blocks: &mut BlockAllocator,
    space: &PermanentSpace,
    names: &Vec<std::string::String>,
) -> (r: (Pointer, Array, Vec<InkoString>))
    requires
        old(allocator).allocator_wf(old(blocks)),
        old(blocks).wf(),
        old(blocks).num_blocks() + names@.len() < MAX_BLOCKS,
    ensures
        final(allocator).allocator_wf(final(blocks)),
        final(blocks).wf(),
        string_array(space, names@, r),
{
    let string_class = space.string_class();
    let mut pointers: Vec<Pointer> = Vec::new();
    let mut strings: Vec<InkoString> = Vec::new();
    let mut i: usize = 0;
    while i < names.len()
        invariant
            i <= names@.len(),
            string_class == space.string_class.pointer_view(),
            allocator.allocator_wf(blocks),
            blocks.wf(),
            blocks.num_blocks() <= old(blocks).num_blocks() + i,
            old(blocks).num_blocks() + names@.len() < MAX_BLOCKS,
            pointers@.len() == i,
            strings@.len() == i,
            forall|k: int|
                0 <= k < i ==> {
                    &&& (#[trigger] strings@[k]).chars() == names@[k]@
                    &&& strings@[k].class_of() == string_class
                },
        decreases names@.len() - i,
    {
        let name = names[i].clone();
        let (pointer, string) = InkoString::allocate(allocator, blocks, string_class, name);
        pointers.push(pointer);
        strings.push(string);
        i = i + 1;
    }
    let (array_pointer, array) = Array::allocate(allocator, blocks, space.array_class(), pointers);
    (array_pointer, array, strings)
}

/// Returns the names of the fields of a class, as a new array object that
/// holds a new string object for each name, in order. `class` is the class
/// of the object asked about (see `Class::of`).
pub fn object_attribute_names<A: Allocator>(
    allocator: &mut A,
    blocks: &mut BlockAllocator,
    space: &PermanentSpace,
    class: &Class,
) -> (r: (Pointer, Array, Vec<InkoString>))
    requires
        old(allocator).allocator_wf(old(blocks)),
        old(blocks).wf(),
        old(blocks).num_blocks() + class.field_names().len() < MAX_BLOCKS,
    ensures
        final(allocator).allocator_wf(final(blocks)),
        final(blocks).wf(),
        string_array(space, class.field_names(), r),
{
    allocate_string_array(allocator, blocks, space, class.fields())
}

} // verus!
