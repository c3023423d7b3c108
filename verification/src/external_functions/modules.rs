//! Functions for working with modules.
use vstd::prelude::*;
use crate::mem::allocator::{Allocator, BlockAllocator, Pointer};
use crate::mem::objects::{Module, String as InkoString};
use crate::mem::permanent_space::PermanentSpace;
use crate::vm::instructions::integer::can_allocate;

verus! {

/// Returns the name of a module as a new string object.
pub fn module_name<A: Allocator>(
    allocator: &mut A,
    blocks: &mut BlockAllocator,
    space: &PermanentSpace,
    module: &Module,
) -> (r: (Pointer, InkoString))
    requires
        can_allocate(*old(allocator), *old(blocks)),
        module.wf(),
    ensures
        final(allocator).allocator_wf(final(blocks)),
        final(blocks).wf(),
        r.1.chars() == module.classes_view()[0].class_view().name_view(),
        r.1.class_of() == space.string_class.pointer_view(),
{
    let name = module.name().clone();
    InkoString::allocate(allocator, blocks, space.string_class(), name)
}

/// Returns the path of the source file of a module as a new string object.
pub fn module_source_path<A: Allocator>(
    allocator: &mut A,
    blocks: &mut BlockAllocator,
    space: &PermanentSpace,
    module: &Module,
) -> (r: (Pointer, InkoString))
    requires
        can_allocate(*old(allocator), *old(blocks)),
    ensures
        final(allocator).allocator_wf(final(blocks)),
        final(blocks).wf(),
        r.1.chars() == module.path_view(),
        r.1.class_of() == space.string_class.pointer_view(),
{
    let path = module.source_path().clone();
    InkoString::allocate(allocator, blocks, space.string_class(), path)
}

} // verus!
