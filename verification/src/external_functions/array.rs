//! Functions for working with arrays.
use vstd::prelude::*;
use crate::mem::allocator::Pointer;
use crate::mem::objects::Array;
use crate::mem::permanent_space::PermanentSpace;

verus! {

/// Removes all values from an array, returning nil.
pub fn array_clear(space: &PermanentSpace, array: &mut Array) -> (r: Pointer)
    ensures
        r == space.nil_singleton,
        final(array).values() == Seq::<Pointer>::empty(),
        final(array).class_of() == old(array).class_of(),
{
    array.value_mut().clear();
    space.nil_singleton
}

} // verus!
