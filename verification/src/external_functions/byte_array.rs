//! Functions for working with byte arrays.
use vstd::prelude::*;
use crate::mem::allocator::Pointer;
use crate::mem::objects::ByteArray;
use crate::mem::permanent_space::PermanentSpace;

verus! {

/// Removes all bytes from a byte array, returning nil.
pub fn byte_array_clear(space: &PermanentSpace, bytes: &mut ByteArray) -> (r: Pointer)
    ensures
        r == space.nil_singleton,
        final(bytes).bytes() == Seq::<u8>::empty(),
        final(bytes).class_of() == old(bytes).class_of(),
{
    bytes.value_mut().clear();
    space.nil_singleton
}

} // verus!
