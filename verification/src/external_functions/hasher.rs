//! Functions for hashing objects.
use vstd::prelude::*;
use crate::hasher::Hasher;
use crate::mem::allocator::{Allocator, BlockAllocator, Pointer};
use crate::mem::objects::{
    Int,
    String as InkoString,
    UnsignedInt,
    unsigned_int_value,
};
use crate::mem::permanent_space::PermanentSpace;
use crate::vm::instructions::integer::can_allocate;

verus! {

/// Returns a new hasher keyed with the two unsigned integers `key0` and
/// `key1` (each with its boxed value, if any).
pub fn hasher_new(
    key0: Pointer,
    key0_boxed: &Option<UnsignedInt>,
    key1: Pointer,
    key1_boxed: &Option<UnsignedInt>,
) -> (r: Hasher)
    ensures
        r.keys() == (unsigned_int_value(key0, *key0_boxed), unsigned_int_value(key1, *key1_boxed)),
{
    Hasher::new(UnsignedInt::read(key0, key0_boxed), UnsignedInt::read(key1, key1_boxed))
}

/// Feeds the identity of an object, its untagged address, to a hasher,
/// returning nil.
pub fn hasher_write_object(space: &PermanentSpace, hasher: &mut Hasher, value: Pointer) -> (r: Pointer)
    ensures
        r == space.nil_singleton,
        final(hasher).keys() == old(hasher).keys(),
{
    hasher.write_unsigned_int(value.untagged_ptr());
    space.nil_singleton
}

/// Feeds a signed integer (with its boxed value, if any) to a hasher,
/// returning nil.
pub fn hasher_write_int(
    space: &PermanentSpace,
    hasher: &mut Hasher,
    value: Pointer,
    boxed: &Option<Int>,
) -> (r: Pointer)
    ensures
        r == space.nil_singleton,
        final(hasher).keys() == old(hasher).keys(),
{
    hasher.write_int(Int::read(value, boxed));
    space.nil_singleton
}

/// Feeds an unsigned integer (with its boxed value, if any) to a hasher,
/// returning nil.
pub fn hasher_write_unsigned_int(
    space: &PermanentSpace,
    hasher: &mut Hasher,
    value: Pointer,
    boxed: &Option<UnsignedInt>,
) -> (r: Pointer)
    ensures
        r == space.nil_singleton,
        final(hasher).keys() == old(hasher).keys(),
{
    hasher.write_unsigned_int(UnsignedInt::read(value, boxed));
    space.nil_singleton
}

/// Feeds the characters of a string to a hasher, returning nil.
pub fn hasher_write_string(space: &PermanentSpace, hasher: &mut Hasher, value: &InkoString) -> (r: Pointer)
    ensures
        r == space.nil_singleton,
        final(hasher).keys() == old(hasher).keys(),
{
    hasher.write_string(value.value().as_str());
    space.nil_singleton
}

/// Returns the hash of what was fed to a hasher as a new unsigned integer
/// object of the unsigned integer class; the hasher starts over.
pub fn hasher_to_hash<A: Allocator>(
    allocator: &mut A,
    blocks: &mut BlockAllocator,
    space: &PermanentSpace,
    hasher: &mut Hasher,
) -> (r: (u64, (Pointer, Option<UnsignedInt>)))
    requires
        can_allocate(*old(allocator), *old(blocks)),
    ensures
        final(hasher).keys() == old(hasher).keys(),
        crate::vm::instructions::integer::allocated_unsigned_int(
            *old(allocator),
            *old(blocks),
            *final(allocator),
            *final(blocks),
            space.unsigned_int_class.pointer_view(),
            r.0,
            r.1,
        ),
{
    let hash = hasher.finish();
    (hash, UnsignedInt::allocate(allocator, blocks, space.unsigned_int_class(), hash))
}

} // verus!
