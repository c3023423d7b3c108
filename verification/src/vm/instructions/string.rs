//! VM functions for working with strings.
use vstd::prelude::*;
use vstd::string::StringExecFns;
use vstd::utf8::encode_utf8;
use crate::mem::allocator::{Allocator, BlockAllocator, Pointer, PERMANENT_BIT, bit_set};
use crate::mem::objects::{ClassPointer, Int, String as InkoString};
use crate::mem::permanent_space::PermanentSpace;
use crate::vm::instructions::integer::{allocated_int, can_allocate};

verus! {

/// Returns the true singleton if two strings are equal, else the false
/// singleton. `left` is the string `left_ptr` points to, and `right` the one
/// `right_ptr` points to.
///
/// Two permanent strings are interned, so they are equal only when they are
/// the same object; other strings are compared by their characters.
pub fn equals(
    space: &PermanentSpace,
    left_ptr: Pointer,
    left: &InkoString,
    right_ptr: Pointer,
    right: &InkoString,
) -> (r: Pointer)
    ensures
        r == (if bit_set(left_ptr@, PERMANENT_BIT) && bit_set(right_ptr@, PERMANENT_BIT) {
            if left_ptr == right_ptr {
                space.true_singleton
            } else {
                space.false_singleton
            }
        } else if left.chars() == right.chars() {
            space.true_singleton
        } else {
            space.false_singleton
        }),
{
    if left_ptr.is_permanent() && right_ptr.is_permanent() {
        if left_ptr == right_ptr {
            return space.true_singleton;
        } else {
            return space.false_singleton;
        }
    }
    if left.value().eq(right.value()) {
        space.true_singleton
    } else {
        space.false_singleton
    }
}

/// The characters of `parts`, one after the other.
pub open spec fn joined(parts: Seq<Seq<char>>) -> Seq<char>
    decreases parts.len(),
{
    if parts.len() == 0 {
        Seq::empty()
    } else {
        joined(parts.drop_last()) + parts.last()
    }
}

/// Returns the number of characters in a string, as an integer object.
///
/// A count beyond the range of `i64` is truncated, as a cast does.
pub fn length<A: Allocator>(
    allocator: &mut A,
    blocks: &mut BlockAllocator,
    int_class: ClassPointer,
    string: &InkoString,
) -> (r: (Pointer, Option<Int>))
    requires
        can_allocate(*old(allocator), *old(blocks)),
    ensures
        allocated_int(
            *old(allocator),
            *old(blocks),
            *final(allocator),
            *final(blocks),
            int_class,
            string.chars().len() as i64,
            r,
        ),
{
    let count = string.value().as_str().unicode_len();
    Int::allocate(allocator, blocks, int_class, count as i64)
}

/// Returns the number of bytes of a string in UTF-8, as an integer object.
///
/// The size is taken as a `usize` and then cast to `i64`, truncating a size
/// beyond the range of either type.
pub fn size<A: Allocator>(
    allocator: &mut A,
    blocks: &mut BlockAllocator,
    int_class: ClassPointer,
    string: &InkoString,
) -> (r: (Pointer, Option<Int>))
    requires
        can_allocate(*old(allocator), *old(blocks)),
    ensures
        allocated_int(
            *old(allocator),
            *old(blocks),
            *final(allocator),
            *final(blocks),
            int_class,
            (encode_utf8(string.chars()).len() as usize) as i64,
            r,
        ),
{
    let bytes = string.value().as_str().len();
    Int::allocate(allocator, blocks, int_class, bytes as i64)
}

/// Returns the characters of the strings of `parts`, one after the other.
pub(crate) fn join_strings(parts: &[&InkoString]) -> (r: std::string::String)
    ensures
        r@ == joined(parts@.map_values(|s: &InkoString| s.chars())),
{
    let ghost texts = parts@.map_values(|s: &InkoString| s.chars());
    let mut buffer = std::string::String::new();
    let mut i: usize = 0;
    while i < parts.len()
        invariant
            i <= parts@.len(),
            texts == parts@.map_values(|s: &InkoString| s.chars()),
            buffer@ == joined(texts.subrange(0, i as int)),
        decreases parts@.len() - i,
    {
        proof {
            assert(texts.subrange(0, i + 1).drop_last() =~= texts.subrange(0, i as int));
        }
        buffer.append(parts[i].value().as_str());
        i = i + 1;
    }
    proof {
        assert(texts.subrange(0, i as int) =~= texts);
    }
    buffer
}

/// Concatenates the strings held by a range of registers into a new string
/// object of class `string_class`. `parts` are the strings the registers
/// point to, in register order.
pub fn concat<A: Allocator>(
    allocator: &mut A,
    blocks: &mut BlockAllocator,
    string_class: ClassPointer,
    parts: &[&InkoString],
) -> (r: (Pointer, InkoString))
    requires
        can_allocate(*old(allocator), *old(blocks)),
    ensures
        final(allocator).allocator_wf(final(blocks)),
        final(blocks).wf(),
        r.1.chars() == joined(parts@.map_values(|s: &InkoString| s.chars())),
        r.1.class_of() == string_class,
{
    let buffer = join_strings(parts);
    InkoString::allocate(allocator, blocks, string_class, buffer)
}

} // verus!
