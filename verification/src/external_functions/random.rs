//! Functions for generating random numbers.
use vstd::prelude::*;
use vstd::string::StringExecFns;
use crate::external_functions::integer::{signed_decimal, signed_to_decimal};
use crate::mem::allocator::{Allocator, BlockAllocator, Pointer};
use crate::mem::objects::{ByteArray, Int, UnsignedInt, int_value, unsigned_int_value};
use crate::mem::permanent_space::PermanentSpace;
use crate::runtime_error::RuntimeError;
use crate::vm::instructions::integer::{allocated_int, allocated_unsigned_int, can_allocate};

verus! {

/// Draws a random unsigned integer from the generator of the current thread
/// (`rand::thread_rng` and `Rng::gen`). Any value may come out.
#[verifier::external_body]
fn random_u64() -> u64 {
    rand::Rng::gen(&mut rand::thread_rng())
}

/// Draws a random signed integer from `low` (inclusive) up to `high`
/// (exclusive) from the generator of the current thread
/// (`rand::thread_rng` and `Rng::gen_range`), which panics unless `low` is
/// lower than `high`.
#[verifier::external_body]
fn random_i64_below(low: i64, high: i64) -> (r: i64)
    requires
        low < high,
    ensures
        low <= r < high,
{
    rand::Rng::gen_range(&mut rand::thread_rng(), low, high)
}

/// Fills `bytes` with random bytes from the generator of the current thread
/// (`rand::thread_rng` and `Rng::try_fill`), returning the message of the
/// generator's error if it fails. Which bytes come out is not stated; their
/// number stays the same, as a slice is filled.
#[verifier::external_body]
fn fill_random(bytes: &mut Vec<u8>) -> (r: Result<(), std::string::String>)
    ensures
        final(bytes)@.len() == old(bytes)@.len(),
{
    match rand::Rng::try_fill(&mut rand::thread_rng(), &mut bytes[..]) {
        Ok(()) => Ok(()),
        Err(error) => Err(error.to_string()),
    }
}

/// Returns a random unsigned integer as a new unsigned integer object.
pub fn random_integer<A: Allocator>(
    allocator: &mut A,
    blocks: &mut BlockAllocator,
    space: &PermanentSpace,
) -> (r: (Pointer, Option<UnsignedInt>))
    requires
        can_allocate(*old(allocator), *old(blocks)),
    ensures
        allocated_unsigned_int(
            *old(allocator),
            *old(blocks),
            *final(allocator),
            *final(blocks),
            space.unsigned_int_class.pointer_view(),
            unsigned_int_value(r.0, r.1),
            r,
        ),
{
    let value = random_u64();
    UnsignedInt::allocate(allocator, blocks, space.unsigned_int_class(), value)
}

/// Returns the value of an incrementing counter as a new unsigned integer
/// object, and moves the counter on by one, wrapping around after the
/// largest value.
pub fn random_incremental_integer<A: Allocator>(
    allocator: &mut A,
    blocks: &mut BlockAllocator,
    space: &PermanentSpace,
    counter: &mut u64,
) -> (r: (Pointer, Option<UnsignedInt>))
    requires
        can_allocate(*old(allocator), *old(blocks)),
    ensures
        allocated_unsigned_int(
            *old(allocator),
            *old(blocks),
            *final(allocator),
            *final(blocks),
            space.unsigned_int_class.pointer_view(),
            *old(counter),
            r,
        ),
        *final(counter) == (if *old(counter) == u64::MAX {
            0
        } else {
            *old(counter) + 1
        }),
{
    let value = *counter;
    *counter = value.wrapping_add(1);
    UnsignedInt::allocate(allocator, blocks, space.unsigned_int_class(), value)
}

/// The message of the error for bounds of which the lower is not lower than
/// the upper one, given their decimal representations.
pub open spec fn bounds_message(min: Seq<char>, max: Seq<char>) -> Seq<char> {
    "The lower bound "@ + min + " must be lower than the upper bound "@ + max
}

/// Returns a random signed integer from `min` (inclusive) up to `max`
/// (exclusive) as a new integer object; each bound is an integer with its
/// boxed value, if any. Bounds of which the lower is not lower than the
/// upper one give an error message.
pub fn random_integer_range<A: Allocator>(
    allocator: &mut A,
    blocks: &mut BlockAllocator,
    space: &PermanentSpace,
    min: Pointer,
    min_boxed: &Option<Int>,
    max: Pointer,
    max_boxed: &Option<Int>,
) -> (r: Result<(Pointer, Option<Int>), RuntimeError>)
    requires
        can_allocate(*old(allocator), *old(blocks)),
    ensures
        ({
            let low = int_value(min, *min_boxed);
            let high = int_value(max, *max_boxed);
            &&& low >= high ==> {
                &&& r matches Err(RuntimeError::ErrorMessage(message)) && message@
                    == bounds_message(signed_decimal(low as int), signed_decimal(high as int))
                &&& *final(allocator) == *old(allocator)
                &&& *final(blocks) == *old(blocks)
            }
            &&& low < high ==> (r matches Ok(v) && low <= int_value(v.0, v.1) < high
                && allocated_int(
                *old(allocator),
                *old(blocks),
                *final(allocator),
                *final(blocks),
                space.int_class.pointer_view(),
                int_value(v.0, v.1),
                v,
            ))
        }),
{
    let low = Int::read(min, min_boxed);
    let high = Int::read(max, max_boxed);
    if low >= high {
        let mut message = std::string::String::from_str("The lower bound ");
        message.append(signed_to_decimal(low).as_str());
        message.append(" must be lower than the upper bound ");
        message.append(signed_to_decimal(high).as_str());
        return Err(RuntimeError::ErrorMessage(message));
    }
    let value = random_i64_below(low, high);
    Ok(Int::allocate(allocator, blocks, space.int_class(), value))
}

/// Returns a new byte array object holding as many random bytes as the
/// unsigned integer `size` (with its boxed value, if any) says, or the
/// message of the generator's error.
pub fn random_bytes<A: Allocator>(
    allocator: &mut A,
    blocks: &mut BlockAllocator,
    space: &PermanentSpace,
    size: Pointer,
    size_boxed: &Option<UnsignedInt>,
) -> (r: Result<(Pointer, ByteArray), RuntimeError>)
    requires
        can_allocate(*old(allocator), *old(blocks)),
    ensures
        r matches Ok(v) ==> {
            &&& final(allocator).allocator_wf(final(blocks))
            &&& final(blocks).wf()
            &&& v.1.bytes().len() == (unsigned_int_value(size, *size_boxed) as usize)
            &&& v.1.class_of() == space.byte_array_class.pointer_view()
        },
        r matches Err(e) ==> {
            &&& e is ErrorMessage
            &&& *final(allocator) == *old(allocator)
            &&& *final(blocks) == *old(blocks)
        },
{
    let amount = UnsignedInt::read(size, size_boxed) as usize;
    let mut bytes: Vec<u8> = Vec::new();
    let mut i: usize = 0;
    while i < amount
        invariant
            i <= amount,
            bytes@.len() == i,
        decreases amount - i,
    {
        bytes.push(0);
        i = i + 1;
    }
    let filled = fill_random(&mut bytes);
    byte_array_from_fill(allocator, blocks, space, bytes, filled)
}

/// Turns the outcome of filling `bytes` with random bytes into a new byte
/// array object holding them, or into the error's message.
pub fn byte_array_from_fill<A: Allocator>(
    allocator: &mut A,
    blocks: &mut BlockAllocator,
    space: &PermanentSpace,
    bytes: Vec<u8>,
    filled: Result<(), std::string::String>,
) -> (r: Result<(Pointer, ByteArray), RuntimeError>)
    requires
        can_allocate(*old(allocator), *old(blocks)),
    ensures
        filled is Ok ==> (r matches Ok(v) && {
            &&& final(allocator).allocator_wf(final(blocks))
            &&& final(blocks).wf()
            &&& v.1.bytes() == bytes@
            &&& v.1.class_of() == space.byte_array_class.pointer_view()
        }),
        filled matches Err(message) ==> {
            &&& r matches Err(RuntimeError::ErrorMessage(m)) && m == message
            &&& *final(allocator) == *old(allocator)
            &&& *final(blocks) == *old(blocks)
        },
{
    match filled {
        Ok(()) => Ok(ByteArray::allocate(allocator, blocks, space.byte_array_class(), bytes)),
        Err(message) => Err(RuntimeError::ErrorMessage(message)),
    }
}

} // verus!
