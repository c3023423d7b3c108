//! Functions for working with integers.
use vstd::prelude::*;
use vstd::string::{StrSliceExecFns, StringExecFns};
use crate::mem::allocator::{Allocator, BlockAllocator, Pointer};
use crate::mem::objects::{Int, String as InkoString, int_value};
use crate::mem::permanent_space::PermanentSpace;
use crate::vm::instructions::integer::{allocated_int, can_allocate};

verus! {

/// The character of a decimal digit.
pub open spec fn digit_char(d: int) -> char {
    seq!['0', '1', '2', '3', '4', '5', '6', '7', '8', '9'][d]
}

/// The decimal digits of `n`, the most significant first, without leading
/// zeros.
pub open spec fn decimal(n: nat) -> Seq<char>
    decreases n,
{
    if n < 10 {
        seq![digit_char(n as int)]
    } else {
        decimal(n / 10) + seq![digit_char((n % 10) as int)]
    }
}

/// The decimal representation of `n`, with a leading minus sign when it is
/// negative.
pub open spec fn signed_decimal(n: int) -> Seq<char> {
    if n < 0 {
        seq!['-'] + decimal((-n) as nat)
    } else {
        decimal(n as nat)
    }
}

/// Appends the decimal digits of `n` to `out`.
fn push_decimal(n: u64, out: &mut std::string::String)
    ensures
        final(out)@ == old(out)@ + decimal(n as nat),
    decreases n,
{
    if n >= 10 {
        push_decimal(n / 10, out);
    }
    let digits = "0123456789";
    proof {
        reveal_strlit("0123456789");
    }
    let d = (n % 10) as usize;
    let digit = digits.substring_char(d, d + 1);
    assert(digit@ =~= seq![digit_char(d as int)]);
    out.append(digit);
    assert(final(out)@ =~= old(out)@ + decimal(n as nat)) by {
        if n >= 10 {
            assert(old(out)@ + decimal(n as nat) =~= old(out)@ + decimal((n / 10) as nat)
                + seq![digit_char((n % 10) as int)]);
        }
    }
}

/// Returns the decimal representation of an unsigned integer.
pub fn unsigned_to_decimal(n: u64) -> (r: std::string::String)
    ensures
        r@ == decimal(n as nat),
{
    let mut out = std::string::String::new();
    push_decimal(n, &mut out);
    assert(out@ =~= decimal(n as nat));
    out
}

/// Returns the decimal representation of a signed integer, with a leading
/// minus sign when it is negative.
pub fn signed_to_decimal(n: i64) -> (r: std::string::String)
    ensures
        r@ == signed_decimal(n as int),
{
    if n < 0 {
        let magnitude = (-(n as i128)) as u64;
        let mut out = std::string::String::new();
        let minus = "-";
        proof {
            reveal_strlit("-");
        }
        out.append(minus);
        push_decimal(magnitude, &mut out);
        assert(out@ =~= signed_decimal(n as int));
        out
    } else {
        unsigned_to_decimal(n as u64)
    }
}

/// Converts an integer to a new string object holding its decimal
/// representation.
pub fn int_to_string<A: Allocator>(
    allocator: &mut A,
    blocks: &mut BlockAllocator,
    space: &PermanentSpace,
    value: Pointer,
    boxed: &Option<Int>,
) -> (r: (Pointer, InkoString))
    requires
        can_allocate(*old(allocator), *old(blocks)),
    ensures
        final(allocator).allocator_wf(final(blocks)),
        final(blocks).wf(),
        r.1.chars() == signed_decimal(int_value(value, *boxed) as int),
        r.1.class_of() == space.string_class.pointer_view(),
{
    let text = signed_to_decimal(Int::read(value, boxed));
    InkoString::allocate(allocator, blocks, space.string_class(), text)
}

/// Copies an integer into a new integer object.
pub fn int_clone<A: Allocator>(
    allocator: &mut A,
    blocks: &mut BlockAllocator,
    space: &PermanentSpace,
    value: Pointer,
    boxed: &Option<Int>,
) -> (r: (Pointer, Option<Int>))
    requires
        can_allocate(*old(allocator), *old(blocks)),
    ensures
        allocated_int(
            *old(allocator),
            *old(blocks),
            *final(allocator),
            *final(blocks),
            space.int_class.pointer_view(),
            int_value(value, *boxed),
            r,
        ),
{
    Int::allocate(allocator, blocks, space.int_class(), Int::read(value, boxed))
}

} // verus!
