//! Functions for working with strings.
use vstd::prelude::*;
use vstd::string::{StrSliceExecFns, StringExecFns};
use vstd::utf8::encode_utf8;
use crate::external_functions::integer::{
    decimal,
    signed_decimal,
    signed_to_decimal,
    unsigned_to_decimal,
};
use crate::mem::allocator::{Allocator, BlockAllocator, Pointer, PERMANENT_BIT, bit_set};
use crate::mem::objects::{
    ByteArray,
    Int,
    String as InkoString,
    UnsignedInt,
    int_value,
    unsigned_int_value,
};
use crate::mem::permanent_space::PermanentSpace;
use crate::runtime_error::RuntimeError;
use crate::vm::instructions::integer::{allocated_int, allocated_unsigned_int, can_allocate};
use crate::vm::instructions::string::{join_strings, joined};

verus! {

/// What `str::to_lowercase` makes of the characters `text`.
pub uninterp spec fn lowercased(text: Seq<char>) -> Seq<char>;

/// What `str::to_uppercase` makes of the characters `text`.
pub uninterp spec fn uppercased(text: Seq<char>) -> Seq<char>;

/// What the `Debug` formatting of a `str` makes of the characters `text`.
pub uninterp spec fn debug_formatted(text: Seq<char>) -> Seq<char>;

/// What `i64::from_str_radix` returns for the characters `text` and the
/// radix `radix`, `None` standing for an error.
pub uninterp spec fn parsed_int(text: Seq<char>, radix: u32) -> Option<i64>;

/// What `u64::from_str_radix` returns for the characters `text` and the
/// radix `radix`, `None` standing for an error.
pub uninterp spec fn parsed_unsigned_int(text: Seq<char>, radix: u32) -> Option<u64>;

/// Calls `str::to_lowercase`, which maps each character to its lowercase
/// form as Unicode defines it. The contract only names the result.
#[verifier::external_body]
fn to_lowercase(text: &str) -> (r: std::string::String)
    ensures
        r@ == lowercased(text@),
{
    text.to_lowercase()
}

/// Calls `str::to_uppercase`, which maps each character to its uppercase
/// form as Unicode defines it. The contract only names the result.
#[verifier::external_body]
fn to_uppercase(text: &str) -> (r: std::string::String)
    ensures
        r@ == uppercased(text@),
{
    text.to_uppercase()
}

/// Formats a `str` with `Debug`, which quotes it and escapes special
/// characters. The contract only names the result.
#[verifier::external_body]
fn debug_format(text: &str) -> (r: std::string::String)
    ensures
        r@ == debug_formatted(text@),
{
    format!("{:?}", text)
}

/// Calls `i64::from_str_radix`, which parses an optional sign followed by
/// digits of the radix, failing on anything else and on overflow; an error
/// is returned as `None`. The contract only names the result. The radix
/// must lie in 2 to 36, or the function panics.
#[verifier::external_body]
fn i64_from_str_radix(text: &str, radix: u32) -> (r: Option<i64>)
    requires
        2 <= radix <= 36,
    ensures
        r == parsed_int(text@, radix),
{
    i64::from_str_radix(text, radix).ok()
}

/// Calls `u64::from_str_radix`, which parses an optional plus sign followed
/// by digits of the radix, failing on anything else and on overflow; an
/// error is returned as `None`. The contract only names the result. The
/// radix must lie in 2 to 36, or the function panics.
#[verifier::external_body]
fn u64_from_str_radix(text: &str, radix: u32) -> (r: Option<u64>)
    requires
        2 <= radix <= 36,
    ensures
        r == parsed_unsigned_int(text@, radix),
{
    u64::from_str_radix(text, radix).ok()
}

/// The message of the panic for a radix outside of 2 to 36, given the
/// decimal representation of the radix.
pub open spec fn radix_message(radix: Seq<char>) -> Seq<char> {
    "radix must be between 2 and 32, not "@ + radix
}

/// Returns the panic for a radix outside of 2 to 36, given its decimal
/// representation.
fn radix_panic(radix: std::string::String) -> (r: RuntimeError)
    ensures
        r matches RuntimeError::Panic(message) && message@ == radix_message(radix@),
{
    let mut message = std::string::String::from_str("radix must be between 2 and 32, not ");
    message.append(radix.as_str());
    RuntimeError::Panic(message)
}

/// Holds when `r` is the outcome of turning the parse result `parsed` into
/// a signed integer object of the integer class of `space`: the integer
/// when parsing succeeded, else the undefined singleton thrown as an error,
/// leaving the allocator as it was.
pub open spec fn int_parse_outcome<A: Allocator>(
    allocator: A,
    blocks: BlockAllocator,
    allocator2: A,
    blocks2: BlockAllocator,
    space: &PermanentSpace,
    parsed: Option<i64>,
    r: Result<(Pointer, Option<Int>), RuntimeError>,
) -> bool {
    match parsed {
        Some(value) => r matches Ok(v) && allocated_int(
            allocator,
            blocks,
            allocator2,
            blocks2,
            space.int_class.pointer_view(),
            value,
            v,
        ),
        None => {
            &&& r matches Err(RuntimeError::Error(thrown)) && thrown == space.undefined_singleton
            &&& allocator2 == allocator
            &&& blocks2 == blocks
        },
    }
}

/// Holds when `r` is the outcome of turning the parse result `parsed` into
/// an unsigned integer object of the unsigned integer class of `space`: the
/// integer when parsing succeeded, else the undefined singleton thrown as an
/// error, leaving the allocator as it was.
pub open spec fn unsigned_int_parse_outcome<A: Allocator>(
    allocator: A,
    blocks: BlockAllocator,
    allocator2: A,
    blocks2: BlockAllocator,
    space: &PermanentSpace,
    parsed: Option<u64>,
    r: Result<(Pointer, Option<UnsignedInt>), RuntimeError>,
) -> bool {
    match parsed {
        Some(value) => r matches Ok(v) && allocated_unsigned_int(
            allocator,
            blocks,
            allocator2,
            blocks2,
            space.unsigned_int_class.pointer_view(),
            value,
            v,
        ),
        None => {
            &&& r matches Err(RuntimeError::Error(thrown)) && thrown == space.undefined_singleton
            &&& allocator2 == allocator
            &&& blocks2 == blocks
        },
    }
}

/// Turns the result of parsing a signed integer into an integer object, or
/// into the undefined singleton thrown as an error when parsing failed.
pub fn int_from_parse<A: Allocator>(
    allocator: &mut A,
    blocks: &mut BlockAllocator,
    space: &PermanentSpace,
    parsed: Option<i64>,
) -> (r: Result<(Pointer, Option<Int>), RuntimeError>)
    requires
        can_allocate(*old(allocator), *old(blocks)),
    ensures
        int_parse_outcome(*old(allocator), *old(blocks), *final(allocator), *final(blocks), space, parsed, r),
{
    match parsed {
        Some(value) => Ok(Int::allocate(allocator, blocks, space.int_class(), value)),
        None => Err(RuntimeError::Error(space.undefined_singleton)),
    }
}

/// Turns the result of parsing an unsigned integer into an unsigned integer
/// object, or into the undefined singleton thrown as an error when parsing
/// failed.
pub fn unsigned_int_from_parse<A: Allocator>(
    allocator: &mut A,
    blocks: &mut BlockAllocator,
    space: &PermanentSpace,
    parsed: Option<u64>,
) -> (r: Result<(Pointer, Option<UnsignedInt>), RuntimeError>)
    requires
        can_allocate(*old(allocator), *old(blocks)),
    ensures
        unsigned_int_parse_outcome(
            *old(allocator),
            *old(blocks),
            *final(allocator),
            *final(blocks),
            space,
            parsed,
            r,
        ),
{
    match parsed {
        Some(value) => Ok(UnsignedInt::allocate(allocator, blocks, space.unsigned_int_class(), value)),
        None => Err(RuntimeError::Error(space.undefined_singleton)),
    }
}

/// Returns a new string object with the string's characters in lowercase.
pub fn string_to_lower<A: Allocator>(
    allocator: &mut A,
    blocks: &mut BlockAllocator,
    space: &PermanentSpace,
    string: &InkoString,
) -> (r: (Pointer, InkoString))
    requires
        can_allocate(*old(allocator), *old(blocks)),
    ensures
        final(allocator).allocator_wf(final(blocks)),
        final(blocks).wf(),
        r.1.chars() == lowercased(string.chars()),
        r.1.class_of() == space.string_class.pointer_view(),
{
    let lower = to_lowercase(string.value().as_str());
    InkoString::allocate(allocator, blocks, space.string_class(), lower)
}

/// Returns a new string object with the string's characters in uppercase.
pub fn string_to_upper<A: Allocator>(
    allocator: &mut A,
    blocks: &mut BlockAllocator,
    space: &PermanentSpace,
    string: &InkoString,
) -> (r: (Pointer, InkoString))
    requires
        can_allocate(*old(allocator), *old(blocks)),
    ensures
        final(allocator).allocator_wf(final(blocks)),
        final(blocks).wf(),
        r.1.chars() == uppercased(string.chars()),
        r.1.class_of() == space.string_class.pointer_view(),
{
    let upper = to_uppercase(string.value().as_str());
    InkoString::allocate(allocator, blocks, space.string_class(), upper)
}

/// Returns a new byte array object holding the UTF-8 bytes of a string.
pub fn string_to_byte_array<A: Allocator>(
    allocator: &mut A,
    blocks: &mut BlockAllocator,
    space: &PermanentSpace,
    string: &InkoString,
) -> (r: (Pointer, ByteArray))
    requires
        can_allocate(*old(allocator), *old(blocks)),
    ensures
        final(allocator).allocator_wf(final(blocks)),
        final(blocks).wf(),
        r.1.bytes() == encode_utf8(string.chars()),
        r.1.class_of() == space.byte_array_class.pointer_view(),
{
    let bytes = string.value().as_str().as_bytes_vec();
    ByteArray::allocate(allocator, blocks, space.byte_array_class(), bytes)
}

/// Concatenates the strings of an array into a new string object. `parts`
/// are the strings the array's values point to, in order.
pub fn string_concat_array<A: Allocator>(
    allocator: &mut A,
    blocks: &mut BlockAllocator,
    space: &PermanentSpace,
    parts: &[&InkoString],
) -> (r: (Pointer, InkoString))
    requires
        can_allocate(*old(allocator), *old(blocks)),
    ensures
        final(allocator).allocator_wf(final(blocks)),
        final(blocks).wf(),
        r.1.chars() == joined(parts@.map_values(|s: &InkoString| s.chars())),
        r.1.class_of() == space.string_class.pointer_view(),
{
    let buffer = join_strings(parts);
    InkoString::allocate(allocator, blocks, space.string_class(), buffer)
}

/// Returns a new string object with the `Debug` formatting of a string.
pub fn string_format_debug<A: Allocator>(
    allocator: &mut A,
    blocks: &mut BlockAllocator,
    space: &PermanentSpace,
    string: &InkoString,
) -> (r: (Pointer, InkoString))
    requires
        can_allocate(*old(allocator), *old(blocks)),
    ensures
        final(allocator).allocator_wf(final(blocks)),
        final(blocks).wf(),
        r.1.chars() == debug_formatted(string.chars()),
        r.1.class_of() == space.string_class.pointer_view(),
{
    let text = debug_format(string.value().as_str());
    InkoString::allocate(allocator, blocks, space.string_class(), text)
}

/// Parses a string as a signed integer in the radix that `radix` (an
/// unsigned integer with its boxed value, if any) holds.
///
/// A radix outside of 2 to 36 is a panic; a string that does not parse is
/// the undefined singleton thrown as an error.
pub fn string_to_int<A: Allocator>(
    allocator: &mut A,
    blocks: &mut BlockAllocator,
    space: &PermanentSpace,
    string: &InkoString,
    radix: Pointer,
    radix_boxed: &Option<UnsignedInt>,
) -> (r: Result<(Pointer, Option<Int>), RuntimeError>)
    requires
        can_allocate(*old(allocator), *old(blocks)),
    ensures
        ({
            let base = unsigned_int_value(radix, *radix_boxed);
            &&& !(2 <= base <= 36) ==> {
                &&& r matches Err(RuntimeError::Panic(message)) && message@ == radix_message(
                    decimal(base as nat),
                )
                &&& *final(allocator) == *old(allocator)
                &&& *final(blocks) == *old(blocks)
            }
            &&& (2 <= base <= 36) ==> int_parse_outcome(
                *old(allocator),
                *old(blocks),
                *final(allocator),
                *final(blocks),
                space,
                parsed_int(string.chars(), base as u32),
                r,
            )
        }),
{
    let base = UnsignedInt::read(radix, radix_boxed);
    if base < 2 || base > 36 {
        return Err(radix_panic(unsigned_to_decimal(base)));
    }
    let parsed = i64_from_str_radix(string.value().as_str(), base as u32);
    int_from_parse(allocator, blocks, space, parsed)
}

/// Parses a string as an unsigned integer in the radix that `radix` (a
/// signed integer with its boxed value, if any) holds.
///
/// A radix outside of 2 to 36 is a panic; a string that does not parse is
/// the undefined singleton thrown as an error.
pub fn string_to_unsigned_int<A: Allocator>(
    allocator: &mut A,
    blocks: &mut BlockAllocator,
    space: &PermanentSpace,
    string: &InkoString,
    radix: Pointer,
    radix_boxed: &Option<Int>,
) -> (r: Result<(Pointer, Option<UnsignedInt>), RuntimeError>)
    requires
        can_allocate(*old(allocator), *old(blocks)),
    ensures
        ({
            let base = int_value(radix, *radix_boxed);
            &&& !(2 <= base <= 36) ==> {
                &&& r matches Err(RuntimeError::Panic(message)) && message@ == radix_message(
                    signed_decimal(base as int),
                )
                &&& *final(allocator) == *old(allocator)
                &&& *final(blocks) == *old(blocks)
            }
            &&& (2 <= base <= 36) ==> unsigned_int_parse_outcome(
                *old(allocator),
                *old(blocks),
                *final(allocator),
                *final(blocks),
                space,
                parsed_unsigned_int(string.chars(), base as u32),
                r,
            )
        }),
{
    let base = Int::read(radix, radix_boxed);
    if base < 2 || base > 36 {
        return Err(radix_panic(signed_to_decimal(base)));
    }
    let parsed = u64_from_str_radix(string.value().as_str(), base as u32);
    unsigned_int_from_parse(allocator, blocks, space, parsed)
}

/// Returns a copy of a string: a permanent string is returned as it is, any
/// other string is copied into a new string object, whose record is then
/// returned too.
pub fn string_clone<A: Allocator>(
    allocator: &mut A,
    blocks: &mut BlockAllocator,
    space: &PermanentSpace,
    source: Pointer,
    string: &InkoString,
) -> (r: (Pointer, Option<InkoString>))
    requires
        can_allocate(*old(allocator), *old(blocks)),
    ensures
        bit_set(source@, PERMANENT_BIT) ==> {
            &&& r.0 == source
            &&& r.1 is None
            &&& *final(allocator) == *old(allocator)
            &&& *final(blocks) == *old(blocks)
        },
        !bit_set(source@, PERMANENT_BIT) ==> {
            &&& final(allocator).allocator_wf(final(blocks))
            &&& final(blocks).wf()
            &&& r.1 matches Some(copy) && copy.chars() == string.chars() && copy.class_of()
                == space.string_class.pointer_view()
        },
{
    if source.is_permanent() {
        return (source, None);
    }
    let (pointer, copy) = InkoString::allocate(
        allocator,
        blocks,
        space.string_class(),
        string.value().clone(),
    );
    (pointer, Some(copy))
}

} // verus!
