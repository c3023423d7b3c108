//! VM functions for which no better category/module exists.
use vstd::prelude::*;
use crate::indexes::LiteralIndex;
use crate::mem::allocator::Pointer;
use crate::mem::generator::Generator;
use crate::mem::objects::{Header, Module};

verus! {

/// Takes the result of the last instruction out of the generator. Fails
/// when the last instruction didn't produce a result.
pub fn move_result(generator: &mut Generator<'_>) -> (r: Result<Pointer, std::string::String>)
    ensures
        match old(generator).result_view() {
            Some(value) => r == Ok::<Pointer, std::string::String>(value),
            None => r is Err && r->Err_0@ == "The last instruction didn't produce a result"@,
        },
        final(generator).result_view() is None,
        final(generator).status_view() == old(generator).status_view(),
        final(generator).context_view() == old(generator).context_view(),
        final(generator).parent_view() == old(generator).parent_view(),
        final(generator).pointer_view() == old(generator).pointer_view(),
        final(generator).class_of() == old(generator).class_of(),
        final(generator).references() == old(generator).references(),
{
    match generator.take_result() {
        Some(value) => Ok(value),
        None => Err("The last instruction didn't produce a result".to_owned()),
    }
}

/// Returns a literal of the module whose index doesn't fit in a single
/// instruction argument: `a` holds the high 16 bits of the index, `b` the
/// low 16 bits.
pub fn get_literal_wide(module: &Module, a: u16, b: u16) -> (r: Pointer)
    requires
        (a as int) * 65536 + (b as int) < module.literals_view().len(),
    ensures
        r == module.literals_view()[a as int * 65536 + b as int],
{
    module.get_literal(LiteralIndex::wide(a, b))
}

/// Adds a reference to the object `ptr` points to, whose header is
/// `header`. Tagged integers and permanent objects aren't counted.
pub fn increment_ref(ptr: Pointer, header: &mut Header)
    requires
        ptr@ & 7u64 == 0u64 ==> old(header).references < u32::MAX,
    ensures
        ptr@ & 7u64 == 0u64 ==> final(header).references == old(header).references + 1,
        ptr@ & 7u64 != 0u64 ==> final(header).references == old(header).references,
        final(header).class == old(header).class,
{
    if !ptr.is_regular_object() {
        return;
    }
    header.references = header.references + 1;
}

/// Removes a reference to the object `ptr` points to, whose header is
/// `header`. Tagged integers and permanent objects aren't counted.
pub fn decrement_ref(ptr: Pointer, header: &mut Header)
    requires
        ptr@ & 7u64 == 0u64 ==> old(header).references > 0,
    ensures
        ptr@ & 7u64 == 0u64 ==> final(header).references == old(header).references - 1,
        ptr@ & 7u64 != 0u64 ==> final(header).references == old(header).references,
        final(header).class == old(header).class,
{
    if !ptr.is_regular_object() {
        return;
    }
    header.references = header.references - 1;
}

} // verus!
