//! VM functions for working with Inko modules.
use vstd::prelude::*;
use crate::mem::allocator::Pointer;
use crate::mem::generator::Generator;
use crate::mem::objects::{Module, String as InkoString};
use crate::mem::permanent_space::{PermanentSpace, missing_module};

verus! {

/// Returns a pointer to the module of the method the generator runs.
pub fn current(generator: &Generator<'_>) -> (r: Pointer)
    ensures
        r@ == generator.context_view().method.module@,
{
    generator.context().method.module.as_pointer()
}

/// Loads the module whose name is the string `name`, to execute: returns
/// the module, and the true singleton if it is executed now, or the false
/// singleton if it already was. Fails when there is no such module.
pub fn load<'s>(space: &'s mut PermanentSpace, name: &InkoString) -> (r: Result<
    (&'s Module, Pointer),
    std::string::String,
>)
    ensures
        old(space).modules_view().contains_key(name.chars()) ==> {
            let module = old(space).modules_view()[name.chars()];
            &&& r matches Ok((m, execute)) && execute == (if module.executed_view() {
                old(space).false_singleton
            } else {
                old(space).true_singleton
            }) && m.executed_view() && m.path_view() == module.path_view()
                && m.classes_view() == module.classes_view()
                && final(space).modules_view() == old(space).modules_view().insert(name.chars(), *m)
        },
        !old(space).modules_view().contains_key(name.chars()) ==> {
            &&& r matches Err(message) && message@ == missing_module(name.chars())
            &&& final(space).modules_view() == old(space).modules_view()
        },
        final(space).strings_view() == old(space).strings_view(),
        final(space).same_builtins(old(space)),
{
    let true_singleton = space.true_singleton;
    let false_singleton = space.false_singleton;
    let (module, execute) = space.get_module_for_execution(name.value().as_str())?;
    let execute_ptr = if execute {
        true_singleton
    } else {
        false_singleton
    };
    Ok((module, execute_ptr))
}

} // verus!
