//! VM functions for working with generators.
use vstd::prelude::*;
use crate::mem::allocator::Pointer;
use crate::mem::generator::{Generator, Status};
use crate::mem::process::Server;
use crate::runtime_error::RuntimeError;

verus! {

/// Resumes a generator in the process: the generator becomes the running
/// generator, with the generator that ran before it as its parent.
///
/// A generator that finished or threw can't be resumed: then the process is
/// left as it was, and the error message comes back with the generator.
pub fn resume<'a>(process: &mut Server<'a>, generator: Generator<'a>) -> (r: Result<
    (),
    (std::string::String, Generator<'a>),
>)
    ensures
        (generator.status_view() == Status::Created || generator.status_view() == Status::Yielded)
            ==> {
            &&& r is Ok
            &&& final(process).generator_view() matches Some(running)
            &&& running.status_view() == Status::Running
            &&& running.parent_view() == old(process).generator_view()
            &&& running.context_view() == generator.context_view()
            &&& running.result_view() == generator.result_view()
            &&& running.pointer_view() == generator.pointer_view()
            &&& final(process).state_view() == old(process).state_view()
        },
        !(generator.status_view() == Status::Created || generator.status_view() == Status::Yielded)
            ==> {
            &&& r matches Err((message, back))
            &&& message@ == "Finished generators can't be resumed"@
            &&& back == generator
            &&& *final(process) == *old(process)
        },
{
    let mut generator = generator;
    if !generator.resume() {
        return Err(("Finished generators can't be resumed".to_owned(), generator));
    }
    process.resume_generator(generator);
    Ok(())
}

/// Returns the value a generator produced: the value it yielded, or the
/// undefined singleton when it finished without one. A thrown value comes
/// back as an error, to be thrown again; so does a result that was already
/// taken out.
pub fn value(generator: &Generator<'_>, undefined_singleton: Pointer) -> (r: Result<
    Pointer,
    RuntimeError,
>)
    ensures
        match generator.result_view() {
            None => r matches Err(RuntimeError::ErrorMessage(message))
                && message@ == "The generator's result has already been consumed"@,
            Some(value) => r == (if generator.status_view() == Status::Yielded {
                Ok::<Pointer, RuntimeError>(value)
            } else if generator.status_view() == Status::Thrown {
                Err::<Pointer, RuntimeError>(RuntimeError::Error(value))
            } else {
                Ok::<Pointer, RuntimeError>(undefined_singleton)
            }),
        },
{
    let value = match generator.result() {
        Some(value) => value,
        None => {
            return Err(
                RuntimeError::ErrorMessage(
                    "The generator's result has already been consumed".to_owned(),
                ),
            );
        },
    };
    if generator.yielded() {
        Ok(value)
    } else if generator.thrown() {
        Err(RuntimeError::Error(value))
    } else {
        Ok(undefined_singleton)
    }
}

} // verus!
