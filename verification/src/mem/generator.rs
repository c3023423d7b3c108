//! Generators/semicoroutines run in a process.
//!
//! Generators are a limited form of coroutines, used to make it easier to write
//! iterators. Unlike regular coroutines (sometimes called fibers), generators
//! can only yield to their parent. Once a generator has finished running, it
//! can't be resumed.
use vstd::prelude::*;
use crate::execution_context::ExecutionContext;
use crate::mem::allocator::{Allocator, BlockAllocator, Pointer, MAX_BLOCKS};
use crate::mem::objects::{ClassPointer, Header};

verus! {

/// The size of a generator object, in bytes.
pub const GENERATOR_SIZE: usize = 48;

/// The status of a generator.
#[derive(PartialEq, Eq, Debug, Clone, Copy, Structural)]
pub enum Status {
    /// The generator is created but not yet running.
    Created,
    /// The generator is running.
    Running,
    /// The generator yielded a value.
    Yielded,
    /// The generator finished without yielding a value.
    Finished,
    /// The generator threw a value.
    Thrown,
}

/// A generator that can yield to its caller, and be resumed later on.
pub struct Generator<'a> {
    header: Header,
    /// The address of the generator.
    pointer: GeneratorPointer,
    /// The status of the generator.
    status: Status,
    /// The execution context/call stack of this generator.
    pub context: Box<ExecutionContext<'a>>,
    /// The parent of this generator, if any: the generator to return to.
    pub parent: Option<Box<Generator<'a>>>,
    /// The last value returned, thrown, or yielded.
    result: Option<Pointer>,
}

impl<'a> Generator<'a> {
    /// The status of the generator.
    pub closed spec fn status_view(&self) -> Status {
        self.status
    }

    /// The last value returned, thrown, or yielded.
    pub closed spec fn result_view(&self) -> Option<Pointer> {
        self.result
    }

    /// The current execution context of the generator.
    pub closed spec fn context_view(&self) -> ExecutionContext<'a> {
        *self.context
    }

    /// The parent of the generator.
    pub closed spec fn parent_view(&self) -> Option<Box<Generator<'a>>> {
        self.parent
    }

    /// The address of the generator.
    pub closed spec fn pointer_view(&self) -> GeneratorPointer {
        self.pointer
    }

    /// The class of the generator.
    pub closed spec fn class_of(&self) -> ClassPointer {
        self.header.class
    }

    /// The number of references to the generator.
    pub closed spec fn references(&self) -> u32 {
        self.header.references
    }

    /// The contexts of this generator followed by those of its parents,
    /// innermost first.
    pub closed spec fn all_contexts(&self) -> Seq<ExecutionContext<'a>>
        decreases self,
    {
        match self.parent {
            Some(p) => self.context.chain() + p.all_contexts(),
            None => self.context.chain(),
        }
    }

    /// The contexts of a generator are the chain of its current context,
    /// innermost first, followed by the contexts of its parent generator.
    pub proof fn lemma_all_contexts(&self)
        ensures
            self.all_contexts() == (match self.parent_view() {
                Some(p) => self.context_view().chain() + p.all_contexts(),
                None => self.context_view().chain(),
            }),
    {
    }

    /// Returns a new generator that runs `context`, in memory allocated by
    /// `allocator`: it is created, has no parent and no result yet.
    pub fn allocate<A: Allocator>(
        allocator: &mut A,
        blocks: &mut BlockAllocator,
        class: ClassPointer,
        context: ExecutionContext<'a>,
    ) -> (r: Generator<'a>)
        requires
            old(allocator).allocator_wf(old(blocks)),
            old(blocks).wf(),
            old(blocks).num_blocks() < MAX_BLOCKS,
        ensures
            final(allocator).allocator_wf(final(blocks)),
            final(blocks).wf(),
            r.class_of() == class,
            r.references() == 0,
            r.status_view() == Status::Created,
            r.context_view() == context,
            r.parent_view() is None,
            r.result_view() is None,
    {
        let ptr = allocator.allocate(blocks, GENERATOR_SIZE as u64);
        Generator {
            header: Header { class, references: 0 },
            pointer: GeneratorPointer::new(ptr),
            status: Status::Created,
            context: Box::new(context),
            parent: None,
            result: None,
        }
    }

    /// Returns the address of the generator.
    pub fn pointer(&self) -> (r: GeneratorPointer)
        ensures
            r == self.pointer_view(),
    {
        self.pointer
    }

    /// Returns the current execution context of the generator.
    pub fn context(&self) -> (r: &ExecutionContext<'a>)
        ensures
            *r == self.context_view(),
    {
        &self.context
    }

    /// Returns the current execution context of the generator, to change it.
    pub fn context_mut(&mut self) -> (r: &mut ExecutionContext<'a>)
        ensures
            *r == old(self).context_view(),
            final(self).context_view() == *final(r),
            final(self).status_view() == old(self).status_view(),
            final(self).result_view() == old(self).result_view(),
            final(self).parent_view() == old(self).parent_view(),
            final(self).pointer_view() == old(self).pointer_view(),
            final(self).class_of() == old(self).class_of(),
            final(self).references() == old(self).references(),
    {
        &mut *self.context
    }

    /// Sets the parent of the generator: the generator to return to.
    pub fn set_parent(&mut self, parent: Option<Box<Generator<'a>>>)
        ensures
            final(self).parent_view() == parent,
            final(self).context_view() == old(self).context_view(),
            final(self).status_view() == old(self).status_view(),
            final(self).result_view() == old(self).result_view(),
            final(self).pointer_view() == old(self).pointer_view(),
    {
        self.parent = parent;
    }

    /// Takes the parent out of the generator.
    pub fn take_parent(&mut self) -> (r: Option<Box<Generator<'a>>>)
        ensures
            r == old(self).parent_view(),
            final(self).parent_view() is None,
            final(self).context_view() == old(self).context_view(),
            final(self).status_view() == old(self).status_view(),
            final(self).result_view() == old(self).result_view(),
            final(self).pointer_view() == old(self).pointer_view(),
    {
        self.parent.take()
    }

    /// Returns the status of the generator.
    pub fn status(&self) -> (r: Status)
        ensures
            r == self.status_view(),
    {
        self.status
    }

    /// Adds a new execution context to the stack: it becomes the current
    /// context, and the context before the push becomes its parent.
    pub fn push_context(&mut self, new_context: ExecutionContext<'a>)
        ensures
            final(self).context_view().method == new_context.method,
            final(self).context_view().variables == new_context.variables,
            final(self).context_view().registers == new_context.registers,
            final(self).context_view().index == new_context.index,
            final(self).context_view().parent == Some(Box::new(old(self).context_view())),
            final(self).status_view() == old(self).status_view(),
            final(self).result_view() == old(self).result_view(),
            final(self).parent_view() == old(self).parent_view(),
    {
        let mut boxed = Box::new(new_context);
        std::mem::swap(&mut self.context, &mut boxed);
        self.context.parent = Some(boxed);
    }

    /// Pops the current execution context off the stack, making its parent
    /// the current context. Returns `true` when there was no parent to
    /// return to, in which case the generator finishes.
    pub fn pop_context(&mut self) -> (r: bool)
        ensures
            r == old(self).context_view().parent is None,
            !r ==> final(self).context_view() == *old(self).context_view().parent->0,
            !r ==> final(self).status_view() == old(self).status_view(),
            r ==> final(self).status_view() == Status::Finished,
            r ==> final(self).context_view() == old(self).context_view(),
            final(self).result_view() == old(self).result_view(),
            final(self).parent_view() == old(self).parent_view(),
    {
        match self.context.parent.take() {
            Some(parent) => {
                self.context = parent;
                false
            },
            None => {
                self.finish();
                true
            },
        }
    }

    /// Returns the contexts of this generator and of its parent generators,
    /// innermost first.
    pub fn contexts<'b>(&'b self) -> (r: Vec<&'b ExecutionContext<'a>>)
        ensures
            r@.len() == self.all_contexts().len(),
            forall|i: int| 0 <= i < r@.len() ==> *(#[trigger] r@[i]) == self.all_contexts()[i],
        decreases self,
    {
        let mut contexts = self.context.context_list();
        match &self.parent {
            Some(parent) => {
                let rest = parent.contexts();
                let ghost before = contexts@;
                let mut i: usize = 0;
                while i < rest.len()
                    invariant
                        i <= rest@.len(),
                        rest@.len() == parent.all_contexts().len(),
                        forall|k: int| 0 <= k < rest@.len() ==> *(#[trigger] rest@[k]) == parent.all_contexts()[k],
                        before.len() == self.context.chain().len(),
                        contexts@.len() == before.len() + i,
                        forall|k: int| 0 <= k < before.len() ==> *(#[trigger] contexts@[k]) == self.context.chain()[k],
                        forall|k: int|
                            before.len() <= k < contexts@.len() ==> *(#[trigger] contexts@[k])
                                == parent.all_contexts()[k - before.len()],
                    decreases rest@.len() - i,
                {
                    contexts.push(rest[i]);
                    i = i + 1;
                }
                contexts
            },
            None => contexts,
        }
    }

    /// Marks the generator as finished.
    pub fn finish(&mut self)
        ensures
            final(self).status_view() == Status::Finished,
            final(self).result_view() == old(self).result_view(),
            final(self).context_view() == old(self).context_view(),
            final(self).parent_view() == old(self).parent_view(),
    {
        self.status = Status::Finished;
    }

    /// Returns `true` if the generator yielded a value.
    pub fn yielded(&self) -> (r: bool)
        ensures
            r == (self.status_view() == Status::Yielded),
    {
        match self.status {
            Status::Yielded => true,
            _ => false,
        }
    }

    /// Returns `true` if the generator threw a value.
    pub fn thrown(&self) -> (r: bool)
        ensures
            r == (self.status_view() == Status::Thrown),
    {
        match self.status {
            Status::Thrown => true,
            _ => false,
        }
    }

    /// Marks this generator as running again, if possible: only a created or
    /// yielded generator can be resumed.
    pub fn resume(&mut self) -> (r: bool)
        ensures
            r == (old(self).status_view() == Status::Created || old(self).status_view() == Status::Yielded),
            r ==> final(self).status_view() == Status::Running,
            !r ==> *final(self) == *old(self),
            final(self).pointer_view() == old(self).pointer_view(),
            final(self).result_view() == old(self).result_view(),
            final(self).context_view() == old(self).context_view(),
            final(self).parent_view() == old(self).parent_view(),
    {
        match self.status {
            Status::Created | Status::Yielded => {
                self.status = Status::Running;
                true
            },
            _ => false,
        }
    }

    /// Sets the value yielded by this generator. A generator can be resumed
    /// after it yielded a value.
    pub fn set_yield_value(&mut self, value: Pointer)
        ensures
            final(self).status_view() == Status::Yielded,
            final(self).result_view() == Some(value),
            final(self).context_view() == old(self).context_view(),
            final(self).parent_view() == old(self).parent_view(),
    {
        self.status = Status::Yielded;
        self.result = Some(value);
    }

    /// Sets the value thrown by this generator. Once a generator throws, it
    /// can't be resumed.
    pub fn set_throw_value(&mut self, value: Pointer)
        ensures
            final(self).status_view() == Status::Thrown,
            final(self).result_view() == Some(value),
            final(self).context_view() == old(self).context_view(),
            final(self).parent_view() == old(self).parent_view(),
    {
        self.result = Some(value);
        self.status = Status::Thrown;
    }

    /// Sets the result of the generator, without changing its status.
    pub fn set_result(&mut self, value: Pointer)
        ensures
            final(self).status_view() == old(self).status_view(),
            final(self).result_view() == Some(value),
            final(self).context_view() == old(self).context_view(),
            final(self).parent_view() == old(self).parent_view(),
    {
        self.result = Some(value);
    }

    /// Takes the result out of the generator, leaving none.
    pub fn take_result(&mut self) -> (r: Option<Pointer>)
        ensures
            r == old(self).result_view(),
            final(self).result_view() is None,
            final(self).status_view() == old(self).status_view(),
            final(self).context_view() == old(self).context_view(),
            final(self).parent_view() == old(self).parent_view(),
            final(self).pointer_view() == old(self).pointer_view(),
            final(self).class_of() == old(self).class_of(),
            final(self).references() == old(self).references(),
    {
        self.result.take()
    }

    /// Returns the result of the generator.
    pub fn result(&self) -> (r: Option<Pointer>)
        ensures
            r == self.result_view(),
    {
        self.result
    }
}

/// A pointer to a generator.
#[derive(Clone, Copy)]
pub struct GeneratorPointer(Pointer);

impl View for GeneratorPointer {
    type V = u64;

    closed spec fn view(&self) -> u64 {
        self.0@
    }
}

impl GeneratorPointer {
    /// Returns a new GeneratorPointer from a raw Pointer.
    pub fn new(pointer: Pointer) -> (r: Self)
        ensures
            r@ == pointer@,
    {
        GeneratorPointer(pointer)
    }

    /// Returns the GeneratorPointer as a regular Pointer.
    pub fn as_pointer(self) -> (r: Pointer)
        ensures
            r@ == self@,
    {
        self.0
    }
}

} // verus!
