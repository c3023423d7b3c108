//! Process Execution Contexts
//!
//! An execution context contains the registers, local variables, and other
//! information needed by a process in order to execute bytecode.
use vstd::prelude::*;
use crate::indexes::{GlobalIndex, LocalIndex};
use crate::mem::allocator::Pointer;
use crate::mem::objects::{Method, Module, ModulePointer};
use crate::registers::Registers;
use crate::variable_scope::VariableScope;

verus! {

/// A single call frame: the method it runs, its local variables and
/// registers, and the frame it returns to.
pub struct ExecutionContext<'a> {
    /// The local variables this context has access to.
    pub variables: VariableScope,
    /// The code that we're currently running.
    pub method: &'a Method,
    /// The parent execution context.
    pub parent: Option<Box<ExecutionContext<'a>>>,
    /// The index of the instruction to store prior to suspending a process.
    pub index: usize,
    /// The registers for this context.
    pub registers: Registers,
}

/// Walks an execution context and its parent contexts.
pub struct ExecutionContextIterator<'a, 'b> {
    current: Option<&'b ExecutionContext<'a>>,
}

impl<'a> ExecutionContext<'a> {
    /// The values of the registers.
    pub open spec fn registers_view(&self) -> Seq<Pointer> {
        self.registers.values@
    }

    /// This context followed by its parents, innermost first.
    pub open spec fn chain(&self) -> Seq<ExecutionContext<'a>>
        decreases self,
    {
        match self.parent {
            Some(p) => seq![*self] + p.chain(),
            None => seq![*self],
        }
    }

    /// Returns a new context for a method, with the given local variables
    /// and as many registers as the method needs.
    pub fn new(code: &'a Method, variables: VariableScope) -> (r: Self)
        ensures
            r.method == code,
            r.variables == variables,
            r.parent is None,
            r.index == 0,
            r.registers_view().len() == code.registers,
            forall|i: int| 0 <= i < code.registers ==> (#[trigger] r.registers_view()[i])@ == 0,
    {
        ExecutionContext {
            registers: Registers::new(code.registers),
            variables,
            method: code,
            parent: None,
            index: 0,
        }
    }

    /// Returns a new context for a method, with as many local variables as
    /// the method defines.
    pub fn for_method(method: &'a Method) -> (r: Self)
        ensures
            r.method == method,
            r.parent is None,
            r.index == 0,
            r.variables.locals_view().len() == method.locals,
            forall|i: int| 0 <= i < method.locals ==> (#[trigger] r.variables.locals_view()[i])@ == 0,
            r.registers_view().len() == method.registers,
            forall|i: int| 0 <= i < method.registers ==> (#[trigger] r.registers_view()[i])@ == 0,
    {
        let variables = VariableScope::new(method.locals);
        ExecutionContext::new(method, variables)
    }

    /// Returns the name of the method that's being executed.
    pub fn name(&self) -> (r: &std::string::String)
        ensures
            r@ == self.method.name@,
    {
        &self.method.name
    }

    /// Returns the path of the source file that's being run.
    pub fn file(&self) -> (r: &std::string::String)
        ensures
            r@ == self.method.file@,
    {
        &self.method.file
    }

    /// Returns the module the method belongs to.
    pub fn module(&self) -> (r: ModulePointer)
        ensures
            r == self.method.module,
    {
        self.method.module
    }

    /// Returns the line number of the instruction being run: the one before
    /// the stored instruction index, as that index points to the instruction
    /// to run after returning.
    pub fn line(&self) -> (r: u16)
        requires
            (if self.index > 0 {
                self.index - 1
            } else {
                0
            }) < self.method.instructions@.len(),
        ensures
            r == self.method.instructions@[if self.index > 0 {
                self.index - 1
            } else {
                0
            }].line,
    {
        let mut index = self.index;
        if index > 0 {
            index = index - 1;
        }
        self.method.instructions[index].line
    }

    /// Returns the value of a single register.
    pub fn get_register(&self, register: u16) -> (r: Pointer)
        requires
            register < self.registers_view().len(),
        ensures
            r == self.registers_view()[register as int],
    {
        self.registers.get(register)
    }

    /// Sets the value of a single register.
    pub fn set_register(&mut self, register: u16, value: Pointer)
        requires
            register < old(self).registers_view().len(),
        ensures
            final(self).registers_view() == old(self).registers_view().update(register as int, value),
            final(self).variables == old(self).variables,
            final(self).method == old(self).method,
            final(self).parent == old(self).parent,
            final(self).index == old(self).index,
    {
        self.registers.set(register, value);
    }

    /// Returns the values of `amount` registers, from register `start` on.
    pub fn get_registers(&self, start: u16, amount: u16) -> (r: &[Pointer])
        requires
            start + amount <= self.registers_view().len(),
        ensures
            r@ == self.registers_view().subrange(start as int, start + amount),
    {
        self.registers.slice(start, amount)
    }

    /// Sets multiple register values, starting at the first register.
    pub fn set_registers(&mut self, values: &[Pointer])
        requires
            values@.len() <= old(self).registers_view().len(),
        ensures
            final(self).registers_view().len() == old(self).registers_view().len(),
            final(self).registers_view().subrange(0, values@.len() as int) == values@,
            final(self).registers_view().subrange(values@.len() as int, old(self).registers_view().len() as int)
                == old(self).registers_view().subrange(
                values@.len() as int,
                old(self).registers_view().len() as int,
            ),
            final(self).variables == old(self).variables,
            final(self).method == old(self).method,
            final(self).parent == old(self).parent,
            final(self).index == old(self).index,
    {
        self.registers.set_slice(values);
    }

    /// Returns the value of a single local variable.
    pub fn get_local(&self, index: LocalIndex) -> (r: Pointer)
        requires
            index.0 < self.variables.locals_view().len(),
        ensures
            r == self.variables.locals_view()[index.0 as int],
    {
        self.variables.get(index)
    }

    /// Sets the value of a single local variable.
    pub fn set_local(&mut self, index: LocalIndex, value: Pointer)
        requires
            index.0 < old(self).variables.locals_view().len(),
        ensures
            final(self).variables.locals_view() == old(self).variables.locals_view().update(
                index.0 as int,
                value,
            ),
            final(self).registers_view() == old(self).registers_view(),
            final(self).method == old(self).method,
            final(self).parent == old(self).parent,
            final(self).index == old(self).index,
    {
        self.variables.set(index, value);
    }

    /// Returns the value of a single global variable of `module`, the module
    /// of the method being run.
    pub fn get_global(&self, module: &Module, index: GlobalIndex) -> (r: Pointer)
        requires
            index.0 < module.globals_view().len(),
        ensures
            r == module.globals_view()[index.0 as int],
    {
        module.get_global(index)
    }

    /// Sets the value of a single global variable of `module`, the module of
    /// the method being run.
    pub fn set_global(&self, module: &mut Module, index: GlobalIndex, value: Pointer)
        requires
            index.0 < old(module).globals_view().len(),
        ensures
            final(module).globals_view() == old(module).globals_view().update(index.0 as int, value),
            final(module).class_view() == old(module).class_view(),
            final(module).classes_view() == old(module).classes_view(),
            final(module).path_view() == old(module).path_view(),
            final(module).literals_view() == old(module).literals_view(),
            final(module).executed_view() == old(module).executed_view(),
    {
        module.set_global(index, value);
    }

    /// Returns an iterator over this context and its parents.
    pub fn contexts<'b>(&'b self) -> (r: ExecutionContextIterator<'a, 'b>)
        ensures
            r.remaining() == self.chain(),
    {
        ExecutionContextIterator { current: Some(self) }
    }

    /// Returns this context followed by its parents, innermost first.
    pub fn context_list<'b>(&'b self) -> (r: Vec<&'b ExecutionContext<'a>>)
        ensures
            r@.len() == self.chain().len(),
            forall|i: int| 0 <= i < r@.len() ==> *(#[trigger] r@[i]) == self.chain()[i],
    {
        let mut iter = self.contexts();
        let mut list: Vec<&'b ExecutionContext<'a>> = Vec::new();
        loop
            invariant
                list@.len() + iter.remaining().len() == self.chain().len(),
                forall|i: int| 0 <= i < list@.len() ==> *(#[trigger] list@[i]) == self.chain()[i],
                forall|i: int|
                    0 <= i < iter.remaining().len() ==> iter.remaining()[i] == self.chain()[list@.len() + i],
            decreases iter.remaining().len(),
        {
            match iter.next() {
                Some(ctx) => {
                    list.push(ctx);
                },
                None => {
                    return list;
                },
            }
        }
    }
}

impl<'a, 'b> ExecutionContextIterator<'a, 'b> {
    /// The contexts that are still to be returned.
    pub closed spec fn remaining(&self) -> Seq<ExecutionContext<'a>> {
        match self.current {
            Some(ctx) => ctx.chain(),
            None => Seq::empty(),
        }
    }

    /// Returns the next context, and moves on to its parent.
    pub fn next(&mut self) -> (r: Option<&'b ExecutionContext<'a>>)
        ensures
            old(self).remaining().len() == 0 ==> r is None && final(self).remaining().len() == 0,
            old(self).remaining().len() > 0 ==> {
                &&& r is Some
                &&& *r->0 == old(self).remaining()[0]
                &&& final(self).remaining() == old(self).remaining().drop_first()
            },
    {
        match self.current {
            Some(ctx) => {
                match &ctx.parent {
                    Some(parent) => {
                        self.current = Some(&**parent);
                        assert(old(self).remaining().drop_first() =~= parent.chain());
                    },
                    None => {
                        self.current = None;
                        assert(old(self).remaining().drop_first() =~= Seq::<ExecutionContext<'a>>::empty());
                    },
                }
                Some(ctx)
            },
            None => None,
        }
    }
}

} // verus!
