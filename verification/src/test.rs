//! Helpers for setting up objects commonly needed when exercising the
//! virtual machine.
use vstd::prelude::*;
use crate::instruction::{Instruction, Opcode};
use crate::mem::allocator::{Allocator, BlockAllocator, BumpAllocator};
use crate::mem::objects::{
    Class,
    ClassPointer,
    Method,
    Module,
    ModulePointer,
    OwnedClass,
    OwnedModule,
    SERVER_SIZE,
};
use crate::mem::process::ServerPointer;

verus! {

/// A process that the owner is responsible for: servers normally drop
/// themselves when they finish running, so an unused one is dropped through
/// its owner.
pub struct OwnedServer(ServerPointer);

impl OwnedServer {
    /// The owned process.
    pub closed spec fn server_view(&self) -> ServerPointer {
        self.0
    }

    /// Returns the owner of a process.
    pub fn new(server: ServerPointer) -> (r: Self)
        ensures
            r.server_view() == server,
    {
        Self(server)
    }

    /// Returns the owned process.
    pub fn server(&self) -> (r: ServerPointer)
        ensures
            r == self.server_view(),
    {
        self.0
    }

    /// Returns the underlying process, giving up ownership of it.
    pub fn take_and_forget(self) -> (r: ServerPointer)
        ensures
            r == self.server_view(),
    {
        self.0
    }
}

/// Returns a new block allocator, and a bump allocator that allocates from
/// it.
pub fn bump_allocator() -> (r: (BlockAllocator, BumpAllocator))
    ensures
        r.0.wf(),
        r.1.allocator_wf(&r.0),
        r.1.heap().len() == 1,
{
    let mut blocks = BlockAllocator::new();
    let bump = BumpAllocator::new(&mut blocks);
    (blocks, bump)
}

/// Returns an empty module of class `class`: its source file is
/// "test.inko", it has no literals and two globals.
pub fn empty_module(class: OwnedClass) -> (r: OwnedModule)
    ensures
        r.module_view().wf(),
        r.module_view().class_view() == class.pointer_view(),
        r.module_view().classes_view() == seq![class],
        r.module_view().path_view() == "test.inko"@,
        r.module_view().literals_view().len() == 0,
        r.module_view().globals_view().len() == 2,
        !r.module_view().executed_view(),
{
    let module = Module::allocate(class, "test.inko".to_owned(), Vec::new(), 2);
    proof {
        reveal_strlit("test.inko");
    }
    OwnedModule::new(module)
}

/// Returns an empty method of module `module`: it is defined on line 4 of
/// "test.inko", takes no arguments, has two locals and two registers, and
/// only returns.
pub fn empty_method(module: ModulePointer, name: &str) -> (r: Method)
    ensures
        r.hash == 123,
        r.name@ == name@,
        r.file@ == "test.inko"@,
        r.line == 4,
        r.locals == 2,
        r.registers == 2,
        r.arguments@.len() == 0,
        r.instructions@.len() == 1,
        r.instructions@[0].opcode == Opcode::Return,
        r.instructions@[0].line == 4,
        r.module == module,
{
    let mut instructions: Vec<Instruction> = Vec::new();
    instructions.push(Instruction::new(Opcode::Return, [0, 0, 0, 0, 0, 0], 4));
    Method {
        hash: 123,
        name: name.to_owned(),
        file: "test.inko".to_owned(),
        line: 4,
        locals: 2,
        registers: 2,
        arguments: Vec::new(),
        instructions,
        module,
    }
}

/// Returns an empty class: no fields, no methods, and instances of size
/// zero, referred to by `pointer`.
pub fn empty_class(name: &str, pointer: ClassPointer) -> (r: OwnedClass)
    ensures
        r.pointer_view() == pointer,
        r.class_view().wf(),
        r.class_view().name_view() == name@,
        r.class_view().field_names().len() == 0,
        r.class_view().slots() == 0,
        r.class_view().size() == 0,
{
    OwnedClass::new(pointer, Class::allocate(name.to_owned(), Vec::new(), 0, 0))
}

/// Returns an empty process class: no fields and no methods, referred to by
/// `pointer`.
pub fn empty_process_class(name: &str, pointer: ClassPointer) -> (r: OwnedClass)
    ensures
        r.pointer_view() == pointer,
        r.class_view().wf(),
        r.class_view().name_view() == name@,
        r.class_view().field_names().len() == 0,
        r.class_view().slots() == 0,
        r.class_view().size() == SERVER_SIZE,
{
    let class = Class::process(name.to_owned(), Vec::new(), 0);
    OwnedClass::new(pointer, class)
}

} // verus!
