use libinko::mem::allocator::Pointer;
use libinko::mem::objects::ClassPointer;
use libinko::mem::process::ServerPointer;
use libinko::scheduler::process_worker::Mode;
use libinko::instruction::Opcode;
use libinko::mem::allocator::Allocator;
use libinko::mem::objects::ModulePointer;
use libinko::test::{
    bump_allocator, empty_class, empty_method, empty_module, empty_process_class, OwnedServer,
};

#[test]
fn test_owned_server_take_and_forget() {
    let server = ServerPointer::new(Pointer::new(0x40));
    let owned = OwnedServer::new(server);

    assert_eq!(owned.server(), server);
    assert_eq!(owned.take_and_forget(), server);
}

#[test]
fn test_empty_classes() {
    let class = empty_class("A", ClassPointer::new(Pointer::new(0x10)));
    let process = empty_process_class("B", ClassPointer::new(Pointer::new(0x20)));

    assert_eq!(class.class().name(), "A");
    assert_eq!(class.class().instance_size(), 0);
    assert_eq!(process.class().name(), "B");
    assert_eq!(process.class().instance_size(), 40);
    assert_eq!(process.pointer().as_pointer(), Pointer::new(0x20));
}

#[test]
fn test_worker_modes_differ() {
    assert_ne!(Mode::Normal, Mode::Exclusive);
}

#[test]
fn test_bump_allocator_helper() {
    let (mut blocks, mut alloc) = bump_allocator();
    let first = alloc.allocate(&mut blocks, 8);
    let second = alloc.allocate(&mut blocks, 8);

    assert_eq!(second.as_ptr(), first.as_ptr() + 8);
}

#[test]
fn test_empty_module_and_method() {
    let class = empty_class("A", ClassPointer::new(Pointer::new(0x10)));
    let module = empty_module(class);
    let method = empty_method(ModulePointer::new(Pointer::new(0x8)), "foo");

    assert_eq!(module.module().name(), "A");
    assert_eq!(module.module().source_path(), "test.inko");
    assert_eq!(module.module().class().as_pointer(), Pointer::new(0x10));
    assert_eq!(method.name, "foo");
    assert_eq!(method.file, "test.inko");
    assert_eq!(method.line, 4);
    assert_eq!(method.instructions[0].opcode, Opcode::Return);
    assert_eq!(method.module.as_pointer(), Pointer::new(0x8));
}
