use libinko::execution_context::ExecutionContext;
use libinko::instruction::{Instruction, Opcode};
use libinko::mem::allocator::{BlockAllocator, BumpAllocator, Pointer};
use libinko::mem::generator::{Generator, Status};
use libinko::mem::objects::{
    ByteArray, Class, ClassPointer, Header, Int, Method, ModulePointer, Object, OwnedClass,
    String as InkoString, UnsignedInt,
};
use libinko::mem::permanent_space::{MethodCounts, PermanentSpace};
use libinko::mem::process::{FutureState, ProcessState, Server, ServerPointer};
use libinko::runtime_error::RuntimeError;
use libinko::scheduler::process_worker::Mode;
use libinko::vm::instructions::array::{allocate as array_allocate, length as array_length};
use libinko::vm::instructions::byte_array::{
    allocate as byte_array_allocate,
    equals as byte_array_equals,
    length as byte_array_length,
};
use libinko::vm::instructions::future::get;
use libinko::vm::instructions::generator::{resume, value};
use libinko::vm::instructions::module::load;
use libinko::indexes::MethodIndex;
use libinko::vm::instructions::general::{decrement_ref, get_literal_wide, increment_ref};
use libinko::vm::instructions::string::{
    equals as string_equals,
    length as string_length,
    size as string_size,
};
use libinko::vm::instructions::object::{
    dynamic_call, equals, get_class, get_field, set_field, static_call,
};
use libinko::vm::instructions::process::{
    allocate as process_allocate, finish_generator, send_message, set_blocking, set_pinned,
    FinishAction, MessageAction,
};
use libinko::indexes::FieldIndex;

fn method(name: &str) -> Method {
    Method {
        hash: 123,
        name: name.to_string(),
        file: "test.inko".to_string(),
        line: 4,
        locals: 2,
        registers: 2,
        arguments: Vec::new(),
        instructions: vec![Instruction::new(Opcode::Return, [0; 6], 4)],
        module: ModulePointer::new(Pointer::new(0x8)),
    }
}

const TRUE: u64 = 0x100;
const FALSE: u64 = 0x200;
const UNDEFINED: u64 = 0x300;

fn ptr(raw: u64) -> Pointer {
    Pointer::new(raw)
}

#[test]
fn test_resume_generator_instruction() {
    let mut blocks = BlockAllocator::new();
    let mut alloc = BumpAllocator::new(&mut blocks);
    let class = ClassPointer::new(Pointer::new(0x10));
    let description = Class::process("A".to_string(), Vec::new(), 0);
    let (_, mut server) = Server::allocate(&mut alloc, &mut blocks, class, &description);
    let m = method("foo");
    let gen = Generator::allocate(&mut alloc, &mut blocks, class, ExecutionContext::for_method(&m));

    assert!(resume(&mut server, gen).is_ok());
    assert_eq!(server.generator().unwrap().status(), Status::Running);

    let mut finished =
        Generator::allocate(&mut alloc, &mut blocks, class, ExecutionContext::for_method(&m));

    finished.finish();

    let (message, back) = resume(&mut server, finished).err().unwrap();

    assert_eq!(message, "Finished generators can't be resumed");
    assert_eq!(back.status(), Status::Finished);
}

#[test]
fn test_generator_value_instruction() {
    let mut blocks = BlockAllocator::new();
    let mut alloc = BumpAllocator::new(&mut blocks);
    let class = ClassPointer::new(Pointer::new(0x10));
    let m = method("foo");
    let mut gen =
        Generator::allocate(&mut alloc, &mut blocks, class, ExecutionContext::for_method(&m));

    assert_eq!(
        value(&gen, ptr(UNDEFINED)),
        Err(RuntimeError::ErrorMessage(
            "The generator's result has already been consumed".to_string()
        ))
    );

    gen.set_yield_value(Pointer::integer(4));
    assert_eq!(value(&gen, ptr(UNDEFINED)), Ok(Pointer::integer(4)));

    gen.set_throw_value(Pointer::integer(5));
    assert_eq!(value(&gen, ptr(UNDEFINED)), Err(RuntimeError::Error(Pointer::integer(5))));

    gen.finish();
    assert_eq!(value(&gen, ptr(UNDEFINED)), Ok(ptr(UNDEFINED)));
}

#[test]
fn test_future_get_instruction() {
    let process = ServerPointer::new(Pointer::new(0x40));
    let mut future = FutureState::new();
    let mut state = ProcessState::new();
    let mut other = ProcessState::new();

    assert_eq!(get(process, &mut state, &mut future), Ok(None));
    assert!(state.status().is_waiting_for_future());

    future.write(Pointer::integer(3), false, &mut other);
    assert_eq!(get(process, &mut state, &mut future), Ok(Some(Pointer::integer(3))));
    assert!(!state.status().is_waiting_for_future());

    future.write(Pointer::integer(6), true, &mut other);
    assert_eq!(
        get(process, &mut state, &mut future),
        Err(RuntimeError::Error(Pointer::integer(6)))
    );
}

#[test]
fn test_set_blocking_instruction() {
    let mut blocks = BlockAllocator::new();
    let mut alloc = BumpAllocator::new(&mut blocks);
    let class = ClassPointer::new(Pointer::new(0x10));
    let description = Class::process("A".to_string(), Vec::new(), 0);
    let (_, mut server) = Server::allocate(&mut alloc, &mut blocks, class, &description);

    assert_eq!(set_blocking(&mut server, ptr(FALSE), ptr(TRUE), ptr(FALSE)), ptr(FALSE));
    assert_eq!(set_blocking(&mut server, ptr(TRUE), ptr(TRUE), ptr(FALSE)), ptr(TRUE));
    assert!(server.is_blocking());
    assert_eq!(set_blocking(&mut server, ptr(TRUE), ptr(TRUE), ptr(FALSE)), ptr(FALSE));
    assert_eq!(set_blocking(&mut server, ptr(FALSE), ptr(TRUE), ptr(FALSE)), ptr(TRUE));
    assert!(!server.is_blocking());

    server.pin_to_thread(1);

    assert_eq!(set_blocking(&mut server, ptr(TRUE), ptr(TRUE), ptr(FALSE)), ptr(FALSE));
    assert!(!server.is_blocking());
}

#[test]
fn test_set_pinned_instruction() {
    let mut blocks = BlockAllocator::new();
    let mut alloc = BumpAllocator::new(&mut blocks);
    let class = ClassPointer::new(Pointer::new(0x10));
    let description = Class::process("A".to_string(), Vec::new(), 0);
    let (_, mut server) = Server::allocate(&mut alloc, &mut blocks, class, &description);

    assert_eq!(set_pinned(&mut server, 3, ptr(TRUE), ptr(TRUE), ptr(FALSE)), (ptr(TRUE), Mode::Exclusive));
    assert_eq!(server.thread_id(), Some(3));
    assert_eq!(set_pinned(&mut server, 4, ptr(TRUE), ptr(TRUE), ptr(FALSE)), (ptr(FALSE), Mode::Exclusive));
    assert_eq!(server.thread_id(), Some(3));
    assert_eq!(set_pinned(&mut server, 4, ptr(FALSE), ptr(TRUE), ptr(FALSE)), (ptr(FALSE), Mode::Normal));
    assert_eq!(server.thread_id(), None);
}

#[test]
fn test_object_field_instructions() {
    let mut blocks = BlockAllocator::new();
    let mut alloc = BumpAllocator::new(&mut blocks);
    let class = OwnedClass::new(
        ClassPointer::new(Pointer::new(0x10)),
        Class::object("A".to_string(), vec!["@a".to_string(), "@b".to_string()], 0),
    );
    let (_, mut object) = Object::allocate(&mut alloc, &mut blocks, &class);

    assert_eq!(get_field(&object, 1), Pointer::new(0));

    set_field(&mut object, 1, Pointer::integer(7));

    assert_eq!(get_field(&object, 1), Pointer::integer(7));

    // Only the lowest eight bits of the index count.
    assert_eq!(get_field(&object, 257), Pointer::integer(7));
}

#[test]
fn test_object_class_and_equals_instructions() {
    let perm = PermanentSpace::new(MethodCounts::default());
    let header = Header { class: ClassPointer::new(Pointer::new(0x50)), references: 0 };

    assert_eq!(get_class(&perm, Pointer::integer(1), &header), perm.int_class().as_pointer());
    assert_eq!(
        get_class(&perm, Pointer::unsigned_int(1), &header),
        perm.unsigned_int_class().as_pointer()
    );
    assert_eq!(get_class(&perm, Pointer::new(0x60), &header), Pointer::new(0x50));
    assert_eq!(equals(&perm, Pointer::new(0x60), Pointer::new(0x60)), perm.true_singleton);
    assert_eq!(equals(&perm, Pointer::new(0x60), Pointer::new(0x68)), perm.false_singleton);
}

#[test]
fn test_load_module_instruction() {
    let mut blocks = BlockAllocator::new();
    let mut alloc = BumpAllocator::new(&mut blocks);
    let mut perm = PermanentSpace::new(MethodCounts::default());
    let class = OwnedClass::new(
        ClassPointer::new(Pointer::new(0x10)),
        Class::object("main".to_string(), Vec::new(), 0),
    );
    let module = perm.allocate_module(class, "main.inko".to_string(), Vec::new(), 0);
    let string_class = perm.string_class();

    perm.add_modules(vec![module]);

    let true_singleton = perm.true_singleton;
    let false_singleton = perm.false_singleton;
    let (_, name) = InkoString::allocate(&mut alloc, &mut blocks, string_class, "main".to_string());
    let (module, execute) = load(&mut perm, &name).unwrap();

    assert_eq!(module.source_path(), "main.inko");
    assert_eq!(execute, true_singleton);

    let (_, execute) = load(&mut perm, &name).unwrap();

    assert_eq!(execute, false_singleton);

    let (_, missing) = InkoString::allocate(&mut alloc, &mut blocks, string_class, "foo".to_string());

    assert_eq!(load(&mut perm, &missing).err().unwrap(), "The module foo doesn't exist");
}

#[test]
fn test_static_call_instruction() {
    let mut blocks = BlockAllocator::new();
    let mut alloc = BumpAllocator::new(&mut blocks);
    let m = method("foo");
    let mut class = Class::object("A".to_string(), Vec::new(), 2);

    class.set_method(MethodIndex::new(1), method("bar"));

    let mut ctx = ExecutionContext::for_method(&m);

    ctx.set_registers(&[Pointer::integer(5), Pointer::integer(6)]);

    let mut gen = Generator::allocate(&mut alloc, &mut blocks, ClassPointer::new(Pointer::new(0x10)), ctx);

    static_call(&class, &mut gen, 1, 1, 1);

    assert_eq!(gen.context().name(), "bar");
    assert_eq!(gen.context().get_register(0), Pointer::integer(6));
    assert_eq!(gen.context().parent.as_ref().unwrap().name(), "foo");
}

#[test]
fn test_dynamic_call_instruction() {
    let mut blocks = BlockAllocator::new();
    let mut alloc = BumpAllocator::new(&mut blocks);
    let m = method("foo");
    let mut class = Class::object("A".to_string(), Vec::new(), 4);
    let mut bar = method("bar");

    bar.hash = 0x0001_0002;
    class.set_method(MethodIndex::new(2), bar);

    let mut ctx = ExecutionContext::for_method(&m);

    ctx.set_registers(&[Pointer::integer(5), Pointer::integer(6)]);

    let mut gen = Generator::allocate(&mut alloc, &mut blocks, ClassPointer::new(Pointer::new(0x10)), ctx);

    dynamic_call(&class, &mut gen, 1, 2, 0, 2);

    assert_eq!(gen.context().name(), "bar");
    assert_eq!(gen.context().get_register(1), Pointer::integer(6));
}

#[test]
fn test_reference_counting_instructions() {
    let mut header = Header { class: ClassPointer::new(Pointer::new(0x10)), references: 0 };

    increment_ref(Pointer::new(0x80), &mut header);
    increment_ref(Pointer::new(0x80), &mut header);
    assert_eq!(header.references, 2);

    // Tagged integers aren't counted.
    increment_ref(Pointer::integer(4), &mut header);
    assert_eq!(header.references, 2);

    decrement_ref(Pointer::new(0x80), &mut header);
    assert_eq!(header.references, 1);
}

#[test]
fn test_get_literal_wide_instruction() {
    let class = OwnedClass::new(
        ClassPointer::new(Pointer::new(0x10)),
        Class::object("main".to_string(), Vec::new(), 0),
    );
    let mut literals = Vec::new();

    for i in 0..65538 {
        literals.push(Pointer::integer(i));
    }

    let module = libinko::mem::objects::Module::allocate(class, "main.inko".to_string(), literals, 0);

    assert_eq!(get_literal_wide(&module, 1, 1), Pointer::integer(65537));
    assert_eq!(get_literal_wide(&module, 0, 3), Pointer::integer(3));
}

#[test]
fn test_string_equals_instruction() {
    let mut blocks = BlockAllocator::new();
    let mut alloc = BumpAllocator::new(&mut blocks);
    let mut perm = PermanentSpace::new(MethodCounts::default());
    let class = perm.string_class();
    let (a_ptr, a) = InkoString::allocate(&mut alloc, &mut blocks, class, "inko".to_string());
    let (b_ptr, b) = InkoString::allocate(&mut alloc, &mut blocks, class, "inko".to_string());
    let (c_ptr, c) = InkoString::allocate(&mut alloc, &mut blocks, class, "other".to_string());

    assert_eq!(string_equals(&perm, a_ptr, &a, b_ptr, &b), perm.true_singleton);
    assert_eq!(string_equals(&perm, a_ptr, &a, c_ptr, &c), perm.false_singleton);

    // Permanent strings are compared by identity.
    let p1 = perm.allocate_string("inko".to_string());
    let p2 = perm.allocate_string("other".to_string());

    assert_eq!(string_equals(&perm, p1, &a, p2, &b), perm.false_singleton);
    assert_eq!(string_equals(&perm, p1, &a, p1, &c), perm.true_singleton);
}

#[test]
fn test_string_length_and_size_instructions() {
    let mut blocks = BlockAllocator::new();
    let mut alloc = BumpAllocator::new(&mut blocks);
    let perm = PermanentSpace::new(MethodCounts::default());
    let int_class = perm.int_class();
    let (_, ascii) =
        InkoString::allocate(&mut alloc, &mut blocks, perm.string_class(), "inko".to_string());
    let (_, accented) =
        InkoString::allocate(&mut alloc, &mut blocks, perm.string_class(), "héllo".to_string());

    let (ptr, boxed) = string_length(&mut alloc, &mut blocks, int_class, &ascii);
    assert_eq!(Int::read(ptr, &boxed), 4);
    let (ptr, boxed) = string_size(&mut alloc, &mut blocks, int_class, &ascii);
    assert_eq!(Int::read(ptr, &boxed), 4);

    let (ptr, boxed) = string_length(&mut alloc, &mut blocks, int_class, &accented);
    assert_eq!(Int::read(ptr, &boxed), 5);
    let (ptr, boxed) = string_size(&mut alloc, &mut blocks, int_class, &accented);
    assert_eq!(Int::read(ptr, &boxed), 6);
}

#[test]
fn test_string_concat_instruction() {
    let mut blocks = BlockAllocator::new();
    let mut alloc = BumpAllocator::new(&mut blocks);
    let perm = PermanentSpace::new(MethodCounts::default());
    let class = perm.string_class();
    let (_, a) = InkoString::allocate(&mut alloc, &mut blocks, class, "foo".to_string());
    let (_, b) = InkoString::allocate(&mut alloc, &mut blocks, class, "".to_string());
    let (_, c) = InkoString::allocate(&mut alloc, &mut blocks, class, "bär".to_string());

    let (_, joined) = libinko::vm::instructions::string::concat(&mut alloc, &mut blocks, class, &[&a, &b, &c]);
    assert_eq!(joined.value(), "foobär");

    let (_, empty) = libinko::vm::instructions::string::concat(&mut alloc, &mut blocks, class, &[]);
    assert_eq!(empty.value(), "");
}

#[test]
fn test_array_instructions() {
    let mut blocks = BlockAllocator::new();
    let mut alloc = BumpAllocator::new(&mut blocks);
    let perm = PermanentSpace::new(MethodCounts::default());
    let mut m = method("foo");
    m.registers = 3;
    let mut context = ExecutionContext::for_method(&m);
    context.set_register(0, Pointer::integer(1));
    context.set_register(1, Pointer::integer(2));
    context.set_register(2, Pointer::integer(3));
    let gen = Generator::allocate(&mut alloc, &mut blocks, perm.generator_class(), context);

    let (_, array) = array_allocate(&mut alloc, &mut blocks, perm.array_class(), &gen, 1, 2);
    assert_eq!(array.value(), &vec![Pointer::integer(2), Pointer::integer(3)]);

    let (ptr, boxed) = array_length(&mut alloc, &mut blocks, perm.int_class(), &array);
    assert_eq!(Int::read(ptr, &boxed), 2);
}

#[test]
fn test_byte_array_instructions() {
    let mut blocks = BlockAllocator::new();
    let mut alloc = BumpAllocator::new(&mut blocks);
    let perm = PermanentSpace::new(MethodCounts::default());
    let mut m = method("foo");
    m.registers = 2;
    let mut context = ExecutionContext::for_method(&m);
    context.set_register(0, Pointer::unsigned_int(10));
    context.set_register(1, Pointer::unsigned_int(300));
    let gen = Generator::allocate(&mut alloc, &mut blocks, perm.generator_class(), context);
    let class = perm.byte_array_class();

    let (_, bytes) =
        byte_array_allocate(&mut alloc, &mut blocks, class, &gen, 0, 2, &[None, None]);
    assert_eq!(bytes.value(), &vec![10, 44]);

    let (ptr, boxed) = byte_array_length(&mut alloc, &mut blocks, perm.int_class(), &bytes);
    assert_eq!(UnsignedInt::read(ptr, &boxed), 2);

    let (_, same) =
        ByteArray::allocate(&mut alloc, &mut blocks, class, vec![10, 44]);
    let (_, other) =
        ByteArray::allocate(&mut alloc, &mut blocks, class, vec![10, 45]);
    let (_, shorter) = ByteArray::allocate(&mut alloc, &mut blocks, class, vec![10]);

    assert_eq!(byte_array_equals(&perm, &bytes, &same), perm.true_singleton);
    assert_eq!(byte_array_equals(&perm, &bytes, &other), perm.false_singleton);
    assert_eq!(byte_array_equals(&perm, &bytes, &shorter), perm.false_singleton);
}

#[test]
fn test_process_allocate_instruction() {
    let mut blocks = BlockAllocator::new();
    let mut alloc = BumpAllocator::new(&mut blocks);
    let perm = PermanentSpace::new(MethodCounts::default());
    let description =
        Class::process("A".to_string(), vec!["@a".to_string(), "@b".to_string()], 0);
    let server_class = ClassPointer::new(Pointer::new(0x10));
    let mut m = method("foo");
    m.registers = 3;
    let mut context = ExecutionContext::for_method(&m);
    context.set_register(1, Pointer::integer(7));
    context.set_register(2, Pointer::integer(8));
    let gen = Generator::allocate(&mut alloc, &mut blocks, perm.generator_class(), context);

    let (_, client, server_ptr, server) = process_allocate(
        &mut alloc,
        &mut blocks,
        perm.client_class(),
        server_class,
        &description,
        &gen,
        1,
        2,
    );

    assert_eq!(client.server(), server_ptr);
    assert_eq!(server.get(FieldIndex::new(0)), Pointer::integer(7));
    assert_eq!(server.get(FieldIndex::new(1)), Pointer::integer(8));
    assert_eq!(server.state().clients(), 1);
}

#[test]
fn test_send_message_and_finish_generator_instructions() {
    let mut blocks = BlockAllocator::new();
    let mut alloc = BumpAllocator::new(&mut blocks);
    let perm = PermanentSpace::new(MethodCounts::default());
    let class = ClassPointer::new(Pointer::new(0x10));
    let mut description = Class::process("A".to_string(), Vec::new(), 1);
    description.set_method(MethodIndex::new(0), method("foo"));
    let (_, mut server) = Server::allocate(&mut alloc, &mut blocks, class, &description);
    let mut m = method("main");
    m.registers = 2;
    let mut context = ExecutionContext::for_method(&m);
    context.set_register(1, Pointer::integer(5));
    let gen = Generator::allocate(&mut alloc, &mut blocks, perm.generator_class(), context);

    // Without pending work and without clients the process terminates.
    assert_eq!(
        finish_generator(&mut server),
        FinishAction::Terminate { leave_exclusive_mode: false, exit: false }
    );

    // A process that isn't waiting for a message isn't rescheduled.
    assert_eq!(send_message(&gen, &mut server, &description, 0, 1, 1), MessageAction::Nothing);
    assert_eq!(finish_generator(&mut server), FinishAction::Schedule);

    let _ = server.state_mut().receive();
    server.state_mut().add_client();
    assert_eq!(finish_generator(&mut server), FinishAction::Wait);

    // Now that it waits for a message, the sender reschedules it.
    assert_eq!(send_message(&gen, &mut server, &description, 0, 1, 1), MessageAction::Schedule);
    let message = server.state_mut().receive().unwrap();
    assert_eq!(message.inner().arguments, vec![Pointer::integer(5)]);
}

#[test]
fn test_finish_generator_of_pinned_main_process() {
    let mut blocks = BlockAllocator::new();
    let mut alloc = BumpAllocator::new(&mut blocks);
    let class = ClassPointer::new(Pointer::new(0x10));
    let description = Class::process("A".to_string(), Vec::new(), 0);
    let (_, mut server) = Server::allocate(&mut alloc, &mut blocks, class, &description);

    server.set_main();
    server.pin_to_thread(2);

    assert_eq!(
        finish_generator(&mut server),
        FinishAction::Terminate { leave_exclusive_mode: true, exit: true }
    );
}
