use libinko::execution_context::ExecutionContext;
use libinko::instruction::{Instruction, Opcode};
use libinko::mem::allocator::{BlockAllocator, BumpAllocator, Pointer};
use libinko::mem::generator::{Generator, GeneratorPointer, Status};
use libinko::mem::objects::{ClassPointer, Method, ModulePointer};
use libinko::vm::instructions::general::move_result;
use libinko::vm::instructions::module::current;

fn method(name: &str) -> Method {
    Method {
        hash: 123,
        name: name.to_string(),
        file: "test.inko".to_string(),
        line: 4,
        locals: 2,
        registers: 2,
        arguments: Vec::new(),
        instructions: vec![Instruction::new(Opcode::Return, [0; 6], 4)],
        module: ModulePointer::new(Pointer::new(0x8)),
    }
}

fn with_generator<'a, F: FnOnce(Generator<'a>)>(m: &'a Method, callback: F) {
    let mut blocks = BlockAllocator::new();
    let mut alloc = BumpAllocator::new(&mut blocks);
    let gen = Generator::allocate(
        &mut alloc,
        &mut blocks,
        ClassPointer::new(Pointer::new(0x10)),
        ExecutionContext::for_method(m),
    );

    callback(gen);
}

#[test]
fn test_generator_pointer_as_pointer() {
    let raw_ptr = Pointer::new(0x4);
    let ptr = GeneratorPointer::new(raw_ptr);

    assert_eq!(ptr.as_pointer(), raw_ptr);
}

#[test]
fn test_generator_new() {
    let m = method("foo");

    with_generator(&m, |gen| {
        assert_eq!(gen.status(), Status::Created);
        assert!(gen.parent.is_none());
        assert!(gen.result().is_none());
    });
}

#[test]
fn test_generator_push_context() {
    let m = method("foo");

    with_generator(&m, |mut gen| {
        let mut ctx2 = ExecutionContext::for_method(&m);

        ctx2.index = 2;

        gen.push_context(ctx2);

        assert_eq!(gen.context().index, 2);
        assert_eq!(gen.context().parent.as_ref().unwrap().index, 0);
    });
}

#[test]
fn test_generator_pop_context_without_parent() {
    let m = method("foo");

    with_generator(&m, |mut gen| {
        assert!(gen.pop_context());
        assert_eq!(gen.status(), Status::Finished);
    });
}

#[test]
fn test_generator_pop_context_with_parent() {
    let m = method("foo");

    with_generator(&m, |mut gen| {
        gen.push_context(ExecutionContext::for_method(&m));

        assert_eq!(gen.pop_context(), false);
        assert_eq!(gen.status(), Status::Created);
        assert_eq!(gen.pop_context(), true);
        assert_eq!(gen.status(), Status::Finished);
    });
}

#[test]
fn test_generator_contexts() {
    let m = method("foo");

    with_generator(&m, |mut gen| {
        let mut ctx2 = ExecutionContext::for_method(&m);

        ctx2.index = 4;

        gen.push_context(ctx2);

        let ctxs = gen.contexts();

        assert_eq!(ctxs.len(), 2);
        assert_eq!(ctxs[0].index, 4);
        assert_eq!(ctxs[1].index, 0);
    });
}

#[test]
fn test_generator_resume() {
    let m = method("foo");

    with_generator(&m, |mut gen| {
        assert!(gen.resume());
        assert_eq!(gen.status(), Status::Running);

        gen.set_yield_value(Pointer::integer(1));

        assert!(gen.yielded());
        assert!(gen.resume());
        assert_eq!(gen.status(), Status::Running);

        gen.finish();

        assert!(!gen.resume());
        assert_eq!(gen.status(), Status::Finished);
    });
}

#[test]
fn test_generator_set_throw_value() {
    let m = method("foo");

    with_generator(&m, |mut gen| {
        let value = Pointer::integer(42);

        assert!(!gen.thrown());

        gen.set_throw_value(value);

        assert_eq!(gen.status(), Status::Thrown);
        assert!(gen.thrown());
        assert_eq!(gen.result(), Some(value));
        assert!(!gen.resume());
    });
}

#[test]
fn test_generator_finish() {
    let m = method("foo");

    with_generator(&m, |mut gen| {
        gen.finish();

        assert_eq!(gen.status(), Status::Finished);
    });
}

#[test]
fn test_generator_yielded() {
    let m = method("foo");

    with_generator(&m, |mut gen| {
        assert!(!gen.yielded());

        gen.set_yield_value(Pointer::integer(1));

        assert!(gen.yielded());
    });
}

#[test]
fn test_generator_thrown() {
    let m = method("foo");

    with_generator(&m, |mut gen| {
        assert!(!gen.thrown());

        gen.set_throw_value(Pointer::integer(1));

        assert!(gen.thrown());
    });
}

#[test]
fn test_generator_set_yield_value() {
    let m = method("foo");

    with_generator(&m, |mut gen| {
        let value = Pointer::integer(42);

        gen.set_yield_value(value);

        assert_eq!(gen.status(), Status::Yielded);
        assert_eq!(gen.result(), Some(value));
    });
}

#[test]
fn test_generator_set_result() {
    let m = method("foo");

    with_generator(&m, |mut gen| {
        let value = Pointer::integer(42);

        gen.set_result(value);

        assert_eq!(gen.status(), Status::Created);
        assert_eq!(gen.result(), Some(value));
    });
}

#[test]
fn test_generator_take_result() {
    let m = method("foo");

    with_generator(&m, |mut gen| {
        let value = Pointer::integer(42);

        gen.set_result(value);

        assert_eq!(gen.take_result(), Some(value));
        assert!(gen.result().is_none());
    });
}

#[test]
fn test_generator_result() {
    let m = method("foo");

    with_generator(&m, |mut gen| {
        let value = Pointer::integer(42);

        assert!(gen.result().is_none());

        gen.set_result(value);

        assert_eq!(gen.result(), Some(value));
    });
}

#[test]
fn test_move_result() {
    let m = method("foo");

    with_generator(&m, |mut gen| {
        gen.set_result(Pointer::integer(7));

        assert_eq!(move_result(&mut gen), Ok(Pointer::integer(7)));
        assert_eq!(
            move_result(&mut gen),
            Err("The last instruction didn't produce a result".to_string())
        );
    });
}

#[test]
fn test_current_module() {
    let m = method("foo");

    with_generator(&m, |gen| {
        assert_eq!(current(&gen), Pointer::new(0x8));
    });
}
