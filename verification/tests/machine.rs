use libinko::execution_context::ExecutionContext;
use libinko::instruction::{Instruction, Opcode};
use libinko::mem::allocator::{BlockAllocator, BumpAllocator, Pointer};
use libinko::mem::generator::{Generator, Status};
use libinko::mem::permanent_space::{MethodCounts, PermanentSpace};
use libinko::mem::objects::{ClassPointer, Method, ModulePointer};
use libinko::vm::machine::{panic_message, step, step_in_module, Action};
use libinko::test::empty_class;

fn method(name: &str, file: &str, line: u16) -> Method {
    Method {
        hash: 1,
        name: name.to_string(),
        file: file.to_string(),
        line,
        locals: 0,
        registers: 1,
        arguments: Vec::new(),
        instructions: vec![Instruction::new(Opcode::Return, [0; 6], line)],
        module: ModulePointer::new(Pointer::new(0x8)),
    }
}

#[test]
fn test_panic_message() {
    let mut blocks = BlockAllocator::new();
    let mut alloc = BumpAllocator::new(&mut blocks);
    let class = ClassPointer::new(Pointer::new(0x10));
    let main = method("main", "main.inko", 3);
    let helper = method("helper", "lib/helper.inko", 12);
    let mut gen =
        Generator::allocate(&mut alloc, &mut blocks, class, ExecutionContext::for_method(&main));

    assert_eq!(
        panic_message(&gen, 42, "oops"),
        "Stack trace (the most recent call comes last):\n  0: \"main.inko\" line 3, in \"main\"\nProcess 0x2a panicked: oops"
    );

    gen.push_context(ExecutionContext::for_method(&helper));

    assert_eq!(
        panic_message(&gen, 0xdead_beef, "division by zero"),
        "Stack trace (the most recent call comes last):\n  0: \"main.inko\" line 3, in \"main\"\n  1: \"lib/helper.inko\" line 12, in \"helper\"\nProcess 0xdeadbeef panicked: division by zero"
    );
}

fn code(name: &str, instructions: Vec<Instruction>) -> Method {
    Method {
        hash: 1,
        name: name.to_string(),
        file: "main.inko".to_string(),
        line: 1,
        locals: 1,
        registers: 3,
        arguments: Vec::new(),
        instructions,
        module: ModulePointer::new(Pointer::new(0x8)),
    }
}

fn ins(opcode: Opcode, a: u16, b: u16) -> Instruction {
    Instruction::new(opcode, [a, b, 0, 0, 0, 0], 1)
}

fn continues(action: Action) -> bool {
    matches!(action, Action::Continue)
}

#[test]
fn test_step_registers_locals_and_jumps() {
    let mut blocks = BlockAllocator::new();
    let mut alloc = BumpAllocator::new(&mut blocks);
    let perm = PermanentSpace::new(MethodCounts::default());
    let m = code(
        "main",
        vec![
            ins(Opcode::GetTrue, 0, 0),
            ins(Opcode::GotoIfTrue, 3, 0),
            ins(Opcode::GetNil, 2, 0),
            ins(Opcode::SetLocal, 0, 0),
            ins(Opcode::GetFalse, 1, 0),
            ins(Opcode::GotoIfFalse, 7, 1),
            ins(Opcode::GetUndefined, 2, 0),
            ins(Opcode::GetLocal, 2, 0),
            ins(Opcode::CopyRegister, 1, 2),
            ins(Opcode::GetCurrentModule, 0, 0),
            ins(Opcode::Goto, 0, 0),
        ],
    );
    let mut gen = Generator::allocate(
        &mut alloc,
        &mut blocks,
        perm.generator_class(),
        ExecutionContext::for_method(&m),
    );
    let mut reductions = 10;

    assert!(continues(step(&perm, &mut gen, &mut reductions)));
    assert_eq!(gen.context().get_register(0), perm.true_singleton);
    assert!(continues(step(&perm, &mut gen, &mut reductions)));
    assert_eq!(gen.context().index, 3);
    assert!(continues(step(&perm, &mut gen, &mut reductions)));
    assert_eq!(gen.context().get_local(libinko::indexes::LocalIndex::new(0)), perm.true_singleton);
    assert!(continues(step(&perm, &mut gen, &mut reductions)));
    assert_eq!(gen.context().get_register(1), perm.false_singleton);
    assert!(continues(step(&perm, &mut gen, &mut reductions)));
    assert_eq!(gen.context().index, 7);
    assert!(continues(step(&perm, &mut gen, &mut reductions)));
    assert_eq!(gen.context().get_register(2), perm.true_singleton);
    assert!(continues(step(&perm, &mut gen, &mut reductions)));
    assert_eq!(gen.context().get_register(1), perm.true_singleton);
    assert!(continues(step(&perm, &mut gen, &mut reductions)));
    assert_eq!(gen.context().get_register(0), Pointer::new(0x8));
    assert!(continues(step(&perm, &mut gen, &mut reductions)));
    assert_eq!(gen.context().index, 0);
    assert_eq!(reductions, 10);
}

#[test]
fn test_step_leaves_other_instructions_to_their_handlers() {
    let mut blocks = BlockAllocator::new();
    let mut alloc = BumpAllocator::new(&mut blocks);
    let perm = PermanentSpace::new(MethodCounts::default());
    let m = code("main", vec![ins(Opcode::IntAdd, 0, 1)]);
    let mut gen = Generator::allocate(
        &mut alloc,
        &mut blocks,
        perm.generator_class(),
        ExecutionContext::for_method(&m),
    );
    let mut reductions = 10;

    assert!(matches!(
        step(&perm, &mut gen, &mut reductions),
        Action::Handler(Opcode::IntAdd)
    ));
    assert_eq!(gen.context().index, 0);
}

#[test]
fn test_step_return() {
    let mut blocks = BlockAllocator::new();
    let mut alloc = BumpAllocator::new(&mut blocks);
    let perm = PermanentSpace::new(MethodCounts::default());
    let outer = code("main", vec![ins(Opcode::MoveResult, 1, 0), ins(Opcode::Return, 1, 0)]);
    let inner = code("helper", vec![ins(Opcode::GetNil, 0, 0), ins(Opcode::Return, 0, 0)]);
    let mut gen = Generator::allocate(
        &mut alloc,
        &mut blocks,
        perm.generator_class(),
        ExecutionContext::for_method(&outer),
    );
    let mut reductions = 1;

    gen.push_context(ExecutionContext::for_method(&inner));

    assert!(continues(step(&perm, &mut gen, &mut reductions)));
    assert!(continues(step(&perm, &mut gen, &mut reductions)));
    assert_eq!(reductions, 0);
    assert_eq!(gen.context().name(), "main");
    assert_eq!(gen.result(), Some(perm.nil_singleton));

    assert!(continues(step(&perm, &mut gen, &mut reductions)));
    assert_eq!(gen.context().get_register(1), perm.nil_singleton);
    assert_eq!(gen.result(), None);

    assert!(matches!(step(&perm, &mut gen, &mut reductions), Action::Finished));
    assert_eq!(gen.status(), Status::Finished);
    assert_eq!(gen.result(), Some(perm.nil_singleton));
}

#[test]
fn test_step_return_without_reductions() {
    let mut blocks = BlockAllocator::new();
    let mut alloc = BumpAllocator::new(&mut blocks);
    let perm = PermanentSpace::new(MethodCounts::default());
    let outer = code("main", vec![ins(Opcode::Return, 0, 0)]);
    let inner = code("helper", vec![ins(Opcode::Return, 0, 0)]);
    let mut gen = Generator::allocate(
        &mut alloc,
        &mut blocks,
        perm.generator_class(),
        ExecutionContext::for_method(&outer),
    );
    let mut reductions = 0;

    gen.push_context(ExecutionContext::for_method(&inner));

    assert!(matches!(step(&perm, &mut gen, &mut reductions), Action::Reschedule));
    assert_eq!(gen.context().name(), "main");
}

#[test]
fn test_step_throw_and_move_result() {
    let mut blocks = BlockAllocator::new();
    let mut alloc = BumpAllocator::new(&mut blocks);
    let perm = PermanentSpace::new(MethodCounts::default());
    let outer = code(
        "main",
        vec![
            ins(Opcode::GotoIfThrown, 2, 0),
            ins(Opcode::GetNil, 0, 0),
            ins(Opcode::MoveResult, 0, 0),
            ins(Opcode::MoveResult, 0, 0),
            ins(Opcode::Throw, 0, 0),
        ],
    );
    let inner = code("helper", vec![ins(Opcode::GetTrue, 0, 0), ins(Opcode::Throw, 0, 0)]);
    let mut gen = Generator::allocate(
        &mut alloc,
        &mut blocks,
        perm.generator_class(),
        ExecutionContext::for_method(&outer),
    );
    let mut reductions = 10;

    gen.push_context(ExecutionContext::for_method(&inner));

    assert!(continues(step(&perm, &mut gen, &mut reductions)));
    assert!(continues(step(&perm, &mut gen, &mut reductions)));
    assert_eq!(gen.status(), Status::Thrown);
    assert_eq!(gen.context().name(), "main");

    assert!(continues(step(&perm, &mut gen, &mut reductions)));
    assert_eq!(gen.context().index, 2);
    assert!(continues(step(&perm, &mut gen, &mut reductions)));
    assert_eq!(gen.context().get_register(0), perm.true_singleton);

    match step(&perm, &mut gen, &mut reductions) {
        Action::Panic(message) => {
            assert_eq!(message, "The last instruction didn't produce a result")
        }
        _ => panic!("expected a panic"),
    }

    match step(&perm, &mut gen, &mut reductions) {
        Action::Panic(message) => assert_eq!(message, "Can't throw from the root generator"),
        _ => panic!("expected a panic"),
    }
}

#[test]
fn test_step_object_equals() {
    let mut blocks = BlockAllocator::new();
    let mut alloc = BumpAllocator::new(&mut blocks);
    let perm = PermanentSpace::new(MethodCounts::default());
    let m = code(
        "main",
        vec![
            Instruction::new(Opcode::ObjectEquals, [2, 0, 1, 0, 0, 0], 1),
            Instruction::new(Opcode::ObjectEquals, [2, 0, 0, 0, 0, 0], 1),
        ],
    );
    let mut context = ExecutionContext::for_method(&m);
    context.set_register(0, Pointer::integer(1));
    context.set_register(1, Pointer::integer(2));
    let mut gen = Generator::allocate(&mut alloc, &mut blocks, perm.generator_class(), context);
    let mut reductions = 1;

    assert!(continues(step(&perm, &mut gen, &mut reductions)));
    assert_eq!(gen.context().get_register(2), perm.false_singleton);
    assert!(continues(step(&perm, &mut gen, &mut reductions)));
    assert_eq!(gen.context().get_register(2), perm.true_singleton);
}

#[test]
fn test_step_in_module() {
    let mut blocks = BlockAllocator::new();
    let mut alloc = BumpAllocator::new(&mut blocks);
    let perm = PermanentSpace::new(MethodCounts::default());
    let class = empty_class("main", ClassPointer::new(Pointer::new(0x10)));
    let mut module = libinko::mem::objects::Module::allocate(
        class,
        "main.inko".to_string(),
        vec![Pointer::integer(7), Pointer::integer(8)],
        1,
    );
    let m = code(
        "main",
        vec![
            ins(Opcode::GetLiteral, 0, 1),
            Instruction::new(Opcode::GetLiteralWide, [1, 0, 0, 0, 0, 0], 1),
            ins(Opcode::SetGlobal, 0, 0),
            ins(Opcode::GetGlobal, 2, 0),
            ins(Opcode::GetTrue, 0, 0),
            ins(Opcode::IntAdd, 0, 0),
        ],
    );
    let mut gen = Generator::allocate(
        &mut alloc,
        &mut blocks,
        perm.generator_class(),
        ExecutionContext::for_method(&m),
    );
    let mut reductions = 1;

    assert!(continues(step_in_module(&perm, &mut gen, &mut reductions, &mut module)));
    assert_eq!(gen.context().get_register(0), Pointer::integer(8));
    assert!(continues(step_in_module(&perm, &mut gen, &mut reductions, &mut module)));
    assert_eq!(gen.context().get_register(1), Pointer::integer(7));
    assert!(continues(step_in_module(&perm, &mut gen, &mut reductions, &mut module)));
    assert!(continues(step_in_module(&perm, &mut gen, &mut reductions, &mut module)));
    assert_eq!(gen.context().get_register(2), Pointer::integer(8));
    assert!(continues(step_in_module(&perm, &mut gen, &mut reductions, &mut module)));
    assert_eq!(gen.context().get_register(0), perm.true_singleton);
    assert!(matches!(
        step_in_module(&perm, &mut gen, &mut reductions, &mut module),
        Action::Handler(Opcode::IntAdd)
    ));
}
