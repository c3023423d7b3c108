//! The parts of the bytecode interpreter that decide what happens, apart
//! from running the instructions themselves.
use vstd::prelude::*;
use vstd::string::StringExecFns;
use crate::execution_context::ExecutionContext;
use crate::external_functions::integer::{decimal, unsigned_to_decimal};
use crate::external_functions::process::line_index;
use crate::indexes::{GlobalIndex, LiteralIndex, LocalIndex};
use crate::instruction::{Instruction, Opcode};
use crate::mem::allocator::Pointer;
use crate::mem::generator::{Generator, Status};
use crate::mem::objects::Module;
use crate::mem::permanent_space::PermanentSpace;
use crate::vm::instructions::general::{get_literal_wide, move_result};
use crate::vm::instructions::object::equals;

verus! {

/// The character of a hexadecimal digit, in lowercase.
pub open spec fn hex_char(d: int) -> char {
    seq!['0', '1', '2', '3', '4', '5', '6', '7', '8', '9', 'a', 'b', 'c', 'd', 'e', 'f'][d]
}

/// The hexadecimal digits of `n`, in lowercase, the most significant first,
/// without leading zeros.
pub open spec fn hex_digits(n: nat) -> Seq<char>
    decreases n,
{
    if n < 16 {
        seq![hex_char(n as int)]
    } else {
        hex_digits(n / 16) + seq![hex_char((n % 16) as int)]
    }
}

/// Appends the hexadecimal digits of `n` to `out`.
fn push_hex(n: u64, out: &mut std::string::String)
    ensures
        final(out)@ == old(out)@ + hex_digits(n as nat),
    decreases n,
{
    if n >= 16 {
        push_hex(n / 16, out);
    }
    let digits = "0123456789abcdef";
    proof {
        reveal_strlit("0123456789abcdef");
    }
    let d = (n % 16) as usize;
    let digit = digits.substring_char(d, d + 1);
    assert(digit@ =~= seq![hex_char(d as int)]);
    out.append(digit);
    assert(final(out)@ =~= old(out)@ + hex_digits(n as nat)) by {
        if n >= 16 {
            assert(old(out)@ + hex_digits(n as nat) =~= old(out)@ + hex_digits((n / 16) as nat)
                + seq![hex_char((n % 16) as int)]);
        }
    }
}

/// A frame of a stack trace: the file and the name of the method a context
/// runs, and the line of the instruction it runs.
pub open spec fn frame_text(context: ExecutionContext) -> Seq<char> {
    "\""@ + context.method.file@ + "\" line "@ + decimal(
        context.method.instructions@[line_index(context)].line as nat,
    ) + ", in \""@ + context.method.name@ + "\""@
}

/// The numbered frames of the `n` outermost of `contexts` (innermost
/// first), the outermost first, each on a line of its own.
pub open spec fn trace_text(contexts: Seq<ExecutionContext>, n: nat) -> Seq<char>
    decreases n,
{
    if n == 0 {
        Seq::empty()
    } else {
        trace_text(contexts, (n - 1) as nat) + "\n  "@ + decimal((n - 1) as nat) + ": "@
            + frame_text(contexts[contexts.len() - n])
    }
}

/// The report of a panic of process `identifier` with `message`, given the
/// contexts of the generator it ran (innermost first): the stack trace, the
/// most recent call last, then the process and the message.
pub open spec fn panic_text(
    contexts: Seq<ExecutionContext>,
    identifier: u64,
    message: Seq<char>,
) -> Seq<char> {
    "Stack trace (the most recent call comes last):"@ + trace_text(contexts, contexts.len())
        + "\nProcess 0x"@ + hex_digits(identifier as nat) + " panicked: "@ + message
}

/// Returns the report printed when the process with the given identifier
/// panics with `message` while running `generator`.
pub fn panic_message(generator: &Generator<'_>, identifier: u64, message: &str) -> (r:
    std::string::String)
    requires
        forall|i: int|
            0 <= i < generator.all_contexts().len() ==> line_index(#[trigger] generator.all_contexts()[i])
                < generator.all_contexts()[i].method.instructions@.len(),
    ensures
        r@ == panic_text(generator.all_contexts(), identifier, message@),
{
    let contexts = generator.contexts();
    let ghost all = generator.all_contexts();
    let header = "Stack trace (the most recent call comes last):";
    let mut buffer = std::string::String::from_str(header);
    let mut index: usize = 0;
    while index < contexts.len()
        invariant
            index <= contexts@.len(),
            contexts@.len() == all.len(),
            forall|k: int| 0 <= k < contexts@.len() ==> *(#[trigger] contexts@[k]) == all[k],
            forall|i: int|
                0 <= i < all.len() ==> line_index(#[trigger] all[i]) < all[i].method.instructions@.len(),
            buffer@ == header@ + trace_text(all, index as nat),
        decreases contexts@.len() - index,
    {
        let context = contexts[contexts.len() - 1 - index];
        let ghost before = buffer@;
        proof {
            assert(*context == all[all.len() - (index + 1)]);
        }
        let number = unsigned_to_decimal(index as u64);
        let line = unsigned_to_decimal(context.line() as u64);
        buffer.append("\n  ");
        buffer.append(number.as_str());
        buffer.append(": ");
        buffer.append("\"");
        buffer.append(context.method.file.as_str());
        buffer.append("\" line ");
        buffer.append(line.as_str());
        buffer.append(", in \"");
        buffer.append(context.method.name.as_str());
        buffer.append("\"");
        proof {
            assert(buffer@ =~= before + "\n  "@ + decimal(index as nat) + ": "@ + frame_text(
                all[all.len() - (index + 1)],
            ));
        }
        index = index + 1;
    }
    buffer.append("\nProcess 0x");
    push_hex(identifier, &mut buffer);
    buffer.append(" panicked: ");
    buffer.append(message);
    proof {
        assert(buffer@ =~= panic_text(all, identifier, message@));
    }
    buffer
}

/// The number of reductions a method call costs.
pub const METHOD_REDUCTION_COST: usize = 1;

/// What the interpreter does after a step.
pub enum Action {
    /// Runs the next instruction.
    Continue,
    /// Stops: the root context of the generator returned, so the generator
    /// is finished.
    Finished,
    /// Stops: the process used up its reductions and is to be scheduled
    /// again.
    Reschedule,
    /// Stops before the instruction at the current index, which needs the
    /// handler of its opcode; nothing was changed.
    Handler(Opcode),
    /// Stops: the process panicked with this message.
    Panic(std::string::String),
}

/// Holds for the opcodes whose instructions the interpreter runs itself:
/// those that work on the registers, the local variables, the singletons
/// and the flow of control.
pub open spec fn runs_itself(opcode: Opcode) -> bool {
    match opcode {
        Opcode::GetTrue | Opcode::GetFalse | Opcode::GetNil | Opcode::GetUndefined
        | Opcode::GetCurrentModule | Opcode::SetLocal | Opcode::GetLocal | Opcode::CopyRegister
        | Opcode::Return | Opcode::Goto | Opcode::GotoIfFalse | Opcode::GotoIfTrue
        | Opcode::GotoIfThrown | Opcode::MoveResult | Opcode::Throw | Opcode::ObjectEquals => true,
        _ => false,
    }
}

/// The instruction at the index of `context`.
pub open spec fn current_instruction(context: ExecutionContext) -> Instruction {
    context.method.instructions@[context.index as int]
}

/// Holds when the registers and local variables that the current
/// instruction of `context` names exist.
pub open spec fn operands_exist(context: ExecutionContext) -> bool {
    let a = current_instruction(context).args();
    let registers = context.registers_view().len();
    let locals = context.variables.locals_view().len();
    match current_instruction(context).opcode {
        Opcode::GetTrue | Opcode::GetFalse | Opcode::GetNil | Opcode::GetUndefined
        | Opcode::GetCurrentModule | Opcode::Return | Opcode::Throw | Opcode::MoveResult => a[0]
            < registers,
        Opcode::SetLocal => a[0] < locals && a[1] < registers,
        Opcode::GetLocal => a[0] < registers && a[1] < locals,
        Opcode::CopyRegister => a[0] < registers && a[1] < registers,
        Opcode::GotoIfFalse | Opcode::GotoIfTrue => a[1] < registers,
        Opcode::ObjectEquals => a[0] < registers && a[1] < registers && a[2] < registers,
        _ => true,
    }
}

/// Holds when `after` is the context `before` with the instruction index
/// `index`, the registers `registers` and the local variables `locals`.
pub open spec fn context_moved(
    before: ExecutionContext,
    after: ExecutionContext,
    index: int,
    registers: Seq<Pointer>,
    locals: Seq<Pointer>,
) -> bool {
    &&& after.method == before.method
    &&& after.parent == before.parent
    &&& after.index == index
    &&& after.registers_view() == registers
    &&& after.variables.locals_view() == locals
}

/// Holds when the generator went from `before` to `after` by running the
/// current instruction of its context, with `reductions` left before and
/// `reductions2` after, and the interpreter is to do `action` next. The
/// instruction index moves on by one before the instruction runs.
pub open spec fn stepped(
    space: &PermanentSpace,
    before: Generator,
    after: Generator,
    reductions: usize,
    reductions2: usize,
    action: Action,
) -> bool {
    let c = before.context_view();
    let d = after.context_view();
    let a = current_instruction(c).args();
    let regs = c.registers_view();
    let locals = c.variables.locals_view();
    let next = c.index + 1;
    let same_generator = after.status_view() == before.status_view() && after.result_view()
        == before.result_view() && after.parent_view() == before.parent_view();
    let set = |value: Pointer|
        {
            &&& context_moved(c, d, next, regs.update(a[0] as int, value), locals)
            &&& same_generator
            &&& reductions2 == reductions
            &&& action is Continue
        };
    let jump = |taken: bool|
        {
            &&& context_moved(c, d, if taken { a[0] as int } else { next }, regs, locals)
            &&& same_generator
            &&& reductions2 == reductions
            &&& action is Continue
        };
    match current_instruction(c).opcode {
        Opcode::GetTrue => set(space.true_singleton),
        Opcode::GetFalse => set(space.false_singleton),
        Opcode::GetNil => set(space.nil_singleton),
        Opcode::GetUndefined => set(space.undefined_singleton),
        Opcode::GetLocal => set(locals[a[1] as int]),
        Opcode::CopyRegister => set(regs[a[1] as int]),
        Opcode::ObjectEquals => set(
            if regs[a[1] as int] == regs[a[2] as int] {
                space.true_singleton
            } else {
                space.false_singleton
            },
        ),
        Opcode::GetCurrentModule => {
            &&& set(d.registers_view()[a[0] as int])
            &&& d.registers_view()[a[0] as int]@ == c.method.module@
        },
        Opcode::SetLocal => {
            &&& context_moved(c, d, next, regs, locals.update(a[0] as int, regs[a[1] as int]))
            &&& same_generator
            &&& reductions2 == reductions
            &&& action is Continue
        },
        Opcode::Goto => jump(true),
        Opcode::GotoIfFalse => jump(regs[a[1] as int] == space.false_singleton),
        Opcode::GotoIfTrue => jump(regs[a[1] as int] == space.true_singleton),
        Opcode::GotoIfThrown => jump(before.status_view() == Status::Thrown),
        Opcode::Return => {
            &&& after.result_view() == Some(regs[a[0] as int])
            &&& after.parent_view() == before.parent_view()
            &&& match c.parent {
                None => {
                    &&& context_moved(c, d, next, regs, locals)
                    &&& after.status_view() == Status::Finished
                    &&& reductions2 == reductions
                    &&& action is Finished
                },
                Some(parent) => {
                    &&& d == *parent
                    &&& after.status_view() == before.status_view()
                    &&& if reductions >= METHOD_REDUCTION_COST {
                        reductions2 == reductions - METHOD_REDUCTION_COST && action is Continue
                    } else {
                        reductions2 == reductions && action is Reschedule
                    }
                },
            }
        },
        Opcode::Throw => {
            &&& after.result_view() == Some(regs[a[0] as int])
            &&& after.parent_view() == before.parent_view()
            &&& reductions2 == reductions
            &&& match c.parent {
                None => {
                    &&& context_moved(c, d, next, regs, locals)
                    &&& after.status_view() == Status::Finished
                    &&& action matches Action::Panic(message) && message@
                        == "Can't throw from the root generator"@
                },
                Some(parent) => {
                    &&& d == *parent
                    &&& after.status_view() == Status::Thrown
                    &&& action is Continue
                },
            }
        },
        Opcode::MoveResult => {
            &&& after.status_view() == before.status_view()
            &&& after.parent_view() == before.parent_view()
            &&& after.result_view() is None
            &&& reductions2 == reductions
            &&& match before.result_view() {
                Some(value) => context_moved(c, d, next, regs.update(a[0] as int, value), locals)
                    && action is Continue,
                None => context_moved(c, d, next, regs, locals) && (action matches Action::Panic(
                    message,
                ) && message@ == "The last instruction didn't produce a result"@),
            }
        },
        _ => false,
    }
}

/// Runs the instruction at the index of the generator's current context, if
/// it is one the interpreter runs itself, and says what to do next. Other
/// instructions are left to the handlers of their opcodes: the generator is
/// left as it was, and the action names the opcode.
pub fn step(space: &PermanentSpace, generator: &mut Generator<'_>, reductions: &mut usize) -> (r:
    Action)
    requires
        old(generator).context_view().index < old(generator).context_view().method.instructions@.len(),
        operands_exist(old(generator).context_view()),
    ensures
        runs_itself(current_instruction(old(generator).context_view()).opcode) ==> stepped(
            space,
            *old(generator),
            *final(generator),
            *old(reductions),
            *final(reductions),
            r,
        ),
        !runs_itself(current_instruction(old(generator).context_view()).opcode) ==> {
            &&& r matches Action::Handler(opcode) && opcode == current_instruction(
                old(generator).context_view(),
            ).opcode
            &&& *final(generator) == *old(generator)
            &&& *final(reductions) == *old(reductions)
        },
{
    let method = generator.context().method;
    let index = generator.context().index;
    let count = method.instructions.len();
    let instruction = &method.instructions[index];
    assert(index < count);
    let a0 = instruction.arg(0);
    let a1 = instruction.arg(1);
    match instruction.opcode {
        Opcode::GetTrue | Opcode::GetFalse | Opcode::GetNil | Opcode::GetUndefined
        | Opcode::GetCurrentModule | Opcode::SetLocal | Opcode::GetLocal | Opcode::CopyRegister
        | Opcode::Return | Opcode::Goto | Opcode::GotoIfFalse | Opcode::GotoIfTrue
        | Opcode::GotoIfThrown | Opcode::MoveResult | Opcode::Throw | Opcode::ObjectEquals => {},
        _ => {
            return Action::Handler(instruction.opcode);
        },
    }
    generator.context_mut().index = index + 1;
    match instruction.opcode {
        Opcode::GetTrue => {
            generator.context_mut().set_register(a0, space.true_singleton);
            Action::Continue
        },
        Opcode::GetFalse => {
            generator.context_mut().set_register(a0, space.false_singleton);
            Action::Continue
        },
        Opcode::GetNil => {
            generator.context_mut().set_register(a0, space.nil_singleton);
            Action::Continue
        },
        Opcode::GetUndefined => {
            generator.context_mut().set_register(a0, space.undefined_singleton);
            Action::Continue
        },
        Opcode::GetCurrentModule => {
            let module = method.module.as_pointer();
            generator.context_mut().set_register(a0, module);
            Action::Continue
        },
        Opcode::SetLocal => {
            let value = generator.context().get_register(a1);
            generator.context_mut().set_local(LocalIndex::new(a0), value);
            Action::Continue
        },
        Opcode::GetLocal => {
            let value = generator.context().get_local(LocalIndex::new(a1));
            generator.context_mut().set_register(a0, value);
            Action::Continue
        },
        Opcode::CopyRegister => {
            let value = generator.context().get_register(a1);
            generator.context_mut().set_register(a0, value);
            Action::Continue
        },
        Opcode::ObjectEquals => {
            let a2 = instruction.arg(2);
            let left = generator.context().get_register(a1);
            let right = generator.context().get_register(a2);
            let value = equals(space, left, right);
            generator.context_mut().set_register(a0, value);
            Action::Continue
        },
        Opcode::Goto => {
            generator.context_mut().index = a0 as usize;
            Action::Continue
        },
        Opcode::GotoIfFalse => {
            let value = generator.context().get_register(a1);
            if value == space.false_singleton {
                generator.context_mut().index = a0 as usize;
            }
            Action::Continue
        },
        Opcode::GotoIfTrue => {
            let value = generator.context().get_register(a1);
            if value == space.true_singleton {
                generator.context_mut().index = a0 as usize;
            }
            Action::Continue
        },
        Opcode::GotoIfThrown => {
            if generator.thrown() {
                generator.context_mut().index = a0 as usize;
            }
            Action::Continue
        },
        Opcode::Return => {
            let value = generator.context().get_register(a0);
            generator.set_result(value);
            if generator.pop_context() {
                generator.finish();
                return Action::Finished;
            }
            if *reductions >= METHOD_REDUCTION_COST {
                *reductions = *reductions - METHOD_REDUCTION_COST;
                Action::Continue
            } else {
                Action::Reschedule
            }
        },
        Opcode::Throw => {
            let value = generator.context().get_register(a0);
            generator.set_throw_value(value);
            if generator.pop_context() {
                return Action::Panic("Can't throw from the root generator".to_owned());
            }
            Action::Continue
        },
        _ => {
            match move_result(generator) {
                Ok(value) => {
                    generator.context_mut().set_register(a0, value);
                    Action::Continue
                },
                Err(message) => Action::Panic(message),
            }
        },
    }
}

/// What running a jump instruction does. `Goto` moves to the instruction
/// that its first operand names. `GotoIfFalse` moves there exactly when the
/// register that its second operand names holds the false singleton,
/// `GotoIfTrue` exactly when that register holds the true singleton, and
/// `GotoIfThrown` exactly when the generator threw; otherwise the next
/// instruction follows. A jump changes no register, local variable, method
/// or reduction, and the interpreter goes on.
pub proof fn lemma_step_jump(
    space: &PermanentSpace,
    before: Generator,
    after: Generator,
    reductions: usize,
    reductions2: usize,
    action: Action,
)
    requires
        stepped(space, before, after, reductions, reductions2, action),
        current_instruction(before.context_view()).opcode is Goto || current_instruction(
            before.context_view(),
        ).opcode is GotoIfFalse || current_instruction(before.context_view()).opcode is GotoIfTrue
            || current_instruction(before.context_view()).opcode is GotoIfThrown,
    ensures
        ({
            let c = before.context_view();
            let d = after.context_view();
            let a = current_instruction(c).args();
            let op = current_instruction(c).opcode;
            let tested = c.registers_view()[a[1] as int];
            &&& d.registers_view() == c.registers_view()
            &&& d.variables.locals_view() == c.variables.locals_view()
            &&& d.method == c.method
            &&& reductions2 == reductions
            &&& action is Continue
            &&& after.status_view() == before.status_view()
            &&& op is Goto ==> d.index == a[0]
            &&& op is GotoIfFalse && tested == space.false_singleton ==> d.index == a[0]
            &&& op is GotoIfFalse && tested != space.false_singleton ==> d.index == c.index + 1
            &&& op is GotoIfTrue && tested == space.true_singleton ==> d.index == a[0]
            &&& op is GotoIfTrue && tested != space.true_singleton ==> d.index == c.index + 1
            &&& op is GotoIfThrown && before.status_view() == Status::Thrown ==> d.index == a[0]
            &&& op is GotoIfThrown && before.status_view() != Status::Thrown ==> d.index == c.index
                + 1
        }),
{
}

/// What running an instruction that fills a register does: the register
/// that its first operand names gets the true, false, nil or undefined
/// singleton (`GetTrue`, `GetFalse`, `GetNil`, `GetUndefined`), the local
/// variable or the register that its second operand names (`GetLocal`,
/// `CopyRegister`), or, for `ObjectEquals`, the true singleton exactly when
/// the registers that its second and third operands name hold the same
/// pointer and the false singleton otherwise. No other register changes,
/// the next instruction follows and the interpreter goes on.
pub proof fn lemma_step_register(
    space: &PermanentSpace,
    before: Generator,
    after: Generator,
    reductions: usize,
    reductions2: usize,
    action: Action,
)
    requires
        stepped(space, before, after, reductions, reductions2, action),
        operands_exist(before.context_view()),
        current_instruction(before.context_view()).opcode is GetTrue || current_instruction(
            before.context_view(),
        ).opcode is GetFalse || current_instruction(before.context_view()).opcode is GetNil
            || current_instruction(before.context_view()).opcode is GetUndefined
            || current_instruction(before.context_view()).opcode is GetLocal
            || current_instruction(before.context_view()).opcode is CopyRegister
            || current_instruction(before.context_view()).opcode is ObjectEquals,
    ensures
        ({
            let c = before.context_view();
            let d = after.context_view();
            let a = current_instruction(c).args();
            let op = current_instruction(c).opcode;
            let regs = c.registers_view();
            let value = d.registers_view()[a[0] as int];
            &&& d.index == c.index + 1
            &&& d.registers_view().len() == regs.len()
            &&& forall|j: int|
                0 <= j < regs.len() && j != a[0] ==> #[trigger] d.registers_view()[j] == regs[j]
            &&& d.variables.locals_view() == c.variables.locals_view()
            &&& reductions2 == reductions
            &&& action is Continue
            &&& op is GetTrue ==> value == space.true_singleton
            &&& op is GetFalse ==> value == space.false_singleton
            &&& op is GetNil ==> value == space.nil_singleton
            &&& op is GetUndefined ==> value == space.undefined_singleton
            &&& op is GetLocal ==> value == c.variables.locals_view()[a[1] as int]
            &&& op is CopyRegister ==> value == regs[a[1] as int]
            &&& op is ObjectEquals && regs[a[1] as int] == regs[a[2] as int] ==> value
                == space.true_singleton
            &&& op is ObjectEquals && regs[a[1] as int] != regs[a[2] as int] ==> value
                == space.false_singleton
        }),
{
}

/// Holds for the opcodes whose instructions work on the module of the
/// method being run: its literals and its globals.
pub open spec fn uses_module(opcode: Opcode) -> bool {
    match opcode {
        Opcode::GetLiteral | Opcode::GetLiteralWide | Opcode::GetGlobal | Opcode::SetGlobal => true,
        _ => false,
    }
}

/// Holds when the registers, literals and globals that the current
/// instruction of `context` names exist, `module` being the module of the
/// method being run.
pub open spec fn module_operands_exist(context: ExecutionContext, module: Module) -> bool {
    let a = current_instruction(context).args();
    let registers = context.registers_view().len();
    match current_instruction(context).opcode {
        Opcode::GetLiteral => a[0] < registers && a[1] < module.literals_view().len(),
        Opcode::GetLiteralWide => a[0] < registers && (a[1] as int) * 65536 + (a[2] as int)
            < module.literals_view().len(),
        Opcode::GetGlobal => a[0] < registers && a[1] < module.globals_view().len(),
        Opcode::SetGlobal => a[0] < module.globals_view().len() && a[1] < registers,
        _ => true,
    }
}

/// Holds when the generator went from `before` to `after`, and the module of
/// the method being run from `module` to `module2`, by running an
/// instruction that works on that module; the interpreter then goes on.
pub open spec fn stepped_in_module(
    before: Generator,
    after: Generator,
    module: Module,
    module2: Module,
) -> bool {
    let c = before.context_view();
    let d = after.context_view();
    let a = current_instruction(c).args();
    let regs = c.registers_view();
    let locals = c.variables.locals_view();
    let next = c.index + 1;
    &&& after.status_view() == before.status_view()
    &&& after.result_view() == before.result_view()
    &&& after.parent_view() == before.parent_view()
    &&& match current_instruction(c).opcode {
        Opcode::GetLiteral => {
            &&& context_moved(c, d, next, regs.update(a[0] as int, module.literals_view()[a[1] as int]), locals)
            &&& module2 == module
        },
        Opcode::GetLiteralWide => {
            &&& context_moved(
                c,
                d,
                next,
                regs.update(a[0] as int, module.literals_view()[a[1] as int * 65536 + a[2] as int]),
                locals,
            )
            &&& module2 == module
        },
        Opcode::GetGlobal => {
            &&& context_moved(c, d, next, regs.update(a[0] as int, module.globals_view()[a[1] as int]), locals)
            &&& module2 == module
        },
        Opcode::SetGlobal => {
            &&& context_moved(c, d, next, regs, locals)
            &&& module2.globals_view() == module.globals_view().update(a[0] as int, regs[a[1] as int])
            &&& module2.class_view() == module.class_view()
            &&& module2.classes_view() == module.classes_view()
            &&& module2.path_view() == module.path_view()
            &&& module2.literals_view() == module.literals_view()
            &&& module2.executed_view() == module.executed_view()
        },
        _ => false,
    }
}

/// What running an instruction on the module of the method being run does.
/// `GetLiteral` puts in the register that its first operand names the
/// literal that its second operand names, `GetLiteralWide` the literal at
/// its second operand times 65536 plus its third, and `GetGlobal` the
/// global that its second operand names; `SetGlobal` puts in the global that
/// its first operand names the register that its second operand names. No
/// other register or global changes, the local variables stay, and the next
/// instruction follows.
pub proof fn lemma_step_module(before: Generator, after: Generator, module: Module, module2: Module)
    requires
        stepped_in_module(before, after, module, module2),
        uses_module(current_instruction(before.context_view()).opcode),
        module_operands_exist(before.context_view(), module),
    ensures
        ({
            let c = before.context_view();
            let d = after.context_view();
            let a = current_instruction(c).args();
            let op = current_instruction(c).opcode;
            let regs = c.registers_view();
            let value = d.registers_view()[a[0] as int];
            &&& d.index == c.index + 1
            &&& d.variables.locals_view() == c.variables.locals_view()
            &&& d.registers_view().len() == regs.len()
            &&& module2.literals_view() == module.literals_view()
            &&& module2.globals_view().len() == module.globals_view().len()
            &&& op is GetLiteral ==> value == module.literals_view()[a[1] as int]
            &&& op is GetLiteralWide ==> value == module.literals_view()[a[1] * 65536 + a[2]]
            &&& op is GetGlobal ==> value == module.globals_view()[a[1] as int]
            &&& !(op is SetGlobal) ==> module2.globals_view() == module.globals_view()
            &&& !(op is SetGlobal) ==> forall|j: int|
                0 <= j < regs.len() && j != a[0] ==> #[trigger] d.registers_view()[j] == regs[j]
            &&& op is SetGlobal ==> d.registers_view() == regs
            &&& op is SetGlobal ==> module2.globals_view()[a[0] as int] == regs[a[1] as int]
            &&& op is SetGlobal ==> forall|j: int|
                0 <= j < module.globals_view().len() && j != a[0] ==> #[trigger] module2.globals_view()[j]
                    == module.globals_view()[j]
        }),
{
}

/// Runs the instruction at the index of the generator's current context,
/// `module` being the module of the method being run: instructions on the
/// module's literals and globals are run here, the others as `step` runs
/// them.
pub fn step_in_module(
    space: &PermanentSpace,
    generator: &mut Generator<'_>,
    reductions: &mut usize,
    module: &mut Module,
) -> (r: Action)
    requires
        old(generator).context_view().index < old(generator).context_view().method.instructions@.len(),
        operands_exist(old(generator).context_view()),
        module_operands_exist(old(generator).context_view(), *old(module)),
    ensures
        uses_module(current_instruction(old(generator).context_view()).opcode) ==> {
            &&& r is Continue
            &&& *final(reductions) == *old(reductions)
            &&& stepped_in_module(*old(generator), *final(generator), *old(module), *final(module))
        },
        !uses_module(current_instruction(old(generator).context_view()).opcode) ==> {
            &&& *final(module) == *old(module)
            &&& runs_itself(current_instruction(old(generator).context_view()).opcode) ==> stepped(
                space,
                *old(generator),
                *final(generator),
                *old(reductions),
                *final(reductions),
                r,
            )
            &&& !runs_itself(current_instruction(old(generator).context_view()).opcode) ==> {
                &&& r matches Action::Handler(opcode) && opcode == current_instruction(
                    old(generator).context_view(),
                ).opcode
                &&& *final(generator) == *old(generator)
                &&& *final(reductions) == *old(reductions)
            }
        },
{
    let method = generator.context().method;
    let index = generator.context().index;
    let count = method.instructions.len();
    let instruction = &method.instructions[index];
    assert(index < count);
    let a0 = instruction.arg(0);
    let a1 = instruction.arg(1);
    match instruction.opcode {
        Opcode::GetLiteral | Opcode::GetLiteralWide | Opcode::GetGlobal | Opcode::SetGlobal => {},
        _ => {
            return step(space, generator, reductions);
        },
    }
    generator.context_mut().index = index + 1;
    match instruction.opcode {
        Opcode::GetLiteral => {
            let value = module.get_literal(LiteralIndex::from_u16(a1));
            generator.context_mut().set_register(a0, value);
        },
        Opcode::GetLiteralWide => {
            let a2 = instruction.arg(2);
            let value = get_literal_wide(module, a1, a2);
            generator.context_mut().set_register(a0, value);
        },
        Opcode::GetGlobal => {
            let value = generator.context().get_global(module, GlobalIndex::new(a1));
            generator.context_mut().set_register(a0, value);
        },
        _ => {
            let value = generator.context().get_register(a1);
            generator.context().set_global(module, GlobalIndex::new(a0), value);
        },
    }
    Action::Continue
}

} // verus!
