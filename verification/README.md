# libinko

The core of the Inko virtual machine as a verified Rust library: the
bytecode image format, the memory allocator, objects, processes and their
generators, futures and timeouts, and the instruction handlers, each with a
contract that Verus proves.

## Layout

- `src/image.rs`: the parser for bytecode images, stated as a function on
  bytes (`spec_image` and the functions it is made of).
- `src/image/loader.rs`: loading the parsed data into classes (new or
  built-in, with their method slots filled) and modules.
- `src/mem/allocator.rs`: tagged pointers, the Immix-style block allocator,
  bump allocation and block recycling.
- `src/mem/objects.rs`: classes, methods, modules, integers, strings, arrays
  and plain objects.
- `src/mem/process.rs`, `src/mem/generator.rs`: processes (servers and
  clients), their state and mailboxes, futures and generators.
- `src/mem/permanent_space.rs`: the built-in classes, singletons, modules and
  interned strings that live for the whole run of a program.
- `src/process.rs`, `src/objects.rs`: the status and shared state of a
  process, and the object layout with kinds, used by the older runtime.
- `src/scheduler/`: timeouts, measured in nanoseconds on a monotonic clock,
  and the modes of workers.
- `src/vm/instructions/`: the handlers of the instructions.
- `src/vm/machine.rs`: the interpreter's own steps (registers, local
  variables, jumps, returns and throws) and the report of a panic.
- `src/external_functions/`: the functions the runtime offers to Inko code
  for arrays, byte arrays, strings, integers, methods, modules, objects,
  hashing, processes and random numbers.
- `src/config.rs`, `src/numeric.rs`, `src/indexes.rs`, `src/registers.rs`,
  `src/variable_scope.rs`, `src/execution_context.rs`, `src/hasher.rs`: the
  supporting types.
- `app/main.rs`: the command line program that reads an image from disk and
  loads it.
- `tests/`: the tests, run against the compiled library.
