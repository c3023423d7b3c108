use libinko::external_functions::array::array_clear;
use libinko::external_functions::blocks::{method_arguments, method_file, method_line, method_name};
use libinko::external_functions::byte_array::byte_array_clear;
use libinko::external_functions::hasher::{
    hasher_new, hasher_to_hash, hasher_write_int, hasher_write_object, hasher_write_string,
    hasher_write_unsigned_int,
};
use libinko::external_functions::integer::{
    int_clone, int_to_string, signed_to_decimal, unsigned_to_decimal,
};
use libinko::external_functions::process::{process_client_clone, process_client_drop};
use libinko::external_functions::string::{
    int_from_parse, string_clone, string_concat_array, string_format_debug, string_to_byte_array,
    string_to_int, string_to_lower, string_to_unsigned_int, string_to_upper,
    unsigned_int_from_parse,
};
use libinko::external_functions::modules::{module_name, module_source_path};
use libinko::external_functions::object::object_attribute_names;
use libinko::mem::allocator::{BlockAllocator, BumpAllocator, Pointer};
use libinko::instruction::{Instruction, Opcode};
use libinko::mem::objects::{
    Array, ByteArray, Class, ClassPointer, Int, Method, Module, ModulePointer, OwnedClass,
    String as InkoString, UnsignedInt,
};
use libinko::mem::process::{Client, ProcessState, ServerPointer};
use libinko::runtime_error::RuntimeError;
use libinko::mem::permanent_space::{MethodCounts, PermanentSpace};

#[test]
fn test_array_clear() {
    let perm = PermanentSpace::new(MethodCounts::default());
    let mut array =
        Array::new(perm.array_class(), vec![Pointer::integer(1), Pointer::integer(2)]);

    assert_eq!(array_clear(&perm, &mut array), perm.nil_singleton);
    assert!(array.value().is_empty());
}

#[test]
fn test_byte_array_clear() {
    let perm = PermanentSpace::new(MethodCounts::default());
    let mut bytes = ByteArray::new(perm.byte_array_class(), vec![1, 2, 3]);

    assert_eq!(byte_array_clear(&perm, &mut bytes), perm.nil_singleton);
    assert!(bytes.value().is_empty());
}

#[test]
fn test_object_attribute_names() {
    let mut blocks = BlockAllocator::new();
    let mut alloc = BumpAllocator::new(&mut blocks);
    let perm = PermanentSpace::new(MethodCounts::default());
    let class = Class::object("A".to_string(), vec!["@a".to_string(), "@b".to_string()], 0);

    let (_, array, names) = object_attribute_names(&mut alloc, &mut blocks, &perm, &class);

    assert_eq!(array.value().len(), 2);
    assert_eq!(names.len(), 2);
    assert_eq!(names[0].value(), "@a");
    assert_eq!(names[1].value(), "@b");

    let empty = Class::object("B".to_string(), Vec::new(), 0);
    let (_, array, names) = object_attribute_names(&mut alloc, &mut blocks, &perm, &empty);

    assert!(array.value().is_empty());
    assert!(names.is_empty());
}

#[test]
fn test_module_name_and_source_path() {
    let mut blocks = BlockAllocator::new();
    let mut alloc = BumpAllocator::new(&mut blocks);
    let perm = PermanentSpace::new(MethodCounts::default());
    let class = OwnedClass::new(
        ClassPointer::new(Pointer::new(0x10)),
        Class::object("std::foo".to_string(), Vec::new(), 0),
    );
    let module = Module::allocate(class, "/lib/std/foo.inko".to_string(), Vec::new(), 0);

    let (_, name) = module_name(&mut alloc, &mut blocks, &perm, &module);
    assert_eq!(name.value(), "std::foo");

    let (_, path) = module_source_path(&mut alloc, &mut blocks, &perm, &module);
    assert_eq!(path.value(), "/lib/std/foo.inko");
}

#[test]
fn test_method_functions() {
    let mut blocks = BlockAllocator::new();
    let mut alloc = BumpAllocator::new(&mut blocks);
    let perm = PermanentSpace::new(MethodCounts::default());
    let method = Method {
        hash: 1,
        name: "to_string".to_string(),
        file: "/lib/std/int.inko".to_string(),
        line: 42,
        locals: 2,
        registers: 2,
        arguments: vec!["self".to_string(), "radix".to_string()],
        instructions: vec![Instruction::new(Opcode::Return, [0; 6], 42)],
        module: ModulePointer::new(Pointer::new(0x8)),
    };

    let (_, name) = method_name(&mut alloc, &mut blocks, &perm, &method);
    assert_eq!(name.value(), "to_string");

    let (_, file) = method_file(&mut alloc, &mut blocks, &perm, &method);
    assert_eq!(file.value(), "/lib/std/int.inko");

    assert_eq!(method_line(&method), Pointer::unsigned_int(42));

    let (_, array, names) = method_arguments(&mut alloc, &mut blocks, &perm, &method);
    assert_eq!(array.value().len(), 2);
    assert_eq!(names[0].value(), "self");
    assert_eq!(names[1].value(), "radix");
}

#[test]
fn test_decimal_representations() {
    assert_eq!(unsigned_to_decimal(0), "0");
    assert_eq!(unsigned_to_decimal(7), "7");
    assert_eq!(unsigned_to_decimal(1024), "1024");
    assert_eq!(unsigned_to_decimal(u64::MAX), "18446744073709551615");
    assert_eq!(signed_to_decimal(-1), "-1");
    assert_eq!(signed_to_decimal(-120), "-120");
    assert_eq!(signed_to_decimal(i64::MIN), "-9223372036854775808");
    assert_eq!(signed_to_decimal(i64::MAX), "9223372036854775807");
}

#[test]
fn test_int_to_string_and_clone() {
    let mut blocks = BlockAllocator::new();
    let mut alloc = BumpAllocator::new(&mut blocks);
    let perm = PermanentSpace::new(MethodCounts::default());

    let (_, text) = int_to_string(&mut alloc, &mut blocks, &perm, Pointer::integer(-42), &None);
    assert_eq!(text.value(), "-42");

    let (big_ptr, big) = Int::allocate(&mut alloc, &mut blocks, perm.int_class(), i64::MAX);
    let (_, text) = int_to_string(&mut alloc, &mut blocks, &perm, big_ptr, &big);
    assert_eq!(text.value(), "9223372036854775807");

    let (ptr, boxed) = int_clone(&mut alloc, &mut blocks, &perm, big_ptr, &big);
    assert_eq!(Int::read(ptr, &boxed), i64::MAX);

    let (ptr, boxed) = int_clone(&mut alloc, &mut blocks, &perm, Pointer::integer(5), &None);
    assert_eq!(ptr, Pointer::integer(5));
    assert!(boxed.is_none());
}

#[test]
fn test_string_case_and_bytes() {
    let mut blocks = BlockAllocator::new();
    let mut alloc = BumpAllocator::new(&mut blocks);
    let perm = PermanentSpace::new(MethodCounts::default());
    let (_, text) =
        InkoString::allocate(&mut alloc, &mut blocks, perm.string_class(), "Héllo".to_string());

    let (_, lower) = string_to_lower(&mut alloc, &mut blocks, &perm, &text);
    assert_eq!(lower.value(), "héllo");

    let (_, upper) = string_to_upper(&mut alloc, &mut blocks, &perm, &text);
    assert_eq!(upper.value(), "HÉLLO");

    let (_, bytes) = string_to_byte_array(&mut alloc, &mut blocks, &perm, &text);
    assert_eq!(bytes.value(), &vec![72, 195, 169, 108, 108, 111]);

    let (_, debug) = string_format_debug(&mut alloc, &mut blocks, &perm, &text);
    assert_eq!(debug.value(), "\"Héllo\"");
}

#[test]
fn test_string_concat_array() {
    let mut blocks = BlockAllocator::new();
    let mut alloc = BumpAllocator::new(&mut blocks);
    let perm = PermanentSpace::new(MethodCounts::default());
    let class = perm.string_class();
    let (_, a) = InkoString::allocate(&mut alloc, &mut blocks, class, "a".to_string());
    let (_, b) = InkoString::allocate(&mut alloc, &mut blocks, class, "bc".to_string());

    let (_, joined) = string_concat_array(&mut alloc, &mut blocks, &perm, &[&a, &b, &a]);
    assert_eq!(joined.value(), "abca");
}

#[test]
fn test_string_to_int() {
    let mut blocks = BlockAllocator::new();
    let mut alloc = BumpAllocator::new(&mut blocks);
    let perm = PermanentSpace::new(MethodCounts::default());
    let class = perm.string_class();
    let (_, hex) = InkoString::allocate(&mut alloc, &mut blocks, class, "-ff".to_string());
    let (_, bad) = InkoString::allocate(&mut alloc, &mut blocks, class, "12a".to_string());

    let (ptr, boxed) = string_to_int(
        &mut alloc,
        &mut blocks,
        &perm,
        &hex,
        Pointer::unsigned_int(16),
        &None,
    )
    .unwrap();
    assert_eq!(Int::read(ptr, &boxed), -255);

    let error = string_to_int(&mut alloc, &mut blocks, &perm, &bad, Pointer::unsigned_int(10), &None);
    assert_eq!(error.err(), Some(RuntimeError::Error(perm.undefined_singleton)));

    let panic = string_to_int(&mut alloc, &mut blocks, &perm, &bad, Pointer::unsigned_int(40), &None);
    assert_eq!(
        panic.err(),
        Some(RuntimeError::Panic("radix must be between 2 and 32, not 40".to_string()))
    );
}

#[test]
fn test_string_to_unsigned_int() {
    let mut blocks = BlockAllocator::new();
    let mut alloc = BumpAllocator::new(&mut blocks);
    let perm = PermanentSpace::new(MethodCounts::default());
    let class = perm.string_class();
    let (_, binary) = InkoString::allocate(&mut alloc, &mut blocks, class, "1010".to_string());
    let (_, negative) = InkoString::allocate(&mut alloc, &mut blocks, class, "-1".to_string());

    let (ptr, boxed) = string_to_unsigned_int(
        &mut alloc,
        &mut blocks,
        &perm,
        &binary,
        Pointer::integer(2),
        &None,
    )
    .unwrap();
    assert_eq!(UnsignedInt::read(ptr, &boxed), 10);

    let error = string_to_unsigned_int(
        &mut alloc,
        &mut blocks,
        &perm,
        &negative,
        Pointer::integer(10),
        &None,
    );
    assert_eq!(error.err(), Some(RuntimeError::Error(perm.undefined_singleton)));

    let panic = string_to_unsigned_int(
        &mut alloc,
        &mut blocks,
        &perm,
        &binary,
        Pointer::integer(-3),
        &None,
    );
    assert_eq!(
        panic.err(),
        Some(RuntimeError::Panic("radix must be between 2 and 32, not -3".to_string()))
    );
}

#[test]
fn test_parse_results() {
    let mut blocks = BlockAllocator::new();
    let mut alloc = BumpAllocator::new(&mut blocks);
    let perm = PermanentSpace::new(MethodCounts::default());

    let (ptr, boxed) = int_from_parse(&mut alloc, &mut blocks, &perm, Some(-7)).unwrap();
    assert_eq!(Int::read(ptr, &boxed), -7);
    assert_eq!(
        int_from_parse(&mut alloc, &mut blocks, &perm, None).err(),
        Some(RuntimeError::Error(perm.undefined_singleton))
    );

    let (ptr, boxed) = unsigned_int_from_parse(&mut alloc, &mut blocks, &perm, Some(u64::MAX)).unwrap();
    assert_eq!(UnsignedInt::read(ptr, &boxed), u64::MAX);
    assert_eq!(
        unsigned_int_from_parse(&mut alloc, &mut blocks, &perm, None).err(),
        Some(RuntimeError::Error(perm.undefined_singleton))
    );
}

#[test]
fn test_string_clone() {
    let mut blocks = BlockAllocator::new();
    let mut alloc = BumpAllocator::new(&mut blocks);
    let mut perm = PermanentSpace::new(MethodCounts::default());
    let (ptr, text) =
        InkoString::allocate(&mut alloc, &mut blocks, perm.string_class(), "inko".to_string());

    let (copy_ptr, copy) = string_clone(&mut alloc, &mut blocks, &perm, ptr, &text);
    assert_ne!(copy_ptr, ptr);
    assert_eq!(copy.unwrap().value(), "inko");

    let permanent = perm.allocate_string("inko".to_string());
    let (same, none) = string_clone(&mut alloc, &mut blocks, &perm, permanent, &text);
    assert_eq!(same, permanent);
    assert!(none.is_none());
}

#[test]
fn test_process_client_clone_and_drop() {
    let mut blocks = BlockAllocator::new();
    let mut alloc = BumpAllocator::new(&mut blocks);
    let perm = PermanentSpace::new(MethodCounts::default());
    let mut state = ProcessState::new();
    let server = ServerPointer::new(Pointer::new(0x40));
    let (_, client) =
        Client::allocate(&mut alloc, &mut blocks, perm.client_class(), server, &mut state);

    assert_eq!(state.clients(), 1);

    let (_, copy) = process_client_clone(&mut alloc, &mut blocks, &perm, &client, &mut state);

    assert_eq!(copy.server(), server);
    assert_eq!(state.clients(), 2);
    assert_eq!(process_client_drop(&perm, copy, &mut state), perm.nil_singleton);
    assert_eq!(state.clients(), 1);
}

#[test]
fn test_hasher_functions() {
    let mut blocks = BlockAllocator::new();
    let mut alloc = BumpAllocator::new(&mut blocks);
    let perm = PermanentSpace::new(MethodCounts::default());
    let (_, text) =
        InkoString::allocate(&mut alloc, &mut blocks, perm.string_class(), "inko".to_string());
    let key = Pointer::unsigned_int(1);
    let mut first = hasher_new(key, &None, Pointer::unsigned_int(2), &None);
    let mut second = hasher_new(key, &None, Pointer::unsigned_int(2), &None);

    for hasher in [&mut first, &mut second] {
        assert_eq!(hasher_write_int(&perm, hasher, Pointer::integer(-4), &None), perm.nil_singleton);
        assert_eq!(
            hasher_write_unsigned_int(&perm, hasher, Pointer::unsigned_int(4), &None),
            perm.nil_singleton
        );
        assert_eq!(hasher_write_string(&perm, hasher, &text), perm.nil_singleton);
        assert_eq!(hasher_write_object(&perm, hasher, Pointer::new(0x80)), perm.nil_singleton);
    }

    let (hash1, (ptr, boxed)) = hasher_to_hash(&mut alloc, &mut blocks, &perm, &mut first);
    let (hash2, _) = hasher_to_hash(&mut alloc, &mut blocks, &perm, &mut second);

    assert_eq!(hash1, hash2);
    assert_eq!(UnsignedInt::read(ptr, &boxed), hash1);

    // The hasher starts over after producing a hash.
    let (empty1, _) = hasher_to_hash(&mut alloc, &mut blocks, &perm, &mut first);
    let mut fresh = hasher_new(key, &None, Pointer::unsigned_int(2), &None);
    let (empty2, _) = hasher_to_hash(&mut alloc, &mut blocks, &perm, &mut fresh);

    assert_eq!(empty1, empty2);
}
