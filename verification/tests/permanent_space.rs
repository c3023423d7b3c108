use libinko::indexes::LiteralIndex;
use libinko::mem::allocator::Pointer;
use libinko::mem::generator::GENERATOR_SIZE;
use libinko::mem::objects::{
    Class, ClassPointer, Header, Int, OwnedClass, UnsignedInt, ARRAY_SIZE, BYTE_ARRAY_SIZE, FLOAT_SIZE,
    INT_SIZE, METHOD_SIZE, OBJECT_SIZE, SERVER_SIZE, STRING_SIZE,
};
use libinko::mem::permanent_space::{MethodCounts, PermanentSpace};
use libinko::mem::process::{CLIENT_SIZE, FUTURE_SIZE};

fn class(name: &str, address: u64) -> OwnedClass {
    OwnedClass::new(
        ClassPointer::new(Pointer::new(address)),
        Class::object(name.to_string(), Vec::new(), 0),
    )
}

#[test]
fn test_class_instance_sizes() {
    let perm = PermanentSpace::new(MethodCounts::default());

    assert_eq!(perm.int_class.class().instance_size(), INT_SIZE);
    assert_eq!(perm.unsigned_int_class.class().instance_size(), INT_SIZE);
    assert_eq!(perm.float_class.class().instance_size(), FLOAT_SIZE);
    assert_eq!(perm.string_class.class().instance_size(), STRING_SIZE);
    assert_eq!(perm.array_class.class().instance_size(), ARRAY_SIZE);
    assert_eq!(perm.method_class.class().instance_size(), METHOD_SIZE);
    assert_eq!(perm.boolean_class.class().instance_size(), OBJECT_SIZE);
    assert_eq!(perm.nil_class.class().instance_size(), OBJECT_SIZE);
    assert_eq!(perm.undefined_class.class().instance_size(), OBJECT_SIZE);
    assert_eq!(perm.byte_array_class.class().instance_size(), BYTE_ARRAY_SIZE);
    assert_eq!(perm.generator_class.class().instance_size(), GENERATOR_SIZE);
    assert_eq!(perm.future_class.class().instance_size(), FUTURE_SIZE);
    assert_eq!(perm.main_process_class.class().instance_size(), SERVER_SIZE);
    assert_eq!(perm.client_class.class().instance_size(), CLIENT_SIZE);
}

#[test]
fn test_permanent_space_method_counts() {
    let mut counts = MethodCounts::default();

    counts.int_class = 1;
    counts.client_class = 14;

    let perm = PermanentSpace::new(counts);

    assert_eq!(perm.int_class.class().number_of_methods(), 1);
    assert_eq!(perm.client_class.class().number_of_methods(), 14);
    assert_eq!(perm.main_process_class.class().number_of_methods(), 0);
    assert_eq!(perm.int_class.class().name(), "Int");
    assert!(perm.int_class() == perm.int_class.pointer());
    assert!(perm.int_class().as_pointer().is_permanent());
    assert!(perm.true_singleton.is_permanent());
    assert_ne!(perm.true_singleton, perm.false_singleton);
}

#[test]
fn test_allocate_string_interns() {
    let mut perm = PermanentSpace::new(MethodCounts::default());
    let first = perm.allocate_string("inko".to_string());
    let second = perm.allocate_string("inko".to_string());
    let other = perm.allocate_string("other".to_string());

    assert_eq!(first, second);
    assert_ne!(first, other);
}

#[test]
fn test_allocate_integers() {
    let mut perm = PermanentSpace::new(MethodCounts::default());
    let (small, small_box) = perm.allocate_int(42);
    let (large, large_box) = perm.allocate_int(i64::MAX);
    let (unsigned, unsigned_box) = perm.allocate_unsigned_int(u64::MAX);

    assert!(small_box.is_none());
    assert_eq!(Int::read(small, &small_box), 42);
    assert!(large_box.is_some());
    assert_eq!(Int::read(large, &large_box), i64::MAX);
    assert_eq!(UnsignedInt::read(unsigned, &unsigned_box), u64::MAX);
}

#[test]
fn test_modules() {
    let mut perm = PermanentSpace::new(MethodCounts::default());
    let main = perm.allocate_module(class("main", 0x10), "main.inko".to_string(), vec![Pointer::integer(4)], 1);
    let other = perm.allocate_module(class("std::string", 0x20), "string.inko".to_string(), Vec::new(), 0);

    perm.add_modules(vec![main, other]);

    let module = perm.get_module("main").unwrap();

    assert_eq!(module.name(), "main");
    assert_eq!(module.source_path(), "main.inko");
    assert_eq!(module.get_literal(LiteralIndex::new(0)), Pointer::integer(4));
    assert_eq!(perm.list_modules().len(), 2);
    assert_eq!(
        perm.get_module("missing").err().unwrap(),
        "The module missing doesn't exist".to_string()
    );
}

#[test]
fn test_get_module_for_execution() {
    let mut perm = PermanentSpace::new(MethodCounts::default());
    let main = perm.allocate_module(class("main", 0x10), "main.inko".to_string(), Vec::new(), 0);

    perm.add_modules(vec![main]);

    let (module, execute) = perm.get_module_for_execution("main").unwrap();

    assert_eq!(module.name(), "main");
    assert!(execute);

    let (_, execute) = perm.get_module_for_execution("main").unwrap();

    assert!(!execute);
    assert_eq!(
        perm.get_module_for_execution("std::foo").err().unwrap(),
        "The module std::foo doesn't exist".to_string()
    );
}

#[test]
fn test_class_of() {
    let perm = PermanentSpace::new(MethodCounts::default());
    let header = Header { class: ClassPointer::new(Pointer::new(0x50)), references: 0 };

    assert!(Class::of(&perm, Pointer::integer(3), &header) == perm.int_class());
    assert!(Class::of(&perm, Pointer::unsigned_int(3), &header) == perm.unsigned_int_class());
    assert!(Class::of(&perm, Pointer::new(0x80), &header) == header.class);
}
