use libinko::indexes::{FieldIndex, GlobalIndex, MethodIndex};
use libinko::instruction::{Instruction, Opcode};
use libinko::mem::allocator::{BlockAllocator, BumpAllocator, Pointer};
use libinko::mem::objects::{
    ByteArray, Class, ClassPointer, Int, Method, MethodPointer, Module, ModulePointer, Object, OwnedClass,
    OwnedModule, UnsignedInt,
};

fn method(name: &str, hash: u32) -> Method {
    Method {
        hash,
        name: name.to_string(),
        file: "test.inko".to_string(),
        line: 4,
        locals: 2,
        registers: 2,
        arguments: Vec::new(),
        instructions: vec![Instruction::new(Opcode::Return, [0; 6], 4)],
        module: ModulePointer::new(Pointer::new(0x8)),
    }
}

#[test]
fn test_class_new() {
    let class = Class::allocate("A".to_string(), vec!["@a".to_string()], 0, 24);

    assert_eq!(class.fields().len(), 1);
    assert_eq!(class.number_of_methods(), 0);
    assert_eq!(class.instance_size(), 24);
}

#[test]
fn test_class_new_object() {
    let class = Class::object("A".to_string(), vec!["@a".to_string()], 0);

    assert_eq!(class.fields().len(), 1);
    assert_eq!(class.number_of_methods(), 0);
    assert_eq!(class.instance_size(), 24);
}

#[test]
fn test_class_new_process() {
    let class = Class::process("A".to_string(), vec!["@a".to_string()], 0);

    assert_eq!(class.fields().len(), 1);
    assert_eq!(class.number_of_methods(), 0);
    assert_eq!(class.instance_size(), 48);
}

#[test]
fn test_class_methods() {
    let mut class = Class::object("foo_mod".to_string(), Vec::new(), 2);

    class.set_method(MethodIndex::new(0), method("foo", 1));
    class.set_method(MethodIndex::new(1), method("bar", 2));

    assert_eq!(class.get_method(MethodIndex::new(0)).unwrap().name, "foo");
    assert_eq!(class.get_method(MethodIndex::new(1)).unwrap().name, "bar");
}

#[test]
fn test_class_get_hashed_method_probes_the_following_slots() {
    let mut class = Class::object("A".to_string(), Vec::new(), 4);

    // Both hashes start at slot 1; the second one is stored in the next slot.
    class.set_method(MethodIndex::new(1), method("first", 5));
    class.set_method(MethodIndex::new(2), method("second", 9));
    class.set_method(MethodIndex::new(3), method("third", 3));

    assert_eq!(class.get_hashed_method(5).name, "first");
    assert_eq!(class.get_hashed_method(9).name, "second");
    assert_eq!(class.get_hashed_method(3).name, "third");
}

#[test]
fn test_class_get_hashed_method_wraps_around() {
    let mut class = Class::object("A".to_string(), Vec::new(), 2);

    class.set_method(MethodIndex::new(0), method("wrapped", 7));

    assert_eq!(class.get_hashed_method(7).name, "wrapped");
}

#[test]
fn test_module_mark_as_executed_only_once() {
    let class = OwnedClass::new(ClassPointer::new(Pointer::new(0x10)), Class::object("foo".to_string(), Vec::new(), 0));
    let mut module = Module::allocate(class, "test.inko".to_string(), Vec::new(), 2);

    assert!(module.mark_as_executed());
    assert!(!module.mark_as_executed());
    assert_eq!(module.name(), "foo");
    assert_eq!(module.source_path(), "test.inko");
    assert_eq!(module.class().as_pointer(), Pointer::new(0x10));
}

#[test]
fn test_module_globals() {
    let class = OwnedClass::new(ClassPointer::new(Pointer::new(0x10)), Class::object("foo".to_string(), Vec::new(), 0));
    let mut module = Module::allocate(class, "test.inko".to_string(), Vec::new(), 2);

    assert_eq!(module.get_global(GlobalIndex::new(1)), Pointer::new(0));

    module.set_global(GlobalIndex::new(1), Pointer::integer(42));

    assert_eq!(module.get_global(GlobalIndex::new(1)), Pointer::integer(42));
    assert_eq!(module.get_global(GlobalIndex::new(0)), Pointer::new(0));
}

#[test]
fn test_module_add_class() {
    let class = OwnedClass::new(ClassPointer::new(Pointer::new(0x10)), Class::object("foo".to_string(), Vec::new(), 0));
    let mut module = Module::allocate(class, "test.inko".to_string(), Vec::new(), 0);
    let other = OwnedClass::new(ClassPointer::new(Pointer::new(0x20)), Class::object("Bar".to_string(), Vec::new(), 0));

    module.add_class(other);

    assert_eq!(module.classes().len(), 2);
    assert_eq!(module.classes()[1].class().name(), "Bar");
    let owned = OwnedModule::new(module);
    assert_eq!(owned.module().classes().len(), 2);
}

#[test]
fn test_pointer_wrappers() {
    let raw = Pointer::new(0x4);

    assert_eq!(MethodPointer::new(raw).as_pointer(), raw);
    assert_eq!(ClassPointer::new(raw).as_pointer(), raw);
    assert_eq!(ModulePointer::new(raw).as_pointer(), raw);
}

#[test]
fn test_byte_array_take_bytes() {
    let mut array = ByteArray::new(ClassPointer::new(Pointer::new(0x10)), vec![1, 2, 3]);

    assert_eq!(array.take_bytes(), vec![1, 2, 3]);
    assert!(array.value().is_empty());

    array.value_mut().push(4);

    assert_eq!(array.value(), &vec![4]);
}

#[test]
fn test_object_fields() {
    let mut object = Object::new(ClassPointer::new(Pointer::new(0x10)), 2);

    assert_eq!(object.get(FieldIndex::new(1)), Pointer::new(0));

    object.set(FieldIndex::new(1), Pointer::integer(3));

    assert_eq!(object.get(FieldIndex::new(1)), Pointer::integer(3));
}

#[test]
fn test_int_allocate_tags_small_values() {
    let mut blocks = BlockAllocator::new();
    let mut alloc = BumpAllocator::new(&mut blocks);
    let class = ClassPointer::new(Pointer::new(0x10));
    let (ptr, boxed) = Int::allocate(&mut alloc, &mut blocks, class, 42);

    assert!(boxed.is_none());
    assert!(ptr.is_tagged_int());
    assert_eq!(Int::read(ptr, &boxed), 42);
}

#[test]
fn test_int_allocate_boxes_large_values() {
    let mut blocks = BlockAllocator::new();
    let mut alloc = BumpAllocator::new(&mut blocks);
    let class = ClassPointer::new(Pointer::new(0x10));
    let (ptr, boxed) = Int::allocate(&mut alloc, &mut blocks, class, i64::MAX);

    assert!(boxed.is_some());
    assert!(!ptr.is_tagged_int());
    assert_eq!(Int::read(ptr, &boxed), i64::MAX);

    let (uptr, uboxed) = UnsignedInt::allocate(&mut alloc, &mut blocks, class, u64::MAX);

    assert!(uboxed.is_some());
    assert_eq!(UnsignedInt::read(uptr, &uboxed), u64::MAX);
}
