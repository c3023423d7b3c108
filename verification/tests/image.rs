use libinko::config::Config;
use libinko::image::{
    read_argument_names, read_class, read_class_fields, read_i64, read_instruction,
    read_instructions, read_literal, read_literals, read_method, read_methods, read_string,
    read_u16, read_u64, read_u8, Image, ImageError, Literal, Stream, LITERAL_FLOAT,
    LITERAL_INTEGER, LITERAL_STRING, LITERAL_UNSIGNED_INTEGER, SIGNATURE_BYTES, VERSION,
};
use libinko::image::loader::{load_class, load_module};
use libinko::image::{ClassData, IndexedMethod, MethodData, ModuleData};
use libinko::indexes::MethodIndex;
use libinko::instruction::Opcode;
use libinko::mem::allocator::Pointer;
use libinko::mem::objects::{Class, ClassPointer, ModulePointer};
use libinko::mem::permanent_space::{MethodCounts, PermanentSpace};
use libinko::test::{empty_class, empty_module};

fn pack_signature(buffer: &mut Vec<u8>) {
    buffer.extend_from_slice(&SIGNATURE_BYTES);
}

fn pack_u8(buffer: &mut Vec<u8>, value: u8) {
    buffer.push(value);
}

fn pack_u16(buffer: &mut Vec<u8>, value: u16) {
    buffer.extend_from_slice(&value.to_le_bytes());
}

fn pack_u32(buffer: &mut Vec<u8>, value: u32) {
    buffer.extend_from_slice(&value.to_le_bytes());
}

fn pack_u64(buffer: &mut Vec<u8>, value: u64) {
    buffer.extend_from_slice(&value.to_le_bytes());
}

fn pack_i64(buffer: &mut Vec<u8>, value: i64) {
    buffer.extend_from_slice(&value.to_le_bytes());
}

fn pack_f64(buffer: &mut Vec<u8>, value: f64) {
    pack_u64(buffer, value.to_bits());
}

fn pack_version(buffer: &mut Vec<u8>) {
    buffer.push(VERSION);
}

fn pack_string(buffer: &mut Vec<u8>, string: &str) {
    pack_u32(buffer, string.len() as u32);
    buffer.extend_from_slice(string.as_bytes());
}

#[test]
fn test_read_string() {
    let mut buffer = Vec::new();

    pack_string(&mut buffer, "inko");

    let output = read_string(&mut Stream::new(buffer)).unwrap();

    assert_eq!(output, "inko".to_string());
}

#[test]
fn test_read_string_too_large() {
    let mut buffer = Vec::new();

    pack_u32(&mut buffer, u32::MAX);

    let output = read_string(&mut Stream::new(buffer));

    assert!(output.is_err());
}

#[test]
fn test_read_string_longer_than_size() {
    let mut buffer = Vec::new();

    pack_u32(&mut buffer, 2);
    pack_signature(&mut buffer);

    let output = read_string(&mut Stream::new(buffer)).unwrap();

    assert_eq!(output, "in".to_string());
}

#[test]
fn test_read_string_invalid_utf8() {
    let mut buffer = Vec::new();

    pack_u32(&mut buffer, 4);
    pack_u8(&mut buffer, 0);
    pack_u8(&mut buffer, 159);
    pack_u8(&mut buffer, 146);
    pack_u8(&mut buffer, 150);

    let output = read_string(&mut Stream::new(buffer));

    assert!(output.is_err());
}

#[test]
fn test_read_string_empty() {
    let buffer = Vec::new();
    let output = read_string(&mut Stream::new(buffer));

    assert!(output.is_err());
}

#[test]
fn test_read_u8() {
    let mut buffer = Vec::new();

    pack_u8(&mut buffer, 2);

    let output = read_u8(&mut Stream::new(buffer)).unwrap();

    assert_eq!(output, 2);
}

#[test]
fn test_read_u8_empty() {
    let buffer = Vec::new();
    let output = read_u8(&mut Stream::new(buffer));

    assert!(output.is_err());
}

#[test]
fn test_read_u16() {
    let mut buffer = Vec::new();

    pack_u16(&mut buffer, 2);

    let output = read_u16(&mut Stream::new(buffer)).unwrap();

    assert_eq!(output, 2);
}

#[test]
fn test_read_u16_empty() {
    let buffer = Vec::new();
    let output = read_u16(&mut Stream::new(buffer));

    assert!(output.is_err());
}

#[test]
fn test_read_i64() {
    let mut buffer = Vec::new();

    pack_u64(&mut buffer, 2);

    let output = read_i64(&mut Stream::new(buffer)).unwrap();

    assert_eq!(output, 2);
}

#[test]
fn test_read_i64_empty() {
    let buffer = Vec::new();
    let output = read_i64(&mut Stream::new(buffer));

    assert!(output.is_err());
}

#[test]
fn test_read_instructions() {
    let mut buffer = Vec::new();

    pack_u32(&mut buffer, 1);
    pack_u8(&mut buffer, 0);
    pack_u8(&mut buffer, 1);
    pack_u16(&mut buffer, 6);
    pack_u16(&mut buffer, 2);

    let ins = read_instructions(&mut Stream::new(buffer)).unwrap();

    assert_eq!(ins.len(), 1);
    assert_eq!(ins[0].opcode, Opcode::Allocate);
    assert_eq!(ins[0].arg(0), 6);
    assert_eq!(ins[0].line, 2);
}

#[test]
fn test_read_argument_names() {
    let mut buffer = Vec::new();

    pack_u8(&mut buffer, 1);
    pack_string(&mut buffer, "number");

    let args = read_argument_names(&mut Stream::new(buffer)).unwrap();

    assert_eq!(args.len(), 1);
    assert_eq!(&args[0], &"number");
}

#[test]
fn test_read_class_fields() {
    let mut buffer = Vec::new();

    pack_u8(&mut buffer, 1);
    pack_string(&mut buffer, "@number");

    let output = read_class_fields(&mut Stream::new(buffer)).unwrap();

    assert_eq!(output, &["@number".to_string()]);
}

#[test]
fn test_read_string_errors_name_their_cause() {
    let mut buffer = Vec::new();

    pack_u32(&mut buffer, 2);
    pack_u8(&mut buffer, 0xff);
    pack_u8(&mut buffer, 0xfe);

    assert_eq!(read_string(&mut Stream::new(buffer)), Err(ImageError::InvalidUtf8));
    assert_eq!(read_string(&mut Stream::new(Vec::new())), Err(ImageError::UnexpectedEnd));
}

#[test]
fn test_read_u16_is_little_endian() {
    let output = read_u16(&mut Stream::new(vec![0x34, 0x12])).unwrap();

    assert_eq!(output, 0x1234);
}

#[test]
fn test_read_i64_negative() {
    let mut buffer = Vec::new();

    pack_u64(&mut buffer, (-2_i64) as u64);

    assert_eq!(read_i64(&mut Stream::new(buffer)).unwrap(), -2);
}

#[test]
fn test_read_instructions_rejects_too_many_arguments() {
    let mut buffer = Vec::new();

    pack_u32(&mut buffer, 1);
    pack_u8(&mut buffer, 0);
    pack_u8(&mut buffer, 7);

    assert_eq!(read_instructions(&mut Stream::new(buffer)), Err(ImageError::TooManyArguments(7)));
}

#[test]
fn test_read_instructions_rejects_unknown_opcode() {
    let mut buffer = Vec::new();

    pack_u32(&mut buffer, 1);
    pack_u8(&mut buffer, 250);

    assert_eq!(read_instructions(&mut Stream::new(buffer)), Err(ImageError::InvalidOpcode(250)));
}

#[test]
fn test_load_empty() {
    let config = Config::new();
    let buffer = Vec::new();
    let output = Image::load(config, &mut Stream::new(buffer));

    assert!(output.is_err());
}

#[test]
fn test_load_invalid_signature() {
    let config = Config::new();
    let mut buffer = Vec::new();

    pack_string(&mut buffer, "cats");

    let output = Image::load(config, &mut Stream::new(buffer));

    assert!(output.is_err());
}

#[test]
fn test_load_invalid_version() {
    let config = Config::new();
    let mut buffer = Vec::new();

    pack_signature(&mut buffer);

    buffer.push(VERSION + 1);

    let output = Image::load(config, &mut Stream::new(buffer));

    assert!(output.is_err());
}

#[test]
fn test_load_valid() {
    let config = Config::new();
    let mut buffer = Vec::new();

    pack_signature(&mut buffer);
    pack_version(&mut buffer);

    // Built-in method counts
    pack_u16(&mut buffer, 1); // Int
    pack_u16(&mut buffer, 2); // UnsignedInt
    pack_u16(&mut buffer, 4); // Float
    pack_u16(&mut buffer, 5); // String
    pack_u16(&mut buffer, 6); // Array
    pack_u16(&mut buffer, 7); // Method
    pack_u16(&mut buffer, 9); // Boolean
    pack_u16(&mut buffer, 10); // NilType
    pack_u16(&mut buffer, 11); // ByteArray
    pack_u16(&mut buffer, 12); // Generator
    pack_u16(&mut buffer, 13); // Future
    pack_u16(&mut buffer, 14); // Client

    // Entry module and method
    pack_string(&mut buffer, "main");
    pack_u16(&mut buffer, 42);

    // The first (and only module)
    pack_u64(&mut buffer, 1);

    // The number of bytes for this module.
    pack_u64(&mut buffer, 169);

    pack_string(&mut buffer, "main");
    pack_string(&mut buffer, "main.inko");
    pack_u16(&mut buffer, 2);
    pack_u16(&mut buffer, 1);

    // The module's literals
    pack_u32(&mut buffer, 1);
    pack_u8(&mut buffer, LITERAL_UNSIGNED_INTEGER);
    pack_u64(&mut buffer, 42);

    // Classes defined in the module
    pack_u16(&mut buffer, 1);
    pack_u8(&mut buffer, 0);
    pack_string(&mut buffer, "Counter");
    pack_u8(&mut buffer, 1);
    pack_string(&mut buffer, "@number");

    // The methods of the class
    pack_u16(&mut buffer, 1);
    pack_u16(&mut buffer, 0);
    pack_u32(&mut buffer, 123);
    pack_string(&mut buffer, "add");
    pack_string(&mut buffer, "main.inko");
    pack_u16(&mut buffer, 4);
    pack_u16(&mut buffer, 1);
    pack_u16(&mut buffer, 2);

    // The method arguments
    pack_u8(&mut buffer, 1);
    pack_string(&mut buffer, "value");

    // The method instructions
    pack_u32(&mut buffer, 1);
    pack_u8(&mut buffer, Opcode::Return as u8);
    pack_u8(&mut buffer, 1);
    pack_u16(&mut buffer, 2);
    pack_u16(&mut buffer, 4);

    // The module methods
    pack_u16(&mut buffer, 0);
    pack_u32(&mut buffer, 456);
    pack_string(&mut buffer, "new_counter");
    pack_string(&mut buffer, "main.inko");
    pack_u16(&mut buffer, 5);
    pack_u16(&mut buffer, 0);
    pack_u16(&mut buffer, 0);
    pack_u8(&mut buffer, 0);

    // The method instructions
    pack_u32(&mut buffer, 1);
    pack_u8(&mut buffer, Opcode::Return as u8);
    pack_u8(&mut buffer, 1);
    pack_u16(&mut buffer, 2);
    pack_u16(&mut buffer, 5);

    let image = Image::load(config, &mut Stream::new(buffer)).unwrap();
    let entry_method: u16 = image.entry_method.into();
    let counts = image.counts;

    assert_eq!(counts.int_class, 1);
    assert_eq!(counts.unsigned_int_class, 2);
    assert_eq!(counts.float_class, 4);
    assert_eq!(counts.string_class, 5);
    assert_eq!(counts.array_class, 6);
    assert_eq!(counts.method_class, 7);
    assert_eq!(counts.boolean_class, 9);
    assert_eq!(counts.nil_class, 10);
    assert_eq!(counts.byte_array_class, 11);
    assert_eq!(counts.generator_class, 12);
    assert_eq!(counts.future_class, 13);
    assert_eq!(counts.client_class, 14);

    assert_eq!(image.entry_module, "main".to_string());
    assert_eq!(entry_method, 42);

    let module = &image.modules[0];

    assert_eq!(module.name, "main");
    assert_eq!(module.path, "main.inko");
    assert_eq!(module.literals, vec![Literal::UnsignedInt(42)]);

    // The module's own class holds the module methods; the classes read
    // are the ones defined in the module.
    assert_eq!(module.num_methods, 1);
    assert_eq!(module.classes.len(), 1);

    let counter_class = &module.classes[0];

    assert_eq!(counter_class.name, "Counter");
    assert_eq!(counter_class.methods.len(), 1);
    assert_eq!(counter_class.fields, &["@number".to_string()]);

    let add_meth = &counter_class.methods[0].method;
    let new_meth = &module.methods[0].method;

    assert_eq!(counter_class.methods[0].index, 0);
    assert_eq!(add_meth.hash, 123);
    assert_eq!(&add_meth.name, &"add");
    assert_eq!(&add_meth.file, &"main.inko");
    assert_eq!(add_meth.line, 4);
    assert_eq!(add_meth.locals, 1);
    assert_eq!(add_meth.registers, 2);
    assert_eq!(&add_meth.arguments, &["value".to_string()]);
    assert_eq!(add_meth.instructions[0].opcode, Opcode::Return);
    assert_eq!(add_meth.instructions[0].arg(0), 2);
    assert_eq!(add_meth.instructions[0].line, 4);

    assert_eq!(module.methods[0].index, 0);
    assert_eq!(new_meth.hash, 456);
    assert_eq!(&new_meth.name, &"new_counter");
    assert_eq!(&new_meth.file, &"main.inko");
    assert_eq!(new_meth.line, 5);
    assert_eq!(new_meth.locals, 0);
    assert_eq!(new_meth.registers, 0);
    assert_eq!(new_meth.arguments.len(), 0);
    assert_eq!(new_meth.instructions[0].opcode, Opcode::Return);
    assert_eq!(new_meth.instructions[0].arg(0), 2);
    assert_eq!(new_meth.instructions[0].line, 5);
}

#[test]
fn test_read_f64() {
    let mut buffer = Vec::new();

    pack_f64(&mut buffer, 2.123456);

    // A float is read as the bits of an IEEE 754 double.
    let output = f64::from_bits(read_u64(&mut Stream::new(buffer)).unwrap());

    assert!((2.123456 - output).abs() < 0.00001);
}

#[test]
fn test_read_f64_empty() {
    let buffer = Vec::new();
    let output = read_u64(&mut Stream::new(buffer));

    assert!(output.is_err());
}

#[test]
fn test_read_instruction() {
    let mut buffer = Vec::new();

    pack_u8(&mut buffer, 0);
    pack_u8(&mut buffer, 1);
    pack_u16(&mut buffer, 6);
    pack_u16(&mut buffer, 2);

    let ins = read_instruction(&mut Stream::new(buffer)).unwrap();

    assert_eq!(ins.opcode, Opcode::Allocate);
    assert_eq!(ins.arg(0), 6);
    assert_eq!(ins.line, 2);
}

#[test]
fn test_read_class() {
    let mut buffer = Vec::new();

    pack_u8(&mut buffer, 0);
    pack_string(&mut buffer, "A");
    pack_u8(&mut buffer, 1);
    pack_string(&mut buffer, "@number");
    pack_u16(&mut buffer, 0);

    let data = read_class(&mut Stream::new(buffer)).unwrap();

    assert_eq!(data.kind, 0);
    assert_eq!(data.name, "A");
    assert_eq!(data.fields, &["@number".to_string()]);
    assert!(data.methods.is_empty());

    let mut perm = PermanentSpace::new(MethodCounts::default());
    let mut module = empty_module(empty_class("main", ClassPointer::new(Pointer::new(0x10))));
    let module_pointer = ModulePointer::new(Pointer::new(0x20));
    let class_pointer = ClassPointer::new(Pointer::new(0x30));

    assert!(load_class(&mut perm, module.module_mut(), module_pointer, class_pointer, data).is_ok());

    let classes = module.module().classes();

    assert_eq!(classes.len(), 2);
    assert_eq!(classes[1].class().name(), &"A");
    assert_eq!(classes[1].class().fields(), &["@number".to_string()]);
    assert_eq!(classes[1].class().instance_size(), 24);
    assert!(classes[1].pointer() == class_pointer);
}

#[test]
fn test_read_class_with_process_class() {
    let mut buffer = Vec::new();

    pack_u8(&mut buffer, 1);
    pack_string(&mut buffer, "A");
    pack_u8(&mut buffer, 1);
    pack_string(&mut buffer, "@number");
    pack_u16(&mut buffer, 0);

    let data = read_class(&mut Stream::new(buffer)).unwrap();

    assert_eq!(data.kind, 1);

    let class = Class::process(data.name, data.fields, 0);

    assert_eq!(class.name(), &"A");
    assert_eq!(class.fields(), &["@number".to_string()]);
    assert_eq!(class.instance_size(), 48);
}

#[test]
fn test_read_class_with_builtin_class() {
    let mut buffer = Vec::new();

    pack_u8(&mut buffer, 2);
    pack_string(&mut buffer, "A");
    pack_u8(&mut buffer, 0);
    pack_u16(&mut buffer, 1);

    pack_u16(&mut buffer, 0);
    pack_u32(&mut buffer, 123);
    pack_string(&mut buffer, "add");
    pack_string(&mut buffer, "main.inko");
    pack_u16(&mut buffer, 0);
    pack_u16(&mut buffer, 0);
    pack_u16(&mut buffer, 0);
    pack_u8(&mut buffer, 0);
    pack_u32(&mut buffer, 0);

    let data = read_class(&mut Stream::new(buffer)).unwrap();

    // A built-in class gets the methods; no class is defined.
    assert_eq!(data.kind, 2);
    assert_eq!(data.methods.len(), 1);
    assert_eq!(data.methods[0].index, 0);
    assert_eq!(&data.methods[0].method.name, &"add");

    let counts = MethodCounts { int_class: 1, ..MethodCounts::default() };
    let mut perm = PermanentSpace::new(counts);
    let mut module = empty_module(empty_class("main", ClassPointer::new(Pointer::new(0x10))));
    let module_pointer = ModulePointer::new(Pointer::new(0x20));

    assert!(load_class(
        &mut perm,
        module.module_mut(),
        module_pointer,
        ClassPointer::new(Pointer::new(0x30)),
        data
    )
    .is_ok());
    assert_eq!(module.module().classes().len(), 1);
    assert_eq!(perm.int_class.class().number_of_methods(), 1);
    assert_eq!(
        &perm.int_class.class().get_method(MethodIndex::new(0)).unwrap().name,
        &"add"
    );
}

#[test]
fn test_load_class_refuses_an_invalid_kind() {
    let mut perm = PermanentSpace::new(MethodCounts::default());
    let mut module = empty_module(empty_class("main", ClassPointer::new(Pointer::new(0x10))));
    let data = ClassData { kind: 15, name: "A".to_string(), fields: Vec::new(), methods: Vec::new() };

    assert_eq!(
        load_class(
            &mut perm,
            module.module_mut(),
            ModulePointer::new(Pointer::new(0x20)),
            ClassPointer::new(Pointer::new(0x30)),
            data
        ),
        Err(ImageError::InvalidClassKind(15))
    );
    assert_eq!(module.module().classes().len(), 1);
}

#[test]
fn test_load_module() {
    let mut perm = PermanentSpace::new(MethodCounts::default());
    let method = |name: &str| MethodData {
        hash: 1,
        name: name.to_string(),
        file: "main.inko".to_string(),
        line: 1,
        locals: 0,
        registers: 0,
        arguments: Vec::new(),
        instructions: Vec::new(),
    };
    let data = ModuleData {
        name: "main".to_string(),
        path: "main.inko".to_string(),
        globals: 2,
        num_methods: 2,
        literals: Vec::new(),
        classes: vec![
            ClassData { kind: 0, name: "A".to_string(), fields: Vec::new(), methods: Vec::new() },
            ClassData { kind: 1, name: "P".to_string(), fields: Vec::new(), methods: Vec::new() },
        ],
        methods: vec![IndexedMethod { index: 1, method: method("main") }],
    };
    let pointers = vec![
        ClassPointer::new(Pointer::new(0x30)),
        ClassPointer::new(Pointer::new(0x40)),
    ];
    let module = load_module(
        &mut perm,
        ModulePointer::new(Pointer::new(0x20)),
        ClassPointer::new(Pointer::new(0x10)),
        &pointers,
        vec![Pointer::integer(3)],
        data,
    )
    .unwrap();
    let module = module.module();

    assert_eq!(module.name(), "main");
    assert_eq!(module.source_path(), "main.inko");
    assert_eq!(module.literals(), &vec![Pointer::integer(3)]);
    assert_eq!(module.classes().len(), 3);
    assert_eq!(module.classes()[1].class().name(), "A");
    assert_eq!(module.classes()[2].class().name(), "P");
    let main = module.classes()[0].class();
    assert!(main.get_method(MethodIndex::new(0)).is_none());
    assert_eq!(&main.get_method(MethodIndex::new(1)).unwrap().name, "main");
}


#[test]
fn test_read_method() {
    let mut buffer = Vec::new();

    pack_u32(&mut buffer, 123);
    pack_string(&mut buffer, "add");
    pack_string(&mut buffer, "main.inko");
    pack_u16(&mut buffer, 1);
    pack_u16(&mut buffer, 2);
    pack_u16(&mut buffer, 3);
    pack_u8(&mut buffer, 0);
    pack_u32(&mut buffer, 0);

    let method = read_method(&mut Stream::new(buffer)).unwrap();

    assert_eq!(method.hash, 123);
    assert_eq!(&method.name, &"add");
    assert_eq!(&method.file, &"main.inko");
    assert_eq!(method.line, 1);
    assert_eq!(method.locals, 2);
    assert_eq!(method.registers, 3);
    assert_eq!(method.arguments.len(), 0);
}

#[test]
fn test_read_methods() {
    let mut buffer = Vec::new();

    pack_u16(&mut buffer, 1);
    pack_u32(&mut buffer, 123);
    pack_string(&mut buffer, "add");
    pack_string(&mut buffer, "main.inko");
    pack_u16(&mut buffer, 1);
    pack_u16(&mut buffer, 2);
    pack_u16(&mut buffer, 3);
    pack_u8(&mut buffer, 0);
    pack_u32(&mut buffer, 0);

    let methods = read_methods(&mut Stream::new(buffer), 1).unwrap();

    assert_eq!(methods.len(), 1);
    assert_eq!(methods[0].index, 1);
    assert_eq!(&methods[0].method.name, &"add");
}

#[test]
fn test_read_literals() {
    let mut buffer = Vec::new();

    pack_u32(&mut buffer, 4);
    pack_u8(&mut buffer, LITERAL_INTEGER);
    pack_i64(&mut buffer, -2);
    pack_u8(&mut buffer, LITERAL_UNSIGNED_INTEGER);
    pack_u64(&mut buffer, 2);
    pack_u8(&mut buffer, LITERAL_FLOAT);
    pack_f64(&mut buffer, 2.0);
    pack_u8(&mut buffer, LITERAL_STRING);
    pack_string(&mut buffer, "inko");

    let output = read_literals(&mut Stream::new(buffer)).unwrap();

    assert_eq!(output.len(), 4);
    assert_eq!(output[0], Literal::Int(-2));
    assert_eq!(output[1], Literal::UnsignedInt(2));
    assert_eq!(output[2], Literal::Float(2.0f64.to_bits()));
    assert_eq!(output[3], Literal::String("inko".to_string()));
}

#[test]
fn test_read_literal_invalid() {
    let mut buffer = Vec::new();

    pack_u8(&mut buffer, 255);

    assert!(read_literal(&mut Stream::new(buffer)).is_err());
}
