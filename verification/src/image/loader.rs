//! Loading the data of a bytecode image into classes, methods and modules.
use vstd::prelude::*;
use crate::image::{ClassData, ImageError, IndexedMethod, MethodData, ModuleData, MAX_CLASS_KIND};
use crate::indexes::MethodIndex;
use crate::mem::objects::{
    Class,
    ClassPointer,
    Method,
    Module,
    ModulePointer,
    OwnedClass,
    OwnedModule,
    OBJECT_SIZE,
    POINTER_SIZE,
    SERVER_SIZE,
};
use crate::mem::allocator::Pointer;
use crate::mem::permanent_space::PermanentSpace;

verus! {

/// The method that a method's data describes, defined in `module`.
pub open spec fn method_of(data: MethodData, module: ModulePointer) -> Method {
    Method {
        hash: data.hash,
        name: data.name,
        file: data.file,
        line: data.line,
        locals: data.locals,
        registers: data.registers,
        arguments: data.arguments,
        instructions: data.instructions,
        module,
    }
}

/// The data of the last of `methods` for slot `index`, if any.
pub open spec fn last_for(methods: Seq<IndexedMethod>, index: int) -> Option<MethodData>
    decreases methods.len(),
{
    if methods.len() == 0 {
        None
    } else if methods.last().index == index {
        Some(methods.last().method)
    } else {
        last_for(methods.drop_last(), index)
    }
}

/// Holds when `after` is the class `before` with the methods of `methods`
/// (defined in `module`) stored in their slots, in order: a slot holds the
/// last method stored in it, or what it held before.
pub open spec fn methods_filled(before: Class, after: Class, methods: Seq<IndexedMethod>, module: ModulePointer) -> bool {
    &&& after.wf()
    &&& after.name_view() == before.name_view()
    &&& after.field_names() == before.field_names()
    &&& after.size() == before.size()
    &&& after.slots() == before.slots()
    &&& forall|i: int|
        0 <= i < before.slots() ==> #[trigger] after.slot(i) == match last_for(methods, i) {
            Some(d) => Some(method_of(d, module)),
            None => before.slot(i),
        }
}

/// Returns the method that a method's data describes, defined in `module`.
pub fn method_from(data: MethodData, module: ModulePointer) -> (r: Method)
    ensures
        r == method_of(data, module),
{
    Method {
        hash: data.hash,
        name: data.name,
        file: data.file,
        line: data.line,
        locals: data.locals,
        registers: data.registers,
        arguments: data.arguments,
        instructions: data.instructions,
        module,
    }
}

/// Stores the methods of `methods` (defined in `module`) in their slots of
/// `class`, in order.
pub fn fill_methods(class: &mut Class, methods: Vec<IndexedMethod>, module: ModulePointer)
    requires
        old(class).wf(),
        forall|j: int| 0 <= j < methods@.len() ==> (#[trigger] methods@[j]).index < old(class).slots(),
    ensures
        methods_filled(*old(class), *final(class), methods@, module),
{
    let ghost all = methods@;
    let total = methods.len();
    let mut methods = methods;
    let mut rest: Vec<IndexedMethod> = Vec::new();
    while methods.len() > 0
        invariant
            methods@.len() + rest@.len() == all.len(),
            forall|k: int| 0 <= k < methods@.len() ==> methods@[k] == all[k],
            forall|k: int| 0 <= k < rest@.len() ==> rest@[k] == all[all.len() - 1 - k],
        decreases methods@.len(),
    {
        let m = methods.pop().unwrap();
        rest.push(m);
    }
    let mut done: usize = 0;
    proof {
        assert(methods_filled(*old(class), *class, all.subrange(0, 0), module)) by {
            assert forall|i: int| 0 <= i < old(class).slots() implies #[trigger] class.slot(i) == match last_for(
                all.subrange(0, 0),
                i,
            ) {
                Some(d) => Some(method_of(d, module)),
                None => old(class).slot(i),
            } by {}
        }
    }
    while rest.len() > 0
        invariant
            done + rest@.len() == all.len(),
            all.len() == total,
            forall|k: int| 0 <= k < rest@.len() ==> rest@[k] == all[all.len() - 1 - k],
            forall|j: int| 0 <= j < all.len() ==> (#[trigger] all[j]).index < old(class).slots(),
            methods_filled(*old(class), *class, all.subrange(0, done as int), module),
        decreases rest@.len(),
    {
        let m = rest.pop().unwrap();
        proof {
            assert(m == all[done as int]);
        }
        let index = m.index;
        let method = method_from(m.method, module);
        let ghost before = *class;
        class.set_method(MethodIndex::new(index), method);
        proof {
            let prefix = all.subrange(0, done + 1);
            assert(prefix.drop_last() =~= all.subrange(0, done as int));
            assert(prefix.last() == m);
            assert forall|i: int| 0 <= i < old(class).slots() implies #[trigger] class.slot(i) == match last_for(
                prefix,
                i,
            ) {
                Some(d) => Some(method_of(d, module)),
                None => old(class).slot(i),
            } by {
                if i != index {
                    assert(class.slot(i) == before.slot(i));
                }
            }
        }
        done = done + 1;
    }
    proof {
        assert(all.subrange(0, done as int) =~= all);
    }
}


/// The built-in class that a class kind from 2 to 14 stands for.
pub open spec fn builtin(space: PermanentSpace, kind: u8) -> OwnedClass {
    match kind {
        2 => space.int_class,
        3 => space.unsigned_int_class,
        4 => space.float_class,
        5 => space.string_class,
        6 => space.array_class,
        7 => space.boolean_class,
        8 => space.nil_class,
        9 => space.byte_array_class,
        10 => space.generator_class,
        11 => space.future_class,
        12 => space.main_process_class,
        13 => space.client_class,
        14 => space.undefined_class,
        _ => space.int_class,
    }
}

/// `space` with the built-in class of kind `kind` replaced by `class`.
pub open spec fn with_builtin(space: PermanentSpace, kind: u8, class: OwnedClass) -> PermanentSpace {
    match kind {
        2 => PermanentSpace { int_class: class, ..space },
        3 => PermanentSpace { unsigned_int_class: class, ..space },
        4 => PermanentSpace { float_class: class, ..space },
        5 => PermanentSpace { string_class: class, ..space },
        6 => PermanentSpace { array_class: class, ..space },
        7 => PermanentSpace { boolean_class: class, ..space },
        8 => PermanentSpace { nil_class: class, ..space },
        9 => PermanentSpace { byte_array_class: class, ..space },
        10 => PermanentSpace { generator_class: class, ..space },
        11 => PermanentSpace { future_class: class, ..space },
        12 => PermanentSpace { main_process_class: class, ..space },
        13 => PermanentSpace { client_class: class, ..space },
        14 => PermanentSpace { undefined_class: class, ..space },
        _ => space,
    }
}

/// The name of the built-in class that a class kind from 2 to 14 stands for.
pub open spec fn kind_class_name(kind: u8) -> Seq<char> {
    match kind {
        2 => "Int"@,
        3 => "UnsignedInt"@,
        4 => "Float"@,
        5 => "String"@,
        6 => "Array"@,
        7 => "Boolean"@,
        8 => "NilType"@,
        9 => "ByteArray"@,
        10 => "Generator"@,
        11 => "Future"@,
        12 => "Main"@,
        13 => "Client"@,
        _ => "UndefinedType"@,
    }
}

/// Holds when each built-in class of `space` that a class kind stands for
/// has its own name, as `PermanentSpace::new` names them.
pub open spec fn builtins_named(space: PermanentSpace) -> bool {
    &&& space.int_class.class_view().name_view() == "Int"@
    &&& space.unsigned_int_class.class_view().name_view() == "UnsignedInt"@
    &&& space.float_class.class_view().name_view() == "Float"@
    &&& space.string_class.class_view().name_view() == "String"@
    &&& space.array_class.class_view().name_view() == "Array"@
    &&& space.boolean_class.class_view().name_view() == "Boolean"@
    &&& space.nil_class.class_view().name_view() == "NilType"@
    &&& space.byte_array_class.class_view().name_view() == "ByteArray"@
    &&& space.generator_class.class_view().name_view() == "Generator"@
    &&& space.future_class.class_view().name_view() == "Future"@
    &&& space.main_process_class.class_view().name_view() == "Main"@
    &&& space.client_class.class_view().name_view() == "Client"@
    &&& space.undefined_class.class_view().name_view() == "UndefinedType"@
}

/// The class that a class kind from 2 to 14 stands for is the built-in
/// class of that kind's name: kind 7 the `Boolean` class, kind 8 the
/// `NilType` class, and so on.
pub proof fn lemma_builtin_kind_names(space: PermanentSpace, kind: u8)
    requires
        builtins_named(space),
        2 <= kind <= MAX_CLASS_KIND,
    ensures
        builtin(space, kind).class_view().name_view() == kind_class_name(kind),
{
}

/// Replacing the built-in class of one kind leaves the classes of the other
/// kinds, the `Method` class, the singletons, the blocks, the modules, the
/// allocator and the interned strings as they were.
pub proof fn lemma_with_builtin(space: PermanentSpace, kind: u8, class: OwnedClass, other: u8)
    requires
        2 <= kind <= MAX_CLASS_KIND,
        2 <= other <= MAX_CLASS_KIND,
    ensures
        builtin(with_builtin(space, kind, class), kind) == class,
        other != kind ==> builtin(with_builtin(space, kind, class), other) == builtin(space, other),
        with_builtin(space, kind, class).method_class == space.method_class,
        with_builtin(space, kind, class).true_singleton == space.true_singleton,
        with_builtin(space, kind, class).false_singleton == space.false_singleton,
        with_builtin(space, kind, class).nil_singleton == space.nil_singleton,
        with_builtin(space, kind, class).undefined_singleton == space.undefined_singleton,
        with_builtin(space, kind, class).blocks == space.blocks,
        with_builtin(space, kind, class).modules == space.modules,
        with_builtin(space, kind, class).allocator == space.allocator,
        with_builtin(space, kind, class).interned_strings == space.interned_strings,
{
}

/// The number of method slots of the class that class data describes: as
/// many as it has methods for a new class, else those of the built-in class.
pub open spec fn target_slots(space: PermanentSpace, data: ClassData) -> int {
    if data.kind <= 1 {
        data.methods@.len() as int
    } else {
        builtin(space, data.kind).class_view().slots() as int
    }
}

/// Holds when `class` is the new class that class data describes: named
/// and with the fields of the data, instances of `base` bytes plus a
/// pointer per field, and a slot per method holding the last method loaded
/// into it.
pub open spec fn class_loaded(class: Class, data: ClassData, base: int, module: ModulePointer) -> bool {
    &&& class.wf()
    &&& class.name_view() == data.name@
    &&& class.field_names() == data.fields@
    &&& class.size() == base + data.fields@.len() * POINTER_SIZE
    &&& class.slots() == data.methods@.len()
    &&& forall|i: int|
        0 <= i < class.slots() ==> #[trigger] class.slot(i) == match last_for(data.methods@, i) {
            Some(d) => Some(method_of(d, module)),
            None => None,
        }
}

/// Stores the methods of `methods` in the built-in class of kind `kind`.
fn fill_builtin(space: &mut PermanentSpace, kind: u8, methods: Vec<IndexedMethod>, module: ModulePointer)
    requires
        2 <= kind <= MAX_CLASS_KIND,
        builtin(*old(space), kind).class_view().wf(),
        forall|j: int|
            0 <= j < methods@.len() ==> (#[trigger] methods@[j]).index < builtin(*old(space), kind).class_view().slots(),
    ensures
        exists|class: OwnedClass|
            {
                &&& *final(space) == with_builtin(*old(space), kind, class)
                &&& class.pointer_view() == builtin(*old(space), kind).pointer_view()
                &&& methods_filled(builtin(*old(space), kind).class_view(), class.class_view(), methods@, module)
            },
{
    match kind {
        2 => fill_methods(space.int_class.class_mut(), methods, module),
        3 => fill_methods(space.unsigned_int_class.class_mut(), methods, module),
        4 => fill_methods(space.float_class.class_mut(), methods, module),
        5 => fill_methods(space.string_class.class_mut(), methods, module),
        6 => fill_methods(space.array_class.class_mut(), methods, module),
        7 => fill_methods(space.boolean_class.class_mut(), methods, module),
        8 => fill_methods(space.nil_class.class_mut(), methods, module),
        9 => fill_methods(space.byte_array_class.class_mut(), methods, module),
        10 => fill_methods(space.generator_class.class_mut(), methods, module),
        11 => fill_methods(space.future_class.class_mut(), methods, module),
        12 => fill_methods(space.main_process_class.class_mut(), methods, module),
        13 => fill_methods(space.client_class.class_mut(), methods, module),
        14 => fill_methods(space.undefined_class.class_mut(), methods, module),
        _ => {},
    }
    proof {
        assert(*space == with_builtin(*old(space), kind, builtin(*space, kind)));
    }
}

/// Loads a class of a module from its data: a class of kind 0 (a regular
/// class) or 1 (a process class) is made, referred to by `class_pointer`,
/// with its methods in their slots, and added to `module`; for kinds 2 to 14
/// the methods are stored in the built-in class of that kind. Methods are
/// defined in the module `module_pointer` refers to. Any other kind is
/// refused.
pub fn load_class(
    space: &mut PermanentSpace,
    module: &mut Module,
    module_pointer: ModulePointer,
    class_pointer: ClassPointer,
    data: ClassData,
) -> (r: Result<(), ImageError>)
    requires
        data.kind <= 1 ==> data.methods@.len() <= u16::MAX && data.fields@.len() <= 0xFFFF,
        2 <= data.kind <= MAX_CLASS_KIND ==> builtin(*old(space), data.kind).class_view().wf(),
        data.kind <= MAX_CLASS_KIND ==> forall|j: int|
            0 <= j < data.methods@.len() ==> (#[trigger] data.methods@[j]).index < target_slots(*old(space), data),
    ensures
        data.kind > MAX_CLASS_KIND ==> {
            &&& r == Err::<(), ImageError>(ImageError::InvalidClassKind(data.kind))
            &&& *final(space) == *old(space)
            &&& *final(module) == *old(module)
        },
        data.kind <= 1 ==> {
            &&& r is Ok
            &&& *final(space) == *old(space)
            &&& final(module).classes_view().len() == old(module).classes_view().len() + 1
            &&& final(module).classes_view().drop_last() == old(module).classes_view()
            &&& final(module).classes_view().last().pointer_view() == class_pointer
            &&& class_loaded(
                final(module).classes_view().last().class_view(),
                data,
                if data.kind == 0 {
                    OBJECT_SIZE as int
                } else {
                    SERVER_SIZE as int
                },
                module_pointer,
            )
            &&& final(module).class_view() == old(module).class_view()
            &&& final(module).path_view() == old(module).path_view()
            &&& final(module).globals_view() == old(module).globals_view()
            &&& final(module).literals_view() == old(module).literals_view()
            &&& final(module).executed_view() == old(module).executed_view()
            &&& old(module).wf() ==> final(module).wf()
        },
        2 <= data.kind <= MAX_CLASS_KIND ==> {
            &&& r is Ok
            &&& *final(module) == *old(module)
            &&& exists|class: OwnedClass|
                {
                    &&& *final(space) == with_builtin(*old(space), data.kind, class)
                    &&& class.pointer_view() == builtin(*old(space), data.kind).pointer_view()
                    &&& methods_filled(
                        builtin(*old(space), data.kind).class_view(),
                        class.class_view(),
                        data.methods@,
                        module_pointer,
                    )
                }
        },
        builtins_named(*old(space)) ==> builtins_named(*final(space)),
{
    let ClassData { kind, name, fields, methods } = data;
    if kind > MAX_CLASS_KIND {
        return Err(ImageError::InvalidClassKind(kind));
    }
    if kind >= 2 {
        fill_builtin(space, kind, methods, module_pointer);
        return Ok(());
    }
    let slots = methods.len() as u16;
    let mut class = if kind == 0 {
        Class::object(name, fields, slots)
    } else {
        Class::process(name, fields, slots)
    };
    let ghost fresh = class;
    fill_methods(&mut class, methods, module_pointer);
    module.add_class(OwnedClass::new(class_pointer, class));
    Ok(())
}


/// Holds when `class` is the class of a module named `name`: without
/// fields, with instances of an object's size, `slots` method slots, and in
/// each slot the last of `methods` loaded into it, if any.
pub open spec fn module_class_loaded(
    class: Class,
    name: Seq<char>,
    slots: u16,
    methods: Seq<IndexedMethod>,
    module: ModulePointer,
) -> bool {
    &&& class.wf()
    &&& class.name_view() == name
    &&& class.field_names().len() == 0
    &&& class.size() == OBJECT_SIZE
    &&& class.slots() == slots
    &&& forall|i: int|
        0 <= i < slots ==> #[trigger] class.slot(i) == match last_for(methods, i) {
            Some(d) => Some(method_of(d, module)),
            None => None,
        }
}

/// The built-in classes of `after` are those of `before`, but for their
/// methods: each keeps its pointer, its shape and its number of slots.
pub open spec fn same_builtin_shapes(before: PermanentSpace, after: PermanentSpace) -> bool {
    forall|k: u8|
        2 <= k <= MAX_CLASS_KIND ==> {
            &&& (#[trigger] builtin(after, k)).pointer_view() == builtin(before, k).pointer_view()
            &&& builtin(after, k).class_view().slots() == builtin(before, k).class_view().slots()
            &&& builtin(before, k).class_view().wf() ==> builtin(after, k).class_view().wf()
        }
}

/// Holds when class data can be loaded into `space`: the methods of a new
/// class fit in its slots and its fields in its layout, and the methods of
/// a built-in class fit in the slots of that class.
pub open spec fn loadable(space: PermanentSpace, data: ClassData) -> bool {
    &&& data.kind <= 1 ==> data.methods@.len() <= u16::MAX && data.fields@.len() <= 0xFFFF
    &&& 2 <= data.kind <= MAX_CLASS_KIND ==> builtin(space, data.kind).class_view().wf()
    &&& data.kind <= MAX_CLASS_KIND ==> forall|j: int|
        0 <= j < data.methods@.len() ==> (#[trigger] data.methods@[j]).index < target_slots(space, data)
}

/// The number of classes of kind 0 or 1 among `classes`.
pub open spec fn new_classes(classes: Seq<ClassData>) -> nat
    decreases classes.len(),
{
    if classes.len() == 0 {
        0
    } else {
        new_classes(classes.drop_last()) + if classes.last().kind <= 1 {
            1nat
        } else {
            0nat
        }
    }
}

/// Holds when some class of `classes` has a kind above the largest one.
pub open spec fn has_invalid_kind(classes: Seq<ClassData>) -> bool {
    exists|j: int| 0 <= j < classes.len() && (#[trigger] classes[j]).kind > MAX_CLASS_KIND
}

/// Loading a class into `space` changes its built-in classes only in their
/// methods.
proof fn lemma_builtin_shapes(space: PermanentSpace, kind: u8, class: OwnedClass)
    requires
        2 <= kind <= MAX_CLASS_KIND,
        class.pointer_view() == builtin(space, kind).pointer_view(),
        class.class_view().slots() == builtin(space, kind).class_view().slots(),
        class.class_view().wf(),
    ensures
        same_builtin_shapes(space, with_builtin(space, kind, class)),
{
}

/// Loads a module from its data: its class (named as the module, without
/// fields, referred to by `module_class`) gets the module's methods in its
/// slots, and the module gets the path, the number of globals and the
/// literal objects `literals` (made by the caller from the module's
/// literals); then its classes are loaded in order with `load_class`, class
/// `j` referred to by `class_pointers[j]`. Methods are defined in the module
/// that `module_pointer` refers to. A class of an unknown kind is refused.
pub fn load_module(
    space: &mut PermanentSpace,
    module_pointer: ModulePointer,
    module_class: ClassPointer,
    class_pointers: &Vec<ClassPointer>,
    literals: Vec<Pointer>,
    data: ModuleData,
) -> (r: Result<OwnedModule, ImageError>)
    requires
        class_pointers@.len() == data.classes@.len(),
        forall|j: int| 0 <= j < data.methods@.len() ==> (#[trigger] data.methods@[j]).index < data.num_methods,
        forall|j: int| 0 <= j < data.classes@.len() ==> loadable(*old(space), #[trigger] data.classes@[j]),
    ensures
        r is Err <==> has_invalid_kind(data.classes@),
        r matches Err(e) ==> e is InvalidClassKind,
        r matches Ok(m) ==> {
            let module = m.module_view();
            &&& module.wf()
            &&& module.class_view() == module_class
            &&& module.path_view() == data.path@
            &&& module.literals_view() == literals@
            &&& module.globals_view().len() == data.globals
            &&& !module.executed_view()
            &&& module.classes_view().len() == 1 + new_classes(data.classes@)
            &&& module.classes_view()[0].pointer_view() == module_class
            &&& module_class_loaded(
                module.classes_view()[0].class_view(),
                data.name@,
                data.num_methods,
                data.methods@,
                module_pointer,
            )
        },
{
    let ghost all = data.classes@;
    let ghost data_methods = data.methods@;
    let ModuleData { name, path, globals, num_methods, literals: _, classes, methods } = data;
    assert(classes@ == all && methods@ == data_methods);
    let mut class = Class::object(name, Vec::new(), num_methods);
    fill_methods(&mut class, methods, module_pointer);
    let mut owned = OwnedModule::new(Module::allocate(OwnedClass::new(module_class, class), path, literals, globals));
    let ghost start = *space;
    let mut classes = classes;
    let mut rest: Vec<ClassData> = Vec::new();
    while classes.len() > 0
        invariant
            classes@.len() + rest@.len() == all.len(),
            forall|k: int| 0 <= k < classes@.len() ==> classes@[k] == all[k],
            forall|k: int| 0 <= k < rest@.len() ==> rest@[k] == all[all.len() - 1 - k],
        decreases classes@.len(),
    {
        let c = classes.pop().unwrap();
        rest.push(c);
    }
    let ghost first = owned.module_view();
    let mut done: usize = 0;
    let total = class_pointers.len();
    while rest.len() > 0
        invariant
            done + rest@.len() == all.len(),
            all == data.classes@,
            all.len() == total,
            all == data.classes@,
            total == class_pointers@.len(),
            forall|k: int| 0 <= k < rest@.len() ==> rest@[k] == all[all.len() - 1 - k],
            forall|j: int| 0 <= j < all.len() ==> loadable(start, #[trigger] all[j]),
            same_builtin_shapes(start, *space),
            !has_invalid_kind(all.subrange(0, done as int)),
            owned.module_view().wf(),
            owned.module_view().class_view() == first.class_view(),
            owned.module_view().path_view() == first.path_view(),
            owned.module_view().literals_view() == first.literals_view(),
            owned.module_view().globals_view() == first.globals_view(),
            owned.module_view().executed_view() == first.executed_view(),
            owned.module_view().classes_view().len() == 1 + new_classes(all.subrange(0, done as int)),
            owned.module_view().classes_view()[0] == first.classes_view()[0],
        decreases rest@.len(),
    {
        let c = rest.pop().unwrap();
        proof {
            assert(c == all[done as int]);
            assert(loadable(start, c));
        }
        let ghost before_space = *space;
        let ghost before_module = owned.module_view();
        let kind = c.kind;
        let pointer = class_pointers[done];
        let result = load_class(space, owned.module_mut(), module_pointer, pointer, c);
        proof {
            let prefix = all.subrange(0, done + 1);
            assert(prefix.drop_last() =~= all.subrange(0, done as int));
            assert(prefix.last() == all[done as int]);
            if 2 <= kind <= MAX_CLASS_KIND {
                let cl = choose|cl: OwnedClass|
                    {
                        &&& *space == with_builtin(before_space, kind, cl)
                        &&& cl.pointer_view() == builtin(before_space, kind).pointer_view()
                        &&& methods_filled(
                            builtin(before_space, kind).class_view(),
                            cl.class_view(),
                            all[done as int].methods@,
                            module_pointer,
                        )
                    };
                lemma_builtin_shapes(before_space, kind, cl);
            }
        }
        match result {
            Ok(()) => {},
            Err(e) => {
                proof {
                    assert(kind > MAX_CLASS_KIND);
                    assert(all[done as int].kind > MAX_CLASS_KIND);
                    assert(has_invalid_kind(all));
                }
                return Err(e);
            },
        }
        proof {
            let prefix = all.subrange(0, done + 1);
            assert forall|j: int| 0 <= j < prefix.len() implies (#[trigger] prefix[j]).kind <= MAX_CLASS_KIND by {
                if j < done {
                    assert(prefix[j] == all.subrange(0, done as int)[j]);
                }
            }
        }
        done = done + 1;
    }
    proof {
        assert(all.subrange(0, done as int) =~= all);
    }
    Ok(owned)
}

} // verus!
