//! Objects that stay alive for the whole run of a program.
//!
//! The permanent space holds the built-in classes and the singleton objects,
//! the modules of the program, and the string objects interned for string
//! literals, allocated with an allocator for permanent objects.
use vstd::prelude::*;
use ahash::{AHashMap, RandomState};
use crate::mem::allocator::{
    Allocator,
    BlockAllocator,
    PermanentAllocator,
    Pointer,
    MAX_BLOCKS,
    PERMANENT_BIT,
    bit_set,
};
use crate::mem::generator::GENERATOR_SIZE;
use crate::mem::objects::{
    ARRAY_SIZE,
    BYTE_ARRAY_SIZE,
    CLASS_SIZE,
    FLOAT_SIZE,
    INT_SIZE,
    METHOD_SIZE,
    OBJECT_SIZE,
    SERVER_SIZE,
    STRING_SIZE,
    Class,
    ClassPointer,
    Int,
    Module,
    OwnedClass,
    OwnedModule,
    String as InkoString,
    UnsignedInt,
    int_object,
    unsigned_int_object,
};
use crate::mem::process::{CLIENT_SIZE, FUTURE_SIZE};

verus! {

/// The hash map of the `ahash` crate.
#[verifier::external_type_specification]
#[verifier::external_body]
#[verifier::reject_recursive_types(K)]
#[verifier::reject_recursive_types(V)]
#[verifier::reject_recursive_types(S)]
pub struct ExAHashMap<K, V, S>(ahash::AHashMap<K, V, S>);

/// The randomly seeded hasher builder of the `ahash` crate.
#[verifier::external_type_specification]
#[verifier::external_body]
pub struct ExRandomState(ahash::RandomState);

/// A map from strings to the string objects interned for them.
pub type StringMap = AHashMap<std::string::String, Pointer, RandomState>;

/// A map from module names to the modules.
pub type ModuleMap = AHashMap<std::string::String, OwnedModule, RandomState>;

/// What a map of interned strings holds: the address of the string object
/// interned for each string.
pub uninterp spec fn interned_strings(map: StringMap) -> Map<Seq<char>, u64>;

/// What a map of modules holds: the module for each name.
pub uninterp spec fn named_modules(map: ModuleMap) -> Map<Seq<char>, Module>;

/// Returns an empty map of interned strings (`AHashMap::new`).
#[verifier::external_body]
fn new_string_map() -> (r: StringMap)
    ensures
        interned_strings(r).is_empty(),
{
    AHashMap::new()
}

/// Returns an empty map of modules (`AHashMap::new`).
#[verifier::external_body]
fn new_module_map() -> (r: ModuleMap)
    ensures
        named_modules(r).is_empty(),
{
    AHashMap::new()
}

/// Returns the string object interned for `key`, if any (`AHashMap::get`).
#[verifier::external_body]
fn interned_get(map: &StringMap, key: &str) -> (r: Option<Pointer>)
    ensures
        r is Some == interned_strings(*map).contains_key(key@),
        r matches Some(p) ==> p@ == interned_strings(*map)[key@],
{
    map.get(key).copied()
}

/// Interns the string object `value` for `key` (`AHashMap::insert`).
#[verifier::external_body]
fn interned_insert(map: &mut StringMap, key: std::string::String, value: Pointer)
    ensures
        interned_strings(*final(map)) == interned_strings(*old(map)).insert(key@, value@),
{
    map.insert(key, value);
}

/// Returns the module named `name`, if any (`AHashMap::get`).
#[verifier::external_body]
fn module_get<'m>(map: &'m ModuleMap, name: &str) -> (r: Option<&'m OwnedModule>)
    ensures
        r is Some == named_modules(*map).contains_key(name@),
        r matches Some(m) ==> m.module_view() == named_modules(*map)[name@],
{
    map.get(name)
}

/// Returns the module named `name`, if any, for changing it in place
/// (`AHashMap::get_mut`).
#[verifier::external_body]
fn module_get_mut<'m>(map: &'m mut ModuleMap, name: &str) -> (r: Option<&'m mut OwnedModule>)
    ensures
        r is Some == named_modules(*old(map)).contains_key(name@),
        r is None ==> named_modules(*final(map)) == named_modules(*old(map)),
        r matches Some(m) ==> m.module_view() == named_modules(*old(map))[name@]
            && named_modules(*final(map)) == named_modules(*old(map)).insert(
            name@,
            final(m).module_view(),
        ),
{
    map.get_mut(name)
}

/// Adds the module `module` under the name `name`, replacing a module of
/// that name (`AHashMap::insert`).
#[verifier::external_body]
fn module_insert(map: &mut ModuleMap, name: std::string::String, module: OwnedModule)
    ensures
        named_modules(*final(map)) == named_modules(*old(map)).insert(name@, module.module_view()),
{
    map.insert(name, module);
}

/// Returns the modules of the map (`AHashMap::values`), in the order in
/// which the map holds them: that order depends on the random seed of the
/// map's hasher, so it is not stated.
#[verifier::external_body]
fn module_values<'m>(map: &'m ModuleMap) -> (r: Vec<&'m Module>)
    ensures
        r@.len() == named_modules(*map).dom().len(),
        forall|i: int| 0 <= i < r@.len() ==> is_module_of(named_modules(*map), *#[trigger] r@[i]),
        forall|name: Seq<char>|
            #[trigger] named_modules(*map).contains_key(name) ==> listed_module(r@, named_modules(*map)[name]),
{
    map.values().map(|m| m.module()).collect()
}

/// Holds when `module` is one of the modules of `modules`.
pub open spec fn is_module_of(modules: Map<Seq<char>, Module>, module: Module) -> bool {
    exists|name: Seq<char>| modules.contains_key(name) && modules[name] == module
}

/// Holds when `module` is in the list `list`.
pub open spec fn listed_module(list: Seq<&Module>, module: Module) -> bool {
    exists|i: int| 0 <= i < list.len() && *list[i] == module
}

/// The name of a module: the name of its own class.
pub open spec fn module_name(module: Module) -> Seq<char> {
    module.classes_view()[0].class_view().name_view()
}

/// The modules of `map` after adding `modules` in order: a module replaces
/// an earlier one of the same name.
pub open spec fn with_modules(map: Map<Seq<char>, Module>, modules: Seq<OwnedModule>) -> Map<
    Seq<char>,
    Module,
>
    decreases modules.len(),
{
    if modules.len() == 0 {
        map
    } else {
        with_modules(map, modules.drop_last()).insert(
            module_name(modules.last().module_view()),
            modules.last().module_view(),
        )
    }
}

/// The number of methods of each of the built-in classes.
#[derive(Default, Debug, Clone, Copy, PartialEq, Eq)]
pub struct MethodCounts {
    pub int_class: u16,
    pub unsigned_int_class: u16,
    pub float_class: u16,
    pub string_class: u16,
    pub array_class: u16,
    pub method_class: u16,
    pub boolean_class: u16,
    pub nil_class: u16,
    pub byte_array_class: u16,
    pub generator_class: u16,
    pub future_class: u16,
    pub client_class: u16,
}

/// Holds when `class` is a built-in class named `name`, without fields,
/// with `methods` method slots and instances of `size` bytes, whose class
/// object is in permanent memory.
pub open spec fn builtin_class(class: OwnedClass, name: Seq<char>, methods: u16, size: usize) -> bool {
    &&& class.class_view().wf()
    &&& class.class_view().name_view() == name
    &&& class.class_view().field_names().len() == 0
    &&& class.class_view().slots() == methods
    &&& class.class_view().size() == size
    &&& bit_set(class.pointer_view()@, PERMANENT_BIT)
}

/// The address at which `allocator` allocates its next object.
pub open spec fn next_free(allocator: PermanentAllocator, blocks: BlockAllocator) -> int {
    blocks.cursor(allocator.bump().current_block()) as int
}

/// The end of the free space `allocator` allocates its next object into.
pub open spec fn free_end(allocator: PermanentAllocator, blocks: BlockAllocator) -> int {
    blocks.hole_end(allocator.bump().current_block()) as int
}

/// Holds when the values of `s` are pairwise distinct.
pub open spec fn pairwise_distinct(s: Seq<u64>) -> bool {
    forall|i: int, j: int| 0 <= i < s.len() && 0 <= j < s.len() && i != j ==> s[i] != s[j]
}

/// Tagging an address that is a multiple of eight sets low bits that are
/// clear: the permanent bit adds four, the reference bit two more.
proof fn lemma_tag_aligned()
    by (bit_vector)
    ensures
        forall|a: u64| a % 8 == 0 ==> #[trigger] (a | 4u64) == a + 4,
        forall|a: u64| a % 8 == 0 ==> #[trigger] ((a | 4u64) | 2u64) == a + 6,
{
}

/// Returns a new built-in class, with its class object allocated by
/// `allocator`.
fn allocate_class(
    allocator: &mut PermanentAllocator,
    blocks: &mut BlockAllocator,
    name: &str,
    methods: u16,
    size: usize,
) -> (r: OwnedClass)
    requires
        old(allocator).allocator_wf(old(blocks)),
        old(blocks).wf(),
        old(blocks).num_blocks() < MAX_BLOCKS,
    ensures
        final(allocator).allocator_wf(final(blocks)),
        final(blocks).wf(),
        final(blocks).num_blocks() <= old(blocks).num_blocks() + 1,
        builtin_class(r, name@, methods, size),
        next_free(*old(allocator), *old(blocks)) + CLASS_SIZE <= free_end(*old(allocator), *old(blocks)) ==> {
            &&& r.pointer_view()@ == (next_free(*old(allocator), *old(blocks)) as u64) | 4u64
            &&& next_free(*final(allocator), *final(blocks)) == next_free(*old(allocator), *old(blocks))
                + CLASS_SIZE
            &&& free_end(*final(allocator), *final(blocks)) == free_end(*old(allocator), *old(blocks))
        },
{
    let pointer = allocator.allocate(blocks, CLASS_SIZE as u64);
    OwnedClass::new(ClassPointer::new(pointer), Class::allocate(name.to_owned(), Vec::new(), methods, size))
}

/// Returns a new singleton object of a class without fields, allocated by
/// `allocator`, as a reference.
fn allocate_singleton(allocator: &mut PermanentAllocator, blocks: &mut BlockAllocator) -> (r: Pointer)
    requires
        old(allocator).allocator_wf(old(blocks)),
        old(blocks).wf(),
        old(blocks).num_blocks() < MAX_BLOCKS,
    ensures
        final(allocator).allocator_wf(final(blocks)),
        final(blocks).wf(),
        final(blocks).num_blocks() <= old(blocks).num_blocks() + 1,
        bit_set(r@, PERMANENT_BIT),
        next_free(*old(allocator), *old(blocks)) + OBJECT_SIZE <= free_end(*old(allocator), *old(blocks)) ==> {
            &&& r@ == ((next_free(*old(allocator), *old(blocks)) as u64) | 4u64) | 2u64
            &&& next_free(*final(allocator), *final(blocks)) == next_free(*old(allocator), *old(blocks))
                + OBJECT_SIZE
            &&& free_end(*final(allocator), *final(blocks)) == free_end(*old(allocator), *old(blocks))
        },
{
    let pointer = allocator.allocate(blocks, OBJECT_SIZE as u64);
    let r = pointer.as_reference();
    proof {
        let a = pointer@;
        assert(bit_set(a | 2u64, PERMANENT_BIT)) by (bit_vector)
            requires
                bit_set(a, PERMANENT_BIT),
                PERMANENT_BIT == 2u64,
        ;
    }
    r
}

/// Memory that sticks around for a program's lifetime (aka permanently).
pub struct PermanentSpace {
    /// The class to use for the Int type.
    pub int_class: OwnedClass,
    /// The class to use for the UnsignedInt type.
    pub unsigned_int_class: OwnedClass,
    /// The class to use for the Float type.
    pub float_class: OwnedClass,
    /// The class to use for the String type.
    pub string_class: OwnedClass,
    /// The class to use for the Array type.
    pub array_class: OwnedClass,
    /// The class to use for methods.
    pub method_class: OwnedClass,
    /// The class to use for the Boolean type.
    pub boolean_class: OwnedClass,
    /// The class to use for the NilType type.
    pub nil_class: OwnedClass,
    /// The class to use for the `Undefined` type.
    pub undefined_class: OwnedClass,
    /// The class to use for the ByteArray type.
    pub byte_array_class: OwnedClass,
    /// The class to use for the Generator type.
    pub generator_class: OwnedClass,
    /// The class to use for the Future type.
    pub future_class: OwnedClass,
    /// The class to use for the main process.
    pub main_process_class: OwnedClass,
    /// The class to use for all process clients.
    pub client_class: OwnedClass,
    /// The singleton boolean `True`.
    pub true_singleton: Pointer,
    /// The singleton boolean `False`.
    pub false_singleton: Pointer,
    /// The singleton `Nil` value.
    pub nil_singleton: Pointer,
    /// The singleton `Undefined` value: a sentinel that user code can never
    /// produce on its own.
    pub undefined_singleton: Pointer,
    /// The allocator to use for requesting new memory blocks.
    pub blocks: BlockAllocator,
    /// All modules that are available to the current program.
    pub modules: ModuleMap,
    /// The allocator to use for allocating permanent objects.
    pub allocator: PermanentAllocator,
    /// The string objects interned for strings, so that different
    /// occurrences of the same string literal all use the same object.
    pub interned_strings: StringMap,
}

impl PermanentSpace {
    /// The allocator of permanent objects can allocate from the blocks.
    pub open spec fn wf(&self) -> bool {
        &&& self.allocator.allocator_wf(&self.blocks)
        &&& self.blocks.wf()
    }

    /// The allocator of permanent objects can allocate another object: the
    /// block allocator can still hand out a new block.
    pub open spec fn can_allocate(&self) -> bool {
        &&& self.wf()
        &&& self.blocks.num_blocks() < MAX_BLOCKS
    }

    /// The modules, by name.
    pub open spec fn modules_view(&self) -> Map<Seq<char>, Module> {
        named_modules(self.modules)
    }

    /// The addresses of the interned string objects, by string.
    pub open spec fn strings_view(&self) -> Map<Seq<char>, u64> {
        interned_strings(self.interned_strings)
    }

    /// Holds when `self` and `other` have the same classes and singletons.
    pub open spec fn same_builtins(&self, other: &PermanentSpace) -> bool {
        &&& self.int_class == other.int_class
        &&& self.unsigned_int_class == other.unsigned_int_class
        &&& self.float_class == other.float_class
        &&& self.string_class == other.string_class
        &&& self.array_class == other.array_class
        &&& self.method_class == other.method_class
        &&& self.boolean_class == other.boolean_class
        &&& self.nil_class == other.nil_class
        &&& self.undefined_class == other.undefined_class
        &&& self.byte_array_class == other.byte_array_class
        &&& self.generator_class == other.generator_class
        &&& self.future_class == other.future_class
        &&& self.main_process_class == other.main_process_class
        &&& self.client_class == other.client_class
        &&& self.true_singleton == other.true_singleton
        &&& self.false_singleton == other.false_singleton
        &&& self.nil_singleton == other.nil_singleton
        &&& self.undefined_singleton == other.undefined_singleton
    }

    /// The addresses of the built-in classes, in the order in which they are
    /// allocated.
    pub open spec fn class_addresses(&self) -> Seq<u64> {
        seq![
            self.int_class.pointer_view()@,
            self.unsigned_int_class.pointer_view()@,
            self.float_class.pointer_view()@,
            self.string_class.pointer_view()@,
            self.array_class.pointer_view()@,
            self.method_class.pointer_view()@,
            self.boolean_class.pointer_view()@,
            self.nil_class.pointer_view()@,
            self.byte_array_class.pointer_view()@,
            self.generator_class.pointer_view()@,
            self.future_class.pointer_view()@,
            self.client_class.pointer_view()@,
            self.main_process_class.pointer_view()@,
            self.undefined_class.pointer_view()@,
        ]
    }

    /// The addresses of the true, false, nil and undefined singletons.
    pub open spec fn singleton_addresses(&self) -> Seq<u64> {
        seq![self.true_singleton@, self.false_singleton@, self.nil_singleton@, self.undefined_singleton@]
    }

    /// Returns a new permanent space with the built-in classes, having the
    /// given numbers of methods, and the singleton objects; it has no
    /// modules and no interned strings yet.
    pub fn new(counts: MethodCounts) -> (r: Self)
        ensures
            r.wf(),
            r.blocks.num_blocks() <= 19,
            builtin_class(r.int_class, "Int"@, counts.int_class, INT_SIZE),
            builtin_class(r.unsigned_int_class, "UnsignedInt"@, counts.unsigned_int_class, INT_SIZE),
            builtin_class(r.float_class, "Float"@, counts.float_class, FLOAT_SIZE),
            builtin_class(r.string_class, "String"@, counts.string_class, STRING_SIZE),
            builtin_class(r.array_class, "Array"@, counts.array_class, ARRAY_SIZE),
            builtin_class(r.method_class, "Method"@, counts.method_class, METHOD_SIZE),
            builtin_class(r.boolean_class, "Boolean"@, counts.boolean_class, OBJECT_SIZE),
            builtin_class(r.nil_class, "NilType"@, counts.nil_class, OBJECT_SIZE),
            builtin_class(r.byte_array_class, "ByteArray"@, counts.byte_array_class, BYTE_ARRAY_SIZE),
            builtin_class(r.generator_class, "Generator"@, counts.generator_class, GENERATOR_SIZE),
            builtin_class(r.future_class, "Future"@, counts.future_class, FUTURE_SIZE),
            builtin_class(r.client_class, "Client"@, counts.client_class, CLIENT_SIZE),
            builtin_class(r.main_process_class, "Main"@, 0, SERVER_SIZE),
            builtin_class(r.undefined_class, "UndefinedType"@, 0, OBJECT_SIZE),
            bit_set(r.true_singleton@, PERMANENT_BIT),
            bit_set(r.false_singleton@, PERMANENT_BIT),
            bit_set(r.nil_singleton@, PERMANENT_BIT),
            bit_set(r.undefined_singleton@, PERMANENT_BIT),
            r.modules_view().is_empty(),
            r.strings_view().is_empty(),
            pairwise_distinct(r.class_addresses()),
            pairwise_distinct(r.singleton_addresses()),
    {
        let mut blocks = BlockAllocator::new();
        let mut alloc = PermanentAllocator::new(&mut blocks);
        assert(next_free(alloc, blocks) == 33152 && free_end(alloc, blocks) == 65536);
        let int_class = allocate_class(&mut alloc, &mut blocks, "Int", counts.int_class, INT_SIZE);
        let uint_class = allocate_class(
            &mut alloc,
            &mut blocks,
            "UnsignedInt",
            counts.unsigned_int_class,
            INT_SIZE,
        );
        let float_class = allocate_class(&mut alloc, &mut blocks, "Float", counts.float_class, FLOAT_SIZE);
        let str_class = allocate_class(&mut alloc, &mut blocks, "String", counts.string_class, STRING_SIZE);
        let ary_class = allocate_class(&mut alloc, &mut blocks, "Array", counts.array_class, ARRAY_SIZE);
        let meth_class = allocate_class(&mut alloc, &mut blocks, "Method", counts.method_class, METHOD_SIZE);
        let bool_class = allocate_class(&mut alloc, &mut blocks, "Boolean", counts.boolean_class, OBJECT_SIZE);
        let nil_class = allocate_class(&mut alloc, &mut blocks, "NilType", counts.nil_class, OBJECT_SIZE);
        let bary_class = allocate_class(
            &mut alloc,
            &mut blocks,
            "ByteArray",
            counts.byte_array_class,
            BYTE_ARRAY_SIZE,
        );
        let gen_class = allocate_class(
            &mut alloc,
            &mut blocks,
            "Generator",
            counts.generator_class,
            GENERATOR_SIZE,
        );
        let fut_class = allocate_class(&mut alloc, &mut blocks, "Future", counts.future_class, FUTURE_SIZE);
        let client_class = allocate_class(&mut alloc, &mut blocks, "Client", counts.client_class, CLIENT_SIZE);
        // The main process' class doesn't support any methods (async or not),
        // so no method slots are reserved for it.
        let main_proc_class = allocate_class(&mut alloc, &mut blocks, "Main", 0, SERVER_SIZE);
        // The UndefinedType class isn't accessible to the runtime, so it too
        // doesn't support/need any methods.
        let undef_class = allocate_class(&mut alloc, &mut blocks, "UndefinedType", 0, OBJECT_SIZE);
        let true_singleton = allocate_singleton(&mut alloc, &mut blocks);
        let false_singleton = allocate_singleton(&mut alloc, &mut blocks);
        let nil_singleton = allocate_singleton(&mut alloc, &mut blocks);
        let undefined_singleton = allocate_singleton(&mut alloc, &mut blocks);
        proof {
            lemma_tag_aligned();
            assert((33152u64 + 1120) % 8 == 0);
        }
        let r = PermanentSpace {
            int_class,
            unsigned_int_class: uint_class,
            float_class,
            string_class: str_class,
            array_class: ary_class,
            method_class: meth_class,
            boolean_class: bool_class,
            nil_class,
            undefined_class: undef_class,
            byte_array_class: bary_class,
            generator_class: gen_class,
            future_class: fut_class,
            main_process_class: main_proc_class,
            client_class,
            true_singleton,
            false_singleton,
            nil_singleton,
            undefined_singleton,
            blocks,
            modules: new_module_map(),
            allocator: alloc,
            interned_strings: new_string_map(),
        };
        proof {
            let classes = seq![
                33156u64, 33236u64, 33316u64, 33396u64, 33476u64, 33556u64, 33636u64, 33716u64,
                33796u64, 33876u64, 33956u64, 34036u64, 34116u64, 34196u64,
            ];
            assert(r.class_addresses() =~= classes);
            let singletons = seq![34278u64, 34294u64, 34310u64, 34326u64];
            assert(r.singleton_addresses() =~= singletons);
        }
        r
    }

    pub fn int_class(&self) -> (r: ClassPointer)
        ensures
            r == self.int_class.pointer_view(),
    {
        self.int_class.pointer()
    }

    pub fn unsigned_int_class(&self) -> (r: ClassPointer)
        ensures
            r == self.unsigned_int_class.pointer_view(),
    {
        self.unsigned_int_class.pointer()
    }

    pub fn float_class(&self) -> (r: ClassPointer)
        ensures
            r == self.float_class.pointer_view(),
    {
        self.float_class.pointer()
    }

    pub fn string_class(&self) -> (r: ClassPointer)
        ensures
            r == self.string_class.pointer_view(),
    {
        self.string_class.pointer()
    }

    pub fn array_class(&self) -> (r: ClassPointer)
        ensures
            r == self.array_class.pointer_view(),
    {
        self.array_class.pointer()
    }

    pub fn method_class(&self) -> (r: ClassPointer)
        ensures
            r == self.method_class.pointer_view(),
    {
        self.method_class.pointer()
    }

    pub fn boolean_class(&self) -> (r: ClassPointer)
        ensures
            r == self.boolean_class.pointer_view(),
    {
        self.boolean_class.pointer()
    }

    pub fn nil_class(&self) -> (r: ClassPointer)
        ensures
            r == self.nil_class.pointer_view(),
    {
        self.nil_class.pointer()
    }

    pub fn byte_array_class(&self) -> (r: ClassPointer)
        ensures
            r == self.byte_array_class.pointer_view(),
    {
        self.byte_array_class.pointer()
    }

    pub fn generator_class(&self) -> (r: ClassPointer)
        ensures
            r == self.generator_class.pointer_view(),
    {
        self.generator_class.pointer()
    }

    pub fn future_class(&self) -> (r: ClassPointer)
        ensures
            r == self.future_class.pointer_view(),
    {
        self.future_class.pointer()
    }

    pub fn main_process_class(&self) -> (r: ClassPointer)
        ensures
            r == self.main_process_class.pointer_view(),
    {
        self.main_process_class.pointer()
    }

    pub fn client_class(&self) -> (r: ClassPointer)
        ensures
            r == self.client_class.pointer_view(),
    {
        self.client_class.pointer()
    }

    pub fn undefined_class(&self) -> (r: ClassPointer)
        ensures
            r == self.undefined_class.pointer_view(),
    {
        self.undefined_class.pointer()
    }

    /// Interns a permanent string.
    ///
    /// If a string object has already been allocated for the given string,
    /// the existing one is returned and nothing changes; otherwise a new one
    /// is allocated and interned.
    pub fn allocate_string(&mut self, string: std::string::String) -> (r: Pointer)
        requires
            old(self).can_allocate(),
        ensures
            final(self).wf(),
            final(self).same_builtins(old(self)),
            final(self).modules_view() == old(self).modules_view(),
            old(self).strings_view().contains_key(string@) ==> {
                &&& r@ == old(self).strings_view()[string@]
                &&& *final(self) == *old(self)
            },
            !old(self).strings_view().contains_key(string@) ==> final(self).strings_view()
                == old(self).strings_view().insert(string@, r@),
    {
        match interned_get(&self.interned_strings, string.as_str()) {
            Some(pointer) => {
                return pointer;
            },
            None => {},
        }
        let class = self.string_class();
        let (pointer, _object) = InkoString::allocate(
            &mut self.allocator,
            &mut self.blocks,
            class,
            string.clone(),
        );
        interned_insert(&mut self.interned_strings, string, pointer);
        pointer
    }

    /// Allocates a signed integer, of the Int class.
    pub fn allocate_int(&mut self, value: i64) -> (r: (Pointer, Option<Int>))
        requires
            old(self).can_allocate(),
        ensures
            final(self).wf(),
            final(self).same_builtins(old(self)),
            final(self).modules_view() == old(self).modules_view(),
            final(self).strings_view() == old(self).strings_view(),
            int_object(r, old(self).int_class.pointer_view(), value),
    {
        let class = self.int_class();
        Int::allocate(&mut self.allocator, &mut self.blocks, class, value)
    }

    /// Allocates an unsigned integer. Like a signed integer, a boxed one is
    /// of the Int class.
    pub fn allocate_unsigned_int(&mut self, value: u64) -> (r: (Pointer, Option<UnsignedInt>))
        requires
            old(self).can_allocate(),
        ensures
            final(self).wf(),
            final(self).same_builtins(old(self)),
            final(self).modules_view() == old(self).modules_view(),
            final(self).strings_view() == old(self).strings_view(),
            unsigned_int_object(r, old(self).int_class.pointer_view(), value),
    {
        let class = self.int_class();
        UnsignedInt::allocate(&mut self.allocator, &mut self.blocks, class, value)
    }

    /// Returns a new module that owns its class, with the given literals and
    /// number of globals.
    pub fn allocate_module(
        &self,
        class: OwnedClass,
        path: std::string::String,
        literals: Vec<Pointer>,
        globals: u16,
    ) -> (r: OwnedModule)
        ensures
            r.module_view().wf(),
            r.module_view().class_view() == class.pointer_view(),
            r.module_view().classes_view() == seq![class],
            r.module_view().path_view() == path@,
            r.module_view().literals_view() == literals@,
            r.module_view().globals_view().len() == globals,
            !r.module_view().executed_view(),
    {
        OwnedModule::new(Module::allocate(class, path, literals, globals))
    }

    /// Adds the modules, in order, each under its name: a module replaces an
    /// earlier one of the same name.
    pub fn add_modules(&mut self, modules: Vec<OwnedModule>)
        requires
            forall|i: int| 0 <= i < modules@.len() ==> (#[trigger] modules@[i]).module_view().wf(),
        ensures
            final(self).modules_view() == with_modules(old(self).modules_view(), modules@),
            final(self).strings_view() == old(self).strings_view(),
            final(self).same_builtins(old(self)),
            final(self).blocks == old(self).blocks,
            final(self).allocator == old(self).allocator,
    {
        let ghost all = modules@;
        assert(all.len() == modules.len());
        let mut rest = modules;
        let mut index: usize = 0;
        while rest.len() > 0
            invariant
                index + rest@.len() == all.len(),
                all.len() <= usize::MAX,
                rest@ == all.subrange(index as int, all.len() as int),
                forall|i: int| 0 <= i < all.len() ==> (#[trigger] all[i]).module_view().wf(),
                self.modules_view() == with_modules(old(self).modules_view(), all.subrange(0, index as int)),
                self.strings_view() == old(self).strings_view(),
                self.same_builtins(old(self)),
                self.blocks == old(self).blocks,
                self.allocator == old(self).allocator,
            decreases rest@.len(),
        {
            let module = rest.remove(0);
            proof {
                assert(module == all[index as int]);
                let done = all.subrange(0, index + 1);
                assert(done.drop_last() =~= all.subrange(0, index as int));
                assert(done.last() == module);
            }
            let name = module.module().name().clone();
            module_insert(&mut self.modules, name, module);
            index = index + 1;
            proof {
                assert(rest@ =~= all.subrange(index as int, all.len() as int));
            }
        }
        assert(all.subrange(0, index as int) =~= all);
    }

    /// Returns the module with the given name: the full name, including its
    /// namespace (so `std::string` and not just `string`).
    pub fn get_module(&self, name: &str) -> (r: Result<&Module, std::string::String>)
        ensures
            self.modules_view().contains_key(name@) ==> (r matches Ok(m) && *m
                == self.modules_view()[name@]),
            !self.modules_view().contains_key(name@) ==> (r matches Err(message) && message@
                == missing_module(name@)),
    {
        match module_get(&self.modules, name) {
            Some(module) => Ok(module.module()),
            None => Err(missing_module_message(name)),
        }
    }

    /// Returns all the modules, in no particular order.
    pub fn list_modules(&self) -> (r: Vec<&Module>)
        ensures
            r@.len() == self.modules_view().dom().len(),
            forall|i: int| 0 <= i < r@.len() ==> is_module_of(self.modules_view(), *#[trigger] r@[i]),
            forall|name: Seq<char>|
                #[trigger] self.modules_view().contains_key(name) ==> listed_module(r@, self.modules_view()[name]),
    {
        module_values(&self.modules)
    }

    /// Returns the module with the given name, to execute, and whether it
    /// can be executed: a module is executed only once, the first time it
    /// is asked for.
    pub fn get_module_for_execution(&mut self, name: &str) -> (r: Result<
        (&Module, bool),
        std::string::String,
    >)
        ensures
            old(self).modules_view().contains_key(name@) ==> {
                let module = old(self).modules_view()[name@];
                &&& r matches Ok((m, execute)) && execute == !module.executed_view()
                    && m.executed_view() && m.path_view() == module.path_view()
                    && m.classes_view() == module.classes_view() && m.class_view()
                    == module.class_view() && m.globals_view() == module.globals_view()
                    && m.literals_view() == module.literals_view()
                    && final(self).modules_view() == old(self).modules_view().insert(name@, *m)
            },
            !old(self).modules_view().contains_key(name@) ==> {
                &&& r matches Err(message) && message@ == missing_module(name@)
                &&& final(self).modules_view() == old(self).modules_view()
            },
            final(self).strings_view() == old(self).strings_view(),
            final(self).same_builtins(old(self)),
    {
        match module_get_mut(&mut self.modules, name) {
            Some(module) => {
                let execute = module.module_mut().mark_as_executed();
                Ok((module.module(), execute))
            },
            None => Err(missing_module_message(name)),
        }
    }
}

/// The message of the error for a module that doesn't exist.
pub open spec fn missing_module(name: Seq<char>) -> Seq<char> {
    "The module "@ + name + " doesn't exist"@
}

/// Returns the message of the error for a module that doesn't exist.
fn missing_module_message(name: &str) -> (r: std::string::String)
    ensures
        r@ == missing_module(name@),
{
    let mut message = "The module ".to_owned();
    message.append(name);
    message.append(" doesn't exist");
    message
}

} // verus!
