//! Data structures for Inko types, such as classes, methods and modules.
//!
//! Objects refer to each other through pointers: addresses handed out by an
//! allocator (see `crate::mem::allocator`). The records behind the pointers
//! are held by their owners: a class owns its methods, a module owns its
//! classes.
use vstd::prelude::*;
use crate::indexes::{FieldIndex, GlobalIndex, LiteralIndex, MethodIndex};
use crate::instruction::Instruction;
use crate::mem::allocator::{
    Allocator,
    BlockAllocator,
    Pointer,
    INTEGER_BIT,
    UNSIGNED_INTEGER_BIT,
    MAX_ALLOCATION_SIZE,
    MAX_BLOCKS,
    MAX_INTEGER,
    MAX_UNSIGNED_INTEGER,
    MIN_INTEGER,
    bit_set,
    tagged_int_address,
    tagged_unsigned_int_address,
};
use crate::mem::permanent_space::PermanentSpace;

verus! {

/// The size of an object header, in bytes.
pub const HEADER_SIZE: usize = 16;

/// The size of a pointer, in bytes.
pub const POINTER_SIZE: usize = 8;

/// The size of a regular object without its fields, in bytes.
pub const OBJECT_SIZE: usize = 16;

/// The size of a process without its fields, in bytes.
pub const SERVER_SIZE: usize = 40;

/// The size of a boxed signed or unsigned integer, in bytes.
pub const INT_SIZE: usize = 24;

/// The size of a string object, in bytes.
pub const STRING_SIZE: usize = 24;

/// The size of a boxed float, in bytes.
pub const FLOAT_SIZE: usize = 24;

/// The size of an array object, in bytes.
pub const ARRAY_SIZE: usize = 40;

/// The size of a byte array object, in bytes.
pub const BYTE_ARRAY_SIZE: usize = 40;

/// The size of a method object, in bytes.
pub const METHOD_SIZE: usize = 136;

/// The size of a class object, without its method table, in bytes.
pub const CLASS_SIZE: usize = 80;

/// The header used by types that can have references.
#[derive(Clone, Copy)]
pub struct Header {
    /// The class of the object.
    pub class: ClassPointer,
    /// The number of references still alive.
    pub references: u32,
}

impl Header {
    /// Initialises a header for a bump allocated object.
    pub fn init(&mut self, class: ClassPointer)
        ensures
            final(self).class == class,
            final(self).references == 0,
    {
        self.class = class;
        self.references = 0;
    }
}

/// A pointer to a method.
#[derive(Clone, Copy)]
pub struct MethodPointer(Pointer);

impl View for MethodPointer {
    type V = u64;

    closed spec fn view(&self) -> u64 {
        self.0@
    }
}

impl MethodPointer {
    /// Returns a new MethodPointer from a raw Pointer.
    pub fn new(pointer: Pointer) -> (r: Self)
        ensures
            r@ == pointer@,
    {
        MethodPointer(pointer)
    }

    /// Returns the MethodPointer as a regular Pointer.
    pub fn as_pointer(self) -> (r: Pointer)
        ensures
            r@ == self@,
    {
        self.0
    }
}

/// A method bound to an object.
pub struct Method {
    /// The hash of this method, used when performing dynamic dispatch.
    pub hash: u32,
    /// The name of the method.
    pub name: std::string::String,
    /// The path to the source file the method is defined in.
    pub file: std::string::String,
    /// The line number the method is defined on.
    pub line: u16,
    /// The number of local variables (including arguments) defined.
    pub locals: u16,
    /// The number of registers required.
    pub registers: u16,
    /// The names of the arguments.
    pub arguments: Vec<std::string::String>,
    /// The instructions to execute.
    pub instructions: Vec<Instruction>,
    /// The module this method is defined in.
    pub module: ModulePointer,
}

/// Holds when `n` is a power of two.
pub open spec fn power_of_two(n: u16) -> bool {
    exists|e: nat| e < 16 && n as nat == #[trigger] vstd::arithmetic::power2::pow2(e)
}

/// The slot visited at step `step` of a probe that starts at slot `start` of
/// a table of `len` slots.
pub open spec fn probe(start: int, step: int, len: int) -> int {
    (start + step) % len
}

/// An Inko class: its name, the names of its fields, the size of its
/// instances, and its table of methods.
pub struct Class {
    /// The name of the class.
    name: std::string::String,
    /// The names of the fields of this class, in the order they are defined
    /// in.
    fields: Vec<std::string::String>,
    /// The size (in bytes) of an instance of this class.
    instance_size: usize,
    /// The number of method slots of this class.
    methods_len: u16,
    /// The method slots; slots without a method are empty.
    methods: Vec<Option<Method>>,
}

impl Class {
    /// The name of the class.
    pub closed spec fn name_view(&self) -> Seq<char> {
        self.name@
    }

    /// The names of the fields.
    pub closed spec fn field_names(&self) -> Seq<std::string::String> {
        self.fields@
    }

    /// The size of an instance, in bytes.
    pub closed spec fn size(&self) -> usize {
        self.instance_size
    }

    /// The number of method slots.
    pub closed spec fn slots(&self) -> u16 {
        self.methods_len
    }

    /// The method in a slot, if any.
    pub closed spec fn slot(&self, index: int) -> Option<Method> {
        self.methods@[index]
    }

    /// The slot visited at step `step` of the probe for `hash`.
    pub open spec fn probe_slot(&self, hash: u32, step: int) -> int {
        probe((hash as int) % (self.slots() as int), step, self.slots() as int)
    }

    /// Holds when the slot visited at step `step` of the probe for `hash`
    /// holds a method with that hash.
    pub open spec fn hit(&self, hash: u32, step: int) -> bool {
        self.slot(self.probe_slot(hash, step)) is Some
            && self.slot(self.probe_slot(hash, step))->0.hash == hash
    }

    /// The method table holds one slot per method.
    pub closed spec fn wf(&self) -> bool {
        self.methods@.len() == self.methods_len
    }

    /// Returns a new class with the given number of empty method slots and
    /// instance size.
    pub fn allocate(
        name: std::string::String,
        fields: Vec<std::string::String>,
        methods: u16,
        size: usize,
    ) -> (r: Self)
        ensures
            r.wf(),
            r.name_view() == name@,
            r.field_names() == fields@,
            r.slots() == methods,
            r.size() == size,
            forall|i: int| 0 <= i < methods ==> r.slot(i) is None,
    {
        let mut table: Vec<Option<Method>> = Vec::new();
        let mut i: u16 = 0;
        while i < methods
            invariant
                i <= methods,
                table@.len() == i,
                forall|k: int| 0 <= k < i ==> table@[k] is None,
            decreases methods - i,
        {
            table.push(None);
            i = i + 1;
        }
        Class { name, fields, instance_size: size, methods_len: methods, methods: table }
    }

    /// Returns a new class for a regular object: an instance holds a header
    /// and one pointer per field.
    pub fn object(name: std::string::String, fields: Vec<std::string::String>, methods: u16) -> (r: Self)
        requires
            fields@.len() <= 0xFFFF,
        ensures
            r.wf(),
            r.name_view() == name@,
            r.field_names() == fields@,
            r.slots() == methods,
            r.size() == OBJECT_SIZE + fields@.len() * POINTER_SIZE,
            forall|i: int| 0 <= i < methods ==> r.slot(i) is None,
    {
        let size = OBJECT_SIZE + fields.len() * POINTER_SIZE;
        Self::allocate(name, fields, methods, size)
    }

    /// Returns a new class for a process: an instance holds the process state
    /// and one pointer per field.
    pub fn process(name: std::string::String, fields: Vec<std::string::String>, methods: u16) -> (r: Self)
        requires
            fields@.len() <= 0xFFFF,
        ensures
            r.wf(),
            r.name_view() == name@,
            r.field_names() == fields@,
            r.slots() == methods,
            r.size() == SERVER_SIZE + fields@.len() * POINTER_SIZE,
            forall|i: int| 0 <= i < methods ==> r.slot(i) is None,
    {
        let size = SERVER_SIZE + fields.len() * POINTER_SIZE;
        Self::allocate(name, fields, methods, size)
    }

    /// Returns the class of the object `ptr` points to, whose header is
    /// `header`. A tagged integer has no header: a signed one is of the Int
    /// class of `space`, an unsigned one of its UnsignedInt class.
    pub fn of(space: &PermanentSpace, ptr: Pointer, header: &Header) -> (r: ClassPointer)
        ensures
            r == (if bit_set(ptr@, INTEGER_BIT) && !bit_set(ptr@, UNSIGNED_INTEGER_BIT) {
                space.int_class.pointer_view()
            } else if bit_set(ptr@, INTEGER_BIT) && bit_set(ptr@, UNSIGNED_INTEGER_BIT) {
                space.unsigned_int_class.pointer_view()
            } else {
                header.class
            }),
    {
        if ptr.is_tagged_int() {
            return space.int_class();
        }
        if ptr.is_tagged_unsigned_int() {
            return space.unsigned_int_class();
        }
        header.class
    }

    /// Returns the size of an instance of this class, in bytes.
    pub fn instance_size(&self) -> (r: usize)
        ensures
            r == self.size(),
    {
        self.instance_size
    }

    /// Returns the number of method slots of this class.
    pub fn number_of_methods(&self) -> (r: u16)
        ensures
            r == self.slots(),
    {
        self.methods_len
    }

    /// Returns the name of this class.
    pub fn name(&self) -> (r: &std::string::String)
        ensures
            r@ == self.name_view(),
    {
        &self.name
    }

    /// Returns the names of the fields of this class.
    pub fn fields(&self) -> (r: &Vec<std::string::String>)
        ensures
            r@ == self.field_names(),
    {
        &self.fields
    }

    /// Stores a method in a slot.
    pub fn set_method(&mut self, index: MethodIndex, value: Method)
        requires
            old(self).wf(),
            index.0 < old(self).slots(),
        ensures
            final(self).wf(),
            final(self).name_view() == old(self).name_view(),
            final(self).field_names() == old(self).field_names(),
            final(self).size() == old(self).size(),
            final(self).slots() == old(self).slots(),
            final(self).slot(index.0 as int) == Some(value),
            forall|i: int| 0 <= i < old(self).slots() && i != index.0 ==> final(self).slot(i) == old(self).slot(i),
    {
        let i: usize = index.into();
        self.methods.set(i, Some(value));
    }

    /// Looks up the method in a slot.
    pub fn get_method(&self, index: MethodIndex) -> (r: Option<&Method>)
        requires
            self.wf(),
            index.0 < self.slots(),
        ensures
            match self.slot(index.0 as int) {
                Some(m) => r == Some(&m),
                None => r is None,
            },
    {
        let i: usize = index.into();
        self.methods[i].as_ref()
    }

    /// Holds when `method` is the method a lookup by `hash` finds: the one in
    /// the first slot of the probe sequence that holds a method with that
    /// hash.
    pub open spec fn found_by_hash(&self, hash: u32, method: Method) -> bool {
        exists|k: int|
            0 <= k < self.slots() && #[trigger] self.hit(hash, k)
                && self.slot(self.probe_slot(hash, k)) == Some(method)
                && forall|j: int| 0 <= j < k ==> !#[trigger] self.hit(hash, j)
    }

    /// Looks up a method by its hash, for dynamic dispatch.
    ///
    /// The probe starts at the slot given by the lowest bits of the hash, and
    /// moves on to the next slot (wrapping around) until it finds a method
    /// with that hash. The number of slots must be a power of two, and a
    /// method with the hash must be present.
    pub fn get_hashed_method(&self, input_hash: u32) -> (r: &Method)
        requires
            self.wf(),
            power_of_two(self.slots()),
            exists|i: int|
                0 <= i < self.slots() && #[trigger] self.slot(i) is Some && self.slot(i)->0.hash == input_hash,
        ensures
            r.hash == input_hash,
            self.found_by_hash(input_hash, *r),
    {
        let ghost n = self.methods_len as int;
        proof {
            lemma_mask_is_mod(input_hash, self.methods_len);
        }
        let len: u32 = (self.methods_len - 1) as u32;
        let ghost start = (input_hash as int) % n;
        let ghost t = choose|i: int| 0 <= i < n && #[trigger] self.slot(i) is Some && self.slot(i)->0.hash == input_hash;
        let ghost target = (t - start + n) % n;
        let mut hash: u32 = input_hash & len;
        let ghost mut k: int = 0;
        proof {
            lemma_probe_reaches(start, t, n);
            vstd::arithmetic::div_mod::lemma_mod_bound(input_hash as int, n);
            vstd::arithmetic::div_mod::lemma_small_mod(start as nat, n as nat);
        }
        loop
            invariant
                self.wf(),
                n == self.slots(),
                n >= 1,
                len == n - 1,
                power_of_two(self.slots()),
                0 <= start < n,
                0 <= t < n,
                self.slot(t) is Some && self.slot(t)->0.hash == input_hash,
                0 <= target < n,
                probe(start, target, n) == t,
                start == (input_hash as int) % n,
                0 <= k <= target,
                hash as int == probe(start, k, n),
                forall|j: int| 0 <= j < k ==> !#[trigger] self.hit(input_hash, j),
            decreases target - k,
        {
            let i: usize = hash as usize;
            match &self.methods[i] {
                Some(m) => {
                    if m.hash == input_hash {
                        proof {
                            assert(self.slot(hash as int) == Some(*m));
                            assert(self.probe_slot(input_hash, k) == hash as int);
                            assert(self.hit(input_hash, k));
                        }
                        return m;
                    }
                },
                None => {},
            }
            proof {
                if k == target {
                    assert(hash as int == t);
                }
                lemma_probe_step(start, k, n);
                lemma_mask_is_mod((hash + 1) as u32, self.methods_len);
            }
            hash = (hash + 1) & len;
            proof {
                k = k + 1;
            }
        }
    }
}

/// Masking with one less than a power of two takes the remainder by it.
proof fn lemma_mask_is_mod(x: u32, n: u16)
    requires
        power_of_two(n),
    ensures
        n >= 1,
        x & ((n - 1) as u32) == x % (n as u32),
{
    let e = choose|e: nat| e < 16 && n as nat == #[trigger] vstd::arithmetic::power2::pow2(e);
    vstd::arithmetic::power2::lemma_pow2_pos(e);
    vstd::bits::lemma_u32_low_bits_mask_is_mod(x, e);
}

/// A probe moves on to the next slot, wrapping around.
proof fn lemma_probe_step(start: int, k: int, n: int)
    requires
        n >= 1,
        0 <= start < n,
        k >= 0,
    ensures
        probe(start, k + 1, n) == (probe(start, k, n) + 1) % n,
        0 <= probe(start, k, n) < n,
{
    vstd::arithmetic::div_mod::lemma_mod_bound(start + k, n);
    vstd::arithmetic::div_mod::lemma_mod_add_multiples_vanish(start + k + 1, n);
    vstd::arithmetic::div_mod::lemma_fundamental_div_mod(start + k, n);
    let q = (start + k) / n;
    let r = (start + k) % n;
    assert(start + k + 1 == n * q + (r + 1));
    vstd::arithmetic::div_mod::lemma_mod_multiples_vanish(q, r + 1, n);
}

/// A probe reaches every slot within as many steps as there are slots.
proof fn lemma_probe_reaches(start: int, t: int, n: int)
    requires
        n >= 1,
        0 <= start < n,
        0 <= t < n,
    ensures
        0 <= (t - start + n) % n < n,
        probe(start, (t - start + n) % n, n) == t,
{
    let d = t - start + n;
    vstd::arithmetic::div_mod::lemma_mod_bound(d, n);
    if d < n {
        vstd::arithmetic::div_mod::lemma_small_mod(d as nat, n as nat);
        assert(start + d == t + n);
    } else {
        vstd::arithmetic::div_mod::lemma_mod_sub_multiples_vanish(d, n);
        vstd::arithmetic::div_mod::lemma_small_mod((d - n) as nat, n as nat);
        assert(start + (d - n) == t);
    }
    vstd::arithmetic::div_mod::lemma_mod_sub_multiples_vanish(t + n, n);
    vstd::arithmetic::div_mod::lemma_small_mod(t as nat, n as nat);
}

/// A class together with the pointer objects use to refer to it. The class
/// is dropped when its owner is.
pub struct OwnedClass {
    pointer: ClassPointer,
    class: Class,
}

impl OwnedClass {
    /// Returns the owner of a class, referred to by `pointer`.
    pub fn new(pointer: ClassPointer, class: Class) -> (r: Self)
        ensures
            r.pointer_view() == pointer,
            r.class_view() == class,
    {
        OwnedClass { pointer, class }
    }

    /// The pointer to the class.
    pub closed spec fn pointer_view(&self) -> ClassPointer {
        self.pointer
    }

    /// The owned class.
    pub closed spec fn class_view(&self) -> Class {
        self.class
    }

    /// Returns the pointer to the class.
    pub fn pointer(&self) -> (r: ClassPointer)
        ensures
            r == self.pointer_view(),
    {
        self.pointer
    }

    /// Returns the owned class.
    pub fn class(&self) -> (r: &Class)
        ensures
            *r == self.class_view(),
    {
        &self.class
    }

    /// Returns the owned class, to change it.
    pub fn class_mut(&mut self) -> (r: &mut Class)
        ensures
            *r == old(self).class_view(),
            final(self).class_view() == *final(r),
            final(self).pointer_view() == old(self).pointer_view(),
    {
        &mut self.class
    }
}

/// A pointer to a class.
#[derive(Clone, Copy, PartialEq, Eq)]
pub struct ClassPointer(Pointer);

impl View for ClassPointer {
    type V = u64;

    closed spec fn view(&self) -> u64 {
        self.0@
    }
}

impl ClassPointer {
    /// Returns a new ClassPointer from a raw Pointer.
    pub fn new(pointer: Pointer) -> (r: Self)
        ensures
            r@ == pointer@,
    {
        ClassPointer(pointer)
    }

    /// Returns the ClassPointer as a regular Pointer.
    pub fn as_pointer(self) -> (r: Pointer)
        ensures
            r@ == self@,
    {
        self.0
    }
}

/// A resizable array.
pub struct Array {
    header: Header,
    value: Vec<Pointer>,
}

impl Array {
    /// The values of the array.
    pub closed spec fn values(&self) -> Seq<Pointer> {
        self.value@
    }

    /// The class of the array.
    pub closed spec fn class_of(&self) -> ClassPointer {
        self.header.class
    }

    /// Returns an array of the given class holding the given values.
    pub fn new(class: ClassPointer, value: Vec<Pointer>) -> (r: Self)
        ensures
            r.class_of() == class,
            r.values() == value@,
    {
        Array { header: Header { class, references: 0 }, value }
    }

    /// Returns a new array object holding the given values, in memory
    /// allocated by `allocator`.
    pub fn allocate<A: Allocator>(
        allocator: &mut A,
        blocks: &mut BlockAllocator,
        class: ClassPointer,
        value: Vec<Pointer>,
    ) -> (r: (Pointer, Array))
        requires
            old(allocator).allocator_wf(old(blocks)),
            old(blocks).wf(),
            old(blocks).num_blocks() < MAX_BLOCKS,
        ensures
            final(allocator).allocator_wf(final(blocks)),
            final(blocks).wf(),
            final(blocks).num_blocks() <= old(blocks).num_blocks() + 1,
            r.1.values() == value@,
            r.1.class_of() == class,
    {
        let ptr = allocator.allocate(blocks, ARRAY_SIZE as u64);
        (ptr, Array::new(class, value))
    }

    /// Returns the values of the array.
    pub fn value(&self) -> (r: &Vec<Pointer>)
        ensures
            r@ == self.values(),
    {
        &self.value
    }

    /// Returns the values of the array, to change them.
    pub fn value_mut(&mut self) -> (r: &mut Vec<Pointer>)
        ensures
            r@ == old(self).values(),
            final(self).values() == final(r)@,
            final(self).class_of() == old(self).class_of(),
    {
        &mut self.value
    }
}

/// A resizable array of bytes.
pub struct ByteArray {
    header: Header,
    value: Vec<u8>,
}

impl ByteArray {
    /// The bytes of the array.
    pub closed spec fn bytes(&self) -> Seq<u8> {
        self.value@
    }

    /// The class of the array.
    pub closed spec fn class_of(&self) -> ClassPointer {
        self.header.class
    }

    /// Returns a byte array of the given class holding the given bytes.
    pub fn new(class: ClassPointer, value: Vec<u8>) -> (r: Self)
        ensures
            r.class_of() == class,
            r.bytes() == value@,
    {
        ByteArray { header: Header { class, references: 0 }, value }
    }

    /// Returns a new byte array object holding the given bytes, in memory
    /// allocated by `allocator`.
    pub fn allocate<A: Allocator>(
        allocator: &mut A,
        blocks: &mut BlockAllocator,
        class: ClassPointer,
        value: Vec<u8>,
    ) -> (r: (Pointer, ByteArray))
        requires
            old(allocator).allocator_wf(old(blocks)),
            old(blocks).wf(),
            old(blocks).num_blocks() < MAX_BLOCKS,
        ensures
            final(allocator).allocator_wf(final(blocks)),
            final(blocks).wf(),
            r.1.bytes() == value@,
            r.1.class_of() == class,
    {
        let ptr = allocator.allocate(blocks, BYTE_ARRAY_SIZE as u64);
        (ptr, ByteArray::new(class, value))
    }

    /// Returns the bytes of the array.
    pub fn value(&self) -> (r: &Vec<u8>)
        ensures
            r@ == self.bytes(),
    {
        &self.value
    }

    /// Returns the bytes of the array, to change them.
    pub fn value_mut(&mut self) -> (r: &mut Vec<u8>)
        ensures
            r@ == old(self).bytes(),
            final(self).bytes() == final(r)@,
            final(self).class_of() == old(self).class_of(),
    {
        &mut self.value
    }

    /// Takes the bytes out of the array, leaving it empty.
    pub fn take_bytes(&mut self) -> (r: Vec<u8>)
        ensures
            r@ == old(self).bytes(),
            final(self).bytes() == Seq::<u8>::empty(),
            final(self).class_of() == old(self).class_of(),
    {
        let mut bytes: Vec<u8> = Vec::new();
        std::mem::swap(&mut bytes, &mut self.value);
        bytes
    }
}

/// A signed 64-bits integer that does not fit in a tagged pointer.
pub struct Int {
    header: Header,
    value: i64,
}

/// The value a signed integer object holds: the tagged value, or the value
/// of the boxed integer.
pub open spec fn int_value(ptr: Pointer, boxed: Option<Int>) -> i64 {
    match boxed {
        Some(b) => b.value_view(),
        None => ((ptr@ as i64) >> 2i64) as i64,
    }
}

/// Holds when `r` is the signed integer object for `value`: a tagged pointer
/// when the value fits in one, otherwise a pointer with a boxed integer of
/// class `class`.
pub open spec fn int_object(r: (Pointer, Option<Int>), class: ClassPointer, value: i64) -> bool {
    &&& int_value(r.0, r.1) == value
    &&& (MIN_INTEGER <= value <= MAX_INTEGER) ==> r.0@ == tagged_int_address(value) && r.1 is None
    &&& !(MIN_INTEGER <= value <= MAX_INTEGER) ==> (r.1 matches Some(b) && b.value_view() == value
        && b.class_of() == class)
}

impl Int {
    /// The value of the integer.
    pub closed spec fn value_view(&self) -> i64 {
        self.value
    }

    /// The class of the integer.
    pub closed spec fn class_of(&self) -> ClassPointer {
        self.header.class
    }

    /// Returns a new signed integer.
    ///
    /// If the value fits in a tagged pointer, the pointer is tagged and no
    /// memory is allocated; otherwise the value is boxed in memory allocated
    /// by `allocator`.
    pub fn allocate<A: Allocator>(
        allocator: &mut A,
        blocks: &mut BlockAllocator,
        class: ClassPointer,
        value: i64,
    ) -> (r: (Pointer, Option<Int>))
        requires
            old(allocator).allocator_wf(old(blocks)),
            old(blocks).wf(),
            old(blocks).num_blocks() < MAX_BLOCKS,
        ensures
            final(allocator).allocator_wf(final(blocks)),
            final(blocks).wf(),
            (MIN_INTEGER <= value <= MAX_INTEGER) ==> {
                &&& r.0@ == tagged_int_address(value)
                &&& r.1 is None
                &&& *final(blocks) == *old(blocks)
                &&& *final(allocator) == *old(allocator)
            },
            !(MIN_INTEGER <= value <= MAX_INTEGER) ==> {
                &&& r.1 is Some
                &&& r.1->0.value_view() == value
                &&& r.1->0.class_of() == class
            },
            int_value(r.0, r.1) == value,
    {
        if value >= MIN_INTEGER && value <= MAX_INTEGER {
            let ptr = Pointer::integer(value);
            proof {
                crate::mem::allocator::lemma_int_tagging(value);
            }
            return (ptr, None);
        }
        let ptr = allocator.allocate(blocks, INT_SIZE as u64);
        (ptr, Some(Int { header: Header { class, references: 0 }, value }))
    }

    /// Reads the integer value: from the tagged pointer, or from the boxed
    /// integer it points to.
    pub fn read(ptr: Pointer, boxed: &Option<Int>) -> (r: i64)
        ensures
            r == int_value(ptr, *boxed),
    {
        match boxed {
            Some(b) => b.value,
            None => ptr.as_int(),
        }
    }
}

/// An unsigned 64-bits integer that does not fit in a tagged pointer.
pub struct UnsignedInt {
    header: Header,
    value: u64,
}

/// The value an unsigned integer object holds: the tagged value, or the
/// value of the boxed integer.
pub open spec fn unsigned_int_value(ptr: Pointer, boxed: Option<UnsignedInt>) -> u64 {
    match boxed {
        Some(b) => b.value_view(),
        None => ptr@ >> 2u64,
    }
}

/// Holds when `r` is the unsigned integer object for `value`: a tagged
/// pointer when the value fits in one, otherwise a pointer with a boxed
/// integer of class `class`.
pub open spec fn unsigned_int_object(r: (Pointer, Option<UnsignedInt>), class: ClassPointer, value: u64) -> bool {
    &&& unsigned_int_value(r.0, r.1) == value
    &&& value <= MAX_UNSIGNED_INTEGER ==> r.0@ == tagged_unsigned_int_address(value) && r.1 is None
    &&& value > MAX_UNSIGNED_INTEGER ==> (r.1 matches Some(b) && b.value_view() == value
        && b.class_of() == class)
}

impl UnsignedInt {
    /// The value of the integer.
    pub closed spec fn value_view(&self) -> u64 {
        self.value
    }

    /// The class of the integer.
    pub closed spec fn class_of(&self) -> ClassPointer {
        self.header.class
    }

    /// Returns a new unsigned integer.
    ///
    /// If the value fits in a tagged pointer, the pointer is tagged and no
    /// memory is allocated; otherwise the value is boxed in memory allocated
    /// by `allocator`.
    pub fn allocate<A: Allocator>(
        allocator: &mut A,
        blocks: &mut BlockAllocator,
        class: ClassPointer,
        value: u64,
    ) -> (r: (Pointer, Option<UnsignedInt>))
        requires
            old(allocator).allocator_wf(old(blocks)),
            old(blocks).wf(),
            old(blocks).num_blocks() < MAX_BLOCKS,
        ensures
            final(allocator).allocator_wf(final(blocks)),
            final(blocks).wf(),
            value <= MAX_UNSIGNED_INTEGER ==> {
                &&& r.0@ == tagged_unsigned_int_address(value)
                &&& r.1 is None
                &&& *final(blocks) == *old(blocks)
                &&& *final(allocator) == *old(allocator)
            },
            value > MAX_UNSIGNED_INTEGER ==> {
                &&& r.1 is Some
                &&& r.1->0.value_view() == value
                &&& r.1->0.class_of() == class
            },
            unsigned_int_value(r.0, r.1) == value,
    {
        if value <= MAX_UNSIGNED_INTEGER {
            let ptr = Pointer::unsigned_int(value);
            proof {
                crate::mem::allocator::lemma_unsigned_int_tagging(value);
            }
            return (ptr, None);
        }
        let ptr = allocator.allocate(blocks, INT_SIZE as u64);
        (ptr, Some(UnsignedInt { header: Header { class, references: 0 }, value }))
    }

    /// Reads the integer value: from the tagged pointer, or from the boxed
    /// integer it points to.
    pub fn read(ptr: Pointer, boxed: &Option<UnsignedInt>) -> (r: u64)
        ensures
            r == unsigned_int_value(ptr, *boxed),
    {
        match boxed {
            Some(b) => b.value,
            None => ptr.as_unsigned_int(),
        }
    }
}

/// A heap allocated string.
pub struct String {
    header: Header,
    value: std::string::String,
}

impl String {
    /// The characters of the string.
    pub closed spec fn chars(&self) -> Seq<char> {
        self.value@
    }

    /// The class of the string.
    pub closed spec fn class_of(&self) -> ClassPointer {
        self.header.class
    }

    /// Returns a new string object, in memory allocated by `allocator`.
    pub fn allocate<A: Allocator>(
        allocator: &mut A,
        blocks: &mut BlockAllocator,
        class: ClassPointer,
        value: std::string::String,
    ) -> (r: (Pointer, String))
        requires
            old(allocator).allocator_wf(old(blocks)),
            old(blocks).wf(),
            old(blocks).num_blocks() < MAX_BLOCKS,
        ensures
            final(allocator).allocator_wf(final(blocks)),
            final(blocks).wf(),
            final(blocks).num_blocks() <= old(blocks).num_blocks() + 1,
            r.1.chars() == value@,
            r.1.class_of() == class,
    {
        let ptr = allocator.allocate(blocks, STRING_SIZE as u64);
        (ptr, String { header: Header { class, references: 0 }, value })
    }

    /// Returns the value of the string.
    pub fn value(&self) -> (r: &std::string::String)
        ensures
            r@ == self.chars(),
    {
        &self.value
    }
}

/// A module containing classes, methods, and code to run.
pub struct Module {
    header: Header,
    /// The path to the source file that defined the module.
    path: std::string::String,
    /// The classes defined in this module; the first one is the class of the
    /// module itself.
    classes: Vec<OwnedClass>,
    /// The globals this module has access to.
    globals: Vec<Pointer>,
    /// The literals (e.g. String literals) defined in this module.
    literals: Vec<Pointer>,
    /// A boolean indicating if this module has been executed or not.
    executed: bool,
}

impl Module {
    /// The class of the module.
    pub closed spec fn class_view(&self) -> ClassPointer {
        self.header.class
    }

    /// The path of the source file of the module.
    pub closed spec fn path_view(&self) -> Seq<char> {
        self.path@
    }

    /// The classes owned by the module.
    pub closed spec fn classes_view(&self) -> Seq<OwnedClass> {
        self.classes@
    }

    /// The globals of the module.
    pub closed spec fn globals_view(&self) -> Seq<Pointer> {
        self.globals@
    }

    /// The literals of the module.
    pub closed spec fn literals_view(&self) -> Seq<Pointer> {
        self.literals@
    }

    /// Whether the module has been executed.
    pub closed spec fn executed_view(&self) -> bool {
        self.executed
    }

    /// A module owns at least its own class.
    pub closed spec fn wf(&self) -> bool {
        self.classes@.len() >= 1
    }

    /// Returns a new module that owns its class, with the given literals and
    /// a number of globals that are all null.
    pub fn allocate(
        class: OwnedClass,
        path: std::string::String,
        literals: Vec<Pointer>,
        globals: u16,
    ) -> (r: Self)
        ensures
            r.wf(),
            r.class_view() == class.pointer_view(),
            r.classes_view() == seq![class],
            r.path_view() == path@,
            r.literals_view() == literals@,
            r.globals_view().len() == globals,
            forall|i: int| 0 <= i < globals ==> (#[trigger] r.globals_view()[i])@ == 0,
            !r.executed_view(),
    {
        let pointer = class.pointer();
        let mut table: Vec<Pointer> = Vec::new();
        let mut i: u16 = 0;
        while i < globals
            invariant
                i <= globals,
                table@.len() == i,
                forall|k: int| 0 <= k < i ==> (#[trigger] table@[k])@ == 0,
            decreases globals - i,
        {
            table.push(Pointer::new(0));
            i = i + 1;
        }
        let mut classes: Vec<OwnedClass> = Vec::new();
        classes.push(class);
        Module {
            header: Header { class: pointer, references: 0 },
            path,
            classes,
            globals: table,
            literals,
            executed: false,
        }
    }

    /// Returns the name of the module: the name of its class.
    pub fn name(&self) -> (r: &std::string::String)
        requires
            self.wf(),
        ensures
            r@ == self.classes_view()[0].class_view().name_view(),
    {
        self.classes[0].class().name()
    }

    /// Returns the path of the source file of the module.
    pub fn source_path(&self) -> (r: &std::string::String)
        ensures
            r@ == self.path_view(),
    {
        &self.path
    }

    /// Returns the literals of the module.
    pub fn literals(&self) -> (r: &Vec<Pointer>)
        ensures
            r@ == self.literals_view(),
    {
        &self.literals
    }

    /// Adds a class to the module.
    pub fn add_class(&mut self, class: OwnedClass)
        ensures
            final(self).classes_view() == old(self).classes_view().push(class),
            final(self).class_view() == old(self).class_view(),
            final(self).path_view() == old(self).path_view(),
            final(self).globals_view() == old(self).globals_view(),
            final(self).literals_view() == old(self).literals_view(),
            final(self).executed_view() == old(self).executed_view(),
            old(self).wf() ==> final(self).wf(),
    {
        self.classes.push(class)
    }

    /// Returns the classes of the module.
    pub fn classes(&self) -> (r: &Vec<OwnedClass>)
        ensures
            r@ == self.classes_view(),
    {
        &self.classes
    }

    /// Returns the literal at the given index.
    pub fn get_literal(&self, index: LiteralIndex) -> (r: Pointer)
        requires
            index.0 < self.literals_view().len(),
        ensures
            r == self.literals_view()[index.0 as int],
    {
        let i: usize = index.into();
        self.literals[i]
    }

    /// Marks the module as executed. Returns `true` if it had not been
    /// executed before, and `false` if it had.
    pub fn mark_as_executed(&mut self) -> (r: bool)
        ensures
            r == !old(self).executed_view(),
            final(self).executed_view(),
            final(self).class_view() == old(self).class_view(),
            final(self).classes_view() == old(self).classes_view(),
            final(self).path_view() == old(self).path_view(),
            final(self).globals_view() == old(self).globals_view(),
            final(self).literals_view() == old(self).literals_view(),
            old(self).wf() ==> final(self).wf(),
    {
        if self.executed {
            return false;
        }
        self.executed = true;
        true
    }

    /// Returns the value of a global.
    pub fn get_global(&self, index: GlobalIndex) -> (r: Pointer)
        requires
            index.0 < self.globals_view().len(),
        ensures
            r == self.globals_view()[index.0 as int],
    {
        let i: usize = index.into();
        self.globals[i]
    }

    /// Sets the value of a global.
    pub fn set_global(&mut self, index: GlobalIndex, value: Pointer)
        requires
            index.0 < old(self).globals_view().len(),
        ensures
            final(self).globals_view() == old(self).globals_view().update(index.0 as int, value),
            final(self).class_view() == old(self).class_view(),
            final(self).classes_view() == old(self).classes_view(),
            final(self).path_view() == old(self).path_view(),
            final(self).literals_view() == old(self).literals_view(),
            final(self).executed_view() == old(self).executed_view(),
            old(self).wf() ==> final(self).wf(),
    {
        let i: usize = index.into();
        self.globals.set(i, value);
    }

    /// Returns the class of the module.
    pub fn class(&self) -> (r: ClassPointer)
        ensures
            r == self.class_view(),
    {
        self.header.class
    }
}

/// A module that is dropped when its owner is dropped.
pub struct OwnedModule(Module);

impl OwnedModule {
    /// Returns the owner of a module.
    pub fn new(module: Module) -> (r: Self)
        ensures
            r.module_view() == module,
    {
        OwnedModule(module)
    }

    /// The owned module.
    pub closed spec fn module_view(&self) -> Module {
        self.0
    }

    /// Returns the owned module.
    pub fn module(&self) -> (r: &Module)
        ensures
            *r == self.module_view(),
    {
        &self.0
    }

    /// Returns the owned module, for changing it in place.
    pub fn module_mut(&mut self) -> (r: &mut Module)
        ensures
            *r == old(self).module_view(),
            final(self).module_view() == *final(r),
    {
        &mut self.0
    }
}

/// A pointer to a module.
#[derive(Clone, Copy)]
pub struct ModulePointer(Pointer);

impl View for ModulePointer {
    type V = u64;

    closed spec fn view(&self) -> u64 {
        self.0@
    }
}

impl ModulePointer {
    /// Returns a new ModulePointer from a raw Pointer.
    pub fn new(pointer: Pointer) -> (r: Self)
        ensures
            r@ == pointer@,
    {
        ModulePointer(pointer)
    }

    /// Returns the ModulePointer as a regular Pointer.
    pub fn as_pointer(self) -> (r: Pointer)
        ensures
            r@ == self@,
    {
        self.0
    }
}

/// A regular object that can store zero or more fields.
pub struct Object {
    header: Header,
    /// The fields of this object, all null when the object is created.
    fields: Vec<Pointer>,
}

impl Object {
    /// The fields of the object.
    pub closed spec fn fields_view(&self) -> Seq<Pointer> {
        self.fields@
    }

    /// The class of the object.
    pub closed spec fn class_of(&self) -> ClassPointer {
        self.header.class
    }

    /// Returns a new object of the class `class`, with all its fields null,
    /// in memory allocated by `allocator`.
    pub fn allocate<A: Allocator>(
        allocator: &mut A,
        blocks: &mut BlockAllocator,
        class: &OwnedClass,
    ) -> (r: (Pointer, Object))
        requires
            old(allocator).allocator_wf(old(blocks)),
            old(blocks).wf(),
            old(blocks).num_blocks() < MAX_BLOCKS,
            class.class_view().size() <= MAX_ALLOCATION_SIZE,
            class.class_view().field_names().len() <= 255,
        ensures
            final(allocator).allocator_wf(final(blocks)),
            final(blocks).wf(),
            r.1.class_of() == class.pointer_view(),
            r.1.fields_view().len() == class.class_view().field_names().len(),
            forall|i: int| 0 <= i < r.1.fields_view().len() ==> (#[trigger] r.1.fields_view()[i])@ == 0,
    {
        let ptr = allocator.allocate(blocks, class.class().instance_size() as u64);
        let fields = class.class().fields().len() as u8;
        (ptr, Object::new(class.pointer(), fields))
    }

    /// Returns an object of the given class, with `fields` null fields.
    pub fn new(class: ClassPointer, fields: u8) -> (r: Self)
        ensures
            r.class_of() == class,
            r.fields_view().len() == fields,
            forall|i: int| 0 <= i < fields ==> (#[trigger] r.fields_view()[i])@ == 0,
    {
        let mut values: Vec<Pointer> = Vec::new();
        let mut i: u8 = 0;
        while i < fields
            invariant
                i <= fields,
                values@.len() == i,
                forall|k: int| 0 <= k < i ==> (#[trigger] values@[k])@ == 0,
            decreases fields - i,
        {
            values.push(Pointer::new(0));
            i = i + 1;
        }
        Object { header: Header { class, references: 0 }, fields: values }
    }

    /// Assigns a new value to a field.
    pub fn set(&mut self, index: FieldIndex, value: Pointer)
        requires
            index.0 < old(self).fields_view().len(),
        ensures
            final(self).fields_view() == old(self).fields_view().update(index.0 as int, value),
            final(self).class_of() == old(self).class_of(),
    {
        let i: usize = index.into();
        self.fields.set(i, value);
    }

    /// Returns the value of a field.
    pub fn get(&self, index: FieldIndex) -> (r: Pointer)
        requires
            index.0 < self.fields_view().len(),
        ensures
            r == self.fields_view()[index.0 as int],
    {
        let i: usize = index.into();
        self.fields[i]
    }
}

} // verus!
