//! The memory layout of managed objects.
use vstd::prelude::*;
use crate::mem::allocator::Pointer;

verus! {

/// The type of an object.
///
/// Every kind has a fixed byte value. Blocks are zeroed out when first
/// created; to tell a chunk of memory that holds no object from one that
/// does, the byte 0 is used by no real object.
#[derive(Clone, Copy, PartialEq, Eq, Debug, Structural)]
pub enum Kind {
    Empty,
    Object,
    Integer,
    Float,
}

/// The fixed byte value of a kind of object.
pub open spec fn kind_byte(kind: Kind) -> u8 {
    match kind {
        Kind::Empty => 0,
        Kind::Object => 1,
        Kind::Integer => 2,
        Kind::Float => 3,
    }
}

impl Kind {
    /// Returns the fixed byte value of this kind.
    pub fn byte(self) -> (r: u8)
        ensures
            r == kind_byte(self),
    {
        match self {
            Kind::Empty => 0,
            Kind::Object => 1,
            Kind::Integer => 2,
            Kind::Float => 3,
        }
    }

    /// Returns the kind with the given byte value, if any.
    pub fn from_byte(byte: u8) -> (r: Option<Kind>)
        ensures
            byte <= 3 ==> r is Some && kind_byte(r->0) == byte,
            byte > 3 ==> r is None,
    {
        match byte {
            0 => Some(Kind::Empty),
            1 => Some(Kind::Object),
            2 => Some(Kind::Integer),
            3 => Some(Kind::Float),
            _ => None,
        }
    }
}

/// The byte value of a kind gives that kind back, and no two kinds share a
/// byte value.
pub proof fn lemma_kind_byte_round_trip(a: Kind, b: Kind)
    ensures
        kind_byte(a) <= 3,
        kind_byte(a) == kind_byte(b) ==> a == b,
{
}

/// The header used by all managed objects.
pub struct Header {
    /// The kind of object we're dealing with.
    kind: Kind,
    /// Bits used by the garbage collector, such as when an object needs to be
    /// marked as being forwarded:
    ///
    /// * 000: the object is a regular object (default)
    /// * 001: this object is in the process of being forwarded
    /// * 010: this object has been forwarded
    /// * 100: this object has been remembered in the remembered set
    gc_bits: u8,
}

/// A method bound to an object.
pub struct Method {
    /// The code to run when the method is called.
    code: Pointer,
    /// The module this method is defined in.
    module: Pointer,
}

/// A virtual method table.
pub struct MethodTable {
    methods: Vec<Method>,
}

/// A class: its name, the names of the attributes of its instances, and its
/// methods.
pub struct Class {
    header: Header,
    /// The name of the class, as a permanently heap allocated string.
    name: Pointer,
    /// The names of the attributes instances of this class have access to, in
    /// the order they are defined in.
    attributes: Vec<Pointer>,
    /// The static methods of this class.
    static_methods: MethodTable,
    /// The instance methods of this class.
    instance_methods: MethodTable,
}

/// A regular object that can store zero or more attributes.
pub struct Object {
    header: Header,
    /// A pointer to the class of this object.
    class: Pointer,
    /// A pointer to the start of the list of attributes: the null pointer if
    /// there are none.
    attributes: Pointer,
}

} // verus!
