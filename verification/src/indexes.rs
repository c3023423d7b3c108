//! Types for indexing tables such as method tables.
use vstd::prelude::*;
use crate::numeric::u32_from_u16_pair;

verus! {

/// An index used for accessing methods.
///
/// The index is expected to be validated already (e.g. by the compiler).
#[derive(Clone, Copy, Debug, PartialEq, Eq)]
pub struct MethodIndex(pub u16);

impl MethodIndex {
    /// Returns a new MethodIndex from a raw u16.
    pub fn new(index: u16) -> (r: Self)
        ensures
            r.0 == index,
    {
        Self(index)
    }
}

impl From<MethodIndex> for u16 {
    fn from(index: MethodIndex) -> (r: u16) {
        index.0
    }
}

impl vstd::std_specs::convert::FromSpecImpl<MethodIndex> for u16 {
    open spec fn obeys_from_spec() -> bool {
        true
    }

    open spec fn from_spec(index: MethodIndex) -> u16 {
        index.0
    }
}

impl From<MethodIndex> for usize {
    fn from(index: MethodIndex) -> (r: usize) {
        index.0 as usize
    }
}

impl vstd::std_specs::convert::FromSpecImpl<MethodIndex> for usize {
    open spec fn obeys_from_spec() -> bool {
        true
    }

    open spec fn from_spec(index: MethodIndex) -> usize {
        index.0 as usize
    }
}

/// An index used for accessing fields.
#[derive(Clone, Copy, Debug, PartialEq, Eq)]
pub struct FieldIndex(pub u8);

impl FieldIndex {
    /// Returns a new FieldIndex from a raw u8.
    pub fn new(index: u8) -> (r: Self)
        ensures
            r.0 == index,
    {
        Self(index)
    }
}

impl From<FieldIndex> for u8 {
    fn from(index: FieldIndex) -> (r: u8) {
        index.0
    }
}

impl vstd::std_specs::convert::FromSpecImpl<FieldIndex> for u8 {
    open spec fn obeys_from_spec() -> bool {
        true
    }

    open spec fn from_spec(index: FieldIndex) -> u8 {
        index.0
    }
}

impl From<FieldIndex> for usize {
    fn from(index: FieldIndex) -> (r: usize) {
        index.0 as usize
    }
}

impl vstd::std_specs::convert::FromSpecImpl<FieldIndex> for usize {
    open spec fn obeys_from_spec() -> bool {
        true
    }

    open spec fn from_spec(index: FieldIndex) -> usize {
        index.0 as usize
    }
}

/// An index used for accessing local variables.
#[derive(Clone, Copy, Debug, PartialEq, Eq)]
pub struct LocalIndex(pub u16);

impl LocalIndex {
    /// Returns a new LocalIndex from a raw u16.
    pub fn new(index: u16) -> (r: Self)
        ensures
            r.0 == index,
    {
        Self(index)
    }
}

impl From<LocalIndex> for usize {
    fn from(index: LocalIndex) -> (r: usize) {
        index.0 as usize
    }
}

impl vstd::std_specs::convert::FromSpecImpl<LocalIndex> for usize {
    open spec fn obeys_from_spec() -> bool {
        true
    }

    open spec fn from_spec(index: LocalIndex) -> usize {
        index.0 as usize
    }
}

/// An index used for accessing global variables.
#[derive(Clone, Copy, Debug, PartialEq, Eq)]
pub struct GlobalIndex(pub u16);

impl GlobalIndex {
    /// Returns a new GlobalIndex from a raw u16.
    pub fn new(index: u16) -> (r: Self)
        ensures
            r.0 == index,
    {
        Self(index)
    }
}

impl From<GlobalIndex> for u16 {
    fn from(index: GlobalIndex) -> (r: u16) {
        index.0
    }
}

impl vstd::std_specs::convert::FromSpecImpl<GlobalIndex> for u16 {
    open spec fn obeys_from_spec() -> bool {
        true
    }

    open spec fn from_spec(index: GlobalIndex) -> u16 {
        index.0
    }
}

impl From<GlobalIndex> for usize {
    fn from(index: GlobalIndex) -> (r: usize) {
        index.0 as usize
    }
}

impl vstd::std_specs::convert::FromSpecImpl<GlobalIndex> for usize {
    open spec fn obeys_from_spec() -> bool {
        true
    }

    open spec fn from_spec(index: GlobalIndex) -> usize {
        index.0 as usize
    }
}

/// An index used for accessing literal values.
#[derive(Clone, Copy, Debug, PartialEq, Eq)]
pub struct LiteralIndex(pub usize);

impl LiteralIndex {
    /// Returns a new LiteralIndex from a raw usize.
    pub fn new(index: usize) -> (r: Self)
        ensures
            r.0 == index,
    {
        Self(index)
    }

    /// Returns a new LiteralIndex from a raw u16.
    pub fn from_u16(index: u16) -> (r: Self)
        ensures
            r.0 == index,
    {
        Self(index as usize)
    }

    /// Returns a LiteralIndex from a pair of u16 values, for literal indexes
    /// that don't fit in a single instruction argument.
    pub fn wide(a: u16, b: u16) -> (r: Self)
        ensures
            r.0 == a as int * 65536 + b as int,
    {
        Self(u32_from_u16_pair(a, b) as usize)
    }
}

impl From<LiteralIndex> for usize {
    fn from(index: LiteralIndex) -> (r: usize) {
        index.0
    }
}

impl vstd::std_specs::convert::FromSpecImpl<LiteralIndex> for usize {
    open spec fn obeys_from_spec() -> bool {
        true
    }

    open spec fn from_spec(index: LiteralIndex) -> usize {
        index.0
    }
}

} // verus!
