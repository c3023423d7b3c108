//! Scopes for local variables.
use vstd::prelude::*;
use crate::indexes::LocalIndex;
use crate::mem::allocator::Pointer;

verus! {

/// The local variables of a method call, all null when the scope is created.
pub struct VariableScope {
    locals: Vec<Pointer>,
}

impl VariableScope {
    /// The values of the local variables.
    pub closed spec fn locals_view(&self) -> Seq<Pointer> {
        self.locals@
    }

    /// Returns a scope of `locals` variables, all holding the null pointer.
    pub fn new(locals: u16) -> (r: VariableScope)
        ensures
            r.locals_view().len() == locals,
            forall|i: int| 0 <= i < locals ==> (#[trigger] r.locals_view()[i])@ == 0,
    {
        let mut values: Vec<Pointer> = Vec::new();
        let mut i: u16 = 0;
        while i < locals
            invariant
                i <= locals,
                values@.len() == i,
                forall|k: int| 0 <= k < i ==> (#[trigger] values@[k])@ == 0,
            decreases locals - i,
        {
            values.push(Pointer::new(0));
            i = i + 1;
        }
        VariableScope { locals: values }
    }

    /// Returns the local variables.
    pub fn locals(&self) -> (r: &Vec<Pointer>)
        ensures
            r@ == self.locals_view(),
    {
        &self.locals
    }

    /// Returns the local variables, for changing them in place.
    pub fn locals_mut(&mut self) -> (r: &mut Vec<Pointer>)
        ensures
            r@ == old(self).locals_view(),
            final(self).locals_view() == final(r)@,
    {
        &mut self.locals
    }

    /// Returns the value of a local variable.
    pub fn get(&self, index: LocalIndex) -> (r: Pointer)
        requires
            index.0 < self.locals_view().len(),
        ensures
            r == self.locals_view()[index.0 as int],
    {
        let i: usize = index.into();
        self.locals[i]
    }

    /// Sets the value of a local variable.
    pub fn set(&mut self, index: LocalIndex, value: Pointer)
        requires
            index.0 < old(self).locals_view().len(),
        ensures
            final(self).locals_view() == old(self).locals_view().update(index.0 as int, value),
    {
        let i: usize = index.into();
        self.locals.set(i, value);
    }
}

} // verus!
