//! Virtual machine registers.
use vstd::prelude::*;
use crate::mem::allocator::Pointer;

verus! {

/// The registers of an execution context: a fixed number of pointers, all
/// null when the registers are created.
pub struct Registers {
    pub values: Vec<Pointer>,
}

impl Registers {
    /// Returns `amount` registers, all holding the null pointer.
    pub fn new(amount: u16) -> (r: Registers)
        ensures
            r.values@.len() == amount,
            forall|i: int| 0 <= i < amount ==> (#[trigger] r.values@[i])@ == 0,
    {
        let mut values: Vec<Pointer> = Vec::new();
        let mut i: u16 = 0;
        while i < amount
            invariant
                i <= amount,
                values@.len() == i,
                forall|k: int| 0 <= k < i ==> (#[trigger] values@[k])@ == 0,
            decreases amount - i,
        {
            values.push(Pointer::new(0));
            i = i + 1;
        }
        Registers { values }
    }

    /// Sets the value of a register.
    pub fn set(&mut self, register: u16, value: Pointer)
        requires
            register < old(self).values@.len(),
        ensures
            final(self).values@ == old(self).values@.update(register as int, value),
    {
        self.values.set(register as usize, value);
    }

    /// Returns the value of a register.
    pub fn get(&self, register: u16) -> (r: Pointer)
        requires
            register < self.values@.len(),
        ensures
            r == self.values@[register as int],
    {
        self.values[register as usize]
    }

    /// Returns the values of `length` registers, from register `start` on.
    pub fn slice(&self, start: u16, length: u16) -> (r: &[Pointer])
        requires
            start + length <= self.values@.len(),
        ensures
            r@ == self.values@.subrange(start as int, start + length),
    {
        let end: usize = start as usize + length as usize;
        vstd::slice::slice_subrange(self.values.as_slice(), start as usize, end)
    }

    /// Copies the given values into the registers, from the first register on.
    pub fn set_slice(&mut self, values: &[Pointer])
        requires
            values@.len() <= old(self).values@.len(),
        ensures
            final(self).values@.len() == old(self).values@.len(),
            final(self).values@.subrange(0, values@.len() as int) == values@,
            final(self).values@.subrange(values@.len() as int, old(self).values@.len() as int)
                == old(self).values@.subrange(values@.len() as int, old(self).values@.len() as int),
    {
        let mut i: usize = 0;
        while i < values.len()
            invariant
                i <= values@.len(),
                values@.len() <= old(self).values@.len(),
                self.values@.len() == old(self).values@.len(),
                forall|k: int| 0 <= k < i ==> self.values@[k] == values@[k],
                forall|k: int| i <= k < old(self).values@.len() ==> self.values@[k] == old(self).values@[k],
            decreases values@.len() - i,
        {
            self.values.set(i, values[i]);
            i = i + 1;
        }
        assert(self.values@.subrange(0, values@.len() as int) =~= values@);
        assert(self.values@.subrange(values@.len() as int, old(self).values@.len() as int)
            =~= old(self).values@.subrange(values@.len() as int, old(self).values@.len() as int));
    }
}

} // verus!
