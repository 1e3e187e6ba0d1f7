//! Fixed-size file of general-purpose registers, indexed and
//! bounds-checked. Registers are eight bits wide; arithmetic on them wraps
//! at the engine level and is never an error — only out-of-range indexing
//! is.

use vstd::prelude::*;

use crate::errors::MachineError;

verus! {

/// An ordered, fixed-size sequence of 8-bit registers. Its model is the
/// sequence of register values; the register count is its length.
pub struct RegisterFile {
    values: Vec<u8>,
}

impl View for RegisterFile {
    type V = Seq<u8>;

    closed spec fn view(&self) -> Seq<u8> {
        self.values@
    }
}

impl RegisterFile {
    /// A file of `count` registers, all zero. The count may not exceed the
    /// 8-bit index range.
    pub fn new(count: usize) -> (rf: RegisterFile)
        requires
            count <= 0x100,
        ensures
            rf@ == Seq::new(count as nat, |i: int| 0u8),
    {
        let mut values: Vec<u8> = Vec::new();
        while values.len() < count
            invariant
                values@.len() <= count,
                values@ =~= Seq::new(values@.len(), |i: int| 0u8),
            decreases count - values@.len(),
        {
            values.push(0u8);
        }
        proof {
            assert(values@ =~= Seq::new(count as nat, |i: int| 0u8));
        }
        RegisterFile { values }
    }

    /// The number of registers.
    pub fn count(&self) -> (n: usize)
        ensures
            n == self@.len(),
    {
        self.values.len()
    }

    /// The value of register `index`, or `RegisterIndexOutOfBounds(index)`
    /// when `index` is at or beyond the register count. No other failure
    /// mode.
    pub fn get(&self, index: u8) -> (r: Result<u8, MachineError>)
        ensures
            index < self@.len() ==> r == Ok::<u8, MachineError>(self@[index as int]),
            index >= self@.len() ==> r == Err::<u8, MachineError>(
                MachineError::RegisterIndexOutOfBounds(index),
            ),
    {
        if (index as usize) < self.values.len() {
            Ok(self.values[index as usize])
        } else {
            Err(MachineError::RegisterIndexOutOfBounds(index))
        }
    }

    /// Sets register `index` to `value`, or fails with
    /// `RegisterIndexOutOfBounds(index)` when `index` is at or beyond the
    /// register count, leaving every register unchanged.
    pub fn set(&mut self, index: u8, value: u8) -> (r: Result<(), MachineError>)
        ensures
            index < old(self)@.len() ==> r == Ok::<(), MachineError>(())
                && final(self)@ == old(self)@.update(index as int, value),
            index >= old(self)@.len() ==> r == Err::<(), MachineError>(
                MachineError::RegisterIndexOutOfBounds(index),
            ) && final(self)@ == old(self)@,
    {
        if (index as usize) < self.values.len() {
            self.values[index as usize] = value;
            Ok(())
        } else {
            Err(MachineError::RegisterIndexOutOfBounds(index))
        }
    }

    /// The value of a register whose index is already known to be in
    /// bounds.
    pub(crate) fn read_reg(&self, index: u8) -> (v: u8)
        requires
            index < self@.len(),
        ensures
            v == self@[index as int],
    {
        self.values[index as usize]
    }

    /// Sets a register whose index is already known to be in bounds.
    pub(crate) fn write_reg(&mut self, index: u8, value: u8)
        requires
            index < old(self)@.len(),
        ensures
            final(self)@ == old(self)@.update(index as int, value),
    {
        self.values[index as usize] = value;
    }
}

/// Setting a register and then reading the same index yields the value
/// just written, and no other register moves, for every in-bounds index.
pub proof fn lemma_register_round_trip(regs: Seq<u8>, index: int, value: u8)
    requires
        0 <= index < regs.len(),
    ensures
        regs.update(index, value)[index] == value,
        regs.update(index, value).len() == regs.len(),
        forall|other: int|
            0 <= other < regs.len() && other != index ==> regs.update(index, value)[other]
                == regs[other],
{
}

} // verus!
