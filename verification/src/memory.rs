//! Fixed-capacity addressable byte store with bounds-checked access.
//! Addresses are 16-bit unsigned; the capacity is chosen at construction
//! and never changes. Out-of-range access is a reported error, never a
//! crash or a wraparound.

use vstd::prelude::*;

use crate::errors::MachineError;

verus! {

/// A byte-addressable memory of fixed capacity. Its model is the sequence
/// of its bytes; the capacity is the length of that sequence.
pub struct Memory {
    bytes: Vec<u8>,
}

impl View for Memory {
    type V = Seq<u8>;

    closed spec fn view(&self) -> Seq<u8> {
        self.bytes@
    }
}

impl Memory {
    /// A memory of `capacity` bytes, all zero. The capacity may not exceed
    /// the 16-bit address range.
    pub fn new(capacity: usize) -> (m: Memory)
        requires
            capacity <= 0x10000,
        ensures
            m@ == Seq::new(capacity as nat, |i: int| 0u8),
    {
        let mut bytes: Vec<u8> = Vec::new();
        while bytes.len() < capacity
            invariant
                bytes@.len() <= capacity,
                bytes@ =~= Seq::new(bytes@.len(), |i: int| 0u8),
            decreases capacity - bytes@.len(),
        {
            bytes.push(0u8);
        }
        proof {
            assert(bytes@ =~= Seq::new(capacity as nat, |i: int| 0u8));
        }
        Memory { bytes }
    }

    /// The number of addressable bytes.
    pub fn capacity(&self) -> (n: usize)
        ensures
            n == self@.len(),
    {
        self.bytes.len()
    }

    /// The byte at `addr`, or `MemoryOutOfBounds(addr)` when `addr` is at
    /// or beyond the capacity. No other failure mode.
    pub fn read(&self, addr: u16) -> (r: Result<u8, MachineError>)
        ensures
            addr < self@.len() ==> r == Ok::<u8, MachineError>(self@[addr as int]),
            addr >= self@.len() ==> r == Err::<u8, MachineError>(
                MachineError::MemoryOutOfBounds(addr),
            ),
    {
        if (addr as usize) < self.bytes.len() {
            Ok(self.bytes[addr as usize])
        } else {
            Err(MachineError::MemoryOutOfBounds(addr))
        }
    }

    /// Writes one byte at `addr`, or fails with `MemoryOutOfBounds(addr)`
    /// when `addr` is at or beyond the capacity, leaving the memory
    /// unchanged. A successful write mutates exactly that one byte.
    pub fn write(&mut self, addr: u16, value: u8) -> (r: Result<(), MachineError>)
        ensures
            addr < old(self)@.len() ==> r == Ok::<(), MachineError>(())
                && final(self)@ == old(self)@.update(addr as int, value),
            addr >= old(self)@.len() ==> r == Err::<(), MachineError>(
                MachineError::MemoryOutOfBounds(addr),
            ) && final(self)@ == old(self)@,
    {
        if (addr as usize) < self.bytes.len() {
            self.bytes[addr as usize] = value;
            Ok(())
        } else {
            Err(MachineError::MemoryOutOfBounds(addr))
        }
    }

    /// The byte at an address already known to be in bounds.
    pub(crate) fn byte_at(&self, addr: u16) -> (b: u8)
        requires
            addr < self@.len(),
        ensures
            b == self@[addr as int],
    {
        self.bytes[addr as usize]
    }

    /// Writes a byte at an address already known to be in bounds.
    pub(crate) fn set_byte(&mut self, addr: u16, value: u8)
        requires
            addr < old(self)@.len(),
        ensures
            final(self)@ == old(self)@.update(addr as int, value),
    {
        self.bytes[addr as usize] = value;
    }
}

/// Writing a byte and then reading the same address yields the byte just
/// written, for every in-bounds address.
pub proof fn lemma_memory_round_trip(mem: Seq<u8>, addr: int, value: u8)
    requires
        0 <= addr < mem.len(),
    ensures
        mem.update(addr, value)[addr] == value,
        mem.update(addr, value).len() == mem.len(),
        forall|other: int|
            0 <= other < mem.len() && other != addr ==> mem.update(addr, value)[other] == mem[other],
{
}

} // verus!
