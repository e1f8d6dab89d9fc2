//! The memory bus: a flat, byte-addressable 64 KiB store.
//!
//! Every 16-bit address is valid, so reads and writes cannot fail. The
//! contents are viewed as a sequence of 65,536 bytes.

use vstd::prelude::*;

verus! {

/// The number of bytes on the bus: one for every 16-bit address.
pub const MEMORY_SIZE: usize = 65536;

/// A flat 64 KiB byte-addressable memory.
pub struct Memory {
    bytes: Vec<u8>,
}

impl View for Memory {
    type V = Seq<u8>;

    closed spec fn view(&self) -> Seq<u8> {
        self.bytes@
    }
}

impl Memory {
    /// The one well-formedness condition: a byte behind every address.
    pub open spec fn inv(&self) -> bool {
        self@.len() == MEMORY_SIZE
    }

    /// A memory with every byte zero.
    pub fn new() -> (m: Memory)
        ensures
            m.inv(),
            forall|i: int| 0 <= i < MEMORY_SIZE ==> m@[i] == 0u8,
    {
        let mut bytes: Vec<u8> = Vec::new();
        while bytes.len() < MEMORY_SIZE
            invariant
                bytes@.len() <= MEMORY_SIZE,
                forall|i: int| 0 <= i < bytes@.len() ==> bytes@[i] == 0u8,
            decreases MEMORY_SIZE - bytes@.len(),
        {
            bytes.push(0);
        }
        Memory { bytes }
    }

    /// Reads the byte at `addr`.
    pub fn read(&self, addr: u16) -> (b: u8)
        requires
            self.inv(),
        ensures
            b == self@[addr as int],
    {
        self.bytes[addr as usize]
    }

    /// Writes `value` at `addr`.
    pub fn write(&mut self, addr: u16, value: u8)
        requires
            old(self).inv(),
        ensures
            final(self).inv(),
            final(self)@ == old(self)@.update(addr as int, value),
    {
        self.bytes[addr as usize] = value;
    }
}

} // verus!
