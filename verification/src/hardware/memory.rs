//! A plain memory of 65536 words.

use vstd::prelude::*;

verus! {

/// The number of words: one for every 16-bit address.
pub const MEMORY_SIZE: usize = 65536;

/// A memory without devices: every read is a load, every write a store.
pub struct Memory {
    /// The words, by address.
    pub data: [u16; MEMORY_SIZE],
}

impl View for Memory {
    type V = Seq<u16>;

    open spec fn view(&self) -> Seq<u16> {
        self.data@
    }
}

impl Memory {
    /// A memory with zero in every word.
    pub fn new() -> (memory: Memory)
        ensures
            memory@ == Seq::new(65536, |i: int| 0u16),
    {
        let memory = Memory { data: [0; MEMORY_SIZE] };
        assert(memory.data@ =~= Seq::new(65536, |i: int| 0u16));
        memory
    }

    /// The word at `address`.
    pub fn read(&self, address: u16) -> (value: u16)
        ensures
            value == self@[address as int],
    {
        self.data[address as usize]
    }

    /// Stores `value` at `address` and touches no other word.
    pub fn write(&mut self, address: u16, value: u16)
        ensures
            final(self)@ == old(self)@.update(address as int, value),
    {
        self.data[address as usize] = value;
    }
}

} // verus!
