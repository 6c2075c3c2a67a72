//! The memory: 65536 words, two of them the keyboard's registers.

use vstd::prelude::*;
use crate::console::{Console, ConsoleState};
use crate::errors::VMError;

verus! {

/// The number of words: one for every 16-bit address.
pub const MEMORY_MAX: usize = 65536;

/// The keyboard status register. Reading it asks the keyboard for a key.
pub const MR_KBSR: u16 = 0xFE00;

/// The keyboard data register: the last key that a poll found.
pub const MR_KBDR: u16 = 0xFE02;

/// The memory after a poll of the keyboard that found `key`.
///
/// A key other than zero sets the top bit of the status register and goes
/// to the data register. Zero stands for no key: it clears the status
/// register.
pub open spec fn polled(mem: Seq<u16>, key: u8) -> Seq<u16> {
    if key != 0 {
        mem.update(MR_KBSR as int, 0x8000u16).update(MR_KBDR as int, key as u16)
    } else {
        mem.update(MR_KBSR as int, 0u16)
    }
}

/// What a read leaves behind and what it returns.
pub struct ReadOutcome {
    /// The memory after the read.
    pub memory: Seq<u16>,
    /// The console after the read.
    pub console: ConsoleState,
    /// The word read; `None` where the keyboard had to be asked and had
    /// nothing to give.
    pub value: Option<u16>,
}

/// A read of `address`.
///
/// Every address but the keyboard status register is a plain load. A read
/// of the status register first takes the oldest input byte from the
/// console and polls the keyboard with it; where no byte waits, the read
/// fails and changes nothing.
pub open spec fn read_outcome(mem: Seq<u16>, console: ConsoleState, address: u16) -> ReadOutcome {
    if address != MR_KBSR {
        ReadOutcome { memory: mem, console, value: Some(mem[address as int]) }
    } else if console.input.len() == 0 {
        ReadOutcome { memory: mem, console, value: None }
    } else {
        let after = polled(mem, console.input[0]);
        ReadOutcome {
            memory: after,
            console: console.advance(),
            value: Some(after[address as int]),
        }
    }
}

/// The machine's memory.
#[derive(Debug)]
pub struct Memory {
    /// The words, by address.
    pub mem: [u16; MEMORY_MAX],
}

impl View for Memory {
    type V = Seq<u16>;

    open spec fn view(&self) -> Seq<u16> {
        self.mem@
    }
}

impl Memory {
    /// A memory with zero in every word.
    pub fn new() -> (memory: Memory)
        ensures
            memory@ == Seq::new(65536, |i: int| 0u16),
    {
        let memory = Memory { mem: [0; MEMORY_MAX] };
        assert(memory.mem@ =~= Seq::new(65536, |i: int| 0u16));
        memory
    }

    /// The word at `address` as it stands, without asking the keyboard.
    pub fn peek(&self, address: u16) -> (value: u16)
        ensures
            value == self@[address as int],
    {
        self.mem[address as usize]
    }

    /// Reads the word at `address`.
    ///
    /// A read of the keyboard status register polls the keyboard first,
    /// with the oldest input byte of `console`; it fails with
    /// `InvalidCharacter` where no byte waits. No other read fails or
    /// changes anything.
    pub fn read(&mut self, address: u16, console: &mut Console) -> (value: Result<u16, VMError>)
        ensures
            final(self)@ == read_outcome(old(self)@, old(console)@, address).memory,
            final(console)@ == read_outcome(old(self)@, old(console)@, address).console,
            match read_outcome(old(self)@, old(console)@, address).value {
                Some(word) => value == Ok::<u16, VMError>(word),
                None => value == Err::<u16, VMError>(VMError::InvalidCharacter),
            },
    {
        if address == MR_KBSR {
            match self.handle_keyboard(console) {
                Ok(()) => {},
                Err(e) => {
                    return Err(e);
                },
            }
        }
        let addr: usize = address as usize;
        Ok(self.mem[addr])
    }

    /// Polls the keyboard with the oldest input byte of `console`.
    ///
    /// Fails with `InvalidCharacter`, and changes nothing, where no byte
    /// waits. Otherwise the byte leaves the console: one other than zero
    /// sets the top bit of the status register and is stored in the data
    /// register, zero clears the status register.
    pub fn handle_keyboard(&mut self, console: &mut Console) -> (done: Result<(), VMError>)
        ensures
            old(console)@.input.len() == 0 ==> done == Err::<(), VMError>(
                VMError::InvalidCharacter,
            ) && final(self)@ == old(self)@ && final(console)@ == old(console)@,
            old(console)@.input.len() > 0 ==> done == Ok::<(), VMError>(()) && final(self)@
                == polled(old(self)@, old(console)@.input[0]) && final(console)@
                == old(console)@.advance(),
    {
        match console.read_byte() {
            None => Err(VMError::InvalidCharacter),
            Some(key) => {
                if key != 0 {
                    self.mem[MR_KBSR as usize] = 1u16 << 15;
                    self.mem[MR_KBDR as usize] = key as u16;
                    assert(1u16 << 15 == 0x8000u16) by (bit_vector);
                } else {
                    self.mem[MR_KBSR as usize] = 0;
                }
                Ok(())
            },
        }
    }

    /// Stores `value` at `address`. Every address is valid, so the store
    /// always succeeds; it has no effect but on that one word.
    pub fn write(&mut self, address: u16, value: u16) -> (done: Result<(), VMError>)
        ensures
            done == Ok::<(), VMError>(()),
            final(self)@ == old(self)@.update(address as int, value),
    {
        let addr: usize = address as usize;
        self.mem[addr] = value;
        Ok(())
    }
}

} // verus!
