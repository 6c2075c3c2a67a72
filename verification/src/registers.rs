//! The register file: eight general registers, the program counter and the
//! condition flag.

use vstd::prelude::*;
use crate::errors::VMError;

verus! {

/// Where the program counter starts: the usual load origin.
pub const PC_START: u16 = 0x3000;

/// The number of general registers, R0 to R7.
pub const NUM_REGISTERS: usize = 8;

/// The sign of the value last written to a register by an instruction that
/// sets the flag. Exactly one of the three holds at any time.
#[derive(Debug, Clone, Copy, PartialEq, Eq, Structural)]
pub enum RegisterFlags {
    /// The value was above zero as a signed number.
    Pos,
    /// The value was zero.
    Zro,
    /// The value had bit 15 set.
    Neg,
}

/// The flag that a value calls for.
pub open spec fn flag_of(value: u16) -> RegisterFlags {
    if value == 0 {
        RegisterFlags::Zro
    } else if value >= 0x8000 {
        RegisterFlags::Neg
    } else {
        RegisterFlags::Pos
    }
}

impl RegisterFlags {
    /// The flag as one bit of a mask: 1 for positive, 2 for zero, 4 for
    /// negative.
    pub fn bits(self) -> (mask: u16)
        ensures
            mask == match self {
                RegisterFlags::Pos => 1u16,
                RegisterFlags::Zro => 2u16,
                RegisterFlags::Neg => 4u16,
            },
    {
        match self {
            RegisterFlags::Pos => 1,
            RegisterFlags::Zro => 2,
            RegisterFlags::Neg => 4,
        }
    }
}

/// What a register file holds.
pub struct RegisterState {
    /// The eight general registers.
    pub regs: Seq<u16>,
    /// The program counter.
    pub pc: u16,
    /// The condition flag.
    pub condition: RegisterFlags,
}

impl RegisterState {
    /// The register file after `value` was written to register `register`.
    /// A number above 7 names no register and changes nothing.
    pub open spec fn with_reg(self, register: int, value: u16) -> RegisterState {
        if 0 <= register < 8 {
            RegisterState { regs: self.regs.update(register, value), ..self }
        } else {
            self
        }
    }

    /// The register file after the flag was set from register `register`.
    /// A number above 7 names no register and changes nothing.
    pub open spec fn with_flag_from(self, register: int) -> RegisterState {
        if 0 <= register < 8 {
            RegisterState { condition: flag_of(self.regs[register]), ..self }
        } else {
            self
        }
    }

    /// The register file with the program counter at `pc`.
    pub open spec fn with_pc(self, pc: u16) -> RegisterState {
        RegisterState { pc, ..self }
    }
}

/// The register file of the machine.
#[derive(Debug)]
pub struct Registers {
    /// R0 to R7.
    pub regs: [u16; NUM_REGISTERS],
    /// The address of the next instruction.
    pub pc: u16,
    /// The sign of the last flagged result.
    pub condition: RegisterFlags,
}

impl View for Registers {
    type V = RegisterState;

    open spec fn view(&self) -> RegisterState {
        RegisterState { regs: self.regs@, pc: self.pc, condition: self.condition }
    }
}

impl Registers {
    /// A register file with every general register at zero, the program
    /// counter at `PC_START` and the flag at zero.
    pub fn new() -> (registers: Registers)
        ensures
            registers@.regs == Seq::new(8, |i: int| 0u16),
            registers@.pc == PC_START,
            registers@.condition == RegisterFlags::Zro,
    {
        let registers = Registers {
            regs: [0; NUM_REGISTERS],
            pc: PC_START,
            condition: RegisterFlags::Zro,
        };
        assert(registers.regs@ =~= Seq::new(8, |i: int| 0u16));
        registers
    }

    /// The value of register `register`, or `InvalidRegister` for a number
    /// above 7.
    pub fn get(&self, register: usize) -> (value: Result<u16, VMError>)
        ensures
            register < 8 ==> value == Ok::<u16, VMError>(self@.regs[register as int]),
            register >= 8 ==> value == Err::<u16, VMError>(VMError::InvalidRegister),
    {
        if register < NUM_REGISTERS {
            Ok(self.regs[register])
        } else {
            Err(VMError::InvalidRegister)
        }
    }

    /// Writes `value` to register `register`. A number above 7 names no
    /// register: the call then changes nothing.
    pub fn set(&mut self, register: usize, value: u16)
        ensures
            final(self)@ == old(self)@.with_reg(register as int, value),
    {
        if register < NUM_REGISTERS {
            self.regs[register] = value;
        }
    }

    /// Sets the condition flag from the value in register `register`: zero
    /// for 0, negative where bit 15 is set, positive otherwise. A number
    /// above 7 names no register: the call then changes nothing.
    pub fn update_flags(&mut self, register: usize)
        ensures
            final(self)@ == old(self)@.with_flag_from(register as int),
    {
        if register < NUM_REGISTERS {
            let reg: u16 = self.regs[register];
            assert((reg >> 15 == 1) <==> reg >= 0x8000) by (bit_vector);
            self.condition = if reg == 0 {
                RegisterFlags::Zro
            } else if reg >> 15 == 1 {
                RegisterFlags::Neg
            } else {
                RegisterFlags::Pos
            };
        }
    }
}

} // verus!
