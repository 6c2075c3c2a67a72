//! Ten registers in one array: R0 to R7, the program counter and the
//! condition flag.

use vstd::prelude::*;
use crate::errors::VMError;

verus! {

/// Where the program counter starts.
pub const PC_START: u16 = 0x3000;

/// The number of slots in the register array.
pub const REGISTER_COUNT: usize = 10;

/// The names of the registers. `Count` names none: it is the number of
/// the others.
#[derive(Debug, Copy, Clone, PartialEq, Eq, Structural)]
pub enum Register {
    /// General register 0.
    R0,
    /// General register 1.
    R1,
    /// General register 2.
    R2,
    /// General register 3.
    R3,
    /// General register 4.
    R4,
    /// General register 5.
    R5,
    /// General register 6.
    R6,
    /// General register 7.
    R7,
    /// The program counter.
    PC,
    /// The condition flag, held as a mask.
    Cond,
    /// The number of registers; no register itself.
    Count,
}

/// The condition flags, which tell the sign of the last result.
#[derive(Debug, Copy, Clone, PartialEq, Eq, Structural)]
pub enum ConditionFlag {
    /// The last result was above zero.
    Positive,
    /// The last result was zero.
    Zero,
    /// The last result had bit 15 set.
    Negative,
}

/// The flag that a value calls for: zero for 0, negative where bit 15 is
/// set, positive otherwise.
pub open spec fn flag_for(value: u16) -> ConditionFlag {
    if value == 0 {
        ConditionFlag::Zero
    } else if value >= 0x8000 {
        ConditionFlag::Negative
    } else {
        ConditionFlag::Positive
    }
}

/// The register with number `value`, for the numbers 0 to 9.
pub open spec fn register_numbered(value: int) -> Option<Register> {
    if value == 0 {
        Some(Register::R0)
    } else if value == 1 {
        Some(Register::R1)
    } else if value == 2 {
        Some(Register::R2)
    } else if value == 3 {
        Some(Register::R3)
    } else if value == 4 {
        Some(Register::R4)
    } else if value == 5 {
        Some(Register::R5)
    } else if value == 6 {
        Some(Register::R6)
    } else if value == 7 {
        Some(Register::R7)
    } else if value == 8 {
        Some(Register::PC)
    } else if value == 9 {
        Some(Register::Cond)
    } else {
        None
    }
}

/// The registers after `value` was written to register `r` and the flag
/// was set from it.
pub open spec fn loaded_into(registers: Seq<u16>, r: int, value: u16) -> Seq<u16> {
    registers.update(r, value).update(9, flag_for(value).mask())
}

impl ConditionFlag {
    /// The flag as one bit of a mask: 1 for positive, 2 for zero, 4 for
    /// negative.
    pub open spec fn mask(self) -> u16 {
        match self {
            ConditionFlag::Positive => 1u16,
            ConditionFlag::Zero => 2u16,
            ConditionFlag::Negative => 4u16,
        }
    }

    /// The flag as one bit of a mask.
    pub fn bits(self) -> (mask: u16)
        ensures
            mask == self.mask(),
    {
        match self {
            ConditionFlag::Positive => 1,
            ConditionFlag::Zero => 2,
            ConditionFlag::Negative => 4,
        }
    }
}

impl Register {
    /// The place of the register in the array; 10 for `Count`.
    pub open spec fn slot(self) -> int {
        match self {
            Register::R0 => 0,
            Register::R1 => 1,
            Register::R2 => 2,
            Register::R3 => 3,
            Register::R4 => 4,
            Register::R5 => 5,
            Register::R6 => 6,
            Register::R7 => 7,
            Register::PC => 8,
            Register::Cond => 9,
            Register::Count => 10,
        }
    }

    /// The place of the register in the array; 10 for `Count`.
    pub fn index(self) -> (slot: usize)
        ensures
            slot == self.slot(),
    {
        match self {
            Register::R0 => 0,
            Register::R1 => 1,
            Register::R2 => 2,
            Register::R3 => 3,
            Register::R4 => 4,
            Register::R5 => 5,
            Register::R6 => 6,
            Register::R7 => 7,
            Register::PC => 8,
            Register::Cond => 9,
            Register::Count => 10,
        }
    }

    /// The register with number `value`: 0 to 7 the general registers, 8
    /// the program counter, 9 the condition flag. Any other number names
    /// no register and gives `InvalidRegister`.
    pub fn from(value: u16) -> (register: Result<Register, VMError>)
        ensures
            match register_numbered(value as int) {
                Some(r) => register == Ok::<Register, VMError>(r) && r.slot() == value,
                None => register == Err::<Register, VMError>(VMError::InvalidRegister),
            },
    {
        match value {
            0 => Ok(Register::R0),
            1 => Ok(Register::R1),
            2 => Ok(Register::R2),
            3 => Ok(Register::R3),
            4 => Ok(Register::R4),
            5 => Ok(Register::R5),
            6 => Ok(Register::R6),
            7 => Ok(Register::R7),
            8 => Ok(Register::PC),
            9 => Ok(Register::Cond),
            _ => Err(VMError::InvalidRegister),
        }
    }

    /// The general register with number `field`, a register field of an
    /// instruction.
    pub fn general(field: usize) -> (register: Register)
        requires
            field < 8,
        ensures
            register.slot() == field,
    {
        Register::from(field as u16).unwrap()
    }
}

/// The ten registers.
pub struct Registers {
    /// The registers, each at the place that `Register::index` gives.
    pub registers: [u16; REGISTER_COUNT],
}

impl View for Registers {
    type V = Seq<u16>;

    open spec fn view(&self) -> Seq<u16> {
        self.registers@
    }
}

impl Registers {
    /// Registers with the program counter at `PC_START`, the positive
    /// flag, and zero everywhere else.
    pub fn new() -> (registers: Registers)
        ensures
            registers@ == Seq::new(10, |i: int| 0u16).update(8, PC_START).update(9, 1u16),
    {
        let mut registers: [u16; REGISTER_COUNT] = [0; REGISTER_COUNT];
        registers[Register::PC.index()] = PC_START;
        registers[Register::Cond.index()] = ConditionFlag::Positive.bits();
        assert(registers@ =~= Seq::new(10, |i: int| 0u16).update(8, PC_START).update(9, 1u16));
        Registers { registers }
    }

    /// The value of register `r`.
    pub fn get(&self, r: Register) -> (value: u16)
        requires
            r != Register::Count,
        ensures
            value == self@[r.slot()],
    {
        self.registers[r.index()]
    }

    /// Writes `val` to register `r` and touches no other.
    pub fn set(&mut self, r: Register, val: u16)
        requires
            r != Register::Count,
        ensures
            final(self)@ == old(self)@.update(r.slot(), val),
    {
        self.registers[r.index()] = val;
    }

    /// Sets the condition flag from the value of register `r`: zero for
    /// 0, negative where bit 15 is set, positive otherwise.
    pub fn update_flags(&mut self, r: Register)
        requires
            r != Register::Count,
        ensures
            final(self)@ == old(self)@.update(9, flag_for(old(self)@[r.slot()]).mask()),
    {
        let updated_flag: u16 = self.get(r);
        assert((updated_flag >> 15 == 1) <==> updated_flag >= 0x8000) by (bit_vector);
        let flag: ConditionFlag = if updated_flag == 0 {
            ConditionFlag::Zero
        } else if (updated_flag >> 15) == 1 {
            ConditionFlag::Negative
        } else {
            ConditionFlag::Positive
        };
        self.set(Register::Cond, flag.bits());
    }

    /// The condition flag as a mask: 1, 2 or 4.
    pub fn get_flag(&self) -> (flag: u16)
        ensures
            flag == self@[9],
    {
        self.registers[Register::Cond.index()]
    }
}

} // verus!
