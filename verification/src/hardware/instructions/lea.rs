//! LEA.

use vstd::prelude::*;
use crate::decode::{dest_field, dest_of, lemma_wrap_add, offset9, wrap16};
use crate::hardware::instructions::pc_offset_of;
use crate::hardware::register::{loaded_into, Register, Registers};

verus! {

/// The registers after LEA: the destination holds the program counter
/// plus the signed offset, and the flag is set from it.
pub open spec fn loaded_address(registers: Seq<u16>, instr: u16) -> Seq<u16> {
    loaded_into(registers, dest_field(instr), wrap16(registers[8] as int + offset9(instr)))
}

/// LEA: bits 11 to 9 name the destination, bits 8 to 0 are a signed offset
/// from the program counter. The address itself goes to the destination,
/// and the condition flag is set from it.
pub fn lea(instr: u16, reg: &mut Registers)
    ensures
        final(reg)@ == loaded_address(old(reg)@, instr),
{
    let dr: Register = Register::general(dest_of(instr));
    proof {
        lemma_wrap_add(reg@[8], offset9(instr));
    }
    let pc_offset: u16 = pc_offset_of(instr);
    let pc: u16 = reg.get(Register::PC);
    let addr: u16 = pc.wrapping_add(pc_offset);
    reg.set(dr, addr);
    reg.update_flags(dr);
}

} // verus!
