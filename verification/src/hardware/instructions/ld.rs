//! LD.

use vstd::prelude::*;
use crate::decode::{dest_field, dest_of, lemma_wrap_add, offset9, wrap16};
use crate::hardware::instructions::pc_offset_of;
use crate::hardware::memory::Memory;
use crate::hardware::register::{loaded_into, Register, Registers};

verus! {

/// The registers after LD: the destination holds the word at the program
/// counter plus the signed offset, and the flag is set from it.
pub open spec fn loaded_relative(registers: Seq<u16>, memory: Seq<u16>, instr: u16) -> Seq<u16> {
    loaded_into(
        registers,
        dest_field(instr),
        memory[wrap16(registers[8] as int + offset9(instr)) as int],
    )
}

/// LD: bits 11 to 9 name the destination, bits 8 to 0 are a signed offset
/// from the program counter. The word found there goes to the destination,
/// and the condition flag is set from it.
pub fn ld(instr: u16, reg: &mut Registers, mem: &Memory)
    ensures
        final(reg)@ == loaded_relative(old(reg)@, mem@, instr),
{
    let dr: Register = Register::general(dest_of(instr));
    proof {
        lemma_wrap_add(reg@[8], offset9(instr));
    }
    let pc_offset: u16 = pc_offset_of(instr);
    let pc: u16 = reg.get(Register::PC);
    reg.set(dr, mem.read(pc.wrapping_add(pc_offset)));
    reg.update_flags(dr);
}

} // verus!
