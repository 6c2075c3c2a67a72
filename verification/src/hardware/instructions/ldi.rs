//! LDI.

use vstd::prelude::*;
use crate::decode::{dest_field, dest_of, lemma_wrap_add, offset9, wrap16};
use crate::hardware::instructions::pc_offset_of;
use crate::hardware::memory::Memory;
use crate::hardware::register::{loaded_into, Register, Registers};

verus! {

/// The registers after LDI: the word at the program counter plus the
/// signed offset is an address, and the destination holds the word at that
/// address; the flag is set from it.
pub open spec fn loaded_indirect(registers: Seq<u16>, memory: Seq<u16>, instr: u16) -> Seq<u16> {
    let pointer = memory[wrap16(registers[8] as int + offset9(instr)) as int];
    loaded_into(registers, dest_field(instr), memory[pointer as int])
}

/// LDI: bits 11 to 9 name the destination, bits 8 to 0 are a signed offset
/// from the program counter. The word found there is the address of the
/// word that goes to the destination; the condition flag is set from it.
pub fn ldi(instr: u16, reg: &mut Registers, mem: &Memory)
    ensures
        final(reg)@ == loaded_indirect(old(reg)@, mem@, instr),
{
    let dr: Register = Register::general(dest_of(instr));
    proof {
        lemma_wrap_add(reg@[8], offset9(instr));
    }
    let pc_offset: u16 = pc_offset_of(instr);
    let address_location: u16 = reg.get(Register::PC).wrapping_add(pc_offset);
    let final_address: u16 = mem.read(address_location);
    let value: u16 = mem.read(final_address);
    reg.set(dr, value);
    reg.update_flags(dr);
}

} // verus!
