//! STI.

use vstd::prelude::*;
use crate::decode::{dest_field, dest_of, lemma_wrap_add, offset9, wrap16};
use crate::hardware::instructions::pc_offset_of;
use crate::hardware::memory::Memory;
use crate::hardware::register::{Register, Registers};

verus! {

/// The memory after STI: the word at the program counter plus the signed
/// offset is an address, and the word at that address holds the source
/// register.
pub open spec fn stored_indirect(registers: Seq<u16>, memory: Seq<u16>, inst: u16) -> Seq<u16> {
    let pointer = memory[wrap16(registers[8] as int + offset9(inst)) as int];
    memory.update(pointer as int, registers[dest_field(inst)])
}

/// STI: bits 11 to 9 name the source, bits 8 to 0 are a signed offset from
/// the program counter. The word found there is the address that the
/// source goes to; no register changes.
pub fn sti(inst: u16, reg: &Registers, mem: &mut Memory)
    ensures
        final(mem)@ == stored_indirect(reg@, old(mem)@, inst),
{
    let sr: Register = Register::general(dest_of(inst));
    proof {
        lemma_wrap_add(reg@[8], offset9(inst));
    }
    let pc_offset: u16 = pc_offset_of(inst);
    let pc: u16 = reg.get(Register::PC);
    let initial_address: u16 = pc.wrapping_add(pc_offset);
    let address: u16 = mem.read(initial_address);
    mem.write(address, reg.get(sr));
}

} // verus!
