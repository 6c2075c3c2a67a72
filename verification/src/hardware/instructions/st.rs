//! ST.

use vstd::prelude::*;
use crate::decode::{dest_field, dest_of, lemma_wrap_add, offset9, wrap16};
use crate::hardware::instructions::pc_offset_of;
use crate::hardware::memory::Memory;
use crate::hardware::register::{Register, Registers};

verus! {

/// The memory after ST: the word at the program counter plus the signed
/// offset holds the source register.
pub open spec fn stored_relative(registers: Seq<u16>, memory: Seq<u16>, inst: u16) -> Seq<u16> {
    memory.update(
        wrap16(registers[8] as int + offset9(inst)) as int,
        registers[dest_field(inst)],
    )
}

/// ST: bits 11 to 9 name the source, bits 8 to 0 are a signed offset from
/// the program counter. The source goes to the word found there; no
/// register changes.
pub fn st(inst: u16, reg: &Registers, mem: &mut Memory)
    ensures
        final(mem)@ == stored_relative(reg@, old(mem)@, inst),
{
    let sr: Register = Register::general(dest_of(inst));
    proof {
        lemma_wrap_add(reg@[8], offset9(inst));
    }
    let pc_offset: u16 = pc_offset_of(inst);
    let pc: u16 = reg.get(Register::PC);
    let address: u16 = pc.wrapping_add(pc_offset);
    mem.write(address, reg.get(sr));
}

} // verus!
