//! LDR.

use vstd::prelude::*;
use crate::decode::{base_field, base_of, dest_field, dest_of, lemma_wrap_add, offset6, wrap16};
use crate::hardware::instructions::base_offset_of;
use crate::hardware::memory::Memory;
use crate::hardware::register::{loaded_into, Register, Registers};

verus! {

/// The registers after LDR: the destination holds the word at the base
/// register plus the signed offset, modulo 65536, and the flag is set from
/// it.
pub open spec fn loaded_based(registers: Seq<u16>, memory: Seq<u16>, instr: u16) -> Seq<u16> {
    loaded_into(
        registers,
        dest_field(instr),
        memory[wrap16(registers[base_field(instr)] as int + offset6(instr)) as int],
    )
}

/// LDR: bits 11 to 9 name the destination, bits 8 to 6 the base register,
/// bits 5 to 0 are a signed offset. The word at base plus offset goes to
/// the destination, and the condition flag is set from it. The address
/// wraps round the end of memory.
pub fn ldr(instr: u16, reg: &mut Registers, mem: &Memory)
    ensures
        final(reg)@ == loaded_based(old(reg)@, mem@, instr),
{
    let dr: Register = Register::general(dest_of(instr));
    let base_r: Register = Register::general(base_of(instr));
    proof {
        lemma_wrap_add(reg@[base_r.slot()], offset6(instr));
    }
    let offset: u16 = base_offset_of(instr);
    let address: u16 = reg.get(base_r).wrapping_add(offset);
    reg.set(dr, mem.read(address));
    reg.update_flags(dr);
}

} // verus!
