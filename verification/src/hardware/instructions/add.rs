//! ADD.

use vstd::prelude::*;
use crate::decode::{
    add_words, base_field, base_of, dest_field, dest_of, imm5, immediate_mode, is_immediate,
    lemma_wrap_add, src2_field, src2_of, wrap16,
};
use crate::hardware::instructions::immediate_of;
use crate::hardware::register::{loaded_into, Register, Registers};

verus! {

/// The registers after ADD: the destination holds the sum, modulo 65536,
/// of the first source and either the second source or the signed
/// immediate, and the flag is set from the sum.
pub open spec fn added(registers: Seq<u16>, instr: u16) -> Seq<u16> {
    let first = registers[base_field(instr)];
    let sum = if immediate_mode(instr) {
        wrap16(first as int + imm5(instr))
    } else {
        wrap16(first as int + registers[src2_field(instr)] as int)
    };
    loaded_into(registers, dest_field(instr), sum)
}

/// ADD: bits 11 to 9 name the destination and bits 8 to 6 the first
/// source. With bit 5 set, bits 4 to 0 are a signed immediate; with bit 5
/// clear, bits 2 to 0 name the second source. The sum wraps round, and the
/// condition flag is set from it.
pub fn add(instr: u16, reg: &mut Registers)
    ensures
        final(reg)@ == added(old(reg)@, instr),
{
    let dr: Register = Register::general(dest_of(instr));
    let sr1: Register = Register::general(base_of(instr));
    let first: u16 = reg.get(sr1);
    let sum: u16 = if is_immediate(instr) {
        proof {
            lemma_wrap_add(first, imm5(instr));
        }
        let imm5: u16 = immediate_of(instr);
        add_words(first, imm5)
    } else {
        let sr2: Register = Register::general(src2_of(instr));
        add_words(first, reg.get(sr2))
    };
    reg.set(dr, sum);
    reg.update_flags(dr);
}

} // verus!
