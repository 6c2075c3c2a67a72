//! The sixteen opcodes and what each does to the machine.

use vstd::prelude::*;
use crate::decode::{
    add_words, base_of, dest_of, flag_bit, imm5, imm5_of, is_immediate, lemma_wrap_add, offset11,
    offset11_of, offset6, offset6_of, offset9, offset9_of, src2_of, trap_vector_of, wrap16,
};
use crate::errors::{agrees, input_ended, TrapError, VMError};
use crate::machine::{
    cell_text, cells_before_keyboard, halt_text, prompt_text, VMState, TRAP_GETC, TRAP_HALT,
    TRAP_IN, TRAP_OUT, TRAP_PUTS, TRAP_PUTSP,
};
use crate::registers::RegisterFlags;
use crate::vm::VM;

verus! {

/// The operation that the top four bits of an instruction select.
#[derive(Debug, Clone, Copy, PartialEq, Eq, Structural)]
pub enum Opcode {
    /// Conditional branch.
    Br,
    /// Addition.
    Add,
    /// Load, relative to the program counter.
    Ld,
    /// Store, relative to the program counter.
    St,
    /// Jump to a subroutine.
    Jsr,
    /// Bitwise and.
    And,
    /// Load, relative to a base register.
    Ldr,
    /// Store, relative to a base register.
    Str,
    /// Return from interrupt; not supported.
    Rti,
    /// Bitwise complement.
    Not,
    /// Load through a pointer.
    Ldi,
    /// Store through a pointer.
    Sti,
    /// Jump.
    Jmp,
    /// Reserved.
    Res,
    /// Load an address.
    Lea,
    /// Call a trap routine.
    Trap,
}

/// The opcode with number `op`; a number above 15 gives the reserved opcode.
pub open spec fn opcode_numbered(op: int) -> Opcode {
    if op == 0 {
        Opcode::Br
    } else if op == 1 {
        Opcode::Add
    } else if op == 2 {
        Opcode::Ld
    } else if op == 3 {
        Opcode::St
    } else if op == 4 {
        Opcode::Jsr
    } else if op == 5 {
        Opcode::And
    } else if op == 6 {
        Opcode::Ldr
    } else if op == 7 {
        Opcode::Str
    } else if op == 8 {
        Opcode::Rti
    } else if op == 9 {
        Opcode::Not
    } else if op == 10 {
        Opcode::Ldi
    } else if op == 11 {
        Opcode::Sti
    } else if op == 12 {
        Opcode::Jmp
    } else if op == 14 {
        Opcode::Lea
    } else if op == 15 {
        Opcode::Trap
    } else {
        Opcode::Res
    }
}

impl From<u16> for Opcode {
    /// The opcode with number `op`. Every number gives an opcode: those
    /// above 15 give the reserved one.
    fn from(op: u16) -> (opcode: Opcode) {
        match op {
            0 => Opcode::Br,
            1 => Opcode::Add,
            2 => Opcode::Ld,
            3 => Opcode::St,
            4 => Opcode::Jsr,
            5 => Opcode::And,
            6 => Opcode::Ldr,
            7 => Opcode::Str,
            8 => Opcode::Rti,
            9 => Opcode::Not,
            10 => Opcode::Ldi,
            11 => Opcode::Sti,
            12 => Opcode::Jmp,
            13 => Opcode::Res,
            14 => Opcode::Lea,
            15 => Opcode::Trap,
            _ => Opcode::Res,
        }
    }
}

impl vstd::std_specs::convert::FromSpecImpl<u16> for Opcode {
    open spec fn obeys_from_spec() -> bool {
        true
    }

    open spec fn from_spec(op: u16) -> Opcode {
        opcode_numbered(op as int)
    }
}

/// The byte that a value stands for on the console; `InvalidCharacter`
/// for a value above 255, which is no byte.
pub fn output_byte(value: u16) -> (byte: Result<u8, VMError>)
    ensures
        value <= 0xFF ==> byte == Ok::<u8, VMError>(value as u8),
        value > 0xFF ==> byte == Err::<u8, VMError>(VMError::InvalidCharacter),
{
    if value <= 0xFF {
        Ok(value as u8)
    } else {
        Err(VMError::InvalidCharacter)
    }
}

/// The prompt of the IN trap.
pub fn prompt() -> (text: Vec<u8>)
    ensures
        text@ == prompt_text(),
{
    let text: Vec<u8> = vec![
        0x45u8, 0x6Eu8, 0x74u8, 0x65u8, 0x72u8, 0x20u8, 0x61u8, 0x20u8, 0x63u8, 0x68u8, 0x61u8,
        0x72u8, 0x61u8, 0x63u8, 0x74u8, 0x65u8, 0x72u8, 0x3Au8, 0x20u8,
    ];
    assert(text@ =~= prompt_text());
    text
}

/// The message of the HALT trap.
fn halt_message() -> (text: Vec<u8>)
    ensures
        text@ == halt_text(),
{
    let text: Vec<u8> = vec![0x48u8, 0x41u8, 0x4Cu8, 0x54u8, 0x0Au8];
    assert(text@ =~= halt_text());
    text
}

/// Takes the oldest input byte into R0 and sets the flag from it; with
/// `echo`, writes the byte and a line feed back first. Fails with an
/// `IOError`, and changes nothing, where no input byte waits.
pub fn read_character(vm: &mut VM, echo: bool) -> (done: Result<(), VMError>)
    ensures
        agrees(done, old(vm)@.take_character(echo).fault),
        final(vm)@ == old(vm)@.take_character(echo).machine,
{
    match vm.console.read_byte() {
        None => Err(input_ended()),
        Some(c) => {
            if echo {
                let ghost before = vm.console@.output;
                vm.console.write_byte(c);
                vm.console.write_byte(0x0A);
                assert(vm.console@.output =~= before + seq![c, 0x0Au8]);
            }
            vm.registers.set(0, c as u16);
            vm.update_flags(0);
            Ok(())
        },
    }
}

/// Writes the string that starts at the address in R0 to the console: one
/// byte for each cell, or, for a packed string, the low byte and then the
/// high byte unless it is zero; the first cell that holds zero ends it.
///
/// The cells are read as `VM::read_memory` reads them. Fails with
/// `InvalidCharacter` where the string runs over the keyboard status
/// register and no input byte waits; what was written until then stays.
pub fn write_string(vm: &mut VM, packed: bool) -> (done: Result<(), VMError>)
    ensures
        agrees(done, old(vm)@.write_string(old(vm)@.reg(0), packed).fault),
        final(vm)@ == old(vm)@.write_string(old(vm)@.reg(0), packed).machine,
{
    let mut address: u16 = vm.read_register(0)?;
    loop
        invariant
            vm@.write_string(address, packed) == old(vm)@.write_string(old(vm)@.reg(0), packed),
        decreases vm@.console.input.len(), cells_before_keyboard(address),
    {
        let value: u16 = vm.read_memory(address)?;
        if value == 0 {
            return Ok(());
        }
        assert(value & 0xFF == value % 256 && value >> 8 == value / 256) by (bit_vector);
        let ghost before = vm.console@.output;
        let low: u8 = output_byte(value & 0xFF)?;
        vm.console.write_byte(low);
        if packed {
            let high: u8 = output_byte(value >> 8)?;
            if high != 0 {
                vm.console.write_byte(high);
            }
        }
        assert(vm.console@.output =~= before + cell_text(value, packed));
        address = address.wrapping_add(1);
    }
}

/// TRAP: saves the program counter in R7 and runs the routine that the
/// low byte of the instruction names.
///
/// - `0x20` GETC takes one input byte into R0 and sets the flag.
/// - `0x21` OUT writes the low byte of R0.
/// - `0x22` PUTS writes the string at the address in R0, one byte a cell.
/// - `0x23` IN writes a prompt, unless it was written ahead, takes one
///   input byte into R0, writes it back with a line feed and sets the
///   flag.
/// - `0x24` PUTSP writes the packed string at the address in R0.
/// - `0x25` HALT writes `HALT` and halts the machine.
///
/// GETC and IN fail with an `IOError` where no input byte waits, PUTS and
/// PUTSP with `InvalidCharacter` where the string polls the keyboard in
/// vain, and every other vector with `InvalidTrapVector`.
pub fn trap(vm: &mut VM, instruction: u16) -> (done: Result<(), VMError>)
    ensures
        agrees(done, old(vm)@.trap(instruction).fault),
        final(vm)@ == old(vm)@.trap(instruction).machine,
{
    let return_to: u16 = vm.registers.pc;
    vm.write_register(7, return_to);
    let trap_vector: u16 = trap_vector_of(instruction);
    if trap_vector == TRAP_GETC {
        read_character(vm, false)
    } else if trap_vector == TRAP_OUT {
        let r0: u16 = vm.read_register(0)?;
        assert(r0 & 0xFF == r0 % 256) by (bit_vector);
        let ghost before = vm.console@.output;
        let char_code: u8 = output_byte(r0 & 0xFF)?;
        vm.console.write_byte(char_code);
        assert(vm.console@.output =~= before + seq![char_code]);
        Ok(())
    } else if trap_vector == TRAP_PUTS {
        write_string(vm, false)
    } else if trap_vector == TRAP_IN {
        if !vm.prompted {
            let text: Vec<u8> = prompt();
            vm.console.write_all(&text);
        }
        vm.prompted = false;
        read_character(vm, true)
    } else if trap_vector == TRAP_PUTSP {
        write_string(vm, true)
    } else if trap_vector == TRAP_HALT {
        let text: Vec<u8> = halt_message();
        vm.console.write_all(&text);
        vm.state = VMState::Halted;
        Ok(())
    } else {
        Err(VMError::TrapError(TrapError::InvalidTrapVector(trap_vector)))
    }
}

/// ADD: adds to the first source register either the second source
/// register or the sign-extended immediate, modulo 65536, writes the sum to
/// the destination register and sets the flag from it. Never fails.
pub fn add(vm: &mut VM, instruction: u16) -> (done: Result<(), VMError>)
    ensures
        done is Ok,
        final(vm)@ == old(vm)@.add(instruction),
{
    let dr: usize = dest_of(instruction);
    let sr1: usize = base_of(instruction);
    let first: u16 = vm.read_register(sr1)?;
    let value: u16 = if is_immediate(instruction) {
        let imm: u16 = imm5_of(instruction);
        proof {
            lemma_wrap_add(first, imm5(instruction));
        }
        add_words(first, imm)
    } else {
        let sr2: usize = src2_of(instruction);
        let second: u16 = vm.read_register(sr2)?;
        add_words(first, second)
    };
    vm.registers.set(dr, value);
    vm.update_flags(dr);
    Ok(())
}

/// LDI: reads the word at the program counter plus the offset, reads the
/// word at the address found there, writes it to the destination register
/// and sets the flag from it. Fails with `InvalidCharacter` where one of
/// the two reads polls the keyboard and no input byte waits.
pub fn ldi(vm: &mut VM, instruction: u16) -> (done: Result<(), VMError>)
    ensures
        agrees(done, old(vm)@.ldi(instruction).fault),
        final(vm)@ == old(vm)@.ldi(instruction).machine,
{
    let dr: usize = dest_of(instruction);
    let pc_offset: u16 = offset9_of(instruction);
    proof {
        lemma_wrap_add(vm.registers.pc, offset9(instruction));
    }
    let pointer_addr: u16 = add_words(vm.registers.pc, pc_offset);
    let target_addr: u16 = vm.read_memory(pointer_addr)?;
    let value: u16 = vm.read_memory(target_addr)?;
    vm.registers.set(dr, value);
    vm.update_flags(dr);
    Ok(())
}

/// AND: as `add`, with the bitwise and of the two operands. Never fails.
pub fn and(vm: &mut VM, instruction: u16) -> (done: Result<(), VMError>)
    ensures
        done is Ok,
        final(vm)@ == old(vm)@.and(instruction),
{
    let dr: usize = dest_of(instruction);
    let sr1: usize = base_of(instruction);
    let first: u16 = vm.read_register(sr1)?;
    let value: u16 = if is_immediate(instruction) {
        first & imm5_of(instruction)
    } else {
        let sr2: usize = src2_of(instruction);
        first & vm.read_register(sr2)?
    };
    vm.registers.set(dr, value);
    vm.update_flags(dr);
    Ok(())
}

/// BR: moves the program counter by the offset where the instruction
/// names the current flag among its conditions (bit 11 negative, bit 10
/// zero, bit 9 positive), and changes nothing otherwise. Never fails.
pub fn conditional_branch(vm: &mut VM, instruction: u16) -> (done: Result<(), VMError>)
    ensures
        done is Ok,
        final(vm)@ == old(vm)@.branch(instruction),
{
    let n: bool = flag_bit(instruction, 11);
    let z: bool = flag_bit(instruction, 10);
    let p: bool = flag_bit(instruction, 9);
    let pc_offset: u16 = offset9_of(instruction);
    let condition: RegisterFlags = vm.registers.condition;
    if (n && condition == RegisterFlags::Neg) || (z && condition == RegisterFlags::Zro) || (p
        && condition == RegisterFlags::Pos) {
        proof {
            lemma_wrap_add(vm.registers.pc, offset9(instruction));
        }
        vm.registers.pc = add_words(vm.registers.pc, pc_offset);
    }
    Ok(())
}

/// JMP: the program counter gets the base register; with R7 as the base
/// this is the return from a subroutine. Never fails.
pub fn jmp(vm: &mut VM, instruction: u16) -> (done: Result<(), VMError>)
    ensures
        done is Ok,
        final(vm)@ == old(vm)@.jmp(instruction),
{
    let base_r: usize = base_of(instruction);
    vm.registers.pc = vm.read_register(base_r)?;
    Ok(())
}

/// JSR and JSRR: saves the program counter in R7, then moves the program
/// counter by the offset where bit 11 is set, and to the base register
/// where it is clear. Never fails.
pub fn jump_subroutine(vm: &mut VM, instruction: u16) -> (done: Result<(), VMError>)
    ensures
        done is Ok,
        final(vm)@ == old(vm)@.jump_subroutine(instruction),
{
    let long_flag: bool = flag_bit(instruction, 11);
    let return_to: u16 = vm.registers.pc;
    vm.registers.set(7, return_to);
    if !long_flag {
        let base_r: usize = base_of(instruction);
        vm.registers.pc = vm.read_register(base_r)?;
    } else {
        let pc_offset: u16 = offset11_of(instruction);
        proof {
            lemma_wrap_add(vm.registers.pc, offset11(instruction));
        }
        vm.registers.pc = add_words(vm.registers.pc, pc_offset);
    }
    Ok(())
}

/// LD: reads the word at the program counter plus the offset, writes it to
/// the destination register and sets the flag from it. Fails with
/// `InvalidCharacter` where the read polls the keyboard and no input byte
/// waits.
pub fn load(vm: &mut VM, instruction: u16) -> (done: Result<(), VMError>)
    ensures
        agrees(done, old(vm)@.load(instruction).fault),
        final(vm)@ == old(vm)@.load(instruction).machine,
{
    let dr: usize = dest_of(instruction);
    let pc_offset: u16 = offset9_of(instruction);
    proof {
        lemma_wrap_add(vm.registers.pc, offset9(instruction));
    }
    let address: u16 = add_words(vm.registers.pc, pc_offset);
    let value: u16 = vm.read_memory(address)?;
    vm.registers.set(dr, value);
    vm.update_flags(dr);
    Ok(())
}

/// LDR: reads the word at the base register plus the offset, writes it to
/// the destination register and sets the flag from it. Fails with
/// `InvalidCharacter` where the read polls the keyboard and no input byte
/// waits.
pub fn load_register(vm: &mut VM, instruction: u16) -> (done: Result<(), VMError>)
    ensures
        agrees(done, old(vm)@.load_register(instruction).fault),
        final(vm)@ == old(vm)@.load_register(instruction).machine,
{
    let dr: usize = dest_of(instruction);
    let base_r: usize = base_of(instruction);
    let offset: u16 = offset6_of(instruction);
    let base: u16 = vm.read_register(base_r)?;
    proof {
        lemma_wrap_add(base, offset6(instruction));
    }
    let address: u16 = add_words(base, offset);
    let value: u16 = vm.read_memory(address)?;
    vm.registers.set(dr, value);
    vm.update_flags(dr);
    Ok(())
}

/// LEA: writes the program counter plus the offset to the destination
/// register and sets the flag from it. Never fails.
pub fn load_effective_address(vm: &mut VM, instruction: u16) -> (done: Result<(), VMError>)
    ensures
        done is Ok,
        final(vm)@ == old(vm)@.load_effective_address(instruction),
{
    let dr: usize = dest_of(instruction);
    let pc_offset: u16 = offset9_of(instruction);
    proof {
        lemma_wrap_add(vm.registers.pc, offset9(instruction));
    }
    let address: u16 = add_words(vm.registers.pc, pc_offset);
    vm.registers.set(dr, address);
    vm.update_flags(dr);
    Ok(())
}

/// NOT: writes the bitwise complement of the source register to the
/// destination register and sets the flag from it. Never fails.
pub fn not(vm: &mut VM, instruction: u16) -> (done: Result<(), VMError>)
    ensures
        done is Ok,
        final(vm)@ == old(vm)@.not(instruction),
{
    let dr: usize = dest_of(instruction);
    let sr: usize = base_of(instruction);
    let value: u16 = !vm.read_register(sr)?;
    vm.registers.set(dr, value);
    vm.update_flags(dr);
    Ok(())
}

/// ST: stores the source register at the program counter plus the offset.
/// The flag stays. Never fails.
pub fn store(vm: &mut VM, instruction: u16) -> (done: Result<(), VMError>)
    ensures
        done is Ok,
        final(vm)@ == old(vm)@.st(instruction),
{
    let sr: usize = dest_of(instruction);
    let pc_offset: u16 = offset9_of(instruction);
    proof {
        lemma_wrap_add(vm.registers.pc, offset9(instruction));
    }
    let address: u16 = add_words(vm.registers.pc, pc_offset);
    let value: u16 = vm.read_register(sr)?;
    vm.write_memory(address, value)?;
    Ok(())
}

/// STI: reads the word at the program counter plus the offset and stores
/// the source register at the address found there. The flag stays. Fails
/// with `InvalidCharacter` where the read polls the keyboard and no input
/// byte waits.
pub fn store_indirect(vm: &mut VM, instruction: u16) -> (done: Result<(), VMError>)
    ensures
        agrees(done, old(vm)@.store_indirect(instruction).fault),
        final(vm)@ == old(vm)@.store_indirect(instruction).machine,
{
    let sr: usize = dest_of(instruction);
    let pc_offset: u16 = offset9_of(instruction);
    proof {
        lemma_wrap_add(vm.registers.pc, offset9(instruction));
    }
    let address: u16 = add_words(vm.registers.pc, pc_offset);
    let target_address: u16 = vm.read_memory(address)?;
    let value: u16 = vm.read_register(sr)?;
    vm.write_memory(target_address, value)?;
    Ok(())
}

/// STR: stores the source register at the base register plus the offset.
/// The flag stays. Never fails.
pub fn store_register(vm: &mut VM, instruction: u16) -> (done: Result<(), VMError>)
    ensures
        done is Ok,
        final(vm)@ == old(vm)@.store_register(instruction),
{
    let sr: usize = dest_of(instruction);
    let base_r: usize = base_of(instruction);
    let offset: u16 = offset6_of(instruction);
    let base: u16 = vm.read_register(base_r)?;
    proof {
        lemma_wrap_add(base, offset6(instruction));
    }
    let address: u16 = add_words(base, offset);
    let value: u16 = vm.read_register(sr)?;
    vm.write_memory(address, value)?;
    Ok(())
}

} // verus!
