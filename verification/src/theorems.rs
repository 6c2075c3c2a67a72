//! What holds of the machine on every input, proved from the definitions
//! that the executable code is verified against.

use vstd::prelude::*;
use vstd::arithmetic::power2::{lemma2_to64, pow2};
use crate::decode::{
    base_field, dest_field, imm5, immediate_mode, lemma_sign_extend_bits, lemma_wrap_add, bit10,
    bit11, bit9, offset6, offset9, sign_extended, signed_field, src2_field, trap_vector, wrap16,
};
use crate::decode::opcode_field;
use crate::machine::{
    cell_text, cells_before_keyboard, prompt_text, string_cell, string_meets_keyboard, Fault, Machine, VMState, TRAP_GETC,
    TRAP_HALT, TRAP_IN, TRAP_PUTS, TRAP_PUTSP,
};
use crate::memory::MR_KBSR;
use crate::opdcodes::{opcode_numbered, Opcode};
use crate::registers::flag_of;
use crate::vm::{image_well_formed, image_word, loaded, word_address};

verus! {

/// A word read as a signed number: the words from 0x8000 on stand for the
/// negative numbers.
pub open spec fn signed_word(word: u16) -> int {
    if word >= 0x8000 {
        word as int - 0x1_0000
    } else {
        word as int
    }
}

impl Machine {
    /// A machine of the right shape: 65536 words and eight registers.
    pub open spec fn well_formed(self) -> bool {
        self.memory.len() == 65536 && self.registers.regs.len() == 8
    }
}

/// Sign extension keeps the value. A field of `bits` bits that is
/// sign-extended to a word and then read as a signed word gives the number
/// that the field stands for in two's complement, which lies between
/// minus and plus two to the power `bits - 1`.
pub proof fn theorem_sign_extend_keeps_value(field: u16, bits: u16)
    requires
        1 <= bits < 16,
        field < pow2(bits as nat),
    ensures
        signed_word(sign_extended(field, bits as nat)) == signed_field(field as int, bits as nat),
        -pow2((bits - 1) as nat) <= signed_field(field as int, bits as nat) < pow2(
            (bits - 1) as nat,
        ),
        signed_field(field as int, bits as nat) == if field >= pow2((bits - 1) as nat) {
            field - pow2(bits as nat)
        } else {
            field as int
        },
{
    lemma_sign_extend_bits(field, bits);
    lemma_sign_extend_bits(field, bits);
    vstd::arithmetic::div_mod::lemma_small_mod(field as nat, pow2(bits as nat));
    vstd::arithmetic::power2::lemma_pow2_unfold(bits as nat);
}

/// The same for the five bits of an immediate: the patterns below 16 stand
/// for themselves, those from 16 on for the pattern minus 32.
pub proof fn theorem_sign_extend_five_bits(field: u16)
    requires
        field < 32,
    ensures
        signed_word(sign_extended(field, 5)) == if field >= 16 {
            field - 32
        } else {
            field as int
        },
        field >= 16 ==> sign_extended(field, 5) == field + 0xFFE0,
        field < 16 ==> sign_extended(field, 5) == field,
{
    lemma2_to64();
    theorem_sign_extend_keeps_value(field, 5);
}

/// ADD gives the same machine in both modes where the second source
/// register holds the value of the immediate: an instruction in register
/// mode and one in immediate mode, with the same destination and the same
/// first source, leave the same registers, flag and memory.
pub proof fn theorem_add_modes_agree(machine: Machine, by_register: u16, by_immediate: u16)
    requires
        machine.well_formed(),
        !immediate_mode(by_register),
        immediate_mode(by_immediate),
        dest_field(by_register) == dest_field(by_immediate),
        base_field(by_register) == base_field(by_immediate),
        machine.reg(src2_field(by_register)) == wrap16(imm5(by_immediate)),
    ensures
        machine.add(by_register) == machine.add(by_immediate),
{
    lemma_wrap_add(machine.reg(base_field(by_register)), imm5(by_immediate));
}

/// BR is taken exactly where the instruction names the sign of the value
/// that last set the flag. After `value` was written to a register with
/// the flag set from it, a branch moves the program counter by its offset
/// if bit 11 is set and the value is negative, bit 10 is set and the value
/// is zero, or bit 9 is set and the value is positive; otherwise it leaves
/// the machine as it is.
pub proof fn theorem_branch_follows_flag(machine: Machine, register: int, value: u16, instr: u16)
    requires
        machine.well_formed(),
        0 <= register < 8,
    ensures
        ({
            let flagged = machine.load_reg(register, value);
            let taken = (bit11(instr) && signed_word(value) < 0) || (bit10(instr) && value == 0)
                || (bit9(instr) && signed_word(value) > 0);
            &&& flagged.branch_taken(instr) == taken
            &&& taken ==> flagged.branch(instr) == flagged.jump(
                wrap16(machine.pc() as int + offset9(instr)),
            )
            &&& !taken ==> flagged.branch(instr) == flagged
        }),
{
}

/// LDI goes through memory twice. Where neither the word at the program
/// counter plus the offset nor the word that it points to is the keyboard
/// status register, the destination gets the word at the address that is
/// held at the program counter plus the offset, the flag is set from it,
/// and nothing else changes.
pub proof fn theorem_ldi_reads_through_pointer(machine: Machine, instr: u16)
    requires
        machine.well_formed(),
        machine.pc_plus(offset9(instr)) != MR_KBSR,
        machine.memory[machine.pc_plus(offset9(instr)) as int] != MR_KBSR,
    ensures
        machine.ldi(instr).fault is None,
        machine.ldi(instr).machine == machine.load_reg(
            dest_field(instr),
            machine.memory[machine.memory[machine.pc_plus(offset9(instr)) as int] as int],
        ),
        machine.ldi(instr).machine.reg(dest_field(instr))
            == machine.memory[machine.memory[machine.pc_plus(offset9(instr)) as int] as int],
{
}

/// LDR never leaves the memory. The address is the base register plus the
/// offset modulo 65536: a sum past the last word starts again at word 0,
/// and one below word 0 comes down from the last word. Where that address
/// is not the keyboard status register the destination gets the word
/// there.
pub proof fn theorem_ldr_wraps_round(machine: Machine, instr: u16)
    requires
        machine.well_formed(),
    ensures
        ({
            let sum = machine.reg(base_field(instr)) as int + offset6(instr);
            let address = wrap16(sum);
            &&& 0 <= address < 65536
            &&& sum >= 65536 ==> address == sum - 65536
            &&& sum < 0 ==> address == sum + 65536
            &&& 0 <= sum < 65536 ==> address == sum
            &&& address != MR_KBSR ==> machine.load_register(instr).fault is None
                && machine.load_register(instr).machine.reg(dest_field(instr))
                == machine.memory[address as int]
        }),
{
}

/// What `loaded` leaves where: the length of the memory stays, and every
/// address either holds the last word written to it or what it held.
proof fn lemma_loaded(memory: Seq<u16>, image: Seq<u8>, words: nat)
    requires
        memory.len() == 65536,
        words <= 65536,
    ensures
        loaded(memory, image, words).len() == 65536,
        forall|k: int|
            0 <= k < words ==> loaded(memory, image, words)[#[trigger] word_address(image, k) as int]
                == image_word(image, k + 1),
        forall|a: int|
            0 <= a < 65536 && (forall|k: int| 0 <= k < words ==> #[trigger] word_address(image, k) != a)
                ==> #[trigger] loaded(memory, image, words)[a] == memory[a],
    decreases words,
{
    if words > 0 {
        let before = (words - 1) as nat;
        lemma_loaded(memory, image, before);
        let last = word_address(image, words - 1);
        assert forall|k: int| 0 <= k < words implies loaded(memory, image, words)[#[trigger] word_address(
            image,
            k,
        ) as int] == image_word(image, k + 1) by {
            if k < words - 1 {
                assert(word_address(image, k) != last);
            }
        }
        assert forall|a: int|
            0 <= a < 65536 && (forall|k: int|
                0 <= k < words ==> #[trigger] word_address(image, k) != a) implies #[trigger] loaded(
            memory,
            image,
            words,
        )[a] == memory[a] by {
            assert(word_address(image, words - 1) != a);
            assert(forall|k: int| 0 <= k < before ==> #[trigger] word_address(image, k) != a);
        }
    }
}

/// Loading is writing the image's words in a row. An image of an origin
/// word and up to 65536 further words leaves word `k` after the origin at
/// the address `k` past the origin, counted modulo 65536, and leaves every
/// address that no word went to as it was.
pub proof fn theorem_load_places_words(memory: Seq<u16>, image: Seq<u8>)
    requires
        memory.len() == 65536,
        image_well_formed(image),
        image.len() / 2 - 1 <= 65536,
    ensures
        ({
            let words = (image.len() / 2 - 1) as nat;
            let after = loaded(memory, image, words);
            &&& after.len() == 65536
            &&& forall|k: int|
                0 <= k < words ==> after[#[trigger] word_address(image, k) as int] == image_word(
                    image,
                    k + 1,
                )
            &&& forall|a: int|
                0 <= a < 65536 && (forall|k: int|
                    0 <= k < words ==> #[trigger] word_address(image, k) != a) ==> #[trigger] after[a]
                    == memory[a]
        }),
{
    lemma_loaded(memory, image, (image.len() / 2 - 1) as nat);
}

/// A halted machine stays halted: a step and a run of any length leave it
/// exactly as it is, without a fault.
pub proof fn theorem_halted_is_final(machine: Machine, cycles: nat)
    requires
        machine.state == VMState::Halted,
    ensures
        machine.step() == machine.done(),
        machine.run(cycles) == machine.done(),
{
}

/// Writing a string touches neither the registers nor the run state, and
/// the only fault it can stop with is the keyboard's.
pub proof fn lemma_write_string_keeps_registers(machine: Machine, address: u16, packed: bool)
    ensures
        machine.write_string(address, packed).machine.registers == machine.registers,
        machine.write_string(address, packed).machine.state == machine.state,
        machine.write_string(address, packed).fault is None || machine.write_string(
            address,
            packed,
        ).fault == Some(Fault::KeyboardEmpty),
    decreases machine.console.input.len(), cells_before_keyboard(address),
{
    let read = machine.read(address);
    if let Some(word) = read.value {
        if word != 0 {
            lemma_write_string_keeps_registers(
                read.machine.emit(cell_text(word, packed)),
                wrap16(address as int + 1),
                packed,
            );
        }
    }
}

/// A string that ends before the keyboard status register is written
/// without a fault, and leaves the memory and the input as they were.
pub proof fn lemma_short_string_reads_no_input(machine: Machine, address: u16, packed: bool)
    requires
        machine.well_formed(),
        !string_meets_keyboard(machine.memory, address),
    ensures
        machine.write_string(address, packed).fault is None,
        machine.write_string(address, packed).machine.memory == machine.memory,
        machine.write_string(address, packed).machine.console.input == machine.console.input,
    decreases cells_before_keyboard(address),
{
    let end = choose|k: int|
        0 <= k < cells_before_keyboard(address) && machine.memory[#[trigger] string_cell(
            address,
            k,
        ) as int] == 0;
    let word = machine.memory[address as int];
    if word != 0 {
        let next = wrap16(address as int + 1);
        let after = machine.read(address).machine.emit(cell_text(word, packed));
        assert(string_cell(address, 0) == address);
        assert(end != 0);
        assert(string_cell(next, end - 1) == string_cell(address, end));
        assert(0 <= end - 1 < cells_before_keyboard(next));
        lemma_short_string_reads_no_input(after, next, packed);
    }
}

/// A string that runs into the keyboard status register stops there with
/// the keyboard's fault where no input byte waits.
pub proof fn lemma_long_string_needs_input(machine: Machine, address: u16, packed: bool)
    requires
        machine.well_formed(),
        string_meets_keyboard(machine.memory, address),
        machine.console.input.len() == 0,
    ensures
        machine.write_string(address, packed).fault == Some(Fault::KeyboardEmpty),
    decreases cells_before_keyboard(address),
{
    if address != MR_KBSR {
        let word = machine.memory[address as int];
        let next = wrap16(address as int + 1);
        let after = machine.read(address).machine.emit(cell_text(word, packed));
        assert(string_cell(address, 0) == address);
        assert forall|k: int| 0 <= k < cells_before_keyboard(next) implies after.memory[#[trigger] string_cell(
            next,
            k,
        ) as int] != 0 by {
            assert(string_cell(next, k) == string_cell(address, k + 1));
        }
        lemma_long_string_needs_input(after, next, packed);
    }
}

/// `awaits_input` tells whether the next cycle asks the console for a
/// byte. Where it does not, the cycle leaves the input as it is and stops
/// with no fault of the keyboard or of the input. Where it does and no
/// byte waits, the cycle stops with one of these two faults.
pub proof fn theorem_awaits_input_is_exact(machine: Machine)
    requires
        machine.well_formed(),
    ensures
        !machine.awaits_input() ==> machine.cycle().machine.console.input == machine.console.input
            && machine.cycle().fault != Some(Fault::KeyboardEmpty) && machine.cycle().fault
            != Some(Fault::InputEnded),
        machine.awaits_input() && machine.console.input.len() == 0 ==> machine.cycle().fault
            == Some(Fault::KeyboardEmpty) || machine.cycle().fault == Some(Fault::InputEnded),
{
    let pc = machine.pc();
    if pc != MR_KBSR {
        let instr = machine.memory[pc as int];
        let fetched = machine.jump(wrap16(pc as int + 1));
        let opcode = opcode_numbered(opcode_field(instr));
        assert(machine.fetch_execute() == fetched.execute(opcode, instr));
        lemma_wrap_add(pc, 1);
        if opcode == Opcode::Trap {
            let linked = fetched.set_reg(7, fetched.pc());
            let vector = trap_vector(instr);
            assert(linked.reg(0) == machine.reg(0));
            if vector == TRAP_PUTS || vector == TRAP_PUTSP {
                let packed = vector == TRAP_PUTSP;
                if machine.awaits_input() {
                    if machine.console.input.len() == 0 {
                        lemma_long_string_needs_input(linked, linked.reg(0), packed);
                    }
                } else {
                    lemma_short_string_reads_no_input(linked, linked.reg(0), packed);
                }
            }
        }
    }
}

/// Only the HALT trap halts, and a fault never does. After a cycle of a
/// running machine the machine is halted exactly where the word fetched
/// was a TRAP with the vector of HALT; a cycle that stops with a fault
/// leaves the machine running.
pub proof fn theorem_only_halt_halts(machine: Machine)
    requires
        machine.well_formed(),
        machine.state == VMState::Running,
    ensures
        machine.cycle().fault is Some ==> machine.cycle().machine.state == VMState::Running,
        match machine.read(machine.pc()).value {
            None => machine.cycle().machine.state == VMState::Running,
            Some(instr) => (machine.cycle().machine.state == VMState::Halted) == (opcode_numbered(
                opcode_field(instr),
            ) == Opcode::Trap && trap_vector(instr) == TRAP_HALT),
        },
{
    let fetched = machine.read(machine.pc());
    if let Some(instr) = fetched.value {
        let moved = fetched.machine.jump(wrap16(machine.pc() as int + 1));
        let linked = moved.set_reg(7, moved.pc());
        lemma_write_string_keeps_registers(linked, linked.reg(0), false);
        lemma_write_string_keeps_registers(linked, linked.reg(0), true);
    }
}

/// The flag follows the instructions that load a register and no others.
/// ADD, AND, NOT, LD, LDI, LDR and LEA, where they succeed, leave the flag
/// that the new value of their destination calls for. BR, JMP, JSR, ST,
/// STI, STR and the traps that read no character leave the flag as it was.
pub proof fn theorem_flag_follows_loads(machine: Machine, opcode: Opcode, instr: u16)
    requires
        machine.well_formed(),
    ensures
        ({
            let after = machine.execute(opcode, instr);
            let loads = opcode == Opcode::Add || opcode == Opcode::And || opcode == Opcode::Not
                || opcode == Opcode::Ld || opcode == Opcode::Ldi || opcode == Opcode::Ldr || opcode
                == Opcode::Lea;
            let reads_character = opcode == Opcode::Trap && (trap_vector(instr) == TRAP_GETC
                || trap_vector(instr) == TRAP_IN);
            &&& loads && after.fault is None ==> after.machine.registers.condition == flag_of(
                after.machine.reg(dest_field(instr)),
            )
            &&& !loads && !reads_character ==> after.machine.registers.condition
                == machine.registers.condition
        }),
{
    let linked = machine.set_reg(7, machine.pc());
    lemma_write_string_keeps_registers(linked, linked.reg(0), false);
    lemma_write_string_keeps_registers(linked, linked.reg(0), true);
}

/// A prompt written ahead is not written a second time. Writing the
/// prompt of a pending IN trap ahead and then running the cycle leaves the
/// machine that the cycle alone leaves, with the same fault: the same
/// bytes on the console, in the same order.
pub proof fn theorem_prompt_is_written_once(machine: Machine)
    requires
        machine.well_formed(),
        !machine.prompted,
    ensures
        machine.announce().cycle() == machine.cycle(),
{
    if machine.owes_prompt() {
        let ahead = machine.announce();
        let pc = machine.pc();
        let instr = machine.memory[pc as int];
        let next = wrap16(pc as int + 1);
        let moved = machine.jump(next);
        let moved_ahead = ahead.jump(next);
        assert(ahead.fetch_execute() == moved_ahead.trap(instr));
        assert(machine.fetch_execute() == moved.trap(instr));
        let linked = moved.set_reg(7, next);
        let linked_ahead = moved_ahead.set_reg(7, next);
        assert(linked_ahead == (Machine { prompted: true, ..linked.emit(prompt_text()) }));
        assert(ahead.cycle().machine.console == machine.cycle().machine.console);
    }
}

/// Offsets count from the word after the instruction. In a cycle that
/// fetches LEA from the address `pc`, the destination gets `pc` plus one
/// plus the offset, modulo 65536, and the program counter ends at `pc`
/// plus one.
pub proof fn theorem_offsets_count_from_next_word(machine: Machine)
    requires
        machine.well_formed(),
        machine.pc() != MR_KBSR,
        opcode_numbered(opcode_field(machine.memory[machine.pc() as int])) == Opcode::Lea,
    ensures
        ({
            let instr = machine.memory[machine.pc() as int];
            let after = machine.cycle();
            &&& after.fault is None
            &&& after.machine.reg(dest_field(instr)) == wrap16(
                machine.pc() as int + 1 + offset9(instr),
            )
            &&& after.machine.pc() == wrap16(machine.pc() as int + 1)
        }),
{
    let instr = machine.memory[machine.pc() as int];
    lemma_wrap_add(wrap16(machine.pc() as int + 1), offset9(instr));
    assert(wrap16(wrap16(machine.pc() as int + 1) as int + offset9(instr)) == wrap16(
        machine.pc() as int + 1 + offset9(instr),
    )) by {
        let a = machine.pc() as int + 1;
        let b = offset9(instr);
        assert(((a % 0x1_0000) + b) % 0x1_0000 == (a + b) % 0x1_0000) by (nonlinear_arith);
    }
}

/// A subroutine call can be returned from. After JSR or JSRR, a JMP
/// through R7 puts the program counter back to where it stood before the
/// call, which is the word after the call.
pub proof fn theorem_return_undoes_call(machine: Machine, call: u16, ret: u16)
    requires
        machine.well_formed(),
        base_field(ret) == 7,
    ensures
        machine.jump_subroutine(call).jmp(ret).pc() == machine.pc(),
        machine.jump_subroutine(call).reg(7) == machine.pc(),
{
}

} // verus!
