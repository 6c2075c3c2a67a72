//! The machine itself: memory, registers, console and run state.

use vstd::prelude::*;
use crate::console::Console;
use crate::decode::{
    add_words, base_of, lemma_wrap_add, offset6, offset6_of, offset9, offset9_of, opcode_field,
    trap_vector_of, wrap16,
};
use crate::errors::{agrees, TrapError, VMError};
use crate::machine::{
    cells_before_keyboard, string_cell, string_meets_keyboard, Machine, VMState, TRAP_GETC, TRAP_IN, TRAP_PUTS,
    TRAP_PUTSP,
};
use crate::memory::{Memory, MR_KBSR};
use crate::opdcodes::{
    and, conditional_branch, jmp, jump_subroutine, ldi, load, load_effective_address,
    load_register, not, opcode_numbered, prompt, store, store_indirect, store_register, trap,
    Opcode,
};
use crate::registers::{RegisterFlags, Registers, PC_START};

verus! {

/// An LC-3 with its memory, its registers, its console and its run state.
pub struct VM {
    /// The memory.
    pub memory: Memory,
    /// The registers.
    pub registers: Registers,
    /// The console that the traps and the keyboard registers talk to.
    pub console: Console,
    /// Running until the HALT trap.
    pub state: VMState,
    /// Whether the prompt of the IN trap that comes next was written
    /// ahead.
    pub prompted: bool,
}

impl View for VM {
    type V = Machine;

    open spec fn view(&self) -> Machine {
        Machine {
            memory: self.memory@,
            registers: self.registers@,
            console: self.console@,
            state: self.state,
            prompted: self.prompted,
        }
    }
}

/// Whether an object image is well formed: an origin word and then whole
/// words, so at least two bytes and an even number of them.
pub open spec fn image_well_formed(image: Seq<u8>) -> bool {
    image.len() >= 2 && image.len() % 2 == 0
}

/// Word `k` of an object image: two bytes, the high one first.
pub open spec fn image_word(image: Seq<u8>, k: int) -> u16 {
    (image[2 * k] as int * 256 + image[2 * k + 1] as int) as u16
}

/// The address that word `k` after the origin word of `image` is written
/// to: `k` past the origin, round the end of memory.
pub open spec fn word_address(image: Seq<u8>, k: int) -> u16 {
    wrap16(image_word(image, 0) as int + k)
}

/// The memory after the first `words` words that follow the origin word of
/// `image` were written, one after the other, from the origin upwards and
/// round the end of memory.
pub open spec fn loaded(memory: Seq<u16>, image: Seq<u8>, words: nat) -> Seq<u16>
    decreases words,
{
    if words == 0 {
        memory
    } else {
        loaded(memory, image, (words - 1) as nat).update(
            word_address(image, words - 1) as int,
            image_word(image, words as int),
        )
    }
}

/// The exit code of the process for the way a run ended: 0 after a
/// normal halt, 2 for a trap vector that names no routine, 1 for every
/// other error.
pub open spec fn exit_code_of(outcome: Result<(), VMError>) -> i32 {
    match outcome {
        Ok(_) => 0i32,
        Err(VMError::TrapError(TrapError::InvalidTrapVector(_))) => 2i32,
        Err(_) => 1i32,
    }
}

/// The exit code of the process for the way a run ended.
pub fn exit_code(outcome: &Result<(), VMError>) -> (code: i32)
    ensures
        code == exit_code_of(*outcome),
{
    match outcome {
        Ok(_) => 0,
        Err(VMError::TrapError(TrapError::InvalidTrapVector(_))) => 2,
        Err(_) => 1,
    }
}

/// The load origin that an object image names in its first word;
/// `LoadFailed` for an image that is not well formed.
pub fn image_origin(image: &[u8]) -> (origin: Result<u16, VMError>)
    ensures
        image_well_formed(image@) ==> origin == Ok::<u16, VMError>(image_word(image@, 0)),
        !image_well_formed(image@) ==> origin == Err::<u16, VMError>(VMError::LoadFailed),
{
    if image.len() < 2 || image.len() % 2 != 0 {
        return Err(VMError::LoadFailed);
    }
    Ok(word_of(image[0], image[1]))
}

/// The word made of two bytes, the high one first.
fn word_of(high: u8, low: u8) -> (word: u16)
    ensures
        word == high as int * 256 + low as int,
{
    (high as u16) * 256 + (low as u16)
}

impl VM {
    /// A running machine with zero in every word and register, the program
    /// counter at `PC_START`, the flag at zero and an empty console.
    pub fn new() -> (vm: VM)
        ensures
            vm@.memory == Seq::new(65536, |i: int| 0u16),
            vm@.registers.regs == Seq::new(8, |i: int| 0u16),
            vm@.registers.pc == PC_START,
            vm@.registers.condition == RegisterFlags::Zro,
            vm@.console.input == Seq::<u8>::empty(),
            vm@.console.output == Seq::<u8>::empty(),
            vm@.state == VMState::Running,
            !vm@.prompted,
    {
        VM {
            memory: Memory::new(),
            registers: Registers::new(),
            console: Console::new(),
            state: VMState::Running,
            prompted: false,
        }
    }

    /// Reads the word at `address`, polling the keyboard where `address`
    /// is the keyboard status register; `InvalidCharacter` where that poll
    /// finds no input byte.
    pub fn read_memory(&mut self, address: u16) -> (value: Result<u16, VMError>)
        ensures
            final(self)@ == old(self)@.read(address).machine,
            match old(self)@.read(address).value {
                Some(word) => value == Ok::<u16, VMError>(word),
                None => value == Err::<u16, VMError>(VMError::InvalidCharacter),
            },
    {
        self.memory.read(address, &mut self.console)
    }

    /// Stores `value` at `address`. Always succeeds.
    pub fn write_memory(&mut self, address: u16, value: u16) -> (done: Result<(), VMError>)
        ensures
            done == Ok::<(), VMError>(()),
            final(self)@ == old(self)@.store(address, value),
    {
        self.memory.write(address, value)
    }

    /// The value of register `r`, or `InvalidRegister` for a number above 7.
    pub fn read_register(&self, r: usize) -> (value: Result<u16, VMError>)
        ensures
            r < 8 ==> value == Ok::<u16, VMError>(self@.reg(r as int)),
            r >= 8 ==> value == Err::<u16, VMError>(VMError::InvalidRegister),
    {
        self.registers.get(r)
    }

    /// Writes `value` to register `r`; nothing for a number above 7.
    pub fn write_register(&mut self, r: usize, value: u16)
        ensures
            final(self)@ == old(self)@.set_reg(r as int, value),
    {
        self.registers.set(r, value);
    }

    /// Sets the condition flag from register `r`; nothing for a number
    /// above 7.
    pub fn update_flags(&mut self, r: usize)
        ensures
            final(self)@ == (Machine {
                registers: old(self)@.registers.with_flag_from(r as int),
                ..old(self)@
            }),
    {
        self.registers.update_flags(r);
    }

    /// Loads an object image: big-endian words, the first of them the
    /// origin, the others written to memory from the origin upwards, round
    /// the end of memory if need be.
    ///
    /// An image of fewer than two bytes or of an odd number of bytes is
    /// refused with `LoadFailed`, and nothing is written. Registers,
    /// console and run state stay as they are.
    pub fn load_program(&mut self, image: &[u8]) -> (done: Result<(), VMError>)
        ensures
            !image_well_formed(image@) ==> done == Err::<(), VMError>(VMError::LoadFailed)
                && final(self)@ == old(self)@,
            image_well_formed(image@) ==> done == Ok::<(), VMError>(()) && final(self)@ == (Machine {
                memory: loaded(old(self)@.memory, image@, (image@.len() / 2 - 1) as nat),
                ..old(self)@
            }),
    {
        let origin: u16 = image_origin(image)?;
        let words: usize = image.len() / 2;
        let mut current_address: u16 = origin;
        let mut k: usize = 1;
        while k < words
            invariant
                image_well_formed(image@),
                words == image@.len() / 2,
                image@.len() <= usize::MAX,
                1 <= k <= words,
                origin == image_word(image@, 0),
                current_address == wrap16(origin as int + k - 1),
                self@ == (Machine {
                    memory: loaded(old(self)@.memory, image@, (k - 1) as nat),
                    ..old(self)@
                }),
            decreases words - k,
        {
            assert(2 * k + 1 < image@.len());
            let instruction: u16 = word_of(image[2 * k], image[2 * k + 1]);
            self.write_memory(current_address, instruction)?;
            current_address = current_address.wrapping_add(1);
            k = k + 1;
        }
        Ok(())
    }

    /// Whether the machine runs.
    pub fn is_running(&self) -> (running: bool)
        ensures
            running == (self@.state == VMState::Running),
    {
        match self.state {
            VMState::Running => true,
            VMState::Halted => false,
        }
    }

    /// Whether the string that starts at `start` runs into the keyboard
    /// status register before it ends.
    fn string_reaches_keyboard(&self, start: u16) -> (reaches: bool)
        ensures
            reaches == string_meets_keyboard(self@.memory, start),
    {
        let mut address: u16 = start;
        let mut seen: usize = 0;
        while address != MR_KBSR
            invariant
                seen + cells_before_keyboard(address) == cells_before_keyboard(start),
                address == wrap16(start as int + seen),
                forall|k: int|
                    0 <= k < seen ==> self@.memory[#[trigger] string_cell(start, k) as int] != 0,
            decreases cells_before_keyboard(address),
        {
            if self.memory.peek(address) == 0 {
                assert(self@.memory[string_cell(start, seen as int) as int] == 0);
                return false;
            }
            address = address.wrapping_add(1);
            seen = seen + 1;
        }
        true
    }

    /// Whether the next cycle asks the console for an input byte.
    ///
    /// It does where the instruction is fetched from the keyboard status
    /// register, where LD, LDR, LDI or STI read that register, where the
    /// trap is GETC or IN, and where PUTS or PUTSP write a string that
    /// runs into that register. Nothing is read and nothing changes.
    pub fn awaits_input(&self) -> (awaits: bool)
        ensures
            awaits == self@.awaits_input(),
    {
        let pc: u16 = self.registers.pc;
        if pc == MR_KBSR {
            return true;
        }
        let next: u16 = pc.wrapping_add(1);
        let instruction: u16 = self.memory.peek(pc);
        let opcode: Opcode = opcode_of(instruction);
        match opcode {
            Opcode::Ld => {
                proof {
                    lemma_wrap_add(next, offset9(instruction));
                }
                add_words(next, offset9_of(instruction)) == MR_KBSR
            },
            Opcode::Ldr => {
                let base: u16 = self.registers.regs[base_of(instruction)];
                proof {
                    lemma_wrap_add(base, offset6(instruction));
                }
                add_words(base, offset6_of(instruction)) == MR_KBSR
            },
            Opcode::Ldi => {
                proof {
                    lemma_wrap_add(next, offset9(instruction));
                }
                let pointer: u16 = add_words(next, offset9_of(instruction));
                pointer == MR_KBSR || self.memory.peek(pointer) == MR_KBSR
            },
            Opcode::Sti => {
                proof {
                    lemma_wrap_add(next, offset9(instruction));
                }
                add_words(next, offset9_of(instruction)) == MR_KBSR
            },
            Opcode::Trap => {
                let vector: u16 = trap_vector_of(instruction);
                if vector == TRAP_GETC || vector == TRAP_IN {
                    true
                } else if vector == TRAP_PUTS || vector == TRAP_PUTSP {
                    self.string_reaches_keyboard(self.registers.regs[0])
                } else {
                    false
                }
            },
            _ => false,
        }
    }

    /// Whether the machine can go no further until the console is fed: it
    /// runs, its next cycle asks for an input byte, and none waits.
    pub fn starved(&self) -> (starved: bool)
        ensures
            starved == self@.starved(),
    {
        self.is_running() && self.console.pending() == 0 && self.awaits_input()
    }

    /// Executes `instruction` as the opcode `opcode`.
    ///
    /// RTI and the reserved opcode fail with `UnimplementedOpcode`; the
    /// others do what their instruction says and fail as it fails.
    pub fn execute(&mut self, opcode: Opcode, instruction: u16) -> (done: Result<(), VMError>)
        ensures
            agrees(done, old(self)@.execute(opcode, instruction).fault),
            final(self)@ == old(self)@.execute(opcode, instruction).machine,
    {
        match opcode {
            Opcode::Br => conditional_branch(self, instruction),
            Opcode::Add => crate::opdcodes::add(self, instruction),
            Opcode::Ld => load(self, instruction),
            Opcode::St => store(self, instruction),
            Opcode::Jsr => jump_subroutine(self, instruction),
            Opcode::And => and(self, instruction),
            Opcode::Ldr => load_register(self, instruction),
            Opcode::Str => store_register(self, instruction),
            Opcode::Rti => Err(VMError::UnimplementedOpcode(Opcode::Rti)),
            Opcode::Not => not(self, instruction),
            Opcode::Ldi => ldi(self, instruction),
            Opcode::Sti => store_indirect(self, instruction),
            Opcode::Jmp => jmp(self, instruction),
            Opcode::Res => Err(VMError::UnimplementedOpcode(Opcode::Res)),
            Opcode::Lea => load_effective_address(self, instruction),
            Opcode::Trap => trap(self, instruction),
        }
    }

    /// One cycle of a running machine: fetches the word at the program
    /// counter, moves the program counter one word on, and executes the
    /// word. A halted machine stays as it is.
    ///
    /// The first failure ends the cycle and is returned; the machine keeps
    /// what the cycle had done until then.
    pub fn step(&mut self) -> (done: Result<(), VMError>)
        ensures
            agrees(done, old(self)@.step().fault),
            final(self)@ == old(self)@.step().machine,
    {
        if !self.is_running() {
            return Ok(());
        }
        let done = self.fetch_execute();
        self.prompted = false;
        done
    }

    /// Fetches the word at the program counter, moves the program counter
    /// one word on, and executes the word.
    fn fetch_execute(&mut self) -> (done: Result<(), VMError>)
        ensures
            agrees(done, old(self)@.fetch_execute().fault),
            final(self)@ == old(self)@.fetch_execute().machine,
    {
        let pc: u16 = self.registers.pc;
        let instruction: u16 = self.read_memory(pc)?;
        let ghost fetched = self@;
        self.registers.pc = pc.wrapping_add(1);
        assert(self@ == fetched.jump(wrap16(pc as int + 1)));
        let opcode: Opcode = opcode_of(instruction);
        self.execute(opcode, instruction)
    }

    /// Writes the prompt of the IN trap ahead of the trap, where the next
    /// cycle of a running machine is that trap and its prompt is not on
    /// the console yet; the trap then writes no second one. Does nothing
    /// otherwise.
    ///
    /// A host calls this before it waits for a key, so that the prompt is
    /// seen before the key is typed.
    pub fn announce(&mut self)
        ensures
            final(self)@ == old(self)@.announce(),
    {
        if !self.is_running() || self.prompted || self.registers.pc == MR_KBSR {
            return ;
        }
        let instruction: u16 = self.memory.peek(self.registers.pc);
        match opcode_of(instruction) {
            Opcode::Trap => {
                if trap_vector_of(instruction) == TRAP_IN {
                    let text: Vec<u8> = prompt();
                    self.console.write_all(&text);
                    self.prompted = true;
                }
            },
            _ => {},
        }
    }

    /// Runs the machine for up to `max_cycles` cycles.
    ///
    /// The run ends when the machine halts, when it is starved of input,
    /// when a cycle fails, or when the cycles are used up, whichever comes
    /// first. Only a failing cycle makes the result an error; the run
    /// state and `starved` tell the other endings apart. A run that ends
    /// starved before the IN trap has written the trap's prompt ahead.
    pub fn run(&mut self, max_cycles: usize) -> (done: Result<(), VMError>)
        ensures
            agrees(done, old(self)@.run(max_cycles as nat).fault),
            final(self)@ == old(self)@.run(max_cycles as nat).machine,
    {
        let mut left: usize = max_cycles;
        loop
            invariant
                self@.run(left as nat) == old(self)@.run(max_cycles as nat),
            decreases left,
        {
            if !self.is_running() {
                return Ok(());
            }
            if self.starved() {
                self.announce();
                return Ok(());
            }
            if left == 0 {
                return Ok(());
            }
            self.step()?;
            left = left - 1;
        }
    }
}

/// The opcode in the top four bits of an instruction.
pub fn opcode_of(instruction: u16) -> (opcode: Opcode)
    ensures
        opcode == opcode_numbered(opcode_field(instruction)),
{
    let instruction_read: u16 = (instruction >> 12) & 0xF;
    assert((instruction >> 12) & 0xF == instruction / 4096) by (bit_vector);
    Opcode::from(instruction_read)
}

} // verus!
