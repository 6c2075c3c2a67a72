//! The machine as a mathematical object, and what every instruction does
//! to it.
//!
//! Nothing here runs. The functions of this file say, in arithmetic on
//! integers, what the executable machine is proved to do: registers and
//! addresses are integers modulo 65536, offsets are signed integers, the
//! memory and the console are sequences.

use vstd::prelude::*;
use crate::console::ConsoleState;
use crate::decode::{
    base_field, bit10, bit11, bit9, dest_field, imm5, immediate_mode, offset11, offset6, offset9,
    opcode_field, src2_field, trap_vector, wrap16,
};
use crate::memory::{read_outcome, MR_KBSR};
use crate::opdcodes::{opcode_numbered, Opcode};
use crate::registers::{RegisterFlags, RegisterState};

verus! {

/// Whether the machine still executes instructions.
#[derive(Debug, Clone, Copy, PartialEq, Eq, Structural)]
pub enum VMState {
    /// The next instruction will be fetched.
    Running,
    /// The HALT trap was executed. There is no way back.
    Halted,
}

/// Why an instruction stopped short.
pub enum Fault {
    /// The keyboard status register was read and no input byte waited.
    KeyboardEmpty,
    /// A trap routine asked for a character and no input byte waited.
    InputEnded,
    /// The trap vector names no routine.
    UnknownTrap(u16),
    /// RTI or the reserved opcode.
    Unimplemented(Opcode),
}

/// The whole state of the machine.
pub struct Machine {
    /// The 65536 words of memory.
    pub memory: Seq<u16>,
    /// The registers.
    pub registers: RegisterState,
    /// The console.
    pub console: ConsoleState,
    /// Running or halted.
    pub state: VMState,
    /// Whether the prompt of the IN trap that comes next is on the console
    /// already, written while the machine waited for its input.
    pub prompted: bool,
}

/// A machine after an instruction, and the fault that stopped it, if any.
pub struct Outcome {
    /// The machine as the instruction left it.
    pub machine: Machine,
    /// Why the instruction stopped short; `None` where it ran to its end.
    pub fault: Option<Fault>,
}

/// A machine after a read, and the word read, if the read succeeded.
pub struct Fetched {
    /// The machine as the read left it.
    pub machine: Machine,
    /// The word read; `None` where the keyboard had nothing to give.
    pub value: Option<u16>,
}

/// The vector of GETC: read a character, unechoed.
pub const TRAP_GETC: u16 = 0x20;

/// The vector of OUT: write a character.
pub const TRAP_OUT: u16 = 0x21;

/// The vector of PUTS: write a string, one character a word.
pub const TRAP_PUTS: u16 = 0x22;

/// The vector of IN: prompt for a character, read and echo it.
pub const TRAP_IN: u16 = 0x23;

/// The vector of PUTSP: write a string, two characters a word.
pub const TRAP_PUTSP: u16 = 0x24;

/// The vector of HALT: stop the machine.
pub const TRAP_HALT: u16 = 0x25;

/// What the IN trap writes before it reads: `Enter a character: `.
pub open spec fn prompt_text() -> Seq<u8> {
    seq![
        0x45u8, 0x6Eu8, 0x74u8, 0x65u8, 0x72u8, 0x20u8, 0x61u8, 0x20u8, 0x63u8, 0x68u8, 0x61u8,
        0x72u8, 0x61u8, 0x63u8, 0x74u8, 0x65u8, 0x72u8, 0x3Au8, 0x20u8,
    ]
}

/// What the HALT trap writes: `HALT` and a line feed.
pub open spec fn halt_text() -> Seq<u8> {
    seq![0x48u8, 0x41u8, 0x4Cu8, 0x54u8, 0x0Au8]
}

/// The bytes that one memory cell of a string stands for: its low byte
/// alone, or, in a packed string, its low byte and then its high byte
/// unless that is zero.
pub open spec fn cell_text(word: u16, packed: bool) -> Seq<u8> {
    if packed && word as int / 256 != 0 {
        seq![(word as int % 256) as u8, (word as int / 256) as u8]
    } else {
        seq![(word as int % 256) as u8]
    }
}

/// How many cells lie between `address` and the keyboard status register,
/// going upwards and round the end of memory.
pub open spec fn cells_before_keyboard(address: u16) -> nat {
    ((MR_KBSR as int - address as int) % 0x1_0000) as nat
}

/// The address of cell `k` of the string that starts at `start`.
pub open spec fn string_cell(start: u16, k: int) -> u16 {
    wrap16(start as int + k)
}

/// Whether a string that starts at `start` runs into the keyboard status
/// register: no cell from `start` up to that register holds zero.
pub open spec fn string_meets_keyboard(memory: Seq<u16>, start: u16) -> bool {
    forall|k: int|
        0 <= k < cells_before_keyboard(start) ==> memory[#[trigger] string_cell(start, k) as int]
            != 0
}

impl Machine {
    /// The value of general register `r`.
    pub open spec fn reg(self, r: int) -> u16 {
        self.registers.regs[r]
    }

    /// The program counter.
    pub open spec fn pc(self) -> u16 {
        self.registers.pc
    }

    /// The address `offset` words from the program counter.
    pub open spec fn pc_plus(self, offset: int) -> u16 {
        wrap16(self.registers.pc as int + offset)
    }

    /// The machine with `value` in register `r`, the flag untouched.
    pub open spec fn set_reg(self, r: int, value: u16) -> Machine {
        Machine { registers: self.registers.with_reg(r, value), ..self }
    }

    /// The machine with `value` in register `r` and the flag set from it.
    pub open spec fn load_reg(self, r: int, value: u16) -> Machine {
        Machine { registers: self.registers.with_reg(r, value).with_flag_from(r), ..self }
    }

    /// The machine with the program counter at `pc`.
    pub open spec fn jump(self, pc: u16) -> Machine {
        Machine { registers: self.registers.with_pc(pc), ..self }
    }

    /// The machine with `value` stored at `address`.
    pub open spec fn store(self, address: u16, value: u16) -> Machine {
        Machine { memory: self.memory.update(address as int, value), ..self }
    }

    /// The machine with `bytes` written to the console.
    pub open spec fn emit(self, bytes: Seq<u8>) -> Machine {
        Machine { console: self.console.put_all(bytes), ..self }
    }

    /// A read of `address`, which polls the keyboard where `address` is
    /// the keyboard status register.
    pub open spec fn read(self, address: u16) -> Fetched {
        let outcome = read_outcome(self.memory, self.console, address);
        Fetched {
            machine: Machine { memory: outcome.memory, console: outcome.console, ..self },
            value: outcome.value,
        }
    }

    /// The machine unchanged, with no fault.
    pub open spec fn done(self) -> Outcome {
        Outcome { machine: self, fault: None }
    }

    /// The machine as it is, stopped by `fault`.
    pub open spec fn stopped(self, fault: Fault) -> Outcome {
        Outcome { machine: self, fault: Some(fault) }
    }

    /// ADD: the destination gets the sum of the first source and either
    /// the second source or the immediate; the flag follows.
    pub open spec fn add(self, instr: u16) -> Machine {
        let first = self.reg(base_field(instr));
        let sum = if immediate_mode(instr) {
            wrap16(first as int + imm5(instr))
        } else {
            wrap16(first as int + self.reg(src2_field(instr)) as int)
        };
        self.load_reg(dest_field(instr), sum)
    }

    /// AND: as ADD, with the bitwise and in place of the sum.
    pub open spec fn and(self, instr: u16) -> Machine {
        let first = self.reg(base_field(instr));
        let second = if immediate_mode(instr) {
            wrap16(imm5(instr))
        } else {
            self.reg(src2_field(instr))
        };
        self.load_reg(dest_field(instr), first & second)
    }

    /// NOT: the destination gets the complement of the source; the flag
    /// follows.
    pub open spec fn not(self, instr: u16) -> Machine {
        self.load_reg(dest_field(instr), !self.reg(base_field(instr)))
    }

    /// Whether BR finds the current flag among the conditions that the
    /// instruction names.
    pub open spec fn branch_taken(self, instr: u16) -> bool {
        ||| bit11(instr) && self.registers.condition == RegisterFlags::Neg
        ||| bit10(instr) && self.registers.condition == RegisterFlags::Zro
        ||| bit9(instr) && self.registers.condition == RegisterFlags::Pos
    }

    /// BR: the program counter moves by the offset where the branch is
    /// taken, and nothing changes where it is not.
    pub open spec fn branch(self, instr: u16) -> Machine {
        if self.branch_taken(instr) {
            self.jump(self.pc_plus(offset9(instr)))
        } else {
            self
        }
    }

    /// JMP: the program counter gets the base register.
    pub open spec fn jmp(self, instr: u16) -> Machine {
        self.jump(self.reg(base_field(instr)))
    }

    /// JSR and JSRR: R7 gets the program counter first; then the program
    /// counter moves by the offset, or gets the base register.
    pub open spec fn jump_subroutine(self, instr: u16) -> Machine {
        let linked = self.set_reg(7, self.pc());
        if bit11(instr) {
            linked.jump(self.pc_plus(offset11(instr)))
        } else {
            linked.jump(linked.reg(base_field(instr)))
        }
    }

    /// The machine after a read, with the word read in register `r` and
    /// the flag set from it; the keyboard fault where the read failed.
    pub open spec fn load_from(self, r: int, address: u16) -> Outcome {
        let read = self.read(address);
        match read.value {
            Some(word) => read.machine.load_reg(r, word).done(),
            None => read.machine.stopped(Fault::KeyboardEmpty),
        }
    }

    /// LD: the destination gets the word at the program counter plus the
    /// offset.
    pub open spec fn load(self, instr: u16) -> Outcome {
        self.load_from(dest_field(instr), self.pc_plus(offset9(instr)))
    }

    /// LDI: the word at the program counter plus the offset is the address
    /// of the word that the destination gets.
    pub open spec fn ldi(self, instr: u16) -> Outcome {
        let pointer = self.read(self.pc_plus(offset9(instr)));
        match pointer.value {
            Some(target) => pointer.machine.load_from(dest_field(instr), target),
            None => pointer.machine.stopped(Fault::KeyboardEmpty),
        }
    }

    /// LDR: the destination gets the word at the base register plus the
    /// offset.
    pub open spec fn load_register(self, instr: u16) -> Outcome {
        self.load_from(
            dest_field(instr),
            wrap16(self.reg(base_field(instr)) as int + offset6(instr)),
        )
    }

    /// LEA: the destination gets the program counter plus the offset.
    pub open spec fn load_effective_address(self, instr: u16) -> Machine {
        self.load_reg(dest_field(instr), self.pc_plus(offset9(instr)))
    }

    /// ST: the source goes to the word at the program counter plus the
    /// offset.
    pub open spec fn st(self, instr: u16) -> Machine {
        self.store(self.pc_plus(offset9(instr)), self.reg(dest_field(instr)))
    }

    /// STI: the word at the program counter plus the offset is the address
    /// that the source goes to.
    pub open spec fn store_indirect(self, instr: u16) -> Outcome {
        let pointer = self.read(self.pc_plus(offset9(instr)));
        match pointer.value {
            Some(target) => pointer.machine.store(
                target,
                pointer.machine.reg(dest_field(instr)),
            ).done(),
            None => pointer.machine.stopped(Fault::KeyboardEmpty),
        }
    }

    /// STR: the source goes to the word at the base register plus the
    /// offset.
    pub open spec fn store_register(self, instr: u16) -> Machine {
        self.store(
            wrap16(self.reg(base_field(instr)) as int + offset6(instr)),
            self.reg(dest_field(instr)),
        )
    }

    /// The machine after it has taken the oldest input byte into R0 and
    /// set the flag from it, `echo` written in between; the input fault
    /// where no byte waits.
    pub open spec fn take_character(self, echo: bool) -> Outcome {
        if self.console.input.len() == 0 {
            self.stopped(Fault::InputEnded)
        } else {
            let key = self.console.input[0];
            let taken = Machine { console: self.console.advance(), ..self };
            let shown = if echo {
                taken.emit(seq![key, 0x0Au8])
            } else {
                taken
            };
            shown.load_reg(0, key as u16).done()
        }
    }

    /// The string that starts at `address`, written to the console cell by
    /// cell up to the first cell that holds zero.
    ///
    /// Each cell is read as any other word is, so a string that runs over
    /// the keyboard status register polls the keyboard there, and stops
    /// with the keyboard fault where no input byte waits.
    pub open spec fn write_string(self, address: u16, packed: bool) -> Outcome
        decreases self.console.input.len(), cells_before_keyboard(address),
    {
        let read = self.read(address);
        match read.value {
            None => read.machine.stopped(Fault::KeyboardEmpty),
            Some(word) => if word == 0 {
                read.machine.done()
            } else {
                read.machine.emit(cell_text(word, packed)).write_string(
                    wrap16(address as int + 1),
                    packed,
                )
            },
        }
    }

    /// TRAP: R7 gets the program counter, then the routine that the vector
    /// names runs.
    pub open spec fn trap(self, instr: u16) -> Outcome {
        let linked = self.set_reg(7, self.pc());
        let vector = trap_vector(instr);
        if vector == TRAP_GETC {
            linked.take_character(false)
        } else if vector == TRAP_OUT {
            linked.emit(seq![(linked.reg(0) as int % 256) as u8]).done()
        } else if vector == TRAP_PUTS {
            linked.write_string(linked.reg(0), false)
        } else if vector == TRAP_IN {
            let shown = if linked.prompted {
                linked
            } else {
                linked.emit(prompt_text())
            };
            Machine { prompted: false, ..shown }.take_character(true)
        } else if vector == TRAP_PUTSP {
            linked.write_string(linked.reg(0), true)
        } else if vector == TRAP_HALT {
            Machine { state: VMState::Halted, ..linked.emit(halt_text()) }.done()
        } else {
            linked.stopped(Fault::UnknownTrap(vector as u16))
        }
    }

    /// What the instruction `instr` does when it is dispatched as `opcode`.
    pub open spec fn execute(self, opcode: Opcode, instr: u16) -> Outcome {
        match opcode {
            Opcode::Br => self.branch(instr).done(),
            Opcode::Add => self.add(instr).done(),
            Opcode::Ld => self.load(instr),
            Opcode::St => self.st(instr).done(),
            Opcode::Jsr => self.jump_subroutine(instr).done(),
            Opcode::And => self.and(instr).done(),
            Opcode::Ldr => self.load_register(instr),
            Opcode::Str => self.store_register(instr).done(),
            Opcode::Rti => self.stopped(Fault::Unimplemented(Opcode::Rti)),
            Opcode::Not => self.not(instr).done(),
            Opcode::Ldi => self.ldi(instr),
            Opcode::Sti => self.store_indirect(instr),
            Opcode::Jmp => self.jmp(instr).done(),
            Opcode::Res => self.stopped(Fault::Unimplemented(Opcode::Res)),
            Opcode::Lea => self.load_effective_address(instr).done(),
            Opcode::Trap => self.trap(instr),
        }
    }

    /// Fetch and execute: the word at the program counter is read, the
    /// program counter moves one word on, and the word is executed.
    pub open spec fn fetch_execute(self) -> Outcome {
        let fetched = self.read(self.pc());
        match fetched.value {
            None => fetched.machine.stopped(Fault::KeyboardEmpty),
            Some(instr) => fetched.machine.jump(wrap16(self.pc() as int + 1)).execute(
                opcode_numbered(opcode_field(instr)),
                instr,
            ),
        }
    }

    /// One cycle: fetch and execute. A prompt written ahead counts for the
    /// cycle that follows it and for no later one.
    pub open spec fn cycle(self) -> Outcome {
        let after = self.fetch_execute();
        Outcome { machine: Machine { prompted: false, ..after.machine }, fault: after.fault }
    }

    /// Whether the next cycle is the IN trap without its prompt written.
    pub open spec fn owes_prompt(self) -> bool {
        let instr = self.memory[self.pc() as int];
        &&& self.state == VMState::Running
        &&& !self.prompted
        &&& self.pc() != MR_KBSR
        &&& opcode_numbered(opcode_field(instr)) == Opcode::Trap
        &&& trap_vector(instr) == TRAP_IN
    }

    /// The machine with the prompt of the IN trap written ahead, where the
    /// next cycle is that trap; the machine as it is otherwise.
    pub open spec fn announce(self) -> Machine {
        if self.owes_prompt() {
            Machine { prompted: true, ..self.emit(prompt_text()) }
        } else {
            self
        }
    }

    /// One step: a cycle on a running machine, nothing on a halted one.
    pub open spec fn step(self) -> Outcome {
        if self.state == VMState::Halted {
            self.done()
        } else {
            self.cycle()
        }
    }

    /// Whether the next cycle asks the console for an input byte: it reads
    /// the keyboard status register, or it is a trap that reads a
    /// character.
    pub open spec fn awaits_input(self) -> bool {
        let pc = self.pc();
        let next = wrap16(pc as int + 1);
        let instr = self.memory[pc as int];
        let opcode = opcode_numbered(opcode_field(instr));
        let relative = wrap16(next as int + offset9(instr));
        let based = wrap16(self.reg(base_field(instr)) as int + offset6(instr));
        let vector = trap_vector(instr);
        if pc == MR_KBSR {
            true
        } else if opcode == Opcode::Ld {
            relative == MR_KBSR
        } else if opcode == Opcode::Ldr {
            based == MR_KBSR
        } else if opcode == Opcode::Ldi {
            relative == MR_KBSR || self.memory[relative as int] == MR_KBSR
        } else if opcode == Opcode::Sti {
            relative == MR_KBSR
        } else if opcode == Opcode::Trap {
            if vector == TRAP_GETC || vector == TRAP_IN {
                true
            } else if vector == TRAP_PUTS || vector == TRAP_PUTSP {
                string_meets_keyboard(self.memory, self.reg(0))
            } else {
                false
            }
        } else {
            false
        }
    }

    /// Whether the machine can go no further until the host has fed the
    /// console: it runs, its next cycle asks for input, and none waits.
    pub open spec fn starved(self) -> bool {
        self.state == VMState::Running && self.console.input.len() == 0 && self.awaits_input()
    }

    /// Up to `cycles` cycles: the machine runs until it halts, starves, a
    /// cycle stops with a fault, or the cycles are used up. A machine that
    /// starves before the IN trap gets the prompt written ahead, so that
    /// the host can show it while it waits for the key.
    pub open spec fn run(self, cycles: nat) -> Outcome
        decreases cycles,
    {
        if self.state == VMState::Halted {
            self.done()
        } else if self.starved() {
            self.announce().done()
        } else if cycles == 0 {
            self.done()
        } else {
            let after = self.cycle();
            if after.fault is Some {
                after
            } else {
                after.machine.run((cycles - 1) as nat)
            }
        }
    }
}

} // verus!
