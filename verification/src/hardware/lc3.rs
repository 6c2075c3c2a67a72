//! The smaller machine's fetch and execute loop.

use vstd::prelude::*;
use crate::decode::{opcode_field, wrap16};
use crate::errors::VMError;
use crate::hardware::instructions::ld::{ld, loaded_relative};
use crate::hardware::instructions::ldi::{ldi, loaded_indirect};
use crate::hardware::instructions::ldr::{ldr, loaded_based};
use crate::hardware::instructions::lea::{lea, loaded_address};
use crate::hardware::instructions::st::{st, stored_relative};
use crate::hardware::instructions::sti::{sti, stored_indirect};
use crate::hardware::instructions::add::added;
use crate::hardware::memory::Memory;
use crate::hardware::register::{Register, Registers, PC_START};
use crate::opdcodes::{opcode_numbered, Opcode};
use crate::vm::opcode_of;

verus! {

/// What the smaller machine holds.
pub struct Snapshot {
    /// The 65536 words of memory.
    pub memory: Seq<u16>,
    /// The ten registers.
    pub registers: Seq<u16>,
}

/// A machine after some cycles, and the opcode that stopped it, if any.
pub struct Progress {
    /// The machine as the cycles left it.
    pub snapshot: Snapshot,
    /// The opcode that the machine does not execute and stopped at.
    pub stopped_at: Option<Opcode>,
}

impl Snapshot {
    /// One cycle: the program counter moves one word on, and the word
    /// that it pointed to is executed. ADD, LD, LDI, LDR, LEA, ST and STI
    /// are executed; every other opcode stops the machine, with the
    /// program counter already moved.
    pub open spec fn cycle(self) -> Progress {
        let pc = self.registers[8];
        let instr = self.memory[pc as int];
        let opcode = opcode_numbered(opcode_field(instr));
        let moved = self.registers.update(8, wrap16(pc as int + 1));
        let fetched = Snapshot { memory: self.memory, registers: moved };
        match opcode {
            Opcode::Add => Progress {
                snapshot: Snapshot { registers: added(moved, instr), ..fetched },
                stopped_at: None,
            },
            Opcode::Ld => Progress {
                snapshot: Snapshot {
                    registers: loaded_relative(moved, self.memory, instr),
                    ..fetched
                },
                stopped_at: None,
            },
            Opcode::Ldi => Progress {
                snapshot: Snapshot {
                    registers: loaded_indirect(moved, self.memory, instr),
                    ..fetched
                },
                stopped_at: None,
            },
            Opcode::Ldr => Progress {
                snapshot: Snapshot { registers: loaded_based(moved, self.memory, instr), ..fetched },
                stopped_at: None,
            },
            Opcode::Lea => Progress {
                snapshot: Snapshot { registers: loaded_address(moved, instr), ..fetched },
                stopped_at: None,
            },
            Opcode::St => Progress {
                snapshot: Snapshot { memory: stored_relative(moved, self.memory, instr), ..fetched },
                stopped_at: None,
            },
            Opcode::Sti => Progress {
                snapshot: Snapshot { memory: stored_indirect(moved, self.memory, instr), ..fetched },
                stopped_at: None,
            },
            _ => Progress { snapshot: fetched, stopped_at: Some(opcode) },
        }
    }

    /// Up to `cycles` cycles, ended early by the first opcode that stops
    /// the machine.
    pub open spec fn run(self, cycles: nat) -> Progress
        decreases cycles,
    {
        if cycles == 0 {
            Progress { snapshot: self, stopped_at: None }
        } else {
            let after = self.cycle();
            if after.stopped_at is Some {
                after
            } else {
                after.snapshot.run((cycles - 1) as nat)
            }
        }
    }
}

/// The smaller machine: a memory and ten registers.
pub struct VM {
    /// The memory.
    pub mem: Memory,
    /// The registers.
    pub reg: Registers,
}

impl View for VM {
    type V = Snapshot;

    open spec fn view(&self) -> Snapshot {
        Snapshot { memory: self.mem@, registers: self.reg@ }
    }
}

impl VM {
    /// A machine with an empty memory and fresh registers.
    pub fn new() -> (vm: VM)
        ensures
            vm@.memory == Seq::new(65536, |i: int| 0u16),
            vm@.registers == Seq::new(10, |i: int| 0u16).update(8, PC_START).update(9, 1u16),
    {
        VM { mem: Memory::new(), reg: Registers::new() }
    }

    /// One cycle: moves the program counter one word on and executes the
    /// word that it pointed to. ADD, LD, LDI, LDR, LEA, ST and STI are
    /// executed; any other opcode fails with `UnimplementedOpcode`, the
    /// program counter already moved.
    pub fn step(&mut self) -> (done: Result<(), VMError>)
        ensures
            final(self)@ == old(self)@.cycle().snapshot,
            match old(self)@.cycle().stopped_at {
                None => done == Ok::<(), VMError>(()),
                Some(opcode) => done == Err::<(), VMError>(VMError::UnimplementedOpcode(opcode)),
            },
    {
        let pc: u16 = self.reg.get(Register::PC);
        self.reg.set(Register::PC, pc.wrapping_add(1));
        let instr: u16 = self.mem.read(pc);
        let op: Opcode = opcode_of(instr);
        match op {
            Opcode::Add => {
                crate::hardware::instructions::add::add(instr, &mut self.reg);
            },
            Opcode::Ld => {
                ld(instr, &mut self.reg, &self.mem);
            },
            Opcode::Ldi => {
                ldi(instr, &mut self.reg, &self.mem);
            },
            Opcode::Ldr => {
                ldr(instr, &mut self.reg, &self.mem);
            },
            Opcode::Lea => {
                lea(instr, &mut self.reg);
            },
            Opcode::St => {
                st(instr, &self.reg, &mut self.mem);
            },
            Opcode::Sti => {
                sti(instr, &self.reg, &mut self.mem);
            },
            _ => {
                return Err(VMError::UnimplementedOpcode(op));
            },
        }
        Ok(())
    }

    /// Runs the machine for up to `max_cycles` cycles.
    ///
    /// The first opcode that this machine does not execute ends the run
    /// with `UnimplementedOpcode`; a run that meets none returns `Ok` when
    /// the cycles are used up.
    pub fn run(&mut self, max_cycles: usize) -> (done: Result<(), VMError>)
        ensures
            final(self)@ == old(self)@.run(max_cycles as nat).snapshot,
            match old(self)@.run(max_cycles as nat).stopped_at {
                None => done == Ok::<(), VMError>(()),
                Some(opcode) => done == Err::<(), VMError>(VMError::UnimplementedOpcode(opcode)),
            },
    {
        let mut left: usize = max_cycles;
        while left > 0
            invariant
                self@.run(left as nat) == old(self)@.run(max_cycles as nat),
            decreases left,
        {
            self.step()?;
            left = left - 1;
        }
        Ok(())
    }
}

} // verus!
