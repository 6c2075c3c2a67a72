use lc3_vm::errors::VMError;
use lc3_vm::hardware::instructions::sign_extend;
use lc3_vm::hardware::lc3::VM;
use lc3_vm::hardware::memory::Memory;
use lc3_vm::hardware::register::{ConditionFlag, Register, Registers, PC_START};
use lc3_vm::opdcodes::Opcode;

#[test]
fn hardware_sign_extend() {
    assert_eq!(sign_extend(0b11101, 5), 0xFFFD);
    assert_eq!(sign_extend(0b00011, 5), 3);
    assert_eq!(sign_extend(0x1FF, 9), 0xFFFF);
    assert_eq!(sign_extend(0x0FF, 9), 0x00FF);
    assert_eq!(sign_extend(0b100000, 6), 0xFFE0);
    for x in 0u16..32 {
        assert_eq!(sign_extend(x, 5), lc3_vm::decode::sign_extend(x, 5));
    }
}

#[test]
fn hardware_registers_start_with_the_positive_flag() {
    let reg = Registers::new();
    for r in [
        Register::R0,
        Register::R1,
        Register::R2,
        Register::R3,
        Register::R4,
        Register::R5,
        Register::R6,
        Register::R7,
    ] {
        assert_eq!(reg.get(r), 0);
    }
    assert_eq!(reg.get(Register::PC), PC_START);
    assert_eq!(reg.get(Register::Cond), 1);
    assert_eq!(reg.get_flag(), 1);
}

#[test]
fn hardware_register_numbers() {
    assert_eq!(Register::from(0), Ok(Register::R0));
    assert_eq!(Register::from(7), Ok(Register::R7));
    assert_eq!(Register::from(8), Ok(Register::PC));
    assert_eq!(Register::from(9), Ok(Register::Cond));
    assert_eq!(Register::from(10), Err(VMError::InvalidRegister));
    assert_eq!(Register::from(0xFFFF), Err(VMError::InvalidRegister));
    for n in 0u16..10 {
        assert_eq!(Register::from(n).unwrap().index(), n as usize);
    }
    assert_eq!(Register::Count.index(), 10);
    assert_eq!(Register::general(5), Register::R5);
}

#[test]
fn hardware_update_flags() {
    let mut reg = Registers::new();
    reg.set(Register::R1, 0);
    reg.update_flags(Register::R1);
    assert_eq!(reg.get_flag(), ConditionFlag::Zero.bits());
    reg.set(Register::R1, 0x8000);
    reg.update_flags(Register::R1);
    assert_eq!(reg.get_flag(), ConditionFlag::Negative.bits());
    reg.set(Register::R1, 0x7FFF);
    reg.update_flags(Register::R1);
    assert_eq!(reg.get_flag(), ConditionFlag::Positive.bits());
    assert_eq!(ConditionFlag::Positive.bits(), 1);
    assert_eq!(ConditionFlag::Zero.bits(), 2);
    assert_eq!(ConditionFlag::Negative.bits(), 4);
}

#[test]
fn hardware_memory_reads_what_was_written() {
    let mut mem = Memory::new();
    assert_eq!(mem.read(0), 0);
    assert_eq!(mem.read(0xFE00), 0);
    mem.write(0, 1);
    mem.write(0xFFFF, 2);
    mem.write(0xFE00, 3);
    assert_eq!(mem.read(0), 1);
    assert_eq!(mem.read(0xFFFF), 2);
    assert_eq!(mem.read(0xFE00), 3);
    assert_eq!(mem.read(1), 0);
}

#[test]
fn hardware_run_executes_and_stops_at_an_opcode_it_lacks() {
    let mut vm = VM::new();
    vm.mem.write(0x3000, 0b0001_000_000_1_00101); // ADD R0, R0, #5
    vm.mem.write(0x3001, 0b0011_000_000000100); // ST R0, #4
    vm.mem.write(0x3002, 0b0010_001_000000011); // LD R1, #3
    vm.mem.write(0x3003, 0b1110_010_000000010); // LEA R2, #2
    vm.mem.write(0x3004, 0b1011_001_000000011); // STI R1, #3
    vm.mem.write(0x3005, 0xF025); // TRAP
    vm.mem.write(0x3008, 0x4000);
    let outcome = vm.run(100);
    assert_eq!(outcome, Err(VMError::UnimplementedOpcode(Opcode::Trap)));
    assert_eq!(vm.reg.get(Register::R0), 5);
    assert_eq!(vm.mem.read(0x3006), 5);
    assert_eq!(vm.reg.get(Register::R1), 5);
    assert_eq!(vm.reg.get(Register::R2), 0x3006);
    assert_eq!(vm.mem.read(0x4000), 5);
    assert_eq!(vm.reg.get(Register::PC), 0x3006);
}

#[test]
fn hardware_run_stops_when_the_cycles_are_used_up() {
    let mut vm = VM::new();
    for a in 0x3000u16..0x3010 {
        vm.mem.write(a, 0b0001_000_000_1_00001); // ADD R0, R0, #1
    }
    assert_eq!(vm.run(4), Ok(()));
    assert_eq!(vm.reg.get(Register::R0), 4);
    assert_eq!(vm.reg.get(Register::PC), 0x3004);
    assert_eq!(vm.run(0), Ok(()));
    assert_eq!(vm.reg.get(Register::PC), 0x3004);
    assert_eq!(vm.step(), Ok(()));
    assert_eq!(vm.reg.get(Register::R0), 5);
}

#[test]
fn hardware_run_refuses_the_opcodes_without_a_handler() {
    for (word, opcode) in [
        (0x0000u16, Opcode::Br),
        (0x4000, Opcode::Jsr),
        (0x5000, Opcode::And),
        (0x7000, Opcode::Str),
        (0x8000, Opcode::Rti),
        (0x9000, Opcode::Not),
        (0xC000, Opcode::Jmp),
        (0xD000, Opcode::Res),
        (0xF000, Opcode::Trap),
    ] {
        let mut vm = VM::new();
        vm.mem.write(0x3000, word);
        assert_eq!(vm.run(5), Err(VMError::UnimplementedOpcode(opcode)));
        assert_eq!(vm.reg.get(Register::PC), 0x3001);
    }
}

#[test]
fn hardware_ldi_and_ldr_in_a_run() {
    let mut vm = VM::new();
    vm.mem.write(0x3000, 0b1010_000_000000001); // LDI R0, #1
    vm.mem.write(0x3001, 0b0110_001_000_000001); // LDR R1, R0, #1
    vm.mem.write(0x3002, 0x4000);
    vm.mem.write(0x4000, 0x5000);
    vm.mem.write(0x5001, 0x8123);
    assert_eq!(vm.run(2), Ok(()));
    assert_eq!(vm.reg.get(Register::R0), 0x5000);
    assert_eq!(vm.reg.get(Register::R1), 0x8123);
    assert_eq!(vm.reg.get_flag(), 4);
}
