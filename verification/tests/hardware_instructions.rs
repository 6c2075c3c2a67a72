use lc3_vm::hardware::instructions::add::add;
use lc3_vm::hardware::instructions::ld::ld;
use lc3_vm::hardware::instructions::ldi::ldi;
use lc3_vm::hardware::instructions::ldr::ldr;
use lc3_vm::hardware::instructions::lea::lea;
use lc3_vm::hardware::instructions::st::st;
use lc3_vm::hardware::instructions::sti::sti;
use lc3_vm::hardware::memory::Memory;
use lc3_vm::hardware::register::{Register, Registers, PC_START};

fn setup() -> (Registers, Memory) {
    (Registers::new(), Memory::new())
}

#[test]
fn add_inmediate_positive_value() {
    let mut reg = Registers::new();
    reg.set(Register::R1, 5);

    // ADD R0, R1, #3
    let instr = 0b0001_000_001_1_00011;
    add(instr, &mut reg);
    assert_eq!(reg.get(Register::R0), 8);
}

#[test]
fn add_inmediate_negative_value() {
    let mut reg = Registers::new();
    reg.set(Register::R1, 5);

    // ADD R0, R1, #-3
    let instr = 0b0001_000_001_1_11101;
    add(instr, &mut reg);
    assert_eq!(reg.get(Register::R0), 2);
}

#[test]
fn add_positive_value() {
    let mut reg = Registers::new();
    reg.set(Register::R3, 5);
    reg.set(Register::R5, 3);

    // ADD R2, R3, R5
    let instr = 0b0001_010_011_0_00_101;

    add(instr, &mut reg);

    assert_eq!(reg.get(Register::R2), 8);
}

#[test]
fn add_negative_value() {
    let mut reg = Registers::new();
    reg.set(Register::R3, 5);
    reg.set(Register::R5, -3i16 as u16);

    // ADD R2, R3, R5
    let instr = 0b0001_010_011_0_00_101;

    add(instr, &mut reg);

    assert_eq!(reg.get(Register::R2), 2);
}

#[test]
fn add_two_negative_values() {
    let mut reg = Registers::new();

    reg.set(Register::R3, -5i16 as u16);
    reg.set(Register::R5, -3i16 as u16);

    // ADD R2, R3, R5
    let instr = 0b0001_010_011_0_00_101;

    add(instr, &mut reg);

    assert_eq!(reg.get(Register::R2), (-8i16) as u16);
    assert_eq!(reg.get(Register::Cond), 0b100);
}

#[test]
fn test_ld_positive_offset() {
    let (mut reg, mut mem) = setup();

    let test_value = 0x1234;
    mem.write(0x3001, test_value);

    // LD R2, #1
    let instruction = 0b0010_010_000000001;

    ld(instruction, &mut reg, &mem);

    assert_eq!(reg.get(Register::R2), test_value);
    assert_eq!(reg.get(Register::Cond), 0b001);
}

#[test]
fn test_ld_negative_offset() {
    let (mut reg, mut mem) = setup();

    reg.set(Register::PC, 0x3005);

    let test_value = 0x5678;
    mem.write(0x3004, test_value);

    // LD R3, #-1
    let instruction = 0b0010_011_111111111;

    ld(instruction, &mut reg, &mem);

    assert_eq!(reg.get(Register::R3), test_value);
}

#[test]
fn test_ld_zero_value() {
    let (mut reg, mut mem) = setup();

    mem.write(0x3001, 0x0000);

    // LD R4, #1
    let instruction = 0b0010_100_000000001;

    ld(instruction, &mut reg, &mem);

    assert_eq!(reg.get(Register::R4), 0x0000);
    assert_eq!(reg.get(Register::Cond), 0b010);
}

#[test]
fn test_ldi_basic_load() {
    let (mut reg, mut mem) = setup();

    mem.write(0x3001, 0x4000);
    mem.write(0x4000, 0x1234);

    // LDI R0, #1
    let instruction = 0b1010_000_000000001;

    ldi(instruction, &mut reg, &mem);

    assert_eq!(reg.get(Register::R0), 0x1234);
}

#[test]
fn test_ldi_max_positive_offset() {
    let (mut reg, mut mem) = setup();

    mem.write(0x30FF, 0x4000);
    mem.write(0x4000, 0x1234);

    // LDI R0, #255
    let instruction = 0b1010_000_011111111;

    ldi(instruction, &mut reg, &mem);

    assert_eq!(reg.get(Register::R0), 0x1234);
}

#[test]
fn test_ldi_different_register() {
    let (mut reg, mut mem) = setup();

    mem.write(0x3001, 0x4000);
    mem.write(0x4000, 0x5678);

    // LDI R3, #1
    let instruction = 0b1010_011_000000001;

    ldi(instruction, &mut reg, &mem);

    assert_eq!(reg.get(Register::R3), 0x5678);
}

#[test]
fn test_ldr() {
    let (mut reg, mut mem) = setup();

    reg.set(Register::R2, PC_START);

    let test_value = 0x1234;
    mem.write(PC_START + 2, test_value);

    // LDR R3, R2, #2
    let instruction = 0b0110_011_010_000010;

    ldr(instruction, &mut reg, &mem);

    assert_eq!(reg.get(Register::R3), test_value);
    assert_eq!(reg.get(Register::Cond), 0b001);
}

#[test]
fn test_ldr_negative_offset() {
    let (mut reg, mut mem) = setup();

    reg.set(Register::R1, 0x3010);

    let test_value = 0x5678;
    mem.write(0x300E, test_value);

    // LDR R4, R1, #-2
    let instruction = 0b0110_100_001_111110;

    ldr(instruction, &mut reg, &mem);

    assert_eq!(reg.get(Register::R4), test_value);
}

#[test]
fn test_ldr_zero_value() {
    let (mut reg, mut mem) = setup();

    reg.set(Register::R3, 0x3000);
    mem.write(0x3001, 0x0000);

    // LDR R5, R3, #1
    let instruction = 0b0110_101_011_000001;

    ldr(instruction, &mut reg, &mem);

    assert_eq!(reg.get(Register::R5), 0x0000);
    assert_eq!(reg.get(Register::Cond), 0b010);
}

#[test]
fn test_ldr_negative_value() {
    let (mut reg, mut mem) = setup();

    reg.set(Register::R4, 0x3000);
    let negative_value = (-42i16) as u16;
    mem.write(0x3001, negative_value);

    // LDR R6, R4, #1
    let instruction = 0b0110_110_100_000001;

    ldr(instruction, &mut reg, &mem);

    assert_eq!(reg.get(Register::R6), negative_value);
    assert_eq!(reg.get(Register::Cond), 0b100);
}

#[test]
fn test_ldr_max_positive_offset() {
    let (mut reg, mut mem) = setup();

    reg.set(Register::R5, 0x3000);
    let test_value = 0xABCD;
    mem.write(0x301F, test_value);

    // LDR R7, R5, #31
    let instruction = 0b0110_111_101_011111;

    ldr(instruction, &mut reg, &mem);

    assert_eq!(reg.get(Register::R7), test_value);
}

#[test]
fn test_ldr_min_negative_offset() {
    let (mut reg, mut mem) = setup();

    reg.set(Register::R6, 0x3040);
    let test_value = 0xDEAD;
    mem.write(0x3020, test_value);

    // LDR R1, R6, #-32
    let instruction = 0b0110_001_110_100000;

    ldr(instruction, &mut reg, &mem);

    assert_eq!(reg.get(Register::R1), test_value);
}

#[test]
fn test_ldr_wrapping() {
    let (mut reg, mut mem) = setup();

    reg.set(Register::R7, 0xFFFF);

    let test_value = 0xBEEF;
    mem.write(0x0001, test_value);

    // LDR R2, R7, #2
    let instruction = 0b0110_010_111_000010;

    ldr(instruction, &mut reg, &mem);

    assert_eq!(reg.get(Register::R2), test_value);
}

#[test]
fn test_ldr_same_register() {
    let (mut reg, mut mem) = setup();

    reg.set(Register::R3, 0x3000);
    let test_value = 0x1234;
    mem.write(0x3002, test_value);

    // LDR R3, R3, #2
    let instruction = 0b0110_011_011_000010;

    ldr(instruction, &mut reg, &mem);

    assert_eq!(reg.get(Register::R3), test_value);
}

#[test]
fn test_lea() {
    let mut reg = Registers::new();

    let instruction = 0b1110_010_000000001;

    lea(instruction, &mut reg);

    assert_eq!(reg.get(Register::R2), 0x3001);
    assert_eq!(reg.get(Register::Cond), 0b001);
}

#[test]
fn test_st_positive_offset() {
    let (mut reg, mut mem) = setup();

    reg.set(Register::R2, 0x1234);

    // ST R2, #1
    let instruction = 0b0011_010_000000001;

    st(instruction, &reg, &mut mem);

    assert_eq!(mem.read(reg.get(Register::PC) + 1), 0x1234);
}

#[test]
fn test_st_negative_offset() {
    let (mut reg, mut mem) = setup();

    reg.set(Register::PC, 0x3005);
    reg.set(Register::R3, 0x5678);

    // ST R3, #-1
    let instruction = 0b0011_011_111111111;

    st(instruction, &reg, &mut mem);

    assert_eq!(mem.read(0x3004), 0x5678);
}

#[test]
fn test_sti_basic() {
    let (mut reg, mut mem) = setup();

    reg.set(Register::R2, 0x1234);

    mem.write(reg.get(Register::PC) + 1, 0x4000);

    // STI R2, #1
    let instruction = 0b1011_010_000000001;

    sti(instruction, &reg, &mut mem);

    assert_eq!(mem.read(0x4000), 0x1234);
}
