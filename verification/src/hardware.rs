//! A second, smaller machine: the registers, the program counter and the
//! condition flag live in one array, and the memory has no devices.

pub mod instructions;
pub mod lc3;
pub mod memory;
pub mod register;
