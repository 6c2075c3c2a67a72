//! A virtual machine for the LC-3, a 16-bit teaching computer with sixteen
//! opcodes, eight registers and 65536 words of memory.

pub mod console;
pub mod decode;
pub mod errors;
pub mod hardware;
pub mod machine;
pub mod memory;
pub mod opdcodes;
pub mod registers;
pub mod theorems;
pub mod vm;
