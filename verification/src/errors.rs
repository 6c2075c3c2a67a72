//! The conditions that stop the machine.

use vstd::prelude::*;
use crate::machine::Fault;
use crate::opdcodes::Opcode;

verus! {

/// A failure of the console behind a trap routine, or a trap vector that
/// names no routine.
#[derive(Debug, PartialEq, Eq)]
pub enum TrapError {
    /// The console could not be read or written; the text says why.
    IOError(String),
    /// No trap routine has this vector.
    InvalidTrapVector(u16),
}

/// Everything that can go wrong while a program is loaded or run.
#[derive(Debug, PartialEq, Eq)]
pub enum VMError {
    /// An address outside the memory. The memory covers every 16-bit
    /// address, so no operation of this crate reports it.
    InvalidMemoryAccess(u16),
    /// A register number above 7.
    InvalidRegister,
    /// RTI or the reserved opcode was reached.
    UnimplementedOpcode(Opcode),
    /// A value that is no output byte, or a keyboard that gave no byte.
    InvalidCharacter,
    /// A trap routine failed.
    TrapError(TrapError),
    /// The object image is malformed.
    LoadFailed,
    /// The object file at this path could not be opened.
    OpenFileFailed(String),
}

/// What a trap routine says when it asks for a character and the input
/// has run out.
pub open spec fn input_ended_text() -> Seq<char> {
    "failed to fill whole buffer"@
}

/// Whether the error `error` is the one that reports `fault`.
pub open spec fn reports(error: VMError, fault: Fault) -> bool {
    match fault {
        Fault::KeyboardEmpty => error == VMError::InvalidCharacter,
        Fault::InputEnded => error matches VMError::TrapError(TrapError::IOError(text))
            && text@ == input_ended_text(),
        Fault::UnknownTrap(vector) => error == VMError::TrapError(
            TrapError::InvalidTrapVector(vector),
        ),
        Fault::Unimplemented(opcode) => error == VMError::UnimplementedOpcode(opcode),
    }
}

/// Whether `result` is what an instruction returns that stopped with
/// `fault`: success for no fault, else the error that reports the fault.
pub open spec fn agrees(result: Result<(), VMError>, fault: Option<Fault>) -> bool {
    match fault {
        None => result is Ok,
        Some(fault) => result is Err && reports(result->Err_0, fault),
    }
}

/// The error for a trap routine that found the input at its end.
pub fn input_ended() -> (error: VMError)
    ensures
        reports(error, Fault::InputEnded),
{
    VMError::TrapError(TrapError::IOError("failed to fill whole buffer".to_owned()))
}

} // verus!
