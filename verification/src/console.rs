//! The console that the machine reads keys from and writes bytes to.
//!
//! The machine never touches a terminal itself. It takes its input from a
//! queue that the host fills and leaves its output in a buffer that the host
//! empties, so that a run is a function of the bytes it was given.

use vstd::prelude::*;
use std::collections::VecDeque;

verus! {

/// What a console holds: the bytes typed and not yet read, oldest first,
/// and the bytes written and not yet taken by the host.
pub struct ConsoleState {
    /// The bytes typed and not yet read, oldest first.
    pub input: Seq<u8>,
    /// The bytes written and not yet taken, oldest first.
    pub output: Seq<u8>,
}

/// The machine's input queue and output buffer.
pub struct Console {
    input: VecDeque<u8>,
    output: Vec<u8>,
}

impl View for Console {
    type V = ConsoleState;

    closed spec fn view(&self) -> ConsoleState {
        ConsoleState { input: self.input@, output: self.output@ }
    }
}

impl ConsoleState {
    /// The console after the machine has written `byte`.
    pub open spec fn put(self, byte: u8) -> ConsoleState {
        ConsoleState { input: self.input, output: self.output.push(byte) }
    }

    /// The console after the machine has written `bytes` in order.
    pub open spec fn put_all(self, bytes: Seq<u8>) -> ConsoleState {
        ConsoleState { input: self.input, output: self.output + bytes }
    }

    /// The console after the machine has read its oldest byte.
    pub open spec fn advance(self) -> ConsoleState
        recommends
            self.input.len() > 0,
    {
        ConsoleState { input: self.input.skip(1), output: self.output }
    }
}

impl Console {
    /// A console with nothing typed and nothing written.
    pub fn new() -> (console: Console)
        ensures
            console@.input == Seq::<u8>::empty(),
            console@.output == Seq::<u8>::empty(),
    {
        Console { input: VecDeque::new(), output: Vec::new() }
    }

    /// Queues one byte of input behind those already waiting.
    pub fn feed(&mut self, byte: u8)
        ensures
            final(self)@.input == old(self)@.input.push(byte),
            final(self)@.output == old(self)@.output,
    {
        self.input.push_back(byte);
    }

    /// The number of input bytes that wait to be read.
    pub fn pending(&self) -> (n: usize)
        ensures
            n == self@.input.len(),
    {
        self.input.len()
    }

    /// Takes the oldest input byte; `None` where none waits.
    pub fn read_byte(&mut self) -> (byte: Option<u8>)
        ensures
            old(self)@.input.len() == 0 ==> byte is None && final(self)@ == old(self)@,
            old(self)@.input.len() > 0 ==> byte == Some(old(self)@.input[0]) && final(self)@
                == old(self)@.advance(),
    {
        let byte = self.input.pop_front();
        proof {
            if old(self)@.input.len() > 0 {
                assert(self.input@ =~= old(self)@.input.skip(1));
            }
        }
        byte
    }

    /// Appends one byte to the output.
    pub fn write_byte(&mut self, byte: u8)
        ensures
            final(self)@ == old(self)@.put(byte),
    {
        self.output.push(byte);
    }

    /// Appends `bytes` to the output, in order.
    pub fn write_all(&mut self, bytes: &Vec<u8>)
        ensures
            final(self)@ == old(self)@.put_all(bytes@),
    {
        let mut i: usize = 0;
        while i < bytes.len()
            invariant
                i <= bytes.len(),
                self@.input == old(self)@.input,
                self@.output == old(self)@.output + bytes@.take(i as int),
            decreases bytes.len() - i,
        {
            self.output.push(bytes[i]);
            assert(bytes@.take(i as int).push(bytes@[i as int]) =~= bytes@.take(i + 1));
            assert(self.output@ =~= old(self)@.output + bytes@.take(i + 1));
            i = i + 1;
        }
        assert(bytes@.take(bytes.len() as int) =~= bytes@);
    }

    /// Hands the output written so far to the host and empties the buffer.
    pub fn take_output(&mut self) -> (bytes: Vec<u8>)
        ensures
            bytes@ == old(self)@.output,
            final(self)@.output == Seq::<u8>::empty(),
            final(self)@.input == old(self)@.input,
    {
        let mut bytes: Vec<u8> = Vec::new();
        std::mem::swap(&mut bytes, &mut self.output);
        bytes
    }
}

} // verus!
