//! The terminal as the machine sees it: characters that have arrived and
//! wait to be read, and characters that the machine has written.
//!
//! The terminal holds no device. Whoever owns it feeds the characters that
//! the keyboard delivered and drains what the machine wrote.

use vstd::prelude::*;
use std::collections::VecDeque;

verus! {

/// What a terminal holds.
pub struct TerminalView {
    /// The characters that have arrived and were not read yet, oldest first.
    pub input: Seq<u8>,
    /// The characters written and not yet taken, oldest first.
    pub output: Seq<u8>,
}

impl TerminalView {
    /// The terminal with `text` written after what is there.
    pub open spec fn write(self, text: Seq<u8>) -> TerminalView {
        TerminalView { output: self.output + text, ..self }
    }

    /// The terminal with other characters waiting.
    pub open spec fn with_input(self, input: Seq<u8>) -> TerminalView {
        TerminalView { input, ..self }
    }
}

/// A terminal: a queue of arrived characters and a buffer of written ones.
pub struct Terminal {
    input: VecDeque<u8>,
    output: Vec<u8>,
}

impl View for Terminal {
    type V = TerminalView;

    closed spec fn view(&self) -> TerminalView {
        TerminalView { input: self.input@, output: self.output@ }
    }
}

impl Terminal {
    /// A terminal with nothing waiting and nothing written.
    pub fn new() -> (terminal: Terminal)
        ensures
            terminal@.input == Seq::<u8>::empty(),
            terminal@.output == Seq::<u8>::empty(),
    {
        Terminal { input: VecDeque::new(), output: Vec::new() }
    }

    /// Records that `byte` has arrived from the keyboard.
    pub fn feed(&mut self, byte: u8)
        ensures
            final(self)@ == old(self)@.with_input(old(self)@.input.push(byte)),
    {
        self.input.push_back(byte);
    }

    /// Whether a character waits to be read. Changes nothing.
    pub fn poll_ready(&self) -> (ready: bool)
        ensures
            ready == (self@.input.len() > 0),
    {
        self.input.len() > 0
    }

    /// Takes the oldest waiting character.
    pub fn read_byte(&mut self) -> (byte: u8)
        requires
            old(self)@.input.len() > 0,
        ensures
            byte == old(self)@.input[0],
            final(self)@ == old(self)@.with_input(old(self)@.input.drop_first()),
    {
        match self.input.pop_front() {
            Some(byte) => byte,
            None => 0,
        }
    }

    /// Writes one character.
    pub fn write_byte(&mut self, byte: u8)
        ensures
            final(self)@ == old(self)@.write(seq![byte]),
    {
        self.output.push(byte);
        assert(self.output@ =~= old(self).output@ + seq![byte]);
    }

    /// Writes the characters of `text`, in order.
    pub fn write_text(&mut self, text: &[u8])
        ensures
            final(self)@ == old(self)@.write(text@),
    {
        let mut index: usize = 0;
        while index < text.len()
            invariant
                index <= text@.len(),
                self.input@ == old(self).input@,
                self.output@ == old(self).output@ + text@.subrange(0, index as int),
            decreases text@.len() - index,
        {
            self.output.push(text[index]);
            index += 1;
            assert(self.output@ =~= old(self).output@ + text@.subrange(0, index as int));
        }
        assert(text@.subrange(0, index as int) =~= text@);
    }

    /// The characters written since the output was last taken.
    pub fn output(&self) -> (written: &Vec<u8>)
        ensures
            written@ == self@.output,
    {
        &self.output
    }

    /// Hands out the written characters and empties the output buffer.
    pub fn take_output(&mut self) -> (written: Vec<u8>)
        ensures
            written@ == old(self)@.output,
            final(self)@ == (TerminalView { input: old(self)@.input, output: Seq::<u8>::empty() }),
    {
        let mut written: Vec<u8> = Vec::new();
        std::mem::swap(&mut written, &mut self.output);
        written
    }
}

} // verus!
