//! The memory bus: 65536 cells of 16 bits, and two addresses behind which a
//! keyboard sits instead of storage.
//!
//! Reading the status register polls the terminal and latches a character
//! when one waits. Reading the data register hands that character out and
//! clears the latch. Every other read, and every write, is plain storage.

use vstd::prelude::*;
use crate::terminal::{Terminal, TerminalView};

verus! {

/// The number of addressable cells.
pub const MEMORY_SIZE: usize = 65536;

/// The address of the keyboard status register.
pub const KEYBOARD_STATUS: u16 = 0xFE00;

/// The address of the keyboard data register.
pub const KEYBOARD_DATA: u16 = 0xFE02;

/// The status word that reports a latched character: bit 15 alone.
pub const KEYBOARD_READY: u16 = 0x8000;

/// What a memory bus holds.
pub struct BusView {
    /// The stored cells, one for each address.
    pub cells: Seq<u16>,
    /// The character that was fetched from the terminal and not yet read
    /// through the data register, if there is one.
    pub latch: Option<u8>,
}

impl BusView {
    /// There is a cell for every 16-bit address.
    pub open spec fn wf(self) -> bool {
        self.cells.len() == MEMORY_SIZE
    }

    /// The bus with `value` stored at `address`.
    pub open spec fn store(self, address: u16, value: u16) -> BusView {
        BusView { cells: self.cells.update(address as int, value), ..self }
    }

    /// The bus at start: every cell zero, nothing latched.
    pub open spec fn zeroed() -> BusView {
        BusView { cells: Seq::new(MEMORY_SIZE as nat, |a: int| 0u16), latch: None }
    }
}

/// What a read gives and leaves behind.
pub struct ReadView {
    /// The word that was read.
    pub word: u16,
    /// The bus after the read.
    pub bus: BusView,
    /// The terminal after the read.
    pub terminal: TerminalView,
}

/// A read of the keyboard status register. With nothing latched and a
/// character waiting, the character moves from the terminal into the latch.
/// The word has bit 15 set when a character is latched after that, and is 0
/// when none is.
pub open spec fn spec_read_status(bus: BusView, terminal: TerminalView) -> ReadView {
    if bus.latch is None && terminal.input.len() > 0 {
        ReadView {
            word: KEYBOARD_READY,
            bus: BusView { latch: Some(terminal.input[0]), ..bus },
            terminal: terminal.with_input(terminal.input.drop_first()),
        }
    } else {
        ReadView { word: if bus.latch is Some { KEYBOARD_READY } else { 0 }, bus, terminal }
    }
}

/// A read of the keyboard data register: the latched character, or 0 when
/// none is latched; the latch is empty afterwards.
pub open spec fn spec_read_data(bus: BusView, terminal: TerminalView) -> ReadView {
    ReadView {
        word: match bus.latch {
            Some(byte) => byte as u16,
            None => 0,
        },
        bus: BusView { latch: None, ..bus },
        terminal,
    }
}

/// A read of `address` through the bus.
pub open spec fn spec_read(bus: BusView, terminal: TerminalView, address: u16) -> ReadView {
    if address == KEYBOARD_STATUS {
        spec_read_status(bus, terminal)
    } else if address == KEYBOARD_DATA {
        spec_read_data(bus, terminal)
    } else {
        ReadView { word: bus.cells[address as int], bus, terminal }
    }
}

/// The memory of the machine with its keyboard latch.
pub struct MemoryBus {
    cells: Vec<u16>,
    latch: Option<u8>,
}

impl View for MemoryBus {
    type V = BusView;

    closed spec fn view(&self) -> BusView {
        BusView { cells: self.cells@, latch: self.latch }
    }
}

impl MemoryBus {
    #[verifier::type_invariant]
    spec fn inv(self) -> bool {
        self.cells.len() == MEMORY_SIZE
    }

    /// A memory of zeros with nothing latched.
    pub fn new() -> (memory: MemoryBus)
        ensures
            memory@ == BusView::zeroed(),
            memory@.wf(),
    {
        let cells: Vec<u16> = vec![0u16; MEMORY_SIZE];
        let memory = MemoryBus { cells, latch: None };
        assert(memory@.cells =~= BusView::zeroed().cells);
        memory
    }

    /// The stored cell at `address`, without going through the keyboard.
    pub fn peek(&self, address: u16) -> (word: u16)
        ensures
            word == self@.cells[address as int],
            self@.wf(),
    {
        proof {
            use_type_invariant(self);
        }
        self.cells[address as usize]
    }

    /// The character in the keyboard latch, if one is there.
    pub fn latched(&self) -> (latch: Option<u8>)
        ensures
            latch == self@.latch,
    {
        self.latch
    }
}

/// Stores `value` at `address`. The keyboard registers get no special
/// treatment: a write to their addresses lands in the cells behind them.
pub fn write_to_memory(memory: &mut MemoryBus, address: u16, value: u16)
    ensures
        final(memory)@ == old(memory)@.store(address, value),
        final(memory)@.wf(),
{
    proof {
        use_type_invariant(&*memory);
    }
    memory.cells[address as usize] = value;
}

/// Reads `address` through the bus, with the keyboard behind its two
/// registers and storage behind every other address.
pub fn read_from_memory(memory: &mut MemoryBus, terminal: &mut Terminal, address: u16) -> (word:
    u16)
    ensures
        word == spec_read(old(memory)@, old(terminal)@, address).word,
        final(memory)@ == spec_read(old(memory)@, old(terminal)@, address).bus,
        final(terminal)@ == spec_read(old(memory)@, old(terminal)@, address).terminal,
        final(memory)@.wf(),
{
    proof {
        use_type_invariant(&*memory);
    }
    if address == KEYBOARD_STATUS {
        if memory.latch.is_none() && terminal.poll_ready() {
            let byte: u8 = terminal.read_byte();
            memory.latch = Some(byte);
        }
        if memory.latch.is_some() {
            KEYBOARD_READY
        } else {
            0
        }
    } else if address == KEYBOARD_DATA {
        let word: u16 = match memory.latch {
            Some(byte) => byte as u16,
            None => 0,
        };
        memory.latch = None;
        word
    } else {
        memory.cells[address as usize]
    }
}

} // verus!
