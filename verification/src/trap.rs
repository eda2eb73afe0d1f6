//! The trap routines: character input and output, string output, and halt.

use vstd::prelude::*;
use crate::decoder::Register;
use crate::engine::RunState;
use crate::memory::{
    read_from_memory, spec_read, BusView, MemoryBus, KEYBOARD_DATA, KEYBOARD_STATUS,
};
use crate::registers::{update_flags, RegisterFile, RegisterView};
use crate::terminal::{Terminal, TerminalView};

verus! {

/// `GETC`: read a character into R0 without echo.
pub const TRAP_GETC: u8 = 0x20;

/// `OUT`: write the character in the low byte of R0.
pub const TRAP_OUT: u8 = 0x21;

/// `PUTS`: write the string of one character per cell that starts at R0.
pub const TRAP_PUTS: u8 = 0x22;

/// `IN`: prompt, read a character into R0, and echo it.
pub const TRAP_IN: u8 = 0x23;

/// `PUTSP`: write the string of two characters per cell that starts at R0.
pub const TRAP_PUTSP: u8 = 0x24;

/// `HALT`: stop the machine.
pub const TRAP_HALT: u8 = 0x25;

/// The line feed that follows an echoed character.
pub const LINE_FEED: u8 = 10;

/// What `HALT` writes: the four characters `HALT`.
pub open spec fn halt_text() -> Seq<u8> {
    seq![72u8, 65u8, 76u8, 84u8]
}

/// What `IN` writes before it waits: `Enter a character: `.
pub open spec fn prompt_text() -> Seq<u8> {
    seq![
        69u8, 110u8, 116u8, 101u8, 114u8, 32u8, 97u8, 32u8, 99u8, 104u8, 97u8, 114u8, 97u8,
        99u8, 116u8, 101u8, 114u8, 58u8, 32u8,
    ]
}

/// The low byte of a word.
pub open spec fn spec_low_byte(word: u16) -> u8 {
    (word % 256) as u8
}

/// The high byte of a word.
pub open spec fn spec_high_byte(word: u16) -> u8 {
    (word / 256) as u8
}

/// The low byte of a word.
pub fn low_byte(word: u16) -> (byte: u8)
    ensures
        byte == spec_low_byte(word),
{
    assert(word & 0xFF == word % 256) by (bit_vector);
    (word & 0xFF) as u8
}

/// The high byte of a word.
pub fn high_byte(word: u16) -> (byte: u8)
    ensures
        byte == spec_high_byte(word),
{
    assert(word >> 8 == word / 256) by (bit_vector);
    (word >> 8) as u8
}

/// The address after `address`, with 0 after the last.
pub open spec fn next_address(address: u16) -> u16 {
    if address == 0xFFFF {
        0
    } else {
        (address + 1) as u16
    }
}

/// What a trap routine leaves behind.
pub struct TrapView {
    /// The bus after the routine.
    pub bus: BusView,
    /// The registers after the routine.
    pub registers: RegisterView,
    /// The terminal after the routine.
    pub terminal: TerminalView,
    /// The state in which the routine leaves the machine.
    pub state: RunState,
}

/// One attempt to take a character from the keyboard into R0.
///
/// The status register is read once. When it reports nothing, the machine
/// waits: nothing changes but the state, which remembers whether the
/// character is to be echoed. When it reports a character, the data register
/// is read into R0, the flag follows R0, the character and a line feed are
/// written if it is to be echoed, and the machine runs on.
pub open spec fn spec_key_wait(
    bus: BusView,
    registers: RegisterView,
    terminal: TerminalView,
    echo: bool,
) -> TrapView {
    let status = spec_read(bus, terminal, KEYBOARD_STATUS);
    if status.word == 0 {
        TrapView {
            bus: status.bus,
            registers,
            terminal: status.terminal,
            state: RunState::AwaitingKey { echo },
        }
    } else {
        let data = spec_read(status.bus, status.terminal, KEYBOARD_DATA);
        TrapView {
            bus: data.bus,
            registers: registers.produce(Register::R0, data.word),
            terminal: if echo {
                data.terminal.write(seq![spec_low_byte(data.word), LINE_FEED])
            } else {
                data.terminal
            },
            state: RunState::Running,
        }
    }
}

/// A bound on the reads that a string scan can still make from `address`.
///
/// A scan goes on only after a read that gives a word other than 0. Passing
/// the data register empties the latch, and passing the status register
/// then takes a waiting character to fill it again, so each round through
/// memory uses up a character. The measure counts 65536 reads for each
/// character at hand, and one for each cell up to the data register.
pub open spec fn scan_measure(bus: BusView, terminal: TerminalView, address: u16) -> int {
    let held: int = if bus.latch is Some || address == KEYBOARD_STATUS + 1 || address
        == KEYBOARD_DATA {
        1
    } else {
        0
    };
    let distance: int = if address <= KEYBOARD_DATA {
        KEYBOARD_DATA - address
    } else {
        KEYBOARD_DATA + 0x10000 - address
    };
    (terminal.input.len() + held) * 0x10000 + distance
}

/// What a string scan leaves behind.
pub struct ScanView {
    /// The bus after the scan.
    pub bus: BusView,
    /// The terminal after the scan, with the string written.
    pub terminal: TerminalView,
}

/// `PUTS` from `address` on: cell after cell is read through the bus until a
/// read gives 0; for each cell before that one, the low byte of what is
/// stored there is written. Addresses wrap from the last to the first.
pub open spec fn spec_put_words(bus: BusView, terminal: TerminalView, address: u16) -> ScanView
    decreases scan_measure(bus, terminal, address),
{
    let read = spec_read(bus, terminal, address);
    if read.word == 0 {
        ScanView { bus: read.bus, terminal: read.terminal }
    } else {
        spec_put_words(
            read.bus,
            read.terminal.write(seq![spec_low_byte(bus.cells[address as int])]),
            next_address(address),
        )
    }
}

/// `PUTSP` from `address` on: cell after cell is read through the bus until
/// a read gives 0; each cell before that one stores two characters, low byte
/// first, which are written up to the first of them that is 0, where the
/// string ends as well. Addresses wrap from the last to the first.
pub open spec fn spec_put_bytes(bus: BusView, terminal: TerminalView, address: u16) -> ScanView
    decreases scan_measure(bus, terminal, address),
{
    let read = spec_read(bus, terminal, address);
    let low = spec_low_byte(bus.cells[address as int]);
    let high = spec_high_byte(bus.cells[address as int]);
    if read.word == 0 || low == 0 {
        ScanView { bus: read.bus, terminal: read.terminal }
    } else if high == 0 {
        ScanView { bus: read.bus, terminal: read.terminal.write(seq![low]) }
    } else {
        spec_put_bytes(read.bus, read.terminal.write(seq![low, high]), next_address(address))
    }
}

/// What the routine numbered `vector` does. A number that names no routine
/// does nothing.
pub open spec fn spec_trap(
    bus: BusView,
    registers: RegisterView,
    terminal: TerminalView,
    vector: u8,
) -> TrapView {
    if vector == TRAP_GETC {
        spec_key_wait(bus, registers, terminal, false)
    } else if vector == TRAP_OUT {
        TrapView {
            bus,
            registers,
            terminal: terminal.write(seq![spec_low_byte(registers.get(Register::R0))]),
            state: RunState::Running,
        }
    } else if vector == TRAP_PUTS {
        let scan = spec_put_words(bus, terminal, registers.get(Register::R0));
        TrapView { bus: scan.bus, registers, terminal: scan.terminal, state: RunState::Running }
    } else if vector == TRAP_IN {
        spec_key_wait(bus, registers, terminal.write(prompt_text()), true)
    } else if vector == TRAP_PUTSP {
        let scan = spec_put_bytes(bus, terminal, registers.get(Register::R0));
        TrapView { bus: scan.bus, registers, terminal: scan.terminal, state: RunState::Running }
    } else if vector == TRAP_HALT {
        TrapView { bus, registers, terminal: terminal.write(halt_text()), state: RunState::Halted }
    } else {
        TrapView { bus, registers, terminal, state: RunState::Running }
    }
}

/// Tries once to take a character from the keyboard into R0, and says
/// whether the machine runs on or waits.
pub fn key_wait(
    memory: &mut MemoryBus,
    registers: &mut RegisterFile,
    terminal: &mut Terminal,
    echo: bool,
) -> (state: RunState)
    ensures
        (TrapView {
            bus: final(memory)@,
            registers: final(registers)@,
            terminal: final(terminal)@,
            state,
        }) == spec_key_wait(old(memory)@, old(registers)@, old(terminal)@, echo),
{
    let status: u16 = read_from_memory(memory, terminal, KEYBOARD_STATUS);
    if status == 0 {
        return RunState::AwaitingKey { echo };
    }
    let word: u16 = read_from_memory(memory, terminal, KEYBOARD_DATA);
    registers.set(Register::R0, word);
    update_flags(Register::R0, registers);
    if echo {
        let ghost before = terminal@;
        terminal.write_byte(low_byte(word));
        terminal.write_byte(LINE_FEED);
        assert(terminal@.output =~= before.output + seq![spec_low_byte(word), LINE_FEED]);
    }
    RunState::Running
}

/// Writes the string of one character per cell that starts at `start`.
pub fn put_words(memory: &mut MemoryBus, terminal: &mut Terminal, start: u16)
    ensures
        (ScanView { bus: final(memory)@, terminal: final(terminal)@ }) == spec_put_words(
            old(memory)@,
            old(terminal)@,
            start,
        ),
{
    let mut address: u16 = start;
    loop
        invariant_except_break
            spec_put_words(memory@, terminal@, address) == spec_put_words(
                old(memory)@,
                old(terminal)@,
                start,
            ),
        ensures
            (ScanView { bus: memory@, terminal: terminal@ }) == spec_put_words(
                old(memory)@,
                old(terminal)@,
                start,
            ),
        decreases scan_measure(memory@, terminal@, address),
    {
        let stored: u16 = memory.peek(address);
        let word: u16 = read_from_memory(memory, terminal, address);
        if word == 0 {
            break ;
        }
        terminal.write_byte(low_byte(stored));
        address = address.wrapping_add(1);
    }
}

/// Writes the string of two characters per cell that starts at `start`.
pub fn put_bytes(memory: &mut MemoryBus, terminal: &mut Terminal, start: u16)
    ensures
        (ScanView { bus: final(memory)@, terminal: final(terminal)@ }) == spec_put_bytes(
            old(memory)@,
            old(terminal)@,
            start,
        ),
{
    let mut address: u16 = start;
    loop
        invariant_except_break
            spec_put_bytes(memory@, terminal@, address) == spec_put_bytes(
                old(memory)@,
                old(terminal)@,
                start,
            ),
        ensures
            (ScanView { bus: memory@, terminal: terminal@ }) == spec_put_bytes(
                old(memory)@,
                old(terminal)@,
                start,
            ),
        decreases scan_measure(memory@, terminal@, address),
    {
        let stored: u16 = memory.peek(address);
        let word: u16 = read_from_memory(memory, terminal, address);
        let low: u8 = low_byte(stored);
        let high: u8 = high_byte(stored);
        if word == 0 || low == 0 {
            break ;
        }
        let ghost before = terminal@;
        terminal.write_byte(low);
        if high == 0 {
            break ;
        }
        terminal.write_byte(high);
        assert(terminal@.output =~= before.output + seq![low, high]);
        address = address.wrapping_add(1);
    }
}

/// Runs the trap routine numbered `vector` and says in which state it leaves
/// the machine.
pub fn dispatch_trap(
    memory: &mut MemoryBus,
    registers: &mut RegisterFile,
    terminal: &mut Terminal,
    vector: u8,
) -> (state: RunState)
    ensures
        (TrapView {
            bus: final(memory)@,
            registers: final(registers)@,
            terminal: final(terminal)@,
            state,
        }) == spec_trap(old(memory)@, old(registers)@, old(terminal)@, vector),
{
    if vector == TRAP_GETC {
        key_wait(memory, registers, terminal, false)
    } else if vector == TRAP_OUT {
        terminal.write_byte(low_byte(registers.get(Register::R0)));
        RunState::Running
    } else if vector == TRAP_PUTS {
        put_words(memory, terminal, registers.get(Register::R0));
        RunState::Running
    } else if vector == TRAP_IN {
        let prompt: [u8; 19] = [
            69, 110, 116, 101, 114, 32, 97, 32, 99, 104, 97, 114, 97, 99, 116, 101, 114, 58, 32,
        ];
        assert(prompt@ =~= prompt_text());
        terminal.write_text(prompt.as_slice());
        key_wait(memory, registers, terminal, true)
    } else if vector == TRAP_PUTSP {
        put_bytes(memory, terminal, registers.get(Register::R0));
        RunState::Running
    } else if vector == TRAP_HALT {
        let banner: [u8; 4] = [72, 65, 76, 84];
        assert(banner@ =~= halt_text());
        terminal.write_text(banner.as_slice());
        RunState::Halted
    } else {
        RunState::Running
    }
}

} // verus!
