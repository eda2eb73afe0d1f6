//! Laws of the machine, proved over the models that the contracts use.

use vstd::prelude::*;
use crate::decoder::{field_operand, spec_decode, Instruction, Opcode, Operand, Register};
use crate::engine::{
    spec_wrapping_sum, operand_value, spec_execute, spec_run, spec_step, EngineView, Fault,
    RunState,
};
use crate::memory::{
    spec_read, BusView, ReadView, KEYBOARD_DATA, KEYBOARD_READY, KEYBOARD_STATUS,
};
use crate::registers::{ConditionFlag, RegisterView};
use crate::terminal::TerminalView;
use crate::trap::{
    next_address, scan_measure, spec_high_byte, spec_key_wait, spec_low_byte, spec_put_bytes,
    spec_put_words, spec_trap, ScanView, LINE_FEED, TRAP_HALT,
};

verus! {

/// The register that an instruction produces a value in, for the
/// instructions that produce one: `ADD`, `AND`, `NOT`, `LD`, `LDI`, `LDR`
/// and `LEA`.
pub open spec fn destination(instruction: Instruction) -> Option<Register> {
    match instruction {
        Instruction::Add { dest, .. } => Some(dest),
        Instruction::And { dest, .. } => Some(dest),
        Instruction::Not { dest, .. } => Some(dest),
        Instruction::Load { dest, .. } => Some(dest),
        Instruction::LoadIndirect { dest, .. } => Some(dest),
        Instruction::LoadRegister { dest, .. } => Some(dest),
        Instruction::LoadEffectiveAddress { dest, .. } => Some(dest),
        _ => None,
    }
}

/// After an instruction that produces a value, the flag describes the value
/// of the destination register: `Zero` for 0, `Negative` with bit 15 set,
/// `Positive` otherwise. The flag is one of the three, so exactly one of
/// its bits is set.
pub proof fn lemma_flag_follows_destination(
    engine: EngineView,
    terminal: TerminalView,
    instruction: Instruction,
)
    requires
        engine.registers.wf(),
        destination(instruction) is Some,
    ensures
        ({
            let after = spec_execute(engine, terminal, instruction).engine.registers;
            let value = after.get(destination(instruction)->0);
            &&& after.cond == ConditionFlag::spec_of(value)
            &&& value == 0 <==> after.cond.spec_bits() == 2
            &&& value >= 0x8000 <==> after.cond.spec_bits() == 4
            &&& 0 < value < 0x8000 <==> after.cond.spec_bits() == 1
        }),
{
}

/// The instructions that produce no value leave the flag as it was:
/// stores, jumps, calls and branches.
pub proof fn lemma_flag_kept(engine: EngineView, terminal: TerminalView, instruction: Instruction)
    requires
        destination(instruction) is None,
        !(instruction is Trap),
    ensures
        spec_execute(engine, terminal, instruction).engine.registers.cond
            == engine.registers.cond,
{
}

/// `AND` with a second operand of all ones gives the first operand.
pub proof fn lemma_and_all_ones(
    engine: EngineView,
    terminal: TerminalView,
    dest: Register,
    source: Register,
    operand: Operand,
)
    requires
        engine.registers.wf(),
        operand_value(engine.registers, operand) == 0xFFFF,
    ensures
        spec_execute(
            engine,
            terminal,
            Instruction::And { dest, source, operand },
        ).engine.registers.get(dest) == engine.registers.get(source),
{
    let value = engine.registers.get(source);
    assert(value & 0xFFFFu16 == value) by (bit_vector);
}

/// `AND` with a second operand of 0 gives 0 and the flag `Zero`.
pub proof fn lemma_and_zero(
    engine: EngineView,
    terminal: TerminalView,
    dest: Register,
    source: Register,
    operand: Operand,
)
    requires
        engine.registers.wf(),
        operand_value(engine.registers, operand) == 0,
    ensures
        ({
            let after = spec_execute(
                engine,
                terminal,
                Instruction::And { dest, source, operand },
            ).engine.registers;
            after.get(dest) == 0 && after.cond == ConditionFlag::Zero
        }),
{
    let value = engine.registers.get(source);
    assert(value & 0u16 == 0) by (bit_vector);
}

/// An immediate field of five ones is the operand of all ones, and one of
/// five zeros the operand 0.
pub proof fn lemma_immediate_extremes(word: u16)
    requires
        (word >> 5) & 1 == 1,
    ensures
        word & 0x1F == 0x1F ==> field_operand(word) == Operand::Immediate(0xFFFF),
        word & 0x1F == 0 ==> field_operand(word) == Operand::Immediate(0),
{
    assert((0x1Fu16 >> 4u16) & 1 == 1 && (0x1Fu16 | (0xFFFFu16 << 5u16)) == 0xFFFF)
        by (bit_vector);
    assert((0u16 >> 4u16) & 1 == 0) by (bit_vector);
}

/// `LEA` gives the address `PC + offset` itself. It reads nothing: bus and
/// terminal are as before, and what memory holds has no part in the result.
pub proof fn lemma_lea_reads_nothing(
    engine: EngineView,
    terminal: TerminalView,
    dest: Register,
    offset: u16,
    other: BusView,
)
    requires
        engine.registers.wf(),
    ensures
        ({
            let instruction = Instruction::LoadEffectiveAddress { dest, offset };
            let after = spec_execute(engine, terminal, instruction);
            let elsewhere = spec_execute(EngineView { bus: other, ..engine }, terminal, instruction);
            &&& after.engine.registers.get(dest) == spec_wrapping_sum(engine.registers.pc, offset)
            &&& after.engine.bus == engine.bus
            &&& after.terminal == terminal
            &&& elsewhere.engine.registers == after.engine.registers
        }),
{
}

/// A read of an address other than the two keyboard registers gives the
/// stored cell and changes nothing.
pub proof fn lemma_plain_read(bus: BusView, terminal: TerminalView, address: u16)
    requires
        address != KEYBOARD_STATUS,
        address != KEYBOARD_DATA,
    ensures
        spec_read(bus, terminal, address) == (ReadView {
            word: bus.cells[address as int],
            bus,
            terminal,
        }),
{
}

/// No read changes a cell or writes a character, and the characters that
/// wait only ever lose their first.
pub proof fn lemma_read_keeps_cells(bus: BusView, terminal: TerminalView, address: u16)
    ensures
        spec_read(bus, terminal, address).bus.cells == bus.cells,
        spec_read(bus, terminal, address).terminal.output == terminal.output,
        spec_read(bus, terminal, address).terminal.input == terminal.input || (
        terminal.input.len() > 0 && spec_read(bus, terminal, address).terminal.input
            == terminal.input.drop_first()),
{
}

/// A word stored at an address is the word that the cell then holds, also
/// behind the keyboard registers, and no other cell changes.
pub proof fn lemma_store_then_cell(bus: BusView, address: u16, value: u16, other: u16)
    requires
        bus.wf(),
    ensures
        bus.store(address, value).wf(),
        bus.store(address, value).cells[address as int] == value,
        other != address ==> bus.store(address, value).cells[other as int]
            == bus.cells[other as int],
        bus.store(address, value).latch == bus.latch,
{
}

/// The keyboard latch. With nothing latched and nothing waiting, the status
/// register reads 0 and nothing changes. With a character waiting, one read
/// of the status register latches it and reports it with bit 15; one read of
/// the data register then gives the character and empties the latch; a
/// second read of the data register gives 0.
pub proof fn lemma_keyboard_latch(bus: BusView, terminal: TerminalView)
    requires
        bus.latch is None,
    ensures
        terminal.input.len() == 0 ==> spec_read(bus, terminal, KEYBOARD_STATUS) == (ReadView {
            word: 0,
            bus,
            terminal,
        }),
        terminal.input.len() > 0 ==> ({
            let status = spec_read(bus, terminal, KEYBOARD_STATUS);
            let first = spec_read(status.bus, status.terminal, KEYBOARD_DATA);
            let second = spec_read(first.bus, first.terminal, KEYBOARD_DATA);
            &&& status.word == KEYBOARD_READY
            &&& status.bus.latch == Some(terminal.input[0])
            &&& status.terminal.input == terminal.input.drop_first()
            &&& first.word == terminal.input[0]
            &&& first.bus == bus
            &&& second.word == 0
            &&& second.bus == bus
            &&& second.terminal == status.terminal
        }),
{
}

/// A latched character stays latched over reads of the status register,
/// which take no further character from the terminal while it is there.
pub proof fn lemma_latch_holds_one(bus: BusView, terminal: TerminalView)
    requires
        bus.latch is Some,
    ensures
        spec_read(bus, terminal, KEYBOARD_STATUS) == (ReadView {
            word: KEYBOARD_READY,
            bus,
            terminal,
        }),
{
}

/// A step on a word whose opcode is `RTI` or the reserved one ends in a
/// fault that names the opcode. The fetch has happened, so the program
/// counter points behind the word; no other register, no cell and no
/// output has changed, and the machine has not halted.
pub proof fn lemma_unimplemented_opcode_faults(engine: EngineView, terminal: TerminalView)
    requires
        engine.state is Running,
        ({
            let opcode = Opcode::spec_of(spec_read(engine.bus, terminal, engine.registers.pc).word);
            opcode == Opcode::Rti || opcode == Opcode::Res
        }),
    ensures
        ({
            let fetch = spec_read(engine.bus, terminal, engine.registers.pc);
            let after = spec_step(engine, terminal);
            &&& after.result == Err::<(), Fault>(
                Fault::UnimplementedOpcode(Opcode::spec_of(fetch.word)),
            )
            &&& after.engine.registers == engine.registers.jump(
                spec_wrapping_sum(engine.registers.pc, 1),
            )
            &&& after.engine.bus.cells == engine.bus.cells
            &&& after.terminal.output == terminal.output
            &&& after.engine.state is Running
        }),
{
}

/// A step ends in a fault only on a word whose opcode is `RTI` or the
/// reserved one.
pub proof fn lemma_fault_only_on_unimplemented(engine: EngineView, terminal: TerminalView)
    requires
        spec_step(engine, terminal).result is Err,
    ensures
        engine.state is Running,
        ({
            let opcode = Opcode::spec_of(spec_read(engine.bus, terminal, engine.registers.pc).word);
            opcode == Opcode::Rti || opcode == Opcode::Res
        }),
{
}

/// Only the `HALT` trap halts a machine that was not halted.
pub proof fn lemma_halts_only_on_halt_trap(engine: EngineView, terminal: TerminalView)
    requires
        !(engine.state is Halted),
        spec_step(engine, terminal).engine.state is Halted,
    ensures
        engine.state is Running,
        spec_decode(spec_read(engine.bus, terminal, engine.registers.pc).word)
            == (Instruction::Trap { vector: TRAP_HALT }),
{
}

/// A halted machine stays halted: a step changes nothing.
pub proof fn lemma_halted_stays(engine: EngineView, terminal: TerminalView)
    requires
        engine.state is Halted,
    ensures
        spec_step(engine, terminal).engine == engine,
        spec_step(engine, terminal).terminal == terminal,
        spec_step(engine, terminal).result is Ok,
{
}

/// A machine waits only when there is no character for it: nothing is
/// latched and nothing waits in the terminal.
pub proof fn lemma_waits_only_without_input(engine: EngineView, terminal: TerminalView)
    requires
        spec_step(engine, terminal).engine.state is AwaitingKey,
    ensures
        spec_step(engine, terminal).engine.bus.latch is None,
        spec_step(engine, terminal).terminal.input.len() == 0,
{
}

/// The characters of a string of `length` cells that starts at `start`:
/// the low byte of each cell.
pub open spec fn word_string(cells: Seq<u16>, start: u16, length: nat) -> Seq<u8> {
    Seq::new(length, |i: int| spec_low_byte(cells[start + i]))
}

/// Whether the cells from `start` on hold a string of `length` cells and
/// its closing zero, clear of the keyboard registers and of the end of
/// memory.
pub open spec fn holds_word_string(cells: Seq<u16>, start: u16, length: nat) -> bool {
    &&& start + length <= 0xFFFF
    &&& start + length < KEYBOARD_STATUS || start > KEYBOARD_DATA
    &&& forall|address: int| start <= address < start + length ==> cells[address] != 0
    &&& cells[start + length] == 0
}

/// `PUTS` on a string in plain memory writes the low byte of each of its
/// cells, in order, stops at the closing zero, and changes nothing else.
pub proof fn lemma_put_words_plain(
    bus: BusView,
    terminal: TerminalView,
    start: u16,
    length: nat,
)
    requires
        holds_word_string(bus.cells, start, length),
    ensures
        spec_put_words(bus, terminal, start) == (ScanView {
            bus,
            terminal: terminal.write(word_string(bus.cells, start, length)),
        }),
    decreases length,
{
    lemma_plain_read(bus, terminal, start);
    if length == 0 {
        assert(terminal.output + word_string(bus.cells, start, length) =~= terminal.output);
    } else {
        assert(bus.cells[start as int] != 0);
        let written = terminal.write(seq![spec_low_byte(bus.cells[start as int])]);
        let next = next_address(start);
        let rest = (length - 1) as nat;
        assert(holds_word_string(bus.cells, next, rest));
        lemma_put_words_plain(bus, written, next, rest);
        assert(written.output + word_string(bus.cells, next, rest) =~= terminal.output
            + word_string(bus.cells, start, length));
    }
}

/// No string scan changes a cell, and none takes a character of what was
/// written away.
pub proof fn lemma_put_words_keeps_cells(bus: BusView, terminal: TerminalView, address: u16)
    ensures
        spec_put_words(bus, terminal, address).bus.cells == bus.cells,
        terminal.output.is_prefix_of(spec_put_words(bus, terminal, address).terminal.output),
    decreases scan_measure(bus, terminal, address),
{
    let read = spec_read(bus, terminal, address);
    if read.word != 0 {
        let written = read.terminal.write(seq![spec_low_byte(bus.cells[address as int])]);
        lemma_put_words_keeps_cells(read.bus, written, next_address(address));
    }
}

/// No packed string scan changes a cell, and none takes a character of
/// what was written away.
pub proof fn lemma_put_bytes_keeps_cells(bus: BusView, terminal: TerminalView, address: u16)
    ensures
        spec_put_bytes(bus, terminal, address).bus.cells == bus.cells,
        terminal.output.is_prefix_of(spec_put_bytes(bus, terminal, address).terminal.output),
    decreases scan_measure(bus, terminal, address),
{
    let read = spec_read(bus, terminal, address);
    let low = spec_low_byte(bus.cells[address as int]);
    let high = spec_high_byte(bus.cells[address as int]);
    if read.word != 0 && low != 0 && high != 0 {
        lemma_put_bytes_keeps_cells(
            read.bus,
            read.terminal.write(seq![low, high]),
            next_address(address),
        );
    }
}

/// A trap routine keeps the machine well formed and never takes back what
/// was written.
pub proof fn lemma_trap_keeps_shape(
    bus: BusView,
    registers: RegisterView,
    terminal: TerminalView,
    vector: u8,
)
    requires
        bus.wf(),
        registers.wf(),
    ensures
        spec_trap(bus, registers, terminal, vector).bus.wf(),
        spec_trap(bus, registers, terminal, vector).registers.wf(),
        terminal.output.is_prefix_of(spec_trap(bus, registers, terminal, vector).terminal.output),
{
    lemma_put_words_keeps_cells(bus, terminal, registers.get(Register::R0));
    lemma_put_bytes_keeps_cells(bus, terminal, registers.get(Register::R0));
}

/// An instruction keeps the machine well formed and never takes back what
/// was written.
pub proof fn lemma_execute_keeps_shape(
    engine: EngineView,
    terminal: TerminalView,
    instruction: Instruction,
)
    requires
        engine.bus.wf(),
        engine.registers.wf(),
    ensures
        spec_execute(engine, terminal, instruction).engine.bus.wf(),
        spec_execute(engine, terminal, instruction).engine.registers.wf(),
        terminal.output.is_prefix_of(spec_execute(engine, terminal, instruction).terminal.output),
{
    let pc = engine.registers.pc;
    match instruction {
        Instruction::Trap { vector } => {
            lemma_trap_keeps_shape(
                engine.bus,
                engine.registers.set(Register::R7, pc),
                terminal,
                vector,
            );
        },
        Instruction::Load { dest, offset } => {
            lemma_read_keeps_cells(engine.bus, terminal, spec_wrapping_sum(pc, offset));
        },
        Instruction::LoadRegister { dest, base, offset } => {
            lemma_read_keeps_cells(
                engine.bus,
                terminal,
                spec_wrapping_sum(engine.registers.get(base), offset),
            );
        },
        Instruction::LoadIndirect { dest, offset } => {
            let pointer = spec_read(engine.bus, terminal, spec_wrapping_sum(pc, offset));
            lemma_read_keeps_cells(engine.bus, terminal, spec_wrapping_sum(pc, offset));
            lemma_read_keeps_cells(pointer.bus, pointer.terminal, pointer.word);
        },
        Instruction::StoreIndirect { source, offset } => {
            lemma_read_keeps_cells(engine.bus, terminal, spec_wrapping_sum(pc, offset));
        },
        _ => {},
    }
}

/// A step keeps the machine well formed: there are still 65536 cells and
/// eight registers. It never takes back what was written.
pub proof fn lemma_step_keeps_shape(engine: EngineView, terminal: TerminalView)
    requires
        engine.bus.wf(),
        engine.registers.wf(),
    ensures
        spec_step(engine, terminal).engine.bus.wf(),
        spec_step(engine, terminal).engine.registers.wf(),
        terminal.output.is_prefix_of(spec_step(engine, terminal).terminal.output),
{
    if engine.state is Running {
        let fetch = spec_read(engine.bus, terminal, engine.registers.pc);
        lemma_execute_keeps_shape(
            EngineView {
                bus: fetch.bus,
                registers: engine.registers.jump(spec_wrapping_sum(engine.registers.pc, 1)),
                ..engine
            },
            fetch.terminal,
            spec_decode(fetch.word),
        );
    }
}

/// A run keeps the machine well formed and never takes back what was
/// written.
pub proof fn lemma_run_keeps_shape(engine: EngineView, terminal: TerminalView, budget: nat)
    requires
        engine.bus.wf(),
        engine.registers.wf(),
    ensures
        spec_run(engine, terminal, budget).engine.bus.wf(),
        spec_run(engine, terminal, budget).engine.registers.wf(),
        terminal.output.is_prefix_of(spec_run(engine, terminal, budget).terminal.output),
    decreases budget,
{
    if budget > 0 && !(engine.state is Halted) {
        let step = spec_step(engine, terminal);
        lemma_step_keeps_shape(engine, terminal);
        if step.result is Ok && step.engine.state is Running {
            lemma_run_keeps_shape(step.engine, step.terminal, (budget - 1) as nat);
        }
    }
}

/// The characters of a packed string of `length` cells that starts at
/// `start`: of each cell the low byte, then the high byte.
pub open spec fn byte_string(cells: Seq<u16>, start: u16, length: nat) -> Seq<u8> {
    Seq::new(
        2 * length,
        |i: int|
            if i % 2 == 0 {
                spec_low_byte(cells[start + i / 2])
            } else {
                spec_high_byte(cells[start + i / 2])
            },
    )
}

/// What the cell that ends a packed string still contributes: its low byte
/// when only its high byte is 0, nothing when its low byte is 0.
pub open spec fn closing_bytes(cell: u16) -> Seq<u8> {
    if spec_low_byte(cell) == 0 {
        Seq::empty()
    } else {
        seq![spec_low_byte(cell)]
    }
}

/// Whether the cells from `start` on hold a packed string of `length` full
/// cells and a closing cell with a zero byte, clear of the keyboard
/// registers and of the end of memory.
pub open spec fn holds_byte_string(cells: Seq<u16>, start: u16, length: nat) -> bool {
    &&& start + length <= 0xFFFF
    &&& start + length < KEYBOARD_STATUS || start > KEYBOARD_DATA
    &&& forall|address: int|
        start <= address < start + length ==> spec_low_byte(#[trigger] cells[address]) != 0
            && spec_high_byte(cells[address]) != 0
    &&& spec_low_byte(cells[start + length]) == 0 || spec_high_byte(cells[start + length]) == 0
}

/// `PUTSP` on a packed string in plain memory writes both bytes of each
/// full cell, low byte first, then what the closing cell holds before its
/// first zero byte, and changes nothing else.
pub proof fn lemma_put_bytes_plain(
    bus: BusView,
    terminal: TerminalView,
    start: u16,
    length: nat,
)
    requires
        holds_byte_string(bus.cells, start, length),
    ensures
        spec_put_bytes(bus, terminal, start) == (ScanView {
            bus,
            terminal: terminal.write(
                byte_string(bus.cells, start, length) + closing_bytes(
                    bus.cells[start + length],
                ),
            ),
        }),
    decreases length,
{
    lemma_plain_read(bus, terminal, start);
    let cell = bus.cells[start as int];
    assert(cell == 0 ==> spec_low_byte(cell) == 0);
    if length == 0 {
        assert(terminal.output + (byte_string(bus.cells, start, length) + closing_bytes(cell))
            =~= terminal.output + closing_bytes(cell));
        assert(terminal.output + Seq::<u8>::empty() =~= terminal.output);
    } else {
        let low = spec_low_byte(cell);
        let high = spec_high_byte(cell);
        let written = terminal.write(seq![low, high]);
        let next = next_address(start);
        let rest = (length - 1) as nat;
        assert(holds_byte_string(bus.cells, next, rest));
        lemma_put_bytes_plain(bus, written, next, rest);
        let closing = closing_bytes(bus.cells[start + length]);
        assert(seq![low, high] + byte_string(bus.cells, next, rest) =~= byte_string(
            bus.cells,
            start,
            length,
        )) by {
            let left = seq![low, high] + byte_string(bus.cells, next, rest);
            let right = byte_string(bus.cells, start, length);
            assert(left.len() == right.len());
            assert forall|i: int| 0 <= i < left.len() implies left[i] == right[i] by {
                if i >= 2 {
                    assert((i - 2) % 2 == i % 2);
                    assert(next + (i - 2) / 2 == start + i / 2);
                }
            }
        }
        assert(written.output + (byte_string(bus.cells, next, rest) + closing) =~= terminal.output
            + (byte_string(bus.cells, start, length) + closing));
    }
}

/// After an input trap has taken a character, R0 holds it, zero-extended,
/// and the flag describes it.
pub proof fn lemma_key_lands_in_r0(
    bus: BusView,
    registers: RegisterView,
    terminal: TerminalView,
    echo: bool,
)
    requires
        registers.wf(),
        bus.latch is Some || terminal.input.len() > 0,
    ensures
        ({
            let key: u8 = if bus.latch is Some {
                bus.latch->0
            } else {
                terminal.input[0]
            };
            let after = spec_key_wait(bus, registers, terminal, echo);
            &&& after.state is Running
            &&& after.bus.latch is None
            &&& after.registers.get(Register::R0) == key
            &&& after.registers.cond == ConditionFlag::spec_of(key as u16)
            &&& after.terminal.output == if echo {
                terminal.output + seq![key, LINE_FEED]
            } else {
                terminal.output
            }
        }),
{
}

/// A run says in which state it left the machine.
pub proof fn lemma_run_reports_state(engine: EngineView, terminal: TerminalView, budget: nat)
    ensures
        spec_run(engine, terminal, budget).result matches Ok(state) ==> state == spec_run(
            engine,
            terminal,
            budget,
        ).engine.state,
    decreases budget,
{
    if budget > 0 && !(engine.state is Halted) {
        let step = spec_step(engine, terminal);
        if step.result is Ok && step.engine.state is Running {
            lemma_run_reports_state(step.engine, step.terminal, (budget - 1) as nat);
        }
    }
}

/// A run can be made in parts: where a first run of `first` steps ends
/// with the machine still running, a second run of `second` steps from
/// there ends in what one run of `first + second` steps ends in; where it
/// ends otherwise, the longer run ends in the same.
pub proof fn lemma_run_in_parts(
    engine: EngineView,
    terminal: TerminalView,
    first: nat,
    second: nat,
)
    requires
        first > 0 || !(engine.state is AwaitingKey),
    ensures
        spec_run(engine, terminal, first + second) == ({
            let part = spec_run(engine, terminal, first);
            if part.result == Ok::<RunState, Fault>(RunState::Running) {
                spec_run(part.engine, part.terminal, second)
            } else {
                part
            }
        }),
    decreases first,
{
    if first > 0 && !(engine.state is Halted) {
        let step = spec_step(engine, terminal);
        if step.result is Ok && step.engine.state is Running {
            lemma_run_in_parts(step.engine, step.terminal, (first - 1) as nat, second);
            assert((first + second - 1) as nat == (first - 1) as nat + second);
        }
    }
}

} // verus!
