use lc3_vm::decoder::Register;
use lc3_vm::engine::{run_program, ExecutionEngine, RunState};
use lc3_vm::memory::{write_to_memory, MemoryBus};
use lc3_vm::registers::{initialize_registers, ConditionFlag};
use lc3_vm::terminal::Terminal;
use lc3_vm::trap::{dispatch_trap, high_byte, low_byte};

fn engine_at(origin: u16, cells: &[(u16, u16)], r0: u16) -> ExecutionEngine {
    let mut memory = MemoryBus::new();
    for (address, word) in cells {
        write_to_memory(&mut memory, *address, *word);
    }
    let mut registers = initialize_registers(origin);
    registers.set(Register::R0, r0);
    ExecutionEngine::new(memory, registers)
}

#[test]
fn puts_writes_hi_and_stops_at_zero() {
    let mut engine = engine_at(
        0x3000,
        &[(0x3000, 0xF022), (0x4000, 0x0048), (0x4001, 0x0049), (0x4002, 0x0000), (0x4003, 0x004A)],
        0x4000,
    );
    let mut terminal = Terminal::new();
    assert_eq!(engine.step(&mut terminal), Ok(()));
    assert_eq!(terminal.output().as_slice(), b"HI");
    assert_eq!(engine.registers().get(Register::R0), 0x4000);
    assert_eq!(engine.registers().get(Register::R7), 0x3001);
    assert_eq!(engine.registers().condition(), ConditionFlag::Zero);
    assert_eq!(engine.state(), RunState::Running);
}

#[test]
fn puts_takes_the_low_byte_of_each_cell() {
    let mut engine = engine_at(0x3000, &[(0x3000, 0xF022), (0x4000, 0x1248), (0x4001, 0xFF49)], 0x4000);
    let mut terminal = Terminal::new();
    assert_eq!(engine.step(&mut terminal), Ok(()));
    assert_eq!(terminal.output().as_slice(), b"HI");
}

#[test]
fn puts_of_an_empty_string_writes_nothing() {
    let mut engine = engine_at(0x3000, &[(0x3000, 0xF022)], 0x4000);
    let mut terminal = Terminal::new();
    terminal.write_byte(b'>');
    assert_eq!(engine.step(&mut terminal), Ok(()));
    assert_eq!(terminal.output().as_slice(), b">");
}

#[test]
fn puts_wraps_past_the_last_cell() {
    let mut engine = engine_at(0x3000, &[(0x3000, 0xF022), (0xFFFF, 0x0041), (0x0000, 0x0042)], 0xFFFF);
    let mut terminal = Terminal::new();
    assert_eq!(engine.step(&mut terminal), Ok(()));
    assert_eq!(terminal.output().as_slice(), b"AB");
}

#[test]
fn puts_ends_at_an_idle_status_register() {
    let mut engine = engine_at(0x3000, &[(0x3000, 0xF022), (0xFDFF, 0x0041), (0xFE00, 0x0042)], 0xFDFF);
    let mut terminal = Terminal::new();
    assert_eq!(engine.step(&mut terminal), Ok(()));
    assert_eq!(terminal.output().as_slice(), b"A");
}

#[test]
fn puts_across_the_keyboard_registers() {
    let mut engine = engine_at(
        0x3000,
        &[(0x3000, 0xF022), (0xFDFF, 0x0041), (0xFE00, 0x0042), (0xFE01, 0x0043), (0xFE02, 0x0044)],
        0xFDFF,
    );
    let mut terminal = Terminal::new();
    terminal.feed(b'k');
    assert_eq!(engine.step(&mut terminal), Ok(()));
    assert_eq!(terminal.output().as_slice(), b"ABCD");
    assert_eq!(engine.memory().latched(), None);
    assert!(!terminal.poll_ready());
}

#[test]
fn putsp_unpacks_two_characters_per_cell() {
    let mut engine = engine_at(
        0x3000,
        &[(0x3000, 0xF024), (0x4000, 0x4948), (0x4001, 0x2120), (0x4002, 0x0000), (0x4003, 0x4141)],
        0x4000,
    );
    let mut terminal = Terminal::new();
    assert_eq!(engine.step(&mut terminal), Ok(()));
    assert_eq!(terminal.output().as_slice(), b"HI !");
    assert_eq!(engine.registers().get(Register::R7), 0x3001);
}

#[test]
fn putsp_stops_at_a_zero_high_byte() {
    let mut engine = engine_at(
        0x3000,
        &[(0x3000, 0xF024), (0x4000, 0x4948), (0x4001, 0x0021), (0x4002, 0x4242)],
        0x4000,
    );
    let mut terminal = Terminal::new();
    assert_eq!(engine.step(&mut terminal), Ok(()));
    assert_eq!(terminal.output().as_slice(), b"HI!");
}

#[test]
fn putsp_stops_at_a_zero_low_byte() {
    let mut engine = engine_at(
        0x3000,
        &[(0x3000, 0xF024), (0x4000, 0x4948), (0x4001, 0x4100), (0x4002, 0x4242)],
        0x4000,
    );
    let mut terminal = Terminal::new();
    assert_eq!(engine.step(&mut terminal), Ok(()));
    assert_eq!(terminal.output().as_slice(), b"HI");
}

#[test]
fn out_writes_the_low_byte_of_r0() {
    let mut engine = engine_at(0x3000, &[(0x3000, 0xF021)], 0x1241);
    let mut terminal = Terminal::new();
    assert_eq!(engine.step(&mut terminal), Ok(()));
    assert_eq!(terminal.output().as_slice(), b"A");
    assert_eq!(engine.registers().get(Register::R0), 0x1241);
    assert_eq!(engine.registers().get(Register::R7), 0x3001);
}

#[test]
fn halt_writes_its_banner_and_halts() {
    let mut engine = engine_at(0x3000, &[(0x3000, 0xF025)], 0);
    let mut terminal = Terminal::new();
    assert_eq!(engine.step(&mut terminal), Ok(()));
    assert_eq!(terminal.output().as_slice(), b"HALT");
    assert_eq!(engine.state(), RunState::Halted);
}

#[test]
fn unknown_trap_vector_does_nothing() {
    let mut engine = engine_at(0x3000, &[(0x3000, 0xF0FF), (0x3001, 0xF000), (0x3002, 0xF026)], 0x55);
    let mut terminal = Terminal::new();
    terminal.feed(b'k');
    assert_eq!(engine.step(&mut terminal), Ok(()));
    assert_eq!(engine.registers().get(Register::R7), 0x3001);
    assert_eq!(engine.step(&mut terminal), Ok(()));
    assert_eq!(engine.step(&mut terminal), Ok(()));
    assert_eq!(engine.registers().get(Register::R7), 0x3003);
    assert_eq!(engine.registers().get(Register::R0), 0x55);
    assert_eq!(engine.registers().pc(), 0x3003);
    assert_eq!(engine.state(), RunState::Running);
    assert!(terminal.output().is_empty());
    assert!(terminal.poll_ready());
}

#[test]
fn getc_reads_a_waiting_character_without_echo() {
    let mut engine = engine_at(0x3000, &[(0x3000, 0xF020)], 0xFFFF);
    let mut terminal = Terminal::new();
    terminal.feed(b'x');
    assert_eq!(engine.step(&mut terminal), Ok(()));
    assert_eq!(engine.registers().get(Register::R0), 0x0078);
    assert_eq!(engine.registers().condition(), ConditionFlag::Positive);
    assert_eq!(engine.state(), RunState::Running);
    assert!(terminal.output().is_empty());
    assert_eq!(engine.memory().latched(), None);
    assert_eq!(engine.registers().pc(), 0x3001);
}

#[test]
fn getc_waits_until_a_character_arrives() {
    let mut engine = engine_at(0x3000, &[(0x3000, 0xF020), (0x3001, 0x1021)], 0xFFFF);
    let mut terminal = Terminal::new();
    assert_eq!(engine.step(&mut terminal), Ok(()));
    assert_eq!(engine.state(), RunState::AwaitingKey { echo: false });
    assert_eq!(engine.registers().get(Register::R0), 0xFFFF);
    assert_eq!(engine.registers().get(Register::R7), 0x3001);
    assert_eq!(engine.registers().pc(), 0x3001);
    assert_eq!(engine.step(&mut terminal), Ok(()));
    assert_eq!(engine.state(), RunState::AwaitingKey { echo: false });
    assert_eq!(engine.registers().pc(), 0x3001);
    assert_eq!(run_program(&mut engine, &mut terminal, 50), Ok(RunState::AwaitingKey { echo: false }));
    terminal.feed(0);
    assert_eq!(engine.step(&mut terminal), Ok(()));
    assert_eq!(engine.state(), RunState::Running);
    assert_eq!(engine.registers().get(Register::R0), 0);
    assert_eq!(engine.registers().condition(), ConditionFlag::Zero);
    assert_eq!(engine.registers().pc(), 0x3001);
    assert_eq!(engine.step(&mut terminal), Ok(()));
    assert_eq!(engine.registers().get(Register::R0), 1);
}

#[test]
fn getc_takes_a_character_that_is_already_latched() {
    let mut engine =
        engine_at(0x3000, &[(0x3000, 0xA201), (0x3001, 0xF020), (0x3002, 0xFE00)], 0);
    let mut terminal = Terminal::new();
    terminal.feed(b'a');
    terminal.feed(b'b');
    assert_eq!(engine.step(&mut terminal), Ok(()));
    assert_eq!(engine.registers().get(Register::R1), 0x8000);
    assert_eq!(engine.memory().latched(), Some(b'a'));
    assert_eq!(engine.step(&mut terminal), Ok(()));
    assert_eq!(engine.registers().get(Register::R0), b'a' as u16);
    assert_eq!(engine.memory().latched(), None);
    assert!(terminal.poll_ready());
    assert_eq!(engine.state(), RunState::Running);
}

#[test]
fn in_prompts_reads_and_echoes() {
    let mut engine = engine_at(0x3000, &[(0x3000, 0xF023)], 0);
    let mut terminal = Terminal::new();
    terminal.feed(b'y');
    assert_eq!(engine.step(&mut terminal), Ok(()));
    assert_eq!(terminal.output().as_slice(), b"Enter a character: y\n");
    assert_eq!(engine.registers().get(Register::R0), b'y' as u16);
    assert_eq!(engine.registers().condition(), ConditionFlag::Positive);
    assert_eq!(engine.state(), RunState::Running);
}

#[test]
fn in_prompts_once_while_it_waits() {
    let mut engine = engine_at(0x3000, &[(0x3000, 0xF023), (0x3001, 0xF025)], 0);
    let mut terminal = Terminal::new();
    assert_eq!(run_program(&mut engine, &mut terminal, 10), Ok(RunState::AwaitingKey { echo: true }));
    assert_eq!(terminal.output().as_slice(), b"Enter a character: ");
    assert_eq!(run_program(&mut engine, &mut terminal, 10), Ok(RunState::AwaitingKey { echo: true }));
    assert_eq!(terminal.take_output(), b"Enter a character: ".to_vec());
    terminal.feed(0xE9);
    assert_eq!(run_program(&mut engine, &mut terminal, 10), Ok(RunState::Halted));
    assert_eq!(terminal.output().as_slice(), &[0xE9, b'\n', b'H', b'A', b'L', b'T']);
    assert_eq!(engine.registers().get(Register::R0), 0x00E9);
}

#[test]
fn dispatch_runs_a_routine_on_the_parts() {
    let mut memory = MemoryBus::new();
    write_to_memory(&mut memory, 0x5000, 0x006F);
    write_to_memory(&mut memory, 0x5001, 0x006B);
    let mut registers = initialize_registers(0x3000);
    registers.set(Register::R0, 0x5000);
    let mut terminal = Terminal::new();
    assert_eq!(dispatch_trap(&mut memory, &mut registers, &mut terminal, 0x22), RunState::Running);
    assert_eq!(terminal.output().as_slice(), b"ok");
    assert_eq!(dispatch_trap(&mut memory, &mut registers, &mut terminal, 0x25), RunState::Halted);
    assert_eq!(dispatch_trap(&mut memory, &mut registers, &mut terminal, 0x20), RunState::AwaitingKey { echo: false });
    assert_eq!(dispatch_trap(&mut memory, &mut registers, &mut terminal, 0x00), RunState::Running);
}

#[test]
fn bytes_of_a_word() {
    assert_eq!(low_byte(0x1234), 0x34);
    assert_eq!(high_byte(0x1234), 0x12);
    assert_eq!(low_byte(0xFF00), 0);
    assert_eq!(high_byte(0x00FF), 0);
}

#[test]
fn echo_program_runs_to_halt() {
    let program: [(u16, u16); 4] = [(0x3000, 0xF020), (0x3001, 0xF021), (0x3002, 0xF021), (0x3003, 0xF025)];
    let mut engine = engine_at(0x3000, &program, 0);
    let mut terminal = Terminal::new();
    assert_eq!(run_program(&mut engine, &mut terminal, 1000), Ok(RunState::AwaitingKey { echo: false }));
    terminal.feed(b'!');
    assert_eq!(run_program(&mut engine, &mut terminal, 1000), Ok(RunState::Halted));
    assert_eq!(terminal.output().as_slice(), b"!!HALT");
}
