//! The execution engine: fetch, decode, execute.
//!
//! A step reads the word at the program counter through the bus, moves the
//! counter on by one, decodes the word and carries the instruction out. All
//! address arithmetic wraps at 2^16.

use vstd::prelude::*;
use crate::decoder::{decode, spec_decode, Instruction, Opcode, Operand, Register};
use crate::memory::{read_from_memory, spec_read, write_to_memory, BusView, MemoryBus};
use crate::registers::{update_flags, RegisterFile, RegisterView};
use crate::terminal::{Terminal, TerminalView};
use crate::trap::{dispatch_trap, key_wait, spec_key_wait, spec_trap};

verus! {

/// Whether the machine runs.
#[derive(Clone, Copy, Debug, PartialEq, Eq, Structural)]
pub enum RunState {
    /// The next step fetches an instruction.
    Running,
    /// An input trap waits for a character; `echo` tells whether the
    /// character is written back once it has come.
    AwaitingKey { echo: bool },
    /// The machine has halted and does nothing more.
    Halted,
}

/// Why the machine cannot carry an instruction out.
#[derive(Clone, Copy, Debug, PartialEq, Eq, Structural)]
pub enum Fault {
    /// The word that was fetched has an opcode that is not implemented:
    /// `Rti` or `Res`.
    UnimplementedOpcode(Opcode),
}

/// What an engine holds.
pub struct EngineView {
    /// The memory bus.
    pub bus: BusView,
    /// The register file.
    pub registers: RegisterView,
    /// Whether the machine runs.
    pub state: RunState,
}

/// What a step leaves behind.
pub struct StepView {
    /// The engine after the step.
    pub engine: EngineView,
    /// The terminal after the step.
    pub terminal: TerminalView,
    /// Whether the step was carried out.
    pub result: Result<(), Fault>,
}

/// The sum of two words, wrapping at 2^16. Addresses and `ADD` use it alike.
pub open spec fn spec_wrapping_sum(left: u16, right: u16) -> u16 {
    ((left + right) % 0x10000) as u16
}

/// The sum of two words, wrapping at 2^16.
pub fn wrapping_sum(left: u16, right: u16) -> (sum: u16)
    ensures
        sum == spec_wrapping_sum(left, right),
{
    left.wrapping_add(right)
}

/// The value of the second operand of `ADD` and `AND`.
pub open spec fn operand_value(registers: RegisterView, operand: Operand) -> u16 {
    match operand {
        Operand::Register(register) => registers.get(register),
        Operand::Immediate(value) => value,
    }
}

/// The engine and terminal after a load: the word read at `address` is in
/// `dest`, the flag follows it, and the read has had its effect on the
/// keyboard.
pub open spec fn spec_load_from(
    engine: EngineView,
    terminal: TerminalView,
    dest: Register,
    address: u16,
) -> StepView {
    let read = spec_read(engine.bus, terminal, address);
    StepView {
        engine: EngineView {
            bus: read.bus,
            registers: engine.registers.produce(dest, read.word),
            ..engine
        },
        terminal: read.terminal,
        result: Ok(()),
    }
}

/// The engine after a store of the value of `source` at `address`.
pub open spec fn spec_store_to(
    engine: EngineView,
    terminal: TerminalView,
    source: Register,
    address: u16,
) -> StepView {
    StepView {
        engine: EngineView {
            bus: engine.bus.store(address, engine.registers.get(source)),
            ..engine
        },
        terminal,
        result: Ok(()),
    }
}

/// The engine with other registers; bus and state as they were.
pub open spec fn spec_with_registers(
    engine: EngineView,
    terminal: TerminalView,
    registers: RegisterView,
) -> StepView {
    StepView { engine: EngineView { registers, ..engine }, terminal, result: Ok(()) }
}

/// What `instruction` does to a running engine whose program counter
/// already points behind it.
pub open spec fn spec_execute(
    engine: EngineView,
    terminal: TerminalView,
    instruction: Instruction,
) -> StepView {
    let registers = engine.registers;
    let pc = registers.pc;
    match instruction {
        Instruction::Branch { mask, offset } => spec_with_registers(
            engine,
            terminal,
            if mask & registers.cond.spec_bits() != 0 {
                registers.jump(spec_wrapping_sum(pc, offset))
            } else {
                registers
            },
        ),
        Instruction::Add { dest, source, operand } => spec_with_registers(
            engine,
            terminal,
            registers.produce(
                dest,
                spec_wrapping_sum(registers.get(source), operand_value(registers, operand)),
            ),
        ),
        Instruction::Load { dest, offset } => spec_load_from(
            engine,
            terminal,
            dest,
            spec_wrapping_sum(pc, offset),
        ),
        Instruction::Store { source, offset } => spec_store_to(
            engine,
            terminal,
            source,
            spec_wrapping_sum(pc, offset),
        ),
        Instruction::JumpSubroutine { offset } => spec_with_registers(
            engine,
            terminal,
            registers.set(Register::R7, pc).jump(spec_wrapping_sum(pc, offset)),
        ),
        Instruction::JumpSubroutineRegister { base } => spec_with_registers(
            engine,
            terminal,
            registers.set(Register::R7, pc).jump(registers.set(Register::R7, pc).get(base)),
        ),
        Instruction::And { dest, source, operand } => spec_with_registers(
            engine,
            terminal,
            registers.produce(dest, registers.get(source) & operand_value(registers, operand)),
        ),
        Instruction::LoadRegister { dest, base, offset } => spec_load_from(
            engine,
            terminal,
            dest,
            spec_wrapping_sum(registers.get(base), offset),
        ),
        Instruction::StoreRegister { source, base, offset } => spec_store_to(
            engine,
            terminal,
            source,
            spec_wrapping_sum(registers.get(base), offset),
        ),
        Instruction::ReturnFromInterrupt => StepView {
            engine,
            terminal,
            result: Err(Fault::UnimplementedOpcode(Opcode::Rti)),
        },
        Instruction::Not { dest, source } => spec_with_registers(
            engine,
            terminal,
            registers.produce(dest, !registers.get(source)),
        ),
        Instruction::LoadIndirect { dest, offset } => {
            let pointer = spec_read(engine.bus, terminal, spec_wrapping_sum(pc, offset));
            spec_load_from(
                EngineView { bus: pointer.bus, ..engine },
                pointer.terminal,
                dest,
                pointer.word,
            )
        },
        Instruction::StoreIndirect { source, offset } => {
            let pointer = spec_read(engine.bus, terminal, spec_wrapping_sum(pc, offset));
            spec_store_to(
                EngineView { bus: pointer.bus, ..engine },
                pointer.terminal,
                source,
                pointer.word,
            )
        },
        Instruction::Jump { base } => spec_with_registers(
            engine,
            terminal,
            registers.jump(registers.get(base)),
        ),
        Instruction::Reserved => StepView {
            engine,
            terminal,
            result: Err(Fault::UnimplementedOpcode(Opcode::Res)),
        },
        Instruction::LoadEffectiveAddress { dest, offset } => spec_with_registers(
            engine,
            terminal,
            registers.produce(dest, spec_wrapping_sum(pc, offset)),
        ),
        Instruction::Trap { vector } => {
            let trap = spec_trap(engine.bus, registers.set(Register::R7, pc), terminal, vector);
            StepView {
                engine: EngineView {
                    bus: trap.bus,
                    registers: trap.registers,
                    state: trap.state,
                },
                terminal: trap.terminal,
                result: Ok(()),
            }
        },
    }
}

/// One step of the machine.
///
/// A halted machine stays as it is. A machine that waits for a character
/// tries once more to take it. A running machine reads the word at the
/// program counter through the bus, moves the counter on by one, and
/// carries out the instruction that the word encodes.
pub open spec fn spec_step(engine: EngineView, terminal: TerminalView) -> StepView {
    match engine.state {
        RunState::Halted => StepView { engine, terminal, result: Ok(()) },
        RunState::AwaitingKey { echo } => {
            let trap = spec_key_wait(engine.bus, engine.registers, terminal, echo);
            StepView {
                engine: EngineView {
                    bus: trap.bus,
                    registers: trap.registers,
                    state: trap.state,
                },
                terminal: trap.terminal,
                result: Ok(()),
            }
        },
        RunState::Running => {
            let fetch = spec_read(engine.bus, terminal, engine.registers.pc);
            spec_execute(
                EngineView {
                    bus: fetch.bus,
                    registers: engine.registers.jump(spec_wrapping_sum(engine.registers.pc, 1)),
                    ..engine
                },
                fetch.terminal,
                spec_decode(fetch.word),
            )
        },
    }
}

/// What a run leaves behind.
pub struct RunView {
    /// The engine after the run.
    pub engine: EngineView,
    /// The terminal after the run.
    pub terminal: TerminalView,
    /// The state in which the run ended, or the fault that ended it.
    pub result: Result<RunState, Fault>,
}

/// A run of at most `budget` steps. It ends before that when the machine
/// halts, when a step leaves it waiting for a character, or on a fault.
pub open spec fn spec_run(engine: EngineView, terminal: TerminalView, budget: nat) -> RunView
    decreases budget,
{
    if budget == 0 || engine.state is Halted {
        RunView { engine, terminal, result: Ok(engine.state) }
    } else {
        let step = spec_step(engine, terminal);
        match step.result {
            Err(fault) => RunView {
                engine: step.engine,
                terminal: step.terminal,
                result: Err(fault),
            },
            Ok(_) => if step.engine.state is Running {
                spec_run(step.engine, step.terminal, (budget - 1) as nat)
            } else {
                RunView {
                    engine: step.engine,
                    terminal: step.terminal,
                    result: Ok(step.engine.state),
                }
            },
        }
    }
}

/// The machine: memory, registers, and whether it runs.
pub struct ExecutionEngine {
    memory: MemoryBus,
    registers: RegisterFile,
    state: RunState,
}

impl View for ExecutionEngine {
    type V = EngineView;

    closed spec fn view(&self) -> EngineView {
        EngineView { bus: self.memory@, registers: self.registers@, state: self.state }
    }
}

impl ExecutionEngine {
    /// A running machine with the given memory and registers.
    pub fn new(memory: MemoryBus, registers: RegisterFile) -> (engine: ExecutionEngine)
        ensures
            engine@ == (EngineView {
                bus: memory@,
                registers: registers@,
                state: RunState::Running,
            }),
    {
        ExecutionEngine { memory, registers, state: RunState::Running }
    }

    /// The memory bus.
    pub fn memory(&self) -> (memory: &MemoryBus)
        ensures
            memory@ == self@.bus,
    {
        &self.memory
    }

    /// The register file.
    pub fn registers(&self) -> (registers: &RegisterFile)
        ensures
            registers@ == self@.registers,
    {
        &self.registers
    }

    /// Whether the machine runs.
    pub fn state(&self) -> (state: RunState)
        ensures
            state == self@.state,
    {
        self.state
    }

    fn load_from(&mut self, terminal: &mut Terminal, dest: Register, address: u16)
        ensures
            (StepView { engine: final(self)@, terminal: final(terminal)@, result: Ok(()) })
                == spec_load_from(old(self)@, old(terminal)@, dest, address),
    {
        let word: u16 = read_from_memory(&mut self.memory, terminal, address);
        self.registers.set(dest, word);
        update_flags(dest, &mut self.registers);
    }

    fn store_to(&mut self, source: Register, address: u16)
        ensures
            final(self)@ == (EngineView {
                bus: old(self)@.bus.store(address, old(self)@.registers.get(source)),
                ..old(self)@
            }),
    {
        let value: u16 = self.registers.get(source);
        write_to_memory(&mut self.memory, address, value);
    }

    fn produce(&mut self, dest: Register, value: u16)
        ensures
            final(self)@ == (EngineView {
                registers: old(self)@.registers.produce(dest, value),
                ..old(self)@
            }),
    {
        self.registers.set(dest, value);
        update_flags(dest, &mut self.registers);
    }

    fn operand(&self, operand: Operand) -> (value: u16)
        ensures
            value == operand_value(self@.registers, operand),
    {
        match operand {
            Operand::Register(register) => self.registers.get(register),
            Operand::Immediate(value) => value,
        }
    }

    /// Carries out `instruction` on a machine whose program counter already
    /// points behind it.
    pub fn execute(&mut self, terminal: &mut Terminal, instruction: Instruction) -> (result:
        Result<(), Fault>)
        ensures
            (StepView { engine: final(self)@, terminal: final(terminal)@, result })
                == spec_execute(old(self)@, old(terminal)@, instruction),
    {
        let pc: u16 = self.registers.pc();
        match instruction {
            Instruction::Branch { mask, offset } => {
                if mask & self.registers.condition().bits() != 0 {
                    self.registers.set_pc(wrapping_sum(pc, offset));
                }
            },
            Instruction::Add { dest, source, operand } => {
                let value: u16 = wrapping_sum(self.registers.get(source), self.operand(operand));
                self.produce(dest, value);
            },
            Instruction::Load { dest, offset } => {
                self.load_from(terminal, dest, wrapping_sum(pc, offset));
            },
            Instruction::Store { source, offset } => {
                self.store_to(source, wrapping_sum(pc, offset));
            },
            Instruction::JumpSubroutine { offset } => {
                self.registers.set(Register::R7, pc);
                self.registers.set_pc(wrapping_sum(pc, offset));
            },
            Instruction::JumpSubroutineRegister { base } => {
                self.registers.set(Register::R7, pc);
                let target: u16 = self.registers.get(base);
                self.registers.set_pc(target);
            },
            Instruction::And { dest, source, operand } => {
                let value: u16 = self.registers.get(source) & self.operand(operand);
                self.produce(dest, value);
            },
            Instruction::LoadRegister { dest, base, offset } => {
                let address: u16 = wrapping_sum(self.registers.get(base), offset);
                self.load_from(terminal, dest, address);
            },
            Instruction::StoreRegister { source, base, offset } => {
                let address: u16 = wrapping_sum(self.registers.get(base), offset);
                self.store_to(source, address);
            },
            Instruction::ReturnFromInterrupt => {
                return Err(Fault::UnimplementedOpcode(Opcode::Rti));
            },
            Instruction::Not { dest, source } => {
                let value: u16 = !self.registers.get(source);
                self.produce(dest, value);
            },
            Instruction::LoadIndirect { dest, offset } => {
                let pointer: u16 = read_from_memory(
                    &mut self.memory,
                    terminal,
                    wrapping_sum(pc, offset),
                );
                self.load_from(terminal, dest, pointer);
            },
            Instruction::StoreIndirect { source, offset } => {
                let pointer: u16 = read_from_memory(
                    &mut self.memory,
                    terminal,
                    wrapping_sum(pc, offset),
                );
                self.store_to(source, pointer);
            },
            Instruction::Jump { base } => {
                let target: u16 = self.registers.get(base);
                self.registers.set_pc(target);
            },
            Instruction::Reserved => {
                return Err(Fault::UnimplementedOpcode(Opcode::Res));
            },
            Instruction::LoadEffectiveAddress { dest, offset } => {
                self.produce(dest, wrapping_sum(pc, offset));
            },
            Instruction::Trap { vector } => {
                self.registers.set(Register::R7, pc);
                self.state = dispatch_trap(
                    &mut self.memory,
                    &mut self.registers,
                    terminal,
                    vector,
                );
            },
        }
        Ok(())
    }

    /// Takes one step.
    pub fn step(&mut self, terminal: &mut Terminal) -> (result: Result<(), Fault>)
        ensures
            (StepView { engine: final(self)@, terminal: final(terminal)@, result }) == spec_step(
                old(self)@,
                old(terminal)@,
            ),
    {
        match self.state {
            RunState::Halted => Ok(()),
            RunState::AwaitingKey { echo } => {
                self.state = key_wait(&mut self.memory, &mut self.registers, terminal, echo);
                Ok(())
            },
            RunState::Running => {
                let pc: u16 = self.registers.pc();
                let word: u16 = read_from_memory(&mut self.memory, terminal, pc);
                self.registers.set_pc(wrapping_sum(pc, 1));
                self.execute(terminal, decode(word))
            },
        }
    }
}

/// Runs the machine for at most `budget` steps and says how the run ended:
/// with the machine halted, waiting for a character, still running because
/// the budget is spent, or on a fault.
pub fn run_program(engine: &mut ExecutionEngine, terminal: &mut Terminal, budget: u64) -> (result:
    Result<RunState, Fault>)
    ensures
        (RunView { engine: final(engine)@, terminal: final(terminal)@, result }) == spec_run(
            old(engine)@,
            old(terminal)@,
            budget as nat,
        ),
{
    let mut left: u64 = budget;
    while left > 0 && !(engine.state() == RunState::Halted)
        invariant
            spec_run(engine@, terminal@, left as nat) == spec_run(
                old(engine)@,
                old(terminal)@,
                budget as nat,
            ),
        decreases left,
    {
        match engine.step(terminal) {
            Err(fault) => {
                return Err(fault);
            },
            Ok(_) => {
                match engine.state() {
                    RunState::Running => {},
                    state => {
                        return Ok(state);
                    },
                }
            },
        }
        left -= 1;
    }
    Ok(engine.state())
}

} // verus!
