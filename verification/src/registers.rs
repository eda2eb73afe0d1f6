//! The register file: eight general registers, the program counter and the
//! condition flag.

use vstd::prelude::*;
use crate::decoder::Register;

verus! {

/// The sign of the value that was produced last. Exactly one flag holds at
/// any time, so the register is one of three values.
#[derive(Clone, Copy, Debug, PartialEq, Eq, Structural)]
pub enum ConditionFlag {
    Positive,
    Zero,
    Negative,
}

impl ConditionFlag {
    /// The flag's bit as `BR` tests it: P is bit 0, Z is bit 1, N is bit 2.
    pub open spec fn spec_bits(self) -> u16 {
        match self {
            ConditionFlag::Positive => 1,
            ConditionFlag::Zero => 2,
            ConditionFlag::Negative => 4,
        }
    }

    /// The flag that describes `value` as a 16-bit two's-complement number.
    pub open spec fn spec_of(value: u16) -> ConditionFlag {
        if value == 0 {
            ConditionFlag::Zero
        } else if value >= 0x8000 {
            ConditionFlag::Negative
        } else {
            ConditionFlag::Positive
        }
    }

    /// The flag's bit within the three condition bits of a branch.
    pub fn bits(self) -> (mask: u16)
        ensures
            mask == self.spec_bits(),
    {
        match self {
            ConditionFlag::Positive => 1,
            ConditionFlag::Zero => 2,
            ConditionFlag::Negative => 4,
        }
    }

    /// The flag for `value`: zero, negative when bit 15 is set, else positive.
    pub fn of(value: u16) -> (flag: ConditionFlag)
        ensures
            flag == ConditionFlag::spec_of(value),
    {
        assert((value >> 15) == 1 <==> value >= 0x8000) by (bit_vector);
        if value == 0 {
            ConditionFlag::Zero
        } else if (value >> 15) == 1 {
            ConditionFlag::Negative
        } else {
            ConditionFlag::Positive
        }
    }
}

/// What a register file holds.
pub struct RegisterView {
    /// The values of R0 to R7, in this order.
    pub general: Seq<u16>,
    /// The program counter.
    pub pc: u16,
    /// The condition flag.
    pub cond: ConditionFlag,
}

impl RegisterView {
    /// There are eight general registers.
    pub open spec fn wf(self) -> bool {
        self.general.len() == 8
    }

    /// The value of `register`.
    pub open spec fn get(self, register: Register) -> u16 {
        self.general[register.spec_index()]
    }

    /// The file with `register` set to `value`; the flag is left alone.
    pub open spec fn set(self, register: Register, value: u16) -> RegisterView {
        RegisterView { general: self.general.update(register.spec_index(), value), ..self }
    }

    /// The file with another program counter.
    pub open spec fn jump(self, target: u16) -> RegisterView {
        RegisterView { pc: target, ..self }
    }

    /// The file with the flag recomputed from the value of `register`.
    pub open spec fn flagged(self, register: Register) -> RegisterView {
        RegisterView { cond: ConditionFlag::spec_of(self.get(register)), ..self }
    }

    /// The file after an instruction has produced `value` in `register`:
    /// the value is stored and the flag follows it.
    pub open spec fn produce(self, register: Register, value: u16) -> RegisterView {
        self.set(register, value).flagged(register)
    }

    /// The file at start: general registers zero, flag `Zero`.
    pub open spec fn initial(origin: u16) -> RegisterView {
        RegisterView {
            general: Seq::new(8, |i: int| 0u16),
            pc: origin,
            cond: ConditionFlag::Zero,
        }
    }
}

/// The registers of the machine.
pub struct RegisterFile {
    general: [u16; 8],
    pc: u16,
    cond: ConditionFlag,
}

impl View for RegisterFile {
    type V = RegisterView;

    closed spec fn view(&self) -> RegisterView {
        RegisterView { general: self.general@, pc: self.pc, cond: self.cond }
    }
}

impl RegisterFile {
    /// Every register file has eight general registers.
    pub proof fn lemma_wf(&self)
        ensures
            self@.wf(),
    {
    }

    /// The value of a general register.
    pub fn get(&self, register: Register) -> (value: u16)
        ensures
            value == self@.get(register),
    {
        self.general[register.index()]
    }

    /// Stores `value` in a general register. The flag is left alone.
    pub fn set(&mut self, register: Register, value: u16)
        ensures
            final(self)@ == old(self)@.set(register, value),
    {
        self.general[register.index()] = value;
    }

    /// The program counter.
    pub fn pc(&self) -> (pc: u16)
        ensures
            pc == self@.pc,
    {
        self.pc
    }

    /// Sets the program counter.
    pub fn set_pc(&mut self, target: u16)
        ensures
            final(self)@ == old(self)@.jump(target),
    {
        self.pc = target;
    }

    /// The condition flag.
    pub fn condition(&self) -> (flag: ConditionFlag)
        ensures
            flag == self@.cond,
    {
        self.cond
    }
}

/// The register file of a machine about to run an image loaded at `origin`:
/// the program counter is `origin`, the flag is `Zero`, all else is zero.
pub fn initialize_registers(origin: u16) -> (registers: RegisterFile)
    ensures
        registers@ == RegisterView::initial(origin),
{
    let registers = RegisterFile { general: [0u16; 8], pc: origin, cond: ConditionFlag::Zero };
    assert(registers@.general =~= RegisterView::initial(origin).general);
    registers
}

/// Recomputes the condition flag from the value of `register`: `Zero` for 0,
/// `Negative` when bit 15 is set, `Positive` otherwise.
pub fn update_flags(register: Register, registers: &mut RegisterFile)
    ensures
        final(registers)@ == old(registers)@.flagged(register),
{
    let value: u16 = registers.general[register.index()];
    registers.cond = ConditionFlag::of(value);
}

/// Exactly one of the three condition bits is set in a flag's mask.
pub proof fn lemma_flag_bits_exclusive(flag: ConditionFlag)
    ensures
        flag.spec_bits() == 1 || flag.spec_bits() == 2 || flag.spec_bits() == 4,
        (flag.spec_bits() == 4) <==> flag == ConditionFlag::Negative,
        (flag.spec_bits() == 2) <==> flag == ConditionFlag::Zero,
        (flag.spec_bits() == 1) <==> flag == ConditionFlag::Positive,
{
}

} // verus!
