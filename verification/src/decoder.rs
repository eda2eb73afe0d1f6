//! Field extraction and sign extension for 16-bit instruction words.
//!
//! An instruction word carries its opcode in the top four bits. The other
//! twelve bits hold register numbers (three bits each), a mode bit, and
//! signed immediates or offsets of 5, 6, 9 or 11 bits, depending on the opcode.

use vstd::prelude::*;

verus! {

/// The mask with bits `bit_count..16` set and the bits below clear.
pub open spec fn high_bits(bit_count: u8) -> u16 {
    if bit_count >= 16 {
        0
    } else {
        0xFFFFu16 << (bit_count as u16)
    }
}

/// Whether bit `bit_count - 1` exists in a 16-bit word and is set in `value`.
pub open spec fn sign_bit_set(value: u16, bit_count: u8) -> bool {
    1 <= bit_count <= 16 && (value >> ((bit_count - 1) as u16)) & 1 == 1
}

/// Two's-complement sign extension of the low `bit_count` bits of `value`:
/// when the field's top bit is set, every bit from `bit_count` upward becomes 1;
/// otherwise the word is left as it is.
pub open spec fn spec_sign_extend(value: u16, bit_count: u8) -> u16 {
    if sign_bit_set(value, bit_count) {
        value | high_bits(bit_count)
    } else {
        value
    }
}

/// Sign-extends the low `bit_count` bits of `value` to 16 bits.
///
/// A width of zero, or one above sixteen, names no sign bit: the word comes
/// back unchanged.
pub fn sign_extend(value: u16, bit_count: u8) -> (result: u16)
    ensures
        result == spec_sign_extend(value, bit_count),
{
    if bit_count == 0 || bit_count > 16 {
        return value;
    }
    let top: u16 = (bit_count - 1) as u16;
    if (value >> top) & 1 == 1 {
        if bit_count == 16 {
            assert(value | 0u16 == value) by (bit_vector);
            value
        } else {
            value | (0xFFFFu16 << (bit_count as u16))
        }
    } else {
        value
    }
}

/// Zero extends to zero, whatever the width.
pub proof fn lemma_sign_extend_zero(bit_count: u8)
    ensures
        spec_sign_extend(0, bit_count) == 0,
{
    let shift: u16 = if bit_count >= 1 {
        (bit_count - 1) as u16
    } else {
        0
    };
    assert((0u16 >> shift) & 1 == 0) by (bit_vector);
}

/// `2^exponent` for the exponents that a 16-bit field can have.
pub open spec fn pow2(exponent: u8) -> int
    decreases exponent,
{
    if exponent == 0 {
        1
    } else {
        2 * pow2((exponent - 1) as u8)
    }
}

/// The number that a `bit_count`-bit field stands for in two's complement.
pub open spec fn signed_value(field: u16, bit_count: u8) -> int
    recommends
        1 <= bit_count <= 16,
        field < pow2(bit_count),
{
    if field < pow2((bit_count - 1) as u8) {
        field as int
    } else {
        field - pow2(bit_count)
    }
}

proof fn lemma_pow2_is_shift(exponent: u8)
    requires
        exponent <= 16,
    ensures
        pow2(exponent) == (1u32 << (exponent as u32)),
    decreases exponent,
{
    if exponent == 0 {
        assert(1u32 << 0u32 == 1) by (bit_vector);
    } else {
        lemma_pow2_is_shift((exponent - 1) as u8);
        let e: u32 = exponent as u32;
        assert(1u32 << e == 2 * (1u32 << ((e - 1) as u32))) by (bit_vector)
            requires
                1 <= e <= 16,
        ;
    }
}

/// Sign extension is exact: for a field that fits in `bit_count` bits, the
/// extended word, read as a 16-bit two's-complement number, is the number
/// that the field stands for.
pub proof fn lemma_sign_extend_value(field: u16, bit_count: u8)
    requires
        1 <= bit_count <= 16,
        field < pow2(bit_count),
    ensures
        signed_value(spec_sign_extend(field, bit_count), 16) == signed_value(field, bit_count),
{
    lemma_pow2_is_shift(bit_count);
    lemma_pow2_is_shift((bit_count - 1) as u8);
    lemma_pow2_is_shift(15);
    lemma_pow2_is_shift(16);
    assert(1u32 << 15u32 == 0x8000) by (bit_vector);
    assert(1u32 << 16u32 == 0x10000) by (bit_vector);
    let n: u32 = bit_count as u32;
    if bit_count == 16 {
        assert(field | 0u16 == field) by (bit_vector);
    } else {
        let shift: u16 = bit_count as u16;
        let top: u16 = (bit_count - 1) as u16;
        assert((field >> top) & 1 == 1 <==> field >= (1u32 << ((n - 1) as u32))) by (bit_vector)
            requires
                1 <= n <= 15,
                n == shift,
                top == shift - 1,
                field < (1u32 << n),
        ;
        let extended: u16 = field | (0xFFFFu16 << shift);
        assert((field >> top) & 1 == 1 ==> extended == field + 0x10000 - (1u32 << n) && extended
            >= 0x8000) by (bit_vector)
            requires
                1 <= n <= 15,
                n == shift,
                top == shift - 1,
                field < (1u32 << n),
                extended == field | (0xFFFFu16 << shift),
        ;
        assert(field < (1u32 << ((n - 1) as u32)) ==> field < 0x8000) by (bit_vector)
            requires
                1 <= n <= 15,
        ;
    }
}

/// One of the eight general-purpose registers.
#[derive(Clone, Copy, Debug, PartialEq, Eq, Structural)]
pub enum Register {
    R0,
    R1,
    R2,
    R3,
    R4,
    R5,
    R6,
    R7,
}

impl Register {
    /// The register's number, `0..8`.
    pub open spec fn spec_index(self) -> int {
        match self {
            Register::R0 => 0,
            Register::R1 => 1,
            Register::R2 => 2,
            Register::R3 => 3,
            Register::R4 => 4,
            Register::R5 => 5,
            Register::R6 => 6,
            Register::R7 => 7,
        }
    }

    /// The register that a three-bit field names; bits above the field are ignored.
    pub open spec fn spec_from_bits(bits: u16) -> Register {
        let number = bits & 7;
        if number == 0 {
            Register::R0
        } else if number == 1 {
            Register::R1
        } else if number == 2 {
            Register::R2
        } else if number == 3 {
            Register::R3
        } else if number == 4 {
            Register::R4
        } else if number == 5 {
            Register::R5
        } else if number == 6 {
            Register::R6
        } else {
            Register::R7
        }
    }

    /// The register's number.
    pub fn index(self) -> (number: usize)
        ensures
            number == self.spec_index(),
            number < 8,
    {
        match self {
            Register::R0 => 0,
            Register::R1 => 1,
            Register::R2 => 2,
            Register::R3 => 3,
            Register::R4 => 4,
            Register::R5 => 5,
            Register::R6 => 6,
            Register::R7 => 7,
        }
    }

    /// The register named by the low three bits of `bits`.
    pub fn from_bits(bits: u16) -> (register: Register)
        ensures
            register == Register::spec_from_bits(bits),
            register.spec_index() == bits % 8,
    {
        let number: u16 = bits & 7;
        assert(bits & 7 == bits % 8) by (bit_vector);
        if number == 0 {
            Register::R0
        } else if number == 1 {
            Register::R1
        } else if number == 2 {
            Register::R2
        } else if number == 3 {
            Register::R3
        } else if number == 4 {
            Register::R4
        } else if number == 5 {
            Register::R5
        } else if number == 6 {
            Register::R6
        } else {
            Register::R7
        }
    }
}

/// The sixteen operations that the top four bits of a word select.
#[derive(Clone, Copy, Debug, PartialEq, Eq, Structural)]
pub enum Opcode {
    Br,
    Add,
    Ld,
    St,
    Jsr,
    And,
    Ldr,
    Str,
    Rti,
    Not,
    Ldi,
    Sti,
    Jmp,
    Res,
    Lea,
    Trap,
}

impl Opcode {
    /// The opcode whose number is `word / 4096`.
    pub open spec fn spec_of(word: u16) -> Opcode {
        let number = word >> 12;
        if number == 0 {
            Opcode::Br
        } else if number == 1 {
            Opcode::Add
        } else if number == 2 {
            Opcode::Ld
        } else if number == 3 {
            Opcode::St
        } else if number == 4 {
            Opcode::Jsr
        } else if number == 5 {
            Opcode::And
        } else if number == 6 {
            Opcode::Ldr
        } else if number == 7 {
            Opcode::Str
        } else if number == 8 {
            Opcode::Rti
        } else if number == 9 {
            Opcode::Not
        } else if number == 10 {
            Opcode::Ldi
        } else if number == 11 {
            Opcode::Sti
        } else if number == 12 {
            Opcode::Jmp
        } else if number == 13 {
            Opcode::Res
        } else if number == 14 {
            Opcode::Lea
        } else {
            Opcode::Trap
        }
    }

    /// The opcode's four-bit number.
    pub open spec fn spec_number(self) -> int {
        match self {
            Opcode::Br => 0,
            Opcode::Add => 1,
            Opcode::Ld => 2,
            Opcode::St => 3,
            Opcode::Jsr => 4,
            Opcode::And => 5,
            Opcode::Ldr => 6,
            Opcode::Str => 7,
            Opcode::Rti => 8,
            Opcode::Not => 9,
            Opcode::Ldi => 10,
            Opcode::Sti => 11,
            Opcode::Jmp => 12,
            Opcode::Res => 13,
            Opcode::Lea => 14,
            Opcode::Trap => 15,
        }
    }

    /// Reads the opcode off the top four bits of `word`.
    pub fn of(word: u16) -> (opcode: Opcode)
        ensures
            opcode == Opcode::spec_of(word),
            opcode.spec_number() == word / 4096,
    {
        let number: u16 = word >> 12;
        assert(word >> 12 == word / 4096 && word >> 12 <= 15) by (bit_vector);
        if number == 0 {
            Opcode::Br
        } else if number == 1 {
            Opcode::Add
        } else if number == 2 {
            Opcode::Ld
        } else if number == 3 {
            Opcode::St
        } else if number == 4 {
            Opcode::Jsr
        } else if number == 5 {
            Opcode::And
        } else if number == 6 {
            Opcode::Ldr
        } else if number == 7 {
            Opcode::Str
        } else if number == 8 {
            Opcode::Rti
        } else if number == 9 {
            Opcode::Not
        } else if number == 10 {
            Opcode::Ldi
        } else if number == 11 {
            Opcode::Sti
        } else if number == 12 {
            Opcode::Jmp
        } else if number == 13 {
            Opcode::Res
        } else if number == 14 {
            Opcode::Lea
        } else {
            Opcode::Trap
        }
    }
}

/// The second operand of `ADD` and `AND`.
#[derive(Clone, Copy, Debug, PartialEq, Eq, Structural)]
pub enum Operand {
    /// The value of a register.
    Register(Register),
    /// A five-bit immediate, already sign-extended to 16 bits.
    Immediate(u16),
}

/// A decoded instruction. Offsets and immediates are stored sign-extended.
#[derive(Clone, Copy, Debug, PartialEq, Eq, Structural)]
pub enum Instruction {
    /// `BR`: branch when `mask` and the condition flag share a bit.
    Branch { mask: u16, offset: u16 },
    /// `ADD`.
    Add { dest: Register, source: Register, operand: Operand },
    /// `LD`: load from `PC + offset`.
    Load { dest: Register, offset: u16 },
    /// `ST`: store to `PC + offset`.
    Store { source: Register, offset: u16 },
    /// `JSR`: call `PC + offset`.
    JumpSubroutine { offset: u16 },
    /// `JSRR`: call the address in `base`.
    JumpSubroutineRegister { base: Register },
    /// `AND`.
    And { dest: Register, source: Register, operand: Operand },
    /// `LDR`: load from `base + offset`.
    LoadRegister { dest: Register, base: Register, offset: u16 },
    /// `STR`: store to `base + offset`.
    StoreRegister { source: Register, base: Register, offset: u16 },
    /// `RTI`: not implemented.
    ReturnFromInterrupt,
    /// `NOT`.
    Not { dest: Register, source: Register },
    /// `LDI`: load from the address stored at `PC + offset`.
    LoadIndirect { dest: Register, offset: u16 },
    /// `STI`: store to the address stored at `PC + offset`.
    StoreIndirect { source: Register, offset: u16 },
    /// `JMP`: jump to the address in `base`.
    Jump { base: Register },
    /// The reserved opcode: not implemented.
    Reserved,
    /// `LEA`: the address `PC + offset` itself.
    LoadEffectiveAddress { dest: Register, offset: u16 },
    /// `TRAP`: call the routine numbered `vector`.
    Trap { vector: u8 },
}

/// The register in bits 9..12.
pub open spec fn field_high(word: u16) -> Register {
    Register::spec_from_bits(word >> 9)
}

/// The register in bits 6..9.
pub open spec fn field_middle(word: u16) -> Register {
    Register::spec_from_bits(word >> 6)
}

/// The register in bits 0..3.
pub open spec fn field_low(word: u16) -> Register {
    Register::spec_from_bits(word)
}

/// The second operand of `ADD` and `AND`: bit 5 selects the immediate in
/// bits 0..5 over the register in bits 0..3.
pub open spec fn field_operand(word: u16) -> Operand {
    if (word >> 5) & 1 == 1 {
        Operand::Immediate(spec_sign_extend(word & 0x1F, 5))
    } else {
        Operand::Register(field_low(word))
    }
}

/// The instruction that `word` encodes.
pub open spec fn spec_decode(word: u16) -> Instruction {
    let offset6 = spec_sign_extend(word & 0x3F, 6);
    let offset9 = spec_sign_extend(word & 0x1FF, 9);
    let offset11 = spec_sign_extend(word & 0x7FF, 11);
    match Opcode::spec_of(word) {
        Opcode::Br => Instruction::Branch { mask: (word >> 9) & 7, offset: offset9 },
        Opcode::Add => Instruction::Add {
            dest: field_high(word),
            source: field_middle(word),
            operand: field_operand(word),
        },
        Opcode::Ld => Instruction::Load { dest: field_high(word), offset: offset9 },
        Opcode::St => Instruction::Store { source: field_high(word), offset: offset9 },
        Opcode::Jsr => if (word >> 11) & 1 == 0 {
            Instruction::JumpSubroutineRegister { base: field_middle(word) }
        } else {
            Instruction::JumpSubroutine { offset: offset11 }
        },
        Opcode::And => Instruction::And {
            dest: field_high(word),
            source: field_middle(word),
            operand: field_operand(word),
        },
        Opcode::Ldr => Instruction::LoadRegister {
            dest: field_high(word),
            base: field_middle(word),
            offset: offset6,
        },
        Opcode::Str => Instruction::StoreRegister {
            source: field_high(word),
            base: field_middle(word),
            offset: offset6,
        },
        Opcode::Rti => Instruction::ReturnFromInterrupt,
        Opcode::Not => Instruction::Not { dest: field_high(word), source: field_middle(word) },
        Opcode::Ldi => Instruction::LoadIndirect { dest: field_high(word), offset: offset9 },
        Opcode::Sti => Instruction::StoreIndirect { source: field_high(word), offset: offset9 },
        Opcode::Jmp => Instruction::Jump { base: field_middle(word) },
        Opcode::Res => Instruction::Reserved,
        Opcode::Lea => Instruction::LoadEffectiveAddress {
            dest: field_high(word),
            offset: offset9,
        },
        Opcode::Trap => Instruction::Trap { vector: (word & 0xFF) as u8 },
    }
}

impl Instruction {
    /// The opcode under which the instruction is encoded.
    pub open spec fn opcode(self) -> Opcode {
        match self {
            Instruction::Branch { .. } => Opcode::Br,
            Instruction::Add { .. } => Opcode::Add,
            Instruction::Load { .. } => Opcode::Ld,
            Instruction::Store { .. } => Opcode::St,
            Instruction::JumpSubroutine { .. } => Opcode::Jsr,
            Instruction::JumpSubroutineRegister { .. } => Opcode::Jsr,
            Instruction::And { .. } => Opcode::And,
            Instruction::LoadRegister { .. } => Opcode::Ldr,
            Instruction::StoreRegister { .. } => Opcode::Str,
            Instruction::ReturnFromInterrupt => Opcode::Rti,
            Instruction::Not { .. } => Opcode::Not,
            Instruction::LoadIndirect { .. } => Opcode::Ldi,
            Instruction::StoreIndirect { .. } => Opcode::Sti,
            Instruction::Jump { .. } => Opcode::Jmp,
            Instruction::Reserved => Opcode::Res,
            Instruction::LoadEffectiveAddress { .. } => Opcode::Lea,
            Instruction::Trap { .. } => Opcode::Trap,
        }
    }
}

/// Decoding keeps the opcode: the instruction that a word encodes is
/// encoded under the opcode in the word's top four bits.
pub proof fn lemma_decode_keeps_opcode(word: u16)
    ensures
        spec_decode(word).opcode() == Opcode::spec_of(word),
{
}

fn decode_operand(word: u16) -> (operand: Operand)
    ensures
        operand == field_operand(word),
{
    if (word >> 5) & 1 == 1 {
        Operand::Immediate(sign_extend(word & 0x1F, 5))
    } else {
        Operand::Register(Register::from_bits(word))
    }
}

/// Decodes an instruction word.
pub fn decode(word: u16) -> (instruction: Instruction)
    ensures
        instruction == spec_decode(word),
        instruction.opcode() == Opcode::spec_of(word),
{
    let dest = Register::from_bits(word >> 9);
    let base = Register::from_bits(word >> 6);
    match Opcode::of(word) {
        Opcode::Br => Instruction::Branch {
            mask: (word >> 9) & 7,
            offset: sign_extend(word & 0x1FF, 9),
        },
        Opcode::Add => Instruction::Add { dest, source: base, operand: decode_operand(word) },
        Opcode::Ld => Instruction::Load { dest, offset: sign_extend(word & 0x1FF, 9) },
        Opcode::St => Instruction::Store { source: dest, offset: sign_extend(word & 0x1FF, 9) },
        Opcode::Jsr => if (word >> 11) & 1 == 0 {
            Instruction::JumpSubroutineRegister { base }
        } else {
            Instruction::JumpSubroutine { offset: sign_extend(word & 0x7FF, 11) }
        },
        Opcode::And => Instruction::And { dest, source: base, operand: decode_operand(word) },
        Opcode::Ldr => Instruction::LoadRegister {
            dest,
            base,
            offset: sign_extend(word & 0x3F, 6),
        },
        Opcode::Str => Instruction::StoreRegister {
            source: dest,
            base,
            offset: sign_extend(word & 0x3F, 6),
        },
        Opcode::Rti => Instruction::ReturnFromInterrupt,
        Opcode::Not => Instruction::Not { dest, source: base },
        Opcode::Ldi => Instruction::LoadIndirect { dest, offset: sign_extend(word & 0x1FF, 9) },
        Opcode::Sti => Instruction::StoreIndirect {
            source: dest,
            offset: sign_extend(word & 0x1FF, 9),
        },
        Opcode::Jmp => Instruction::Jump { base },
        Opcode::Res => Instruction::Reserved,
        Opcode::Lea => Instruction::LoadEffectiveAddress {
            dest,
            offset: sign_extend(word & 0x1FF, 9),
        },
        Opcode::Trap => {
            let low: u16 = word & 0xFF;
            assert(word & 0xFF < 256) by (bit_vector);
            Instruction::Trap { vector: low as u8 }
        },
    }
}

} // verus!
