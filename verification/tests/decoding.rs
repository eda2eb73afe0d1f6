use lc3_vm::decoder::{decode, sign_extend, Instruction, Opcode, Operand, Register};

#[test]
fn sign_extend_negative_five_bit_field() {
    assert_eq!(sign_extend(0b11111, 5), 0xFFFF);
}

#[test]
fn sign_extend_positive_five_bit_field() {
    assert_eq!(sign_extend(0b01111, 5), 0x000F);
}

#[test]
fn sign_extend_zero_for_every_width() {
    for width in 0..=255u8 {
        assert_eq!(sign_extend(0, width), 0);
    }
}

#[test]
fn sign_extend_each_field_width() {
    assert_eq!(sign_extend(0b11101, 5), 0xFFFD);
    assert_eq!(sign_extend(0b100000, 6), 0xFFE0);
    assert_eq!(sign_extend(0b011111, 6), 0x001F);
    assert_eq!(sign_extend(0x100, 9), 0xFF00);
    assert_eq!(sign_extend(0x0FF, 9), 0x00FF);
    assert_eq!(sign_extend(0x400, 11), 0xFC00);
    assert_eq!(sign_extend(0x3FF, 11), 0x03FF);
}

#[test]
fn sign_extend_leaves_bits_above_a_clear_sign_bit() {
    assert_eq!(sign_extend(0xAB0F, 5), 0xAB0F);
    assert_eq!(sign_extend(0x0010, 5), 0xFFF0);
}

#[test]
fn sign_extend_widths_without_a_sign_bit() {
    assert_eq!(sign_extend(0x8001, 0), 0x8001);
    assert_eq!(sign_extend(0x8001, 16), 0x8001);
    assert_eq!(sign_extend(0x8001, 17), 0x8001);
    assert_eq!(sign_extend(0x7FFF, 16), 0x7FFF);
    assert_eq!(sign_extend(0x4000, 15), 0xC000);
    assert_eq!(sign_extend(0x0001, 1), 0xFFFF);
}

#[test]
fn opcode_of_every_top_nibble() {
    let expected = [
        Opcode::Br,
        Opcode::Add,
        Opcode::Ld,
        Opcode::St,
        Opcode::Jsr,
        Opcode::And,
        Opcode::Ldr,
        Opcode::Str,
        Opcode::Rti,
        Opcode::Not,
        Opcode::Ldi,
        Opcode::Sti,
        Opcode::Jmp,
        Opcode::Res,
        Opcode::Lea,
        Opcode::Trap,
    ];
    for (number, opcode) in expected.iter().enumerate() {
        let word = ((number as u16) << 12) | 0x0ABC;
        assert_eq!(Opcode::of(word), *opcode);
    }
}

#[test]
fn register_from_bits_masks_to_three_bits() {
    assert_eq!(Register::from_bits(0), Register::R0);
    assert_eq!(Register::from_bits(5), Register::R5);
    assert_eq!(Register::from_bits(7), Register::R7);
    assert_eq!(Register::from_bits(8), Register::R0);
    assert_eq!(Register::from_bits(0xFFFB), Register::R3);
    assert_eq!(Register::R6.index(), 6);
}

#[test]
fn decode_add_register_and_immediate() {
    assert_eq!(
        decode(0x1283),
        Instruction::Add {
            dest: Register::R1,
            source: Register::R2,
            operand: Operand::Register(Register::R3),
        }
    );
    assert_eq!(
        decode(0x107D),
        Instruction::Add {
            dest: Register::R0,
            source: Register::R1,
            operand: Operand::Immediate(0xFFFD),
        }
    );
}

#[test]
fn decode_and_uses_all_three_bits_of_the_second_register() {
    assert_eq!(
        decode(0x5047),
        Instruction::And {
            dest: Register::R0,
            source: Register::R1,
            operand: Operand::Register(Register::R7),
        }
    );
    assert_eq!(
        decode(0x5044),
        Instruction::And {
            dest: Register::R0,
            source: Register::R1,
            operand: Operand::Register(Register::R4),
        }
    );
}

#[test]
fn decode_and_immediate_extremes() {
    assert_eq!(
        decode(0x547F),
        Instruction::And {
            dest: Register::R2,
            source: Register::R1,
            operand: Operand::Immediate(0xFFFF),
        }
    );
    assert_eq!(
        decode(0x5460),
        Instruction::And {
            dest: Register::R2,
            source: Register::R1,
            operand: Operand::Immediate(0),
        }
    );
}

#[test]
fn decode_pc_relative_instructions() {
    assert_eq!(decode(0x0A05), Instruction::Branch { mask: 5, offset: 5 });
    assert_eq!(decode(0x0FFF), Instruction::Branch { mask: 7, offset: 0xFFFF });
    assert_eq!(decode(0x2602), Instruction::Load { dest: Register::R3, offset: 2 });
    assert_eq!(decode(0x37FE), Instruction::Store { source: Register::R3, offset: 0xFFFE });
    assert_eq!(decode(0xA801), Instruction::LoadIndirect { dest: Register::R4, offset: 1 });
    assert_eq!(decode(0xB900), Instruction::StoreIndirect { source: Register::R4, offset: 0xFF00 });
    assert_eq!(decode(0xEA10), Instruction::LoadEffectiveAddress { dest: Register::R5, offset: 0x10 });
}

#[test]
fn decode_base_relative_instructions() {
    assert_eq!(
        decode(0x6A7F),
        Instruction::LoadRegister { dest: Register::R5, base: Register::R1, offset: 0xFFFF }
    );
    assert_eq!(
        decode(0x7A82),
        Instruction::StoreRegister { source: Register::R5, base: Register::R2, offset: 2 }
    );
}

#[test]
fn decode_jumps_and_calls() {
    assert_eq!(decode(0xC1C0), Instruction::Jump { base: Register::R7 });
    assert_eq!(decode(0xC080), Instruction::Jump { base: Register::R2 });
    assert_eq!(decode(0x4803), Instruction::JumpSubroutine { offset: 3 });
    assert_eq!(decode(0x4FFF), Instruction::JumpSubroutine { offset: 0xFFFF });
    assert_eq!(decode(0x40C0), Instruction::JumpSubroutineRegister { base: Register::R3 });
}

#[test]
fn decode_not_trap_and_unimplemented() {
    assert_eq!(decode(0x967F), Instruction::Not { dest: Register::R3, source: Register::R1 });
    assert_eq!(decode(0xF025), Instruction::Trap { vector: 0x25 });
    assert_eq!(decode(0xFF22), Instruction::Trap { vector: 0x22 });
    assert_eq!(decode(0x8000), Instruction::ReturnFromInterrupt);
    assert_eq!(decode(0xD123), Instruction::Reserved);
}
