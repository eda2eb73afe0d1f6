use lc3_vm::image::{get_instructions, load_memory, LoadError};
use lc3_vm::memory::{read_from_memory, write_to_memory, MemoryBus};
use lc3_vm::registers::{initialize_registers, update_flags, ConditionFlag};
use lc3_vm::decoder::Register;
use lc3_vm::terminal::Terminal;

#[test]
fn image_words_are_big_endian() {
    let bytes = [0x30u8, 0x00, 0x12, 0x34, 0xF0, 0x25];
    assert_eq!(get_instructions(&bytes), Ok(vec![0x3000, 0x1234, 0xF025]));
}

#[test]
fn image_of_odd_length_is_refused() {
    let bytes = [0x30u8, 0x00, 0x12];
    assert_eq!(get_instructions(&bytes), Err(LoadError::OddLength));
    assert_eq!(get_instructions(&[0x30u8]), Err(LoadError::OddLength));
}

#[test]
fn empty_image_is_refused() {
    let bytes: [u8; 0] = [];
    assert_eq!(get_instructions(&bytes), Err(LoadError::Empty));
    assert!(matches!(load_memory(&Vec::new()), Err(LoadError::Empty)));
}

#[test]
fn image_with_origin_alone_loads_nothing() {
    let memory = load_memory(&vec![0x3000]).unwrap();
    assert_eq!(memory.peek(0x3000), 0);
    assert_eq!(memory.peek(0x2FFF), 0);
}

#[test]
fn image_lands_at_its_origin() {
    let memory = load_memory(&vec![0x3000, 0x1111, 0x2222, 0x3333]).unwrap();
    assert_eq!(memory.peek(0x2FFF), 0);
    assert_eq!(memory.peek(0x3000), 0x1111);
    assert_eq!(memory.peek(0x3001), 0x2222);
    assert_eq!(memory.peek(0x3002), 0x3333);
    assert_eq!(memory.peek(0x3003), 0);
    assert_eq!(memory.peek(0), 0);
    assert_eq!(memory.peek(0xFFFF), 0);
    assert_eq!(memory.latched(), None);
}

#[test]
fn image_may_reach_the_last_cell() {
    let memory = load_memory(&vec![0xFFFE, 0xAAAA, 0xBBBB]).unwrap();
    assert_eq!(memory.peek(0xFFFE), 0xAAAA);
    assert_eq!(memory.peek(0xFFFF), 0xBBBB);
    assert_eq!(memory.peek(0), 0);
}

#[test]
fn image_past_the_last_cell_is_refused() {
    assert!(matches!(load_memory(&vec![0xFFFE, 1, 2, 3]), Err(LoadError::TooLarge)));
    assert!(matches!(load_memory(&vec![0xFFFF, 1, 2]), Err(LoadError::TooLarge)));
    let mut whole = vec![0u16; 65537];
    whole[65536] = 7;
    let memory = load_memory(&whole).unwrap();
    assert_eq!(memory.peek(0xFFFF), 7);
    whole.push(9);
    assert!(matches!(load_memory(&whole), Err(LoadError::TooLarge)));
}

#[test]
fn fresh_memory_is_zero() {
    let memory = MemoryBus::new();
    assert_eq!(memory.peek(0), 0);
    assert_eq!(memory.peek(0x3000), 0);
    assert_eq!(memory.peek(0xFE00), 0);
    assert_eq!(memory.peek(0xFFFF), 0);
    assert_eq!(memory.latched(), None);
}

#[test]
fn write_then_read_plain_cell() {
    let mut memory = MemoryBus::new();
    let mut terminal = Terminal::new();
    write_to_memory(&mut memory, 0x1234, 0xBEEF);
    write_to_memory(&mut memory, 0xFFFF, 0x0001);
    assert_eq!(read_from_memory(&mut memory, &mut terminal, 0x1234), 0xBEEF);
    assert_eq!(read_from_memory(&mut memory, &mut terminal, 0xFFFF), 0x0001);
    assert_eq!(read_from_memory(&mut memory, &mut terminal, 0x1235), 0);
    assert_eq!(read_from_memory(&mut memory, &mut terminal, 0xFE01), 0);
}

#[test]
fn write_to_keyboard_registers_is_plain_storage() {
    let mut memory = MemoryBus::new();
    let mut terminal = Terminal::new();
    write_to_memory(&mut memory, 0xFE00, 0x1234);
    write_to_memory(&mut memory, 0xFE02, 0x5678);
    assert_eq!(memory.peek(0xFE00), 0x1234);
    assert_eq!(memory.peek(0xFE02), 0x5678);
    assert_eq!(read_from_memory(&mut memory, &mut terminal, 0xFE00), 0);
    assert_eq!(read_from_memory(&mut memory, &mut terminal, 0xFE02), 0);
}

#[test]
fn registers_start_at_origin_with_zero_flag() {
    let registers = initialize_registers(0x3000);
    assert_eq!(registers.pc(), 0x3000);
    assert_eq!(registers.condition(), ConditionFlag::Zero);
    for number in 0..8u16 {
        assert_eq!(registers.get(Register::from_bits(number)), 0);
    }
}

#[test]
fn flags_follow_the_register() {
    let mut registers = initialize_registers(0);
    registers.set(Register::R3, 1);
    update_flags(Register::R3, &mut registers);
    assert_eq!(registers.condition(), ConditionFlag::Positive);
    registers.set(Register::R3, 0x7FFF);
    update_flags(Register::R3, &mut registers);
    assert_eq!(registers.condition(), ConditionFlag::Positive);
    registers.set(Register::R3, 0x8000);
    update_flags(Register::R3, &mut registers);
    assert_eq!(registers.condition(), ConditionFlag::Negative);
    registers.set(Register::R3, 0xFFFF);
    update_flags(Register::R3, &mut registers);
    assert_eq!(registers.condition(), ConditionFlag::Negative);
    registers.set(Register::R3, 0);
    update_flags(Register::R3, &mut registers);
    assert_eq!(registers.condition(), ConditionFlag::Zero);
    update_flags(Register::R4, &mut registers);
    assert_eq!(registers.condition(), ConditionFlag::Zero);
}

#[test]
fn flag_bits_are_one_of_three() {
    assert_eq!(ConditionFlag::Positive.bits(), 1);
    assert_eq!(ConditionFlag::Zero.bits(), 2);
    assert_eq!(ConditionFlag::Negative.bits(), 4);
    assert_eq!(ConditionFlag::of(0), ConditionFlag::Zero);
    assert_eq!(ConditionFlag::of(0x8000), ConditionFlag::Negative);
    assert_eq!(ConditionFlag::of(0x7FFF), ConditionFlag::Positive);
}

#[test]
fn setting_a_register_leaves_the_flag() {
    let mut registers = initialize_registers(0x10);
    registers.set(Register::R0, 0xFFFF);
    assert_eq!(registers.condition(), ConditionFlag::Zero);
    registers.set_pc(0x4000);
    assert_eq!(registers.pc(), 0x4000);
    assert_eq!(registers.get(Register::R0), 0xFFFF);
}
