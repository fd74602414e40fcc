use gamedorp::bus::Bus;
use gamedorp::cpu::model::{Flags, PAIR_AF, PAIR_BC, PAIR_DE, PAIR_HL};
use gamedorp::cpu::Cpu;
use gamedorp::flat::FlatBus;

fn fresh() -> Cpu<FlatBus> {
    Cpu::new(FlatBus::new())
}

#[test]
fn pairs_read_back_what_was_written() {
    for pair in [PAIR_BC, PAIR_DE, PAIR_HL] {
        for value in [0x0000u16, 0x0001, 0x00FF, 0x0100, 0x1234, 0xABCD, 0xFFFF] {
            let mut cpu = fresh();
            cpu.write_combined_register(value, pair);
            assert_eq!(cpu.read_combined_register(pair), value);
        }
    }
    for value in 0..=0xFFFFu16 {
        let mut cpu = fresh();
        cpu.write_combined_register(value, PAIR_HL);
        assert_eq!(cpu.read_combined_register(PAIR_HL), value);
        assert_eq!(cpu.read_hl_address(), value);
    }
}

#[test]
fn flag_nibble_of_the_accumulator_pair_is_always_zero() {
    for value in [0x0000u16, 0x12F0, 0x12FF, 0xFFFF, 0x000F, 0xAB5A] {
        let mut cpu = fresh();
        cpu.write_combined_register(value, PAIR_AF);
        assert_eq!(cpu.read_combined_register(PAIR_AF), value & 0xFFF0);
        assert_eq!(cpu.read_combined_register(PAIR_AF) & 0x000F, 0);
    }
    let mut cpu = fresh();
    cpu.write_combined_register(0x12F0, PAIR_AF);
    assert_eq!(cpu.read_combined_register(PAIR_AF), 0x12F0);
    assert_eq!(cpu.accumulator, 0x12);
    assert_eq!(cpu.flags, Flags { zero: true, subtract: true, half_carry: true, carry: true });
}

#[test]
fn a_pair_write_leaves_the_other_registers() {
    let mut cpu = fresh();
    cpu.simple_registers = [1, 2, 3, 4, 5, 6];
    cpu.accumulator = 7;
    cpu.write_combined_register(0xAABB, PAIR_DE);
    assert_eq!(cpu.simple_registers, [1, 2, 0xAA, 0xBB, 5, 6]);
    assert_eq!(cpu.accumulator, 7);
    assert_eq!(cpu.stack_pointer, 0xFFFE);
    assert_eq!(cpu.program_counter, 0);
    cpu.write_combined_register(0x1100, PAIR_AF);
    assert_eq!(cpu.simple_registers, [1, 2, 0xAA, 0xBB, 5, 6]);
    assert_eq!(cpu.accumulator, 0x11);
}

#[test]
fn single_registers_are_written_by_index() {
    let mut cpu = fresh();
    for index in 0..6u8 {
        cpu.set_storage_register(index, 0x10 + index);
    }
    assert_eq!(cpu.simple_registers, [0x10, 0x11, 0x12, 0x13, 0x14, 0x15]);
    assert_eq!(cpu.read_combined_register(PAIR_BC), 0x1011);
    assert_eq!(cpu.read_combined_register(PAIR_DE), 0x1213);
    assert_eq!(cpu.read_combined_register(PAIR_HL), 0x1415);
}

#[test]
fn reads_through_the_pairs() {
    let mut bus = FlatBus::new();
    bus.store_byte(0x1234, 0xAA);
    bus.store_byte(0x5678, 0xBB);
    bus.store_byte(0x9ABC, 0xCC);
    let mut cpu = Cpu::new(bus);
    cpu.write_combined_register(0x1234, PAIR_BC);
    cpu.write_combined_register(0x5678, PAIR_DE);
    cpu.write_combined_register(0x9ABC, PAIR_HL);
    assert_eq!(cpu.read_bc(), 0xAA);
    assert_eq!(cpu.read_de(), 0xBB);
    assert_eq!(cpu.read_hl(), 0xCC);
    assert_eq!(cpu.instruction_cycles, 12);
    assert_eq!(cpu.memory_map.clock(), 12);
}

#[test]
fn fetch_and_advance_at_the_program_counter() {
    let mut bus = FlatBus::new();
    bus.store_byte(0x0100, 0x34);
    bus.store_byte(0x0101, 0x12);
    let mut cpu = Cpu::new(bus);
    cpu.program_counter = 0x0100;
    assert_eq!(cpu.read_immediate_value_16(), 0x1234);
    assert_eq!(cpu.program_counter, 0x0102);
    assert_eq!(cpu.instruction_cycles, 8);
    cpu.program_counter = 0x0100;
    assert_eq!(cpu.read_and_advance_program_counter(), 0x34);
    assert_eq!(cpu.program_counter, 0x0101);
}

#[test]
fn push_stores_high_byte_first() {
    let mut cpu = fresh();
    cpu.push_stack(0x1234);
    assert_eq!(cpu.stack_pointer, 0xFFFC);
    assert_eq!(cpu.memory_map.fetch_byte(0xFFFD), 0x12);
    assert_eq!(cpu.memory_map.fetch_byte(0xFFFC), 0x34);
    assert_eq!(cpu.instruction_cycles, 8);
    assert_eq!(cpu.pop_stack(), 0x1234);
    assert_eq!(cpu.stack_pointer, 0xFFFE);
    assert_eq!(cpu.instruction_cycles, 16);
}

#[test]
fn operands_by_index() {
    let mut cpu = fresh();
    cpu.simple_registers = [1, 2, 3, 4, 0xC0, 0x00];
    cpu.accumulator = 9;
    cpu.memory_map.store_byte(0xC000, 0x55);
    assert_eq!(cpu.read_operand(0), 1);
    assert_eq!(cpu.read_operand(3), 4);
    assert_eq!(cpu.read_operand(7), 9);
    assert_eq!(cpu.instruction_cycles, 0);
    assert_eq!(cpu.read_operand(6), 0x55);
    assert_eq!(cpu.instruction_cycles, 4);
    cpu.write_operand(6, 0x66);
    assert_eq!(cpu.memory_map.fetch_byte(0xC000), 0x66);
    assert_eq!(cpu.instruction_cycles, 8);
    cpu.write_operand(7, 0x77);
    assert_eq!(cpu.accumulator, 0x77);
    cpu.write_operand(1, 0x22);
    assert_eq!(cpu.simple_registers[1], 0x22);
    assert_eq!(cpu.read_wide(3), 0xFFFE);
    assert_eq!(cpu.read_wide(2), 0xC000);
    cpu.write_wide(0x1234, 3);
    assert_eq!(cpu.stack_pointer, 0x1234);
    cpu.write_wide(0x5678, 0);
    assert_eq!(cpu.read_combined_register(PAIR_BC), 0x5678);
}

#[test]
fn conditions_by_index() {
    let mut cpu = fresh();
    cpu.flags = Flags { zero: true, subtract: false, half_carry: false, carry: false };
    assert!(!cpu.condition(0));
    assert!(cpu.condition(1));
    assert!(cpu.condition(2));
    assert!(!cpu.condition(3));
    cpu.flags = Flags { zero: false, subtract: false, half_carry: false, carry: true };
    assert!(cpu.condition(0));
    assert!(!cpu.condition(1));
    assert!(!cpu.condition(2));
    assert!(cpu.condition(3));
}
