use gamedorp::bus::Bus;
use gamedorp::cpu::model::Flags;
use gamedorp::cpu::{CanRunInstruction, Cpu, Fatal};
use gamedorp::flat::FlatBus;

fn machine(program: &[u8]) -> Cpu<FlatBus> {
    let mut bus = FlatBus::new();
    for (i, byte) in program.iter().enumerate() {
        bus.store_byte(i as u16, *byte);
    }
    Cpu::new(bus)
}

fn clear() -> Flags {
    Flags { zero: false, subtract: false, half_carry: false, carry: false }
}

#[test]
fn cold_boot_state() {
    let cpu = machine(&[]);
    assert_eq!(cpu.stack_pointer, 0xFFFE);
    assert_eq!(cpu.program_counter, 0);
    assert_eq!(cpu.accumulator, 0);
    assert_eq!(cpu.simple_registers, [0; 6]);
    assert_eq!(cpu.flags, clear());
    assert!(cpu.iten);
    assert!(!cpu.halted);
    assert_eq!(cpu.instruction_cycles, 0);
}

#[test]
fn no_operation_only_moves_the_program_counter() {
    let mut cpu = machine(&[0x00]);
    cpu.accumulator = 0x12;
    cpu.simple_registers = [1, 2, 3, 4, 5, 6];
    cpu.flags = Flags { zero: true, subtract: false, half_carry: true, carry: false };
    let cycles = cpu.run_next_instruction();
    assert_eq!(cycles, Ok(4));
    assert_eq!(cpu.program_counter, 1);
    assert_eq!(cpu.stack_pointer, 0xFFFE);
    assert_eq!(cpu.accumulator, 0x12);
    assert_eq!(cpu.simple_registers, [1, 2, 3, 4, 5, 6]);
    assert_eq!(cpu.flags, Flags { zero: true, subtract: false, half_carry: true, carry: false });
    assert_eq!(cpu.memory_map.clock(), 4);
}

#[test]
fn load_immediate_into_each_register() {
    let opcodes = [0x06u8, 0x0E, 0x16, 0x1E, 0x26, 0x2E];
    for (index, opcode) in opcodes.iter().enumerate() {
        let mut cpu = machine(&[*opcode, 0x42]);
        assert_eq!(cpu.run_next_instruction(), Ok(8));
        let mut expected = [0u8; 6];
        expected[index] = 0x42;
        assert_eq!(cpu.simple_registers, expected);
        assert_eq!(cpu.program_counter, 2);
        assert_eq!(cpu.accumulator, 0);
    }
}

#[test]
fn load_immediate_into_accumulator() {
    let mut cpu = machine(&[0x3E, 0x42]);
    assert_eq!(cpu.run_next_instruction(), Ok(8));
    assert_eq!(cpu.accumulator, 0x42);
    assert_eq!(cpu.program_counter, 2);
    assert_eq!(cpu.simple_registers, [0; 6]);
}

#[test]
fn load_immediate_through_pointer_pair() {
    let mut cpu = machine(&[0x36, 0x42]);
    cpu.simple_registers[4] = 0xC0;
    cpu.simple_registers[5] = 0x10;
    assert_eq!(cpu.run_next_instruction(), Ok(12));
    assert_eq!(cpu.memory_map.fetch_byte(0xC010), 0x42);
    assert_eq!(cpu.program_counter, 2);
}

#[test]
fn conditional_absolute_jump_not_taken() {
    // jump if zero, with the zero flag clear
    let mut cpu = machine(&[0xCA, 0x34, 0x12]);
    cpu.flags.zero = false;
    assert_eq!(cpu.run_next_instruction(), Ok(12));
    assert_eq!(cpu.program_counter, 3);
    // jump if carry, with the carry clear
    let mut cpu = machine(&[0xDA, 0x34, 0x12]);
    assert_eq!(cpu.run_next_instruction(), Ok(12));
    assert_eq!(cpu.program_counter, 3);
    // jump if not zero, with the zero flag set
    let mut cpu = machine(&[0xC2, 0x34, 0x12]);
    cpu.flags.zero = true;
    assert_eq!(cpu.run_next_instruction(), Ok(12));
    assert_eq!(cpu.program_counter, 3);
}

#[test]
fn conditional_absolute_jump_taken() {
    let mut cpu = machine(&[0xCA, 0x34, 0x12]);
    cpu.flags.zero = true;
    assert_eq!(cpu.run_next_instruction(), Ok(16));
    assert_eq!(cpu.program_counter, 0x1234);
    let mut cpu = machine(&[0xD2, 0x78, 0x56]);
    assert_eq!(cpu.run_next_instruction(), Ok(16));
    assert_eq!(cpu.program_counter, 0x5678);
}

#[test]
fn push_one_pair_then_pop_into_another() {
    // push BC, pop DE
    let mut cpu = machine(&[0xC5, 0xD1]);
    cpu.simple_registers[0] = 0xAB;
    cpu.simple_registers[1] = 0xCD;
    let push_cost = cpu.run_next_instruction();
    assert_eq!(push_cost, Ok(16));
    assert_eq!(cpu.stack_pointer, 0xFFFC);
    assert_eq!(cpu.memory_map.fetch_byte(0xFFFD), 0xAB);
    assert_eq!(cpu.memory_map.fetch_byte(0xFFFC), 0xCD);
    let pop_cost = cpu.run_next_instruction();
    assert_eq!(pop_cost, Ok(12));
    assert_eq!(cpu.simple_registers, [0xAB, 0xCD, 0xAB, 0xCD, 0, 0]);
    assert_eq!(cpu.stack_pointer, 0xFFFE);
    assert_eq!(cpu.memory_map.clock(), 16 + 12);
}

#[test]
fn push_accumulator_and_flags_then_pop_into_pointer_pair() {
    let mut cpu = machine(&[0xF5, 0xE1]);
    cpu.accumulator = 0x5A;
    cpu.flags = Flags { zero: true, subtract: false, half_carry: true, carry: true };
    assert_eq!(cpu.run_next_instruction(), Ok(16));
    assert_eq!(cpu.run_next_instruction(), Ok(12));
    assert_eq!(cpu.simple_registers[4], 0x5A);
    assert_eq!(cpu.simple_registers[5], 0xB0);
    assert_eq!(cpu.stack_pointer, 0xFFFE);
}

#[test]
fn extended_bit_test_on_a_register() {
    // bit 7 of register B, carry set before
    let mut cpu = machine(&[0xCB, 0x78]);
    cpu.simple_registers[0] = 0x80;
    cpu.flags = Flags { zero: true, subtract: true, half_carry: false, carry: true };
    assert_eq!(cpu.run_next_instruction(), Ok(8));
    assert_eq!(cpu.flags, Flags { zero: false, subtract: false, half_carry: true, carry: true });
    assert_eq!(cpu.simple_registers[0], 0x80);
    assert_eq!(cpu.program_counter, 2);
    // the same with the carry clear before: it stays clear
    let mut cpu = machine(&[0xCB, 0x78]);
    cpu.simple_registers[0] = 0x80;
    assert_eq!(cpu.run_next_instruction(), Ok(8));
    assert_eq!(cpu.flags, Flags { zero: false, subtract: false, half_carry: true, carry: false });
    // bit 6 of the same register is clear
    let mut cpu = machine(&[0xCB, 0x70]);
    cpu.simple_registers[0] = 0x80;
    assert_eq!(cpu.run_next_instruction(), Ok(8));
    assert_eq!(cpu.flags, Flags { zero: true, subtract: false, half_carry: true, carry: false });
}

#[test]
fn extended_bit_test_through_pointer_pair() {
    let mut cpu = machine(&[0xCB, 0x7E]);
    cpu.simple_registers[4] = 0xC0;
    cpu.simple_registers[5] = 0x00;
    cpu.memory_map.store_byte(0xC000, 0x80);
    cpu.flags.carry = true;
    assert_eq!(cpu.run_next_instruction(), Ok(16));
    assert_eq!(cpu.flags, Flags { zero: false, subtract: false, half_carry: true, carry: true });
    assert_eq!(cpu.memory_map.fetch_byte(0xC000), 0x80);
    assert_eq!(cpu.memory_map.clock(), 16);
}

#[test]
fn unsupported_opcode_is_reported_with_its_address() {
    let mut cpu = machine(&[0x00, 0xD3]);
    assert_eq!(cpu.run_next_instruction(), Ok(4));
    assert_eq!(
        cpu.run_next_instruction(),
        Err(Fatal::UnsupportedOpcode { opcode: 0xD3, pc: 1 })
    );
}

#[test]
fn unsupported_extended_opcode_is_reported_with_its_address() {
    let mut cpu = machine(&[0x00, 0xCB, 0x08]);
    assert_eq!(cpu.run_next_instruction(), Ok(4));
    assert_eq!(
        cpu.run_next_instruction(),
        Err(Fatal::UnsupportedExtendedOpcode { opcode: 0x08, pc: 2 })
    );
}

#[test]
fn stop_is_fatal() {
    let mut cpu = machine(&[0x10, 0x00]);
    assert_eq!(cpu.run_next_instruction(), Err(Fatal::Stop));
    assert_eq!(cpu.program_counter, 2);
    let mut cpu = machine(&[]);
    assert_eq!(cpu.stop(), Fatal::Stop);
}

#[test]
fn program_counter_wraps() {
    let mut bus = FlatBus::new();
    bus.store_byte(0xFFFF, 0x00);
    let mut cpu = Cpu::new(bus);
    cpu.program_counter = 0xFFFF;
    assert_eq!(cpu.run_next_instruction(), Ok(4));
    assert_eq!(cpu.program_counter, 0);
}

#[test]
fn stack_pointer_wraps() {
    let mut cpu = machine(&[]);
    cpu.stack_pointer = 0x0001;
    cpu.push_stack(0xBEEF);
    assert_eq!(cpu.stack_pointer, 0xFFFF);
    assert_eq!(cpu.memory_map.fetch_byte(0x0000), 0xBE);
    assert_eq!(cpu.memory_map.fetch_byte(0xFFFF), 0xEF);
    assert_eq!(cpu.pop_stack(), 0xBEEF);
    assert_eq!(cpu.stack_pointer, 0x0001);
    cpu.stack_pointer = 0xFFFF;
    cpu.instruction_cycles = 0;
    cpu.memory_map.store_byte(0xFFFF, 0x77);
    assert_eq!(cpu.read_and_advance_stack_pointer(), 0x77);
    assert_eq!(cpu.stack_pointer, 0);
}
