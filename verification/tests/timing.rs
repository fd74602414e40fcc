use gamedorp::bus::Bus;
use gamedorp::cpu::model::Flags;
use gamedorp::cpu::{CanRunInstruction, Cpu, Fatal};
use gamedorp::flat::FlatBus;

/// The clock periods of each primary opcode as (not taken, taken); zero for
/// the opcodes that the core does not provide.
fn reference(opcode: u8) -> (u8, u8) {
    let table: [[u8; 16]; 16] = [
        [4, 12, 8, 8, 4, 4, 8, 4, 20, 8, 8, 8, 4, 4, 8, 0],
        [0, 12, 8, 8, 4, 4, 8, 4, 12, 8, 8, 8, 4, 4, 8, 0],
        [8, 12, 8, 8, 4, 4, 8, 4, 8, 8, 8, 8, 4, 4, 8, 4],
        [8, 12, 8, 8, 12, 12, 12, 4, 8, 8, 8, 8, 4, 4, 8, 0],
        [4, 4, 4, 4, 4, 4, 8, 4, 4, 4, 4, 4, 4, 4, 8, 4],
        [4, 4, 4, 4, 4, 4, 8, 4, 4, 4, 4, 4, 4, 4, 8, 4],
        [4, 4, 4, 4, 4, 4, 8, 4, 4, 4, 4, 4, 4, 4, 8, 4],
        [8, 8, 8, 8, 8, 8, 4, 8, 4, 4, 4, 4, 4, 4, 8, 4],
        [4, 4, 4, 4, 4, 4, 8, 4, 4, 4, 4, 4, 4, 4, 8, 4],
        [4, 4, 4, 4, 4, 4, 8, 4, 0, 0, 0, 0, 0, 0, 0, 0],
        [4, 4, 4, 4, 4, 4, 8, 4, 4, 4, 4, 4, 4, 4, 8, 4],
        [4, 4, 4, 4, 4, 4, 8, 4, 4, 4, 4, 4, 4, 4, 8, 4],
        [8, 12, 12, 16, 12, 16, 8, 16, 8, 16, 12, 0, 12, 24, 8, 16],
        [8, 12, 12, 0, 12, 16, 8, 16, 8, 16, 12, 0, 12, 0, 0, 16],
        [12, 12, 8, 0, 0, 16, 8, 16, 0, 4, 16, 0, 0, 0, 8, 16],
        [12, 12, 8, 4, 0, 16, 8, 16, 0, 8, 16, 4, 0, 0, 8, 16],
    ];
    let base = table[(opcode >> 4) as usize][(opcode & 0x0F) as usize];
    let taken = match opcode {
        0x20 | 0x28 | 0x30 | 0x38 => 12,
        0xC2 | 0xCA | 0xD2 | 0xDA => 16,
        0xC4 | 0xCC | 0xD4 | 0xDC => 24,
        0xC0 | 0xC8 | 0xD0 | 0xD8 => 20,
        _ => base,
    };
    (base, taken)
}

fn condition_holds(opcode: u8, flags: Flags) -> bool {
    match (opcode >> 3) & 3 {
        0 => !flags.zero,
        1 => flags.zero,
        2 => !flags.carry,
        _ => flags.carry,
    }
}

fn machine_at(opcode: u8, flags: Flags) -> Cpu<FlatBus> {
    let mut bus = FlatBus::new();
    bus.store_byte(0x0100, opcode);
    bus.store_byte(0x0101, 0x02);
    bus.store_byte(0x0102, 0x03);
    let mut cpu = Cpu::new(bus);
    cpu.program_counter = 0x0100;
    cpu.stack_pointer = 0xD000;
    cpu.simple_registers = [0x11, 0x22, 0x33, 0x44, 0xC1, 0x00];
    cpu.flags = flags;
    cpu
}

#[test]
fn every_primary_opcode_takes_its_reference_time() {
    for zero in [false, true] {
        for carry in [false, true] {
            let flags = Flags { zero, subtract: false, half_carry: false, carry };
            for opcode in 0..=255u8 {
                if opcode == 0xCB || opcode == 0x10 {
                    continue;
                }
                let mut cpu = machine_at(opcode, flags);
                let (not_taken, taken) = reference(opcode);
                let result = cpu.run_next_instruction();
                if not_taken == 0 {
                    assert_eq!(
                        result,
                        Err(Fatal::UnsupportedOpcode { opcode, pc: 0x0100 }),
                        "opcode {:#04x}",
                        opcode
                    );
                } else {
                    let expected = if condition_holds(opcode, flags) { taken } else { not_taken };
                    assert_eq!(result, Ok(expected), "opcode {:#04x}", opcode);
                    // the bus has been advanced by as many clock periods
                    assert_eq!(cpu.memory_map.clock(), expected as u64, "opcode {:#04x}", opcode);
                    assert_eq!(cpu.instruction_cycles, expected, "opcode {:#04x}", opcode);
                }
            }
        }
    }
}

#[test]
fn every_extended_opcode_takes_its_reference_time() {
    for opcode in 0..=255u8 {
        let mut bus = FlatBus::new();
        bus.store_byte(0x0100, 0xCB);
        bus.store_byte(0x0101, opcode);
        let mut cpu = Cpu::new(bus);
        cpu.program_counter = 0x0100;
        cpu.simple_registers = [0x11, 0x22, 0x33, 0x44, 0xC1, 0x00];
        let result = cpu.run_next_instruction();
        let provided = !(opcode < 0x10 || (0x18..0x20).contains(&opcode) || (0x28..0x30).contains(&opcode));
        if provided {
            let expected = if opcode & 7 == 6 { 16 } else { 8 };
            assert_eq!(result, Ok(expected), "extended opcode {:#04x}", opcode);
            assert_eq!(cpu.memory_map.clock(), expected as u64);
            assert_eq!(cpu.program_counter, 0x0102);
        } else {
            assert_eq!(
                result,
                Err(Fatal::UnsupportedExtendedOpcode { opcode, pc: 0x0101 }),
                "extended opcode {:#04x}",
                opcode
            );
        }
    }
}

#[test]
fn relative_jump_taken_and_not_taken() {
    // jump if not zero, forward by 5
    let mut cpu = machine_at(0x20, Flags { zero: false, subtract: false, half_carry: false, carry: false });
    cpu.memory_map.store_byte(0x0101, 0x05);
    assert_eq!(cpu.run_next_instruction(), Ok(12));
    assert_eq!(cpu.program_counter, 0x0107);
    let mut cpu = machine_at(0x20, Flags { zero: true, subtract: false, half_carry: false, carry: false });
    cpu.memory_map.store_byte(0x0101, 0x05);
    assert_eq!(cpu.run_next_instruction(), Ok(8));
    assert_eq!(cpu.program_counter, 0x0102);
    // unconditional, backward by 2: onto itself
    let mut cpu = machine_at(0x18, Flags { zero: true, subtract: false, half_carry: false, carry: false });
    cpu.memory_map.store_byte(0x0101, 0xFE);
    assert_eq!(cpu.run_next_instruction(), Ok(12));
    assert_eq!(cpu.program_counter, 0x0100);
    // backward by 128
    let mut cpu = machine_at(0x38, Flags { zero: false, subtract: false, half_carry: false, carry: true });
    cpu.memory_map.store_byte(0x0101, 0x80);
    assert_eq!(cpu.run_next_instruction(), Ok(12));
    assert_eq!(cpu.program_counter, 0x0082);
}

#[test]
fn conditional_call_taken_and_not_taken() {
    let set = Flags { zero: true, subtract: false, half_carry: false, carry: false };
    let mut cpu = machine_at(0xCC, set);
    assert_eq!(cpu.run_next_instruction(), Ok(24));
    assert_eq!(cpu.program_counter, 0x0302);
    assert_eq!(cpu.stack_pointer, 0xCFFE);
    assert_eq!(cpu.memory_map.fetch_byte(0xCFFF), 0x01);
    assert_eq!(cpu.memory_map.fetch_byte(0xCFFE), 0x03);
    let mut cpu = machine_at(0xC4, set);
    assert_eq!(cpu.run_next_instruction(), Ok(12));
    assert_eq!(cpu.program_counter, 0x0103);
    assert_eq!(cpu.stack_pointer, 0xD000);
}

#[test]
fn call_and_return() {
    let clear = Flags { zero: false, subtract: false, half_carry: false, carry: false };
    let mut cpu = machine_at(0xCD, clear);
    cpu.memory_map.store_byte(0x0302, 0xC9);
    assert_eq!(cpu.run_next_instruction(), Ok(24));
    assert_eq!(cpu.program_counter, 0x0302);
    assert_eq!(cpu.stack_pointer, 0xCFFE);
    assert_eq!(cpu.run_next_instruction(), Ok(16));
    assert_eq!(cpu.program_counter, 0x0103);
    assert_eq!(cpu.stack_pointer, 0xD000);
}

#[test]
fn conditional_return_taken_and_not_taken() {
    let set = Flags { zero: false, subtract: false, half_carry: false, carry: true };
    let mut cpu = machine_at(0xD8, set);
    cpu.push_stack(0x4321);
    cpu.instruction_cycles = 0;
    assert_eq!(cpu.run_next_instruction(), Ok(20));
    assert_eq!(cpu.program_counter, 0x4321);
    assert_eq!(cpu.stack_pointer, 0xD000);
    let mut cpu = machine_at(0xD0, set);
    cpu.push_stack(0x4321);
    assert_eq!(cpu.run_next_instruction(), Ok(8));
    assert_eq!(cpu.program_counter, 0x0101);
    assert_eq!(cpu.stack_pointer, 0xCFFE);
}

#[test]
fn wide_increment_costs_more_than_narrow_increment() {
    let clear = Flags { zero: false, subtract: false, half_carry: false, carry: false };
    let mut cpu = machine_at(0x03, clear);
    cpu.simple_registers[0] = 0x00;
    cpu.simple_registers[1] = 0xFF;
    assert_eq!(cpu.run_next_instruction(), Ok(8));
    assert_eq!(cpu.simple_registers[0], 0x01);
    assert_eq!(cpu.simple_registers[1], 0x00);
    assert_eq!(cpu.flags, clear);
    let mut cpu = machine_at(0x04, clear);
    assert_eq!(cpu.run_next_instruction(), Ok(4));
    assert_eq!(cpu.simple_registers[0], 0x12);
    let mut cpu = machine_at(0x0B, clear);
    cpu.simple_registers[0] = 0x00;
    cpu.simple_registers[1] = 0x00;
    assert_eq!(cpu.run_next_instruction(), Ok(8));
    assert_eq!(cpu.simple_registers[0], 0xFF);
    assert_eq!(cpu.simple_registers[1], 0xFF);
    // the stack pointer is the fourth 16-bit register
    let mut cpu = machine_at(0x33, clear);
    assert_eq!(cpu.run_next_instruction(), Ok(8));
    assert_eq!(cpu.stack_pointer, 0xD001);
    let mut cpu = machine_at(0x3B, clear);
    assert_eq!(cpu.run_next_instruction(), Ok(8));
    assert_eq!(cpu.stack_pointer, 0xCFFF);
}

#[test]
fn restart_calls_a_fixed_address() {
    let clear = Flags { zero: false, subtract: false, half_carry: false, carry: false };
    let targets = [
        (0xC7u8, 0x00u16),
        (0xCF, 0x08),
        (0xD7, 0x10),
        (0xDF, 0x18),
        (0xE7, 0x20),
        (0xEF, 0x28),
        (0xF7, 0x30),
        (0xFF, 0x38),
    ];
    for (opcode, target) in targets {
        let mut cpu = machine_at(opcode, clear);
        assert_eq!(cpu.run_next_instruction(), Ok(16));
        assert_eq!(cpu.program_counter, target);
        assert_eq!(cpu.stack_pointer, 0xCFFE);
        assert_eq!(cpu.memory_map.fetch_byte(0xCFFF), 0x01);
        assert_eq!(cpu.memory_map.fetch_byte(0xCFFE), 0x01);
    }
}
