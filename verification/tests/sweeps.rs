use gamedorp::bus::Bus;
use gamedorp::cpu::model::Flags;
use gamedorp::cpu::{CanRunInstruction, Cpu};
use gamedorp::flat::FlatBus;

const POINTER: u16 = 0xC123;

/// A machine with the given opcode bytes at 0x0100, distinct values in every
/// register and a byte at the address in the pointer pair.
fn machine(program: &[u8], accumulator: u8, memory: u8, flags: Flags) -> Cpu<FlatBus> {
    let mut bus = FlatBus::new();
    for (i, byte) in program.iter().enumerate() {
        bus.store_byte(0x0100 + i as u16, *byte);
    }
    bus.store_byte(POINTER, memory);
    let mut cpu = Cpu::new(bus);
    cpu.program_counter = 0x0100;
    cpu.accumulator = accumulator;
    cpu.simple_registers = [0x1B, 0x2C, 0x3D, 0x4E, 0xC1, 0x23];
    cpu.flags = flags;
    cpu
}

/// The operand with the given index: B, C, D, E, H, L, the byte at the
/// pointer pair, the accumulator.
fn operand(cpu: &Cpu<FlatBus>, index: u8) -> u8 {
    match index {
        0..=5 => cpu.simple_registers[index as usize],
        6 => cpu.memory_map.fetch_byte(POINTER),
        _ => cpu.accumulator,
    }
}

fn all_flags() -> Vec<Flags> {
    let mut all = Vec::new();
    for bits in 0..16u8 {
        all.push(Flags {
            zero: bits & 8 != 0,
            subtract: bits & 4 != 0,
            half_carry: bits & 2 != 0,
            carry: bits & 1 != 0,
        });
    }
    all
}

#[test]
fn every_register_to_register_load() {
    let clear = Flags { zero: false, subtract: false, half_carry: false, carry: false };
    for opcode in 0x40..=0x7Fu8 {
        if opcode == 0x76 {
            continue;
        }
        let mut cpu = machine(&[opcode], 0x9A, 0x5F, clear);
        let source = opcode & 7;
        let target = (opcode >> 3) & 7;
        let value = operand(&cpu, source);
        let mut expected: Vec<u8> = (0..8).map(|i| operand(&cpu, i)).collect();
        expected[target as usize] = value;
        let cycles = if source == 6 || target == 6 { 8 } else { 4 };
        assert_eq!(cpu.run_next_instruction(), Ok(cycles), "opcode {:#04x}", opcode);
        let after: Vec<u8> = (0..8).map(|i| operand(&cpu, i)).collect();
        assert_eq!(after, expected, "opcode {:#04x}", opcode);
        assert_eq!(cpu.flags, clear);
        assert_eq!(cpu.program_counter, 0x0101);
    }
}

/// The result and the flags of the operation in row `row` of the block of
/// the operations of the accumulator with a source.
fn arithmetic(row: u8, a: u8, b: u8, before: Flags) -> (u8, Flags) {
    let carry = before.carry as u16;
    match row {
        0 | 1 => {
            let c = if row == 1 { carry } else { 0 };
            let sum = a as u16 + b as u16 + c;
            (
                sum as u8,
                Flags {
                    zero: sum as u8 == 0,
                    subtract: false,
                    half_carry: (a & 0x0F) as u16 + (b & 0x0F) as u16 + c > 0x0F,
                    carry: sum > 0xFF,
                },
            )
        }
        2 | 7 => {
            let difference = a.wrapping_sub(b);
            let flags = Flags {
                zero: a == b,
                subtract: true,
                half_carry: (a & 0x0F) < (b & 0x0F),
                carry: a < b,
            };
            (if row == 7 { a } else { difference }, flags)
        }
        4 => (a & b, Flags { zero: a & b == 0, subtract: false, half_carry: true, carry: false }),
        5 => (a ^ b, Flags { zero: a ^ b == 0, subtract: false, half_carry: false, carry: false }),
        _ => (a | b, Flags { zero: a | b == 0, subtract: false, half_carry: false, carry: false }),
    }
}

#[test]
fn every_operation_of_the_accumulator_with_a_source() {
    let values = [0x00u8, 0x01, 0x0F, 0x10, 0x7F, 0x80, 0x9A, 0xF0, 0xFF];
    for opcode in 0x80..=0xBFu8 {
        let row = (opcode >> 3) & 7;
        if row == 3 {
            continue;
        }
        let source = opcode & 7;
        for a in values {
            for memory in values {
                for carry in [false, true] {
                    let before = Flags { zero: false, subtract: true, half_carry: false, carry };
                    let mut cpu = machine(&[opcode], a, memory, before);
                    let b = operand(&cpu, source);
                    let (result, flags) = arithmetic(row, a, b, before);
                    let cycles = if source == 6 { 8 } else { 4 };
                    assert_eq!(cpu.run_next_instruction(), Ok(cycles), "opcode {:#04x}", opcode);
                    assert_eq!(cpu.accumulator, result, "opcode {:#04x}, {:#04x}, {:#04x}", opcode, a, b);
                    assert_eq!(cpu.flags, flags, "opcode {:#04x}, {:#04x}, {:#04x}", opcode, a, b);
                    assert_eq!(cpu.simple_registers, [0x1B, 0x2C, 0x3D, 0x4E, 0xC1, 0x23]);
                    assert_eq!(cpu.memory_map.fetch_byte(POINTER), memory);
                }
            }
        }
    }
    // the same operations with the byte behind the opcode
    let immediates = [(0xC6u8, 0u8), (0xCE, 1), (0xD6, 2), (0xE6, 4), (0xEE, 5), (0xF6, 6), (0xFE, 7)];
    for (opcode, row) in immediates {
        for a in values {
            for b in values {
                for carry in [false, true] {
                    let before = Flags { zero: true, subtract: false, half_carry: true, carry };
                    let mut cpu = machine(&[opcode, b], a, 0x00, before);
                    let (result, flags) = arithmetic(row, a, b, before);
                    assert_eq!(cpu.run_next_instruction(), Ok(8), "opcode {:#04x}", opcode);
                    assert_eq!(cpu.accumulator, result, "opcode {:#04x}, {:#04x}, {:#04x}", opcode, a, b);
                    assert_eq!(cpu.flags, flags, "opcode {:#04x}, {:#04x}, {:#04x}", opcode, a, b);
                    assert_eq!(cpu.program_counter, 0x0102);
                }
            }
        }
    }
}

#[test]
fn every_increment_and_decrement_of_an_operand() {
    for target in 0..8u8 {
        for value in [0x00u8, 0x01, 0x0F, 0x10, 0x7F, 0x80, 0xFF] {
            for (opcode, up) in [(0x04 | (target << 3), true), (0x05 | (target << 3), false)] {
                for before in all_flags() {
                    let mut cpu = machine(&[opcode], 0x9A, 0x5F, before);
                    match target {
                        0..=5 => cpu.simple_registers[target as usize] = value,
                        6 => cpu.memory_map.store_byte(POINTER, value),
                        _ => cpu.accumulator = value,
                    }
                    if target == 4 || target == 5 {
                        // the pointer pair itself changes: nothing to read through it
                        cpu.memory_map.store_byte(POINTER, 0x5F);
                    }
                    let mut expected: Vec<u8> = (0..6).map(|i| operand(&cpu, i)).collect();
                    expected.push(if target == 6 { value } else { 0x5F });
                    expected.push(cpu.accumulator);
                    let result = if up { value.wrapping_add(1) } else { value.wrapping_sub(1) };
                    expected[target as usize] = result;
                    let flags = Flags {
                        zero: result == 0,
                        subtract: !up,
                        half_carry: if up { value & 0x0F == 0x0F } else { value & 0x0F == 0 },
                        carry: before.carry,
                    };
                    let cycles = if target == 6 { 12 } else { 4 };
                    assert_eq!(cpu.run_next_instruction(), Ok(cycles), "opcode {:#04x}", opcode);
                    let mut after: Vec<u8> = cpu.simple_registers.to_vec();
                    after.push(cpu.memory_map.fetch_byte(POINTER));
                    after.push(cpu.accumulator);
                    assert_eq!(after, expected, "opcode {:#04x}, {:#04x}", opcode, value);
                    assert_eq!(cpu.flags, flags, "opcode {:#04x}, {:#04x}", opcode, value);
                }
            }
        }
    }
}

/// The result and the flags of the extended operation with opcode `opcode`
/// on `value`; `None` for the opcodes that the core does not provide.
fn extended(opcode: u8, value: u8, before: Flags) -> Option<(Option<u8>, Flags)> {
    let bit = (opcode >> 3) & 7;
    let shifted = |result: u8, carry: bool| {
        Some((
            Some(result),
            Flags { zero: result == 0, subtract: false, half_carry: false, carry },
        ))
    };
    match opcode >> 3 {
        0x02 => shifted((value << 1) | before.carry as u8, value & 0x80 != 0),
        0x04 => shifted(value << 1, value & 0x80 != 0),
        0x06 => shifted((value << 4) | (value >> 4), false),
        0x07 => shifted(value >> 1, value & 1 != 0),
        0x08..=0x0F => Some((
            None,
            Flags {
                zero: value & (1 << bit) == 0,
                subtract: false,
                half_carry: true,
                carry: before.carry,
            },
        )),
        0x10..=0x17 => Some((Some(value & !(1 << bit)), before)),
        0x18..=0x1F => Some((Some(value | (1 << bit)), before)),
        _ => None,
    }
}

#[test]
fn every_extended_operation() {
    for opcode in 0..=255u8 {
        let target = opcode & 7;
        for value in [0x00u8, 0x01, 0x0F, 0x5A, 0x80, 0xA5, 0xFF] {
            for before in all_flags() {
                let Some((result, flags)) = extended(opcode, value, before) else {
                    continue;
                };
                let mut cpu = machine(&[0xCB, opcode], 0x9A, 0x5F, before);
                match target {
                    0..=5 => cpu.simple_registers[target as usize] = value,
                    6 => cpu.memory_map.store_byte(POINTER, value),
                    _ => cpu.accumulator = value,
                }
                if target == 4 || target == 5 {
                    cpu.memory_map.store_byte(POINTER, 0x5F);
                }
                let mut expected: Vec<u8> = cpu.simple_registers.to_vec();
                expected.push(if target == 6 { value } else { 0x5F });
                expected.push(cpu.accumulator);
                if let Some(result) = result {
                    expected[target as usize] = result;
                }
                let cycles = if target == 6 { 16 } else { 8 };
                assert_eq!(cpu.run_next_instruction(), Ok(cycles), "extended {:#04x}", opcode);
                let mut after: Vec<u8> = cpu.simple_registers.to_vec();
                after.push(cpu.memory_map.fetch_byte(POINTER));
                after.push(cpu.accumulator);
                assert_eq!(after, expected, "extended {:#04x}, {:#04x}", opcode, value);
                assert_eq!(cpu.flags, flags, "extended {:#04x}, {:#04x}", opcode, value);
                assert_eq!(cpu.program_counter, 0x0102);
            }
        }
    }
}

#[test]
fn every_wide_load_increment_decrement_and_addition() {
    let clear = Flags { zero: true, subtract: true, half_carry: false, carry: false };
    let wide = |cpu: &Cpu<FlatBus>, index: u8| -> u16 {
        match index {
            0 => (cpu.simple_registers[0] as u16) << 8 | cpu.simple_registers[1] as u16,
            1 => (cpu.simple_registers[2] as u16) << 8 | cpu.simple_registers[3] as u16,
            2 => (cpu.simple_registers[4] as u16) << 8 | cpu.simple_registers[5] as u16,
            _ => cpu.stack_pointer,
        }
    };
    for index in 0..4u8 {
        // load the value behind the opcode
        let mut cpu = machine(&[0x01 | (index << 4), 0xEF, 0xBE], 0, 0, clear);
        assert_eq!(cpu.run_next_instruction(), Ok(12));
        assert_eq!(wide(&cpu, index), 0xBEEF);
        for other in 0..4u8 {
            if other != index {
                assert_eq!(wide(&cpu, other), wide(&machine(&[], 0, 0, clear), other));
            }
        }
        assert_eq!(cpu.flags, clear);
        // increment and decrement, over the ends
        for (start, opcode, end) in [
            (0xFFFFu16, 0x03u8, 0x0000u16),
            (0x00FF, 0x03, 0x0100),
            (0x0000, 0x0B, 0xFFFF),
            (0x0100, 0x0B, 0x00FF),
        ] {
            let mut cpu = machine(&[0x01 | (index << 4), start as u8, (start >> 8) as u8, opcode | (index << 4)], 0, 0, clear);
            assert_eq!(cpu.run_next_instruction(), Ok(12));
            assert_eq!(cpu.run_next_instruction(), Ok(8));
            assert_eq!(wide(&cpu, index), end);
            assert_eq!(cpu.flags, clear);
        }
        // add to the pointer pair
        for (hl, value) in [(0x0FFFu16, 0x0001u16), (0xFFFF, 0x0001), (0x8000, 0x8000), (0x1234, 0x1111)] {
            let mut cpu = machine(&[0x09 | (index << 4)], 0, 0, clear);
            cpu.simple_registers[4] = (hl >> 8) as u8;
            cpu.simple_registers[5] = hl as u8;
            let addend = if index == 2 {
                hl
            } else {
                match index {
                    0 => {
                        cpu.simple_registers[0] = (value >> 8) as u8;
                        cpu.simple_registers[1] = value as u8;
                    }
                    1 => {
                        cpu.simple_registers[2] = (value >> 8) as u8;
                        cpu.simple_registers[3] = value as u8;
                    }
                    _ => cpu.stack_pointer = value,
                }
                value
            };
            assert_eq!(cpu.run_next_instruction(), Ok(8));
            assert_eq!(wide(&cpu, 2), hl.wrapping_add(addend));
            assert_eq!(
                cpu.flags,
                Flags {
                    zero: true,
                    subtract: false,
                    half_carry: (hl & 0x0FFF) + (addend & 0x0FFF) > 0x0FFF,
                    carry: hl as u32 + addend as u32 > 0xFFFF,
                }
            );
        }
    }
}
