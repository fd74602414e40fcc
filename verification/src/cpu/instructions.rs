//! The handlers of the two opcode tables. A handler looks at the opcode and
//! at its two nibbles; where the opcode is one of its instruction's, it
//! carries the instruction out and reports a match with the clock periods of
//! the whole instruction.

use vstd::prelude::*;
use crate::bits::{
    bit_at, bits_from_bytes, bits_intersect, bits_to_bytes, byte_bit, lemma_masked_byte, msb_first,
};
use crate::bus::Bus;
use crate::cpu::alu::{
    add16, add8, bit_is_zero, dec_flags, inc_flags, lemma_add16_bits, lemma_add_bits, lemma_adjust_bits,
    lemma_high_page, lemma_shift_bits, lemma_sub_bits, lemma_swap_bits, logic_flags, relative,
    rotated_left, shift_flags, sub8, swapped, with_bit_clear, with_bit_set,
};
use crate::cpu::model::Flags;
use crate::cpu::{Cpu, Fatal, split_word};
use crate::cpu::semantics;
use crate::cpu::semantics::{
    ExtendedHandler, Handler, carries_out, dispatch_extended, extended_order, fits, halves,
    performs, primary_order, step_fits,
};
use crate::cpu::timing::lemma_dispatch_extended_cycles;

verus! {

/// The high nibble of a byte.
pub fn get_first_half(byte: u8) -> (half: u8)
    ensures
        half == byte / 16,
{
    let bytes: [u8; 1] = [byte];
    let mask: [u8; 1] = [0b11110000];
    let mut fh = bits_from_bytes(bytes.as_slice());
    let high = bits_from_bytes(mask.as_slice());
    proof {
        assert(bytes@ =~= seq![byte]);
        assert(mask@ =~= seq![0b11110000u8]);
        assert(msb_first(bytes@).len() == msb_first(mask@).len());
    }
    let _ = bits_intersect(&mut fh, &high);
    let packed = bits_to_bytes(&fh);
    proof {
        lemma_masked_byte(byte, 0b11110000u8, packed@);
        assert((byte & 0b11110000u8) >> 4 == byte / 16) by (bit_vector);
    }
    packed[0] >> 4
}

/// The low nibble of a byte.
pub fn get_second_half(byte: u8) -> (half: u8)
    ensures
        half == byte % 16,
{
    let bytes: [u8; 1] = [byte];
    let mask: [u8; 1] = [0b00001111];
    let mut sh = bits_from_bytes(bytes.as_slice());
    let low = bits_from_bytes(mask.as_slice());
    proof {
        assert(bytes@ =~= seq![byte]);
        assert(mask@ =~= seq![0b00001111u8]);
        assert(msb_first(bytes@).len() == msb_first(mask@).len());
    }
    let _ = bits_intersect(&mut sh, &low);
    let packed = bits_to_bytes(&sh);
    proof {
        lemma_masked_byte(byte, 0b00001111u8, packed@);
        assert(byte & 0b00001111u8 == byte % 16) by (bit_vector);
    }
    let second_half: u8 = packed[0];
    second_half
}

/// The high and the low nibble of a byte.
pub fn split_into_halves(byte: u8) -> (r: (u8, u8))
    ensures
        halves(byte, r.0, r.1),
{
    (get_first_half(byte), get_second_half(byte))
}

/// 0x00: no operation.
pub fn nop<B: Bus>(cpu: &mut Cpu<B>, instruction: u8, first_half: u8, second_half: u8) -> (r: (
    bool,
    u8,
))
    requires
        halves(instruction, first_half, second_half),
    ensures
        performs(r, final(cpu)@, old(cpu)@, semantics::nop(old(cpu)@, instruction)),
{
    if instruction == 0 {
        return (true, 4);
    }
    (false, 0)
}

/// The general register that the opcode of a load of an immediate byte
/// names.
pub fn ld_immediate_value_map(instruction: u8) -> (index: Option<u8>)
    ensures
        index == semantics::immediate_target(instruction),
{
    match instruction {
        0x06 => Some(0),
        0x0E => Some(1),
        0x16 => Some(2),
        0x1E => Some(3),
        0x26 => Some(4),
        0x2E => Some(5),
        _ => None,
    }
}

/// 0x06 + 8 * r, 0x36: load the byte behind the opcode into a general
/// register, or store it at the address in the pointer pair.
pub fn ld_immediate_value_8_bit<B: Bus>(
    cpu: &mut Cpu<B>,
    instruction: u8,
    first_half: u8,
    second_half: u8,
) -> (r: (bool, u8))
    requires
        halves(instruction, first_half, second_half),
        fits(semantics::ld_immediate_value_8_bit(old(cpu)@, instruction)),
    ensures
        performs(r, final(cpu)@, old(cpu)@, semantics::ld_immediate_value_8_bit(old(cpu)@, instruction)),
{
    let register_index = ld_immediate_value_map(instruction);
    if let Some(register_index) = register_index {
        let value = cpu.read_and_advance_program_counter();
        cpu.simple_registers[register_index as usize] = value;
        return (true, 8);
    }
    if instruction == 0x36 {
        let value = cpu.read_and_advance_program_counter();
        let address = cpu.read_hl_address();
        cpu.store_byte(address, value);
        return (true, 12);
    }
    (false, 0)
}

/// 0x01, 0x11, 0x21, 0x31: load the 16-bit value behind the opcode into a
/// register pair or into the stack pointer.
pub fn ld_immediate_value_16_bit<B: Bus>(
    cpu: &mut Cpu<B>,
    instruction: u8,
    first_half: u8,
    second_half: u8,
) -> (r: (bool, u8))
    requires
        halves(instruction, first_half, second_half),
        fits(semantics::ld_immediate_value_16_bit(old(cpu)@, instruction)),
    ensures
        performs(r, final(cpu)@, old(cpu)@, semantics::ld_immediate_value_16_bit(old(cpu)@, instruction)),
{
    if second_half == 1 && first_half < 4 {
        let value = cpu.read_immediate_value_16();
        if first_half == 3 {
            cpu.stack_pointer = value;
        } else {
            let offset = first_half * 2;
            cpu.write_combined_register(value, offset);
        }
        return (true, 12);
    }
    (false, 0)
}

/// Stores the general register with index `second_register_index` at the
/// address in the pointer pair.
pub fn load_into_hl<B: Bus>(cpu: &mut Cpu<B>, instruction: u8, second_register_index: u32)
    requires
        second_register_index < 6,
        old(cpu)@.cycles + 4 <= u8::MAX,
    ensures
        final(cpu)@ == old(cpu)@.write_operand(6, old(cpu)@.operand(second_register_index as u8)),
{
    let destination_address = cpu.read_hl_address();
    let value = cpu.simple_registers[second_register_index as usize];
    cpu.store_byte(destination_address, value);
}

/// 0x70 to 0x75: store a general register at the address in the pointer
/// pair.
pub fn load_n_into_hl<B: Bus>(
    cpu: &mut Cpu<B>,
    instruction: u8,
    first_half: u8,
    second_half: u8,
) -> (r: (bool, u8))
    requires
        halves(instruction, first_half, second_half),
        fits(semantics::load_n_into_hl(old(cpu)@, instruction)),
    ensures
        performs(r, final(cpu)@, old(cpu)@, semantics::load_n_into_hl(old(cpu)@, instruction)),
{
    if first_half == 0x7 && second_half <= 0x5 {
        let second_register_index: u32 = second_half as u32 % 8;
        load_into_hl(cpu, instruction, second_register_index);
        return (true, 8);
    }
    (false, 0)
}

/// 0x40 to 0x6F but for the loads from the accumulator: load a general
/// register from a general register or from the address in the pointer pair.
pub fn ld_r1_r2<B: Bus>(cpu: &mut Cpu<B>, instruction: u8, first_half: u8, second_half: u8) -> (r: (
    bool,
    u8,
))
    requires
        halves(instruction, first_half, second_half),
        fits(semantics::ld_r1_r2(old(cpu)@, instruction)),
    ensures
        performs(r, final(cpu)@, old(cpu)@, semantics::ld_r1_r2(old(cpu)@, instruction)),
{
    if first_half >= 4 && first_half <= 6 {
        let offset: u32 = second_half as u32 / 8;
        let first_register_index: u32 = (first_half as u32 - 4) * 2 + offset;
        let second_register_index: u32 = second_half as u32 % 8;
        if second_register_index < 6 {
            let value = cpu.simple_registers[second_register_index as usize];
            cpu.simple_registers[first_register_index as usize] = value;
            return (true, 4);
        } else if second_register_index == 6 {
            let address = cpu.read_hl_address();
            let value = cpu.fetch_byte(address);
            cpu.simple_registers[first_register_index as usize] = value;
            return (true, 8);
        }
        return (false, 0);
    }
    (false, 0)
}

/// 0x32: store the accumulator at the address in the pointer pair, then
/// decrement the pointer pair.
pub fn ldd_hl_a<B: Bus>(cpu: &mut Cpu<B>, instruction: u8, first_half: u8, second_half: u8) -> (r: (
    bool,
    u8,
))
    requires
        halves(instruction, first_half, second_half),
        fits(semantics::ldd_hl_a(old(cpu)@, instruction)),
    ensures
        performs(r, final(cpu)@, old(cpu)@, semantics::ldd_hl_a(old(cpu)@, instruction)),
{
    if instruction == 0x32 {
        let address = cpu.read_hl_address();
        let a = cpu.accumulator;
        cpu.store_byte(address, a);
        cpu.write_combined_register(address.wrapping_sub(1), 4);
        return (true, 8);
    }
    (false, 0)
}

/// 0x08: store the stack pointer at the address behind the opcode, low byte
/// first.
pub fn ldd_a16_sp<B: Bus>(
    cpu: &mut Cpu<B>,
    instruction: u8,
    first_half: u8,
    second_half: u8,
) -> (r: (bool, u8))
    requires
        halves(instruction, first_half, second_half),
        fits(semantics::ldd_a16_sp(old(cpu)@, instruction)),
    ensures
        performs(r, final(cpu)@, old(cpu)@, semantics::ldd_a16_sp(old(cpu)@, instruction)),
{
    if instruction == 0x8 {
        let address = cpu.read_immediate_value_16();
        let (high, low) = split_word(cpu.stack_pointer);
        cpu.store_byte(address, low);
        cpu.store_byte(address.wrapping_add(1), high);
        return (true, 20);
    }
    (false, 0)
}

/// 0x22: store the accumulator at the address in the pointer pair, then
/// increment the pointer pair.
pub fn ldi_hl_a<B: Bus>(cpu: &mut Cpu<B>, instruction: u8, first_half: u8, second_half: u8) -> (r: (
    bool,
    u8,
))
    requires
        halves(instruction, first_half, second_half),
        fits(semantics::ldi_hl_a(old(cpu)@, instruction)),
    ensures
        performs(r, final(cpu)@, old(cpu)@, semantics::ldi_hl_a(old(cpu)@, instruction)),
{
    if instruction == 0x22 {
        let address = cpu.read_hl_address();
        let a = cpu.accumulator;
        cpu.store_byte(address, a);
        cpu.write_combined_register(address.wrapping_add(1), 4);
        return (true, 8);
    }
    (false, 0)
}

/// 0x2A: load the accumulator from the address in the pointer pair, then
/// increment the pointer pair.
pub fn ldi_a_hl<B: Bus>(cpu: &mut Cpu<B>, instruction: u8, first_half: u8, second_half: u8) -> (r: (
    bool,
    u8,
))
    requires
        halves(instruction, first_half, second_half),
        fits(semantics::ldi_a_hl(old(cpu)@, instruction)),
    ensures
        performs(r, final(cpu)@, old(cpu)@, semantics::ldi_a_hl(old(cpu)@, instruction)),
{
    if instruction == 0x2A {
        let address = cpu.read_hl_address();
        let value = cpu.read_hl();
        cpu.accumulator = value;
        cpu.write_combined_register(address.wrapping_add(1), 4);
        return (true, 8);
    }
    (false, 0)
}

/// 0x3A: load the accumulator from the address in the pointer pair, then
/// decrement the pointer pair.
pub fn ldd_a_hl<B: Bus>(cpu: &mut Cpu<B>, instruction: u8, first_half: u8, second_half: u8) -> (r: (
    bool,
    u8,
))
    requires
        halves(instruction, first_half, second_half),
        fits(semantics::ldd_a_hl(old(cpu)@, instruction)),
    ensures
        performs(r, final(cpu)@, old(cpu)@, semantics::ldd_a_hl(old(cpu)@, instruction)),
{
    if instruction == 0x3A {
        let address = cpu.read_hl_address();
        let value = cpu.read_hl();
        cpu.accumulator = value;
        cpu.write_combined_register(address.wrapping_sub(1), 4);
        return (true, 8);
    }
    (false, 0)
}

/// 0x78 to 0x7F, 0x0A, 0x1A, 0xFA, 0x3E: load the accumulator from an
/// operand, from the address in the pair BC or DE, from the address behind
/// the opcode, or from the byte behind the opcode.
pub fn ld_n_into_a<B: Bus>(
    cpu: &mut Cpu<B>,
    instruction: u8,
    first_half: u8,
    second_half: u8,
) -> (r: (bool, u8))
    requires
        halves(instruction, first_half, second_half),
        fits(semantics::ld_n_into_a(old(cpu)@, instruction)),
    ensures
        performs(r, final(cpu)@, old(cpu)@, semantics::ld_n_into_a(old(cpu)@, instruction)),
{
    if first_half == 7 && second_half >= 0x8 {
        if second_half == 0xF {
            cpu.accumulator = cpu.accumulator;
        } else if second_half == 0xE {
            cpu.accumulator = cpu.read_hl();
            return (true, 8);
        } else {
            cpu.accumulator = cpu.simple_registers[(second_half - 8) as usize];
        }
        return (true, 4);
    }
    match instruction {
        0x0A => {
            cpu.accumulator = cpu.read_bc();
        },
        0x1A => {
            cpu.accumulator = cpu.read_de();
        },
        0xFA => {
            let address = cpu.read_immediate_value_16();
            let value = cpu.fetch_byte(address);
            cpu.accumulator = value;
            return (true, 16);
        },
        0x3E => {
            let value = cpu.read_and_advance_program_counter();
            cpu.accumulator = value;
        },
        _ => {
            return (false, 0);
        },
    }
    return (true, 8);
}

/// 0x47 + 8 * r but 0x77, 0x02, 0x12, 0x77, 0xEA: store the accumulator in a
/// register, at the address in the pair BC, DE or HL, or at the address
/// behind the opcode.
pub fn ld_a_into_n<B: Bus>(
    cpu: &mut Cpu<B>,
    instruction: u8,
    first_half: u8,
    second_half: u8,
) -> (r: (bool, u8))
    requires
        halves(instruction, first_half, second_half),
        fits(semantics::ld_a_into_n(old(cpu)@, instruction)),
    ensures
        performs(r, final(cpu)@, old(cpu)@, semantics::ld_a_into_n(old(cpu)@, instruction)),
{
    let a = cpu.accumulator;
    match instruction {
        0x7F => {
            cpu.accumulator = a;
        },
        0x47 => {
            cpu.simple_registers[0] = a;
        },
        0x4F => {
            cpu.simple_registers[1] = a;
        },
        0x57 => {
            cpu.simple_registers[2] = a;
        },
        0x5F => {
            cpu.simple_registers[3] = a;
        },
        0x67 => {
            cpu.simple_registers[4] = a;
        },
        0x6F => {
            cpu.simple_registers[5] = a;
        },
        0x02 => {
            let address = cpu.read_combined_register(0);
            cpu.store_byte(address, a);
            return (true, 8);
        },
        0x12 => {
            let address = cpu.read_combined_register(2);
            cpu.store_byte(address, a);
            return (true, 8);
        },
        0x77 => {
            let address = cpu.read_combined_register(4);
            cpu.store_byte(address, a);
            return (true, 8);
        },
        0xEA => {
            let address = cpu.read_immediate_value_16();
            cpu.store_byte(address, a);
            return (true, 16);
        },
        _ => {
            return (false, 0);
        },
    }
    (true, 4)
}

/// 0xF2: load the accumulator from the last page, at the offset in
/// register C.
pub fn load_a_ff_c<B: Bus>(
    cpu: &mut Cpu<B>,
    instruction: u8,
    first_half: u8,
    second_half: u8,
) -> (r: (bool, u8))
    requires
        halves(instruction, first_half, second_half),
        fits(semantics::load_a_ff_c(old(cpu)@, instruction)),
    ensures
        performs(r, final(cpu)@, old(cpu)@, semantics::load_a_ff_c(old(cpu)@, instruction)),
{
    if instruction == 0xF2 {
        let value = cpu.fetch_byte(0xFF00 + cpu.simple_registers[1] as u16);
        cpu.accumulator = value;
        return (true, 8);
    }
    (false, 0)
}

/// 0xE2: store the accumulator in the last page, at the offset in
/// register C.
pub fn load_ff_c_a<B: Bus>(
    cpu: &mut Cpu<B>,
    instruction: u8,
    first_half: u8,
    second_half: u8,
) -> (r: (bool, u8))
    requires
        halves(instruction, first_half, second_half),
        fits(semantics::load_ff_c_a(old(cpu)@, instruction)),
    ensures
        performs(r, final(cpu)@, old(cpu)@, semantics::load_ff_c_a(old(cpu)@, instruction)),
{
    if instruction == 0xE2 {
        let address = 0xFF00 | cpu.simple_registers[1] as u16;
        proof {
            lemma_high_page(cpu.simple_registers[1]);
        }
        let a = cpu.accumulator;
        cpu.store_byte(address, a);
        return (true, 8);
    }
    (false, 0)
}

/// 0xE0: store the accumulator in the last page, at the offset behind the
/// opcode.
pub fn ldh_n_a<B: Bus>(cpu: &mut Cpu<B>, instruction: u8, first_half: u8, second_half: u8) -> (r: (
    bool,
    u8,
))
    requires
        halves(instruction, first_half, second_half),
        fits(semantics::ldh_n_a(old(cpu)@, instruction)),
    ensures
        performs(r, final(cpu)@, old(cpu)@, semantics::ldh_n_a(old(cpu)@, instruction)),
{
    if instruction == 0xE0 {
        let offset = cpu.read_and_advance_program_counter();
        let address = 0xFF00 | offset as u16;
        proof {
            lemma_high_page(offset);
        }
        let a = cpu.accumulator;
        cpu.store_byte(address, a);
        return (true, 12);
    }
    (false, 0)
}

/// 0xF0: load the accumulator from the last page, at the offset behind the
/// opcode.
pub fn ldh_a_n<B: Bus>(cpu: &mut Cpu<B>, instruction: u8, first_half: u8, second_half: u8) -> (r: (
    bool,
    u8,
))
    requires
        halves(instruction, first_half, second_half),
        fits(semantics::ldh_a_n(old(cpu)@, instruction)),
    ensures
        performs(r, final(cpu)@, old(cpu)@, semantics::ldh_a_n(old(cpu)@, instruction)),
{
    if instruction == 0xF0 {
        let offset = cpu.read_and_advance_program_counter();
        let address = 0xFF00 | offset as u16;
        proof {
            lemma_high_page(offset);
        }
        let value = cpu.fetch_byte(address);
        cpu.accumulator = value;
        return (true, 12);
    }
    (false, 0)
}

/// 0xF9: load the stack pointer from the pointer pair.
pub fn ld_sp_hl<B: Bus>(cpu: &mut Cpu<B>, instruction: u8, first_half: u8, second_half: u8) -> (r: (
    bool,
    u8,
))
    requires
        halves(instruction, first_half, second_half),
        fits(semantics::ld_sp_hl(old(cpu)@, instruction)),
    ensures
        performs(r, final(cpu)@, old(cpu)@, semantics::ld_sp_hl(old(cpu)@, instruction)),
{
    if instruction == 0xF9 {
        let value = cpu.read_hl_address();
        cpu.stack_pointer = value;
        cpu.delay(1);
        return (true, 8);
    }
    (false, 0)
}

/// 0x10: stop the machine until a button is pressed. The byte behind the
/// opcode is read; the core cannot go on.
pub fn stop<B: Bus>(cpu: &mut Cpu<B>, instruction: u8, first_half: u8, second_half: u8) -> (r: Result<
    (bool, u8),
    Fatal,
>)
    requires
        halves(instruction, first_half, second_half),
        step_fits(semantics::stop(old(cpu)@, instruction)),
    ensures
        carries_out(r, final(cpu)@, old(cpu)@, semantics::stop(old(cpu)@, instruction)),
{
    if instruction == 0x10 {
        let _ = cpu.read_and_advance_program_counter();
        return Err(cpu.stop());
    }
    Ok((false, 0))
}

/// Subtracts `b` from `a` and sets the flags: the carry is the borrow into
/// bit 7, the half carry the borrow into bit 3.
pub fn subtract_and_set_flags<B: Bus>(cpu: &mut Cpu<B>, a: u8, b: u8) -> (result: u8)
    ensures
        result == sub8(a, b).0,
        final(cpu)@ == old(cpu)@.with_flags(sub8(a, b).1),
{
    let a32 = a as u32;
    let b32 = b as u32;
    let result = a32.wrapping_sub(b32);
    proof {
        lemma_sub_bits(a32, b32, result);
    }
    let result_byte = (result & 0xFF) as u8;
    cpu.flags = Flags {
        zero: result_byte == 0,
        subtract: true,
        half_carry: (a32 ^ b32 ^ result) & 0x10 != 0,
        carry: result & 0x100 != 0,
    };
    result_byte
}

/// Adds `b` to `a` and sets the flags: the carry is the ninth bit of the
/// sum, the half carry the carry out of bit 3.
pub fn add_and_set_flags<B: Bus>(cpu: &mut Cpu<B>, a: u8, b: u8) -> (result: u8)
    ensures
        result == add8(a, b, false).0,
        final(cpu)@ == old(cpu)@.with_flags(add8(a, b, false).1),
{
    let a32 = a as u32;
    let b32 = b as u32;
    let result = a32.wrapping_add(b32);
    proof {
        lemma_add_bits(a32, b32, 0, result);
    }
    let result_byte = (result & 0xFF) as u8;
    cpu.flags = Flags {
        zero: result_byte == 0,
        subtract: false,
        half_carry: (a32 ^ b32 ^ result) & 0x10 != 0,
        carry: result & 0x100 != 0,
    };
    result_byte
}

/// Adds `b` to `a` in 16 bits, sets the carry, the half carry and the
/// subtract flag, and waits one machine cycle. The zero flag stays.
pub fn add_and_set_flags_16<B: Bus>(cpu: &mut Cpu<B>, a: u16, b: u16) -> (result: u16)
    requires
        old(cpu)@.cycles + 4 <= u8::MAX,
    ensures
        result == add16(a, b).0,
        final(cpu)@ == old(cpu)@.with_flags(
            Flags {
                zero: old(cpu)@.flags.zero,
                subtract: false,
                half_carry: add16(a, b).2,
                carry: add16(a, b).1,
            },
        ).delay(1),
{
    let a32 = a as u32;
    let b32 = b as u32;
    let result = a32.wrapping_add(b32);
    proof {
        lemma_add16_bits(a32, b32, result);
    }
    cpu.flags.carry = result & 0x10000 != 0;
    cpu.flags.half_carry = (a32 ^ b32 ^ result) & 0x1000 != 0;
    cpu.flags.subtract = false;
    cpu.delay(1);
    (result & 0xFFFF) as u16
}

/// Sets the flags of a bitwise operation that left the accumulator as it
/// is now: the zero flag says whether the accumulator is zero, the others
/// are cleared.
pub fn set_flags_for_xor<B: Bus>(cpu: &mut Cpu<B>)
    ensures
        final(cpu)@ == old(cpu)@.with_flags(logic_flags(old(cpu)@.accumulator, false)),
{
    cpu.flags = Flags {
        zero: cpu.accumulator == 0,
        subtract: false,
        half_carry: false,
        carry: false,
    };
}

/// 0xB8 to 0xBF, 0xFE: compare the accumulator with a source.
pub fn compare<B: Bus>(cpu: &mut Cpu<B>, instruction: u8, first_half: u8, second_half: u8) -> (r: (
    bool,
    u8,
))
    requires
        halves(instruction, first_half, second_half),
        fits(semantics::compare(old(cpu)@, instruction)),
    ensures
        performs(r, final(cpu)@, old(cpu)@, semantics::compare(old(cpu)@, instruction)),
{
    let from = cpu.accumulator;
    let mut to: u8 = 0;
    let mut cycles: u8 = 0;
    if instruction == 0xBF {
        to = cpu.accumulator;
        cycles = 4;
    } else if instruction == 0xFE {
        to = cpu.read_and_advance_program_counter();
        cycles = 8;
    } else if instruction == 0xBE {
        to = cpu.read_hl();
        cycles = 8;
    } else if first_half == 0xB && second_half <= 0xD && second_half >= 0x8 {
        to = cpu.simple_registers[(second_half - 8) as usize];
        cycles = 4;
    }
    if cycles > 0 {
        subtract_and_set_flags(cpu, from, to);
        return (true, cycles);
    }
    (false, 0)
}

/// 0x90 to 0x97, 0xD6: subtract a source from the accumulator.
pub fn subtract<B: Bus>(cpu: &mut Cpu<B>, instruction: u8, first_half: u8, second_half: u8) -> (r: (
    bool,
    u8,
))
    requires
        halves(instruction, first_half, second_half),
        fits(semantics::subtract(old(cpu)@, instruction)),
    ensures
        performs(r, final(cpu)@, old(cpu)@, semantics::subtract(old(cpu)@, instruction)),
{
    let a = cpu.accumulator;
    let (b, cycles): (u8, u8) = if instruction == 0x97 {
        (cpu.accumulator, 4)
    } else if instruction == 0x96 {
        (cpu.read_hl(), 8)
    } else if instruction == 0xD6 {
        (cpu.read_and_advance_program_counter(), 8)
    } else if first_half == 0x9 && second_half < 0x6 {
        (cpu.simple_registers[second_half as usize], 4)
    } else {
        (0, 0)
    };
    if cycles > 0 {
        cpu.accumulator = subtract_and_set_flags(cpu, a, b);
        return (true, cycles);
    }
    (false, 0)
}

/// 0x80 to 0x87, 0xC6: add a source to the accumulator.
pub fn add_a_n<B: Bus>(cpu: &mut Cpu<B>, instruction: u8, first_half: u8, second_half: u8) -> (r: (
    bool,
    u8,
))
    requires
        halves(instruction, first_half, second_half),
        fits(semantics::add_a_n(old(cpu)@, instruction)),
    ensures
        performs(r, final(cpu)@, old(cpu)@, semantics::add_a_n(old(cpu)@, instruction)),
{
    let a = cpu.accumulator;
    let (b, cycles): (u8, u8) = if instruction == 0x87 {
        (cpu.accumulator, 4)
    } else if instruction == 0x86 {
        (cpu.read_hl(), 8)
    } else if first_half == 0x8 && second_half < 0x6 {
        (cpu.simple_registers[second_half as usize], 4)
    } else if instruction == 0xC6 {
        (cpu.read_and_advance_program_counter(), 8)
    } else {
        (0, 0)
    };
    if cycles > 0 {
        cpu.accumulator = add_and_set_flags(cpu, a, b);
        return (true, cycles);
    }
    (false, 0)
}

/// 0x09, 0x19, 0x29, 0x39: add a register pair or the stack pointer to the
/// pointer pair.
pub fn add_hl_n<B: Bus>(cpu: &mut Cpu<B>, instruction: u8, first_half: u8, second_half: u8) -> (r: (
    bool,
    u8,
))
    requires
        halves(instruction, first_half, second_half),
        fits(semantics::add_hl_n(old(cpu)@, instruction)),
    ensures
        performs(r, final(cpu)@, old(cpu)@, semantics::add_hl_n(old(cpu)@, instruction)),
{
    if first_half <= 3 && second_half == 9 {
        let a = cpu.read_hl_address();
        let b = cpu.read_wide(first_half);
        let result = add_and_set_flags_16(cpu, a, b);
        cpu.write_combined_register(result, 4);
        return (true, 8);
    }
    (false, 0)
}

/// 0xC3: jump to the address behind the opcode.
pub fn jump<B: Bus>(cpu: &mut Cpu<B>, instruction: u8, first_half: u8, second_half: u8) -> (r: (
    bool,
    u8,
))
    requires
        halves(instruction, first_half, second_half),
        fits(semantics::jump(old(cpu)@, instruction)),
    ensures
        performs(r, final(cpu)@, old(cpu)@, semantics::jump(old(cpu)@, instruction)),
{
    if instruction == 0xc3 {
        let value = cpu.read_immediate_value_16();
        cpu.load_pc(value);
        return (true, 16);
    }
    (false, 0)
}

/// 0xC3, as `jump`: jump to the address behind the opcode.
pub fn jump_a16<B: Bus>(cpu: &mut Cpu<B>, instruction: u8, first_half: u8, second_half: u8) -> (r: (
    bool,
    u8,
))
    requires
        halves(instruction, first_half, second_half),
        fits(semantics::jump(old(cpu)@, instruction)),
    ensures
        performs(r, final(cpu)@, old(cpu)@, semantics::jump(old(cpu)@, instruction)),
{
    if instruction == 0xC3 {
        let value = cpu.read_immediate_value_16();
        cpu.load_pc(value);
        return (true, 16);
    }
    (false, 0)
}

/// 0xE9: jump to the address in the pointer pair.
pub fn jump_hl<B: Bus>(cpu: &mut Cpu<B>, instruction: u8, first_half: u8, second_half: u8) -> (r: (
    bool,
    u8,
))
    requires
        halves(instruction, first_half, second_half),
    ensures
        performs(r, final(cpu)@, old(cpu)@, semantics::jump_hl(old(cpu)@, instruction)),
{
    if instruction == 0xE9 {
        let value = cpu.read_hl_address();
        cpu.set_pc(value);
        return (true, 4);
    }
    (false, 0)
}

/// 0xA8 to 0xAF, 0xEE: bitwise "exclusive or" of the accumulator with a
/// source.
pub fn xor<B: Bus>(cpu: &mut Cpu<B>, instruction: u8, first_half: u8, second_half: u8) -> (r: (
    bool,
    u8,
))
    requires
        halves(instruction, first_half, second_half),
        fits(semantics::xor(old(cpu)@, instruction)),
    ensures
        performs(r, final(cpu)@, old(cpu)@, semantics::xor(old(cpu)@, instruction)),
{
    if first_half == 0xA {
        if second_half >= 0x8 && second_half <= 0xD {
            let value = cpu.simple_registers[(second_half - 8) as usize];
            cpu.accumulator = cpu.accumulator ^ value;
            set_flags_for_xor(cpu);
            return (true, 4);
        }
        if second_half == 0xE {
            let value = cpu.read_hl();
            cpu.accumulator = cpu.accumulator ^ value;
            set_flags_for_xor(cpu);
            return (true, 8);
        }
        if second_half == 0xF {
            cpu.accumulator = cpu.accumulator ^ cpu.accumulator;
            set_flags_for_xor(cpu);
            return (true, 4);
        }
    }
    if instruction == 0xEE {
        let value = cpu.read_and_advance_program_counter();
        cpu.accumulator = cpu.accumulator ^ value;
        set_flags_for_xor(cpu);
        return (true, 8);
    }
    (false, 0)
}

/// 0xB0 to 0xB7, 0xF6: bitwise "or" of the accumulator with a source.
pub fn or<B: Bus>(cpu: &mut Cpu<B>, instruction: u8, first_half: u8, second_half: u8) -> (r: (
    bool,
    u8,
))
    requires
        halves(instruction, first_half, second_half),
        fits(semantics::or(old(cpu)@, instruction)),
    ensures
        performs(r, final(cpu)@, old(cpu)@, semantics::or(old(cpu)@, instruction)),
{
    let mut cycles: u8 = 0;
    let mut b: u8 = 0;
    if instruction == 0xB7 {
        b = cpu.accumulator;
        cycles = 4;
    } else if instruction == 0xB6 {
        b = cpu.read_hl();
        cycles = 8;
    } else if instruction == 0xF6 {
        b = cpu.read_and_advance_program_counter();
        cycles = 8;
    } else if first_half == 0xB && second_half <= 5 {
        b = cpu.simple_registers[second_half as usize];
        cycles = 4;
    }
    if cycles > 0 {
        let a = cpu.accumulator;
        cpu.flags.carry = false;
        cpu.flags.half_carry = false;
        cpu.flags.subtract = false;
        let result = a | b;
        cpu.flags.zero = result == 0;
        cpu.accumulator = result;
        return (true, cycles);
    }
    (false, 0)
}

/// 0xA0 to 0xA7, 0xE6: bitwise "and" of the accumulator with a source.
pub fn and<B: Bus>(cpu: &mut Cpu<B>, instruction: u8, first_half: u8, second_half: u8) -> (r: (
    bool,
    u8,
))
    requires
        halves(instruction, first_half, second_half),
        fits(semantics::and(old(cpu)@, instruction)),
    ensures
        performs(r, final(cpu)@, old(cpu)@, semantics::and(old(cpu)@, instruction)),
{
    let mut cycles: u8 = 0;
    let mut b: u8 = 0;
    if instruction == 0xA7 {
        b = cpu.accumulator;
        cycles = 4;
    } else if instruction == 0xA6 {
        b = cpu.read_hl();
        cycles = 8;
    } else if instruction == 0xE6 {
        b = cpu.read_and_advance_program_counter();
        cycles = 8;
    } else if first_half == 0xA && second_half <= 5 {
        b = cpu.simple_registers[second_half as usize];
        cycles = 4;
    }
    if cycles > 0 {
        let a = cpu.accumulator;
        cpu.flags.carry = false;
        cpu.flags.half_carry = true;
        cpu.flags.subtract = false;
        let result = a & b;
        cpu.flags.zero = result == 0;
        cpu.accumulator = result;
        return (true, cycles);
    }
    (false, 0)
}

/// Adds `b` and the carry to `a` and sets the flags: the carry is the ninth
/// bit of the sum, the half carry the carry out of bit 3.
pub fn add_carry_and_set_flags<B: Bus>(cpu: &mut Cpu<B>, a: u8, b: u8) -> (result: u8)
    ensures
        result == add8(a, b, old(cpu)@.flags.carry).0,
        final(cpu)@ == old(cpu)@.with_flags(add8(a, b, old(cpu)@.flags.carry).1),
{
    let a32 = a as u32;
    let b32 = b as u32;
    let carry: u32 = if cpu.flags.carry { 1 } else { 0 };
    let result = a32.wrapping_add(b32).wrapping_add(carry);
    proof {
        lemma_add_bits(a32, b32, carry, result);
    }
    let result_byte = (result & 0xFF) as u8;
    cpu.flags = Flags {
        zero: result_byte == 0,
        subtract: false,
        half_carry: (a32 ^ b32 ^ result) & 0x10 != 0,
        carry: result & 0x100 != 0,
    };
    result_byte
}

/// 0x88 to 0x8F, 0xCE: add a source and the carry to the accumulator.
pub fn adc<B: Bus>(cpu: &mut Cpu<B>, instruction: u8, first_half: u8, second_half: u8) -> (r: (
    bool,
    u8,
))
    requires
        halves(instruction, first_half, second_half),
        fits(semantics::adc(old(cpu)@, instruction)),
    ensures
        performs(r, final(cpu)@, old(cpu)@, semantics::adc(old(cpu)@, instruction)),
{
    let mut cycles: u8 = 0;
    let mut b: u8 = 0;
    if first_half == 0x8 && second_half >= 0x8 && second_half <= 0xD {
        b = cpu.simple_registers[(second_half - 8) as usize];
        cycles = 4;
    } else if instruction == 0x8F {
        b = cpu.accumulator;
        cycles = 4;
    } else if instruction == 0x8E {
        b = cpu.read_hl();
        cycles = 8;
    } else if instruction == 0xCE {
        b = cpu.read_and_advance_program_counter();
        cycles = 8;
    }
    if cycles != 0 {
        let a = cpu.accumulator;
        cpu.accumulator = add_carry_and_set_flags(cpu, a, b);
        return (true, cycles);
    }
    (false, 0)
}

/// The address `offset` away from `pc`, the offset being a signed byte.
pub fn relative_address(pc: u16, offset: u8) -> (address: u16)
    ensures
        address == relative(pc, offset),
{
    if offset < 128 {
        pc.wrapping_add(offset as u16)
    } else {
        pc.wrapping_sub(256 - offset as u16)
    }
}

/// 0x18, 0x20, 0x28, 0x30, 0x38: jump by the signed offset behind the
/// opcode, always or on a condition. A jump that is taken costs 12 clock
/// periods, one that is not costs 8.
pub fn jump_cc_n<B: Bus>(cpu: &mut Cpu<B>, instruction: u8, first_half: u8, second_half: u8) -> (r: (
    bool,
    u8,
))
    requires
        halves(instruction, first_half, second_half),
        fits(semantics::jump_cc_n(old(cpu)@, instruction)),
    ensures
        performs(r, final(cpu)@, old(cpu)@, semantics::jump_cc_n(old(cpu)@, instruction)),
{
    let should_jump;
    match instruction {
        0x18 => {
            should_jump = true;
        },
        0x20 => {
            should_jump = !cpu.flags.zero;
        },
        0x28 => {
            should_jump = cpu.flags.zero;
        },
        0x30 => should_jump = !cpu.flags.carry,
        0x38 => should_jump = cpu.flags.carry,
        _ => {
            return (false, 0);
        },
    }
    // the offset is read whether or not the jump is taken: it is no opcode
    let distance = cpu.read_and_advance_program_counter();
    if should_jump {
        let value = relative_address(cpu.program_counter, distance);
        cpu.load_pc(value);
        return (true, 12);
    }
    (true, 8)
}

/// 0xC2, 0xCA, 0xD2, 0xDA: jump to the address behind the opcode on a
/// condition. A jump that is taken costs 16 clock periods, one that is not
/// costs 12.
pub fn jump_cc_nn<B: Bus>(
    cpu: &mut Cpu<B>,
    instruction: u8,
    first_half: u8,
    second_half: u8,
) -> (r: (bool, u8))
    requires
        halves(instruction, first_half, second_half),
        fits(semantics::jump_cc_nn(old(cpu)@, instruction)),
    ensures
        performs(r, final(cpu)@, old(cpu)@, semantics::jump_cc_nn(old(cpu)@, instruction)),
{
    let should_jump;
    match instruction {
        0xC2 => {
            should_jump = !cpu.flags.zero;
        },
        0xCA => {
            should_jump = cpu.flags.zero;
        },
        0xD2 => should_jump = !cpu.flags.carry,
        0xDA => should_jump = cpu.flags.carry,
        _ => {
            return (false, 0);
        },
    }
    // the address is read whether or not the jump is taken: it is no opcode
    let address = cpu.read_immediate_value_16();
    if should_jump {
        cpu.load_pc(address);
        return (true, 16);
    }
    (true, 12)
}

/// 0xFB: ask for interrupts to be enabled after the next instruction.
pub fn enable_interrupts<B: Bus>(
    cpu: &mut Cpu<B>,
    instruction: u8,
    first_half: u8,
    second_half: u8,
) -> (r: (bool, u8))
    requires
        halves(instruction, first_half, second_half),
    ensures
        performs(r, final(cpu)@, old(cpu)@, semantics::enable_interrupts(old(cpu)@, instruction)),
{
    if instruction == 0xFB {
        cpu.enable_interrupts_next();
        return (true, 4);
    }
    (false, 0)
}

/// 0xF3: disable interrupts at once.
pub fn disable_interrupts<B: Bus>(
    cpu: &mut Cpu<B>,
    instruction: u8,
    first_half: u8,
    second_half: u8,
) -> (r: (bool, u8))
    requires
        halves(instruction, first_half, second_half),
    ensures
        performs(r, final(cpu)@, old(cpu)@, semantics::disable_interrupts(old(cpu)@, instruction)),
{
    if instruction == 0xF3 {
        cpu.disable_interrupts();
        return (true, 4);
    }
    (false, 0)
}

/// 0xCD: call the address behind the opcode.
pub fn call_immediate_16<B: Bus>(
    cpu: &mut Cpu<B>,
    instruction: u8,
    first_half: u8,
    second_half: u8,
) -> (r: (bool, u8))
    requires
        halves(instruction, first_half, second_half),
        fits(semantics::call_immediate_16(old(cpu)@, instruction)),
    ensures
        performs(r, final(cpu)@, old(cpu)@, semantics::call_immediate_16(old(cpu)@, instruction)),
{
    if instruction == 0xCD {
        let jump_to = cpu.read_immediate_value_16();
        let address = cpu.program_counter;
        cpu.push_stack(address);
        cpu.load_pc(jump_to);
        return (true, 24);
    }
    (false, 0)
}

/// 0xC4, 0xCC, 0xD4, 0xDC: call the address behind the opcode on a
/// condition. A call that is taken costs 24 clock periods, one that is not
/// costs 12.
pub fn call_cc_nn<B: Bus>(
    cpu: &mut Cpu<B>,
    instruction: u8,
    first_half: u8,
    second_half: u8,
) -> (r: (bool, u8))
    requires
        halves(instruction, first_half, second_half),
        fits(semantics::call_cc_nn(old(cpu)@, instruction)),
    ensures
        performs(r, final(cpu)@, old(cpu)@, semantics::call_cc_nn(old(cpu)@, instruction)),
{
    let should_call;
    match instruction {
        0xC4 => {
            should_call = !cpu.flags.zero;
        },
        0xCC => {
            should_call = cpu.flags.zero;
        },
        0xD4 => should_call = !cpu.flags.carry,
        0xDC => should_call = cpu.flags.carry,
        _ => {
            return (false, 0);
        },
    }
    let jump_to = cpu.read_immediate_value_16();
    if should_call {
        let address = cpu.program_counter;
        cpu.push_stack(address);
        cpu.load_pc(jump_to);
        return (true, 24);
    }
    (true, 12)
}

/// Pops the program counter and loads it.
pub fn do_return<B: Bus>(cpu: &mut Cpu<B>)
    requires
        old(cpu)@.cycles + 12 <= u8::MAX,
    ensures
        final(cpu)@ == old(cpu)@.ret(),
{
    let address = cpu.pop_stack();
    cpu.load_pc(address);
}

/// 0xC9: return.
pub fn ret<B: Bus>(cpu: &mut Cpu<B>, instruction: u8, first_half: u8, second_half: u8) -> (r: (
    bool,
    u8,
))
    requires
        halves(instruction, first_half, second_half),
        fits(semantics::ret(old(cpu)@, instruction)),
    ensures
        performs(r, final(cpu)@, old(cpu)@, semantics::ret(old(cpu)@, instruction)),
{
    if instruction == 0xC9 {
        do_return(cpu);
        return (true, 16);
    }
    (false, 0)
}

/// 0xC0, 0xC8, 0xD0, 0xD8: return on a condition. A return that is taken
/// costs 20 clock periods, one that is not costs 8.
pub fn ret_cc<B: Bus>(cpu: &mut Cpu<B>, instruction: u8, first_half: u8, second_half: u8) -> (r: (
    bool,
    u8,
))
    requires
        halves(instruction, first_half, second_half),
        fits(semantics::ret_cc(old(cpu)@, instruction)),
    ensures
        performs(r, final(cpu)@, old(cpu)@, semantics::ret_cc(old(cpu)@, instruction)),
{
    if instruction == 0xC0 {
        if !cpu.flags.zero {
            do_return(cpu);
            cpu.delay(1);
            return (true, 20);
        }
        cpu.delay(1);
        return (true, 8);
    }
    if instruction == 0xC8 {
        if cpu.flags.zero {
            do_return(cpu);
            cpu.delay(1);
            return (true, 20);
        }
        cpu.delay(1);
        return (true, 8);
    }
    if instruction == 0xD0 {
        if !cpu.flags.carry {
            do_return(cpu);
            cpu.delay(1);
            return (true, 20);
        }
        cpu.delay(1);
        return (true, 8);
    }
    if instruction == 0xD8 {
        if cpu.flags.carry {
            do_return(cpu);
            cpu.delay(1);
            return (true, 20);
        }
        cpu.delay(1);
        return (true, 8);
    }
    (false, 0)
}

/// 0xD9: return and enable interrupts at once.
pub fn reti<B: Bus>(cpu: &mut Cpu<B>, instruction: u8, first_half: u8, second_half: u8) -> (r: (
    bool,
    u8,
))
    requires
        halves(instruction, first_half, second_half),
        fits(semantics::reti(old(cpu)@, instruction)),
    ensures
        performs(r, final(cpu)@, old(cpu)@, semantics::reti(old(cpu)@, instruction)),
{
    if instruction == 0xD9 {
        do_return(cpu);
        cpu.enable_interrupts();
        return (true, 16);
    }
    (false, 0)
}

/// 0xC1, 0xD1, 0xE1, 0xF1: pop a register pair.
pub fn pop<B: Bus>(cpu: &mut Cpu<B>, instruction: u8, first_half: u8, second_half: u8) -> (r: (
    bool,
    u8,
))
    requires
        halves(instruction, first_half, second_half),
        fits(semantics::pop(old(cpu)@, instruction)),
    ensures
        performs(r, final(cpu)@, old(cpu)@, semantics::pop(old(cpu)@, instruction)),
{
    if second_half == 1 && first_half >= 0xC {
        let value = cpu.pop_stack();
        cpu.write_combined_register(value, (first_half - 0xC) * 2);
        return (true, 12);
    }
    (false, 0)
}

/// 0xC5, 0xD5, 0xE5, 0xF5: push a register pair.
pub fn push<B: Bus>(cpu: &mut Cpu<B>, instruction: u8, first_half: u8, second_half: u8) -> (r: (
    bool,
    u8,
))
    requires
        halves(instruction, first_half, second_half),
        fits(semantics::push(old(cpu)@, instruction)),
    ensures
        performs(r, final(cpu)@, old(cpu)@, semantics::push(old(cpu)@, instruction)),
{
    if second_half == 5 && first_half >= 0xC {
        let value = cpu.read_combined_register((first_half - 0xC) * 2);
        cpu.push_stack(value);
        cpu.delay(1);
        return (true, 16);
    }
    (false, 0)
}

/// Sets the flags of an 8-bit increment of `value`; the carry stays.
pub fn set_flags_for_increment<B: Bus>(cpu: &mut Cpu<B>, value: u8)
    ensures
        final(cpu)@ == old(cpu)@.with_flags(inc_flags(value, old(cpu)@.flags)),
{
    proof {
        lemma_shift_bits(value, 0);
    }
    let current_flags = cpu.flags;
    cpu.flags = Flags {
        zero: value.wrapping_add(1) == 0,
        subtract: false,
        half_carry: value & 0xf == 0xf,
        carry: current_flags.carry,
    };
}

/// Sets the flags of an 8-bit decrement of `value`; the carry stays.
pub fn set_flags_for_decrement<B: Bus>(cpu: &mut Cpu<B>, value: u8)
    ensures
        final(cpu)@ == old(cpu)@.with_flags(dec_flags(value, old(cpu)@.flags)),
{
    proof {
        lemma_shift_bits(value, 0);
    }
    cpu.flags.half_carry = value & 0xf == 0;
    cpu.flags.subtract = true;
    cpu.flags.zero = value.wrapping_sub(1) == 0;
}

/// 0x04 + 8 * r: increment an operand.
pub fn increment<B: Bus>(cpu: &mut Cpu<B>, instruction: u8, first_half: u8, second_half: u8) -> (r: (
    bool,
    u8,
))
    requires
        halves(instruction, first_half, second_half),
        fits(semantics::increment(old(cpu)@, instruction)),
    ensures
        performs(r, final(cpu)@, old(cpu)@, semantics::increment(old(cpu)@, instruction)),
{
    if first_half <= 3 && (second_half == 0xC || second_half == 0x4) {
        match instruction {
            0x3C => {
                let value = cpu.accumulator;
                set_flags_for_increment(cpu, value);
                cpu.accumulator = value.wrapping_add(1);
                return (true, 4);
            },
            0x34 => {
                let mut value = cpu.read_hl();
                set_flags_for_increment(cpu, value);
                value = value.wrapping_add(1);
                let address = cpu.read_hl_address();
                cpu.store_byte(address, value);
                return (true, 12);
            },
            _ => {
                let register = (first_half * 2) + second_half / 8;
                let value = cpu.simple_registers[register as usize];
                set_flags_for_increment(cpu, value);
                let new_value = value.wrapping_add(1);
                cpu.simple_registers[register as usize] = new_value;
                return (true, 4);
            },
        }
    }
    (false, 0)
}

/// 0x03, 0x13, 0x23, 0x33: increment a register pair or the stack pointer,
/// which takes one machine cycle more than an 8-bit increment.
pub fn increment_nn<B: Bus>(
    cpu: &mut Cpu<B>,
    instruction: u8,
    first_half: u8,
    second_half: u8,
) -> (r: (bool, u8))
    requires
        halves(instruction, first_half, second_half),
        fits(semantics::increment_nn(old(cpu)@, instruction)),
    ensures
        performs(r, final(cpu)@, old(cpu)@, semantics::increment_nn(old(cpu)@, instruction)),
{
    if second_half == 3 && first_half <= 3 {
        let value = cpu.read_wide(first_half).wrapping_add(1);
        cpu.write_wide(value, first_half);
        cpu.delay(1);
        return (true, 8);
    }
    (false, 0)
}

/// 0x05 + 8 * r: decrement an operand.
pub fn decrement_n<B: Bus>(
    cpu: &mut Cpu<B>,
    instruction: u8,
    first_half: u8,
    second_half: u8,
) -> (r: (bool, u8))
    requires
        halves(instruction, first_half, second_half),
        fits(semantics::decrement_n(old(cpu)@, instruction)),
    ensures
        performs(r, final(cpu)@, old(cpu)@, semantics::decrement_n(old(cpu)@, instruction)),
{
    if first_half <= 3 && (second_half == 5 || second_half == 0xD) {
        if instruction == 0x3D {
            let value = cpu.accumulator;
            set_flags_for_decrement(cpu, value);
            cpu.accumulator = value.wrapping_sub(1);
        } else if instruction == 0x35 {
            let value = cpu.read_hl();
            set_flags_for_decrement(cpu, value);
            let address = cpu.read_hl_address();
            cpu.store_byte(address, value.wrapping_sub(1));
            return (true, 12);
        } else {
            let register = first_half * 2 + ((second_half - 5) / 8);
            let value = cpu.simple_registers[register as usize];
            set_flags_for_decrement(cpu, value);
            cpu.simple_registers[register as usize] = value.wrapping_sub(1);
        }
        return (true, 4);
    }
    (false, 0)
}

/// 0x0B, 0x1B, 0x2B, 0x3B: decrement a register pair or the stack pointer,
/// which takes one machine cycle more than an 8-bit decrement.
pub fn decrement_nn<B: Bus>(
    cpu: &mut Cpu<B>,
    instruction: u8,
    first_half: u8,
    second_half: u8,
) -> (r: (bool, u8))
    requires
        halves(instruction, first_half, second_half),
        fits(semantics::decrement_nn(old(cpu)@, instruction)),
    ensures
        performs(r, final(cpu)@, old(cpu)@, semantics::decrement_nn(old(cpu)@, instruction)),
{
    if instruction == 0x3B {
        let value = cpu.stack_pointer;
        cpu.stack_pointer = value.wrapping_sub(1);
        cpu.delay(1);
        return (true, 8);
    } else if first_half <= 3 && second_half == 0xB {
        let first_register = first_half * 2;
        let value = cpu.read_combined_register(first_register);
        cpu.write_combined_register(value.wrapping_sub(1), first_register);
        cpu.delay(1);
        return (true, 8);
    }
    (false, 0)
}

/// Shifts `value` left by one with the carry in bit 0, and sets the flags:
/// bit 7 goes into the carry, and the zero flag says whether the result is
/// zero.
pub fn rotate_left<B: Bus>(value: u8, cpu: &mut Cpu<B>) -> (new_value: u8)
    ensures
        new_value == rotated_left(value, old(cpu)@.flags.carry),
        final(cpu)@ == old(cpu)@.with_flags(shift_flags(new_value, value >= 128)),
{
    let carry: u8 = if cpu.flags.carry { 1 } else { 0 };
    proof {
        lemma_shift_bits(value, carry);
    }
    let new_value = (value << 1) | carry;
    cpu.flags.carry = (value >> 7) != 0;
    cpu.flags.half_carry = false;
    cpu.flags.subtract = false;
    cpu.flags.zero = new_value == 0;
    new_value
}

/// 0x17: rotate the accumulator left through the carry. The zero flag is
/// cleared.
pub fn rla<B: Bus>(cpu: &mut Cpu<B>, instruction: u8, first_half: u8, second_half: u8) -> (r: (
    bool,
    u8,
))
    requires
        halves(instruction, first_half, second_half),
    ensures
        performs(r, final(cpu)@, old(cpu)@, semantics::rla(old(cpu)@, instruction)),
{
    if instruction == 0x17 {
        let new_value = rotate_left(cpu.accumulator, cpu);
        cpu.accumulator = new_value;
        cpu.flags.zero = false;
        return (true, 4);
    }
    (false, 0)
}

/// 0x07: rotate the accumulator left; bit 7 goes into bit 0 and into the
/// carry.
pub fn rlca<B: Bus>(cpu: &mut Cpu<B>, instruction: u8, first_half: u8, second_half: u8) -> (r: (
    bool,
    u8,
))
    requires
        halves(instruction, first_half, second_half),
    ensures
        performs(r, final(cpu)@, old(cpu)@, semantics::rlca(old(cpu)@, instruction)),
{
    if instruction == 0x7 {
        let a = cpu.accumulator;
        let c = a >> 7;
        proof {
            lemma_shift_bits(a, 0);
            lemma_shift_bits(a, 1);
        }
        cpu.accumulator = (a << 1) | c;
        cpu.flags.carry = c != 0;
        cpu.flags.half_carry = false;
        cpu.flags.subtract = false;
        cpu.flags.zero = false;
        return (true, 4);
    }
    (false, 0)
}

/// 0x27: adjust the accumulator to binary-coded decimal after an addition
/// or a subtraction.
pub fn daa<B: Bus>(
    cpu: &mut Cpu<B>,
    instruction: u8,
    first_half: u8,
    second_half: u8,
) -> (r: (bool, u8))
    requires
        halves(instruction, first_half, second_half),
    ensures
        performs(r, final(cpu)@, old(cpu)@, semantics::daa(old(cpu)@, instruction)),
{
    if instruction == 0x27 {
        let a = cpu.accumulator;
        let mut adjust: u8 = 0;
        proof {
            lemma_adjust_bits(0x00);
            lemma_adjust_bits(0x06);
            lemma_adjust_bits(0x60);
            lemma_adjust_bits(0x66);
            lemma_shift_bits(a, 0);
        }
        // a carry or borrow out of the low nibble in the last operation
        if cpu.flags.half_carry {
            adjust |= 0x06;
        }
        // a carry or borrow out of the high nibble in the last operation
        if cpu.flags.carry {
            adjust |= 0x60;
        }
        let res = if cpu.flags.subtract {
            // a subtraction cannot end in the range A to F without a borrow
            a.wrapping_sub(adjust)
        } else {
            // an addition can: 0x8 + 0x4 is 0xc, with no carry at all
            if a & 0x0F > 0x09 {
                adjust |= 0x06;
            }
            if a > 0x99 {
                adjust |= 0x60;
            }
            a.wrapping_add(adjust)
        };
        cpu.accumulator = res;
        cpu.flags.zero = res == 0;
        cpu.flags.carry = adjust & 0x60 != 0;
        cpu.flags.half_carry = false;
        return (true, 4);
    }
    (false, 0)
}

/// 0x37: set the carry.
pub fn scf<B: Bus>(cpu: &mut Cpu<B>, instruction: u8, first_half: u8, second_half: u8) -> (r: (
    bool,
    u8,
))
    requires
        halves(instruction, first_half, second_half),
    ensures
        performs(r, final(cpu)@, old(cpu)@, semantics::scf(old(cpu)@, instruction)),
{
    if instruction == 0x37 {
        cpu.flags.carry = true;
        cpu.flags.half_carry = false;
        cpu.flags.subtract = false;
        return (true, 4);
    }
    (false, 0)
}

/// 0x2F: complement the accumulator.
pub fn cpl<B: Bus>(cpu: &mut Cpu<B>, instruction: u8, first_half: u8, second_half: u8) -> (r: (
    bool,
    u8,
))
    requires
        halves(instruction, first_half, second_half),
    ensures
        performs(r, final(cpu)@, old(cpu)@, semantics::cpl(old(cpu)@, instruction)),
{
    if instruction == 0x2F {
        let value = cpu.accumulator;
        proof {
            lemma_shift_bits(value, 0);
        }
        cpu.accumulator = !value;
        cpu.flags.half_carry = true;
        cpu.flags.subtract = true;
        return (true, 4);
    }
    (false, 0)
}

/// 0xC7 + 8 * n: call the fixed address 8 * n.
pub fn rst<B: Bus>(cpu: &mut Cpu<B>, instruction: u8, first_half: u8, second_half: u8) -> (r: (
    bool,
    u8,
))
    requires
        halves(instruction, first_half, second_half),
        fits(semantics::rst(old(cpu)@, instruction)),
    ensures
        performs(r, final(cpu)@, old(cpu)@, semantics::rst(old(cpu)@, instruction)),
{
    if first_half >= 0xC && (second_half == 0x7 || second_half == 0xF) {
        let address = (first_half - 0xC) * 16 + (second_half - 7);
        let program_counter = cpu.program_counter;
        cpu.push_stack(program_counter);
        cpu.load_pc(address as u16);
        return (true, 16);
    }
    (false, 0)
}

/// 0x76: halt until an interrupt is requested.
pub fn halt<B: Bus>(cpu: &mut Cpu<B>, instruction: u8, first_half: u8, second_half: u8) -> (r: (
    bool,
    u8,
))
    requires
        halves(instruction, first_half, second_half),
    ensures
        performs(r, final(cpu)@, old(cpu)@, semantics::halt(old(cpu)@, instruction)),
{
    if instruction == 0x76 {
        cpu.halt();
        return (true, 4);
    }
    (false, 0)
}

/// Whether bit `bit_index` of `value` is clear, bit 0 being the least
/// significant.
pub fn is_bit_zero(value: u8, bit_index: u8) -> (clear: bool)
    requires
        bit_index < 8,
    ensures
        clear == bit_is_zero(value, bit_index),
{
    let bytes: [u8; 1] = [value];
    let bits = bits_from_bytes(bytes.as_slice());
    proof {
        assert(bytes@ =~= seq![value]);
        assert(msb_first(seq![value])[7 - bit_index] == byte_bit(value, bit_index));
    }
    false == bit_at(&bits, 7 - bit_index as usize)
}

/// `val` with bit `bit` set.
pub fn calculate_set(val: u8, bit: u8) -> (result: u8)
    requires
        bit < 8,
    ensures
        result == with_bit_set(val, bit),
{
    val | (1u8 << bit)
}

/// `value` with bit `bit` clear.
pub fn calculate_res(value: u8, bit: u8) -> (result: u8)
    requires
        bit < 8,
    ensures
        result == with_bit_clear(value, bit),
{
    value & !(1u8 << bit)
}

/// `byte` with its two nibbles exchanged.
pub fn swap_nibles(byte: u8) -> (result: u8)
    ensures
        result == swapped(byte),
{
    let (first, second) = split_into_halves(byte);
    proof {
        lemma_swap_bits(first, second);
    }
    return second << 4 | first;
}

/// Sets the flags after the nibbles of a byte were exchanged and gave
/// `value`.
pub fn set_flags_for_swap<B: Bus>(cpu: &mut Cpu<B>, value: u8)
    ensures
        final(cpu)@ == old(cpu)@.with_flags(shift_flags(value, false)),
{
    cpu.flags.carry = false;
    cpu.flags.half_carry = false;
    cpu.flags.subtract = false;
    cpu.flags.zero = value == 0;
}

/// Shifts `v` left by one and sets the flags: bit 7 goes into the carry.
pub fn calculate_sla_and_set_flags<B: Bus>(cpu: &mut Cpu<B>, v: u8) -> (r: u8)
    ensures
        r == rotated_left(v, false),
        final(cpu)@ == old(cpu)@.with_flags(shift_flags(r, v >= 128)),
{
    proof {
        lemma_shift_bits(v, 0);
    }
    cpu.flags.carry = v & 0x80 != 0;
    let r = v << 1;
    cpu.flags.zero = r == 0;
    cpu.flags.subtract = false;
    cpu.flags.half_carry = false;
    r
}

/// Shifts `v` right by one and sets the flags: bit 0 goes into the carry.
pub fn calculate_srl<B: Bus>(cpu: &mut Cpu<B>, v: u8) -> (r: u8)
    ensures
        r == v / 2,
        final(cpu)@ == old(cpu)@.with_flags(shift_flags(r, v % 2 == 1)),
{
    proof {
        lemma_shift_bits(v, 0);
    }
    cpu.flags.carry = v & 1 != 0;
    let r = v >> 1;
    cpu.flags.zero = r == 0;
    cpu.flags.subtract = false;
    cpu.flags.half_carry = false;
    r
}

/// Extended 0x40 to 0x7F: test a bit of an operand. The zero flag says
/// whether the bit is clear, the half carry is set, the subtract flag is
/// cleared, the carry stays.
pub fn test_bit<B: Bus>(cpu: &mut Cpu<B>, instruction: u8, first_half: u8, second_half: u8) -> (r: (
    bool,
    u8,
))
    requires
        halves(instruction, first_half, second_half),
        fits(semantics::test_bit(old(cpu)@, instruction)),
    ensures
        performs(r, final(cpu)@, old(cpu)@, semantics::test_bit(old(cpu)@, instruction)),
{
    if first_half >= 4 && first_half <= 7 {
        let bit_index: u8 = (first_half - 4) * 2 + second_half / 8;
        let register_index = second_half % 8;
        let bit_is_zero;
        let cycles;
        if register_index == 6 {
            bit_is_zero = is_bit_zero(cpu.read_hl(), bit_index);
            cpu.delay(1);
            cycles = 16;
        } else if register_index == 7 {
            bit_is_zero = is_bit_zero(cpu.accumulator, bit_index);
            cycles = 8;
        } else {
            bit_is_zero = is_bit_zero(cpu.simple_registers[register_index as usize], bit_index);
            cycles = 8;
        }
        let c = cpu.flags.carry;
        cpu.flags = Flags { zero: bit_is_zero, subtract: false, half_carry: true, carry: c };
        return (true, cycles);
    }
    (false, 0)
}

/// Extended 0x10 to 0x17: rotate an operand left through the carry.
pub fn rl_n<B: Bus>(cpu: &mut Cpu<B>, instruction: u8, first_half: u8, second_half: u8) -> (r: (
    bool,
    u8,
))
    requires
        halves(instruction, first_half, second_half),
        fits(semantics::rl_n(old(cpu)@, instruction)),
    ensures
        performs(r, final(cpu)@, old(cpu)@, semantics::rl_n(old(cpu)@, instruction)),
{
    if first_half == 1 && second_half <= 7 {
        if second_half == 6 {
            let value = cpu.read_hl();
            let new_value = rotate_left(value, cpu);
            let address = cpu.read_hl_address();
            cpu.store_byte(address, new_value);
            return (true, 16);
        } else if second_half == 7 {
            cpu.accumulator = rotate_left(cpu.accumulator, cpu);
        } else {
            let new_value = rotate_left(cpu.simple_registers[second_half as usize], cpu);
            cpu.simple_registers[second_half as usize] = new_value;
        }
        return (true, 8);
    }
    (false, 0)
}

/// Extended 0x30 to 0x37: exchange the nibbles of an operand.
pub fn swap<B: Bus>(cpu: &mut Cpu<B>, instruction: u8, first_half: u8, second_half: u8) -> (r: (
    bool,
    u8,
))
    requires
        halves(instruction, first_half, second_half),
        fits(semantics::swap(old(cpu)@, instruction)),
    ensures
        performs(r, final(cpu)@, old(cpu)@, semantics::swap(old(cpu)@, instruction)),
{
    let value;
    if first_half == 3 && second_half <= 5 {
        value = cpu.simple_registers[second_half as usize];
        let swapped = swap_nibles(value);
        cpu.simple_registers[second_half as usize] = swapped;
        set_flags_for_swap(cpu, swapped);
        return (true, 8);
    } else if instruction == 0x37 {
        value = cpu.accumulator;
        let swapped = swap_nibles(value);
        cpu.accumulator = swapped;
        set_flags_for_swap(cpu, swapped);
        return (true, 8);
    } else if instruction == 0x36 {
        value = cpu.read_hl();
        let swapped = swap_nibles(value);
        let address = cpu.read_hl_address();
        cpu.store_byte(address, swapped);
        set_flags_for_swap(cpu, swapped);
        return (true, 16);
    }
    (false, 0)
}

/// Extended 0x80 to 0xBF: clear a bit of an operand.
pub fn res<B: Bus>(cpu: &mut Cpu<B>, instruction: u8, first_half: u8, second_half: u8) -> (r: (
    bool,
    u8,
))
    requires
        halves(instruction, first_half, second_half),
        fits(semantics::res(old(cpu)@, instruction)),
    ensures
        performs(r, final(cpu)@, old(cpu)@, semantics::res(old(cpu)@, instruction)),
{
    if first_half >= 0x8 && first_half <= 0xB {
        let bit = (first_half - 8) * 2 + second_half / 8;
        let register_index = second_half % 8;
        if register_index <= 5 {
            let value = cpu.simple_registers[register_index as usize];
            cpu.simple_registers[register_index as usize] = calculate_res(value, bit);
            return (true, 8);
        } else if register_index == 6 {
            let value = cpu.read_hl();
            let address = cpu.read_hl_address();
            cpu.store_byte(address, calculate_res(value, bit));
            return (true, 16);
        } else if register_index == 7 {
            let value = cpu.accumulator;
            cpu.accumulator = calculate_res(value, bit);
            return (true, 8);
        }
    }
    (false, 0)
}

/// Extended 0x20 to 0x27: shift an operand left.
pub fn sla<B: Bus>(cpu: &mut Cpu<B>, instruction: u8, first_half: u8, second_half: u8) -> (r: (
    bool,
    u8,
))
    requires
        halves(instruction, first_half, second_half),
        fits(semantics::sla(old(cpu)@, instruction)),
    ensures
        performs(r, final(cpu)@, old(cpu)@, semantics::sla(old(cpu)@, instruction)),
{
    if first_half == 0x2 && second_half <= 7 {
        if second_half == 6 {
            let value = cpu.read_hl();
            let result = calculate_sla_and_set_flags(cpu, value);
            let address = cpu.read_hl_address();
            cpu.store_byte(address, result);
            return (true, 16);
        } else if second_half == 7 {
            let value = cpu.accumulator;
            let result = calculate_sla_and_set_flags(cpu, value);
            cpu.accumulator = result;
            return (true, 8);
        } else {
            let value = cpu.simple_registers[second_half as usize];
            let result = calculate_sla_and_set_flags(cpu, value);
            cpu.simple_registers[second_half as usize] = result;
            return (true, 8);
        }
    }
    (false, 0)
}

/// Extended 0xC0 to 0xFF: set a bit of an operand.
pub fn set<B: Bus>(cpu: &mut Cpu<B>, instruction: u8, first_half: u8, second_half: u8) -> (r: (
    bool,
    u8,
))
    requires
        halves(instruction, first_half, second_half),
        fits(semantics::set(old(cpu)@, instruction)),
    ensures
        performs(r, final(cpu)@, old(cpu)@, semantics::set(old(cpu)@, instruction)),
{
    if first_half >= 0xC {
        let bit = (first_half - 0xC) * 2 + second_half / 8;
        let register_index = second_half % 8;
        if register_index <= 5 {
            let value = cpu.simple_registers[register_index as usize];
            cpu.simple_registers[register_index as usize] = calculate_set(value, bit);
            return (true, 8);
        } else if register_index == 6 {
            let value = cpu.read_hl();
            let address = cpu.read_hl_address();
            cpu.store_byte(address, calculate_set(value, bit));
            return (true, 16);
        } else if register_index == 7 {
            let value = cpu.accumulator;
            cpu.accumulator = calculate_set(value, bit);
            return (true, 8);
        }
    }
    (false, 0)
}

/// Extended 0x38 to 0x3F: shift an operand right.
pub fn srl<B: Bus>(cpu: &mut Cpu<B>, instruction: u8, first_half: u8, second_half: u8) -> (r: (
    bool,
    u8,
))
    requires
        halves(instruction, first_half, second_half),
        fits(semantics::srl(old(cpu)@, instruction)),
    ensures
        performs(r, final(cpu)@, old(cpu)@, semantics::srl(old(cpu)@, instruction)),
{
    if first_half == 0x3 && second_half >= 8 {
        if second_half == 0xE {
            let value = cpu.read_hl();
            let result = calculate_srl(cpu, value);
            let address = cpu.read_hl_address();
            cpu.store_byte(address, result);
            return (true, 16);
        } else if second_half == 0xF {
            let value = cpu.accumulator;
            let result = calculate_srl(cpu, value);
            cpu.accumulator = result;
            return (true, 8);
        } else {
            let value = cpu.simple_registers[(second_half - 8) as usize];
            let result = calculate_srl(cpu, value);
            cpu.simple_registers[(second_half - 8) as usize] = result;
            return (true, 8);
        }
    }
    (false, 0)
}

impl ExtendedHandler {
    /// Runs this handler of the extended table.
    pub fn run<B: Bus>(self, cpu: &mut Cpu<B>, instruction: u8, first_half: u8, second_half: u8) -> (r: (
        bool,
        u8,
    ))
        requires
            halves(instruction, first_half, second_half),
            fits(self.effect(old(cpu)@, instruction)),
        ensures
            performs(r, final(cpu)@, old(cpu)@, self.effect(old(cpu)@, instruction)),
    {
        match self {
            ExtendedHandler::TestBit => test_bit(cpu, instruction, first_half, second_half),
            ExtendedHandler::RlN => rl_n(cpu, instruction, first_half, second_half),
            ExtendedHandler::Swap => swap(cpu, instruction, first_half, second_half),
            ExtendedHandler::Res => res(cpu, instruction, first_half, second_half),
            ExtendedHandler::Sla => sla(cpu, instruction, first_half, second_half),
            ExtendedHandler::SetBit => set(cpu, instruction, first_half, second_half),
            ExtendedHandler::Srl => srl(cpu, instruction, first_half, second_half),
        }
    }
}

/// 0xCB: the escape to the extended table. The extended opcode is fetched
/// and tried on the handlers of the extended table in their order; the first
/// that matches carries it out. Where none matches, the core cannot go on.
pub fn prefix_cb<B: Bus>(cpu: &mut Cpu<B>, instruction: u8, first_half: u8, second_half: u8) -> (r: Result<
    (bool, u8),
    Fatal,
>)
    requires
        halves(instruction, first_half, second_half),
        step_fits(semantics::prefix_cb(old(cpu)@, instruction)),
    ensures
        carries_out(r, final(cpu)@, old(cpu)@, semantics::prefix_cb(old(cpu)@, instruction)),
{
    if instruction == 0xCB {
        proof {
            lemma_dispatch_extended_cycles(
                extended_order(),
                0,
                cpu@.skip_byte(),
                cpu@.next_byte(),
            );
        }
        let pc = cpu.program_counter;
        let new_instruction_code = cpu.read_and_advance_program_counter();
        let (first_half, second_half) = split_into_halves(new_instruction_code);
        let ghost fetched = cpu@;
        let mut i: usize = 0;
        while i < cpu.instructions_pipeline.extended_len()
            invariant
                i <= extended_order().len(),
                halves(new_instruction_code, first_half, second_half),
                instruction == 0xCB,
                cpu@ == fetched,
                fetched == old(cpu)@.skip_byte(),
                new_instruction_code == old(cpu)@.next_byte(),
                pc == old(cpu)@.program_counter,
                dispatch_extended(extended_order(), 0, cpu@, new_instruction_code)
                    == dispatch_extended(extended_order(), i as int, cpu@, new_instruction_code),
                fits(dispatch_extended(extended_order(), 0, cpu@, new_instruction_code)),
            decreases extended_order().len() - i,
        {
            let handler = cpu.instructions_pipeline.extended_at(i);
            assert(dispatch_extended(extended_order(), i as int, fetched, new_instruction_code) == if handler.effect(
                fetched,
                new_instruction_code,
            ) is Some {
                handler.effect(fetched, new_instruction_code)
            } else {
                dispatch_extended(extended_order(), i + 1, fetched, new_instruction_code)
            });
            let (found_instruction, cycles) = handler.run(
                cpu,
                new_instruction_code,
                first_half,
                second_half,
            );
            if found_instruction {
                return Ok((true, cycles));
            }
            i += 1;
        }
        return Err(Fatal::UnsupportedExtendedOpcode { opcode: new_instruction_code, pc });
    }
    Ok((false, 0))
}

impl Handler {
    /// Runs this handler of the primary table.
    pub fn run<B: Bus>(self, cpu: &mut Cpu<B>, instruction: u8, first_half: u8, second_half: u8) -> (r: Result<
        (bool, u8),
        Fatal,
    >)
        requires
            halves(instruction, first_half, second_half),
            step_fits(self.step(old(cpu)@, instruction)),
        ensures
            carries_out(r, final(cpu)@, old(cpu)@, self.step(old(cpu)@, instruction)),
    {
        reveal(Handler::step);
        match self {
            Handler::Nop => Ok(nop(cpu, instruction, first_half, second_half)),
            Handler::LdImmediateValue8Bit => Ok(ld_immediate_value_8_bit(cpu, instruction, first_half, second_half)),
            Handler::LdImmediateValue16Bit => Ok(ld_immediate_value_16_bit(cpu, instruction, first_half, second_half)),
            Handler::LoadNIntoHl => Ok(load_n_into_hl(cpu, instruction, first_half, second_half)),
            Handler::LdR1R2 => Ok(ld_r1_r2(cpu, instruction, first_half, second_half)),
            Handler::LddHlA => Ok(ldd_hl_a(cpu, instruction, first_half, second_half)),
            Handler::LdNIntoA => Ok(ld_n_into_a(cpu, instruction, first_half, second_half)),
            Handler::LdAIntoN => Ok(ld_a_into_n(cpu, instruction, first_half, second_half)),
            Handler::LdhNA => Ok(ldh_n_a(cpu, instruction, first_half, second_half)),
            Handler::LdhAN => Ok(ldh_a_n(cpu, instruction, first_half, second_half)),
            Handler::LdiHlA => Ok(ldi_hl_a(cpu, instruction, first_half, second_half)),
            Handler::LdiAHl => Ok(ldi_a_hl(cpu, instruction, first_half, second_half)),
            Handler::LddAHl => Ok(ldd_a_hl(cpu, instruction, first_half, second_half)),
            Handler::LdSpHl => Ok(ld_sp_hl(cpu, instruction, first_half, second_half)),
            Handler::LddA16Sp => Ok(ldd_a16_sp(cpu, instruction, first_half, second_half)),
            Handler::Stop => stop(cpu, instruction, first_half, second_half),
            Handler::LoadAFfC => Ok(load_a_ff_c(cpu, instruction, first_half, second_half)),
            Handler::LoadFfCA => Ok(load_ff_c_a(cpu, instruction, first_half, second_half)),
            Handler::Jump => Ok(jump(cpu, instruction, first_half, second_half)),
            Handler::JumpHl => Ok(jump_hl(cpu, instruction, first_half, second_half)),
            Handler::JumpA16 => Ok(jump_a16(cpu, instruction, first_half, second_half)),
            Handler::Compare => Ok(compare(cpu, instruction, first_half, second_half)),
            Handler::Subtract => Ok(subtract(cpu, instruction, first_half, second_half)),
            Handler::AddAN => Ok(add_a_n(cpu, instruction, first_half, second_half)),
            Handler::AddHlN => Ok(add_hl_n(cpu, instruction, first_half, second_half)),
            Handler::Xor => Ok(xor(cpu, instruction, first_half, second_half)),
            Handler::PrefixCb => prefix_cb(cpu, instruction, first_half, second_half),
            Handler::JumpCcN => Ok(jump_cc_n(cpu, instruction, first_half, second_half)),
            Handler::JumpCcNn => Ok(jump_cc_nn(cpu, instruction, first_half, second_half)),
            Handler::EnableInterrupts => Ok(enable_interrupts(cpu, instruction, first_half, second_half)),
            Handler::DisableInterrupts => Ok(disable_interrupts(cpu, instruction, first_half, second_half)),
            Handler::Ret => Ok(ret(cpu, instruction, first_half, second_half)),
            Handler::RetCc => Ok(ret_cc(cpu, instruction, first_half, second_half)),
            Handler::Reti => Ok(reti(cpu, instruction, first_half, second_half)),
            Handler::Pop => Ok(pop(cpu, instruction, first_half, second_half)),
            Handler::Push => Ok(push(cpu, instruction, first_half, second_half)),
            Handler::CallImmediate16 => Ok(call_immediate_16(cpu, instruction, first_half, second_half)),
            Handler::CallCcNn => Ok(call_cc_nn(cpu, instruction, first_half, second_half)),
            Handler::Increment => Ok(increment(cpu, instruction, first_half, second_half)),
            Handler::IncrementNn => Ok(increment_nn(cpu, instruction, first_half, second_half)),
            Handler::DecrementN => Ok(decrement_n(cpu, instruction, first_half, second_half)),
            Handler::DecrementNn => Ok(decrement_nn(cpu, instruction, first_half, second_half)),
            Handler::Rla => Ok(rla(cpu, instruction, first_half, second_half)),
            Handler::Rlca => Ok(rlca(cpu, instruction, first_half, second_half)),
            Handler::Or => Ok(or(cpu, instruction, first_half, second_half)),
            Handler::And => Ok(and(cpu, instruction, first_half, second_half)),
            Handler::Daa => Ok(daa(cpu, instruction, first_half, second_half)),
            Handler::Scf => Ok(scf(cpu, instruction, first_half, second_half)),
            Handler::Adc => Ok(adc(cpu, instruction, first_half, second_half)),
            Handler::Cpl => Ok(cpl(cpu, instruction, first_half, second_half)),
            Handler::Rst => Ok(rst(cpu, instruction, first_half, second_half)),
            Handler::Halt => Ok(halt(cpu, instruction, first_half, second_half)),
        }
    }
}

/// The two opcode tables: the handlers of each in the order in which they
/// are tried.
pub struct Pipeline {
    primary: Vec<Handler>,
    extended: Vec<ExtendedHandler>,
}

impl Pipeline {
    #[verifier::type_invariant]
    spec fn ordered(self) -> bool {
        self.primary@ == primary_order() && self.extended@ == extended_order()
    }

    /// The handlers of the primary table in their order.
    pub closed spec fn primary(self) -> Seq<Handler> {
        self.primary@
    }

    /// The handlers of the extended table in their order.
    pub closed spec fn extended(self) -> Seq<ExtendedHandler> {
        self.extended@
    }

    /// The two tables.
    pub fn new() -> (pipeline: Pipeline)
        ensures
            pipeline.primary() == primary_order(),
            pipeline.extended() == extended_order(),
    {
        let primary = vec![
            Handler::Nop,
            Handler::LdImmediateValue8Bit,
            Handler::LdImmediateValue16Bit,
            Handler::LoadNIntoHl,
            Handler::LdR1R2,
            Handler::LddHlA,
            Handler::LdNIntoA,
            Handler::LdAIntoN,
            Handler::LdhNA,
            Handler::LdhAN,
            Handler::LdiHlA,
            Handler::LdiAHl,
            Handler::LddAHl,
            Handler::LdSpHl,
            Handler::LddA16Sp,
            Handler::Stop,
            Handler::LoadAFfC,
            Handler::LoadFfCA,
            Handler::Jump,
            Handler::JumpHl,
            Handler::JumpA16,
            Handler::Compare,
            Handler::Subtract,
            Handler::AddAN,
            Handler::AddHlN,
            Handler::Xor,
            Handler::PrefixCb,
            Handler::JumpCcN,
            Handler::JumpCcNn,
            Handler::EnableInterrupts,
            Handler::DisableInterrupts,
            Handler::Ret,
            Handler::RetCc,
            Handler::Reti,
            Handler::Pop,
            Handler::Push,
            Handler::CallImmediate16,
            Handler::CallCcNn,
            Handler::Increment,
            Handler::IncrementNn,
            Handler::DecrementN,
            Handler::DecrementNn,
            Handler::Rla,
            Handler::Rlca,
            Handler::Or,
            Handler::And,
            Handler::Daa,
            Handler::Scf,
            Handler::Adc,
            Handler::Cpl,
            Handler::Rst,
            Handler::Halt,
        ];
        let extended = vec![
            ExtendedHandler::TestBit,
            ExtendedHandler::RlN,
            ExtendedHandler::Swap,
            ExtendedHandler::Res,
            ExtendedHandler::Sla,
            ExtendedHandler::SetBit,
            ExtendedHandler::Srl,
        ];
        reveal(primary_order);
        assert(primary@ =~= primary_order());
        assert(extended@ =~= extended_order());
        Pipeline { primary, extended }
    }

    /// The number of handlers of the primary table.
    pub fn primary_len(&self) -> (len: usize)
        ensures
            len == primary_order().len(),
            self.primary() == primary_order(),
    {
        proof {
            use_type_invariant(self);
        }
        self.primary.len()
    }

    /// The handler of the primary table that is tried as number `i`.
    pub fn primary_at(&self, i: usize) -> (handler: Handler)
        requires
            i < primary_order().len(),
        ensures
            handler == primary_order()[i as int],
    {
        proof {
            use_type_invariant(self);
        }
        self.primary[i]
    }

    /// The number of handlers of the extended table.
    pub fn extended_len(&self) -> (len: usize)
        ensures
            len == extended_order().len(),
            self.extended() == extended_order(),
    {
        proof {
            use_type_invariant(self);
        }
        self.extended.len()
    }

    /// The handler of the extended table that is tried as number `i`.
    pub fn extended_at(&self, i: usize) -> (handler: ExtendedHandler)
        requires
            i < extended_order().len(),
        ensures
            handler == extended_order()[i as int],
    {
        proof {
            use_type_invariant(self);
        }
        self.extended[i]
    }
}

} // verus!
