//! What each instruction does to the machine, as functions on its state.
//!
//! Each function takes the state in which the opcode has just been fetched
//! and the opcode. It gives `None` where the opcode is not one of the
//! instruction's, and else the state after the instruction together with the
//! clock periods that the whole instruction takes, the fetch of the opcode
//! included.

use vstd::prelude::*;
use crate::bus::Bus;
use crate::cpu::Fatal;
use crate::cpu::alu;
use crate::cpu::alu::{
    add16, add8, bit_is_zero, dec8, dec_flags, inc8, inc_flags, logic_flags, relative,
    rotated_left, shift_flags, sub8, swapped, with_bit_clear, with_bit_set,
};
use crate::cpu::model::{Flags, State, PAIR_BC, PAIR_DE, PAIR_HL, high_byte, low_byte};

verus! {

/// Whether `first_half` and `second_half` are the high and the low nibble of
/// `instruction`.
pub open spec fn halves(instruction: u8, first_half: u8, second_half: u8) -> bool {
    first_half == instruction / 16 && second_half == instruction % 16
}

/// Whether `result`, with the state `after`, is what a handler owes for
/// `effect` when it was called in the state `before`.
pub open spec fn performs<B: Bus>(
    result: (bool, u8),
    after: State<B>,
    before: State<B>,
    effect: Option<(State<B>, u8)>,
) -> bool {
    match effect {
        Some((state, cycles)) => result.0 && result.1 == cycles && after == state,
        None => !result.0 && result.1 == 0 && after == before,
    }
}

/// Whether the clock periods of `effect` fit the counter of the step.
pub open spec fn fits<B: Bus>(effect: Option<(State<B>, u8)>) -> bool {
    match effect {
        Some((state, cycles)) => state.cycles <= u8::MAX,
        None => true,
    }
}

/// No operation.
pub open spec fn nop<B: Bus>(s: State<B>, op: u8) -> Option<(State<B>, u8)> {
    if op == 0x00 {
        Some((s, 4))
    } else {
        None
    }
}

/// The general register that an opcode of the form 0x06 + 8 * r loads.
pub open spec fn immediate_target(op: u8) -> Option<u8> {
    if op % 8 == 6 && op < 0x30 {
        Some((op / 8) as u8)
    } else {
        None
    }
}

/// Load the byte behind the opcode into a general register, or store it at
/// the address in the pointer pair.
pub open spec fn ld_immediate_value_8_bit<B: Bus>(s: State<B>, op: u8) -> Option<(State<B>, u8)> {
    if immediate_target(op) is Some {
        Some((s.skip_byte().write_operand(immediate_target(op).unwrap(), s.next_byte()), 8))
    } else if op == 0x36 {
        Some((s.skip_byte().write_operand(6, s.next_byte()), 12))
    } else {
        None
    }
}

/// Load the 16-bit value behind the opcode into a 16-bit register.
pub open spec fn ld_immediate_value_16_bit<B: Bus>(s: State<B>, op: u8) -> Option<(State<B>, u8)> {
    if op % 16 == 1 && op / 16 < 4 {
        Some((s.skip_word().with_wide(s.next_word(), op / 16), 12))
    } else {
        None
    }
}

/// Store a general register at the address in the pointer pair.
pub open spec fn load_n_into_hl<B: Bus>(s: State<B>, op: u8) -> Option<(State<B>, u8)> {
    if op / 16 == 7 && op % 16 <= 5 {
        Some((s.write_operand(6, s.operand(op % 16)), 8))
    } else {
        None
    }
}

/// Load a general register from a general register or from the address in
/// the pointer pair.
pub open spec fn ld_r1_r2<B: Bus>(s: State<B>, op: u8) -> Option<(State<B>, u8)> {
    if 4 <= op / 16 <= 6 && op % 8 != 7 {
        Some(
            (
                s.read_operand(op % 8).write_operand(((op - 0x40) / 8) as u8, s.operand(op % 8)),
                if op % 8 == 6 {
                    8
                } else {
                    4
                },
            ),
        )
    } else {
        None
    }
}

/// Store the accumulator at the address in the pointer pair, then decrement
/// the pointer pair.
pub open spec fn ldd_hl_a<B: Bus>(s: State<B>, op: u8) -> Option<(State<B>, u8)> {
    if op == 0x32 {
        Some((s.store(s.hl(), s.accumulator).with_pair(s.hl().wrapping_sub(1), PAIR_HL), 8))
    } else {
        None
    }
}

/// Store the accumulator at the address in the pointer pair, then increment
/// the pointer pair.
pub open spec fn ldi_hl_a<B: Bus>(s: State<B>, op: u8) -> Option<(State<B>, u8)> {
    if op == 0x22 {
        Some((s.store(s.hl(), s.accumulator).with_pair(s.hl().wrapping_add(1), PAIR_HL), 8))
    } else {
        None
    }
}

/// Load the accumulator from the address in the pointer pair, then increment
/// the pointer pair.
pub open spec fn ldi_a_hl<B: Bus>(s: State<B>, op: u8) -> Option<(State<B>, u8)> {
    if op == 0x2A {
        Some(
            (
                s.fetch().with_accumulator(s.peek(s.hl())).with_pair(s.hl().wrapping_add(1), PAIR_HL),
                8,
            ),
        )
    } else {
        None
    }
}

/// Load the accumulator from the address in the pointer pair, then decrement
/// the pointer pair.
pub open spec fn ldd_a_hl<B: Bus>(s: State<B>, op: u8) -> Option<(State<B>, u8)> {
    if op == 0x3A {
        Some(
            (
                s.fetch().with_accumulator(s.peek(s.hl())).with_pair(s.hl().wrapping_sub(1), PAIR_HL),
                8,
            ),
        )
    } else {
        None
    }
}

/// Load the accumulator: from an operand (0x78 to 0x7F), from the address in
/// the pair BC or DE, from the address behind the opcode, or from the byte
/// behind the opcode.
pub open spec fn ld_n_into_a<B: Bus>(s: State<B>, op: u8) -> Option<(State<B>, u8)> {
    if 0x78 <= op <= 0x7F {
        Some(
            (
                s.read_operand((op - 0x78) as u8).with_accumulator(s.operand((op - 0x78) as u8)),
                if op == 0x7E {
                    8
                } else {
                    4
                },
            ),
        )
    } else if op == 0x0A {
        Some((s.fetch().with_accumulator(s.peek(s.pair(PAIR_BC))), 8))
    } else if op == 0x1A {
        Some((s.fetch().with_accumulator(s.peek(s.pair(PAIR_DE))), 8))
    } else if op == 0xFA {
        Some((s.skip_word().fetch().with_accumulator(s.skip_word().peek(s.next_word())), 16))
    } else if op == 0x3E {
        Some((s.skip_byte().with_accumulator(s.next_byte()), 8))
    } else {
        None
    }
}

/// Store the accumulator: in an operand (0x47 + 8 * r), at the address in
/// the pair BC, DE or HL, or at the address behind the opcode.
pub open spec fn ld_a_into_n<B: Bus>(s: State<B>, op: u8) -> Option<(State<B>, u8)> {
    if op % 8 == 7 && 0x40 <= op < 0x80 && op != 0x77 {
        Some((s.write_operand(((op - 0x40) / 8) as u8, s.accumulator), 4))
    } else if op == 0x02 {
        Some((s.store(s.pair(PAIR_BC), s.accumulator), 8))
    } else if op == 0x12 {
        Some((s.store(s.pair(PAIR_DE), s.accumulator), 8))
    } else if op == 0x77 {
        Some((s.store(s.hl(), s.accumulator), 8))
    } else if op == 0xEA {
        Some((s.skip_word().store(s.next_word(), s.accumulator), 16))
    } else {
        None
    }
}

/// The address in the last page of memory with the given low byte.
pub open spec fn high_page(low: u8) -> u16 {
    (0xFF00 + low) as u16
}

/// Store the accumulator in the last page, at the offset behind the opcode.
pub open spec fn ldh_n_a<B: Bus>(s: State<B>, op: u8) -> Option<(State<B>, u8)> {
    if op == 0xE0 {
        Some((s.skip_byte().store(high_page(s.next_byte()), s.accumulator), 12))
    } else {
        None
    }
}

/// Load the accumulator from the last page, at the offset behind the opcode.
pub open spec fn ldh_a_n<B: Bus>(s: State<B>, op: u8) -> Option<(State<B>, u8)> {
    if op == 0xF0 {
        Some(
            (
                s.skip_byte().fetch().with_accumulator(s.skip_byte().peek(high_page(s.next_byte()))),
                12,
            ),
        )
    } else {
        None
    }
}

/// Load the stack pointer from the pointer pair.
pub open spec fn ld_sp_hl<B: Bus>(s: State<B>, op: u8) -> Option<(State<B>, u8)> {
    if op == 0xF9 {
        Some((State { stack_pointer: s.hl(), ..s.delay(1) }, 8))
    } else {
        None
    }
}

/// Store the stack pointer at the address behind the opcode, low byte first.
pub open spec fn ldd_a16_sp<B: Bus>(s: State<B>, op: u8) -> Option<(State<B>, u8)> {
    if op == 0x08 {
        Some(
            (
                s.skip_word().store(s.next_word(), low_byte(s.stack_pointer)).store(
                    s.next_word().wrapping_add(1),
                    high_byte(s.stack_pointer),
                ),
                20,
            ),
        )
    } else {
        None
    }
}

/// Load the accumulator from the last page, at the offset in register C.
pub open spec fn load_a_ff_c<B: Bus>(s: State<B>, op: u8) -> Option<(State<B>, u8)> {
    if op == 0xF2 {
        Some((s.fetch().with_accumulator(s.peek(high_page(s.registers[1]))), 8))
    } else {
        None
    }
}

/// Store the accumulator in the last page, at the offset in register C.
pub open spec fn load_ff_c_a<B: Bus>(s: State<B>, op: u8) -> Option<(State<B>, u8)> {
    if op == 0xE2 {
        Some((s.store(high_page(s.registers[1]), s.accumulator), 8))
    } else {
        None
    }
}

/// Jump to the address behind the opcode.
pub open spec fn jump<B: Bus>(s: State<B>, op: u8) -> Option<(State<B>, u8)> {
    if op == 0xC3 {
        Some((s.skip_word().load_pc(s.next_word()), 16))
    } else {
        None
    }
}

/// Jump to the address in the pointer pair.
pub open spec fn jump_hl<B: Bus>(s: State<B>, op: u8) -> Option<(State<B>, u8)> {
    if op == 0xE9 {
        Some((State { program_counter: s.hl(), ..s }, 4))
    } else {
        None
    }
}

/// The index of the operand of an instruction of the accumulator with an
/// operand, whose opcodes are `base` to `base + 7` and, with the byte behind
/// the opcode as operand, `immediate`: 8 stands for that byte.
pub open spec fn source(op: u8, base: u8, immediate: u8) -> Option<u8> {
    if base <= op <= base + 7 {
        Some((op - base) as u8)
    } else if op == immediate {
        Some(8)
    } else {
        None
    }
}

/// The value of the source with index `index`: an operand, or the byte
/// behind the opcode.
pub open spec fn source_value<B: Bus>(s: State<B>, index: u8) -> u8 {
    if index == 8 {
        s.next_byte()
    } else {
        s.operand(index)
    }
}

/// The state after the source with index `index` was read.
pub open spec fn read_source<B: Bus>(s: State<B>, index: u8) -> State<B> {
    if index == 8 {
        s.skip_byte()
    } else {
        s.read_operand(index)
    }
}

/// The clock periods of an instruction of the accumulator with the source
/// with index `index`.
pub open spec fn source_cycles(index: u8) -> u8 {
    if index == 6 || index == 8 {
        8
    } else {
        4
    }
}

/// Compare the accumulator with a source: the flags of the subtraction.
pub open spec fn compare<B: Bus>(s: State<B>, op: u8) -> Option<(State<B>, u8)> {
    match source(op, 0xB8, 0xFE) {
        Some(i) => Some(
            (
                read_source(s, i).with_flags(sub8(s.accumulator, source_value(s, i)).1),
                source_cycles(i),
            ),
        ),
        None => None,
    }
}

/// Subtract a source from the accumulator.
pub open spec fn subtract<B: Bus>(s: State<B>, op: u8) -> Option<(State<B>, u8)> {
    match source(op, 0x90, 0xD6) {
        Some(i) => Some(
            (
                read_source(s, i).with_flags(sub8(s.accumulator, source_value(s, i)).1).with_accumulator(
                    sub8(s.accumulator, source_value(s, i)).0,
                ),
                source_cycles(i),
            ),
        ),
        None => None,
    }
}

/// Add a source to the accumulator.
pub open spec fn add_a_n<B: Bus>(s: State<B>, op: u8) -> Option<(State<B>, u8)> {
    match source(op, 0x80, 0xC6) {
        Some(i) => Some(
            (
                read_source(s, i).with_flags(
                    add8(s.accumulator, source_value(s, i), false).1,
                ).with_accumulator(add8(s.accumulator, source_value(s, i), false).0),
                source_cycles(i),
            ),
        ),
        None => None,
    }
}

/// Add a source and the carry to the accumulator.
pub open spec fn adc<B: Bus>(s: State<B>, op: u8) -> Option<(State<B>, u8)> {
    match source(op, 0x88, 0xCE) {
        Some(i) => Some(
            (
                read_source(s, i).with_flags(
                    add8(s.accumulator, source_value(s, i), s.flags.carry).1,
                ).with_accumulator(add8(s.accumulator, source_value(s, i), s.flags.carry).0),
                source_cycles(i),
            ),
        ),
        None => None,
    }
}

/// Bitwise "or" of the accumulator with a source.
pub open spec fn or<B: Bus>(s: State<B>, op: u8) -> Option<(State<B>, u8)> {
    match source(op, 0xB0, 0xF6) {
        Some(i) => Some(
            (
                read_source(s, i).with_flags(
                    logic_flags(s.accumulator | source_value(s, i), false),
                ).with_accumulator(s.accumulator | source_value(s, i)),
                source_cycles(i),
            ),
        ),
        None => None,
    }
}

/// Bitwise "and" of the accumulator with a source.
pub open spec fn and<B: Bus>(s: State<B>, op: u8) -> Option<(State<B>, u8)> {
    match source(op, 0xA0, 0xE6) {
        Some(i) => Some(
            (
                read_source(s, i).with_flags(
                    logic_flags(s.accumulator & source_value(s, i), true),
                ).with_accumulator(s.accumulator & source_value(s, i)),
                source_cycles(i),
            ),
        ),
        None => None,
    }
}

/// Bitwise "exclusive or" of the accumulator with a source.
pub open spec fn xor<B: Bus>(s: State<B>, op: u8) -> Option<(State<B>, u8)> {
    match source(op, 0xA8, 0xEE) {
        Some(i) => Some(
            (
                read_source(s, i).with_flags(
                    logic_flags(s.accumulator ^ source_value(s, i), false),
                ).with_accumulator(s.accumulator ^ source_value(s, i)),
                source_cycles(i),
            ),
        ),
        None => None,
    }
}

/// Add a 16-bit register to the pointer pair. The zero flag stays.
pub open spec fn add_hl_n<B: Bus>(s: State<B>, op: u8) -> Option<(State<B>, u8)> {
    if op / 16 <= 3 && op % 16 == 9 {
        let sum = add16(s.hl(), s.wide(op / 16));
        Some(
            (
                s.with_flags(
                    Flags { zero: s.flags.zero, subtract: false, half_carry: sum.2, carry: sum.1 },
                ).delay(1).with_pair(sum.0, PAIR_HL),
                8,
            ),
        )
    } else {
        None
    }
}

/// Jump by the signed offset behind the opcode, always (0x18) or on a
/// condition: 12 clock periods when the jump is taken, 8 when it is not.
pub open spec fn jump_cc_n<B: Bus>(s: State<B>, op: u8) -> Option<(State<B>, u8)> {
    if op == 0x18 || op == 0x20 || op == 0x28 || op == 0x30 || op == 0x38 {
        if op == 0x18 || s.condition(((op - 0x20) / 8) as u8) {
            Some(
                (s.skip_byte().load_pc(relative(s.skip_byte().program_counter, s.next_byte())), 12),
            )
        } else {
            Some((s.skip_byte(), 8))
        }
    } else {
        None
    }
}

/// Jump to the address behind the opcode on a condition: 16 clock periods
/// when the jump is taken, 12 when it is not.
pub open spec fn jump_cc_nn<B: Bus>(s: State<B>, op: u8) -> Option<(State<B>, u8)> {
    if op == 0xC2 || op == 0xCA || op == 0xD2 || op == 0xDA {
        if s.condition(((op - 0xC2) / 8) as u8) {
            Some((s.skip_word().load_pc(s.next_word()), 16))
        } else {
            Some((s.skip_word(), 12))
        }
    } else {
        None
    }
}

/// Ask for interrupts to be enabled after the next instruction.
pub open spec fn enable_interrupts<B: Bus>(s: State<B>, op: u8) -> Option<(State<B>, u8)> {
    if op == 0xFB {
        Some((s.enable_interrupts_next(), 4))
    } else {
        None
    }
}

/// Disable interrupts at once.
pub open spec fn disable_interrupts<B: Bus>(s: State<B>, op: u8) -> Option<(State<B>, u8)> {
    if op == 0xF3 {
        Some((s.disable_interrupts(), 4))
    } else {
        None
    }
}

/// Call the address behind the opcode: the address of the next instruction
/// is pushed.
pub open spec fn call_immediate_16<B: Bus>(s: State<B>, op: u8) -> Option<(State<B>, u8)> {
    if op == 0xCD {
        Some((s.skip_word().push(s.skip_word().program_counter).load_pc(s.next_word()), 24))
    } else {
        None
    }
}

/// Call the address behind the opcode on a condition: 24 clock periods when
/// the call is taken, 12 when it is not.
pub open spec fn call_cc_nn<B: Bus>(s: State<B>, op: u8) -> Option<(State<B>, u8)> {
    if op == 0xC4 || op == 0xCC || op == 0xD4 || op == 0xDC {
        if s.condition(((op - 0xC4) / 8) as u8) {
            Some((s.skip_word().push(s.skip_word().program_counter).load_pc(s.next_word()), 24))
        } else {
            Some((s.skip_word(), 12))
        }
    } else {
        None
    }
}

/// Return.
pub open spec fn ret<B: Bus>(s: State<B>, op: u8) -> Option<(State<B>, u8)> {
    if op == 0xC9 {
        Some((s.ret(), 16))
    } else {
        None
    }
}

/// Return on a condition: 20 clock periods when the return is taken, 8 when
/// it is not.
pub open spec fn ret_cc<B: Bus>(s: State<B>, op: u8) -> Option<(State<B>, u8)> {
    if op == 0xC0 || op == 0xC8 || op == 0xD0 || op == 0xD8 {
        if s.condition(((op - 0xC0) / 8) as u8) {
            Some((s.ret().delay(1), 20))
        } else {
            Some((s.delay(1), 8))
        }
    } else {
        None
    }
}

/// Return and enable interrupts at once.
pub open spec fn reti<B: Bus>(s: State<B>, op: u8) -> Option<(State<B>, u8)> {
    if op == 0xD9 {
        Some((s.ret().enable_interrupts(), 16))
    } else {
        None
    }
}

/// Pop a register pair.
pub open spec fn pop<B: Bus>(s: State<B>, op: u8) -> Option<(State<B>, u8)> {
    if op % 16 == 1 && op / 16 >= 0xC {
        Some((s.pop().with_pair(s.top(), ((op / 16 - 0xC) * 2) as u8), 12))
    } else {
        None
    }
}

/// Push a register pair.
pub open spec fn push<B: Bus>(s: State<B>, op: u8) -> Option<(State<B>, u8)> {
    if op % 16 == 5 && op / 16 >= 0xC {
        Some((s.push(s.pair(((op / 16 - 0xC) * 2) as u8)).delay(1), 16))
    } else {
        None
    }
}

/// Increment an operand (0x04 + 8 * r). The carry stays.
pub open spec fn increment<B: Bus>(s: State<B>, op: u8) -> Option<(State<B>, u8)> {
    if op < 0x40 && op % 8 == 4 {
        Some(
            (
                s.read_operand(op / 8).with_flags(inc_flags(s.operand(op / 8), s.flags)).write_operand(
                    op / 8,
                    inc8(s.operand(op / 8)),
                ),
                if op == 0x34 {
                    12
                } else {
                    4
                },
            ),
        )
    } else {
        None
    }
}

/// Decrement an operand (0x05 + 8 * r). The carry stays.
pub open spec fn decrement_n<B: Bus>(s: State<B>, op: u8) -> Option<(State<B>, u8)> {
    if op < 0x40 && op % 8 == 5 {
        Some(
            (
                s.read_operand(op / 8).with_flags(dec_flags(s.operand(op / 8), s.flags)).write_operand(
                    op / 8,
                    dec8(s.operand(op / 8)),
                ),
                if op == 0x35 {
                    12
                } else {
                    4
                },
            ),
        )
    } else {
        None
    }
}

/// Increment a 16-bit register, which takes one machine cycle more than the
/// fetch of the opcode. No flag changes.
pub open spec fn increment_nn<B: Bus>(s: State<B>, op: u8) -> Option<(State<B>, u8)> {
    if op % 16 == 3 && op / 16 <= 3 {
        Some((s.with_wide(s.wide(op / 16).wrapping_add(1), op / 16).delay(1), 8))
    } else {
        None
    }
}

/// Decrement a 16-bit register, which takes one machine cycle more than the
/// fetch of the opcode. No flag changes.
pub open spec fn decrement_nn<B: Bus>(s: State<B>, op: u8) -> Option<(State<B>, u8)> {
    if op % 16 == 0xB && op / 16 <= 3 {
        Some((s.with_wide(s.wide(op / 16).wrapping_sub(1), op / 16).delay(1), 8))
    } else {
        None
    }
}

/// Rotate the accumulator left through the carry: the carry goes into bit 0
/// and bit 7 into the carry. The other flags are cleared.
pub open spec fn rla<B: Bus>(s: State<B>, op: u8) -> Option<(State<B>, u8)> {
    if op == 0x17 {
        Some(
            (
                s.with_flags(
                    Flags {
                        zero: false,
                        subtract: false,
                        half_carry: false,
                        carry: s.accumulator >= 128,
                    },
                ).with_accumulator(rotated_left(s.accumulator, s.flags.carry)),
                4,
            ),
        )
    } else {
        None
    }
}

/// Rotate the accumulator left: bit 7 goes into bit 0 and into the carry.
/// The other flags are cleared.
pub open spec fn rlca<B: Bus>(s: State<B>, op: u8) -> Option<(State<B>, u8)> {
    if op == 0x07 {
        Some(
            (
                s.with_flags(
                    Flags {
                        zero: false,
                        subtract: false,
                        half_carry: false,
                        carry: s.accumulator >= 128,
                    },
                ).with_accumulator(rotated_left(s.accumulator, s.accumulator >= 128)),
                4,
            ),
        )
    } else {
        None
    }
}

/// Adjust the accumulator to binary-coded decimal after an addition or a
/// subtraction.
pub open spec fn daa<B: Bus>(s: State<B>, op: u8) -> Option<(State<B>, u8)> {
    if op == 0x27 {
        Some(
            (
                s.with_flags(alu::daa(s.accumulator, s.flags).1).with_accumulator(
                    alu::daa(s.accumulator, s.flags).0,
                ),
                4,
            ),
        )
    } else {
        None
    }
}

/// Set the carry; clear the half carry and the subtract flag.
pub open spec fn scf<B: Bus>(s: State<B>, op: u8) -> Option<(State<B>, u8)> {
    if op == 0x37 {
        Some(
            (
                s.with_flags(
                    Flags { zero: s.flags.zero, subtract: false, half_carry: false, carry: true },
                ),
                4,
            ),
        )
    } else {
        None
    }
}

/// Complement the accumulator; set the half carry and the subtract flag.
pub open spec fn cpl<B: Bus>(s: State<B>, op: u8) -> Option<(State<B>, u8)> {
    if op == 0x2F {
        Some(
            (
                s.with_flags(
                    Flags {
                        zero: s.flags.zero,
                        subtract: true,
                        half_carry: true,
                        carry: s.flags.carry,
                    },
                ).with_accumulator((255 - s.accumulator) as u8),
                4,
            ),
        )
    } else {
        None
    }
}

/// Call one of the eight fixed addresses 0x00, 0x08, up to 0x38.
pub open spec fn rst<B: Bus>(s: State<B>, op: u8) -> Option<(State<B>, u8)> {
    if op >= 0xC0 && op % 8 == 7 {
        Some((s.push(s.program_counter).load_pc((op - 0xC7) as u16), 16))
    } else {
        None
    }
}

/// Halt until an interrupt is requested.
pub open spec fn halt<B: Bus>(s: State<B>, op: u8) -> Option<(State<B>, u8)> {
    if op == 0x76 {
        Some((State { halted: true, ..s }, 4))
    } else {
        None
    }
}

/// The clock periods of an extended instruction that reads the operand with
/// index `index` and writes it back, the two fetches included.
pub open spec fn extended_cycles(index: u8) -> u8 {
    if index == 6 {
        16
    } else {
        8
    }
}

/// Test a bit of an operand: the zero flag says whether the bit is clear,
/// the half carry is set, the subtract flag is cleared, the carry stays.
pub open spec fn test_bit<B: Bus>(s: State<B>, op: u8) -> Option<(State<B>, u8)> {
    if 0x40 <= op < 0x80 {
        let after = s.read_operand(op % 8).with_flags(
            Flags {
                zero: bit_is_zero(s.operand(op % 8), ((op - 0x40) / 8) as u8),
                subtract: false,
                half_carry: true,
                carry: s.flags.carry,
            },
        );
        Some(
            (
                if op % 8 == 6 {
                    after.delay(1)
                } else {
                    after
                },
                extended_cycles(op % 8),
            ),
        )
    } else {
        None
    }
}

/// Rotate an operand left through the carry.
pub open spec fn rl_n<B: Bus>(s: State<B>, op: u8) -> Option<(State<B>, u8)> {
    if 0x10 <= op < 0x18 {
        let result = rotated_left(s.operand(op % 8), s.flags.carry);
        Some(
            (
                s.read_operand(op % 8).with_flags(
                    shift_flags(result, s.operand(op % 8) >= 128),
                ).write_operand(op % 8, result),
                extended_cycles(op % 8),
            ),
        )
    } else {
        None
    }
}

/// Exchange the nibbles of an operand.
pub open spec fn swap<B: Bus>(s: State<B>, op: u8) -> Option<(State<B>, u8)> {
    if 0x30 <= op < 0x38 {
        let result = swapped(s.operand(op % 8));
        Some(
            (
                s.read_operand(op % 8).with_flags(shift_flags(result, false)).write_operand(
                    op % 8,
                    result,
                ),
                extended_cycles(op % 8),
            ),
        )
    } else {
        None
    }
}

/// Clear a bit of an operand. No flag changes.
pub open spec fn res<B: Bus>(s: State<B>, op: u8) -> Option<(State<B>, u8)> {
    if 0x80 <= op < 0xC0 {
        Some(
            (
                s.read_operand(op % 8).write_operand(
                    op % 8,
                    with_bit_clear(s.operand(op % 8), ((op - 0x80) / 8) as u8),
                ),
                extended_cycles(op % 8),
            ),
        )
    } else {
        None
    }
}

/// Set a bit of an operand. No flag changes.
pub open spec fn set<B: Bus>(s: State<B>, op: u8) -> Option<(State<B>, u8)> {
    if op >= 0xC0 {
        Some(
            (
                s.read_operand(op % 8).write_operand(
                    op % 8,
                    with_bit_set(s.operand(op % 8), ((op - 0xC0) / 8) as u8),
                ),
                extended_cycles(op % 8),
            ),
        )
    } else {
        None
    }
}

/// Shift an operand left: bit 7 goes into the carry, bit 0 is cleared.
pub open spec fn sla<B: Bus>(s: State<B>, op: u8) -> Option<(State<B>, u8)> {
    if 0x20 <= op < 0x28 {
        let result = rotated_left(s.operand(op % 8), false);
        Some(
            (
                s.read_operand(op % 8).with_flags(
                    shift_flags(result, s.operand(op % 8) >= 128),
                ).write_operand(op % 8, result),
                extended_cycles(op % 8),
            ),
        )
    } else {
        None
    }
}

/// Shift an operand right: bit 0 goes into the carry, bit 7 is cleared.
pub open spec fn srl<B: Bus>(s: State<B>, op: u8) -> Option<(State<B>, u8)> {
    if 0x38 <= op < 0x40 {
        let result = (s.operand(op % 8) / 2) as u8;
        Some(
            (
                s.read_operand(op % 8).with_flags(
                    shift_flags(result, s.operand(op % 8) % 2 == 1),
                ).write_operand(op % 8, result),
                extended_cycles(op % 8),
            ),
        )
    } else {
        None
    }
}

/// What a handler did: it passed the opcode on, it carried an instruction
/// out in so many clock periods, or it met a fatal condition. Each outcome
/// but the first holds the state that the handler left.
#[verifier::reject_recursive_types(B)]
pub enum Step<B: Bus> {
    Pass,
    Done(State<B>, u8),
    Failed(State<B>, Fatal),
}

/// The step of a handler that cannot fail.
pub open spec fn lift<B: Bus>(effect: Option<(State<B>, u8)>) -> Step<B> {
    match effect {
        Some((state, cycles)) => Step::Done(state, cycles),
        None => Step::Pass,
    }
}

/// Whether `result`, with the state `after`, is what a handler owes for
/// `step` when it was called in the state `before`.
pub open spec fn carries_out<B: Bus>(
    result: Result<(bool, u8), Fatal>,
    after: State<B>,
    before: State<B>,
    step: Step<B>,
) -> bool {
    match step {
        Step::Pass => result == Ok::<(bool, u8), Fatal>((false, 0u8)) && after == before,
        Step::Done(state, cycles) => result == Ok::<(bool, u8), Fatal>((true, cycles)) && after
            == state,
        Step::Failed(state, fatal) => result == Err::<(bool, u8), Fatal>(fatal) && after == state,
    }
}

/// Whether the clock periods of `step` fit the counter of the step.
pub open spec fn step_fits<B: Bus>(step: Step<B>) -> bool {
    match step {
        Step::Pass => true,
        Step::Done(state, cycles) => state.cycles <= u8::MAX,
        Step::Failed(state, fatal) => state.cycles <= u8::MAX,
    }
}

/// Stop the machine until a button is pressed: the byte behind the opcode is
/// read, and the machine cannot go on.
pub open spec fn stop<B: Bus>(s: State<B>, op: u8) -> Step<B> {
    if op == 0x10 {
        Step::Failed(s.skip_byte(), Fatal::Stop)
    } else {
        Step::Pass
    }
}

/// The handlers of the extended table.
#[derive(Clone, Copy, Debug, PartialEq, Eq, Structural)]
pub enum ExtendedHandler {
    TestBit,
    RlN,
    Swap,
    Res,
    Sla,
    SetBit,
    Srl,
}

/// The handlers of the primary table.
#[derive(Clone, Copy, Debug, PartialEq, Eq, Structural)]
pub enum Handler {
    Nop,
    LdImmediateValue8Bit,
    LdImmediateValue16Bit,
    LoadNIntoHl,
    LdR1R2,
    LddHlA,
    LdNIntoA,
    LdAIntoN,
    LdhNA,
    LdhAN,
    LdiHlA,
    LdiAHl,
    LddAHl,
    LdSpHl,
    LddA16Sp,
    Stop,
    LoadAFfC,
    LoadFfCA,
    Jump,
    JumpHl,
    JumpA16,
    Compare,
    Subtract,
    AddAN,
    AddHlN,
    Xor,
    PrefixCb,
    JumpCcN,
    JumpCcNn,
    EnableInterrupts,
    DisableInterrupts,
    Ret,
    RetCc,
    Reti,
    Pop,
    Push,
    CallImmediate16,
    CallCcNn,
    Increment,
    IncrementNn,
    DecrementN,
    DecrementNn,
    Rla,
    Rlca,
    Or,
    And,
    Daa,
    Scf,
    Adc,
    Cpl,
    Rst,
    Halt,
}

impl ExtendedHandler {
    /// What this handler does in the state `s`, in which the extended opcode
    /// `op` has just been fetched.
    pub open spec fn effect<B: Bus>(self, s: State<B>, op: u8) -> Option<(State<B>, u8)> {
        match self {
            ExtendedHandler::TestBit => test_bit(s, op),
            ExtendedHandler::RlN => rl_n(s, op),
            ExtendedHandler::Swap => swap(s, op),
            ExtendedHandler::Res => res(s, op),
            ExtendedHandler::Sla => sla(s, op),
            ExtendedHandler::SetBit => set(s, op),
            ExtendedHandler::Srl => srl(s, op),
        }
    }
}

/// The extended table: its handlers in the order in which they are tried.
pub open spec fn extended_order() -> Seq<ExtendedHandler> {
    seq![
        ExtendedHandler::TestBit,
        ExtendedHandler::RlN,
        ExtendedHandler::Swap,
        ExtendedHandler::Res,
        ExtendedHandler::Sla,
        ExtendedHandler::SetBit,
        ExtendedHandler::Srl,
    ]
}

/// What the first handler of `table`, from index `from` on, that matches
/// `op` does; `None` where none matches.
pub open spec fn dispatch_extended<B: Bus>(
    table: Seq<ExtendedHandler>,
    from: int,
    s: State<B>,
    op: u8,
) -> Option<(State<B>, u8)>
    decreases table.len() - from,
{
    if from < 0 || from >= table.len() {
        None
    } else if table[from].effect(s, op) is Some {
        table[from].effect(s, op)
    } else {
        dispatch_extended(table, from + 1, s, op)
    }
}

/// The escape to the extended table: the extended opcode is fetched and
/// handed to the first handler of the extended table that matches it. Where
/// none matches, the machine cannot go on.
pub open spec fn prefix_cb<B: Bus>(s: State<B>, op: u8) -> Step<B> {
    if op == 0xCB {
        match dispatch_extended(extended_order(), 0, s.skip_byte(), s.next_byte()) {
            Some((state, cycles)) => Step::Done(state, cycles),
            None => Step::Failed(
                s.skip_byte(),
                Fatal::UnsupportedExtendedOpcode { opcode: s.next_byte(), pc: s.program_counter },
            ),
        }
    } else {
        Step::Pass
    }
}

impl Handler {
    /// What this handler does in the state `s`, in which the opcode `op` has
    /// just been fetched.
    #[verifier::opaque]
    pub open spec fn step<B: Bus>(self, s: State<B>, op: u8) -> Step<B> {
        match self {
            Handler::Nop => lift(nop(s, op)),
            Handler::LdImmediateValue8Bit => lift(ld_immediate_value_8_bit(s, op)),
            Handler::LdImmediateValue16Bit => lift(ld_immediate_value_16_bit(s, op)),
            Handler::LoadNIntoHl => lift(load_n_into_hl(s, op)),
            Handler::LdR1R2 => lift(ld_r1_r2(s, op)),
            Handler::LddHlA => lift(ldd_hl_a(s, op)),
            Handler::LdNIntoA => lift(ld_n_into_a(s, op)),
            Handler::LdAIntoN => lift(ld_a_into_n(s, op)),
            Handler::LdhNA => lift(ldh_n_a(s, op)),
            Handler::LdhAN => lift(ldh_a_n(s, op)),
            Handler::LdiHlA => lift(ldi_hl_a(s, op)),
            Handler::LdiAHl => lift(ldi_a_hl(s, op)),
            Handler::LddAHl => lift(ldd_a_hl(s, op)),
            Handler::LdSpHl => lift(ld_sp_hl(s, op)),
            Handler::LddA16Sp => lift(ldd_a16_sp(s, op)),
            Handler::Stop => stop(s, op),
            Handler::LoadAFfC => lift(load_a_ff_c(s, op)),
            Handler::LoadFfCA => lift(load_ff_c_a(s, op)),
            Handler::Jump => lift(jump(s, op)),
            Handler::JumpHl => lift(jump_hl(s, op)),
            Handler::JumpA16 => lift(jump(s, op)),
            Handler::Compare => lift(compare(s, op)),
            Handler::Subtract => lift(subtract(s, op)),
            Handler::AddAN => lift(add_a_n(s, op)),
            Handler::AddHlN => lift(add_hl_n(s, op)),
            Handler::Xor => lift(xor(s, op)),
            Handler::PrefixCb => prefix_cb(s, op),
            Handler::JumpCcN => lift(jump_cc_n(s, op)),
            Handler::JumpCcNn => lift(jump_cc_nn(s, op)),
            Handler::EnableInterrupts => lift(enable_interrupts(s, op)),
            Handler::DisableInterrupts => lift(disable_interrupts(s, op)),
            Handler::Ret => lift(ret(s, op)),
            Handler::RetCc => lift(ret_cc(s, op)),
            Handler::Reti => lift(reti(s, op)),
            Handler::Pop => lift(pop(s, op)),
            Handler::Push => lift(push(s, op)),
            Handler::CallImmediate16 => lift(call_immediate_16(s, op)),
            Handler::CallCcNn => lift(call_cc_nn(s, op)),
            Handler::Increment => lift(increment(s, op)),
            Handler::IncrementNn => lift(increment_nn(s, op)),
            Handler::DecrementN => lift(decrement_n(s, op)),
            Handler::DecrementNn => lift(decrement_nn(s, op)),
            Handler::Rla => lift(rla(s, op)),
            Handler::Rlca => lift(rlca(s, op)),
            Handler::Or => lift(or(s, op)),
            Handler::And => lift(and(s, op)),
            Handler::Daa => lift(daa(s, op)),
            Handler::Scf => lift(scf(s, op)),
            Handler::Adc => lift(adc(s, op)),
            Handler::Cpl => lift(cpl(s, op)),
            Handler::Rst => lift(rst(s, op)),
            Handler::Halt => lift(halt(s, op)),
        }
    }
}

/// The primary table: its handlers in the order in which they are tried.
#[verifier::opaque]
pub open spec fn primary_order() -> Seq<Handler> {
    seq![
        Handler::Nop,
        Handler::LdImmediateValue8Bit,
        Handler::LdImmediateValue16Bit,
        Handler::LoadNIntoHl,
        Handler::LdR1R2,
        Handler::LddHlA,
        Handler::LdNIntoA,
        Handler::LdAIntoN,
        Handler::LdhNA,
        Handler::LdhAN,
        Handler::LdiHlA,
        Handler::LdiAHl,
        Handler::LddAHl,
        Handler::LdSpHl,
        Handler::LddA16Sp,
        Handler::Stop,
        Handler::LoadAFfC,
        Handler::LoadFfCA,
        Handler::Jump,
        Handler::JumpHl,
        Handler::JumpA16,
        Handler::Compare,
        Handler::Subtract,
        Handler::AddAN,
        Handler::AddHlN,
        Handler::Xor,
        Handler::PrefixCb,
        Handler::JumpCcN,
        Handler::JumpCcNn,
        Handler::EnableInterrupts,
        Handler::DisableInterrupts,
        Handler::Ret,
        Handler::RetCc,
        Handler::Reti,
        Handler::Pop,
        Handler::Push,
        Handler::CallImmediate16,
        Handler::CallCcNn,
        Handler::Increment,
        Handler::IncrementNn,
        Handler::DecrementN,
        Handler::DecrementNn,
        Handler::Rla,
        Handler::Rlca,
        Handler::Or,
        Handler::And,
        Handler::Daa,
        Handler::Scf,
        Handler::Adc,
        Handler::Cpl,
        Handler::Rst,
        Handler::Halt,
    ]
}

/// What the first handler of `table`, from index `from` on, that does not
/// pass `op` on does; `Step::Pass` where every handler passes it on.
pub open spec fn dispatch<B: Bus>(table: Seq<Handler>, from: int, s: State<B>, op: u8) -> Step<B>
    decreases table.len() - from,
{
    if from < 0 || from >= table.len() {
        Step::Pass
    } else if !(table[from].step(s, op) is Pass) {
        table[from].step(s, op)
    } else {
        dispatch(table, from + 1, s, op)
    }
}

/// The instruction at the program counter: its opcode is fetched and handed
/// to the first handler of the primary table that does not pass it on. The
/// result is the clock periods of the step, or why the machine cannot go on;
/// where no handler matches, that is the opcode and its address. Which
/// handler it is that takes each opcode, `decode` says.
pub open spec fn execute<B: Bus>(s: State<B>) -> (State<B>, Result<u8, Fatal>) {
    match dispatch(primary_order(), 0, s.skip_byte(), s.next_byte()) {
        Step::Done(after, cycles) => (after, Ok((s.cycles + cycles) as u8)),
        Step::Failed(after, fatal) => (after, Err(fatal)),
        Step::Pass => (
            s.skip_byte(),
            Err(Fatal::UnsupportedOpcode { opcode: s.next_byte(), pc: s.program_counter }),
        ),
    }
}

/// The state in which a step looks at the interrupts: the counter of clock
/// periods starts at zero.
pub open spec fn entry<B: Bus>(s: State<B>) -> State<B> {
    State { cycles: 0, ..s }
}

/// Whether a step enters an interrupt handler: interrupts are enabled and
/// one is pending.
pub open spec fn interrupted<B: Bus>(s: State<B>) -> bool {
    s.iten && B::pending(s.bus) is Some
}

/// The state after a step has looked at the interrupts without entering a
/// handler. With interrupts enabled the bus was asked to acknowledge one;
/// with interrupts disabled a pending request to enable them takes effect.
pub open spec fn settle<B: Bus>(s: State<B>) -> State<B> {
    if s.iten {
        State { bus: B::acknowledge(s.bus), ..entry(s) }
    } else {
        State { iten: s.iten_enable_next, ..entry(s) }
    }
}

/// Whether a halted core in the state `s`, one clock period later, wakes up:
/// interrupts are disabled and an interrupt is pending. The interrupt is not
/// served, and the instruction behind the halt is the next to run.
pub open spec fn wakes<B: Bus>(s: State<B>) -> bool {
    !s.iten && B::pending(B::tick(s.bus)) is Some
}

/// One step of the core, with its result: the clock periods that it took,
/// or why the machine cannot go on.
///
/// With interrupts enabled and one pending, the step enters its handler,
/// which takes 32 clock periods, and fetches no opcode. Else a halted core
/// waits one clock period; it goes on with an instruction in the same step
/// only where it wakes up. A core that is not halted runs one instruction.
pub open spec fn step<B: Bus>(s: State<B>) -> (State<B>, Result<u8, Fatal>) {
    if interrupted(s) {
        (
            State { bus: B::acknowledge(s.bus), ..entry(s) }.service(B::pending(s.bus).unwrap()),
            Ok(32u8),
        )
    } else if settle(s).halted {
        if wakes(settle(s)) {
            execute(State { halted: false, ..settle(s).advance(1) })
        } else {
            (settle(s).advance(1), Ok(1u8))
        }
    } else {
        execute(settle(s))
    }
}

} // verus!
