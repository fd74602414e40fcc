//! Cycle accounting: the clock periods that a handler reports are the clock
//! periods by which it has advanced the bus.

use vstd::prelude::*;
use crate::bus::Bus;
use crate::cpu::model::State;
use crate::cpu::decode::{decode, lemma_decode, lemma_decoded_takes, lemma_takes};
use crate::cpu::semantics;
use crate::cpu::Fatal;
use crate::cpu::semantics::{
    ExtendedHandler, Handler, Step, dispatch, dispatch_extended, extended_order, interrupted,
    primary_order, settle, step,
};

verus! {

/// A handler of the extended table that matches reports 8 or 16 clock
/// periods, and has advanced the bus by as many but for the 8 of the two
/// fetches before it.
pub proof fn lemma_extended_cycles<B: Bus>(h: ExtendedHandler, s: State<B>, op: u8)
    ensures
        match h.effect(s, op) {
            Some((after, cycles)) => after.cycles == s.cycles + cycles - 8 && (cycles == 8 || cycles
                == 16),
            None => true,
        },
{
}

/// What holds of each handler of an extended table holds of the first one
/// that matches.
pub proof fn lemma_dispatch_extended_cycles<B: Bus>(
    table: Seq<ExtendedHandler>,
    from: int,
    s: State<B>,
    op: u8,
)
    ensures
        match dispatch_extended(table, from, s, op) {
            Some((after, cycles)) => after.cycles == s.cycles + cycles - 8 && (cycles == 8 || cycles
                == 16),
            None => true,
        },
    decreases table.len() - from,
{
    if 0 <= from < table.len() {
        lemma_extended_cycles(table[from], s, op);
        lemma_dispatch_extended_cycles(table, from + 1, s, op);
    }
}

/// Whether an instruction with the given effect on the state `s` reports
/// between 4 and 24 clock periods, and has advanced the bus by as many but
/// for the 4 of the fetch of the opcode.
pub open spec fn counted<B: Bus>(effect: Option<(State<B>, u8)>, s: State<B>) -> bool {
    match effect {
        Some((after, cycles)) => after.cycles == s.cycles + cycles - 4 && 4 <= cycles <= 24,
        None => true,
    }
}

/// A handler of the primary table that carries an instruction out reports
/// between 4 and 24 clock periods, and has advanced the bus by as many but
/// for the 4 of the fetch of the opcode. One that fails has advanced the bus
/// by 4 clock periods.
pub proof fn lemma_handler_cycles<B: Bus>(h: Handler, s: State<B>, op: u8)
    ensures
        match h.step(s, op) {
            Step::Done(after, cycles) => after.cycles == s.cycles + cycles - 4 && 4 <= cycles <= 24,
            Step::Failed(after, fatal) => after.cycles == s.cycles + 4,
            Step::Pass => true,
        },
{
    reveal(Handler::step);
    match h {
        Handler::Nop => {
            assert(counted(semantics::nop(s, op), s));
        },
        Handler::LdImmediateValue8Bit => {
            assert(counted(semantics::ld_immediate_value_8_bit(s, op), s));
        },
        Handler::LdImmediateValue16Bit => {
            assert(counted(semantics::ld_immediate_value_16_bit(s, op), s));
        },
        Handler::LoadNIntoHl => {
            assert(counted(semantics::load_n_into_hl(s, op), s));
        },
        Handler::LdR1R2 => {
            assert(counted(semantics::ld_r1_r2(s, op), s));
        },
        Handler::LddHlA => {
            assert(counted(semantics::ldd_hl_a(s, op), s));
        },
        Handler::LdNIntoA => {
            assert(counted(semantics::ld_n_into_a(s, op), s));
        },
        Handler::LdAIntoN => {
            assert(counted(semantics::ld_a_into_n(s, op), s));
        },
        Handler::LdhNA => {
            assert(counted(semantics::ldh_n_a(s, op), s));
        },
        Handler::LdhAN => {
            assert(counted(semantics::ldh_a_n(s, op), s));
        },
        Handler::LdiHlA => {
            assert(counted(semantics::ldi_hl_a(s, op), s));
        },
        Handler::LdiAHl => {
            assert(counted(semantics::ldi_a_hl(s, op), s));
        },
        Handler::LddAHl => {
            assert(counted(semantics::ldd_a_hl(s, op), s));
        },
        Handler::LdSpHl => {
            assert(counted(semantics::ld_sp_hl(s, op), s));
        },
        Handler::LddA16Sp => {
            assert(counted(semantics::ldd_a16_sp(s, op), s));
        },
        Handler::Stop => {},
        Handler::LoadAFfC => {
            assert(counted(semantics::load_a_ff_c(s, op), s));
        },
        Handler::LoadFfCA => {
            assert(counted(semantics::load_ff_c_a(s, op), s));
        },
        Handler::Jump => {
            assert(counted(semantics::jump(s, op), s));
        },
        Handler::JumpHl => {
            assert(counted(semantics::jump_hl(s, op), s));
        },
        Handler::JumpA16 => {
            assert(counted(semantics::jump(s, op), s));
        },
        Handler::Compare => {
            assert(counted(semantics::compare(s, op), s));
        },
        Handler::Subtract => {
            assert(counted(semantics::subtract(s, op), s));
        },
        Handler::AddAN => {
            assert(counted(semantics::add_a_n(s, op), s));
        },
        Handler::AddHlN => {
            assert(counted(semantics::add_hl_n(s, op), s));
        },
        Handler::Xor => {
            assert(counted(semantics::xor(s, op), s));
        },
        Handler::PrefixCb => {
            lemma_dispatch_extended_cycles(extended_order(), 0, s.skip_byte(), s.next_byte());
        },
        Handler::JumpCcN => {
            assert(counted(semantics::jump_cc_n(s, op), s));
        },
        Handler::JumpCcNn => {
            assert(counted(semantics::jump_cc_nn(s, op), s));
        },
        Handler::EnableInterrupts => {
            assert(counted(semantics::enable_interrupts(s, op), s));
        },
        Handler::DisableInterrupts => {
            assert(counted(semantics::disable_interrupts(s, op), s));
        },
        Handler::Ret => {
            assert(counted(semantics::ret(s, op), s));
        },
        Handler::RetCc => {
            assert(counted(semantics::ret_cc(s, op), s));
        },
        Handler::Reti => {
            assert(counted(semantics::reti(s, op), s));
        },
        Handler::Pop => {
            assert(counted(semantics::pop(s, op), s));
        },
        Handler::Push => {
            assert(counted(semantics::push(s, op), s));
        },
        Handler::CallImmediate16 => {
            assert(counted(semantics::call_immediate_16(s, op), s));
        },
        Handler::CallCcNn => {
            assert(counted(semantics::call_cc_nn(s, op), s));
        },
        Handler::Increment => {
            assert(counted(semantics::increment(s, op), s));
        },
        Handler::IncrementNn => {
            assert(counted(semantics::increment_nn(s, op), s));
        },
        Handler::DecrementN => {
            assert(counted(semantics::decrement_n(s, op), s));
        },
        Handler::DecrementNn => {
            assert(counted(semantics::decrement_nn(s, op), s));
        },
        Handler::Rla => {
            assert(counted(semantics::rla(s, op), s));
        },
        Handler::Rlca => {
            assert(counted(semantics::rlca(s, op), s));
        },
        Handler::Or => {
            assert(counted(semantics::or(s, op), s));
        },
        Handler::And => {
            assert(counted(semantics::and(s, op), s));
        },
        Handler::Daa => {
            assert(counted(semantics::daa(s, op), s));
        },
        Handler::Scf => {
            assert(counted(semantics::scf(s, op), s));
        },
        Handler::Adc => {
            assert(counted(semantics::adc(s, op), s));
        },
        Handler::Cpl => {
            assert(counted(semantics::cpl(s, op), s));
        },
        Handler::Rst => {
            assert(counted(semantics::rst(s, op), s));
        },
        Handler::Halt => {
            assert(counted(semantics::halt(s, op), s));
        },
    }
}

/// What holds of each handler of a primary table holds of the first one
/// that does not pass the opcode on.
pub proof fn lemma_dispatch_cycles<B: Bus>(table: Seq<Handler>, from: int, s: State<B>, op: u8)
    ensures
        match dispatch(table, from, s, op) {
            Step::Done(after, cycles) => after.cycles == s.cycles + cycles - 4 && 4 <= cycles <= 24,
            Step::Failed(after, fatal) => after.cycles == s.cycles + 4,
            Step::Pass => true,
        },
    decreases table.len() - from,
{
    if 0 <= from < table.len() {
        lemma_handler_cycles(table[from], s, op);
        lemma_dispatch_cycles(table, from + 1, s, op);
    }
}

/// The reference timing of the primary opcodes: the clock periods of the
/// instruction with opcode `op`, where `taken` says whether a conditional
/// jump, call or return is taken; `None` for an opcode that the table does
/// not provide, for the instruction that stops the machine, and for the
/// escape to the extended table.
pub open spec fn reference_cycles(op: u8, taken: bool) -> Option<u8> {
    if op < 0x40 {
        if op == 0x00 || op == 0x07 || op == 0x17 || op == 0x27 || op == 0x2F || op == 0x37 {
            Some(4)
        } else if op == 0x08 {
            Some(20)
        } else if op == 0x18 {
            Some(12)
        } else if op == 0x20 || op == 0x28 || op == 0x30 || op == 0x38 {
            Some(if taken { 12 } else { 8 })
        } else if op % 16 == 1 {
            Some(12)
        } else if op % 16 == 2 || op % 16 == 3 || op % 16 == 9 || op % 16 == 0xA || op % 16 == 0xB {
            Some(8)
        } else if op % 8 == 4 || op % 8 == 5 {
            Some(if op / 8 == 6 { 12 } else { 4 })
        } else if op % 8 == 6 {
            Some(if op / 8 == 6 { 12 } else { 8 })
        } else {
            None
        }
    } else if op < 0x80 {
        if op == 0x76 {
            Some(4)
        } else if op % 8 == 6 || op / 8 == 0x0E {
            Some(8)
        } else {
            Some(4)
        }
    } else if op < 0xC0 {
        if op / 8 == 0x13 {
            None
        } else if op % 8 == 6 {
            Some(8)
        } else {
            Some(4)
        }
    } else if op == 0xC0 || op == 0xC8 || op == 0xD0 || op == 0xD8 {
        Some(if taken { 20 } else { 8 })
    } else if op == 0xC2 || op == 0xCA || op == 0xD2 || op == 0xDA {
        Some(if taken { 16 } else { 12 })
    } else if op == 0xC4 || op == 0xCC || op == 0xD4 || op == 0xDC {
        Some(if taken { 24 } else { 12 })
    } else if op % 16 == 1 || op == 0xE0 || op == 0xF0 {
        Some(12)
    } else if op % 16 == 5 || op % 8 == 7 || op == 0xC3 || op == 0xC9 || op == 0xD9 || op == 0xEA
        || op == 0xFA {
        Some(16)
    } else if op == 0xCD {
        Some(24)
    } else if op % 8 == 6 && op != 0xDE || op == 0xE2 || op == 0xF2 || op == 0xF9 {
        Some(8)
    } else if op == 0xE9 || op == 0xF3 || op == 0xFB {
        Some(4)
    } else {
        None
    }
}

/// The reference timing of the extended opcodes, the two fetches included:
/// 16 clock periods with the operand at the address in the pointer pair, 8
/// with a register; `None` for an opcode that the table does not provide.
pub open spec fn extended_reference_cycles(op: u8) -> Option<u8> {
    if op < 0x10 || 0x18 <= op < 0x20 || 0x28 <= op < 0x30 {
        None
    } else if op % 8 == 6 {
        Some(16)
    } else {
        Some(8)
    }
}

/// Every extended opcode takes the clock periods of the reference timing,
/// and the extended table provides the opcodes that the reference timing
/// provides.
pub proof fn lemma_extended_timing<B: Bus>(s: State<B>, op: u8)
    ensures
        match dispatch_extended(extended_order(), 0, s, op) {
            Some((after, cycles)) => extended_reference_cycles(op) == Some(cycles),
            None => extended_reference_cycles(op) is None,
        },
{
    reveal_with_fuel(dispatch_extended, 8);
}

/// The index of the condition on which the conditional instruction with
/// opcode `op` depends.
pub open spec fn condition_of(op: u8) -> u8 {
    (op / 8 % 4) as u8
}

/// Whether an instruction with the given effect on the state `s` takes the
/// clock periods that the reference timing gives for the opcode `op`.
pub open spec fn timed<B: Bus>(effect: Option<(State<B>, u8)>, s: State<B>, op: u8) -> bool {
    match effect {
        Some((after, cycles)) => reference_cycles(op, s.condition(condition_of(op))) == Some(
            cycles,
        ),
        None => true,
    }
}

/// The loads of registers take the clock periods of the reference timing.
proof fn lemma_loads_timing<B: Bus>(s: State<B>, op: u8)
    ensures
        timed(semantics::nop(s, op), s, op),
        timed(semantics::ld_immediate_value_8_bit(s, op), s, op),
        timed(semantics::ld_immediate_value_16_bit(s, op), s, op),
        timed(semantics::load_n_into_hl(s, op), s, op),
        timed(semantics::ld_r1_r2(s, op), s, op),
        timed(semantics::ldd_hl_a(s, op), s, op),
        timed(semantics::ld_n_into_a(s, op), s, op),
        timed(semantics::ld_a_into_n(s, op), s, op),
{
}

/// The loads through memory take the clock periods of the reference timing.
proof fn lemma_transfers_timing<B: Bus>(s: State<B>, op: u8)
    ensures
        timed(semantics::ldh_n_a(s, op), s, op),
        timed(semantics::ldh_a_n(s, op), s, op),
        timed(semantics::ldi_hl_a(s, op), s, op),
        timed(semantics::ldi_a_hl(s, op), s, op),
        timed(semantics::ldd_a_hl(s, op), s, op),
        timed(semantics::ld_sp_hl(s, op), s, op),
        timed(semantics::ldd_a16_sp(s, op), s, op),
        timed(semantics::load_a_ff_c(s, op), s, op),
        timed(semantics::load_ff_c_a(s, op), s, op),
{
}

/// The instructions of the accumulator with a source, and the 16-bit
/// addition, take the clock periods of the reference timing.
proof fn lemma_arithmetic_timing<B: Bus>(s: State<B>, op: u8)
    ensures
        timed(semantics::compare(s, op), s, op),
        timed(semantics::subtract(s, op), s, op),
        timed(semantics::add_a_n(s, op), s, op),
        timed(semantics::add_hl_n(s, op), s, op),
        timed(semantics::xor(s, op), s, op),
        timed(semantics::or(s, op), s, op),
        timed(semantics::and(s, op), s, op),
        timed(semantics::adc(s, op), s, op),
{
}

/// The jumps, calls and returns take the clock periods of the reference
/// timing, taken or not.
proof fn lemma_jumps_timing<B: Bus>(s: State<B>, op: u8)
    ensures
        timed(semantics::jump(s, op), s, op),
        timed(semantics::jump_hl(s, op), s, op),
        timed(semantics::jump_cc_n(s, op), s, op),
        timed(semantics::jump_cc_nn(s, op), s, op),
        timed(semantics::ret(s, op), s, op),
        timed(semantics::ret_cc(s, op), s, op),
        timed(semantics::reti(s, op), s, op),
        timed(semantics::call_immediate_16(s, op), s, op),
        timed(semantics::call_cc_nn(s, op), s, op),
        timed(semantics::rst(s, op), s, op),
{
}

/// The other instructions take the clock periods of the reference timing.
proof fn lemma_rest_timing<B: Bus>(s: State<B>, op: u8)
    ensures
        timed(semantics::enable_interrupts(s, op), s, op),
        timed(semantics::disable_interrupts(s, op), s, op),
        timed(semantics::pop(s, op), s, op),
        timed(semantics::push(s, op), s, op),
        timed(semantics::increment(s, op), s, op),
        timed(semantics::increment_nn(s, op), s, op),
        timed(semantics::decrement_n(s, op), s, op),
        timed(semantics::decrement_nn(s, op), s, op),
        timed(semantics::rla(s, op), s, op),
        timed(semantics::rlca(s, op), s, op),
        timed(semantics::daa(s, op), s, op),
        timed(semantics::scf(s, op), s, op),
        timed(semantics::cpl(s, op), s, op),
        timed(semantics::halt(s, op), s, op),
{
}

/// Each handler of the primary table takes, for each opcode that it carries
/// out, the clock periods of the reference timing. Only the instruction that
/// stops the machine and the escape to the extended table can fail.
pub proof fn lemma_handler_timing<B: Bus>(h: Handler, s: State<B>, op: u8)
    ensures
        match h.step(s, op) {
            Step::Done(after, cycles) => op == 0xCB || reference_cycles(
                op,
                s.condition(condition_of(op)),
            ) == Some(cycles),
            Step::Failed(after, fatal) => op == 0xCB || op == 0x10,
            Step::Pass => true,
        },
{
    reveal(Handler::step);
    match h {
        Handler::Nop => {
            lemma_loads_timing(s, op);
        },
        Handler::LdImmediateValue8Bit => {
            lemma_loads_timing(s, op);
        },
        Handler::LdImmediateValue16Bit => {
            lemma_loads_timing(s, op);
        },
        Handler::LoadNIntoHl => {
            lemma_loads_timing(s, op);
        },
        Handler::LdR1R2 => {
            lemma_loads_timing(s, op);
        },
        Handler::LddHlA => {
            lemma_loads_timing(s, op);
        },
        Handler::LdNIntoA => {
            lemma_loads_timing(s, op);
        },
        Handler::LdAIntoN => {
            lemma_loads_timing(s, op);
        },
        Handler::LdhNA => {
            lemma_transfers_timing(s, op);
        },
        Handler::LdhAN => {
            lemma_transfers_timing(s, op);
        },
        Handler::LdiHlA => {
            lemma_transfers_timing(s, op);
        },
        Handler::LdiAHl => {
            lemma_transfers_timing(s, op);
        },
        Handler::LddAHl => {
            lemma_transfers_timing(s, op);
        },
        Handler::LdSpHl => {
            lemma_transfers_timing(s, op);
        },
        Handler::LddA16Sp => {
            lemma_transfers_timing(s, op);
        },
        Handler::Stop => {},
        Handler::LoadAFfC => {
            lemma_transfers_timing(s, op);
        },
        Handler::LoadFfCA => {
            lemma_transfers_timing(s, op);
        },
        Handler::Jump => {
            lemma_jumps_timing(s, op);
        },
        Handler::JumpHl => {
            lemma_jumps_timing(s, op);
        },
        Handler::JumpA16 => {
            lemma_jumps_timing(s, op);
        },
        Handler::Compare => {
            lemma_arithmetic_timing(s, op);
        },
        Handler::Subtract => {
            lemma_arithmetic_timing(s, op);
        },
        Handler::AddAN => {
            lemma_arithmetic_timing(s, op);
        },
        Handler::AddHlN => {
            lemma_arithmetic_timing(s, op);
        },
        Handler::Xor => {
            lemma_arithmetic_timing(s, op);
        },
        Handler::PrefixCb => {},
        Handler::JumpCcN => {
            lemma_jumps_timing(s, op);
        },
        Handler::JumpCcNn => {
            lemma_jumps_timing(s, op);
        },
        Handler::EnableInterrupts => {
            lemma_rest_timing(s, op);
        },
        Handler::DisableInterrupts => {
            lemma_rest_timing(s, op);
        },
        Handler::Ret => {
            lemma_jumps_timing(s, op);
        },
        Handler::RetCc => {
            lemma_jumps_timing(s, op);
        },
        Handler::Reti => {
            lemma_jumps_timing(s, op);
        },
        Handler::Pop => {
            lemma_rest_timing(s, op);
        },
        Handler::Push => {
            lemma_rest_timing(s, op);
        },
        Handler::CallImmediate16 => {
            lemma_jumps_timing(s, op);
        },
        Handler::CallCcNn => {
            lemma_jumps_timing(s, op);
        },
        Handler::Increment => {
            lemma_rest_timing(s, op);
        },
        Handler::IncrementNn => {
            lemma_rest_timing(s, op);
        },
        Handler::DecrementN => {
            lemma_rest_timing(s, op);
        },
        Handler::DecrementNn => {
            lemma_rest_timing(s, op);
        },
        Handler::Rla => {
            lemma_rest_timing(s, op);
        },
        Handler::Rlca => {
            lemma_rest_timing(s, op);
        },
        Handler::Or => {
            lemma_arithmetic_timing(s, op);
        },
        Handler::And => {
            lemma_arithmetic_timing(s, op);
        },
        Handler::Daa => {
            lemma_rest_timing(s, op);
        },
        Handler::Scf => {
            lemma_rest_timing(s, op);
        },
        Handler::Adc => {
            lemma_arithmetic_timing(s, op);
        },
        Handler::Cpl => {
            lemma_rest_timing(s, op);
        },
        Handler::Rst => {
            lemma_jumps_timing(s, op);
        },
        Handler::Halt => {
            lemma_rest_timing(s, op);
        },
    }
}

/// What holds of each handler of a primary table holds of the first one
/// that does not pass the opcode on.
pub proof fn lemma_dispatch_timing<B: Bus>(table: Seq<Handler>, from: int, s: State<B>, op: u8)
    ensures
        match dispatch(table, from, s, op) {
            Step::Done(after, cycles) => op == 0xCB || reference_cycles(
                op,
                s.condition(condition_of(op)),
            ) == Some(cycles),
            Step::Failed(after, fatal) => op == 0xCB || op == 0x10,
            Step::Pass => true,
        },
    decreases table.len() - from,
{
    if 0 <= from < table.len() {
        lemma_handler_timing(table[from], s, op);
        lemma_dispatch_timing(table, from + 1, s, op);
    }
}

/// The reference timing gives clock periods for the opcodes that the primary
/// table provides, but for the opcode that stops the machine and for the
/// escape to the extended table.
pub proof fn lemma_reference_covers_decode(op: u8, taken: bool)
    ensures
        reference_cycles(op, taken) is Some <==> decode(op) is Some && op != 0x10 && op != 0xCB,
{
}

/// Every primary opcode takes the clock periods of the reference timing: a
/// conditional jump, call or return those of the taken branch where its
/// condition holds, and else those of the branch not taken. The primary
/// table provides the opcodes that the reference timing provides.
pub proof fn lemma_primary_timing<B: Bus>(s: State<B>, op: u8)
    requires
        op != 0xCB,
        op != 0x10,
    ensures
        match dispatch(primary_order(), 0, s, op) {
            Step::Done(after, cycles) => reference_cycles(op, s.condition(condition_of(op)))
                == Some(cycles),
            Step::Failed(after, fatal) => false,
            Step::Pass => reference_cycles(op, s.condition(condition_of(op))) is None,
        },
{
    lemma_dispatch_timing(primary_order(), 0, s, op);
    lemma_reference_covers_decode(op, s.condition(condition_of(op)));
    lemma_decode(s, op);
    lemma_decoded_takes(op);
    match decode(op) {
        Some(h) => {
            lemma_takes(h, s, op);
        },
        None => {},
    }
}

/// The result of a step that runs an instruction. It is the clock periods
/// of the reference timing, for a primary opcode and for an extended one.
/// It is a failure exactly for the opcode that stops the machine and for
/// the opcodes that the reference timing does not provide, which the
/// failure names with the address at which the opcode lies.
pub proof fn lemma_instruction_timing<B: Bus>(s: State<B>)
    requires
        !interrupted(s),
        !settle(s).halted,
    ensures
        ({
            let at = settle(s);
            let op = at.next_byte();
            let extended = at.skip_byte().next_byte();
            step(s).1 == if op == 0x10 {
                Err::<u8, Fatal>(Fatal::Stop)
            } else if op == 0xCB {
                match extended_reference_cycles(extended) {
                    Some(cycles) => Ok::<u8, Fatal>(cycles),
                    None => Err::<u8, Fatal>(
                        Fatal::UnsupportedExtendedOpcode {
                            opcode: extended,
                            pc: at.skip_byte().program_counter,
                        },
                    ),
                }
            } else {
                match reference_cycles(op, s.condition(condition_of(op))) {
                    Some(cycles) => Ok::<u8, Fatal>(cycles),
                    None => Err::<u8, Fatal>(
                        Fatal::UnsupportedOpcode { opcode: op, pc: s.program_counter },
                    ),
                }
            }
        }),
{
    let at = settle(s);
    let op = at.next_byte();
    if op == 0x10 || op == 0xCB {
        lemma_decode(at.skip_byte(), op);
        reveal(Handler::step);
        lemma_extended_timing(at.skip_byte().skip_byte(), at.skip_byte().next_byte());
    } else {
        lemma_primary_timing(at.skip_byte(), op);
    }
}

/// A step that does not fail takes between 1 and 32 clock periods.
pub proof fn lemma_step_takes_time<B: Bus>(s: State<B>)
    ensures
        match step(s).1 {
            Ok(cycles) => 1 <= cycles <= 32,
            Err(fatal) => true,
        },
{
    let at = if settle(s).halted {
        State { halted: false, ..settle(s).advance(1) }
    } else {
        settle(s)
    };
    lemma_dispatch_cycles(primary_order(), 0, at.skip_byte(), at.next_byte());
}

} // verus!
