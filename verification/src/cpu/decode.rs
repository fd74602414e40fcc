//! The two ordered tables as direct decoders: which handler carries out
//! each opcode.

use vstd::prelude::*;
use crate::bus::Bus;
use crate::cpu::model::State;
use crate::cpu::semantics::{
    ExtendedHandler, Handler, Step, dispatch, dispatch_extended, extended_order, primary_order,
};

verus! {

impl Handler {
    /// Whether this handler takes the opcode `op`: whether it does anything
    /// but pass it on. No handler looks at the state for this.
    pub open spec fn takes(self, op: u8) -> bool {
        match self {
            Handler::Nop => op == 0x00,
            Handler::LdImmediateValue8Bit => op % 8 == 6 && op < 0x38,
            Handler::LdImmediateValue16Bit => op % 16 == 1 && op < 0x40,
            Handler::LoadNIntoHl => 0x70 <= op <= 0x75,
            Handler::LdR1R2 => 0x40 <= op < 0x70 && op % 8 != 7,
            Handler::LddHlA => op == 0x32,
            Handler::LdNIntoA => 0x78 <= op <= 0x7F || op == 0x0A || op == 0x1A || op == 0xFA || op == 0x3E,
            Handler::LdAIntoN => 0x40 <= op < 0x80 && op % 8 == 7 || op == 0x02 || op == 0x12 || op == 0xEA,
            Handler::LdhNA => op == 0xE0,
            Handler::LdhAN => op == 0xF0,
            Handler::LdiHlA => op == 0x22,
            Handler::LdiAHl => op == 0x2A,
            Handler::LddAHl => op == 0x3A,
            Handler::LdSpHl => op == 0xF9,
            Handler::LddA16Sp => op == 0x08,
            Handler::Stop => op == 0x10,
            Handler::LoadAFfC => op == 0xF2,
            Handler::LoadFfCA => op == 0xE2,
            Handler::Jump => op == 0xC3,
            Handler::JumpHl => op == 0xE9,
            Handler::JumpA16 => op == 0xC3,
            Handler::Compare => 0xB8 <= op <= 0xBF || op == 0xFE,
            Handler::Subtract => 0x90 <= op <= 0x97 || op == 0xD6,
            Handler::AddAN => 0x80 <= op <= 0x87 || op == 0xC6,
            Handler::AddHlN => op % 16 == 9 && op < 0x40,
            Handler::Xor => 0xA8 <= op <= 0xAF || op == 0xEE,
            Handler::PrefixCb => op == 0xCB,
            Handler::JumpCcN => op == 0x18 || op == 0x20 || op == 0x28 || op == 0x30 || op == 0x38,
            Handler::JumpCcNn => op == 0xC2 || op == 0xCA || op == 0xD2 || op == 0xDA,
            Handler::EnableInterrupts => op == 0xFB,
            Handler::DisableInterrupts => op == 0xF3,
            Handler::Ret => op == 0xC9,
            Handler::RetCc => op == 0xC0 || op == 0xC8 || op == 0xD0 || op == 0xD8,
            Handler::Reti => op == 0xD9,
            Handler::Pop => op % 16 == 1 && op >= 0xC0,
            Handler::Push => op % 16 == 5 && op >= 0xC0,
            Handler::CallImmediate16 => op == 0xCD,
            Handler::CallCcNn => op == 0xC4 || op == 0xCC || op == 0xD4 || op == 0xDC,
            Handler::Increment => op % 8 == 4 && op < 0x40,
            Handler::IncrementNn => op % 16 == 3 && op < 0x40,
            Handler::DecrementN => op % 8 == 5 && op < 0x40,
            Handler::DecrementNn => op % 16 == 0xB && op < 0x40,
            Handler::Rla => op == 0x17,
            Handler::Rlca => op == 0x07,
            Handler::Or => 0xB0 <= op <= 0xB7 || op == 0xF6,
            Handler::And => 0xA0 <= op <= 0xA7 || op == 0xE6,
            Handler::Daa => op == 0x27,
            Handler::Scf => op == 0x37,
            Handler::Adc => 0x88 <= op <= 0x8F || op == 0xCE,
            Handler::Cpl => op == 0x2F,
            Handler::Rst => op % 8 == 7 && op >= 0xC0,
            Handler::Halt => op == 0x76,
        }
    }
}

/// Of the loads of registers: a handler passes on exactly the opcodes that it
/// does not take.
proof fn lemma_loads_take<B: Bus>(s: State<B>, op: u8)
    ensures
        !(Handler::Nop.step(s, op) is Pass) <==> Handler::Nop.takes(op),
        !(Handler::LdImmediateValue8Bit.step(s, op) is Pass) <==> Handler::LdImmediateValue8Bit.takes(op),
        !(Handler::LdImmediateValue16Bit.step(s, op) is Pass) <==> Handler::LdImmediateValue16Bit.takes(op),
        !(Handler::LoadNIntoHl.step(s, op) is Pass) <==> Handler::LoadNIntoHl.takes(op),
        !(Handler::LdR1R2.step(s, op) is Pass) <==> Handler::LdR1R2.takes(op),
        !(Handler::LddHlA.step(s, op) is Pass) <==> Handler::LddHlA.takes(op),
        !(Handler::LdNIntoA.step(s, op) is Pass) <==> Handler::LdNIntoA.takes(op),
        !(Handler::LdAIntoN.step(s, op) is Pass) <==> Handler::LdAIntoN.takes(op),
{
    reveal(Handler::step);
}

/// Of the loads through memory: a handler passes on exactly the opcodes that it
/// does not take.
proof fn lemma_transfers_take<B: Bus>(s: State<B>, op: u8)
    ensures
        !(Handler::LdhNA.step(s, op) is Pass) <==> Handler::LdhNA.takes(op),
        !(Handler::LdhAN.step(s, op) is Pass) <==> Handler::LdhAN.takes(op),
        !(Handler::LdiHlA.step(s, op) is Pass) <==> Handler::LdiHlA.takes(op),
        !(Handler::LdiAHl.step(s, op) is Pass) <==> Handler::LdiAHl.takes(op),
        !(Handler::LddAHl.step(s, op) is Pass) <==> Handler::LddAHl.takes(op),
        !(Handler::LdSpHl.step(s, op) is Pass) <==> Handler::LdSpHl.takes(op),
        !(Handler::LddA16Sp.step(s, op) is Pass) <==> Handler::LddA16Sp.takes(op),
        !(Handler::Stop.step(s, op) is Pass) <==> Handler::Stop.takes(op),
        !(Handler::LoadAFfC.step(s, op) is Pass) <==> Handler::LoadAFfC.takes(op),
        !(Handler::LoadFfCA.step(s, op) is Pass) <==> Handler::LoadFfCA.takes(op),
{
    reveal(Handler::step);
}

/// Of the instructions of the accumulator with a source and the 16-bit addition: a handler passes on exactly the opcodes that it
/// does not take.
proof fn lemma_arithmetic_take<B: Bus>(s: State<B>, op: u8)
    ensures
        !(Handler::Compare.step(s, op) is Pass) <==> Handler::Compare.takes(op),
        !(Handler::Subtract.step(s, op) is Pass) <==> Handler::Subtract.takes(op),
        !(Handler::AddAN.step(s, op) is Pass) <==> Handler::AddAN.takes(op),
        !(Handler::AddHlN.step(s, op) is Pass) <==> Handler::AddHlN.takes(op),
        !(Handler::Xor.step(s, op) is Pass) <==> Handler::Xor.takes(op),
        !(Handler::Or.step(s, op) is Pass) <==> Handler::Or.takes(op),
        !(Handler::And.step(s, op) is Pass) <==> Handler::And.takes(op),
        !(Handler::Adc.step(s, op) is Pass) <==> Handler::Adc.takes(op),
{
    reveal(Handler::step);
}

/// Of the jumps, calls and returns and the escape: a handler passes on exactly the opcodes that it
/// does not take.
proof fn lemma_jumps_take<B: Bus>(s: State<B>, op: u8)
    ensures
        !(Handler::Jump.step(s, op) is Pass) <==> Handler::Jump.takes(op),
        !(Handler::JumpHl.step(s, op) is Pass) <==> Handler::JumpHl.takes(op),
        !(Handler::JumpA16.step(s, op) is Pass) <==> Handler::JumpA16.takes(op),
        !(Handler::JumpCcN.step(s, op) is Pass) <==> Handler::JumpCcN.takes(op),
        !(Handler::JumpCcNn.step(s, op) is Pass) <==> Handler::JumpCcNn.takes(op),
        !(Handler::Ret.step(s, op) is Pass) <==> Handler::Ret.takes(op),
        !(Handler::RetCc.step(s, op) is Pass) <==> Handler::RetCc.takes(op),
        !(Handler::Reti.step(s, op) is Pass) <==> Handler::Reti.takes(op),
        !(Handler::CallImmediate16.step(s, op) is Pass) <==> Handler::CallImmediate16.takes(op),
        !(Handler::CallCcNn.step(s, op) is Pass) <==> Handler::CallCcNn.takes(op),
        !(Handler::Rst.step(s, op) is Pass) <==> Handler::Rst.takes(op),
        !(Handler::PrefixCb.step(s, op) is Pass) <==> Handler::PrefixCb.takes(op),
{
    reveal(Handler::step);
}

/// Of the other instructions: a handler passes on exactly the opcodes that it
/// does not take.
proof fn lemma_rest_take<B: Bus>(s: State<B>, op: u8)
    ensures
        !(Handler::EnableInterrupts.step(s, op) is Pass) <==> Handler::EnableInterrupts.takes(op),
        !(Handler::DisableInterrupts.step(s, op) is Pass) <==> Handler::DisableInterrupts.takes(op),
        !(Handler::Pop.step(s, op) is Pass) <==> Handler::Pop.takes(op),
        !(Handler::Push.step(s, op) is Pass) <==> Handler::Push.takes(op),
        !(Handler::Increment.step(s, op) is Pass) <==> Handler::Increment.takes(op),
        !(Handler::IncrementNn.step(s, op) is Pass) <==> Handler::IncrementNn.takes(op),
        !(Handler::DecrementN.step(s, op) is Pass) <==> Handler::DecrementN.takes(op),
        !(Handler::DecrementNn.step(s, op) is Pass) <==> Handler::DecrementNn.takes(op),
        !(Handler::Rla.step(s, op) is Pass) <==> Handler::Rla.takes(op),
        !(Handler::Rlca.step(s, op) is Pass) <==> Handler::Rlca.takes(op),
        !(Handler::Daa.step(s, op) is Pass) <==> Handler::Daa.takes(op),
        !(Handler::Scf.step(s, op) is Pass) <==> Handler::Scf.takes(op),
        !(Handler::Cpl.step(s, op) is Pass) <==> Handler::Cpl.takes(op),
        !(Handler::Halt.step(s, op) is Pass) <==> Handler::Halt.takes(op),
{
    reveal(Handler::step);
}

/// A handler passes on exactly the opcodes that it does not take.
pub proof fn lemma_takes<B: Bus>(h: Handler, s: State<B>, op: u8)
    ensures
        !(h.step(s, op) is Pass) <==> h.takes(op),
{
    match h {
        Handler::Nop => {
            lemma_loads_take(s, op);
        },
        Handler::LdImmediateValue8Bit => {
            lemma_loads_take(s, op);
        },
        Handler::LdImmediateValue16Bit => {
            lemma_loads_take(s, op);
        },
        Handler::LoadNIntoHl => {
            lemma_loads_take(s, op);
        },
        Handler::LdR1R2 => {
            lemma_loads_take(s, op);
        },
        Handler::LddHlA => {
            lemma_loads_take(s, op);
        },
        Handler::LdNIntoA => {
            lemma_loads_take(s, op);
        },
        Handler::LdAIntoN => {
            lemma_loads_take(s, op);
        },
        Handler::LdhNA => {
            lemma_transfers_take(s, op);
        },
        Handler::LdhAN => {
            lemma_transfers_take(s, op);
        },
        Handler::LdiHlA => {
            lemma_transfers_take(s, op);
        },
        Handler::LdiAHl => {
            lemma_transfers_take(s, op);
        },
        Handler::LddAHl => {
            lemma_transfers_take(s, op);
        },
        Handler::LdSpHl => {
            lemma_transfers_take(s, op);
        },
        Handler::LddA16Sp => {
            lemma_transfers_take(s, op);
        },
        Handler::Stop => {
            lemma_transfers_take(s, op);
        },
        Handler::LoadAFfC => {
            lemma_transfers_take(s, op);
        },
        Handler::LoadFfCA => {
            lemma_transfers_take(s, op);
        },
        Handler::Jump => {
            lemma_jumps_take(s, op);
        },
        Handler::JumpHl => {
            lemma_jumps_take(s, op);
        },
        Handler::JumpA16 => {
            lemma_jumps_take(s, op);
        },
        Handler::Compare => {
            lemma_arithmetic_take(s, op);
        },
        Handler::Subtract => {
            lemma_arithmetic_take(s, op);
        },
        Handler::AddAN => {
            lemma_arithmetic_take(s, op);
        },
        Handler::AddHlN => {
            lemma_arithmetic_take(s, op);
        },
        Handler::Xor => {
            lemma_arithmetic_take(s, op);
        },
        Handler::PrefixCb => {
            lemma_jumps_take(s, op);
        },
        Handler::JumpCcN => {
            lemma_jumps_take(s, op);
        },
        Handler::JumpCcNn => {
            lemma_jumps_take(s, op);
        },
        Handler::EnableInterrupts => {
            lemma_rest_take(s, op);
        },
        Handler::DisableInterrupts => {
            lemma_rest_take(s, op);
        },
        Handler::Ret => {
            lemma_jumps_take(s, op);
        },
        Handler::RetCc => {
            lemma_jumps_take(s, op);
        },
        Handler::Reti => {
            lemma_jumps_take(s, op);
        },
        Handler::Pop => {
            lemma_rest_take(s, op);
        },
        Handler::Push => {
            lemma_rest_take(s, op);
        },
        Handler::CallImmediate16 => {
            lemma_jumps_take(s, op);
        },
        Handler::CallCcNn => {
            lemma_jumps_take(s, op);
        },
        Handler::Increment => {
            lemma_rest_take(s, op);
        },
        Handler::IncrementNn => {
            lemma_rest_take(s, op);
        },
        Handler::DecrementN => {
            lemma_rest_take(s, op);
        },
        Handler::DecrementNn => {
            lemma_rest_take(s, op);
        },
        Handler::Rla => {
            lemma_rest_take(s, op);
        },
        Handler::Rlca => {
            lemma_rest_take(s, op);
        },
        Handler::Or => {
            lemma_arithmetic_take(s, op);
        },
        Handler::And => {
            lemma_arithmetic_take(s, op);
        },
        Handler::Daa => {
            lemma_rest_take(s, op);
        },
        Handler::Scf => {
            lemma_rest_take(s, op);
        },
        Handler::Adc => {
            lemma_arithmetic_take(s, op);
        },
        Handler::Cpl => {
            lemma_rest_take(s, op);
        },
        Handler::Rst => {
            lemma_jumps_take(s, op);
        },
        Handler::Halt => {
            lemma_rest_take(s, op);
        },
    }
}

/// The first handler of `table`, from index `from` on, that takes `op`.
pub open spec fn first_taker(table: Seq<Handler>, from: int, op: u8) -> Option<Handler>
    decreases table.len() - from,
{
    if from < 0 || from >= table.len() {
        None
    } else if table[from].takes(op) {
        Some(table[from])
    } else {
        first_taker(table, from + 1, op)
    }
}

/// A table does what its first handler that takes the opcode does.
pub proof fn lemma_dispatch_is_first_taker<B: Bus>(
    table: Seq<Handler>,
    from: int,
    s: State<B>,
    op: u8,
)
    ensures
        dispatch(table, from, s, op) == match first_taker(table, from, op) {
            Some(h) => h.step(s, op),
            None => Step::Pass,
        },
    decreases table.len() - from,
{
    if 0 <= from < table.len() {
        lemma_takes(table[from], s, op);
        lemma_dispatch_is_first_taker(table, from + 1, s, op);
    }
}

/// The handler of the primary table that carries out the opcode `op`;
/// `None` for an opcode that the table does not provide.
pub open spec fn decode(op: u8) -> Option<Handler> {
    if op < 0x40 {
        if op == 0x00 {
            Some(Handler::Nop)
        } else if op == 0x10 {
            Some(Handler::Stop)
        } else if op == 0x07 {
            Some(Handler::Rlca)
        } else if op == 0x17 {
            Some(Handler::Rla)
        } else if op == 0x27 {
            Some(Handler::Daa)
        } else if op == 0x2F {
            Some(Handler::Cpl)
        } else if op == 0x37 {
            Some(Handler::Scf)
        } else if op == 0x08 {
            Some(Handler::LddA16Sp)
        } else if op % 8 == 0 {
            Some(Handler::JumpCcN)
        } else if op % 16 == 1 {
            Some(Handler::LdImmediateValue16Bit)
        } else if op == 0x02 || op == 0x12 {
            Some(Handler::LdAIntoN)
        } else if op == 0x22 {
            Some(Handler::LdiHlA)
        } else if op == 0x32 {
            Some(Handler::LddHlA)
        } else if op == 0x0A || op == 0x1A || op == 0x3E {
            Some(Handler::LdNIntoA)
        } else if op == 0x2A {
            Some(Handler::LdiAHl)
        } else if op == 0x3A {
            Some(Handler::LddAHl)
        } else if op % 16 == 3 {
            Some(Handler::IncrementNn)
        } else if op % 16 == 9 {
            Some(Handler::AddHlN)
        } else if op % 16 == 0xB {
            Some(Handler::DecrementNn)
        } else if op % 8 == 4 {
            Some(Handler::Increment)
        } else if op % 8 == 5 {
            Some(Handler::DecrementN)
        } else if op % 8 == 6 {
            Some(Handler::LdImmediateValue8Bit)
        } else {
            None
        }
    } else if op < 0x80 {
        if op == 0x76 {
            Some(Handler::Halt)
        } else if op >= 0x78 {
            Some(Handler::LdNIntoA)
        } else if op % 8 == 7 {
            Some(Handler::LdAIntoN)
        } else if op >= 0x70 {
            Some(Handler::LoadNIntoHl)
        } else {
            Some(Handler::LdR1R2)
        }
    } else if op < 0xC0 {
        if op < 0x88 {
            Some(Handler::AddAN)
        } else if op < 0x90 {
            Some(Handler::Adc)
        } else if op < 0x98 {
            Some(Handler::Subtract)
        } else if op < 0xA0 {
            None
        } else if op < 0xA8 {
            Some(Handler::And)
        } else if op < 0xB0 {
            Some(Handler::Xor)
        } else if op < 0xB8 {
            Some(Handler::Or)
        } else {
            Some(Handler::Compare)
        }
    } else if op == 0xC0 || op == 0xC8 || op == 0xD0 || op == 0xD8 {
        Some(Handler::RetCc)
    } else if op == 0xC2 || op == 0xCA || op == 0xD2 || op == 0xDA {
        Some(Handler::JumpCcNn)
    } else if op == 0xC4 || op == 0xCC || op == 0xD4 || op == 0xDC {
        Some(Handler::CallCcNn)
    } else if op % 16 == 1 {
        Some(Handler::Pop)
    } else if op % 16 == 5 {
        Some(Handler::Push)
    } else if op % 8 == 7 {
        Some(Handler::Rst)
    } else if op == 0xC3 {
        Some(Handler::Jump)
    } else if op == 0xC9 {
        Some(Handler::Ret)
    } else if op == 0xD9 {
        Some(Handler::Reti)
    } else if op == 0xCB {
        Some(Handler::PrefixCb)
    } else if op == 0xCD {
        Some(Handler::CallImmediate16)
    } else if op == 0xE0 {
        Some(Handler::LdhNA)
    } else if op == 0xF0 {
        Some(Handler::LdhAN)
    } else if op == 0xE2 {
        Some(Handler::LoadFfCA)
    } else if op == 0xF2 {
        Some(Handler::LoadAFfC)
    } else if op == 0xEA {
        Some(Handler::LdAIntoN)
    } else if op == 0xFA {
        Some(Handler::LdNIntoA)
    } else if op == 0xE9 {
        Some(Handler::JumpHl)
    } else if op == 0xF9 {
        Some(Handler::LdSpHl)
    } else if op == 0xF3 {
        Some(Handler::DisableInterrupts)
    } else if op == 0xFB {
        Some(Handler::EnableInterrupts)
    } else if op == 0xC6 {
        Some(Handler::AddAN)
    } else if op == 0xCE {
        Some(Handler::Adc)
    } else if op == 0xD6 {
        Some(Handler::Subtract)
    } else if op == 0xE6 {
        Some(Handler::And)
    } else if op == 0xEE {
        Some(Handler::Xor)
    } else if op == 0xF6 {
        Some(Handler::Or)
    } else if op == 0xFE {
        Some(Handler::Compare)
    } else {
        None
    }
}

/// The primary table in five segments.
spec fn segment(i: int) -> Seq<Handler> {
    if i == 0 {
        seq![Handler::Nop, Handler::LdImmediateValue8Bit, Handler::LdImmediateValue16Bit, Handler::LoadNIntoHl, Handler::LdR1R2, Handler::LddHlA, Handler::LdNIntoA, Handler::LdAIntoN, Handler::LdhNA, Handler::LdhAN]
    } else if i == 1 {
        seq![Handler::LdiHlA, Handler::LdiAHl, Handler::LddAHl, Handler::LdSpHl, Handler::LddA16Sp, Handler::Stop, Handler::LoadAFfC, Handler::LoadFfCA, Handler::Jump, Handler::JumpHl]
    } else if i == 2 {
        seq![Handler::JumpA16, Handler::Compare, Handler::Subtract, Handler::AddAN, Handler::AddHlN, Handler::Xor, Handler::PrefixCb, Handler::JumpCcN, Handler::JumpCcNn, Handler::EnableInterrupts]
    } else if i == 3 {
        seq![Handler::DisableInterrupts, Handler::Ret, Handler::RetCc, Handler::Reti, Handler::Pop, Handler::Push, Handler::CallImmediate16, Handler::CallCcNn, Handler::Increment, Handler::IncrementNn, Handler::DecrementN]
    } else {
        seq![Handler::DecrementNn, Handler::Rla, Handler::Rlca, Handler::Or, Handler::And, Handler::Daa, Handler::Scf, Handler::Adc, Handler::Cpl, Handler::Rst, Handler::Halt]
    }
}

/// The segment of the primary table in which a handler stands.
spec fn segment_of(h: Handler) -> int {
    match h {
        Handler::Nop => 0,
        Handler::LdImmediateValue8Bit => 0,
        Handler::LdImmediateValue16Bit => 0,
        Handler::LoadNIntoHl => 0,
        Handler::LdR1R2 => 0,
        Handler::LddHlA => 0,
        Handler::LdNIntoA => 0,
        Handler::LdAIntoN => 0,
        Handler::LdhNA => 0,
        Handler::LdhAN => 0,
        Handler::LdiHlA => 1,
        Handler::LdiAHl => 1,
        Handler::LddAHl => 1,
        Handler::LdSpHl => 1,
        Handler::LddA16Sp => 1,
        Handler::Stop => 1,
        Handler::LoadAFfC => 1,
        Handler::LoadFfCA => 1,
        Handler::Jump => 1,
        Handler::JumpHl => 1,
        Handler::JumpA16 => 2,
        Handler::Compare => 2,
        Handler::Subtract => 2,
        Handler::AddAN => 2,
        Handler::AddHlN => 2,
        Handler::Xor => 2,
        Handler::PrefixCb => 2,
        Handler::JumpCcN => 2,
        Handler::JumpCcNn => 2,
        Handler::EnableInterrupts => 2,
        Handler::DisableInterrupts => 3,
        Handler::Ret => 3,
        Handler::RetCc => 3,
        Handler::Reti => 3,
        Handler::Pop => 3,
        Handler::Push => 3,
        Handler::CallImmediate16 => 3,
        Handler::CallCcNn => 3,
        Handler::Increment => 3,
        Handler::IncrementNn => 3,
        Handler::DecrementN => 3,
        Handler::DecrementNn => 4,
        Handler::Rla => 4,
        Handler::Rlca => 4,
        Handler::Or => 4,
        Handler::And => 4,
        Handler::Daa => 4,
        Handler::Scf => 4,
        Handler::Adc => 4,
        Handler::Cpl => 4,
        Handler::Rst => 4,
        Handler::Halt => 4,
    }
}

/// Of segment 0: it takes no opcode that `decode` gives to a later segment,
/// and of the opcodes that `decode` gives to it, its first taker is the
/// handler that `decode` names.
proof fn lemma_segment_0(op: u8)
    ensures
        first_taker(segment(0), 0, op) is Some ==> decode(op) is Some && segment_of(
            decode(op).unwrap(),
        ) <= 0,
        decode(op) is Some && segment_of(decode(op).unwrap()) == 0 ==> first_taker(
            segment(0),
            0,
            op,
        ) == decode(op),
{
    reveal_with_fuel(first_taker, 13);
}

/// Of segment 1: it takes no opcode that `decode` gives to a later segment,
/// and of the opcodes that `decode` gives to it, its first taker is the
/// handler that `decode` names.
proof fn lemma_segment_1(op: u8)
    ensures
        first_taker(segment(1), 0, op) is Some ==> decode(op) is Some && segment_of(
            decode(op).unwrap(),
        ) <= 1,
        decode(op) is Some && segment_of(decode(op).unwrap()) == 1 ==> first_taker(
            segment(1),
            0,
            op,
        ) == decode(op),
{
    reveal_with_fuel(first_taker, 13);
}

/// Of segment 2: it takes no opcode that `decode` gives to a later segment,
/// and of the opcodes that `decode` gives to it, its first taker is the
/// handler that `decode` names.
proof fn lemma_segment_2(op: u8)
    ensures
        first_taker(segment(2), 0, op) is Some ==> decode(op) is Some && segment_of(
            decode(op).unwrap(),
        ) <= 2,
        decode(op) is Some && segment_of(decode(op).unwrap()) == 2 ==> first_taker(
            segment(2),
            0,
            op,
        ) == decode(op),
{
    reveal_with_fuel(first_taker, 13);
}

/// Of segment 3: it takes no opcode that `decode` gives to a later segment,
/// and of the opcodes that `decode` gives to it, its first taker is the
/// handler that `decode` names.
proof fn lemma_segment_3(op: u8)
    ensures
        first_taker(segment(3), 0, op) is Some ==> decode(op) is Some && segment_of(
            decode(op).unwrap(),
        ) <= 3,
        decode(op) is Some && segment_of(decode(op).unwrap()) == 3 ==> first_taker(
            segment(3),
            0,
            op,
        ) == decode(op),
{
    reveal_with_fuel(first_taker, 13);
}

/// Of segment 4: it takes no opcode that `decode` gives to a later segment,
/// and of the opcodes that `decode` gives to it, its first taker is the
/// handler that `decode` names.
proof fn lemma_segment_4(op: u8)
    ensures
        first_taker(segment(4), 0, op) is Some ==> decode(op) is Some && segment_of(
            decode(op).unwrap(),
        ) <= 4,
        decode(op) is Some && segment_of(decode(op).unwrap()) == 4 ==> first_taker(
            segment(4),
            0,
            op,
        ) == decode(op),
{
    reveal_with_fuel(first_taker, 13);
}

/// The first taker of two tables put together is that of the first, or
/// else that of the second.
proof fn lemma_first_taker_of_two(a: Seq<Handler>, b: Seq<Handler>, from: int, op: u8)
    requires
        0 <= from <= a.len(),
    ensures
        first_taker(a + b, from, op) == match first_taker(a, from, op) {
            Some(h) => Some(h),
            None => first_taker(b, 0, op),
        },
    decreases a.len() - from,
{
    if from < a.len() {
        lemma_first_taker_of_two(a, b, from + 1, op);
    } else {
        lemma_first_taker_shifted(a, b, 0, op);
    }
}

/// Behind a first table, the first taker of the second table is found as in
/// the second table alone.
proof fn lemma_first_taker_shifted(a: Seq<Handler>, b: Seq<Handler>, from: int, op: u8)
    requires
        0 <= from <= b.len(),
    ensures
        first_taker(a + b, a.len() + from, op) == first_taker(b, from, op),
    decreases b.len() - from,
{
    if from < b.len() {
        lemma_first_taker_shifted(a, b, from + 1, op);
    }
}

/// In the order of the primary table, the first handler that takes an
/// opcode is the one that `decode` names.
pub proof fn lemma_first_taker_is_decode(op: u8)
    ensures
        first_taker(primary_order(), 0, op) == decode(op),
{
    let rest3 = segment(3) + segment(4);
    let rest2 = segment(2) + rest3;
    let rest1 = segment(1) + rest2;
    assert(primary_order() =~= segment(0) + rest1) by {
        reveal(primary_order);
    }
    lemma_first_taker_of_two(segment(0), rest1, 0, op);
    lemma_first_taker_of_two(segment(1), rest2, 0, op);
    lemma_first_taker_of_two(segment(2), rest3, 0, op);
    lemma_first_taker_of_two(segment(3), segment(4), 0, op);
    lemma_segment_0(op);
    lemma_segment_1(op);
    lemma_segment_2(op);
    lemma_segment_3(op);
    lemma_segment_4(op);
}

/// The handler that `decode` names takes the opcode.
pub proof fn lemma_decoded_takes(op: u8)
    ensures
        decode(op) matches Some(h) ==> h.takes(op),
{
    lemma_first_taker_is_decode(op);
    lemma_first_taker_takes(primary_order(), 0, op);
}

/// The first taker of a table takes the opcode.
proof fn lemma_first_taker_takes(table: Seq<Handler>, from: int, op: u8)
    ensures
        first_taker(table, from, op) matches Some(h) ==> h.takes(op),
    decreases table.len() - from,
{
    if 0 <= from < table.len() {
        lemma_first_taker_takes(table, from + 1, op);
    }
}

/// The primary table does to each opcode what the handler that `decode`
/// names does to it, and passes on the opcodes for which `decode` names
/// none.
pub proof fn lemma_decode<B: Bus>(s: State<B>, op: u8)
    ensures
        dispatch(primary_order(), 0, s, op) == match decode(op) {
            Some(h) => h.step(s, op),
            None => Step::Pass,
        },
{
    lemma_dispatch_is_first_taker(primary_order(), 0, s, op);
    lemma_first_taker_is_decode(op);
}

/// The handler of the extended table that carries out the extended opcode
/// `op`; `None` for an opcode that the table does not provide.
pub open spec fn decode_extended(op: u8) -> Option<ExtendedHandler> {
    if op < 0x10 {
        None
    } else if op < 0x18 {
        Some(ExtendedHandler::RlN)
    } else if op < 0x20 {
        None
    } else if op < 0x28 {
        Some(ExtendedHandler::Sla)
    } else if op < 0x30 {
        None
    } else if op < 0x38 {
        Some(ExtendedHandler::Swap)
    } else if op < 0x40 {
        Some(ExtendedHandler::Srl)
    } else if op < 0x80 {
        Some(ExtendedHandler::TestBit)
    } else if op < 0xC0 {
        Some(ExtendedHandler::Res)
    } else {
        Some(ExtendedHandler::SetBit)
    }
}

/// The extended table does to each opcode what the handler that
/// `decode_extended` names does to it, and matches no opcode for which
/// `decode_extended` names none.
pub proof fn lemma_decode_extended<B: Bus>(s: State<B>, op: u8)
    ensures
        dispatch_extended(extended_order(), 0, s, op) == match decode_extended(op) {
            Some(h) => h.effect(s, op),
            None => None,
        },
{
    reveal_with_fuel(dispatch_extended, 8);
}

} // verus!
