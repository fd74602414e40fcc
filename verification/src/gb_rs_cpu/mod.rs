//! A second register file for the same machine: the pointer pair is one
//! 16-bit register and each flag is a field of its own. Its operations are
//! stated over the same model of the machine as those of `cpu::Cpu`.

use vstd::prelude::*;
use crate::bus::{Bus, Interrupt, ticks};
use crate::cpu::Fatal;
use crate::cpu::model;
use crate::cpu::model::{State, PAIR_AF, PAIR_BC, PAIR_DE, PAIR_HL, high_byte, low_byte, word};
use crate::cpu::{make_word, split_word};

verus! {

/// The registers but for the flags. They are 16 bits wide, but some of them
/// are accessed as a high and a low byte.
pub struct Registers {
    /// The 16-bit program counter.
    pub pc: u16,
    /// The 16-bit stack pointer.
    pub sp: u16,
    /// The 8-bit register `A`, the accumulator.
    pub a: u8,
    /// The 8-bit register `B`.
    pub b: u8,
    /// The 8-bit register `C`.
    pub c: u8,
    /// The 8-bit register `D`.
    pub d: u8,
    /// The 8-bit register `E`.
    pub e: u8,
    /// The 16-bit register `HL`, which is often used as a pointer and can be
    /// split in `H` and `L`.
    pub hl: u16,
}

/// The flags, which instructions set as a side effect and on which some
/// instructions depend.
pub struct Flags {
    /// Zero: the result of an operation was zero, or two values compared
    /// equal.
    pub z: bool,
    /// Subtract: the last operation was a subtraction.
    pub n: bool,
    /// Half carry: the last operation carried out of the low nibble.
    pub h: bool,
    /// Carry: the last operation carried, or the first operand compared
    /// smaller.
    pub c: bool,
}

/// The state of the core.
pub struct Cpu<B: Bus> {
    /// The registers but for the flags.
    pub regs: Registers,
    /// The flags.
    pub flags: Flags,
    /// Whether interrupts are enabled.
    pub iten: bool,
    /// Whether interrupts become enabled after the next instruction.
    pub iten_enable_next: bool,
    /// Whether the core waits for an interrupt.
    pub halted: bool,
    /// The bus.
    pub inter: B,
    /// The clock periods that have elapsed in the current step.
    pub instruction_cycles: u8,
}

impl View for Flags {
    type V = model::Flags;

    open spec fn view(&self) -> model::Flags {
        model::Flags { zero: self.z, subtract: self.n, half_carry: self.h, carry: self.c }
    }
}

impl<B: Bus> View for Cpu<B> {
    type V = State<B>;

    open spec fn view(&self) -> State<B> {
        State {
            registers: seq![
                self.regs.b,
                self.regs.c,
                self.regs.d,
                self.regs.e,
                high_byte(self.regs.hl),
                low_byte(self.regs.hl),
            ],
            accumulator: self.regs.a,
            flags: self.flags@,
            stack_pointer: self.regs.sp,
            program_counter: self.regs.pc,
            bus: self.inter@,
            iten: self.iten,
            iten_enable_next: self.iten_enable_next,
            halted: self.halted,
            cycles: self.instruction_cycles as nat,
        }
    }
}

/// A 16-bit value is made of its high and its low byte.
pub proof fn lemma_word_of_bytes(value: u16)
    ensures
        word(high_byte(value), low_byte(value)) == value,
{
}

/// The high and the low byte of a 16-bit value made of two bytes are those
/// bytes.
pub proof fn lemma_bytes_of_word(high: u8, low: u8)
    ensures
        high_byte(word(high, low)) == high,
        low_byte(word(high, low)) == low,
{
}

impl<B: Bus> Cpu<B> {
    /// The core at cold boot: the stack pointer is 0xFFFE, the program counter
    /// and every other register and flag are zero, interrupts are enabled.
    pub fn new(inter: B) -> (cpu: Cpu<B>)
        ensures
            cpu@ == (State::<B> {
                registers: seq![0u8, 0u8, 0u8, 0u8, 0u8, 0u8],
                accumulator: 0,
                flags: model::Flags {
                    zero: false,
                    subtract: false,
                    half_carry: false,
                    carry: false,
                },
                stack_pointer: 0xFFFE,
                program_counter: 0,
                bus: inter@,
                iten: true,
                iten_enable_next: true,
                halted: false,
                cycles: 0,
            }),
    {
        let regs = Registers { pc: 0, sp: 0xFFFE, a: 0, b: 0, c: 0, d: 0, e: 0, hl: 0 };
        let cpu = Cpu {
            regs: regs,
            flags: Flags { z: false, n: false, h: false, c: false },
            inter: inter,
            iten: true,
            iten_enable_next: true,
            halted: false,
            instruction_cycles: 0,
        };
        assert(cpu@.registers =~= seq![0u8, 0u8, 0u8, 0u8, 0u8, 0u8]);
        cpu
    }

    /// Enters the handler of `it`: the core wakes up, interrupts are
    /// disabled, the program counter is pushed, six machine cycles pass, and
    /// the program counter is set to the handler's address.
    pub fn interrupt(&mut self, it: Interrupt)
        requires
            old(self)@.cycles + 32 <= u8::MAX,
        ensures
            final(self)@ == old(self)@.service(it),
    {
        self.halted = false;
        self.disable_interrupts();
        let handler_addr = it.vector();
        let pc = self.pc();
        self.push_word(pc);
        self.delay(6);
        self.set_pc(handler_addr);
    }

    /// Reads the byte at `addr` from the bus, which takes one machine cycle.
    pub fn fetch_byte(&mut self, addr: u16) -> (b: u8)
        requires
            old(self)@.cycles + 4 <= u8::MAX,
        ensures
            b == old(self)@.peek(addr),
            final(self)@ == old(self)@.fetch(),
    {
        let b = self.inter.fetch_byte(addr);
        self.delay(1);
        b
    }

    /// Writes `val` at `addr` to the bus, which takes one machine cycle.
    pub fn store_byte(&mut self, addr: u16, val: u8)
        requires
            old(self)@.cycles + 4 <= u8::MAX,
        ensures
            final(self)@ == old(self)@.store(addr, val),
    {
        self.inter.store_byte(addr, val);
        self.delay(1);
    }

    /// Moves the stack pointer down by one, wrapping at 65536, and stores
    /// `val` there.
    pub fn push_byte(&mut self, val: u8)
        requires
            old(self)@.cycles + 4 <= u8::MAX,
        ensures
            final(self)@ == (State {
                stack_pointer: old(self)@.stack_pointer.wrapping_sub(1),
                ..old(self)@.store(old(self)@.stack_pointer.wrapping_sub(1), val)
            }),
    {
        let mut sp = self.sp();
        sp = sp.wrapping_sub(1);
        self.set_sp(sp);
        self.store_byte(sp, val);
    }

    /// Pushes `val`, high byte first; the stack pointer moves down by two.
    pub fn push_word(&mut self, val: u16)
        requires
            old(self)@.cycles + 8 <= u8::MAX,
        ensures
            final(self)@ == old(self)@.push(val),
    {
        let (high, low) = split_word(val);
        self.push_byte(high);
        self.push_byte(low);
    }

    /// Reads the byte at the stack pointer and moves the stack pointer up by
    /// one, wrapping at 65536.
    pub fn pop_byte(&mut self) -> (b: u8)
        requires
            old(self)@.cycles + 4 <= u8::MAX,
        ensures
            b == old(self)@.peek(old(self)@.stack_pointer),
            final(self)@ == (State {
                stack_pointer: old(self)@.stack_pointer.wrapping_add(1),
                ..old(self)@.fetch()
            }),
    {
        let sp = self.sp();
        let b = self.fetch_byte(sp);
        self.set_sp(sp.wrapping_add(1));
        b
    }

    /// Pops a 16-bit value, low byte first; the stack pointer moves up by
    /// two.
    pub fn pop_word(&mut self) -> (value: u16)
        requires
            old(self)@.cycles + 8 <= u8::MAX,
        ensures
            value == old(self)@.top(),
            final(self)@ == old(self)@.pop(),
    {
        let lo = self.pop_byte();
        let hi = self.pop_byte();
        make_word(hi, lo)
    }

    /// Advances the bus by `cycles` clock periods and counts them.
    pub fn advance(&mut self, cycles: u8)
        requires
            old(self)@.cycles + cycles <= u8::MAX,
        ensures
            final(self)@ == old(self)@.advance(cycles as nat),
    {
        let mut i: u8 = 0;
        while i < cycles
            invariant
                i <= cycles,
                self.inter@ == ticks::<B>(old(self).inter@, i as nat),
                self.regs == old(self).regs,
                self.flags == old(self).flags,
                self.iten == old(self).iten,
                self.iten_enable_next == old(self).iten_enable_next,
                self.halted == old(self).halted,
                self.instruction_cycles == old(self).instruction_cycles,
            decreases cycles - i,
        {
            self.inter.step();
            i += 1;
        }
        self.instruction_cycles += cycles;
    }

    /// Waits for `machine_cycles` machine cycles of four clock periods.
    pub fn delay(&mut self, machine_cycles: u8)
        requires
            old(self)@.cycles + 4 * machine_cycles <= u8::MAX,
        ensures
            final(self)@ == old(self)@.delay(machine_cycles as nat),
    {
        self.advance(machine_cycles * 4);
    }

    /// The program counter.
    pub fn pc(&self) -> (value: u16)
        ensures
            value == self@.program_counter,
    {
        self.regs.pc
    }

    /// Sets the program counter.
    pub fn set_pc(&mut self, pc: u16)
        ensures
            final(self)@ == (State { program_counter: pc, ..old(self)@ }),
    {
        self.regs.pc = pc;
    }

    /// Loads the program counter, which takes one machine cycle.
    pub fn load_pc(&mut self, pc: u16)
        requires
            old(self)@.cycles + 4 <= u8::MAX,
        ensures
            final(self)@ == old(self)@.load_pc(pc),
    {
        self.set_pc(pc);
        self.delay(1);
    }

    /// The stack pointer.
    pub fn sp(&self) -> (value: u16)
        ensures
            value == self@.stack_pointer,
    {
        self.regs.sp
    }

    /// Sets the stack pointer.
    pub fn set_sp(&mut self, sp: u16)
        ensures
            final(self)@ == (State { stack_pointer: sp, ..old(self)@ }),
    {
        self.regs.sp = sp;
    }

    /// The pair of the accumulator and the flags.
    pub fn af(&self) -> (value: u16)
        ensures
            value == self@.pair(PAIR_AF),
    {
        make_word(self.regs.a, self.f())
    }

    /// Sets the pair of the accumulator and the flags; bits 3 to 0 of the
    /// flags stay clear.
    pub fn set_af(&mut self, af: u16)
        ensures
            final(self)@ == old(self)@.with_pair(af, PAIR_AF),
    {
        let (high, low) = split_word(af);
        self.regs.a = high;
        self.set_f(low);
    }

    /// The pair `BC`.
    pub fn bc(&self) -> (value: u16)
        ensures
            value == self@.pair(PAIR_BC),
    {
        make_word(self.regs.b, self.regs.c)
    }

    /// Sets the pair `BC`.
    pub fn set_bc(&mut self, bc: u16)
        ensures
            final(self)@ == old(self)@.with_pair(bc, PAIR_BC),
    {
        let (high, low) = split_word(bc);
        self.regs.b = high;
        self.regs.c = low;
        assert(self@.registers =~= old(self)@.with_pair(bc, PAIR_BC).registers);
    }

    /// The pair `DE`.
    pub fn de(&self) -> (value: u16)
        ensures
            value == self@.pair(PAIR_DE),
    {
        make_word(self.regs.d, self.regs.e)
    }

    /// Sets the pair `DE`.
    pub fn set_de(&mut self, de: u16)
        ensures
            final(self)@ == old(self)@.with_pair(de, PAIR_DE),
    {
        let (high, low) = split_word(de);
        self.regs.d = high;
        self.regs.e = low;
        assert(self@.registers =~= old(self)@.with_pair(de, PAIR_DE).registers);
    }

    /// The pair `HL`.
    pub fn hl(&self) -> (value: u16)
        ensures
            value == self@.pair(PAIR_HL),
    {
        proof {
            lemma_word_of_bytes(self.regs.hl);
        }
        self.regs.hl
    }

    /// Sets the pair `HL`.
    pub fn set_hl(&mut self, hl: u16)
        ensures
            final(self)@ == old(self)@.with_pair(hl, PAIR_HL),
    {
        self.regs.hl = hl;
        assert(self@.registers =~= old(self)@.with_pair(hl, PAIR_HL).registers);
    }

    /// The register `A`.
    pub fn a(&self) -> (value: u8)
        ensures
            value == self@.accumulator,
    {
        self.regs.a
    }

    /// Sets the register `A`.
    pub fn set_a(&mut self, v: u8)
        ensures
            final(self)@ == old(self)@.with_accumulator(v),
    {
        self.regs.a = v;
    }

    /// The register `B`.
    pub fn b(&self) -> (value: u8)
        ensures
            value == self@.registers[0],
    {
        self.regs.b
    }

    /// Sets the register `B`.
    pub fn set_b(&mut self, v: u8)
        ensures
            final(self)@ == old(self)@.write_operand(0, v),
    {
        self.regs.b = v;
        assert(self@.registers =~= old(self)@.registers.update(0, v));
    }

    /// The register `C`.
    pub fn c(&self) -> (value: u8)
        ensures
            value == self@.registers[1],
    {
        self.regs.c
    }

    /// Sets the register `C`.
    pub fn set_c(&mut self, v: u8)
        ensures
            final(self)@ == old(self)@.write_operand(1, v),
    {
        self.regs.c = v;
        assert(self@.registers =~= old(self)@.registers.update(1, v));
    }

    /// The register `D`.
    pub fn d(&self) -> (value: u8)
        ensures
            value == self@.registers[2],
    {
        self.regs.d
    }

    /// Sets the register `D`.
    pub fn set_d(&mut self, v: u8)
        ensures
            final(self)@ == old(self)@.write_operand(2, v),
    {
        self.regs.d = v;
        assert(self@.registers =~= old(self)@.registers.update(2, v));
    }

    /// The register `E`.
    pub fn e(&self) -> (value: u8)
        ensures
            value == self@.registers[3],
    {
        self.regs.e
    }

    /// Sets the register `E`.
    pub fn set_e(&mut self, v: u8)
        ensures
            final(self)@ == old(self)@.write_operand(3, v),
    {
        self.regs.e = v;
        assert(self@.registers =~= old(self)@.registers.update(3, v));
    }

    /// The register `F`: the flags Z, N, H and C in bits 7 to 4, and bits 3
    /// to 0 clear.
    pub fn f(&self) -> (value: u8)
        ensures
            value == self@.flags.spec_to_byte(),
            value % 16 == 0,
    {
        let z: u8 = if self.flags.z { 1 } else { 0 };
        let n: u8 = if self.flags.n { 1 } else { 0 };
        let h: u8 = if self.flags.h { 1 } else { 0 };
        let c: u8 = if self.flags.c { 1 } else { 0 };
        assert((z << 7u8) | (n << 6u8) | (h << 5u8) | (c << 4u8) == z * 128 + n * 64 + h * 32 + c * 16)
            by (bit_vector)
            requires
                z < 2,
                n < 2,
                h < 2,
                c < 2,
        ;
        (z << 7u8) | (n << 6u8) | (h << 5u8) | (c << 4u8)
    }

    /// Sets the register `F` from bits 7 to 4 of `v`.
    pub fn set_f(&mut self, v: u8)
        ensures
            final(self)@ == old(self)@.with_flags(model::Flags::spec_from_byte(v)),
    {
        assert(((v & (1u8 << 7u8)) != 0) == (v / 128 % 2 == 1) && ((v & (1u8 << 6u8)) != 0) == (v / 64
            % 2 == 1) && ((v & (1u8 << 5u8)) != 0) == (v / 32 % 2 == 1) && ((v & (1u8 << 4u8)) != 0)
            == (v / 16 % 2 == 1)) by (bit_vector);
        self.flags.z = (v & (1u8 << 7u8)) != 0;
        self.flags.n = (v & (1u8 << 6u8)) != 0;
        self.flags.h = (v & (1u8 << 5u8)) != 0;
        self.flags.c = (v & (1u8 << 4u8)) != 0;
    }

    /// The register `H`.
    pub fn h(&self) -> (value: u8)
        ensures
            value == self@.registers[4],
    {
        let (high, _) = split_word(self.regs.hl);
        high
    }

    /// Sets the register `H`.
    pub fn set_h(&mut self, v: u8)
        ensures
            final(self)@ == old(self)@.write_operand(4, v),
    {
        let mut hl = self.hl();
        let ghost low = low_byte(hl);
        assert((hl & 0xff) | ((v as u16) << 8u16) == (v as u16) * 256 + hl % 256) by (bit_vector);
        hl &= 0xff;
        hl |= (v as u16) << 8u16;
        proof {
            lemma_bytes_of_word(v, low);
        }
        self.regs.hl = hl;
        assert(self@.registers =~= old(self)@.registers.update(4, v));
    }

    /// The register `L`.
    pub fn l(&self) -> (value: u8)
        ensures
            value == self@.registers[5],
    {
        let (_, low) = split_word(self.regs.hl);
        low
    }

    /// Sets the register `L`.
    pub fn set_l(&mut self, v: u8)
        ensures
            final(self)@ == old(self)@.write_operand(5, v),
    {
        let mut hl = self.hl();
        let ghost high = high_byte(hl);
        assert((hl & 0xff00) | (v as u16) == (hl / 256) * 256 + (v as u16)) by (bit_vector);
        hl &= 0xff00;
        hl |= v as u16;
        proof {
            lemma_bytes_of_word(high, v);
        }
        self.regs.hl = hl;
        assert(self@.registers =~= old(self)@.registers.update(5, v));
    }

    /// The flag Z.
    pub fn zero(&self) -> (s: bool)
        ensures
            s == self@.flags.zero,
    {
        self.flags.z
    }

    /// Sets the flag Z.
    pub fn set_zero(&mut self, s: bool)
        ensures
            final(self)@ == old(self)@.with_flags(model::Flags { zero: s, ..old(self)@.flags }),
    {
        self.flags.z = s;
    }

    /// The flag C.
    pub fn carry(&self) -> (s: bool)
        ensures
            s == self@.flags.carry,
    {
        self.flags.c
    }

    /// Sets the flag C.
    pub fn set_carry(&mut self, s: bool)
        ensures
            final(self)@ == old(self)@.with_flags(model::Flags { carry: s, ..old(self)@.flags }),
    {
        self.flags.c = s;
    }

    /// The flag H.
    pub fn halfcarry(&self) -> (s: bool)
        ensures
            s == self@.flags.half_carry,
    {
        self.flags.h
    }

    /// Sets the flag H.
    pub fn set_halfcarry(&mut self, s: bool)
        ensures
            final(self)@ == old(self)@.with_flags(
                model::Flags { half_carry: s, ..old(self)@.flags },
            ),
    {
        self.flags.h = s;
    }

    /// The flag N.
    pub fn substract(&self) -> (s: bool)
        ensures
            s == self@.flags.subtract,
    {
        self.flags.n
    }

    /// Sets the flag N.
    pub fn set_substract(&mut self, s: bool)
        ensures
            final(self)@ == old(self)@.with_flags(model::Flags { subtract: s, ..old(self)@.flags }),
    {
        self.flags.n = s;
    }

    /// Disables interrupts at once and cancels a pending request to enable
    /// them.
    pub fn disable_interrupts(&mut self)
        ensures
            final(self)@ == old(self)@.disable_interrupts(),
    {
        self.iten = false;
        self.iten_enable_next = false;
    }

    /// Enables interrupts at once.
    pub fn enable_interrupts(&mut self)
        ensures
            final(self)@ == old(self)@.enable_interrupts(),
    {
        self.iten = true;
        self.iten_enable_next = true;
    }

    /// Asks for interrupts to be enabled after the next instruction.
    pub fn enable_interrupts_next(&mut self)
        ensures
            final(self)@ == old(self)@.enable_interrupts_next(),
    {
        self.iten_enable_next = true;
    }

    /// Halts the core until an interrupt is requested.
    pub fn halt(&mut self)
        ensures
            final(self)@ == (State { halted: true, ..old(self)@ }),
    {
        self.halted = true;
    }

    /// The outcome of the instruction that stops the machine until a button
    /// is pressed: the core does not provide it.
    pub fn stop(&mut self) -> (outcome: Fatal)
        ensures
            outcome == Fatal::Stop,
            final(self)@ == old(self)@,
    {
        Fatal::Stop
    }

    /// Sets the program counter back to zero and leaves the rest as it is.
    pub fn reset(&mut self)
        ensures
            final(self)@ == (State { program_counter: 0, ..old(self)@ }),
    {
        self.set_pc(0);
    }
}

} // verus!
