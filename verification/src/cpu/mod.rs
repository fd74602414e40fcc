//! The processor core: its register file, the operations that instructions
//! are built from, and the step function.

use vstd::prelude::*;
use crate::bus::{Bus, Interrupt, ticks};
use crate::cpu::instructions::{Pipeline, split_into_halves};
use crate::cpu::semantics::{dispatch, execute, halves, primary_order, settle, step};
use crate::cpu::timing::{lemma_dispatch_cycles, lemma_handler_cycles};
use crate::cpu::model::{Flags, State, high_byte, low_byte, word};

pub mod alu;
pub mod decode;
pub mod instructions;
pub mod laws;
pub mod model;
pub mod semantics;
pub mod timing;

verus! {

/// The processor core, which owns its bus.
pub struct Cpu<B: Bus> {
    /// The registers B, C, D, E, H and L, in this order.
    pub simple_registers: [u8; 6],
    /// The accumulator.
    pub accumulator: u8,
    /// The flags.
    pub flags: Flags,
    /// The stack pointer.
    pub stack_pointer: u16,
    /// The program counter.
    pub program_counter: u16,
    /// The bus.
    pub memory_map: B,
    /// Whether interrupts are enabled.
    pub iten: bool,
    /// Whether interrupts become enabled at the next instruction boundary.
    pub iten_enable_next: bool,
    /// Whether the core waits for an interrupt.
    pub halted: bool,
    /// The clock periods that have elapsed in the current step.
    pub instruction_cycles: u8,
    /// The two opcode tables.
    pub instructions_pipeline: Pipeline,
}

impl<B: Bus> View for Cpu<B> {
    type V = State<B>;

    open spec fn view(&self) -> State<B> {
        State {
            registers: self.simple_registers@,
            accumulator: self.accumulator,
            flags: self.flags,
            stack_pointer: self.stack_pointer,
            program_counter: self.program_counter,
            bus: self.memory_map@,
            iten: self.iten,
            iten_enable_next: self.iten_enable_next,
            halted: self.halted,
            cycles: self.instruction_cycles as nat,
        }
    }
}

/// The 16-bit value whose high byte is `high` and whose low byte is `low`.
pub fn make_word(high: u8, low: u8) -> (value: u16)
    ensures
        value == word(high, low),
{
    let value = ((high as u16) << 8) | (low as u16);
    assert(((high as u16) << 8) | (low as u16) == (high as u16) * 256 + (low as u16)) by (bit_vector);
    value
}

/// The high and the low byte of a 16-bit value.
pub fn split_word(value: u16) -> (bytes: (u8, u8))
    ensures
        bytes.0 == high_byte(value),
        bytes.1 == low_byte(value),
{
    let high = ((value & 0xFF00) >> 8) as u8;
    let low = (value & 0x00FF) as u8;
    assert(((value & 0xFF00) >> 8) == value / 256 && (value & 0x00FF) == value % 256) by (bit_vector);
    (high, low)
}

/// An outcome after which the machine cannot go on.
#[derive(Clone, Copy, Debug, PartialEq, Eq, Structural)]
pub enum Fatal {
    /// No handler of the primary table matches the opcode that was fetched
    /// at `pc`.
    UnsupportedOpcode { opcode: u8, pc: u16 },
    /// No handler of the extended table matches the opcode that was fetched
    /// at `pc`, behind the escape opcode.
    UnsupportedExtendedOpcode { opcode: u8, pc: u16 },
    /// The instruction that stops the machine was met.
    Stop,
}

impl<B: Bus> Cpu<B> {
    /// The core at cold boot: the stack pointer is 0xFFFE, the program counter
    /// and every other register and flag are zero, interrupts are enabled.
    pub fn new(inter: B) -> (cpu: Cpu<B>)
        ensures
            cpu@ == (State::<B> {
                registers: seq![0u8, 0u8, 0u8, 0u8, 0u8, 0u8],
                accumulator: 0,
                flags: Flags { zero: false, subtract: false, half_carry: false, carry: false },
                stack_pointer: 0xFFFE,
                program_counter: 0,
                bus: inter@,
                iten: true,
                iten_enable_next: true,
                halted: false,
                cycles: 0,
            }),
    {
        let cpu = Cpu {
            simple_registers: [0; 6],
            accumulator: 0,
            flags: Flags { zero: false, subtract: false, half_carry: false, carry: false },
            stack_pointer: 0xFFFE,
            program_counter: 0,
            memory_map: inter,
            iten: true,
            iten_enable_next: true,
            halted: false,
            instruction_cycles: 0,
            instructions_pipeline: Pipeline::new(),
        };
        assert(cpu.simple_registers@ =~= seq![0u8, 0u8, 0u8, 0u8, 0u8, 0u8]);
        cpu
    }

    /// Advances the bus by `cycles` clock periods and counts them.
    pub fn advance(&mut self, cycles: u8)
        requires
            old(self)@.cycles + cycles <= u8::MAX,
        ensures
            final(self)@ == old(self)@.advance(cycles as nat),
    {
        let mut i: u8 = 0;
        while i < cycles
            invariant
                i <= cycles,
                self.memory_map@ == ticks::<B>(old(self).memory_map@, i as nat),
                *self == (Cpu { memory_map: self.memory_map, ..*old(self) }),
            decreases cycles - i,
        {
            self.memory_map.step();
            i += 1;
        }
        self.instruction_cycles += cycles;
    }

    /// Waits for `machine_cycles` machine cycles of four clock periods.
    pub fn delay(&mut self, machine_cycles: u8)
        requires
            old(self)@.cycles + 4 * machine_cycles <= u8::MAX,
        ensures
            final(self)@ == old(self)@.delay(machine_cycles as nat),
    {
        self.advance(machine_cycles * 4);
    }

    /// Reads the byte at `addr` from the bus, which takes one machine cycle.
    pub fn fetch_byte(&mut self, addr: u16) -> (b: u8)
        requires
            old(self)@.cycles + 4 <= u8::MAX,
        ensures
            b == old(self)@.peek(addr),
            final(self)@ == old(self)@.fetch(),
    {
        let b = self.memory_map.fetch_byte(addr);
        self.delay(1);
        b
    }

    /// Writes `val` at `addr` to the bus, which takes one machine cycle.
    pub fn store_byte(&mut self, addr: u16, val: u8)
        requires
            old(self)@.cycles + 4 <= u8::MAX,
        ensures
            final(self)@ == old(self)@.store(addr, val),
    {
        self.memory_map.store_byte(addr, val);
        self.delay(1);
    }

    /// Sets the program counter.
    pub fn set_pc(&mut self, pc: u16)
        ensures
            final(self)@ == (State { program_counter: pc, ..old(self)@ }),
    {
        self.program_counter = pc;
    }

    /// Loads the program counter, which takes one machine cycle.
    pub fn load_pc(&mut self, pc: u16)
        requires
            old(self)@.cycles + 4 <= u8::MAX,
        ensures
            final(self)@ == old(self)@.load_pc(pc),
    {
        self.set_pc(pc);
        self.delay(1);
    }

    /// Reads the byte at the program counter and moves the program counter on
    /// by one, wrapping at 65536.
    pub fn read_and_advance_program_counter(&mut self) -> (b: u8)
        requires
            old(self)@.cycles + 4 <= u8::MAX,
        ensures
            b == old(self)@.next_byte(),
            final(self)@ == old(self)@.skip_byte(),
    {
        let pc = self.program_counter;
        let instruction_code = self.fetch_byte(pc);
        self.program_counter = self.program_counter.wrapping_add(1);
        instruction_code
    }

    /// Reads the byte at the stack pointer and moves the stack pointer up by
    /// one, wrapping at 65536.
    pub fn read_and_advance_stack_pointer(&mut self) -> (b: u8)
        requires
            old(self)@.cycles + 4 <= u8::MAX,
        ensures
            b == old(self)@.peek(old(self)@.stack_pointer),
            final(self)@ == (State {
                stack_pointer: old(self)@.stack_pointer.wrapping_add(1),
                ..old(self)@.fetch()
            }),
    {
        let sp = self.stack_pointer;
        let value = self.fetch_byte(sp);
        self.stack_pointer = self.stack_pointer.wrapping_add(1);
        value
    }

    /// Pushes `value`: the high byte goes one below the stack pointer, the
    /// low byte two below, and the stack pointer moves down by two.
    pub fn push_stack(&mut self, value: u16)
        requires
            old(self)@.cycles + 8 <= u8::MAX,
        ensures
            final(self)@ == old(self)@.push(value),
    {
        let (high, low) = split_word(value);
        let sp = self.stack_pointer.wrapping_sub(1);
        self.stack_pointer = sp;
        self.store_byte(sp, high);
        let sp = self.stack_pointer.wrapping_sub(1);
        self.stack_pointer = sp;
        self.store_byte(sp, low);
    }

    /// Pops a 16-bit value: the low byte comes from the stack pointer, the
    /// high byte from one above, and the stack pointer moves up by two.
    pub fn pop_stack(&mut self) -> (value: u16)
        requires
            old(self)@.cycles + 8 <= u8::MAX,
        ensures
            value == old(self)@.top(),
            final(self)@ == old(self)@.pop(),
    {
        let sp = self.stack_pointer;
        let lower = self.fetch_byte(sp);
        let sp = self.stack_pointer.wrapping_add(1);
        self.stack_pointer = sp;
        let higher = self.fetch_byte(sp);
        let sp = self.stack_pointer.wrapping_add(1);
        self.stack_pointer = sp;
        make_word(higher, lower)
    }

    /// Writes `value` to the general register with index `index`.
    pub fn set_storage_register(&mut self, index: u8, value: u8)
        requires
            index < 6,
        ensures
            final(self)@ == (State {
                registers: old(self)@.registers.update(index as int, value),
                ..old(self)@
            }),
    {
        self.simple_registers[index as usize] = value;
    }

    /// The address that the pointer pair holds.
    pub fn read_hl_address(&self) -> (addr: u16)
        ensures
            addr == self@.hl(),
    {
        self.read_combined_register(4)
    }

    /// Reads the byte at the address that the pointer pair holds.
    pub fn read_hl(&mut self) -> (b: u8)
        requires
            old(self)@.cycles + 4 <= u8::MAX,
        ensures
            b == old(self)@.peek(old(self)@.hl()),
            final(self)@ == old(self)@.fetch(),
    {
        let address = self.read_hl_address();
        self.fetch_byte(address)
    }

    /// Reads the byte at the address that the pair D and E holds.
    pub fn read_de(&mut self) -> (b: u8)
        requires
            old(self)@.cycles + 4 <= u8::MAX,
        ensures
            b == old(self)@.peek(old(self)@.pair(2)),
            final(self)@ == old(self)@.fetch(),
    {
        let address = self.read_combined_register(2);
        self.fetch_byte(address)
    }

    /// Reads the byte at the address that the pair B and C holds.
    pub fn read_bc(&mut self) -> (b: u8)
        requires
            old(self)@.cycles + 4 <= u8::MAX,
        ensures
            b == old(self)@.peek(old(self)@.pair(0)),
            final(self)@ == old(self)@.fetch(),
    {
        let address = self.read_combined_register(0);
        self.fetch_byte(address)
    }

    /// The value of the pair whose first register has index `first_register`;
    /// 6 selects the accumulator with the flags.
    pub fn read_combined_register(&self, first_register: u8) -> (value: u16)
        requires
            first_register < 5 || first_register == 6,
        ensures
            value == self@.pair(first_register),
    {
        if first_register == 6 {
            return make_word(self.accumulator, self.flags.to_byte());
        }
        make_word(
            self.simple_registers[first_register as usize],
            self.simple_registers[(first_register + 1) as usize],
        )
    }

    /// Writes `value` to the pair whose first register has index
    /// `first_register`; 6 selects the accumulator with the flags, of which
    /// bits 3 to 0 stay clear.
    pub fn write_combined_register(&mut self, value: u16, first_register: u8)
        requires
            first_register < 5 || first_register == 6,
        ensures
            final(self)@ == old(self)@.with_pair(value, first_register),
    {
        let (high, low) = split_word(value);
        if first_register == 6 {
            self.accumulator = high;
            self.flags = Flags::from_byte(low);
            return ;
        }
        self.simple_registers[first_register as usize] = high;
        self.simple_registers[(first_register + 1) as usize] = low;
    }

    /// Reads the 16-bit value at the program counter, low byte first, and
    /// moves the program counter on by two.
    pub fn read_immediate_value_16(&mut self) -> (value: u16)
        requires
            old(self)@.cycles + 8 <= u8::MAX,
        ensures
            value == old(self)@.next_word(),
            final(self)@ == old(self)@.skip_word(),
    {
        let value_second_half = self.read_and_advance_program_counter();
        let value_first_half = self.read_and_advance_program_counter();
        make_word(value_first_half, value_second_half)
    }

    /// Disables interrupts at once and cancels a pending request to enable
    /// them.
    pub fn disable_interrupts(&mut self)
        ensures
            final(self)@ == old(self)@.disable_interrupts(),
    {
        self.iten = false;
        self.iten_enable_next = false;
    }

    /// Enables interrupts at once.
    pub fn enable_interrupts(&mut self)
        ensures
            final(self)@ == old(self)@.enable_interrupts(),
    {
        self.iten = true;
        self.iten_enable_next = true;
    }

    /// Asks for interrupts to be enabled after the next instruction.
    pub fn enable_interrupts_next(&mut self)
        ensures
            final(self)@ == old(self)@.enable_interrupts_next(),
    {
        self.iten_enable_next = true;
    }

    /// Halts the core until an interrupt is requested.
    pub fn halt(&mut self)
        ensures
            final(self)@ == (State { halted: true, ..old(self)@ }),
    {
        self.halted = true;
    }

    /// Enters the handler of `it`: the core wakes up, interrupts are
    /// disabled, the program counter is pushed, six machine cycles pass, and
    /// the program counter is set to the handler's address.
    pub fn interrupt(&mut self, it: Interrupt)
        requires
            old(self)@.cycles + 32 <= u8::MAX,
        ensures
            final(self)@ == old(self)@.service(it),
    {
        self.halted = false;
        self.disable_interrupts();
        let handler_addr = it.vector();
        let pc = self.program_counter;
        self.push_stack(pc);
        self.delay(6);
        self.program_counter = handler_addr;
    }

    /// The outcome of the instruction that stops the machine until a button
    /// is pressed: the core does not provide it.
    pub fn stop(&mut self) -> (outcome: Fatal)
        ensures
            outcome == Fatal::Stop,
            final(self)@ == old(self)@,
    {
        Fatal::Stop
    }
    /// Reads the 8-bit operand with index `index`: 0 to 5 are the registers
    /// B, C, D, E, H and L, 6 is the byte at the address in the pointer pair,
    /// 7 is the accumulator.
    pub fn read_operand(&mut self, index: u8) -> (value: u8)
        requires
            index < 8,
            old(self)@.read_operand(index).cycles <= u8::MAX,
        ensures
            value == old(self)@.operand(index),
            final(self)@ == old(self)@.read_operand(index),
    {
        if index < 6 {
            self.simple_registers[index as usize]
        } else if index == 6 {
            self.read_hl()
        } else {
            self.accumulator
        }
    }

    /// Writes `value` to the 8-bit operand with index `index`.
    pub fn write_operand(&mut self, index: u8, value: u8)
        requires
            index < 8,
            old(self)@.write_operand(index, value).cycles <= u8::MAX,
        ensures
            final(self)@ == old(self)@.write_operand(index, value),
    {
        if index < 6 {
            self.simple_registers[index as usize] = value;
        } else if index == 6 {
            let address = self.read_hl_address();
            self.store_byte(address, value);
        } else {
            self.accumulator = value;
        }
    }

    /// The value of the 16-bit register with index `index`: 0 to 2 are the
    /// pairs BC, DE and HL, 3 is the stack pointer.
    pub fn read_wide(&self, index: u8) -> (value: u16)
        requires
            index < 4,
        ensures
            value == self@.wide(index),
    {
        if index == 3 {
            self.stack_pointer
        } else {
            self.read_combined_register(index * 2)
        }
    }

    /// Writes `value` to the 16-bit register with index `index`.
    pub fn write_wide(&mut self, value: u16, index: u8)
        requires
            index < 4,
        ensures
            final(self)@ == old(self)@.with_wide(value, index),
    {
        if index == 3 {
            self.stack_pointer = value;
        } else {
            self.write_combined_register(value, index * 2);
        }
    }

    /// Whether the condition with index `index` holds: 0 is "not zero", 1 is
    /// "zero", 2 is "no carry", 3 is "carry".
    pub fn condition(&self, index: u8) -> (holds: bool)
        requires
            index < 4,
        ensures
            holds == self@.condition(index),
    {
        if index == 0 {
            !self.flags.zero
        } else if index == 1 {
            self.flags.zero
        } else if index == 2 {
            !self.flags.carry
        } else {
            self.flags.carry
        }
    }
}

/// A core that can be run step by step. Every core goes by the same
/// description of a step.
pub trait CanRunInstruction {
    /// The bus that the core drives.
    type Interconnect: Bus;

    /// The state of the machine.
    spec fn state(&self) -> State<Self::Interconnect>;

    /// Runs one step and returns the clock periods that it took, or why the
    /// machine cannot go on.
    fn run_next_instruction(&mut self) -> (r: Result<u8, Fatal>)
        ensures
            (final(self).state(), r) == step(old(self).state()),
    ;
}

impl<B: Bus> CanRunInstruction for Cpu<B> {
    type Interconnect = B;

    open spec fn state(&self) -> State<B> {
        self@
    }

    /// Runs one step: an interrupt handler is entered, or a halted core
    /// waits, or the instruction at the program counter is carried out by
    /// the first handler of the primary table that matches its opcode.
    fn run_next_instruction(&mut self) -> (r: Result<u8, Fatal>) {
        self.instruction_cycles = 0;
        if self.iten {
            if let Some(it) = self.memory_map.next_interrupt_ack() {
                self.interrupt(it);
                // `interrupt` has disabled interrupts: the handler is not
                // entered again at the next step
                return Ok(self.instruction_cycles);
            }
        } else if self.iten_enable_next {
            self.iten = true;
        }
        let ghost settled = self@;
        assert(settled == settle(old(self)@));
        if self.halted {
            self.memory_map.step();
            self.instruction_cycles += 1;
            assert(self@ == settled.advance(1)) by {
                reveal_with_fuel(ticks, 2);
            }
            // a halted core wakes up when an interrupt is pending even with
            // interrupts disabled; its handler does not run
            if !self.iten && self.memory_map.next_interrupt().is_some() {
                self.halted = false;
            } else {
                return Ok(self.instruction_cycles);
            }
        }
        let last_pc = self.program_counter;
        let ghost before = self@;
        assert(step(old(self)@) == execute(before));
        let instruction_code = self.read_and_advance_program_counter();
        let (first_half, second_half) = split_into_halves(instruction_code);
        let ghost fetched = self@;
        proof {
            lemma_dispatch_cycles(primary_order(), 0, fetched, instruction_code);
        }
        let mut i: usize = 0;
        while i < self.instructions_pipeline.primary_len()
            invariant
                i <= primary_order().len(),
                halves(instruction_code, first_half, second_half),
                self@ == fetched,
                before.cycles <= 1,
                fetched == before.skip_byte(),
                instruction_code == before.next_byte(),
                last_pc == before.program_counter,
                step(old(self)@) == execute(before),
                dispatch(primary_order(), 0, fetched, instruction_code) == dispatch(
                    primary_order(),
                    i as int,
                    fetched,
                    instruction_code,
                ),
            decreases primary_order().len() - i,
        {
            let handler = self.instructions_pipeline.primary_at(i);
            proof {
                lemma_handler_cycles(handler, fetched, instruction_code);
            }
            assert(dispatch(primary_order(), i as int, fetched, instruction_code) == if !(handler.step(
                fetched,
                instruction_code,
            ) is Pass) {
                handler.step(fetched, instruction_code)
            } else {
                dispatch(primary_order(), i + 1, fetched, instruction_code)
            });
            match handler.run(self, instruction_code, first_half, second_half) {
                Ok((found_instruction, _)) => {
                    if found_instruction {
                        return Ok(self.instruction_cycles);
                    }
                },
                Err(fatal) => {
                    return Err(fatal);
                },
            }
            i += 1;
        }
        Err(Fatal::UnsupportedOpcode { opcode: instruction_code, pc: last_pc })
    }
}

} // verus!
