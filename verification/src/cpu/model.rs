//! The mathematical model of the machine: the state of the core together
//! with the state of its bus, and the steps that instructions are made of.

use vstd::prelude::*;
use crate::bits::{bit_at, bits_from_bytes, byte_bit, msb_first};
use crate::bus::{Bus, Interrupt, ticks};

verus! {

/// The four flags.
#[derive(Clone, Copy, Debug, PartialEq, Eq, Structural)]
pub struct Flags {
    /// Z: the result was zero.
    pub zero: bool,
    /// N: the last operation was a subtraction.
    pub subtract: bool,
    /// H: carry or borrow out of bit 3.
    pub half_carry: bool,
    /// C: carry or borrow out of bit 7.
    pub carry: bool,
}

/// The selector of the pair B and C.
pub const PAIR_BC: u8 = 0;

/// The selector of the pair D and E.
pub const PAIR_DE: u8 = 2;

/// The selector of the pair H and L, the pointer pair.
pub const PAIR_HL: u8 = 4;

/// The selector of the pair made of the accumulator and the flags.
pub const PAIR_AF: u8 = 6;

/// Whether `first` selects a register pair.
pub open spec fn is_pair(first: u8) -> bool {
    first == PAIR_BC || first == PAIR_DE || first == PAIR_HL || first == PAIR_AF
}

/// The 16-bit value whose high byte is `high` and whose low byte is `low`.
pub open spec fn word(high: u8, low: u8) -> u16 {
    (high as int * 256 + low as int) as u16
}

/// The high byte of a 16-bit value.
pub open spec fn high_byte(value: u16) -> u8 {
    (value / 256) as u8
}

/// The low byte of a 16-bit value.
pub open spec fn low_byte(value: u16) -> u8 {
    (value % 256) as u8
}

impl Flags {
    /// The flags as the low byte of the accumulator and flags pair: Z, N, H
    /// and C in bits 7 to 4, and bits 3 to 0 clear.
    pub open spec fn spec_to_byte(self) -> u8 {
        ((if self.zero { 128int } else { 0 }) + (if self.subtract { 64int } else { 0 }) + (if self.half_carry {
            32int
        } else {
            0
        }) + (if self.carry { 16int } else { 0 })) as u8
    }

    /// The flags that bits 7 to 4 of `byte` hold.
    pub open spec fn spec_from_byte(byte: u8) -> Flags {
        Flags {
            zero: byte / 128 % 2 == 1,
            subtract: byte / 64 % 2 == 1,
            half_carry: byte / 32 % 2 == 1,
            carry: byte / 16 % 2 == 1,
        }
    }

    /// The flags as the low byte of the accumulator and flags pair: Z, N, H
    /// and C in bits 7 to 4, and bits 3 to 0 clear.
    #[verifier::when_used_as_spec(spec_to_byte)]
    pub fn to_byte(self) -> (byte: u8)
        ensures
            byte == self.spec_to_byte(),
            byte % 16 == 0,
    {
        let z: u8 = if self.zero { 0x80 } else { 0 };
        let n: u8 = if self.subtract { 0x40 } else { 0 };
        let h: u8 = if self.half_carry { 0x20 } else { 0 };
        let c: u8 = if self.carry { 0x10 } else { 0 };
        z + n + h + c
    }

    /// The flags that bits 7 to 4 of `byte` hold.
    #[verifier::when_used_as_spec(spec_from_byte)]
    pub fn from_byte(byte: u8) -> (flags: Flags)
        ensures
            flags == Flags::spec_from_byte(byte),
    {
        let bytes: [u8; 1] = [byte];
        let bits = bits_from_bytes(bytes.as_slice());
        proof {
            assert(bytes@ =~= seq![byte]);
            let all = msb_first(seq![byte]);
            assert(all[0] == byte_bit(byte, 7));
            assert(all[1] == byte_bit(byte, 6));
            assert(all[2] == byte_bit(byte, 5));
            assert(all[3] == byte_bit(byte, 4));
            assert(((byte >> 7u8) & 1 == 1) == (byte / 128 % 2 == 1) && ((byte >> 6u8) & 1 == 1) == (byte
                / 64 % 2 == 1) && ((byte >> 5u8) & 1 == 1) == (byte / 32 % 2 == 1) && ((byte >> 4u8) & 1
                == 1) == (byte / 16 % 2 == 1)) by (bit_vector);
        }
        Flags {
            zero: bit_at(&bits, 0),
            subtract: bit_at(&bits, 1),
            half_carry: bit_at(&bits, 2),
            carry: bit_at(&bits, 3),
        }
    }
}

/// The state of the machine: the core and its bus.
#[verifier::reject_recursive_types(B)]
pub struct State<B: Bus> {
    /// The registers B, C, D, E, H and L, in this order.
    pub registers: Seq<u8>,
    /// The accumulator.
    pub accumulator: u8,
    /// The flags.
    pub flags: Flags,
    /// The stack pointer.
    pub stack_pointer: u16,
    /// The program counter.
    pub program_counter: u16,
    /// The state of the bus.
    pub bus: B::V,
    /// Whether interrupts are enabled.
    pub iten: bool,
    /// Whether interrupts become enabled at the next instruction boundary.
    pub iten_enable_next: bool,
    /// Whether the core waits for an interrupt.
    pub halted: bool,
    /// The clock periods that have elapsed in the current step.
    pub cycles: nat,
}

impl<B: Bus> State<B> {
    /// There are six general registers.
    pub open spec fn wf(self) -> bool {
        self.registers.len() == 6
    }

    /// The state after `cycles` clock periods.
    pub open spec fn advance(self, cycles: nat) -> Self {
        State { bus: ticks::<B>(self.bus, cycles), cycles: self.cycles + cycles, ..self }
    }

    /// The state after `machine_cycles` machine cycles of four clock periods.
    pub open spec fn delay(self, machine_cycles: nat) -> Self {
        self.advance(4 * machine_cycles)
    }

    /// The byte that the bus holds at `addr`.
    pub open spec fn peek(self, addr: u16) -> u8 {
        B::read(self.bus, addr)
    }

    /// The state after a byte was read from the bus, which takes one machine
    /// cycle.
    pub open spec fn fetch(self) -> Self {
        self.delay(1)
    }

    /// The state after `val` was written to the bus at `addr`, which takes
    /// one machine cycle.
    pub open spec fn store(self, addr: u16, val: u8) -> Self {
        State { bus: B::write(self.bus, addr, val), ..self }.delay(1)
    }

    /// The value of the pair that `first` selects.
    pub open spec fn pair(self, first: u8) -> u16 {
        if first == PAIR_AF {
            word(self.accumulator, self.flags.spec_to_byte())
        } else {
            word(self.registers[first as int], self.registers[first + 1])
        }
    }

    /// The state after `value` was written to the pair that `first` selects.
    /// Bits 3 to 0 of the flags stay clear.
    pub open spec fn with_pair(self, value: u16, first: u8) -> Self {
        if first == PAIR_AF {
            State {
                accumulator: high_byte(value),
                flags: Flags::spec_from_byte(low_byte(value)),
                ..self
            }
        } else {
            State {
                registers: self.registers.update(first as int, high_byte(value)).update(
                    first + 1,
                    low_byte(value),
                ),
                ..self
            }
        }
    }

    /// The address that the pointer pair holds.
    pub open spec fn hl(self) -> u16 {
        self.pair(PAIR_HL)
    }

    /// The byte at the program counter.
    pub open spec fn next_byte(self) -> u8 {
        self.peek(self.program_counter)
    }

    /// The state after the byte at the program counter was read: the program
    /// counter has moved on by one.
    pub open spec fn skip_byte(self) -> Self {
        State { program_counter: self.program_counter.wrapping_add(1), ..self.fetch() }
    }

    /// The 16-bit value at the program counter, low byte first.
    pub open spec fn next_word(self) -> u16 {
        word(self.skip_byte().next_byte(), self.next_byte())
    }

    /// The state after the 16-bit value at the program counter was read.
    pub open spec fn skip_word(self) -> Self {
        self.skip_byte().skip_byte()
    }

    /// The state after `value` was pushed: the high byte is stored one below
    /// the stack pointer, the low byte two below, and the stack pointer has
    /// moved down by two.
    pub open spec fn push(self, value: u16) -> Self {
        let high_at = self.stack_pointer.wrapping_sub(1);
        let low_at = self.stack_pointer.wrapping_sub(2);
        State { stack_pointer: low_at, ..self.store(high_at, high_byte(value)).store(low_at, low_byte(value)) }
    }

    /// The 16-bit value on top of the stack: the low byte at the stack
    /// pointer, the high byte one above.
    pub open spec fn top(self) -> u16 {
        word(self.fetch().peek(self.stack_pointer.wrapping_add(1)), self.peek(self.stack_pointer))
    }

    /// The state after the 16-bit value on top of the stack was popped: the
    /// stack pointer has moved up by two.
    pub open spec fn pop(self) -> Self {
        State { stack_pointer: self.stack_pointer.wrapping_add(2), ..self.fetch().fetch() }
    }

    /// The state after the program counter was loaded with `pc`, which takes
    /// one machine cycle.
    pub open spec fn load_pc(self, pc: u16) -> Self {
        State { program_counter: pc, ..self.delay(1) }
    }
    /// The state after interrupts were disabled: a pending request to enable
    /// them is cancelled.
    pub open spec fn disable_interrupts(self) -> Self {
        State { iten: false, iten_enable_next: false, ..self }
    }

    /// The state after interrupts were enabled at once.
    pub open spec fn enable_interrupts(self) -> Self {
        State { iten: true, iten_enable_next: true, ..self }
    }

    /// The state after a request to enable interrupts after the next
    /// instruction.
    pub open spec fn enable_interrupts_next(self) -> Self {
        State { iten_enable_next: true, ..self }
    }

    /// The state after the handler of `it` was entered.
    pub open spec fn service(self, it: Interrupt) -> Self {
        let woken = State { halted: false, ..self }.disable_interrupts();
        State { program_counter: it.spec_vector(), ..woken.push(self.program_counter).delay(6) }
    }
    /// The 8-bit operand with index `index`: 0 to 5 are the registers B, C,
    /// D, E, H and L, 6 is the byte at the address in the pointer pair, 7 is
    /// the accumulator.
    pub open spec fn operand(self, index: u8) -> u8 {
        if index < 6 {
            self.registers[index as int]
        } else if index == 6 {
            self.peek(self.hl())
        } else {
            self.accumulator
        }
    }

    /// The state after the operand with index `index` was read: reading
    /// through the pointer pair takes one machine cycle.
    pub open spec fn read_operand(self, index: u8) -> Self {
        if index == 6 {
            self.fetch()
        } else {
            self
        }
    }

    /// The state after `value` was written to the operand with index
    /// `index`: writing through the pointer pair takes one machine cycle.
    pub open spec fn write_operand(self, index: u8, value: u8) -> Self {
        if index < 6 {
            State { registers: self.registers.update(index as int, value), ..self }
        } else if index == 6 {
            self.store(self.hl(), value)
        } else {
            State { accumulator: value, ..self }
        }
    }

    /// The value of the 16-bit register with index `index`: 0 to 2 are the
    /// pairs BC, DE and HL, 3 is the stack pointer.
    pub open spec fn wide(self, index: u8) -> u16 {
        if index == 3 {
            self.stack_pointer
        } else {
            self.pair((2 * index) as u8)
        }
    }

    /// The state after `value` was written to the 16-bit register with index
    /// `index`.
    pub open spec fn with_wide(self, value: u16, index: u8) -> Self {
        if index == 3 {
            State { stack_pointer: value, ..self }
        } else {
            self.with_pair(value, (2 * index) as u8)
        }
    }

    /// Whether the condition with index `index` holds: 0 is "not zero", 1 is
    /// "zero", 2 is "no carry", 3 is "carry".
    pub open spec fn condition(self, index: u8) -> bool {
        if index == 0 {
            !self.flags.zero
        } else if index == 1 {
            self.flags.zero
        } else if index == 2 {
            !self.flags.carry
        } else {
            self.flags.carry
        }
    }

    /// The state after a return: the program counter is popped and loaded.
    pub open spec fn ret(self) -> Self {
        self.pop().load_pc(self.top())
    }

    /// The state with the given flags.
    pub open spec fn with_flags(self, flags: Flags) -> Self {
        State { flags, ..self }
    }

    /// The state with the given accumulator.
    pub open spec fn with_accumulator(self, value: u8) -> Self {
        State { accumulator: value, ..self }
    }
}

} // verus!
