//! The bus that the processor core drives: one flat 16-bit address space, a
//! clock, and the interrupt lines.

use vstd::prelude::*;

verus! {

/// The interrupt sources, from the highest priority to the lowest.
#[derive(Clone, Copy, Debug, PartialEq, Eq, Structural)]
pub enum Interrupt {
    /// Vertical blanking period of the display.
    VBlank,
    /// Display status change.
    Lcdc,
    /// Timer overflow.
    Timer,
    /// Serial transfer complete.
    Serial,
    /// Button press.
    Joypad,
}

impl Interrupt {
    /// The fixed address of the handler of each interrupt.
    pub open spec fn spec_vector(self) -> u16 {
        match self {
            Interrupt::VBlank => 0x40,
            Interrupt::Lcdc => 0x48,
            Interrupt::Timer => 0x50,
            Interrupt::Serial => 0x58,
            Interrupt::Joypad => 0x60,
        }
    }

    /// The fixed address of the handler of this interrupt.
    #[verifier::when_used_as_spec(spec_vector)]
    pub fn vector(self) -> (addr: u16)
        ensures
            addr == self.spec_vector(),
    {
        match self {
            Interrupt::VBlank => 0x40,
            Interrupt::Lcdc => 0x48,
            Interrupt::Timer => 0x50,
            Interrupt::Serial => 0x58,
            Interrupt::Joypad => 0x60,
        }
    }
}

/// What the core needs from the rest of the machine.
///
/// The state of a bus is described by its view; the spec functions say what
/// each operation reads from a state and which state it leaves. A bus is
/// deterministic: the same operations on the same state give the same
/// results.
pub trait Bus: View {
    /// The byte that a read at `addr` returns in state `m`.
    spec fn read(m: Self::V, addr: u16) -> u8;

    /// The state after `val` was written at `addr` in state `m`.
    spec fn write(m: Self::V, addr: u16, val: u8) -> Self::V;

    /// The state one system clock period after `m`.
    spec fn tick(m: Self::V) -> Self::V;

    /// The pending and enabled interrupt of the highest priority in `m`.
    spec fn pending(m: Self::V) -> Option<Interrupt>;

    /// The state after the interrupt that `pending` names was acknowledged.
    spec fn acknowledge(m: Self::V) -> Self::V;

    /// Reads the byte at `addr`. Does not advance the clock.
    fn fetch_byte(&self, addr: u16) -> (b: u8)
        ensures
            b == Self::read(self@, addr),
    ;

    /// Writes `val` at `addr`. Does not advance the clock.
    fn store_byte(&mut self, addr: u16, val: u8)
        ensures
            final(self)@ == Self::write(old(self)@, addr, val),
    ;

    /// Advances every peripheral by one system clock period.
    fn step(&mut self)
        ensures
            final(self)@ == Self::tick(old(self)@),
    ;

    /// The pending interrupt of the highest priority, left pending.
    fn next_interrupt(&self) -> (it: Option<Interrupt>)
        ensures
            it == Self::pending(self@),
    ;

    /// The pending interrupt of the highest priority, which is acknowledged.
    fn next_interrupt_ack(&mut self) -> (it: Option<Interrupt>)
        ensures
            it == Self::pending(old(self)@),
            final(self)@ == Self::acknowledge(old(self)@),
    ;
}

/// The state of a bus after `n` clock periods.
pub open spec fn ticks<B: Bus>(m: B::V, n: nat) -> B::V
    decreases n,
{
    if n == 0 {
        m
    } else {
        B::tick(ticks::<B>(m, (n - 1) as nat))
    }
}

} // verus!
