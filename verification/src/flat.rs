//! A bus made of 64 KiB of plain memory, five interrupt request lines and a
//! clock counter. It has no peripherals: what was stored at an address is
//! what is read there.

use vstd::prelude::*;
use crate::bus::{Bus, Interrupt};

verus! {

/// The interrupt request lines.
#[derive(Clone, Copy, Debug, PartialEq, Eq, Structural)]
pub struct Lines {
    pub vblank: bool,
    pub lcdc: bool,
    pub timer: bool,
    pub serial: bool,
    pub joypad: bool,
}

impl Lines {
    /// The raised line of the highest priority.
    pub open spec fn spec_highest(self) -> Option<Interrupt> {
        if self.vblank {
            Some(Interrupt::VBlank)
        } else if self.lcdc {
            Some(Interrupt::Lcdc)
        } else if self.timer {
            Some(Interrupt::Timer)
        } else if self.serial {
            Some(Interrupt::Serial)
        } else if self.joypad {
            Some(Interrupt::Joypad)
        } else {
            None
        }
    }

    /// These lines with the line of `it` set to `level`.
    pub open spec fn spec_with(self, it: Interrupt, level: bool) -> Lines {
        match it {
            Interrupt::VBlank => Lines { vblank: level, ..self },
            Interrupt::Lcdc => Lines { lcdc: level, ..self },
            Interrupt::Timer => Lines { timer: level, ..self },
            Interrupt::Serial => Lines { serial: level, ..self },
            Interrupt::Joypad => Lines { joypad: level, ..self },
        }
    }

    /// These lines with the raised line of the highest priority lowered.
    pub open spec fn spec_lowered(self) -> Lines {
        match self.spec_highest() {
            Some(it) => self.spec_with(it, false),
            None => self,
        }
    }

    /// The raised line of the highest priority.
    #[verifier::when_used_as_spec(spec_highest)]
    pub fn highest(self) -> (it: Option<Interrupt>)
        ensures
            it == self.spec_highest(),
    {
        if self.vblank {
            Some(Interrupt::VBlank)
        } else if self.lcdc {
            Some(Interrupt::Lcdc)
        } else if self.timer {
            Some(Interrupt::Timer)
        } else if self.serial {
            Some(Interrupt::Serial)
        } else if self.joypad {
            Some(Interrupt::Joypad)
        } else {
            None
        }
    }

    /// These lines with the line of `it` set to `level`.
    #[verifier::when_used_as_spec(spec_with)]
    pub fn with(self, it: Interrupt, level: bool) -> (lines: Lines)
        ensures
            lines == self.spec_with(it, level),
    {
        match it {
            Interrupt::VBlank => Lines { vblank: level, ..self },
            Interrupt::Lcdc => Lines { lcdc: level, ..self },
            Interrupt::Timer => Lines { timer: level, ..self },
            Interrupt::Serial => Lines { serial: level, ..self },
            Interrupt::Joypad => Lines { joypad: level, ..self },
        }
    }
}

/// The state of a `FlatBus`.
pub struct FlatState {
    /// The byte at each of the 65536 addresses.
    pub memory: Seq<u8>,
    /// The interrupt request lines.
    pub lines: Lines,
    /// The clock periods that have elapsed, modulo 2^64.
    pub clock: u64,
}

/// 64 KiB of memory, five interrupt request lines and a clock counter.
pub struct FlatBus {
    memory: Vec<u8>,
    lines: Lines,
    clock: u64,
}

impl View for FlatBus {
    type V = FlatState;

    closed spec fn view(&self) -> FlatState {
        FlatState { memory: self.memory@, lines: self.lines, clock: self.clock }
    }
}

impl FlatBus {
    #[verifier::type_invariant]
    spec fn well_formed(self) -> bool {
        self.memory@.len() == 0x10000
    }

    /// A bus whose memory is all zero, with no interrupt requested, at clock 0.
    pub fn new() -> (bus: FlatBus)
        ensures
            bus@.memory == Seq::new(0x10000, |i: int| 0u8),
            bus@.lines == (Lines { vblank: false, lcdc: false, timer: false, serial: false, joypad: false }),
            bus@.clock == 0,
    {
        let mut memory: Vec<u8> = Vec::new();
        let mut i: u32 = 0;
        while i < 0x10000
            invariant
                i <= 0x10000,
                memory@.len() == i,
                forall|k: int| 0 <= k < i ==> memory@[k] == 0u8,
            decreases 0x10000 - i,
        {
            memory.push(0u8);
            i += 1;
        }
        assert(memory@ =~= Seq::new(0x10000, |i: int| 0u8));
        FlatBus {
            memory,
            lines: Lines { vblank: false, lcdc: false, timer: false, serial: false, joypad: false },
            clock: 0,
        }
    }

    /// Raises the request line of `it`.
    pub fn request(&mut self, it: Interrupt)
        ensures
            final(self)@ == (FlatState { lines: old(self)@.lines.with(it, true), ..old(self)@ }),
    {
        proof {
            use_type_invariant(&*self);
        }
        self.lines = self.lines.with(it, true);
    }

    /// The clock periods that have elapsed, modulo 2^64.
    pub fn clock(&self) -> (n: u64)
        ensures
            n == self@.clock,
    {
        self.clock
    }
}

impl Bus for FlatBus {
    open spec fn read(m: FlatState, addr: u16) -> u8 {
        m.memory[addr as int]
    }

    open spec fn write(m: FlatState, addr: u16, val: u8) -> FlatState {
        FlatState { memory: m.memory.update(addr as int, val), ..m }
    }

    open spec fn tick(m: FlatState) -> FlatState {
        FlatState { clock: if m.clock == u64::MAX { 0 } else { (m.clock + 1) as u64 }, ..m }
    }

    open spec fn pending(m: FlatState) -> Option<Interrupt> {
        m.lines.highest()
    }

    open spec fn acknowledge(m: FlatState) -> FlatState {
        FlatState { lines: m.lines.spec_lowered(), ..m }
    }

    fn fetch_byte(&self, addr: u16) -> (b: u8) {
        proof {
            use_type_invariant(self);
        }
        self.memory[addr as usize]
    }

    fn store_byte(&mut self, addr: u16, val: u8) {
        proof {
            use_type_invariant(&*self);
        }
        self.memory[addr as usize] = val;
    }

    fn step(&mut self) {
        proof {
            use_type_invariant(&*self);
        }
        self.clock = self.clock.wrapping_add(1);
    }

    fn next_interrupt(&self) -> (it: Option<Interrupt>) {
        self.lines.highest()
    }

    fn next_interrupt_ack(&mut self) -> (it: Option<Interrupt>) {
        proof {
            use_type_invariant(&*self);
        }
        let it = self.lines.highest();
        match it {
            Some(line) => {
                self.lines = self.lines.with(line, false);
            },
            None => {},
        }
        it
    }
}

} // verus!
