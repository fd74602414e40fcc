//! Snapshots for running two cores in lockstep: what a core holds is reduced
//! to one flat value, so that two cores with different register files can be
//! compared step by step.

use vstd::prelude::*;
use crate::bus::Bus;
use crate::cpu;
use crate::cpu::model::State;
use crate::gb_rs_cpu;

verus! {

/// The registers of a core as one flat value.
#[derive(Clone, Copy, Debug, PartialEq, Eq)]
pub struct Snapshot {
    /// The accumulator.
    pub accumulator: u8,
    /// The program counter.
    pub program_counter: u16,
    /// The stack pointer.
    pub stack_pointer: u16,
    /// The flags as the bits of the flag byte, from bit 0 to bit 7: four
    /// bits that are always clear, then C, H, N and Z.
    pub flags: [bool; 8],
    /// The registers B, C, D, E, H and L, in this order.
    pub simple_registers: [u8; 6],
}

/// Whether `snapshot` is the snapshot of a core in the state `s`.
pub open spec fn snapshot_of<B: Bus>(s: State<B>, snapshot: Snapshot) -> bool {
    &&& snapshot.accumulator == s.accumulator
    &&& snapshot.program_counter == s.program_counter
    &&& snapshot.stack_pointer == s.stack_pointer
    &&& snapshot.flags@ == seq![
        false,
        false,
        false,
        false,
        s.flags.carry,
        s.flags.half_carry,
        s.flags.subtract,
        s.flags.zero,
    ]
    &&& snapshot.simple_registers@ == s.registers
}

/// The snapshot of a core.
pub fn flatten<B: Bus>(cpu: &cpu::Cpu<B>) -> (snapshot: Snapshot)
    ensures
        snapshot_of(cpu@, snapshot),
{
    let flags = [
        false,
        false,
        false,
        false,
        cpu.flags.carry,
        cpu.flags.half_carry,
        cpu.flags.subtract,
        cpu.flags.zero,
    ];
    assert(flags@ =~= seq![
        false,
        false,
        false,
        false,
        cpu.flags.carry,
        cpu.flags.half_carry,
        cpu.flags.subtract,
        cpu.flags.zero,
    ]);
    Snapshot {
        accumulator: cpu.accumulator,
        program_counter: cpu.program_counter,
        stack_pointer: cpu.stack_pointer,
        flags,
        simple_registers: cpu.simple_registers,
    }
}

/// The snapshot of a core with the second register file.
pub fn flatten_gb_rs<B: Bus>(cpu: &gb_rs_cpu::Cpu<B>) -> (snapshot: Snapshot)
    ensures
        snapshot_of(cpu@, snapshot),
{
    let flags = [
        false,
        false,
        false,
        false,
        cpu.flags.c,
        cpu.flags.h,
        cpu.flags.n,
        cpu.flags.z,
    ];
    assert(flags@ =~= seq![
        false,
        false,
        false,
        false,
        cpu.flags.c,
        cpu.flags.h,
        cpu.flags.n,
        cpu.flags.z,
    ]);
    let simple_registers = [cpu.b(), cpu.c(), cpu.d(), cpu.e(), cpu.h(), cpu.l()];
    assert(simple_registers@ =~= cpu@.registers);
    Snapshot {
        accumulator: cpu.a(),
        program_counter: cpu.pc(),
        stack_pointer: cpu.sp(),
        flags,
        simple_registers,
    }
}

/// Two cores have the same snapshot exactly where they agree on the
/// accumulator, the flags, the six registers, the stack pointer and the
/// program counter.
pub proof fn lemma_snapshots_agree<B: Bus, C: Bus>(
    a: State<B>,
    b: State<C>,
    first: Snapshot,
    second: Snapshot,
)
    requires
        a.wf(),
        b.wf(),
        snapshot_of(a, first),
        snapshot_of(b, second),
    ensures
        (first.accumulator == second.accumulator && first.program_counter == second.program_counter
            && first.stack_pointer == second.stack_pointer && first.flags@ == second.flags@
            && first.simple_registers@ == second.simple_registers@) <==> (a.accumulator
            == b.accumulator && a.flags == b.flags && a.registers == b.registers && a.stack_pointer
            == b.stack_pointer && a.program_counter == b.program_counter),
{
    let fa = seq![
        false,
        false,
        false,
        false,
        a.flags.carry,
        a.flags.half_carry,
        a.flags.subtract,
        a.flags.zero,
    ];
    let fb = seq![
        false,
        false,
        false,
        false,
        b.flags.carry,
        b.flags.half_carry,
        b.flags.subtract,
        b.flags.zero,
    ];
    if fa == fb {
        assert(fa[4] == fb[4] && fa[5] == fb[5] && fa[6] == fb[6] && fa[7] == fb[7]);
    }
}

/// Whether two buses hold the same byte at every address below `limit`.
pub open spec fn memories_agree<A: Bus, C: Bus>(a: A::V, b: C::V, limit: int) -> bool {
    forall|addr: u16| addr < limit ==> A::read(a, addr) == C::read(b, addr)
}

/// The first address below `limit` at which two buses hold different bytes;
/// `None` where they agree below `limit`. With the limit 0xFF00 the last
/// page, where the peripherals have their registers, is left out.
pub fn first_difference<A: Bus, C: Bus>(a: &A, b: &C, limit: u16) -> (at: Option<u16>)
    ensures
        match at {
            Some(addr) => addr < limit && A::read(a@, addr) != C::read(b@, addr) && memories_agree::<
                A,
                C,
            >(a@, b@, addr as int),
            None => memories_agree::<A, C>(a@, b@, limit as int),
        },
{
    let mut addr: u16 = 0;
    while addr < limit
        invariant
            addr <= limit,
            memories_agree::<A, C>(a@, b@, addr as int),
        decreases limit - addr,
    {
        if a.fetch_byte(addr) != b.fetch_byte(addr) {
            return Some(addr);
        }
        addr += 1;
    }
    None
}

} // verus!
