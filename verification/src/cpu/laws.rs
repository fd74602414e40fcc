//! What holds of the machine whatever its state: the register pairs, the
//! interrupt latch and the independence of a step from what came before it.

use vstd::prelude::*;
use crate::bus::Bus;
use crate::cpu::model::{State, PAIR_AF, is_pair};
use crate::cpu::Fatal;
use crate::cpu::decode::lemma_decode;
use crate::cpu::semantics::{Handler, Step, dispatch, entry, primary_order, settle, step};

verus! {

/// The low byte of the pair of the accumulator and the flags has its bits 3
/// to 0 clear, in every state.
pub proof fn lemma_flag_nibble_is_zero<B: Bus>(s: State<B>)
    ensures
        s.pair(PAIR_AF) % 16 == 0,
        s.flags.spec_to_byte() % 16 == 0,
{
}

/// A value written to a register pair is read back from it. For the pair of
/// the accumulator and the flags this holds of the values whose bits 3 to 0
/// are clear; of any value, those four bits are read back clear and the
/// other twelve as they were written.
pub proof fn lemma_pair_round_trip<B: Bus>(s: State<B>, value: u16, first: u8)
    requires
        s.wf(),
        is_pair(first),
    ensures
        first != PAIR_AF || value % 16 == 0 ==> s.with_pair(value, first).pair(first) == value,
        first == PAIR_AF ==> s.with_pair(value, first).pair(first) == value - value % 16,
{
}

/// A write to a register pair changes nothing but the pair: the other pairs,
/// the stack pointer, the program counter, the bus and the rest of the state
/// stay as they are.
pub proof fn lemma_pair_write_is_local<B: Bus>(s: State<B>, value: u16, first: u8, other: u8)
    requires
        s.wf(),
        is_pair(first),
        is_pair(other),
        other != first,
    ensures
        s.with_pair(value, first).wf(),
        s.with_pair(value, first).pair(other) == s.pair(other),
        s.with_pair(value, first).stack_pointer == s.stack_pointer,
        s.with_pair(value, first).program_counter == s.program_counter,
        s.with_pair(value, first).bus == s.bus,
        s.with_pair(value, first).iten == s.iten,
        s.with_pair(value, first).iten_enable_next == s.iten_enable_next,
        s.with_pair(value, first).halted == s.halted,
        s.with_pair(value, first).cycles == s.cycles,
{
}

/// A request to enable interrupts that is followed by a request to disable
/// them, before the next instruction boundary, leaves interrupts disabled
/// with no request pending: at the next boundary they stay disabled.
pub proof fn lemma_disable_cancels_enable<B: Bus>(s: State<B>)
    ensures
        !s.enable_interrupts_next().disable_interrupts().iten,
        !s.enable_interrupts_next().disable_interrupts().iten_enable_next,
        !settle(s.enable_interrupts_next().disable_interrupts()).iten,
{
}

/// A request to enable interrupts does not enable them at once: the core
/// stays disabled until the next instruction boundary, where the request
/// takes effect.
pub proof fn lemma_enable_waits_for_boundary<B: Bus>(s: State<B>)
    requires
        !s.iten,
    ensures
        !s.enable_interrupts_next().iten,
        settle(s.enable_interrupts_next()).iten,
{
}

/// Entering an interrupt handler disables interrupts and cancels a pending
/// request to enable them, whatever the state before.
pub proof fn lemma_service_disables<B: Bus>(s: State<B>, it: crate::bus::Interrupt)
    ensures
        !s.service(it).iten,
        !s.service(it).iten_enable_next,
        !s.service(it).halted,
        s.service(it).program_counter == it.spec_vector(),
        s.service(it).cycles == s.cycles + 32,
{
}

/// A step does not depend on the clock periods that the step before it
/// counted: it starts its own count at zero.
pub proof fn lemma_step_resets_counter<B: Bus>(s: State<B>, cycles: nat)
    ensures
        step(State { cycles, ..s }) == step(s),
{
    assert(entry(State { cycles, ..s }) == entry(s));
    assert(settle(State { cycles, ..s }) == settle(s));
}

/// The state after `n` steps from `s`. A step that fails leaves the state in
/// which it failed; the steps after it go on from there.
pub open spec fn run<B: Bus>(s: State<B>, n: nat) -> State<B>
    decreases n,
{
    if n == 0 {
        s
    } else {
        step(run(s, (n - 1) as nat)).0
    }
}

/// Whether two states are the same machine in the same situation: they agree
/// on everything but the clock periods counted in the step before.
pub open spec fn same_snapshot<B: Bus>(a: State<B>, b: State<B>) -> bool {
    a == (State { cycles: a.cycles, ..b })
}

/// Two cores that start as the same machine in the same situation and both
/// go by `step` are in the same state after every number of steps, counter
/// included from the first step on, and each step gives both the same
/// result.
pub proof fn lemma_lockstep<B: Bus>(a: State<B>, b: State<B>, n: nat)
    requires
        same_snapshot(a, b),
    ensures
        same_snapshot(run(a, n), run(b, n)),
        n > 0 ==> run(a, n) == run(b, n),
        step(run(a, n)) == step(run(b, n)),
    decreases n,
{
    if n > 0 {
        lemma_lockstep(a, b, (n - 1) as nat);
    }
    lemma_step_resets_counter(run(b, n), run(a, n).cycles);
}

/// The two opcodes that ask for interrupts to be enabled and disabled reach
/// their handlers: no handler before them in the primary table takes them.
pub proof fn lemma_interrupt_opcodes_are_reached<B: Bus>(s: State<B>)
    ensures
        dispatch(primary_order(), 0, s, 0xFB) == Step::Done(s.enable_interrupts_next(), 4),
        dispatch(primary_order(), 0, s, 0xF3) == Step::Done(s.disable_interrupts(), 4),
{
    lemma_decode(s, 0xFB);
    lemma_decode(s, 0xF3);
    reveal(Handler::step);
}

/// With interrupts disabled, the instruction that asks for them to be
/// enabled, followed at once by the instruction that disables them, leaves
/// them disabled: they are not enabled after the first of the two, not
/// after the second, and not at the boundary behind it. Each of the two
/// takes 4 clock periods.
pub proof fn lemma_enable_then_disable<B: Bus>(s: State<B>)
    requires
        !s.iten,
        !s.iten_enable_next,
        !s.halted,
        s.next_byte() == 0xFB,
        step(s).0.next_byte() == 0xF3,
    ensures
        step(s).1 == Ok::<u8, Fatal>(4),
        !step(s).0.iten,
        step(step(s).0).1 == Ok::<u8, Fatal>(4),
        !step(step(s).0).0.iten,
        !step(step(s).0).0.iten_enable_next,
        !settle(step(step(s).0).0).iten,
{
    lemma_interrupt_opcodes_are_reached(settle(s).skip_byte());
    let between = step(s).0;
    assert(between == settle(s).skip_byte().enable_interrupts_next());
    assert(!between.iten && between.iten_enable_next && !between.halted);
    lemma_interrupt_opcodes_are_reached(settle(between).skip_byte());
    assert(settle(between).next_byte() == between.next_byte());
}

} // verus!
