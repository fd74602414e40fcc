//! The decisions of the loop that drives a core in real time: how long a
//! batch of steps lasts, when the next batch is due, and when the audio
//! output is to be adjusted.

use vstd::prelude::*;
use crate::cpu::model::State;
use crate::cpu::semantics::step;
use crate::cpu::timing::lemma_step_takes_time;
use crate::cpu::{CanRunInstruction, Fatal};

verus! {

/// The clock periods that the core runs between two waits. With too few the
/// loop waits very often; with too many the machine stutters.
pub const INSTRUCTIONS_BETWEEN_TICKS: u64 = 0x2000;

/// The clock periods of the machine in one second.
pub const GAMEBOY_SYSTEM_CLOCK_FREQUENCY: u64 = 0x400000;

/// The seconds of the machine between two adjustments of the audio output.
pub const AUDIO_RESAMPLING_ADJUST_DELAY_SECONDS: u64 = 1;

/// The nanoseconds that a batch of clock periods lasts on the machine.
pub fn batch_duration() -> (nanoseconds: u64)
    ensures
        nanoseconds == INSTRUCTIONS_BETWEEN_TICKS * 1_000_000_000 / (GAMEBOY_SYSTEM_CLOCK_FREQUENCY as int),
        nanoseconds == 1_953_125,
{
    INSTRUCTIONS_BETWEEN_TICKS * 1_000_000_000 / GAMEBOY_SYSTEM_CLOCK_FREQUENCY
}

/// What the pacing loop does next.
#[derive(Clone, Copy, Debug, PartialEq, Eq, Structural)]
pub enum Pace {
    /// The next batch is due: the loop lets it run, and takes `last_time` as
    /// the time of this tick.
    Tick { last_time: u64 },
    /// The next batch is not due: the loop sleeps for so many nanoseconds.
    Sleep { nanoseconds: u64 },
}

/// What the pacing loop does at `current_time` when the last tick was at
/// `last_time`, both in nanoseconds. More than a batch after the last tick,
/// the next one is due; its time is one batch after the last, or the current
/// time where two batches or more have passed. Else the loop sleeps a
/// quarter of what is left of the batch.
pub open spec fn spec_pace(last_time: u64, current_time: u64, batch_duration: u64) -> Pace {
    let since = current_time - last_time;
    if since > batch_duration {
        if since < 2 * batch_duration {
            Pace::Tick { last_time: (last_time + batch_duration) as u64 }
        } else {
            Pace::Tick { last_time: current_time }
        }
    } else {
        Pace::Sleep { nanoseconds: ((batch_duration - since) / 4) as u64 }
    }
}

/// What the pacing loop does at `current_time` when the last tick was at
/// `last_time`.
#[verifier::when_used_as_spec(spec_pace)]
pub fn pace(last_time: u64, current_time: u64, batch_duration: u64) -> (next: Pace)
    requires
        last_time <= current_time,
        2 * batch_duration <= u64::MAX,
    ensures
        next == spec_pace(last_time, current_time, batch_duration),
{
    let duration_since_last_tick = current_time - last_time;
    if duration_since_last_tick > batch_duration {
        if duration_since_last_tick < 2 * batch_duration {
            Pace::Tick { last_time: last_time + batch_duration }
        } else {
            Pace::Tick { last_time: current_time }
        }
    } else {
        // sleep a quarter of what is left of the batch
        Pace::Sleep { nanoseconds: (batch_duration - duration_since_last_tick) / 4 }
    }
}

/// The clock periods run since the last adjustment of the audio output,
/// after one more batch, and the clock periods for which the output is to
/// be adjusted now, if it is: the count starts again once the machine has
/// run for the delay between two adjustments.
pub open spec fn spec_audio_adjustment(count: u64) -> (u64, Option<u64>) {
    if count + INSTRUCTIONS_BETWEEN_TICKS >= GAMEBOY_SYSTEM_CLOCK_FREQUENCY
        * AUDIO_RESAMPLING_ADJUST_DELAY_SECONDS {
        (0, Some((count + INSTRUCTIONS_BETWEEN_TICKS) as u64))
    } else {
        ((count + INSTRUCTIONS_BETWEEN_TICKS) as u64, None)
    }
}

/// Counts one more batch towards the next adjustment of the audio output.
#[verifier::when_used_as_spec(spec_audio_adjustment)]
pub fn audio_adjustment(count: u64) -> (r: (u64, Option<u64>))
    requires
        count + INSTRUCTIONS_BETWEEN_TICKS <= u64::MAX,
    ensures
        r == spec_audio_adjustment(count),
{
    let audio_adjust_count = count + INSTRUCTIONS_BETWEEN_TICKS;
    if audio_adjust_count >= GAMEBOY_SYSTEM_CLOCK_FREQUENCY * AUDIO_RESAMPLING_ADJUST_DELAY_SECONDS {
        (0, Some(audio_adjust_count))
    } else {
        (audio_adjust_count, None)
    }
}

/// The machine after a batch, with the clock periods that it ran beyond the
/// batch, when `cycles` clock periods of the batch have passed: steps are
/// run until the batch is full. A step that fails ends the batch with its
/// failure.
pub open spec fn batch<B: crate::bus::Bus>(s: State<B>, cycles: u64) -> (State<B>, Result<u64, Fatal>)
    decreases INSTRUCTIONS_BETWEEN_TICKS + 32 - cycles,
{
    if cycles >= INSTRUCTIONS_BETWEEN_TICKS {
        (s, Ok((cycles - INSTRUCTIONS_BETWEEN_TICKS) as u64))
    } else {
        match step(s).1 {
            Ok(taken) => {
                proof {
                    lemma_step_takes_time(s);
                }
                batch(step(s).0, (cycles + taken) as u64)
            },
            Err(fatal) => (step(s).0, Err(fatal)),
        }
    }
}

/// Runs the core until a batch of clock periods is full, `cycles` of which
/// have passed already, and returns the clock periods that it ran beyond the
/// batch: they count for the next one.
pub fn run_batch<C: CanRunInstruction>(cpu: &mut C, cycles: u64) -> (r: Result<u64, Fatal>)
    ensures
        (final(cpu).state(), r) == batch(old(cpu).state(), cycles),
{
    let mut total = cycles;
    while total < INSTRUCTIONS_BETWEEN_TICKS
        invariant
            batch(cpu.state(), total) == batch(old(cpu).state(), cycles),
        decreases INSTRUCTIONS_BETWEEN_TICKS + 32 - total,
    {
        proof {
            lemma_step_takes_time(cpu.state());
        }
        match cpu.run_next_instruction() {
            Ok(taken) => {
                total += taken as u64;
            },
            Err(fatal) => {
                return Err(fatal);
            },
        }
    }
    Ok(total - INSTRUCTIONS_BETWEEN_TICKS)
}

} // verus!
