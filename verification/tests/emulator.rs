use gamedorp::bus::Bus;
use gamedorp::cpu::{Cpu, Fatal};
use gamedorp::emulator::{
    audio_adjustment, batch_duration, pace, run_batch, Pace, GAMEBOY_SYSTEM_CLOCK_FREQUENCY,
    INSTRUCTIONS_BETWEEN_TICKS,
};
use gamedorp::flat::FlatBus;

#[test]
fn a_batch_lasts_as_long_as_on_the_machine() {
    assert_eq!(batch_duration(), 1_953_125);
    assert_eq!(
        batch_duration(),
        INSTRUCTIONS_BETWEEN_TICKS * 1_000_000_000 / GAMEBOY_SYSTEM_CLOCK_FREQUENCY
    );
}

#[test]
fn pacing_decisions() {
    let batch = 1000;
    // not due: sleep a quarter of what is left
    assert_eq!(pace(5000, 5000, batch), Pace::Sleep { nanoseconds: 250 });
    assert_eq!(pace(5000, 5600, batch), Pace::Sleep { nanoseconds: 100 });
    assert_eq!(pace(5000, 6000, batch), Pace::Sleep { nanoseconds: 0 });
    // due: the tick is one batch after the last one
    assert_eq!(pace(5000, 6001, batch), Pace::Tick { last_time: 6000 });
    assert_eq!(pace(5000, 6999, batch), Pace::Tick { last_time: 6000 });
    // two batches late or more: the tick is now
    assert_eq!(pace(5000, 7000, batch), Pace::Tick { last_time: 7000 });
    assert_eq!(pace(5000, 90000, batch), Pace::Tick { last_time: 90000 });
}

#[test]
fn audio_is_adjusted_once_per_second_of_the_machine() {
    assert_eq!(audio_adjustment(0), (0x2000, None));
    assert_eq!(audio_adjustment(0x2000), (0x4000, None));
    assert_eq!(audio_adjustment(0x400000 - 0x4000), (0x400000 - 0x2000, None));
    assert_eq!(audio_adjustment(0x400000 - 0x2000), (0, Some(0x400000)));
    let mut count = 0;
    let mut batches = 0;
    loop {
        let (next, adjust) = audio_adjustment(count);
        batches += 1;
        if let Some(periods) = adjust {
            assert_eq!(periods, GAMEBOY_SYSTEM_CLOCK_FREQUENCY);
            assert_eq!(next, 0);
            break;
        }
        count = next;
    }
    assert_eq!(batches, 0x400000 / 0x2000);
}

#[test]
fn a_batch_runs_until_it_is_full() {
    // a loop of one jump onto itself: 16 clock periods a step
    let mut bus = FlatBus::new();
    bus.store_byte(0, 0xC3);
    bus.store_byte(1, 0x00);
    bus.store_byte(2, 0x00);
    let mut cpu = Cpu::new(bus);
    assert_eq!(run_batch(&mut cpu, 0), Ok(0));
    assert_eq!(cpu.memory_map.clock(), 0x2000);
    // with 8 clock periods passed already, 511 steps leave the batch 8 short:
    // 512 steps run, and 8 clock periods count for the next batch
    assert_eq!(run_batch(&mut cpu, 8), Ok(8));
    assert_eq!(cpu.memory_map.clock(), 2 * 0x2000);
    // a full batch runs no step
    assert_eq!(run_batch(&mut cpu, 0x2000), Ok(0));
    assert_eq!(run_batch(&mut cpu, 0x2005), Ok(5));
    assert_eq!(cpu.memory_map.clock(), 2 * 0x2000);
}

#[test]
fn a_batch_ends_with_the_failure_of_a_step() {
    let mut bus = FlatBus::new();
    bus.store_byte(0, 0x00);
    bus.store_byte(1, 0x00);
    bus.store_byte(2, 0xE3);
    let mut cpu = Cpu::new(bus);
    assert_eq!(run_batch(&mut cpu, 0), Err(Fatal::UnsupportedOpcode { opcode: 0xE3, pc: 2 }));
    assert_eq!(cpu.program_counter, 3);
}
