use gamedorp::bus::{Bus, Interrupt};
use gamedorp::cpu::{CanRunInstruction, Cpu};
use gamedorp::flat::{FlatBus, Lines};

fn machine(program: &[u8]) -> Cpu<FlatBus> {
    let mut bus = FlatBus::new();
    for (i, byte) in program.iter().enumerate() {
        bus.store_byte(0x0100 + i as u16, *byte);
    }
    let mut cpu = Cpu::new(bus);
    cpu.program_counter = 0x0100;
    cpu
}

#[test]
fn interrupt_vectors() {
    assert_eq!(Interrupt::VBlank.vector(), 0x40);
    assert_eq!(Interrupt::Lcdc.vector(), 0x48);
    assert_eq!(Interrupt::Timer.vector(), 0x50);
    assert_eq!(Interrupt::Serial.vector(), 0x58);
    assert_eq!(Interrupt::Joypad.vector(), 0x60);
}

#[test]
fn a_pending_interrupt_is_served_in_place_of_an_instruction() {
    let sources = [
        Interrupt::VBlank,
        Interrupt::Lcdc,
        Interrupt::Timer,
        Interrupt::Serial,
        Interrupt::Joypad,
    ];
    for it in sources {
        let mut cpu = machine(&[0x3C]);
        cpu.memory_map.request(it);
        assert_eq!(cpu.run_next_instruction(), Ok(32));
        assert_eq!(cpu.program_counter, it.vector());
        assert_eq!(cpu.stack_pointer, 0xFFFC);
        assert_eq!(cpu.memory_map.fetch_byte(0xFFFD), 0x01);
        assert_eq!(cpu.memory_map.fetch_byte(0xFFFC), 0x00);
        assert!(!cpu.iten);
        assert!(!cpu.iten_enable_next);
        // no opcode was fetched
        assert_eq!(cpu.accumulator, 0);
        assert_eq!(cpu.memory_map.clock(), 32);
        // the interrupt was acknowledged
        assert_eq!(cpu.memory_map.next_interrupt(), None);
    }
}

#[test]
fn interrupts_are_served_one_at_a_time_by_priority() {
    let mut bus = FlatBus::new();
    bus.request(Interrupt::Joypad);
    bus.request(Interrupt::Timer);
    bus.request(Interrupt::VBlank);
    assert_eq!(bus.next_interrupt(), Some(Interrupt::VBlank));
    assert_eq!(bus.next_interrupt(), Some(Interrupt::VBlank));
    assert_eq!(bus.next_interrupt_ack(), Some(Interrupt::VBlank));
    assert_eq!(bus.next_interrupt_ack(), Some(Interrupt::Timer));
    assert_eq!(bus.next_interrupt(), Some(Interrupt::Joypad));
    assert_eq!(bus.next_interrupt_ack(), Some(Interrupt::Joypad));
    assert_eq!(bus.next_interrupt_ack(), None);
    let lines = Lines { vblank: false, lcdc: true, timer: false, serial: true, joypad: false };
    assert_eq!(lines.highest(), Some(Interrupt::Lcdc));
    assert_eq!(lines.with(Interrupt::Lcdc, false).highest(), Some(Interrupt::Serial));
    assert_eq!(lines.with(Interrupt::VBlank, true).highest(), Some(Interrupt::VBlank));
}

#[test]
fn a_disabled_core_does_not_serve_interrupts() {
    let mut cpu = machine(&[0x3C, 0x3C]);
    cpu.iten = false;
    cpu.iten_enable_next = false;
    cpu.memory_map.request(Interrupt::Timer);
    assert_eq!(cpu.run_next_instruction(), Ok(4));
    assert_eq!(cpu.run_next_instruction(), Ok(4));
    assert_eq!(cpu.accumulator, 2);
    assert!(!cpu.iten);
    assert_eq!(cpu.memory_map.next_interrupt(), Some(Interrupt::Timer));
}

#[test]
fn enable_takes_effect_after_the_next_instruction() {
    // enable, increment, increment
    let mut cpu = machine(&[0xFB, 0x3C, 0x3C]);
    cpu.iten = false;
    cpu.iten_enable_next = false;
    cpu.memory_map.request(Interrupt::VBlank);
    assert_eq!(cpu.run_next_instruction(), Ok(4));
    assert!(!cpu.iten);
    assert!(cpu.iten_enable_next);
    // the instruction behind the request still runs
    assert_eq!(cpu.run_next_instruction(), Ok(4));
    assert_eq!(cpu.accumulator, 1);
    assert!(cpu.iten);
    // then the interrupt is served
    assert_eq!(cpu.run_next_instruction(), Ok(32));
    assert_eq!(cpu.program_counter, 0x40);
    assert_eq!(cpu.accumulator, 1);
    assert!(!cpu.iten);
}

#[test]
fn disable_right_after_enable_leaves_interrupts_disabled() {
    // enable, disable, increment, increment
    let mut cpu = machine(&[0xFB, 0xF3, 0x3C, 0x3C]);
    cpu.iten = false;
    cpu.iten_enable_next = false;
    cpu.memory_map.request(Interrupt::VBlank);
    assert_eq!(cpu.run_next_instruction(), Ok(4));
    assert!(!cpu.iten);
    assert_eq!(cpu.run_next_instruction(), Ok(4));
    assert!(!cpu.iten);
    assert!(!cpu.iten_enable_next);
    assert_eq!(cpu.run_next_instruction(), Ok(4));
    assert_eq!(cpu.run_next_instruction(), Ok(4));
    assert_eq!(cpu.accumulator, 2);
    assert!(!cpu.iten);
    assert_eq!(cpu.program_counter, 0x0104);
    assert_eq!(cpu.memory_map.next_interrupt(), Some(Interrupt::VBlank));
}

#[test]
fn the_latch_by_itself() {
    let mut cpu = machine(&[]);
    assert!(cpu.iten);
    cpu.disable_interrupts();
    assert!(!cpu.iten && !cpu.iten_enable_next);
    cpu.enable_interrupts_next();
    assert!(!cpu.iten && cpu.iten_enable_next);
    cpu.disable_interrupts();
    assert!(!cpu.iten && !cpu.iten_enable_next);
    cpu.enable_interrupts();
    assert!(cpu.iten && cpu.iten_enable_next);
    cpu.enable_interrupts_next();
    assert!(cpu.iten && cpu.iten_enable_next);
}

#[test]
fn return_from_interrupt_enables_at_once() {
    let mut cpu = machine(&[0xD9]);
    cpu.iten = false;
    cpu.iten_enable_next = false;
    cpu.push_stack(0x0200);
    cpu.instruction_cycles = 0;
    assert_eq!(cpu.run_next_instruction(), Ok(16));
    assert_eq!(cpu.program_counter, 0x0200);
    assert!(cpu.iten);
    assert_eq!(cpu.stack_pointer, 0xFFFE);
}

#[test]
fn a_halted_core_waits_one_clock_period_per_step() {
    let mut cpu = machine(&[0x76, 0x3C]);
    assert_eq!(cpu.run_next_instruction(), Ok(4));
    assert!(cpu.halted);
    assert_eq!(cpu.program_counter, 0x0101);
    for _ in 0..5 {
        assert_eq!(cpu.run_next_instruction(), Ok(1));
        assert!(cpu.halted);
        assert_eq!(cpu.program_counter, 0x0101);
    }
    assert_eq!(cpu.memory_map.clock(), 4 + 5);
    // with interrupts enabled, a request is served and wakes the core
    cpu.memory_map.request(Interrupt::Timer);
    assert_eq!(cpu.run_next_instruction(), Ok(32));
    assert!(!cpu.halted);
    assert_eq!(cpu.program_counter, 0x50);
    assert_eq!(cpu.memory_map.fetch_byte(0xFFFD), 0x01);
    assert_eq!(cpu.memory_map.fetch_byte(0xFFFC), 0x01);
}

#[test]
fn a_halted_core_with_interrupts_disabled_wakes_without_serving() {
    let mut cpu = machine(&[0x76, 0x3C, 0x3C]);
    cpu.iten = false;
    cpu.iten_enable_next = false;
    assert_eq!(cpu.run_next_instruction(), Ok(4));
    assert_eq!(cpu.run_next_instruction(), Ok(1));
    assert!(cpu.halted);
    cpu.memory_map.request(Interrupt::Joypad);
    // one clock period of waiting, then the instruction behind the halt
    assert_eq!(cpu.run_next_instruction(), Ok(5));
    assert!(!cpu.halted);
    assert_eq!(cpu.accumulator, 1);
    assert_eq!(cpu.program_counter, 0x0102);
    assert_eq!(cpu.stack_pointer, 0xFFFE);
    assert_eq!(cpu.memory_map.next_interrupt(), Some(Interrupt::Joypad));
    assert_eq!(cpu.run_next_instruction(), Ok(4));
    assert_eq!(cpu.accumulator, 2);
}

#[test]
fn entering_a_handler_by_hand() {
    let mut cpu = machine(&[]);
    cpu.halted = true;
    cpu.interrupt(Interrupt::Lcdc);
    assert!(!cpu.halted);
    assert!(!cpu.iten);
    assert_eq!(cpu.program_counter, 0x48);
    assert_eq!(cpu.stack_pointer, 0xFFFC);
    assert_eq!(cpu.instruction_cycles, 32);
    assert_eq!(cpu.memory_map.clock(), 32);
}
