use gamedorp::bus::{Bus, Interrupt};
use gamedorp::cpu::{CanRunInstruction, Cpu, Fatal};
use gamedorp::flat::FlatBus;
use gamedorp::gb_rs_cpu;
use gamedorp::harness::{first_difference, flatten, flatten_gb_rs, Snapshot};

/// A program that counts down from 5 in a loop with a subroutine call,
/// stores below the stack, and then halts.
fn program() -> Vec<u8> {
    vec![
        0x31, 0x00, 0xD0, // LD SP, 0xD000
        0x06, 0x05, // LD B, 5
        0x21, 0x00, 0xC0, // LD HL, 0xC000
        0xCD, 0x12, 0x00, // CALL 0x0012
        0x05, // DEC B
        0xC2, 0x08, 0x00, // JP NZ, 0x0008
        0x76, // HALT
        0x00, 0x00, // padding
        0x78, // LD A, B
        0x87, // ADD A, A
        0x27, // DAA
        0x22, // LD (HL+), A
        0xC5, // PUSH BC
        0xF1, // POP AF
        0xCB, 0x37, // SWAP A
        0xC9, // RET
    ]
}

fn machine() -> Cpu<FlatBus> {
    let mut bus = FlatBus::new();
    for (i, byte) in program().iter().enumerate() {
        bus.store_byte(i as u16, *byte);
    }
    Cpu::new(bus)
}

fn memories_agree(a: &FlatBus, b: &FlatBus) -> bool {
    first_difference(a, b, 0xFF00) == None
}

#[test]
fn the_first_difference_of_two_memories() {
    let mut a = FlatBus::new();
    let mut b = FlatBus::new();
    assert_eq!(first_difference(&a, &b, 0xFFFF), None);
    a.store_byte(0x1234, 1);
    a.store_byte(0x2345, 2);
    b.store_byte(0xFF80, 3);
    assert_eq!(first_difference(&a, &b, 0xFF00), Some(0x1234));
    assert_eq!(first_difference(&a, &b, 0x1234), None);
    assert_eq!(first_difference(&a, &b, 0x1235), Some(0x1234));
    b.store_byte(0x1234, 1);
    assert_eq!(first_difference(&a, &b, 0xFF00), Some(0x2345));
    b.store_byte(0x2345, 2);
    // what differs in the last page does not count
    assert_eq!(first_difference(&a, &b, 0xFF00), None);
    assert_eq!(first_difference(&a, &b, 0xFFFF), Some(0xFF80));
    assert_eq!(first_difference(&a, &b, 0), None);
}

#[test]
fn two_cores_on_the_same_program_stay_in_the_same_state() {
    let mut first = machine();
    let mut second = machine();
    // what one step counted before does not matter to the next
    second.instruction_cycles = 77;
    let mut steps = 0;
    while !first.halted {
        let pc = first.program_counter;
        let opcode = first.memory_map.fetch_byte(pc);
        let a = first.run_next_instruction();
        let b = second.run_next_instruction();
        assert_eq!(a, b, "opcode {:#04x} at {:#06x}", opcode, pc);
        assert_eq!(flatten(&first), flatten(&second), "opcode {:#04x} at {:#06x}", opcode, pc);
        assert_eq!(first.instruction_cycles, second.instruction_cycles);
        assert_eq!(first.memory_map.clock(), second.memory_map.clock());
        assert!(memories_agree(&first.memory_map, &second.memory_map));
        steps += 1;
        assert!(steps < 1000);
    }
    assert_eq!(steps, 3 + 5 * 11 + 1);
    assert_eq!(first.simple_registers[0], 0);
    // the doubled counters, decimal adjusted: 10, 8, 6, 4, 2
    assert_eq!(first.memory_map.fetch_byte(0xC000), 0x10);
    assert_eq!(first.memory_map.fetch_byte(0xC001), 0x08);
    assert_eq!(first.memory_map.fetch_byte(0xC002), 0x06);
    assert_eq!(first.memory_map.fetch_byte(0xC003), 0x04);
    assert_eq!(first.memory_map.fetch_byte(0xC004), 0x02);
}

#[test]
fn a_recorded_trace_is_reproduced() {
    let mut cpu = machine();
    let expected: [(u16, u8); 8] = [
        (0x0003, 12),
        (0x0005, 8),
        (0x0008, 12),
        (0x0012, 24),
        (0x0013, 4),
        (0x0014, 4),
        (0x0015, 4),
        (0x0016, 8),
    ];
    for (pc, cycles) in expected {
        assert_eq!(cpu.run_next_instruction(), Ok(cycles));
        assert_eq!(cpu.program_counter, pc);
    }
    assert_eq!(cpu.accumulator, 0x10);
    assert_eq!(cpu.stack_pointer, 0xCFFE);
    assert_eq!(
        flatten(&cpu),
        Snapshot {
            accumulator: 0x10,
            program_counter: 0x0016,
            stack_pointer: 0xCFFE,
            flags: [false, false, false, false, false, false, false, false],
            simple_registers: [5, 0, 0, 0, 0xC0, 0x01],
        }
    );
}

#[test]
fn a_failure_is_the_same_on_both_cores() {
    let mut bus = FlatBus::new();
    bus.store_byte(0, 0xDD);
    let mut first = Cpu::new(bus);
    let mut bus = FlatBus::new();
    bus.store_byte(0, 0xDD);
    let mut second = Cpu::new(bus);
    assert_eq!(first.run_next_instruction(), Err(Fatal::UnsupportedOpcode { opcode: 0xDD, pc: 0 }));
    assert_eq!(second.run_next_instruction(), Err(Fatal::UnsupportedOpcode { opcode: 0xDD, pc: 0 }));
    assert_eq!(flatten(&first), flatten(&second));
}

#[test]
fn the_two_register_files_agree_operation_by_operation() {
    let mut first = Cpu::new(FlatBus::new());
    let mut second = gb_rs_cpu::Cpu::new(FlatBus::new());
    assert_eq!(flatten(&first), flatten_gb_rs(&second));

    first.write_combined_register(0x1234, 0);
    second.set_bc(0x1234);
    first.write_combined_register(0x5678, 2);
    second.set_de(0x5678);
    first.write_combined_register(0x9ABC, 4);
    second.set_hl(0x9ABC);
    first.write_combined_register(0xDEFF, 6);
    second.set_af(0xDEFF);
    assert_eq!(flatten(&first), flatten_gb_rs(&second));
    assert_eq!(first.read_combined_register(0), second.bc());
    assert_eq!(first.read_combined_register(2), second.de());
    assert_eq!(first.read_combined_register(4), second.hl());
    assert_eq!(first.read_combined_register(6), second.af());
    assert_eq!(second.af(), 0xDEF0);

    first.push_stack(0xCAFE);
    second.push_word(0xCAFE);
    assert_eq!(flatten(&first), flatten_gb_rs(&second));
    assert_eq!(first.instruction_cycles, second.instruction_cycles);
    assert!(memories_agree(&first.memory_map, &second.inter));
    assert_eq!(first.pop_stack(), second.pop_word());
    assert_eq!(flatten(&first), flatten_gb_rs(&second));

    first.instruction_cycles = 0;
    second.instruction_cycles = 0;
    first.interrupt(Interrupt::Timer);
    second.interrupt(Interrupt::Timer);
    assert_eq!(flatten(&first), flatten_gb_rs(&second));
    assert_eq!(first.instruction_cycles, 32);
    assert_eq!(second.instruction_cycles, 32);
    assert_eq!(first.memory_map.clock(), second.inter.clock());
    assert!(memories_agree(&first.memory_map, &second.inter));
    assert_eq!((first.iten, first.iten_enable_next), (second.iten, second.iten_enable_next));

    first.set_storage_register(4, 0x11);
    second.set_h(0x11);
    first.set_storage_register(5, 0x22);
    second.set_l(0x22);
    first.set_storage_register(0, 0x33);
    second.set_b(0x33);
    first.set_storage_register(3, 0x44);
    second.set_e(0x44);
    assert_eq!(flatten(&first), flatten_gb_rs(&second));
}

#[test]
fn second_register_file_accessors() {
    let mut cpu = gb_rs_cpu::Cpu::new(FlatBus::new());
    assert_eq!(cpu.sp(), 0xFFFE);
    assert_eq!(cpu.pc(), 0);
    cpu.set_a(1);
    cpu.set_b(2);
    cpu.set_c(3);
    cpu.set_d(4);
    cpu.set_e(5);
    cpu.set_h(6);
    cpu.set_l(7);
    assert_eq!((cpu.a(), cpu.b(), cpu.c(), cpu.d(), cpu.e(), cpu.h(), cpu.l()), (1, 2, 3, 4, 5, 6, 7));
    assert_eq!(cpu.bc(), 0x0203);
    assert_eq!(cpu.de(), 0x0405);
    assert_eq!(cpu.hl(), 0x0607);
    cpu.set_hl(0xABCD);
    assert_eq!((cpu.h(), cpu.l()), (0xAB, 0xCD));
    cpu.set_h(0x12);
    assert_eq!(cpu.hl(), 0x12CD);
    cpu.set_l(0x34);
    assert_eq!(cpu.hl(), 0x1234);
    cpu.set_f(0xFF);
    assert_eq!(cpu.f(), 0xF0);
    assert!(cpu.zero() && cpu.substract() && cpu.halfcarry() && cpu.carry());
    cpu.set_f(0x0F);
    assert_eq!(cpu.f(), 0x00);
    cpu.set_zero(true);
    assert_eq!(cpu.f(), 0x80);
    cpu.set_substract(true);
    assert_eq!(cpu.f(), 0xC0);
    cpu.set_halfcarry(true);
    assert_eq!(cpu.f(), 0xE0);
    cpu.set_carry(true);
    assert_eq!(cpu.f(), 0xF0);
    cpu.set_zero(false);
    assert_eq!(cpu.af(), 0x0170);
    cpu.set_sp(0x0000);
    cpu.push_byte(0x99);
    assert_eq!(cpu.sp(), 0xFFFF);
    assert_eq!(cpu.inter.fetch_byte(0xFFFF), 0x99);
    assert_eq!(cpu.pop_byte(), 0x99);
    assert_eq!(cpu.sp(), 0x0000);
    cpu.set_pc(0x1234);
    assert_eq!(cpu.pc(), 0x1234);
    cpu.load_pc(0x2345);
    assert_eq!(cpu.pc(), 0x2345);
    assert_eq!(cpu.instruction_cycles, 12);
    cpu.store_byte(0xC000, 0x42);
    assert_eq!(cpu.fetch_byte(0xC000), 0x42);
    assert_eq!(cpu.instruction_cycles, 20);
    cpu.delay(2);
    cpu.advance(3);
    assert_eq!(cpu.instruction_cycles, 31);
    assert_eq!(cpu.inter.clock(), 31);
    cpu.reset();
    assert_eq!(cpu.pc(), 0);
    assert_eq!(cpu.hl(), 0x1234);
    cpu.halt();
    assert!(cpu.halted);
    cpu.disable_interrupts();
    assert!(!cpu.iten && !cpu.iten_enable_next);
    cpu.enable_interrupts_next();
    assert!(!cpu.iten && cpu.iten_enable_next);
    cpu.enable_interrupts();
    assert!(cpu.iten);
    assert_eq!(cpu.stop(), Fatal::Stop);
}
