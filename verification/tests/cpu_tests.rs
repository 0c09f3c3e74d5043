use nes::bus::{Bus, BusError};
use nes::controller::Controller;
use nes::cpu::{Cpu, CpuError};
use nes::ppu::Ppu;
use nes::rom::Rom;

fn fresh_bus() -> Bus {
    let mut data = vec![0x4E, 0x45, 0x53, 0x1A, 1, 0, 0, 0];
    data.extend_from_slice(&[0u8; 8]);
    data.extend(std::iter::repeat(0u8).take(0x4000));
    let rom = Rom::new(&data).unwrap();
    Bus::new(rom, Ppu::new(), Controller::new())
}

fn load_program(bus: &mut Bus, base: u16, bytes: &[u8]) {
    for (i, b) in bytes.iter().enumerate() {
        bus.set_byte_at(base + i as u16, *b).unwrap();
    }
}

/// Runs exactly one instruction (the first step executes it, the rest
/// burn its remaining cycles) and returns the cycles it consumed.
fn run_instruction(cpu: &mut Cpu, bus: &mut Bus) -> u64 {
    let start = cpu.cycles_completed;
    cpu.step(bus).unwrap();
    while cpu.cycles_left > 0 {
        cpu.step(bus).unwrap();
    }
    cpu.cycles_completed - start
}

#[test]
fn lda_immediate_sets_zero_flag() {
    let mut bus = fresh_bus();
    let mut cpu = Cpu::new();
    load_program(&mut bus, 0x0200, &[0xA9, 0x00]);
    cpu.pc = 0x0200;
    cpu.accumulator = 0x7F;
    let cycles = run_instruction(&mut cpu, &mut bus);
    assert_eq!(cpu.accumulator, 0x00);
    assert!(cpu.zero);
    assert!(!cpu.sign);
    assert_eq!(cycles, 2);
}

#[test]
fn adc_with_carry_in_overflows_into_sign() {
    let mut bus = fresh_bus();
    let mut cpu = Cpu::new();
    load_program(&mut bus, 0x0200, &[0x69, 0x3F]);
    cpu.pc = 0x0200;
    cpu.accumulator = 0x40;
    cpu.carry = true;
    let cycles = run_instruction(&mut cpu, &mut bus);
    assert_eq!(cpu.accumulator, 0x80);
    assert!(!cpu.carry);
    assert!(!cpu.zero);
    assert!(cpu.sign);
    assert!(cpu.overflow);
    assert_eq!(cycles, 2);
}

#[test]
fn sbc_without_borrow() {
    let mut bus = fresh_bus();
    let mut cpu = Cpu::new();
    load_program(&mut bus, 0x0200, &[0xE9, 0x10]);
    cpu.pc = 0x0200;
    cpu.accumulator = 0x50;
    cpu.carry = true;
    run_instruction(&mut cpu, &mut bus);
    assert_eq!(cpu.accumulator, 0x40);
    assert!(cpu.carry);
}

#[test]
fn taken_branch_with_page_cross_costs_four_cycles() {
    let mut bus = fresh_bus();
    let mut cpu = Cpu::new();
    load_program(&mut bus, 0x01FC, &[0xF0, 0x10]);
    cpu.pc = 0x01FC;
    cpu.zero = true;
    let cycles = run_instruction(&mut cpu, &mut bus);
    assert_eq!(cpu.pc, 0x020E);
    assert_eq!(cycles, 4);
}

#[test]
fn untaken_branch_costs_two_cycles() {
    let mut bus = fresh_bus();
    let mut cpu = Cpu::new();
    load_program(&mut bus, 0x0200, &[0xF0, 0x10]);
    cpu.pc = 0x0200;
    cpu.zero = false;
    let cycles = run_instruction(&mut cpu, &mut bus);
    assert_eq!(cpu.pc, 0x0202);
    assert_eq!(cycles, 2);
}

#[test]
fn lda_absolute_x_page_cross_adds_a_cycle() {
    let mut bus = fresh_bus();
    let mut cpu = Cpu::new();
    load_program(&mut bus, 0x0200, &[0xBD, 0xFF, 0x02]);
    bus.set_byte_at(0x0300, 0x5A).unwrap();
    cpu.pc = 0x0200;
    cpu.x = 0x01;
    let cycles = run_instruction(&mut cpu, &mut bus);
    assert_eq!(cpu.accumulator, 0x5A);
    assert_eq!(cycles, 5);
}

#[test]
fn jmp_indirect_page_boundary_bug() {
    let mut bus = fresh_bus();
    let mut cpu = Cpu::new();
    bus.set_byte_at(0x02FF, 0x80).unwrap();
    bus.set_byte_at(0x0200, 0x40).unwrap();
    bus.set_byte_at(0x0300, 0x11).unwrap();
    load_program(&mut bus, 0x0400, &[0x6C, 0xFF, 0x02]);
    cpu.pc = 0x0400;
    run_instruction(&mut cpu, &mut bus);
    assert_eq!(cpu.pc, 0x4080);
}

#[test]
fn jsr_rts_restores_stack_and_return_point() {
    let mut bus = fresh_bus();
    let mut cpu = Cpu::new();
    load_program(&mut bus, 0x0200, &[0x20, 0x00, 0x03]);
    load_program(&mut bus, 0x0300, &[0x60]);
    cpu.pc = 0x0200;
    cpu.sp = 0xFD;
    let jsr_cycles = run_instruction(&mut cpu, &mut bus);
    assert_eq!(cpu.pc, 0x0300);
    assert_eq!(cpu.sp, 0xFB);
    let rts_cycles = run_instruction(&mut cpu, &mut bus);
    assert_eq!(cpu.pc, 0x0203);
    assert_eq!(cpu.sp, 0xFD);
    assert_eq!(jsr_cycles, 6);
    assert_eq!(rts_cycles, 6);
}

#[test]
fn php_plp_round_trip_preserves_flags() {
    let mut bus = fresh_bus();
    let mut cpu = Cpu::new();
    load_program(&mut bus, 0x0200, &[0x08, 0x28]);
    cpu.pc = 0x0200;
    cpu.sp = 0xFD;
    cpu.carry = true;
    cpu.zero = false;
    cpu.interrupt = true;
    cpu.decimal = false;
    cpu.overflow = true;
    cpu.sign = false;
    run_instruction(&mut cpu, &mut bus);
    // The physical byte on the stack shows the break bit and bit 5.
    assert_eq!(bus.read_plain(0x01FD), 0b0111_0101);
    run_instruction(&mut cpu, &mut bus);
    assert!(cpu.carry);
    assert!(!cpu.zero);
    assert!(cpu.interrupt);
    assert!(!cpu.decimal);
    assert!(cpu.overflow);
    assert!(!cpu.sign);
    assert_eq!(cpu.sp, 0xFD);
}

#[test]
fn asl_memory_sets_carry_from_bit_seven() {
    let mut bus = fresh_bus();
    let mut cpu = Cpu::new();
    load_program(&mut bus, 0x0200, &[0x06, 0x10]);
    bus.set_byte_at(0x0010, 0x81).unwrap();
    cpu.pc = 0x0200;
    let cycles = run_instruction(&mut cpu, &mut bus);
    assert_eq!(bus.read_plain(0x0010), 0x02);
    assert!(cpu.carry);
    assert!(!cpu.zero);
    assert_eq!(cycles, 5);
}

#[test]
fn indirect_y_addressing_reads_through_zero_page() {
    let mut bus = fresh_bus();
    let mut cpu = Cpu::new();
    bus.set_byte_at(0x0040, 0x00).unwrap();
    bus.set_byte_at(0x0041, 0x03).unwrap();
    bus.set_byte_at(0x0305, 0x99).unwrap();
    load_program(&mut bus, 0x0200, &[0xB1, 0x40]);
    cpu.pc = 0x0200;
    cpu.y = 0x05;
    run_instruction(&mut cpu, &mut bus);
    assert_eq!(cpu.accumulator, 0x99);
}

#[test]
fn cmp_sets_carry_zero_and_sign() {
    let mut bus = fresh_bus();
    let mut cpu = Cpu::new();
    load_program(&mut bus, 0x0200, &[0xC9, 0x30]);
    cpu.pc = 0x0200;
    cpu.accumulator = 0x20;
    run_instruction(&mut cpu, &mut bus);
    assert!(!cpu.carry);
    assert!(!cpu.zero);
    assert!(cpu.sign);
}

#[test]
fn unknown_opcode_reports_pc_and_byte() {
    let mut bus = fresh_bus();
    let mut cpu = Cpu::new();
    load_program(&mut bus, 0x0200, &[0x02]);
    cpu.pc = 0x0200;
    assert_eq!(
        cpu.step(&mut bus),
        Err(CpuError::UnknownOpcode(0x0200, 0x02))
    );
}

#[test]
fn read_of_write_only_register_faults() {
    let mut bus = fresh_bus();
    assert_eq!(bus.get_byte_at(0x2000), Err(BusError::ReadFault(0x2000)));
    assert_eq!(bus.get_byte_at(0x5000), Err(BusError::ReadFault(0x5000)));
    assert_eq!(bus.get_byte_at(0x4000), Ok(0));
    assert_eq!(bus.set_byte_at(0x2002, 1), Err(BusError::WriteFault(0x2002)));
    assert_eq!(bus.set_byte_at(0x9000, 1), Err(BusError::WriteFault(0x9000)));
}

#[test]
fn stack_pointer_wraps_silently() {
    let mut bus = fresh_bus();
    let mut cpu = Cpu::new();
    load_program(&mut bus, 0x0200, &[0x48]);
    cpu.pc = 0x0200;
    cpu.sp = 0x00;
    cpu.accumulator = 0x77;
    run_instruction(&mut cpu, &mut bus);
    assert_eq!(cpu.sp, 0xFF);
    assert_eq!(bus.read_plain(0x0100), 0x77);
}
