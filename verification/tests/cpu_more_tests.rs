use nes::bus::Bus;
use nes::controller::Controller;
use nes::cpu::Cpu;
use nes::ppu::Ppu;
use nes::rom::Rom;

fn fresh_bus() -> Bus {
    let mut data = vec![0x4E, 0x45, 0x53, 0x1A, 1, 0, 0, 0];
    data.extend_from_slice(&[0u8; 8]);
    data.extend(std::iter::repeat(0u8).take(0x4000));
    let rom = Rom::new(&data).unwrap();
    Bus::new(rom, Ppu::new(), Controller::new())
}

fn load_program(bus: &mut Bus, base: u16, bytes: &[u8]) {
    for (i, b) in bytes.iter().enumerate() {
        bus.set_byte_at(base + i as u16, *b).unwrap();
    }
}

fn run_instruction(cpu: &mut Cpu, bus: &mut Bus) -> u64 {
    let start = cpu.cycles_completed;
    cpu.step(bus).unwrap();
    while cpu.cycles_left > 0 {
        cpu.step(bus).unwrap();
    }
    cpu.cycles_completed - start
}

#[test]
fn bit_sets_flags_from_operand() {
    let mut bus = fresh_bus();
    let mut cpu = Cpu::new();
    bus.set_byte_at(0x0010, 0b1100_0000).unwrap();
    load_program(&mut bus, 0x0200, &[0x24, 0x10]);
    cpu.pc = 0x0200;
    cpu.accumulator = 0b0011_1111;
    run_instruction(&mut cpu, &mut bus);
    assert!(cpu.sign);
    assert!(cpu.overflow);
    assert!(cpu.zero);
}

#[test]
fn pla_pulls_and_sets_flags() {
    let mut bus = fresh_bus();
    let mut cpu = Cpu::new();
    load_program(&mut bus, 0x0200, &[0x48, 0x68]);
    cpu.pc = 0x0200;
    cpu.sp = 0xF0;
    cpu.accumulator = 0x80;
    run_instruction(&mut cpu, &mut bus);
    cpu.accumulator = 0x01;
    run_instruction(&mut cpu, &mut bus);
    assert_eq!(cpu.accumulator, 0x80);
    assert!(cpu.sign);
    assert!(!cpu.zero);
    assert_eq!(cpu.sp, 0xF0);
}

#[test]
fn rti_restores_flags_and_pc_without_increment() {
    let mut bus = fresh_bus();
    let mut cpu = Cpu::new();
    // Hand-build the frame an interrupt leaves: status, then pc.
    bus.set_byte_at(0x01FD, 0b0010_0011).unwrap();
    bus.set_byte_at(0x01FE, 0x45).unwrap();
    bus.set_byte_at(0x01FF, 0x03).unwrap();
    load_program(&mut bus, 0x0200, &[0x40]);
    cpu.pc = 0x0200;
    cpu.sp = 0xFC;
    let cycles = run_instruction(&mut cpu, &mut bus);
    assert_eq!(cpu.pc, 0x0345);
    assert!(cpu.carry);
    assert!(cpu.zero);
    assert!(!cpu.sign);
    assert_eq!(cpu.sp, 0xFF);
    assert_eq!(cycles, 6);
}

#[test]
fn lax_loads_accumulator_and_x() {
    let mut bus = fresh_bus();
    let mut cpu = Cpu::new();
    bus.set_byte_at(0x0010, 0xC3).unwrap();
    load_program(&mut bus, 0x0200, &[0xA7, 0x10]);
    cpu.pc = 0x0200;
    run_instruction(&mut cpu, &mut bus);
    assert_eq!(cpu.accumulator, 0xC3);
    assert_eq!(cpu.x, 0xC3);
    assert!(cpu.sign);
}

#[test]
fn sax_stores_a_and_x() {
    let mut bus = fresh_bus();
    let mut cpu = Cpu::new();
    load_program(&mut bus, 0x0200, &[0x87, 0x10]);
    cpu.pc = 0x0200;
    cpu.accumulator = 0b1100_1100;
    cpu.x = 0b1010_1010;
    run_instruction(&mut cpu, &mut bus);
    assert_eq!(bus.read_plain(0x0010), 0b1000_1000);
}

#[test]
fn dcp_decrements_then_compares() {
    let mut bus = fresh_bus();
    let mut cpu = Cpu::new();
    bus.set_byte_at(0x0010, 0x41).unwrap();
    load_program(&mut bus, 0x0200, &[0xC7, 0x10]);
    cpu.pc = 0x0200;
    cpu.accumulator = 0x40;
    run_instruction(&mut cpu, &mut bus);
    assert_eq!(bus.read_plain(0x0010), 0x40);
    assert!(cpu.zero);
    assert!(cpu.carry);
}

#[test]
fn isc_increments_then_subtracts() {
    let mut bus = fresh_bus();
    let mut cpu = Cpu::new();
    bus.set_byte_at(0x0010, 0x0F).unwrap();
    load_program(&mut bus, 0x0200, &[0xE7, 0x10]);
    cpu.pc = 0x0200;
    cpu.accumulator = 0x30;
    cpu.carry = true;
    run_instruction(&mut cpu, &mut bus);
    assert_eq!(bus.read_plain(0x0010), 0x10);
    assert_eq!(cpu.accumulator, 0x20);
}

#[test]
fn rol_and_ror_move_the_carry() {
    let mut bus = fresh_bus();
    let mut cpu = Cpu::new();
    load_program(&mut bus, 0x0200, &[0x2A, 0x6A]);
    cpu.pc = 0x0200;
    cpu.accumulator = 0b1000_0000;
    cpu.carry = false;
    run_instruction(&mut cpu, &mut bus);
    assert_eq!(cpu.accumulator, 0x00);
    assert!(cpu.carry);
    assert!(cpu.zero);
    run_instruction(&mut cpu, &mut bus);
    assert_eq!(cpu.accumulator, 0x80);
    assert!(!cpu.carry);
    assert!(cpu.sign);
}

#[test]
fn inc_and_dec_wrap_in_memory() {
    let mut bus = fresh_bus();
    let mut cpu = Cpu::new();
    bus.set_byte_at(0x0010, 0xFF).unwrap();
    load_program(&mut bus, 0x0200, &[0xE6, 0x10, 0xC6, 0x10]);
    cpu.pc = 0x0200;
    run_instruction(&mut cpu, &mut bus);
    assert_eq!(bus.read_plain(0x0010), 0x00);
    assert!(cpu.zero);
    run_instruction(&mut cpu, &mut bus);
    assert_eq!(bus.read_plain(0x0010), 0xFF);
    assert!(cpu.sign);
}

#[test]
fn three_byte_nop_advances_pc_and_costs_four_cycles() {
    let mut bus = fresh_bus();
    let mut cpu = Cpu::new();
    load_program(&mut bus, 0x0200, &[0x1C, 0x00, 0x03]);
    cpu.pc = 0x0200;
    let cycles = run_instruction(&mut cpu, &mut bus);
    assert_eq!(cpu.pc, 0x0203);
    assert_eq!(cycles, 4);
}

#[test]
fn three_byte_nop_charges_the_page_cross_adder() {
    let mut bus = fresh_bus();
    let mut cpu = Cpu::new();
    load_program(&mut bus, 0x0200, &[0x1C, 0xF0, 0x02]);
    cpu.pc = 0x0200;
    // 0x02F0 + X = 0x0310 crosses into the next page.
    cpu.x = 0x20;
    let cycles = run_instruction(&mut cpu, &mut bus);
    assert_eq!(cpu.pc, 0x0203);
    assert_eq!(cycles, 5);
}

#[test]
fn brk_vectors_through_irq_and_sets_interrupt_disable() {
    let mut bus = fresh_bus();
    let mut cpu = Cpu::new();
    load_program(&mut bus, 0x0200, &[0x00]);
    cpu.pc = 0x0200;
    cpu.sp = 0xFD;
    let cycles = run_instruction(&mut cpu, &mut bus);
    // The IRQ vector in this blank image is zero.
    assert_eq!(cpu.pc, 0x0000);
    assert!(cpu.interrupt);
    assert_eq!(cpu.sp, 0xFA);
    // Return address past the padding byte: opcode at 0x0200 pushes 0x0202.
    assert_eq!(bus.read_plain(0x01FD), 0x02);
    assert_eq!(bus.read_plain(0x01FC), 0x02);
    // The pushed status byte shows the break bit and bit 5.
    assert_eq!(bus.read_plain(0x01FB) & 0b0011_0000, 0b0011_0000);
    assert_eq!(cycles, 7);
}

#[test]
fn load_from_write_only_register_stops_with_a_bus_fault() {
    let mut bus = fresh_bus();
    let mut cpu = Cpu::new();
    load_program(&mut bus, 0x0200, &[0xAD, 0x05, 0x20]);
    cpu.pc = 0x0200;
    assert_eq!(
        cpu.step(&mut bus),
        Err(nes::cpu::CpuError::Bus(nes::bus::BusError::ReadFault(
            0x2005
        )))
    );
}

#[test]
fn zero_page_x_wraps_within_page_zero() {
    let mut bus = fresh_bus();
    let mut cpu = Cpu::new();
    bus.set_byte_at(0x0001, 0x5C).unwrap();
    load_program(&mut bus, 0x0200, &[0xB5, 0xF1]);
    cpu.pc = 0x0200;
    cpu.x = 0x10;
    run_instruction(&mut cpu, &mut bus);
    assert_eq!(cpu.accumulator, 0x5C);
}
