use nes::bus::Bus;
use nes::controller::{Controller, Keys};
use nes::cpu::Cpu;
use nes::ppu::{palette_color, Ppu};
use nes::rom::Rom;

fn fresh_bus() -> Bus {
    let mut data = vec![0x4E, 0x45, 0x53, 0x1A, 1, 0, 0, 0];
    data.extend_from_slice(&[0u8; 8]);
    data.extend(std::iter::repeat(0u8).take(0x4000));
    let rom = Rom::new(&data).unwrap();
    Bus::new(rom, Ppu::new(), Controller::new())
}

#[test]
fn frame_is_341_by_262_dots() {
    let mut ppu = Ppu::new();
    let total = 341 * 262;
    for i in 0..total {
        let end = ppu.step();
        assert_eq!(end, i == total - 1, "at dot {}", i);
    }
    assert_eq!(ppu.scanline, 0);
    assert_eq!(ppu.cycle, 0);
}

#[test]
fn odd_frame_skips_a_dot_when_rendering() {
    let mut ppu = Ppu::new();
    ppu.ppumask = 0x08;
    assert!(!ppu.even_frame);
    let total = 341 * 262 - 1;
    for i in 0..total {
        let end = ppu.step();
        assert_eq!(end, i == total - 1, "at dot {}", i);
    }
    assert_eq!(ppu.scanline, 0);
    assert_eq!(ppu.cycle, 0);
    assert!(ppu.even_frame);
}

#[test]
fn vblank_sets_at_scanline_241_cycle_1() {
    let mut ppu = Ppu::new();
    ppu.ppuctrl = 0x80;
    while !(ppu.scanline == 241 && ppu.cycle == 1) {
        ppu.step();
        assert_eq!(ppu.ppustatus & 0x80, 0);
    }
    ppu.step();
    assert_eq!(ppu.ppustatus & 0x80, 0x80);
    assert!(ppu.nmi_waiting);
}

#[test]
fn vblank_clears_on_pre_render_line() {
    let mut ppu = Ppu::new();
    while !(ppu.scanline == 241 && ppu.cycle == 1) {
        ppu.step();
    }
    ppu.step();
    assert_eq!(ppu.ppustatus & 0x80, 0x80);
    while !(ppu.scanline == 261 && ppu.cycle == 1) {
        ppu.step();
    }
    ppu.step();
    assert_eq!(ppu.ppustatus & 0x80, 0);
}

#[test]
fn status_read_latches_vblank_clear() {
    let mut bus = fresh_bus();
    bus.ppu.ppustatus = 0x80;
    bus.ppu.two_write_partial = true;
    let first = bus.get_byte_at(0x2002).unwrap();
    assert_eq!(first & 0x80, 0x80);
    assert!(!bus.ppu.two_write_partial);
    let second = bus.get_byte_at(0x2002).unwrap();
    assert_eq!(second & 0x80, 0);
}

#[test]
fn data_port_reads_are_buffered_below_the_palette() {
    let mut bus = fresh_bus();
    bus.ppu.set_vram_byte_at(0x2005, 0xAB);
    bus.ppu.set_vram_byte_at(0x2006, 0xCD);
    bus.ppu.ppuaddr = 0x2005;
    let first = bus.get_byte_at(0x2007).unwrap();
    let second = bus.get_byte_at(0x2007).unwrap();
    assert_eq!(first, 0x00);
    assert_eq!(second, 0xAB);
    assert_eq!(bus.ppu.ppuaddr, 0x2007);
}

#[test]
fn data_port_reads_palette_directly_but_reloads_buffer_underneath() {
    let mut bus = fresh_bus();
    bus.ppu.set_vram_byte_at(0x3F00, 0x2A);
    bus.ppu.set_vram_byte_at(0x2F00, 0x77);
    bus.ppu.ppuaddr = 0x3F00;
    let v = bus.get_byte_at(0x2007).unwrap();
    assert_eq!(v, 0x2A);
    assert_eq!(bus.ppu.ppudata_buffer, 0x77);
}

#[test]
fn data_port_increment_follows_control_bit_2() {
    let mut bus = fresh_bus();
    bus.ppu.ppuctrl = 0x04;
    bus.ppu.ppuaddr = 0x2000;
    bus.set_byte_at(0x2007, 0x55).unwrap();
    assert_eq!(bus.ppu.ppuaddr, 0x2020);
    assert_eq!(bus.ppu.get_vram_byte_at(0x2000), 0x55);
}

#[test]
fn palette_backdrop_mirrors_between_background_and_sprite_halves() {
    let mut ppu = Ppu::new();
    ppu.set_vram_byte_at(0x3F10, 0x31);
    assert_eq!(ppu.get_vram_byte_at(0x3F00), 0x31);
    ppu.set_vram_byte_at(0x3F04, 0x12);
    assert_eq!(ppu.get_vram_byte_at(0x3F14), 0x12);
}

#[test]
fn nametable_space_mirrors_a_page_below() {
    let mut ppu = Ppu::new();
    ppu.set_vram_byte_at(0x3123, 0x44);
    assert_eq!(ppu.get_vram_byte_at(0x2123), 0x44);
}

#[test]
fn horizontal_mirroring_collapses_bit_ten() {
    let mut data = vec![0x4E, 0x45, 0x53, 0x1A, 1, 0, 0, 0];
    data.extend_from_slice(&[0u8; 8]);
    data.extend(std::iter::repeat(0u8).take(0x4000));
    let rom = Rom::new(&data).unwrap();
    let mut bus = Bus::new(rom, Ppu::new(), Controller::new());
    bus.ppu.set_vram_byte_at(0x2400, 0x66);
    assert_eq!(bus.ppu.get_vram_byte_at(0x2000), 0x66);
}

#[test]
fn address_register_double_write_builds_v() {
    let mut bus = fresh_bus();
    bus.set_byte_at(0x2006, 0x21).unwrap();
    assert_eq!(bus.ppu.ppuaddr, 0x0000);
    bus.set_byte_at(0x2006, 0x08).unwrap();
    assert_eq!(bus.ppu.ppuaddr, 0x2108);
    assert!(!bus.ppu.two_write_partial);
}

#[test]
fn scroll_register_first_write_sets_coarse_and_fine_x() {
    let mut bus = fresh_bus();
    bus.set_byte_at(0x2005, 0x7D).unwrap();
    assert_eq!(bus.ppu.ppuscroll & 0x1F, 0x0F);
    assert_eq!(bus.ppu.fine_x, 0x05);
    assert!(bus.ppu.two_write_partial);
}

#[test]
fn control_write_selects_nametable_in_t() {
    let mut bus = fresh_bus();
    bus.set_byte_at(0x2000, 0x03).unwrap();
    assert_eq!(bus.ppu.ppuscroll & 0x0C00, 0x0C00);
}

#[test]
fn oam_data_write_increments_oam_address() {
    let mut bus = fresh_bus();
    bus.set_byte_at(0x2003, 0xFF).unwrap();
    bus.set_byte_at(0x2004, 0x12).unwrap();
    assert_eq!(bus.ppu.get_oam_byte_at(0xFF), 0x12);
    assert_eq!(bus.ppu.oamaddr, 0x00);
    let read_back = bus.get_byte_at(0x2004).unwrap();
    assert_eq!(read_back, bus.ppu.get_oam_byte_at(0x00));
}

#[test]
fn oam_dma_copies_a_ram_page() {
    let mut bus = fresh_bus();
    for i in 0..256u16 {
        bus.set_byte_at(0x0300 + i, (i as u8).wrapping_mul(3)).unwrap();
    }
    bus.set_byte_at(0x2003, 0x10).unwrap();
    bus.set_byte_at(0x4014, 0x03).unwrap();
    assert!(bus.dma_pending);
    for i in 0..256u16 {
        let dst = (0x10u8).wrapping_add(i as u8);
        assert_eq!(bus.ppu.get_oam_byte_at(dst), (i as u8).wrapping_mul(3));
    }
}

#[test]
fn dma_stall_charges_the_cpu() {
    let mut bus = fresh_bus();
    let mut cpu = Cpu::new();
    bus.dma_pending = true;
    cpu.step(&mut bus).unwrap();
    assert_eq!(cpu.cycles_left, 512);
    assert!(!bus.dma_pending);
}

#[test]
fn controller_reports_buttons_in_order() {
    let mut controller = Controller::new();
    let keys = Keys {
        a: true,
        b: false,
        select: false,
        start: true,
        up: false,
        down: true,
        left: false,
        right: true,
    };
    controller.set_strobe(true, &keys);
    controller.set_strobe(false, &keys);
    let expected = [true, false, false, true, false, true, false, true];
    for (i, want) in expected.iter().enumerate() {
        assert_eq!(controller.read(&keys), *want, "bit {}", i);
    }
    assert!(!controller.read(&keys));
}

#[test]
fn controller_port_reads_through_the_bus() {
    let mut bus = fresh_bus();
    let keys = Keys {
        a: true,
        b: true,
        select: false,
        start: false,
        up: false,
        down: false,
        left: false,
        right: false,
    };
    bus.set_keys(keys);
    bus.set_byte_at(0x4016, 1).unwrap();
    bus.set_byte_at(0x4016, 0).unwrap();
    assert_eq!(bus.get_byte_at(0x4016).unwrap(), 1);
    assert_eq!(bus.get_byte_at(0x4016).unwrap(), 1);
    assert_eq!(bus.get_byte_at(0x4016).unwrap(), 0);
}

#[test]
fn nmi_is_consumed_by_the_cpu() {
    let mut bus = fresh_bus();
    let mut cpu = Cpu::new();
    bus.set_byte_at(0x2000, 0x80).unwrap();
    while !(bus.ppu.scanline == 241 && bus.ppu.cycle == 1) {
        bus.ppu.step();
    }
    bus.ppu.step();
    assert_eq!(bus.ppu.ppustatus & 0x80, 0x80);
    assert!(bus.ppu.nmi_waiting);
    let status = bus.get_byte_at(0x2002).unwrap();
    assert_eq!(status & 0x80, 0x80);
    assert_eq!(bus.ppu.ppustatus & 0x80, 0);
    cpu.step(&mut bus).unwrap();
    assert!(!bus.ppu.nmi_waiting);
    assert!(cpu.interrupt);
    assert_eq!(cpu.cycles_left, 6);
}

#[test]
fn palette_lookup_matches_the_table() {
    assert_eq!(palette_color(0x00), (0x75, 0x75, 0x75));
    assert_eq!(palette_color(0x01), (0x27, 0x1B, 0x8F));
    assert_eq!(palette_color(0x20), (0xFF, 0xFF, 0xFF));
    assert_eq!(palette_color(0x3C), (0x9F, 0xFF, 0xF3));
    assert_eq!(palette_color(0x40), palette_color(0x00));
}

#[test]
fn backdrop_colour_lands_in_the_frame_buffer() {
    let mut ppu = Ppu::new();
    ppu.set_vram_byte_at(0x3F00, 0x21);
    ppu.step();
    ppu.step();
    assert_eq!(ppu.frame[0], 0x21);
}
