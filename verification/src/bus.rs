//! Memory bus: decodes the CPU's 16-bit address space onto work RAM,
//! the PPU register window, the I/O and DMA band, the controller port
//! and program ROM, with the side effects each register carries.
//!
//! Reads from write-only registers, reads of unmapped space and writes
//! to read-only space are bus faults and are reported as errors; the
//! caller decides whether to abort on them.

use vstd::prelude::*;

use crate::controller::{Controller, Keys};
use crate::ppu;
use crate::ppu::{vram_peek, Ppu};
use crate::rom::Rom;

verus! {

/// A faulting access and the address that caused it.
#[derive(Clone, Copy, Debug, PartialEq, Eq, Structural)]
pub enum BusError {
    ReadFault(u16),
    WriteFault(u16),
}

/// The memory controller. Owns the work RAM, the cartridge, the PPU
/// and the controller, plus the latest host key snapshot that the
/// controller port samples.
pub struct Bus {
    pub ram: Vec<u8>,
    pub rom: Rom,
    pub ppu: Ppu,
    pub controller: Controller,
    pub dma_pending: bool,
    pub keys: Keys,
}

/// The PPU register the mirrored window maps an address to.
pub open spec fn ppu_reg_of(a: u16) -> u16 {
    (((a - 0x2000) % 8) + 0x2000) as u16
}

/// Addresses whose reads have no side effect and cannot fault: work
/// RAM and program ROM.
pub open spec fn plain_addr(a: u16) -> bool {
    a < 0x2000 || a >= 0x8000
}

/// Addresses a read may legally touch. Write-only PPU registers, the
/// DMA trigger and the unmapped band fault.
pub open spec fn bus_readable(a: u16) -> bool {
    if a < 0x2000 {
        true
    } else if a < 0x4000 {
        ppu_reg_of(a) == 0x2002 || ppu_reg_of(a) == 0x2004 || ppu_reg_of(a) == 0x2007
    } else if a <= 0x4013 {
        true
    } else if a == 0x4014 {
        false
    } else if a <= 0x4017 {
        true
    } else if a < 0x8000 {
        false
    } else {
        true
    }
}

/// Index into program ROM for a CPU address, mirroring a single
/// 16 KiB bank across the whole upper half.
pub open spec fn rom_index(b: Bus, a: u16) -> int {
    if b.rom.prg_rom@.len() <= 0x4000 {
        (a - 0x8000) % 0x4000
    } else {
        a - 0x8000
    }
}

/// Step the data-port address by 1 or 32 per control bit 2.
pub open spec fn vram_step(p: Ppu) -> u16 {
    if p.ppuctrl & 0x04u8 == 0u8 {
        1u16
    } else {
        0x20u16
    }
}

/// The byte a read observes, before its side effects land.
pub open spec fn bus_peek(b: Bus, a: u16) -> u8 {
    if a < 0x2000 {
        b.ram@[(a % 0x800) as int]
    } else if a < 0x4000 {
        if ppu_reg_of(a) == 0x2002 {
            b.ppu.ppustatus
        } else if ppu_reg_of(a) == 0x2004 {
            b.ppu.oam@[b.ppu.oamaddr as int]
        } else if ppu_reg_of(a) == 0x2007 {
            if b.ppu.ppuaddr % 0x4000 < 0x3F00 {
                b.ppu.ppudata_buffer
            } else {
                vram_peek(b.ppu, b.ppu.ppuaddr)
            }
        } else {
            0u8
        }
    } else if a == 0x4016 {
        if b.controller.strobe {
            if b.keys.a {
                1u8
            } else {
                0u8
            }
        } else if b.controller.state@.len() > 0 {
            if b.controller.state@.last() {
                1u8
            } else {
                0u8
            }
        } else {
            0u8
        }
    } else if a < 0x8000 {
        0u8
    } else {
        b.rom.prg_rom@[rom_index(b, a)]
    }
}

/// Cartridge fields agree.
pub open spec fn rom_eq(a: Rom, b: Rom) -> bool {
    &&& a.prg_rom@ == b.prg_rom@
    &&& a.chr_rom@ == b.chr_rom@
    &&& a.mapper_number == b.mapper_number
    &&& a.mirroring == b.mirroring
    &&& a.battery_backed_ram == b.battery_backed_ram
    &&& a.trainer == b.trainer
}

/// Controller latch state agrees.
pub open spec fn controller_eq(a: Controller, b: Controller) -> bool {
    &&& a.strobe == b.strobe
    &&& a.state@ == b.state@
}

/// Everything but the PPU agrees.
pub open spec fn bus_env_eq(a: Bus, b: Bus) -> bool {
    &&& a.ram@ == b.ram@
    &&& rom_eq(a.rom, b.rom)
    &&& controller_eq(a.controller, b.controller)
    &&& a.dma_pending == b.dma_pending
    &&& a.keys == b.keys
}

/// The whole bus agrees.
pub open spec fn bus_eq(a: Bus, b: Bus) -> bool {
    &&& bus_env_eq(a, b)
    &&& ppu::ppu_eq(a.ppu, b.ppu)
}

/// How a successful read at `a` changes the bus: the status read
/// clears vblank and the write toggle, the OAM-data read is free of
/// side effects, the data-port read reloads the buffer and steps the
/// VRAM address, and the controller read shifts the latch.
pub open spec fn read_rel(b0: Bus, b1: Bus, a: u16) -> bool {
    if a < 0x2000 || (0x4000 <= a <= 0x4015) || a == 0x4017 || a >= 0x8000 {
        bus_eq(b0, b1)
    } else if a < 0x4000 {
        if ppu_reg_of(a) == 0x2002 {
            &&& bus_env_eq(b0, b1)
            &&& b1.ppu.ppustatus == b0.ppu.ppustatus & 0x7Fu8
            &&& b1.ppu.two_write_partial == false
            &&& b1.ppu.ppuctrl == b0.ppu.ppuctrl
            &&& b1.ppu.ppumask == b0.ppu.ppumask
            &&& b1.ppu.oamaddr == b0.ppu.oamaddr
            &&& b1.ppu.ppudata_buffer == b0.ppu.ppudata_buffer
            &&& b1.ppu.ppuscroll == b0.ppu.ppuscroll
            &&& b1.ppu.ppuaddr == b0.ppu.ppuaddr
            &&& b1.ppu.fine_x == b0.ppu.fine_x
            &&& ppu::scan_eq(b0.ppu, b1.ppu)
            &&& ppu::mem_eq(b0.ppu, b1.ppu)
            &&& ppu::pipe_eq(b0.ppu, b1.ppu)
        } else if ppu_reg_of(a) == 0x2004 {
            bus_eq(b0, b1)
        } else if ppu_reg_of(a) == 0x2007 {
            &&& bus_env_eq(b0, b1)
            &&& b1.ppu.ppudata_buffer == (if b0.ppu.ppuaddr % 0x4000 < 0x3F00 {
                vram_peek(b0.ppu, b0.ppu.ppuaddr)
            } else {
                vram_peek(b0.ppu, (b0.ppu.ppuaddr - 0x1000) as u16)
            })
            &&& b1.ppu.ppuaddr == ((b0.ppu.ppuaddr + vram_step(b0.ppu)) % 0x10000) as u16
            &&& b1.ppu.ppuctrl == b0.ppu.ppuctrl
            &&& b1.ppu.ppumask == b0.ppu.ppumask
            &&& b1.ppu.ppustatus == b0.ppu.ppustatus
            &&& b1.ppu.oamaddr == b0.ppu.oamaddr
            &&& b1.ppu.ppuscroll == b0.ppu.ppuscroll
            &&& b1.ppu.fine_x == b0.ppu.fine_x
            &&& b1.ppu.two_write_partial == b0.ppu.two_write_partial
            &&& ppu::scan_eq(b0.ppu, b1.ppu)
            &&& ppu::mem_eq(b0.ppu, b1.ppu)
            &&& ppu::pipe_eq(b0.ppu, b1.ppu)
        } else {
            true
        }
    } else if a == 0x4016 {
        &&& b1.ram@ == b0.ram@
        &&& rom_eq(b0.rom, b1.rom)
        &&& ppu::ppu_eq(b0.ppu, b1.ppu)
        &&& b1.dma_pending == b0.dma_pending
        &&& b1.keys == b0.keys
        &&& b1.controller.strobe == b0.controller.strobe
        &&& b1.controller.state@ == (if !b0.controller.strobe && b0.controller.state@.len() > 0 {
            b0.controller.state@.drop_last()
        } else {
            b0.controller.state@
        })
    } else {
        true
    }
}

impl Bus {
    /// The structural invariant: 2 KiB of work RAM, a well-formed PPU,
    /// and a one- or two-bank program ROM as the trivial mapper lays
    /// it out.
    pub open spec fn wf(self) -> bool {
        &&& self.ram@.len() == 0x800
        &&& self.ppu.wf()
        &&& (self.rom.prg_rom@.len() == 0x4000 || self.rom.prg_rom@.len() == 0x8000)
    }

    /// Wires a parsed cartridge, a PPU and a controller together:
    /// clears the work RAM, copies character ROM into the pattern
    /// tables, and hands the PPU the cartridge's mirroring mode.
    pub fn new(rom: Rom, ppu: Ppu, controller: Controller) -> (r: Bus)
        requires
            ppu.wf(),
            rom.prg_rom@.len() == 0x4000 || rom.prg_rom@.len() == 0x8000,
            rom.chr_rom@.len() <= 0x4000,
        ensures
            r.wf(),
            forall|i: int| 0 <= i < 0x800 ==> r.ram@[i] == 0u8,
            rom_eq(r.rom, rom),
            controller_eq(r.controller, controller),
            r.dma_pending == false,
            r.keys == (Keys {
                a: false,
                b: false,
                select: false,
                start: false,
                up: false,
                down: false,
                left: false,
                right: false,
            }),
            r.ppu.vram@.len() == 0x4000,
            forall|i: int| 0 <= i < rom.chr_rom@.len() ==> r.ppu.vram@[i] == rom.chr_rom@[i],
            forall|i: int|
                rom.chr_rom@.len() <= i < 0x4000 ==> r.ppu.vram@[i] == ppu.vram@[i],
            r.ppu.mirror_type == rom.mirroring,
            ppu::regs_eq(r.ppu, ppu),
            ppu::scan_eq(r.ppu, ppu),
            ppu::pipe_eq(r.ppu, ppu),
            r.ppu.oam@ == ppu.oam@,
            r.ppu.frame@ == ppu.frame@,
    {
        let mut b = Bus {
            ram: ppu::zeroed_bytes(0x800),
            rom,
            ppu,
            controller,
            dma_pending: false,
            keys: Keys::none(),
        };
        b.ppu.mirror_type = b.rom.mirroring;
        let n = b.rom.chr_rom.len();
        let mut i: usize = 0;
        while i < n
            invariant
                i <= n,
                n == b.rom.chr_rom@.len(),
                n <= 0x4000,
                b.ppu.vram@.len() == 0x4000,
                forall|j: int| 0 <= j < i ==> b.ppu.vram@[j] == b.rom.chr_rom@[j],
                forall|j: int| i <= j < 0x4000 ==> b.ppu.vram@[j] == ppu.vram@[j],
                rom_eq(b.rom, rom),
                controller_eq(b.controller, controller),
                b.dma_pending == false,
                b.keys == (Keys {
                    a: false,
                    b: false,
                    select: false,
                    start: false,
                    up: false,
                    down: false,
                    left: false,
                    right: false,
                }),
                b.ram@.len() == 0x800,
                forall|j: int| 0 <= j < 0x800 ==> b.ram@[j] == 0u8,
                b.ppu.mirror_type == rom.mirroring,
                ppu::regs_eq(b.ppu, ppu),
                ppu::scan_eq(b.ppu, ppu),
                ppu::pipe_eq(b.ppu, ppu),
                b.ppu.oam@ == ppu.oam@,
                b.ppu.frame@ == ppu.frame@,
                b.ppu.wf(),
            decreases n - i,
        {
            let v = b.rom.chr_rom[i];
            b.ppu.vram.set(i, v);
            i = i + 1;
        }
        b
    }

    /// Records the latest host key snapshot for the controller port.
    pub fn set_keys(&mut self, keys: Keys)
        ensures
            final(self).keys == keys,
            final(self).ram@ == old(self).ram@,
            rom_eq(final(self).rom, old(self).rom),
            ppu::ppu_eq(final(self).ppu, old(self).ppu),
            controller_eq(final(self).controller, old(self).controller),
            final(self).dma_pending == old(self).dma_pending,
            old(self).wf() ==> final(self).wf(),
    {
        self.keys = keys;
    }

    /// Reads a byte from work RAM or program ROM, with no side effect.
    pub fn read_plain(&self, addr: u16) -> (r: u8)
        requires
            self.wf(),
            plain_addr(addr),
        ensures
            r == bus_peek(*self, addr),
    {
        if addr < 0x2000 {
            self.ram[(addr % 0x800) as usize]
        } else {
            let mut rom_access_addr = addr - 0x8000;
            if self.rom.prg_rom.len() <= 0x4000 {
                rom_access_addr = rom_access_addr % 0x4000;
            }
            self.rom.prg_rom[rom_access_addr as usize]
        }
    }
}

/// A DMA source page that lies in RAM or ROM, where bulk reads are
/// free of side effects.
pub open spec fn dma_page_plain(val: u8) -> bool {
    val < 0x20 || val >= 0x80
}

/// Addresses a write may legally touch with this value. The status
/// register and program ROM are read-only; a DMA trigger must name a
/// RAM or ROM source page.
pub open spec fn bus_writable(a: u16, val: u8) -> bool {
    if a < 0x2000 {
        true
    } else if a < 0x4000 {
        ppu_reg_of(a) != 0x2002
    } else if a == 0x4014 {
        dma_page_plain(val)
    } else if a < 0x8000 {
        true
    } else {
        false
    }
}

/// The PPU fields no register write touches: scan position, pipeline,
/// frame buffer and mirroring.
pub open spec fn ppu_quiet_eq(a: Ppu, b: Ppu) -> bool {
    &&& ppu::scan_eq(a, b)
    &&& ppu::pipe_eq(a, b)
    &&& a.frame@ == b.frame@
    &&& a.mirror_type == b.mirror_type
}

/// A control write: stores the value and copies its low two bits into
/// the nametable-select bits of `t`.
pub open spec fn wr_ctrl(p0: Ppu, p1: Ppu, val: u8) -> bool {
    &&& p1.ppuctrl == val
    &&& p1.ppuscroll == (p0.ppuscroll & 0xF3FFu16) | (((val as u16) << 10u16) & 0x0C00u16)
    &&& p1.ppumask == p0.ppumask
    &&& p1.ppustatus == p0.ppustatus
    &&& p1.oamaddr == p0.oamaddr
    &&& p1.ppudata_buffer == p0.ppudata_buffer
    &&& p1.ppuaddr == p0.ppuaddr
    &&& p1.fine_x == p0.fine_x
    &&& p1.two_write_partial == p0.two_write_partial
    &&& p1.vram@ == p0.vram@
    &&& p1.oam@ == p0.oam@
}

/// A mask write: stores the value.
pub open spec fn wr_mask(p0: Ppu, p1: Ppu, val: u8) -> bool {
    &&& p1.ppumask == val
    &&& p1.ppuctrl == p0.ppuctrl
    &&& p1.ppustatus == p0.ppustatus
    &&& p1.oamaddr == p0.oamaddr
    &&& p1.ppudata_buffer == p0.ppudata_buffer
    &&& p1.ppuscroll == p0.ppuscroll
    &&& p1.ppuaddr == p0.ppuaddr
    &&& p1.fine_x == p0.fine_x
    &&& p1.two_write_partial == p0.two_write_partial
    &&& p1.vram@ == p0.vram@
    &&& p1.oam@ == p0.oam@
}

/// An OAM-address write: stores the value.
pub open spec fn wr_oamaddr(p0: Ppu, p1: Ppu, val: u8) -> bool {
    &&& p1.oamaddr == val
    &&& p1.ppuctrl == p0.ppuctrl
    &&& p1.ppumask == p0.ppumask
    &&& p1.ppustatus == p0.ppustatus
    &&& p1.ppudata_buffer == p0.ppudata_buffer
    &&& p1.ppuscroll == p0.ppuscroll
    &&& p1.ppuaddr == p0.ppuaddr
    &&& p1.fine_x == p0.fine_x
    &&& p1.two_write_partial == p0.two_write_partial
    &&& p1.vram@ == p0.vram@
    &&& p1.oam@ == p0.oam@
}

/// An OAM-data write: stores at the OAM address, which increments.
pub open spec fn wr_oamdata(p0: Ppu, p1: Ppu, val: u8) -> bool {
    &&& p1.oam@ == p0.oam@.update(p0.oamaddr as int, val)
    &&& p1.oamaddr == ((p0.oamaddr + 1) % 256) as u8
    &&& p1.ppuctrl == p0.ppuctrl
    &&& p1.ppumask == p0.ppumask
    &&& p1.ppustatus == p0.ppustatus
    &&& p1.ppudata_buffer == p0.ppudata_buffer
    &&& p1.ppuscroll == p0.ppuscroll
    &&& p1.ppuaddr == p0.ppuaddr
    &&& p1.fine_x == p0.fine_x
    &&& p1.two_write_partial == p0.two_write_partial
    &&& p1.vram@ == p0.vram@
}

/// A scroll write: the first write sets coarse x in `t` and fine x,
/// the second sets fine y and coarse y; the toggle flips.
pub open spec fn wr_scroll(p0: Ppu, p1: Ppu, val: u8) -> bool {
    &&& if !p0.two_write_partial {
        &&& p1.ppuscroll == (p0.ppuscroll & 0xFFE0u16) | ((val as u16) >> 3u16)
        &&& p1.fine_x == val & 0x7u8
    } else {
        &&& p1.ppuscroll == ((p0.ppuscroll & 0x8C1Fu16) | (((val as u16) & 0x7u16) << 12u16)) | ((
        (val as u16) & 0xF8u16) << 2u16)
        &&& p1.fine_x == p0.fine_x
    }
    &&& p1.two_write_partial == !p0.two_write_partial
    &&& p1.ppuctrl == p0.ppuctrl
    &&& p1.ppumask == p0.ppumask
    &&& p1.ppustatus == p0.ppustatus
    &&& p1.oamaddr == p0.oamaddr
    &&& p1.ppudata_buffer == p0.ppudata_buffer
    &&& p1.ppuaddr == p0.ppuaddr
    &&& p1.vram@ == p0.vram@
    &&& p1.oam@ == p0.oam@
}

/// An address write: the first write sets the high six bits of `t`
/// and clears its top bit, the second sets the low byte and copies `t`
/// into `v`; the toggle flips.
pub open spec fn wr_addr(p0: Ppu, p1: Ppu, val: u8) -> bool {
    &&& if !p0.two_write_partial {
        &&& p1.ppuscroll == ((p0.ppuscroll & 0xC0FFu16) | (((val as u16) & 0x3Fu16) << 8u16))
            & 0xBFFFu16
        &&& p1.ppuaddr == p0.ppuaddr
    } else {
        &&& p1.ppuscroll == (p0.ppuscroll & 0xFF00u16) | ((val as u16) & 0xFFu16)
        &&& p1.ppuaddr == (p0.ppuscroll & 0xFF00u16) | ((val as u16) & 0xFFu16)
    }
    &&& p1.two_write_partial == !p0.two_write_partial
    &&& p1.ppuctrl == p0.ppuctrl
    &&& p1.ppumask == p0.ppumask
    &&& p1.ppustatus == p0.ppustatus
    &&& p1.oamaddr == p0.oamaddr
    &&& p1.ppudata_buffer == p0.ppudata_buffer
    &&& p1.fine_x == p0.fine_x
    &&& p1.vram@ == p0.vram@
    &&& p1.oam@ == p0.oam@
}

/// A data-port write: stores through the mirroring rules at `v`, which
/// then steps.
pub open spec fn wr_data(p0: Ppu, p1: Ppu, val: u8) -> bool {
    &&& p1.vram@ == p0.vram@.update(ppu::mirror_vram_addr(p0.ppuaddr, p0.mirror_type) as int, val)
    &&& p1.ppuaddr == ((p0.ppuaddr + vram_step(p0)) % 0x10000) as u16
    &&& p1.ppuctrl == p0.ppuctrl
    &&& p1.ppumask == p0.ppumask
    &&& p1.ppustatus == p0.ppustatus
    &&& p1.oamaddr == p0.oamaddr
    &&& p1.ppudata_buffer == p0.ppudata_buffer
    &&& p1.ppuscroll == p0.ppuscroll
    &&& p1.fine_x == p0.fine_x
    &&& p1.two_write_partial == p0.two_write_partial
    &&& p1.oam@ == p0.oam@
}

/// How a successful write at `a` changes the bus, register by
/// register.
pub open spec fn write_rel(b0: Bus, b1: Bus, a: u16, val: u8) -> bool {
    if a < 0x2000 {
        &&& b1.ram@ == b0.ram@.update((a % 0x800) as int, val)
        &&& rom_eq(b0.rom, b1.rom)
        &&& controller_eq(b0.controller, b1.controller)
        &&& b1.dma_pending == b0.dma_pending
        &&& b1.keys == b0.keys
        &&& ppu::ppu_eq(b0.ppu, b1.ppu)
    } else if a < 0x4000 {
        &&& bus_env_eq(b0, b1)
        &&& ppu_quiet_eq(b0.ppu, b1.ppu)
        &&& (ppu_reg_of(a) == 0x2000 ==> wr_ctrl(b0.ppu, b1.ppu, val))
        &&& (ppu_reg_of(a) == 0x2001 ==> wr_mask(b0.ppu, b1.ppu, val))
        &&& (ppu_reg_of(a) == 0x2003 ==> wr_oamaddr(b0.ppu, b1.ppu, val))
        &&& (ppu_reg_of(a) == 0x2004 ==> wr_oamdata(b0.ppu, b1.ppu, val))
        &&& (ppu_reg_of(a) == 0x2005 ==> wr_scroll(b0.ppu, b1.ppu, val))
        &&& (ppu_reg_of(a) == 0x2006 ==> wr_addr(b0.ppu, b1.ppu, val))
        &&& (ppu_reg_of(a) == 0x2007 ==> wr_data(b0.ppu, b1.ppu, val))
    } else if a == 0x4014 {
        &&& b1.ram@ == b0.ram@
        &&& rom_eq(b0.rom, b1.rom)
        &&& controller_eq(b0.controller, b1.controller)
        &&& b1.dma_pending == true
        &&& b1.keys == b0.keys
        &&& ppu::regs_eq(b0.ppu, b1.ppu)
        &&& ppu::scan_eq(b0.ppu, b1.ppu)
        &&& ppu::pipe_eq(b0.ppu, b1.ppu)
        &&& b1.ppu.vram@ == b0.ppu.vram@
        &&& b1.ppu.frame@ == b0.ppu.frame@
        &&& b1.ppu.mirror_type == b0.ppu.mirror_type
        &&& b1.ppu.oam@.len() == b0.ppu.oam@.len()
        &&& forall|k: int|
            0 <= k < 256 ==> #[trigger] b1.ppu.oam@[((b0.ppu.oamaddr + k) % 256) as int]
                == bus_peek(b0, ((((val as u16) << 8u16) + k) as u16))
    } else if a == 0x4016 {
        &&& b1.ram@ == b0.ram@
        &&& rom_eq(b0.rom, b1.rom)
        &&& ppu::ppu_eq(b0.ppu, b1.ppu)
        &&& b1.dma_pending == b0.dma_pending
        &&& b1.keys == b0.keys
        &&& crate::controller::set_strobe_rel(
            b0.controller,
            b1.controller,
            val & 0x1u8 != 0u8,
            b0.keys,
        )
    } else {
        bus_eq(b0, b1)
    }
}

/// Bounds of the DMA source page: shifting the page number into place
/// keeps it under 0xFF01, and the page lies in RAM or ROM exactly when
/// the page number says so.
proof fn lemma_dma_page(val: u8)
    ensures
        (val as u16) << 8u16 <= 0xFF00,
        val < 0x20 ==> (val as u16) << 8u16 <= 0x1F00,
        val >= 0x80 ==> (val as u16) << 8u16 >= 0x8000,
{
    assert(((val as u16) << 8u16 <= 0xFF00) && (val < 0x20 ==> (val as u16) << 8u16 <= 0x1F00) && (
    val >= 0x80 ==> (val as u16) << 8u16 >= 0x8000)) by (bit_vector);
}

impl Bus {
    /// Reads a byte at a CPU address, applying the read's side
    /// effects; a read of a write-only register, of the DMA trigger or
    /// of unmapped space reports a fault and changes nothing.
    /// Reads one of the eight mirrored PPU registers.
    #[verifier::rlimit(100)]
    fn ppu_reg_read(&mut self, addr: u16) -> (r: Result<u8, BusError>)
        requires
            old(self).wf(),
            0x2000 <= addr < 0x4000,
        ensures
            final(self).wf(),
            r is Ok <==> bus_readable(addr),
            r matches Err(e) ==> e == BusError::ReadFault(addr) && bus_eq(*old(self), *final(self)),
            r matches Ok(v) ==> v == bus_peek(*old(self), addr) && read_rel(
                *old(self),
                *final(self),
                addr,
            ),
    {
        {
            let reg = ((addr - 0x2000) % 0x8) + 0x2000;
            if reg == 0x2002 {
                let result = self.ppu.ppustatus;
                self.ppu.ppustatus = self.ppu.ppustatus & 0x7F;
                self.ppu.two_write_partial = false;
                Ok(result)
            } else if reg == 0x2004 {
                let a = self.ppu.oamaddr;
                Ok(self.ppu.get_oam_byte_at(a))
            } else if reg == 0x2007 {
                let v = self.ppu.ppuaddr;
                let data = self.ppu.get_vram_byte_at(v);
                let returned_data = if v % 0x4000 < 0x3F00 {
                    let buffered = self.ppu.ppudata_buffer;
                    self.ppu.ppudata_buffer = data;
                    buffered
                } else {
                    let under = self.ppu.get_vram_byte_at(v - 0x1000);
                    self.ppu.ppudata_buffer = under;
                    data
                };
                let step: u16 = if self.ppu.ppuctrl & 0x04 == 0 {
                    0x1
                } else {
                    0x20
                };
                self.ppu.ppuaddr = self.ppu.ppuaddr.wrapping_add(step);
                Ok(returned_data)
            } else {
                Err(BusError::ReadFault(addr))
            }
        }
    }

    /// Reads a byte at a CPU address, applying the read's side
    /// effects; a read of a write-only register, of the DMA trigger or
    /// of unmapped space reports a fault and changes nothing.
    #[verifier::rlimit(100)]
    pub fn get_byte_at(&mut self, addr: u16) -> (r: Result<u8, BusError>)
        requires
            old(self).wf(),
        ensures
            final(self).wf(),
            r is Ok <==> bus_readable(addr),
            r matches Err(e) ==> e == BusError::ReadFault(addr) && bus_eq(*old(self), *final(self)),
            r matches Ok(v) ==> v == bus_peek(*old(self), addr) && read_rel(
                *old(self),
                *final(self),
                addr,
            ),
    {
        if addr < 0x2000 {
            Ok(self.ram[(addr % 0x800) as usize])
        } else if addr < 0x4000 {
            self.ppu_reg_read(addr)
        } else if addr <= 0x4013 {
            Ok(0)
        } else if addr == 0x4014 {
            Err(BusError::ReadFault(addr))
        } else if addr == 0x4015 {
            Ok(0)
        } else if addr == 0x4016 {
            let k = self.keys;
            let bit = self.controller.read(&k);
            Ok(
                if bit {
                    1
                } else {
                    0
                },
            )
        } else if addr == 0x4017 {
            Ok(0)
        } else if addr < 0x8000 {
            Err(BusError::ReadFault(addr))
        } else {
            let mut rom_access_addr = addr - 0x8000;
            if self.rom.prg_rom.len() <= 0x4000 {
                rom_access_addr = rom_access_addr % 0x4000;
            }
            Ok(self.rom.prg_rom[rom_access_addr as usize])
        }
    }

    /// Reads a little-endian word: the low byte at `addr`, the high
    /// byte one above (wrapping at the top of the address space). For
    /// RAM and ROM the bus is unchanged and the value is exact.
    pub fn get_word_at(&mut self, addr: u16) -> (r: Result<u16, BusError>)
        requires
            old(self).wf(),
        ensures
            final(self).wf(),
            r is Ok <==> bus_readable(addr) && bus_readable(addr.wrapping_add(1)),
            !bus_readable(addr) ==> bus_eq(*old(self), *final(self)) && r == Err::<u16, BusError>(
                BusError::ReadFault(addr),
            ),
            bus_readable(addr) && !bus_readable(addr.wrapping_add(1)) ==> read_rel(
                *old(self),
                *final(self),
                addr,
            ) && r == Err::<u16, BusError>(BusError::ReadFault(addr.wrapping_add(1))),
            r is Ok ==> exists|mid: Bus|
                {
                    &&& #[trigger] read_rel(*old(self), mid, addr)
                    &&& read_rel(mid, *final(self), addr.wrapping_add(1))
                    &&& r == Ok::<u16, BusError>(
                        ((bus_peek(mid, addr.wrapping_add(1)) as u16) << 8u16) | (bus_peek(
                            *old(self),
                            addr,
                        ) as u16),
                    )
                },
            plain_addr(addr) && plain_addr(addr.wrapping_add(1)) ==> bus_eq(
                *old(self),
                *final(self),
            ) && r == Ok::<u16, BusError>(
                ((bus_peek(*old(self), addr.wrapping_add(1)) as u16) << 8u16) | (bus_peek(
                    *old(self),
                    addr,
                ) as u16),
            ),
    {
        let low = match self.get_byte_at(addr) {
            Ok(v) => v,
            Err(e) => {
                return Err(e);
            },
        };
        let ghost mid = *self;
        let high = match self.get_byte_at(addr.wrapping_add(1)) {
            Ok(v) => v,
            Err(e) => {
                return Err(e);
            },
        };
        proof {
            assert(read_rel(*old(self), mid, addr));
        }
        Ok(((high as u16) << 8) | (low as u16))
    }
}

impl Bus {
    /// A control-register write.
    fn write_reg_ctrl(&mut self, addr: u16, val: u8)
        requires
            old(self).wf(),
            0x2000 <= addr < 0x4000,
            ppu_reg_of(addr) == 0x2000,
        ensures
            final(self).wf(),
            write_rel(*old(self), *final(self), addr, val),
    {
        self.ppu.ppuctrl = val;
        self.ppu.ppuscroll = (self.ppu.ppuscroll & 0xF3FF) | (((val as u16) << 10) & 0x0C00);
    }

    /// A mask-register write.
    fn write_reg_mask(&mut self, addr: u16, val: u8)
        requires
            old(self).wf(),
            0x2000 <= addr < 0x4000,
            ppu_reg_of(addr) == 0x2001,
        ensures
            final(self).wf(),
            write_rel(*old(self), *final(self), addr, val),
    {
        self.ppu.ppumask = val;
    }

    /// An OAM-address write.
    fn write_reg_oamaddr(&mut self, addr: u16, val: u8)
        requires
            old(self).wf(),
            0x2000 <= addr < 0x4000,
            ppu_reg_of(addr) == 0x2003,
        ensures
            final(self).wf(),
            write_rel(*old(self), *final(self), addr, val),
    {
        self.ppu.oamaddr = val;
    }

    /// An OAM-data write.
    fn write_reg_oamdata(&mut self, addr: u16, val: u8)
        requires
            old(self).wf(),
            0x2000 <= addr < 0x4000,
            ppu_reg_of(addr) == 0x2004,
        ensures
            final(self).wf(),
            write_rel(*old(self), *final(self), addr, val),
    {
        let dst = self.ppu.oamaddr;
        self.ppu.set_oam_byte_at(dst, val);
        self.ppu.oamaddr = self.ppu.oamaddr.wrapping_add(1);
    }

    /// A scroll-register write.
    fn write_reg_scroll(&mut self, addr: u16, val: u8)
        requires
            old(self).wf(),
            0x2000 <= addr < 0x4000,
            ppu_reg_of(addr) == 0x2005,
        ensures
            final(self).wf(),
            write_rel(*old(self), *final(self), addr, val),
    {
        if !self.ppu.two_write_partial {
            self.ppu.ppuscroll = (self.ppu.ppuscroll & 0xFFE0) | ((val as u16) >> 3);
            proof {
                ppu::lemma_u8_and_le(val, 0x7);
            }
            self.ppu.fine_x = val & 0x7;
        } else {
            self.ppu.ppuscroll = ((self.ppu.ppuscroll & 0x8C1F) | (((val as u16) & 0x7) << 12)) | (
            ((val as u16) & 0xF8) << 2);
        }
        self.ppu.two_write_partial = !self.ppu.two_write_partial;
    }

    /// An address-register write.
    fn write_reg_addr(&mut self, addr: u16, val: u8)
        requires
            old(self).wf(),
            0x2000 <= addr < 0x4000,
            ppu_reg_of(addr) == 0x2006,
        ensures
            final(self).wf(),
            write_rel(*old(self), *final(self), addr, val),
    {
        if !self.ppu.two_write_partial {
            self.ppu.ppuscroll = ((self.ppu.ppuscroll & 0xC0FF) | (((val as u16) & 0x3F) << 8))
                & 0xBFFF;
        } else {
            self.ppu.ppuscroll = (self.ppu.ppuscroll & 0xFF00) | ((val as u16) & 0xFF);
            self.ppu.ppuaddr = self.ppu.ppuscroll;
        }
        self.ppu.two_write_partial = !self.ppu.two_write_partial;
    }

    /// A data-port write.
    fn write_reg_data(&mut self, addr: u16, val: u8)
        requires
            old(self).wf(),
            0x2000 <= addr < 0x4000,
            ppu_reg_of(addr) == 0x2007,
        ensures
            final(self).wf(),
            write_rel(*old(self), *final(self), addr, val),
    {
        let v = self.ppu.ppuaddr;
        self.ppu.set_vram_byte_at(v, val);
        let step: u16 = if self.ppu.ppuctrl & 0x04 == 0 {
            0x1
        } else {
            0x20
        };
        self.ppu.ppuaddr = self.ppu.ppuaddr.wrapping_add(step);
    }

    /// Sprite DMA: copies 256 bytes from the named source page into
    /// OAM, starting at the current OAM address and wrapping.
    #[verifier::rlimit(100)]
    fn oam_dma(&mut self, val: u8)
        requires
            old(self).wf(),
            dma_page_plain(val),
        ensures
            final(self).wf(),
            write_rel(*old(self), *final(self), 0x4014, val),
    {
        let ghost b0 = *self;
        let start_addr: u16 = (val as u16) << 8;
        proof {
            lemma_dma_page(val);
        }
        let mut i: usize = 0;
        while i < 256
            invariant
                i <= 256,
                self.wf(),
                b0.wf(),
                dma_page_plain(val),
                start_addr == (val as u16) << 8u16,
                self.ram@ == b0.ram@,
                rom_eq(self.rom, b0.rom),
                controller_eq(self.controller, b0.controller),
                self.dma_pending == b0.dma_pending,
                self.keys == b0.keys,
                ppu::regs_eq(self.ppu, b0.ppu),
                ppu::scan_eq(self.ppu, b0.ppu),
                ppu::pipe_eq(self.ppu, b0.ppu),
                self.ppu.vram@ == b0.ppu.vram@,
                self.ppu.frame@ == b0.ppu.frame@,
                self.ppu.mirror_type == b0.ppu.mirror_type,
                self.ppu.oam@.len() == 0x100,
                forall|k: int|
                    0 <= k < i ==> #[trigger] self.ppu.oam@[((b0.ppu.oamaddr + k) % 256) as int]
                        == bus_peek(b0, ((((val as u16) << 8u16) + k) as u16)),
                forall|k: int|
                    i <= k < 256 ==> #[trigger] self.ppu.oam@[((b0.ppu.oamaddr + k) % 256) as int]
                        == b0.ppu.oam@[((b0.ppu.oamaddr + k) % 256) as int],
            decreases 256 - i,
        {
            proof {
                lemma_dma_page(val);
            }
            let data = self.read_plain(start_addr + (i as u16));
            let dst = self.ppu.oamaddr.wrapping_add(i as u8);
            self.ppu.set_oam_byte_at(dst, data);
            proof {
                assert(bus_peek(*self, (start_addr + i) as u16) == bus_peek(
                    b0,
                    (start_addr + i) as u16,
                ));
                assert(dst as int == (b0.ppu.oamaddr + i) % 256);
                assert forall|k: int| 0 <= k < 256 && k != i implies #[trigger] ((b0.ppu.oamaddr
                    + k) % 256) != ((b0.ppu.oamaddr + i) % 256) by {
                    vstd::arithmetic::div_mod::lemma_fundamental_div_mod(b0.ppu.oamaddr + k, 256);
                    vstd::arithmetic::div_mod::lemma_fundamental_div_mod(b0.ppu.oamaddr + i, 256);
                    vstd::arithmetic::div_mod::lemma_mod_bound(b0.ppu.oamaddr + k, 256);
                    vstd::arithmetic::div_mod::lemma_mod_bound(b0.ppu.oamaddr + i, 256);
                }
            }
            i = i + 1;
        }
        self.dma_pending = true;
    }

    /// Writes a byte at a CPU address, applying the write's side
    /// effects; a write to the status register or to program ROM, or a
    /// DMA trigger naming a source page with side effects, reports a
    /// fault and changes nothing.
    #[verifier::rlimit(100)]
    pub fn set_byte_at(&mut self, addr: u16, val: u8) -> (r: Result<(), BusError>)
        requires
            old(self).wf(),
        ensures
            final(self).wf(),
            r is Ok <==> bus_writable(addr, val),
            r matches Err(e) ==> e == BusError::WriteFault(addr) && bus_eq(
                *old(self),
                *final(self),
            ),
            r is Ok ==> write_rel(*old(self), *final(self), addr, val),
    {
        if addr < 0x2000 {
            self.ram.set((addr % 0x800) as usize, val);
            Ok(())
        } else if addr < 0x4000 {
            let reg = ((addr - 0x2000) % 0x8) + 0x2000;
            if reg == 0x2000 {
                self.write_reg_ctrl(addr, val);
                Ok(())
            } else if reg == 0x2001 {
                self.write_reg_mask(addr, val);
                Ok(())
            } else if reg == 0x2002 {
                Err(BusError::WriteFault(addr))
            } else if reg == 0x2003 {
                self.write_reg_oamaddr(addr, val);
                Ok(())
            } else if reg == 0x2004 {
                self.write_reg_oamdata(addr, val);
                Ok(())
            } else if reg == 0x2005 {
                self.write_reg_scroll(addr, val);
                Ok(())
            } else if reg == 0x2006 {
                self.write_reg_addr(addr, val);
                Ok(())
            } else {
                self.write_reg_data(addr, val);
                Ok(())
            }
        } else if addr == 0x4014 {
            if val < 0x20 || val >= 0x80 {
                self.oam_dma(val);
                Ok(())
            } else {
                Err(BusError::WriteFault(addr))
            }
        } else if addr == 0x4016 {
            let k = self.keys;
            self.controller.set_strobe(val & 0x1 != 0, &k);
            Ok(())
        } else if addr < 0x8000 {
            Ok(())
        } else {
            Err(BusError::WriteFault(addr))
        }
    }

    /// Writes a little-endian word: the low byte at `addr`, the high
    /// byte one above (wrapping at the top of the address space).
    pub fn set_word_at(&mut self, addr: u16, val: u16) -> (r: Result<(), BusError>)
        requires
            old(self).wf(),
        ensures
            final(self).wf(),
            r is Ok <==> bus_writable(addr, (val & 0xFFu16) as u8) && bus_writable(
                addr.wrapping_add(1),
                ((val >> 8u16) & 0xFFu16) as u8,
            ),
            !bus_writable(addr, (val & 0xFFu16) as u8) ==> bus_eq(*old(self), *final(self)) && r
                == Err::<(), BusError>(BusError::WriteFault(addr)),
            bus_writable(addr, (val & 0xFFu16) as u8) && !bus_writable(
                addr.wrapping_add(1),
                ((val >> 8u16) & 0xFFu16) as u8,
            ) ==> write_rel(*old(self), *final(self), addr, (val & 0xFFu16) as u8) && r == Err::<
                (),
                BusError,
            >(BusError::WriteFault(addr.wrapping_add(1))),
            r is Ok ==> exists|mid: Bus|
                #[trigger] write_rel(*old(self), mid, addr, (val & 0xFFu16) as u8) && write_rel(
                    mid,
                    *final(self),
                    addr.wrapping_add(1),
                    ((val >> 8u16) & 0xFFu16) as u8,
                ),
    {
        let low = (val & 0xFF) as u8;
        let high = ((val >> 8) & 0xFF) as u8;
        match self.set_byte_at(addr, low) {
            Ok(_) => {},
            Err(e) => {
                return Err(e);
            },
        }
        let ghost mid = *self;
        match self.set_byte_at(addr.wrapping_add(1), high) {
            Ok(_) => {},
            Err(e) => {
                return Err(e);
            },
        }
        proof {
            assert(write_rel(*old(self), mid, addr, (val & 0xFFu16) as u8) && write_rel(
                mid,
                *self,
                addr.wrapping_add(1),
                ((val >> 8u16) & 0xFFu16) as u8,
            ));
        }
        Ok(())
    }
}

/// Clearing bit 7 with a 0x7F mask really clears it and is idempotent.
proof fn lemma_mask_7f(s: u8)
    ensures
        (s & 0x7Fu8) & 0x80u8 == 0u8,
        s & 0x7Fu8 == (s & 0x7Fu8) & 0x7Fu8,
{
    assert(((s & 0x7Fu8) & 0x80u8 == 0u8) && (s & 0x7Fu8 == (s & 0x7Fu8) & 0x7Fu8)) by (bit_vector);
}

/// The vblank latch: the first status read reports bit 7 as it
/// stands, and clears it, so the second read reports it clear — and
/// leaves it clear.
pub proof fn lemma_vblank_latch(b0: Bus, b1: Bus, b2: Bus, v1: u8, v2: u8)
    requires
        v1 == bus_peek(b0, 0x2002),
        read_rel(b0, b1, 0x2002),
        v2 == bus_peek(b1, 0x2002),
        read_rel(b1, b2, 0x2002),
    ensures
        v1 == b0.ppu.ppustatus,
        v1 & 0x80u8 == b0.ppu.ppustatus & 0x80u8,
        v2 & 0x80u8 == 0u8,
        b2.ppu.ppustatus & 0x80u8 == 0u8,
{
    lemma_mask_7f(b0.ppu.ppustatus);
}

/// Between status reads, a PPU dot leaves the vblank bit alone except
/// at its two latch points, (241, 1) and (261, 1).
pub proof fn lemma_vblank_persists(p: Ppu)
    requires
        !(p.cycle == 1 && p.scanline == 241),
        !(p.cycle == 1 && p.scanline == 261),
    ensures
        ppu::step_status(p) & 0x80u8 == p.ppustatus & 0x80u8,
{
    assert forall|s: u8| (s | 0x40u8) & 0x80u8 == s & 0x80u8 by {
        assert(forall|s: u8| (s | 0x40u8) & 0x80u8 == s & 0x80u8) by (bit_vector);
    }
}

/// The read buffer: two data-port reads at non-palette addresses
/// report first the stale buffer, then the byte that was at the
/// address of the first read.
pub proof fn lemma_data_port_buffering(b0: Bus, b1: Bus, b2: Bus, v1: u8, v2: u8)
    requires
        b0.ppu.ppuaddr % 0x4000 < 0x3F00,
        b1.ppu.ppuaddr % 0x4000 < 0x3F00,
        v1 == bus_peek(b0, 0x2007),
        read_rel(b0, b1, 0x2007),
        v2 == bus_peek(b1, 0x2007),
        read_rel(b1, b2, 0x2007),
    ensures
        v1 == b0.ppu.ppudata_buffer,
        v2 == vram_peek(b0.ppu, b0.ppu.ppuaddr),
{
}

/// The read buffer at palette addresses: the palette byte comes back
/// directly, while the buffer reloads from the nametable byte one page
/// below.
pub proof fn lemma_data_port_palette(b0: Bus, b1: Bus, v1: u8)
    requires
        b0.ppu.ppuaddr % 0x4000 >= 0x3F00,
        v1 == bus_peek(b0, 0x2007),
        read_rel(b0, b1, 0x2007),
    ensures
        v1 == vram_peek(b0.ppu, b0.ppu.ppuaddr),
        b1.ppu.ppudata_buffer == vram_peek(b0.ppu, (b0.ppu.ppuaddr - 0x1000) as u16),
{
}

} // verus!
