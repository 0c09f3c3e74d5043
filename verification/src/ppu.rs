//! Picture-processing unit: video RAM with its mirroring rules, object
//! attribute memory, the memory-mapped register state, the background
//! fetch pipeline, and the 341-dot by 262-scanline scan loop.
//!
//! Rendering writes palette indices into a plain frame buffer; mapping
//! an index to RGB is a separate lookup, so no host surface is needed.

use vstd::pervasive::VecAdditionalExecFns;
use vstd::prelude::*;

use crate::rom::MirroringType;

verus! {

/// Background and sprite pipeline state plus the externally visible
/// registers. `ppuscroll` is the temporary VRAM address `t`; `ppuaddr`
/// is the current VRAM address `v`; `two_write_partial` is the write
/// toggle `w`.
pub struct Ppu {
    pub ppuctrl: u8,
    pub ppumask: u8,
    pub ppustatus: u8,
    pub oamaddr: u8,
    pub ppudata_buffer: u8,
    pub ppuscroll: u16,
    pub ppuaddr: u16,
    pub fine_x: u8,
    pub two_write_partial: bool,
    pub vram: Vec<u8>,
    pub oam: Vec<u8>,
    pub frame: Vec<u8>,
    pub scanline: u16,
    pub cycle: u16,
    pub nmi_waiting: bool,
    pub even_frame: bool,
    pub pattern_table_shift_low: u16,
    pub pattern_table_shift_high: u16,
    pub attribute_table_palette_shift_low: u8,
    pub attribute_table_palette_latch_low: bool,
    pub attribute_table_palette_shift_high: u8,
    pub attribute_table_palette_latch_high: bool,
    pub decoded_nametable_byte: u8,
    pub decoded_attribute_table_bit_high: bool,
    pub decoded_attribute_table_bit_low: bool,
    pub decoded_pattern_table_low: u8,
    pub decoded_pattern_table_high: u8,
    pub mirror_type: MirroringType,
}

/// Pixels in one frame: 256 columns by 240 visible scanlines.
pub open spec fn frame_pixels() -> int {
    61440
}

/// Bitwise AND never exceeds either operand (16-bit).
pub proof fn lemma_u16_and_le(x: u16, m: u16)
    ensures
        x & m <= m,
        x & m <= x,
{
    assert(x & m <= m && x & m <= x) by (bit_vector);
}

/// Bitwise AND never exceeds either operand (8-bit).
pub proof fn lemma_u8_and_le(x: u8, m: u8)
    ensures
        x & m <= m,
        x & m <= x,
{
    assert(x & m <= m && x & m <= x) by (bit_vector);
}

/// Bitwise OR is bounded by the sum of its operands (16-bit).
pub proof fn lemma_u16_or_le(x: u16, y: u16)
    ensures
        (x | y) as int <= x + y,
{
    assert(((x | y) as u32) <= (x as u32) + (y as u32) && ((x | y) as u32) == ((x as u32) | (
    y as u32))) by (bit_vector);
}

/// Field extractions from a VRAM address: coarse y and fine y are small,
/// and a fine-y below 7 leaves room to add 0x1000.
proof fn lemma_v_fields(v: u16)
    ensures
        (v & 0x3E0u16) >> 5u16 <= 31,
        (v & 0x7000u16) >> 12u16 <= 7,
        v & 0x7000u16 != 0x7000u16 ==> v <= 0xEFFF,
{
    assert(((v & 0x3E0u16) >> 5u16 <= 31) && ((v & 0x7000u16) >> 12u16 <= 7) && (v & 0x7000u16
        != 0x7000u16 ==> v <= 0xEFFF)) by (bit_vector);
}

impl Ppu {
    /// The structural invariant: memory sizes are fixed, the fine-x
    /// scroll is three bits, and the scan position lies inside a frame.
    pub open spec fn wf(self) -> bool {
        &&& self.vram@.len() == 0x4000
        &&& self.oam@.len() == 0x100
        &&& self.frame@.len() == frame_pixels()
        &&& self.fine_x <= 7
        &&& self.scanline <= 261
        &&& self.cycle <= 340
    }
}

/// The nine register-file fields agree.
pub open spec fn regs_eq(a: Ppu, b: Ppu) -> bool {
    &&& a.ppuctrl == b.ppuctrl
    &&& a.ppumask == b.ppumask
    &&& a.ppustatus == b.ppustatus
    &&& a.oamaddr == b.oamaddr
    &&& a.ppudata_buffer == b.ppudata_buffer
    &&& a.ppuscroll == b.ppuscroll
    &&& a.ppuaddr == b.ppuaddr
    &&& a.fine_x == b.fine_x
    &&& a.two_write_partial == b.two_write_partial
}

/// The register-file fields agree except the current VRAM address `v`.
pub open spec fn regs_eq_except_v(a: Ppu, b: Ppu) -> bool {
    &&& a.ppuctrl == b.ppuctrl
    &&& a.ppumask == b.ppumask
    &&& a.ppustatus == b.ppustatus
    &&& a.oamaddr == b.oamaddr
    &&& a.ppudata_buffer == b.ppudata_buffer
    &&& a.ppuscroll == b.ppuscroll
    &&& a.fine_x == b.fine_x
    &&& a.two_write_partial == b.two_write_partial
}

/// The register-file fields agree except the status register.
pub open spec fn regs_eq_except_status(a: Ppu, b: Ppu) -> bool {
    &&& a.ppuctrl == b.ppuctrl
    &&& a.ppumask == b.ppumask
    &&& a.oamaddr == b.oamaddr
    &&& a.ppudata_buffer == b.ppudata_buffer
    &&& a.ppuscroll == b.ppuscroll
    &&& a.ppuaddr == b.ppuaddr
    &&& a.fine_x == b.fine_x
    &&& a.two_write_partial == b.two_write_partial
}

/// Scan position, frame parity and the NMI line agree.
pub open spec fn scan_eq(a: Ppu, b: Ppu) -> bool {
    &&& a.scanline == b.scanline
    &&& a.cycle == b.cycle
    &&& a.nmi_waiting == b.nmi_waiting
    &&& a.even_frame == b.even_frame
}

/// VRAM, OAM, the frame buffer and the mirroring mode agree.
pub open spec fn mem_eq(a: Ppu, b: Ppu) -> bool {
    &&& a.vram@ == b.vram@
    &&& a.oam@ == b.oam@
    &&& a.frame@ == b.frame@
    &&& a.mirror_type == b.mirror_type
}

/// VRAM, OAM and the mirroring mode agree (the frame buffer may not).
pub open spec fn mem_eq_except_frame(a: Ppu, b: Ppu) -> bool {
    &&& a.vram@ == b.vram@
    &&& a.oam@ == b.oam@
    &&& a.mirror_type == b.mirror_type
}

/// The eleven pipeline fields agree.
pub open spec fn pipe_eq(a: Ppu, b: Ppu) -> bool {
    &&& a.pattern_table_shift_low == b.pattern_table_shift_low
    &&& a.pattern_table_shift_high == b.pattern_table_shift_high
    &&& a.attribute_table_palette_shift_low == b.attribute_table_palette_shift_low
    &&& a.attribute_table_palette_latch_low == b.attribute_table_palette_latch_low
    &&& a.attribute_table_palette_shift_high == b.attribute_table_palette_shift_high
    &&& a.attribute_table_palette_latch_high == b.attribute_table_palette_latch_high
    &&& a.decoded_nametable_byte == b.decoded_nametable_byte
    &&& a.decoded_attribute_table_bit_high == b.decoded_attribute_table_bit_high
    &&& a.decoded_attribute_table_bit_low == b.decoded_attribute_table_bit_low
    &&& a.decoded_pattern_table_low == b.decoded_pattern_table_low
    &&& a.decoded_pattern_table_high == b.decoded_pattern_table_high
}

/// Every field agrees.
pub open spec fn ppu_eq(a: Ppu, b: Ppu) -> bool {
    &&& regs_eq(a, b)
    &&& scan_eq(a, b)
    &&& mem_eq(a, b)
    &&& pipe_eq(a, b)
}

/// The VRAM address a raw 16-bit address lands on: the 16 KiB space
/// wraps, the palette band repeats every 0x20 bytes, `0x3000`..`0x3EFF`
/// mirrors the nametables a page below, the nametable band collapses
/// per the cartridge's mirroring mode, and the four transparent palette
/// entries of the sprite half mirror the background half.
pub open spec fn mirror_vram_addr(addr: u16, m: MirroringType) -> u16 {
    let a0 = addr % 0x4000;
    let a1 = if a0 >= 0x3F00 {
        (((a0 - 0x3F00) % 0x20) + 0x3F00) as u16
    } else {
        a0
    };
    let a2 = if a1 >= 0x3000 && a1 < 0x3F00 {
        (a1 - 0x1000) as u16
    } else {
        a1
    };
    let a3 = if a2 >= 0x2000 && a2 < 0x3000 {
        match m {
            MirroringType::FourScreen => a2 & 0xF3FF,
            MirroringType::Horizontal => a2 & 0xFBFF,
            MirroringType::Vertical => a2 & 0xF7FF,
        }
    } else {
        a2
    };
    if a3 >= 0x3F00 && a3 % 0x4 == 0 {
        (((a3 - 0x3F00) % 0x10) + 0x3F00) as u16
    } else {
        a3
    }
}

/// The byte a VRAM read at `addr` observes.
pub open spec fn vram_peek(p: Ppu, addr: u16) -> u8 {
    p.vram@[mirror_vram_addr(addr, p.mirror_type) as int]
}

/// Applies the VRAM mirroring rules to a raw address.
fn mirror_addr(addr: u16, m: MirroringType) -> (r: u16)
    ensures
        r == mirror_vram_addr(addr, m),
        r < 0x4000,
{
    let a0 = addr % 0x4000;
    let a1 = if a0 >= 0x3F00 {
        ((a0 - 0x3F00) % 0x20) + 0x3F00
    } else {
        a0
    };
    let a2 = if a1 >= 0x3000 && a1 < 0x3F00 {
        a1 - 0x1000
    } else {
        a1
    };
    let a3 = if a2 >= 0x2000 && a2 < 0x3000 {
        match m {
            MirroringType::FourScreen => a2 & 0xF3FF,
            MirroringType::Horizontal => a2 & 0xFBFF,
            MirroringType::Vertical => a2 & 0xF7FF,
        }
    } else {
        a2
    };
    proof {
        lemma_u16_and_le(a2, 0xF3FF);
        lemma_u16_and_le(a2, 0xFBFF);
        lemma_u16_and_le(a2, 0xF7FF);
    }
    if a3 >= 0x3F00 && a3 % 0x4 == 0 {
        ((a3 - 0x3F00) % 0x10) + 0x3F00
    } else {
        a3
    }
}

/// A zero-filled byte vector of the given length.
pub(crate) fn zeroed_bytes(n: usize) -> (r: Vec<u8>)
    ensures
        r@.len() == n,
        forall|i: int| 0 <= i < n ==> r@[i] == 0u8,
{
    let mut out: Vec<u8> = Vec::new();
    let mut i: usize = 0;
    while i < n
        invariant
            i <= n,
            out@.len() == i,
            forall|j: int| 0 <= j < i ==> out@[j] == 0u8,
        decreases n - i,
    {
        out.push(0u8);
        i = i + 1;
    }
    out
}

impl Ppu {
    /// A powered-on PPU: all registers and memories cleared, the scan
    /// position at the first dot of the first scanline.
    pub fn new() -> (r: Ppu)
        ensures
            r.wf(),
            r.ppuctrl == 0u8 && r.ppumask == 0u8 && r.ppustatus == 0u8 && r.oamaddr == 0u8,
            r.ppudata_buffer == 0u8 && r.ppuscroll == 0u16 && r.ppuaddr == 0u16 && r.fine_x == 0u8,
            r.two_write_partial == false,
            r.scanline == 0u16 && r.cycle == 0u16,
            r.nmi_waiting == false && r.even_frame == false,
            forall|i: int| 0 <= i < 0x4000 ==> r.vram@[i] == 0u8,
            forall|i: int| 0 <= i < 0x100 ==> r.oam@[i] == 0u8,
            r.pattern_table_shift_low == 0u16 && r.pattern_table_shift_high == 0u16,
            r.attribute_table_palette_shift_low == 0u8 && r.attribute_table_palette_shift_high
                == 0u8,
            r.attribute_table_palette_latch_low == false && r.attribute_table_palette_latch_high
                == false,
            r.decoded_nametable_byte == 0u8,
            r.decoded_attribute_table_bit_low == false && r.decoded_attribute_table_bit_high
                == false,
            r.decoded_pattern_table_low == 0u8 && r.decoded_pattern_table_high == 0u8,
            r.mirror_type == MirroringType::FourScreen,
    {
        Ppu {
            ppuctrl: 0,
            ppumask: 0,
            ppustatus: 0,
            oamaddr: 0,
            ppudata_buffer: 0,
            ppuscroll: 0,
            ppuaddr: 0,
            fine_x: 0,
            two_write_partial: false,
            vram: zeroed_bytes(0x4000),
            oam: zeroed_bytes(0x100),
            frame: zeroed_bytes(61440),
            scanline: 0,
            cycle: 0,
            nmi_waiting: false,
            even_frame: false,
            pattern_table_shift_low: 0,
            pattern_table_shift_high: 0,
            attribute_table_palette_shift_low: 0,
            attribute_table_palette_latch_low: false,
            attribute_table_palette_shift_high: 0,
            attribute_table_palette_latch_high: false,
            decoded_nametable_byte: 0,
            decoded_attribute_table_bit_high: false,
            decoded_attribute_table_bit_low: false,
            decoded_pattern_table_low: 0,
            decoded_pattern_table_high: 0,
            mirror_type: MirroringType::FourScreen,
        }
    }

    /// Reads VRAM through the mirroring rules.
    pub fn get_vram_byte_at(&self, addr: u16) -> (r: u8)
        requires
            self.wf(),
        ensures
            r == vram_peek(*self, addr),
    {
        let actual = mirror_addr(addr, self.mirror_type);
        self.vram[actual as usize]
    }

    /// Writes VRAM through the mirroring rules.
    pub fn set_vram_byte_at(&mut self, addr: u16, val: u8)
        requires
            old(self).wf(),
        ensures
            final(self).wf(),
            final(self).vram@ == old(self).vram@.update(
                mirror_vram_addr(addr, old(self).mirror_type) as int,
                val,
            ),
            regs_eq(*old(self), *final(self)),
            scan_eq(*old(self), *final(self)),
            pipe_eq(*old(self), *final(self)),
            final(self).oam@ == old(self).oam@,
            final(self).frame@ == old(self).frame@,
            final(self).mirror_type == old(self).mirror_type,
    {
        let actual = mirror_addr(addr, self.mirror_type);
        self.vram.set(actual as usize, val);
    }

    /// Reads a byte of object-attribute memory.
    pub fn get_oam_byte_at(&self, addr: u8) -> (r: u8)
        requires
            self.wf(),
        ensures
            r == self.oam@[addr as int],
    {
        self.oam[addr as usize]
    }

    /// Writes a byte of object-attribute memory.
    pub fn set_oam_byte_at(&mut self, addr: u8, val: u8)
        requires
            old(self).wf(),
        ensures
            final(self).wf(),
            final(self).oam@ == old(self).oam@.update(addr as int, val),
            regs_eq(*old(self), *final(self)),
            scan_eq(*old(self), *final(self)),
            pipe_eq(*old(self), *final(self)),
            final(self).vram@ == old(self).vram@,
            final(self).frame@ == old(self).frame@,
            final(self).mirror_type == old(self).mirror_type,
    {
        self.oam.set(addr as usize, val);
    }
}

/// Rendering is active when the mask enables background or sprites.
pub open spec fn rendering_enabled(p: Ppu) -> bool {
    p.ppumask & 0x18u8 != 0u8
}

/// Scanlines on which the rendering pipeline works: the visible lines
/// and the pre-render line.
pub open spec fn scan_eligible(p: Ppu) -> bool {
    p.scanline <= 239 || p.scanline == 261
}

/// Dots on which the background pipeline shifts and fetches: the
/// visible dots and the two-tile prefetch for the next scanline.
pub open spec fn fetch_window(c: u16) -> bool {
    (1 <= c <= 256) || (321 <= c <= 336)
}

/// Coarse-x increment of the VRAM address, toggling the horizontal
/// nametable on wraparound.
pub open spec fn coarse_x_inc(v: u16) -> u16 {
    let cx = v & 0x1Fu16;
    if cx == 31 {
        (v ^ 0x400u16) & 0xFFE0u16
    } else {
        (v & 0xFFE0u16) | ((cx + 1) as u16)
    }
}

/// Fine-y increment of the VRAM address; on overflow coarse y bumps,
/// with 29 rolling over into the vertical nametable toggle and 31
/// resetting without a toggle.
pub open spec fn fine_y_inc(v: u16) -> u16 {
    if v & 0x7000u16 != 0x7000u16 {
        (v + 0x1000) as u16
    } else {
        let v2 = v & 0x8FFFu16;
        let cy = (v2 & 0x3E0u16) >> 5u16;
        if cy == 29 {
            (v2 ^ 0x800u16) & 0xFC1Fu16
        } else if cy == 31 {
            v2 & 0xFC1Fu16
        } else {
            (v2 & 0xFC1Fu16) | (((cy + 1) as u16) << 5u16)
        }
    }
}

/// Nametable fetch address for the current VRAM address.
pub open spec fn nt_addr(v: u16) -> u16 {
    0x2000u16 | (v & 0x0FFFu16)
}

/// Attribute-table fetch address for the current VRAM address.
pub open spec fn attr_addr(v: u16) -> u16 {
    0x23C0u16 | (v & 0x0C00u16) | ((v >> 4u16) & 0x38u16) | ((v >> 2u16) & 0x07u16)
}

/// The two palette bits of the attribute quadrant the VRAM address
/// selects.
pub open spec fn attr_quadrant_bits(p: Ppu) -> u8 {
    let b = vram_peek(p, attr_addr(p.ppuaddr));
    let tx = (p.ppuaddr & 0x2u16) >> 1u16;
    let ty = (p.ppuaddr & 0x40u16) >> 6u16;
    if tx == 0 {
        if ty == 0 {
            b & 0x3u8
        } else {
            (b >> 4u8) & 0x3u8
        }
    } else {
        if ty == 0 {
            (b >> 2u8) & 0x3u8
        } else {
            (b >> 6u8) & 0x3u8
        }
    }
}

/// Base of the background pattern table, selected by control bit 4.
pub open spec fn bg_pattern_base(p: Ppu) -> u16 {
    if p.ppuctrl & 0x10u8 == 0u8 {
        0u16
    } else {
        0x1000u16
    }
}

/// Fine-y scroll held in the VRAM address.
pub open spec fn fine_y_of(v: u16) -> u16 {
    (v & 0x7000u16) >> 12u16
}

/// Address of the low plane of the background tile being fetched.
pub open spec fn pattern_low_addr(p: Ppu) -> u16 {
    (bg_pattern_base(p) + p.decoded_nametable_byte * 16 + fine_y_of(p.ppuaddr)) as u16
}

/// Address of the high plane: eight bytes above the low plane.
pub open spec fn pattern_high_addr(p: Ppu) -> u16 {
    (bg_pattern_base(p) + p.decoded_nametable_byte * 16 + fine_y_of(p.ppuaddr) + 8) as u16
}

/// The five decoded fetch latches agree.
pub open spec fn decoded_eq(a: Ppu, b: Ppu) -> bool {
    &&& a.decoded_nametable_byte == b.decoded_nametable_byte
    &&& a.decoded_attribute_table_bit_high == b.decoded_attribute_table_bit_high
    &&& a.decoded_attribute_table_bit_low == b.decoded_attribute_table_bit_low
    &&& a.decoded_pattern_table_low == b.decoded_pattern_table_low
    &&& a.decoded_pattern_table_high == b.decoded_pattern_table_high
}

/// The six shift-register and reload-latch fields agree.
pub open spec fn shifts_eq(a: Ppu, b: Ppu) -> bool {
    &&& a.pattern_table_shift_low == b.pattern_table_shift_low
    &&& a.pattern_table_shift_high == b.pattern_table_shift_high
    &&& a.attribute_table_palette_shift_low == b.attribute_table_palette_shift_low
    &&& a.attribute_table_palette_latch_low == b.attribute_table_palette_latch_low
    &&& a.attribute_table_palette_shift_high == b.attribute_table_palette_shift_high
    &&& a.attribute_table_palette_latch_high == b.attribute_table_palette_latch_high
}

impl Ppu {
    /// Copies the decoded pattern bytes into the low bytes of the
    /// pattern shifters and the decoded attribute bits into the reload
    /// latches.
    fn reload_shift_registers(&mut self)
        requires
            old(self).wf(),
        ensures
            final(self).wf(),
            regs_eq(*old(self), *final(self)),
            scan_eq(*old(self), *final(self)),
            mem_eq(*old(self), *final(self)),
            decoded_eq(*old(self), *final(self)),
            final(self).pattern_table_shift_low == (old(self).pattern_table_shift_low & 0xFF00u16)
                | (old(self).decoded_pattern_table_low as u16),
            final(self).pattern_table_shift_high == (old(self).pattern_table_shift_high
                & 0xFF00u16) | (old(self).decoded_pattern_table_high as u16),
            final(self).attribute_table_palette_shift_low == old(
                self,
            ).attribute_table_palette_shift_low,
            final(self).attribute_table_palette_shift_high == old(
                self,
            ).attribute_table_palette_shift_high,
            final(self).attribute_table_palette_latch_low == old(
                self,
            ).decoded_attribute_table_bit_low,
            final(self).attribute_table_palette_latch_high == old(
                self,
            ).decoded_attribute_table_bit_high,
    {
        self.pattern_table_shift_low = (self.pattern_table_shift_low & 0xFF00) | (
        self.decoded_pattern_table_low as u16);
        self.pattern_table_shift_high = (self.pattern_table_shift_high & 0xFF00) | (
        self.decoded_pattern_table_high as u16);
        self.attribute_table_palette_latch_low = self.decoded_attribute_table_bit_low;
        self.attribute_table_palette_latch_high = self.decoded_attribute_table_bit_high;
    }

    /// Coarse-x increment on the VRAM address.
    fn coarse_x_increment(&mut self)
        requires
            old(self).wf(),
        ensures
            final(self).wf(),
            regs_eq_except_v(*old(self), *final(self)),
            scan_eq(*old(self), *final(self)),
            mem_eq(*old(self), *final(self)),
            pipe_eq(*old(self), *final(self)),
            final(self).ppuaddr == coarse_x_inc(old(self).ppuaddr),
    {
        let cx = self.ppuaddr & 0x1F;
        if cx == 31 {
            self.ppuaddr = (self.ppuaddr ^ 0x400) & 0xFFE0;
        } else {
            proof {
                lemma_u16_and_le(self.ppuaddr, 0x1F);
            }
            self.ppuaddr = (self.ppuaddr & 0xFFE0) | (cx + 1);
        }
    }

    /// Fine-y increment on the VRAM address.
    fn fine_y_increment(&mut self)
        requires
            old(self).wf(),
        ensures
            final(self).wf(),
            regs_eq_except_v(*old(self), *final(self)),
            scan_eq(*old(self), *final(self)),
            mem_eq(*old(self), *final(self)),
            pipe_eq(*old(self), *final(self)),
            final(self).ppuaddr == fine_y_inc(old(self).ppuaddr),
    {
        proof {
            lemma_v_fields(self.ppuaddr);
        }
        if self.ppuaddr & 0x7000 != 0x7000 {
            self.ppuaddr = self.ppuaddr + 0x1000;
        } else {
            let v2 = self.ppuaddr & 0x8FFF;
            let cy = (v2 & 0x3E0) >> 5;
            proof {
                lemma_v_fields(v2);
            }
            if cy == 29 {
                self.ppuaddr = (v2 ^ 0x800) & 0xFC1F;
            } else if cy == 31 {
                self.ppuaddr = v2 & 0xFC1F;
            } else {
                self.ppuaddr = (v2 & 0xFC1F) | ((cy + 1) << 5);
            }
        }
    }

    /// Fetches the nametable byte the VRAM address points at.
    fn decode_nametable_byte(&mut self)
        requires
            old(self).wf(),
        ensures
            final(self).wf(),
            regs_eq(*old(self), *final(self)),
            scan_eq(*old(self), *final(self)),
            mem_eq(*old(self), *final(self)),
            shifts_eq(*old(self), *final(self)),
            final(self).decoded_nametable_byte == vram_peek(*old(self), nt_addr(old(self).ppuaddr)),
            final(self).decoded_attribute_table_bit_high == old(
                self,
            ).decoded_attribute_table_bit_high,
            final(self).decoded_attribute_table_bit_low == old(
                self,
            ).decoded_attribute_table_bit_low,
            final(self).decoded_pattern_table_low == old(self).decoded_pattern_table_low,
            final(self).decoded_pattern_table_high == old(self).decoded_pattern_table_high,
    {
        let addr = 0x2000 | (self.ppuaddr & 0x0FFF);
        self.decoded_nametable_byte = self.get_vram_byte_at(addr);
    }

    /// Fetches the attribute byte and extracts the palette quadrant the
    /// VRAM address selects.
    fn decode_attribute_table_byte(&mut self)
        requires
            old(self).wf(),
        ensures
            final(self).wf(),
            regs_eq(*old(self), *final(self)),
            scan_eq(*old(self), *final(self)),
            mem_eq(*old(self), *final(self)),
            shifts_eq(*old(self), *final(self)),
            final(self).decoded_nametable_byte == old(self).decoded_nametable_byte,
            final(self).decoded_attribute_table_bit_low == (attr_quadrant_bits(*old(self)) & 0x1u8
                != 0u8),
            final(self).decoded_attribute_table_bit_high == (attr_quadrant_bits(*old(self)) & 0x2u8
                != 0u8),
            final(self).decoded_pattern_table_low == old(self).decoded_pattern_table_low,
            final(self).decoded_pattern_table_high == old(self).decoded_pattern_table_high,
    {
        let addr = 0x23C0 | (self.ppuaddr & 0x0C00) | ((self.ppuaddr >> 4) & 0x38) | ((self.ppuaddr
            >> 2) & 0x07);
        let b = self.get_vram_byte_at(addr);
        let tx = (self.ppuaddr & 0x2) >> 1;
        let ty = (self.ppuaddr & 0x40) >> 6;
        let quadrant: u8 = if tx == 0 {
            if ty == 0 {
                b & 0x3
            } else {
                (b >> 4) & 0x3
            }
        } else {
            if ty == 0 {
                (b >> 2) & 0x3
            } else {
                (b >> 6) & 0x3
            }
        };
        self.decoded_attribute_table_bit_low = quadrant & 0x1 != 0;
        self.decoded_attribute_table_bit_high = quadrant & 0x2 != 0;
    }

    /// Fetches the low plane of the background tile.
    fn decode_pattern_table_low(&mut self)
        requires
            old(self).wf(),
        ensures
            final(self).wf(),
            regs_eq(*old(self), *final(self)),
            scan_eq(*old(self), *final(self)),
            mem_eq(*old(self), *final(self)),
            shifts_eq(*old(self), *final(self)),
            final(self).decoded_nametable_byte == old(self).decoded_nametable_byte,
            final(self).decoded_attribute_table_bit_high == old(
                self,
            ).decoded_attribute_table_bit_high,
            final(self).decoded_attribute_table_bit_low == old(
                self,
            ).decoded_attribute_table_bit_low,
            final(self).decoded_pattern_table_low == vram_peek(
                *old(self),
                pattern_low_addr(*old(self)),
            ),
            final(self).decoded_pattern_table_high == old(self).decoded_pattern_table_high,
    {
        let base: u16 = if self.ppuctrl & 0x10 == 0 {
            0x0000
        } else {
            0x1000
        };
        let fine_y = (self.ppuaddr & 0x7000) >> 12;
        proof {
            lemma_v_fields(self.ppuaddr);
        }
        let addr = base + (self.decoded_nametable_byte as u16) * 16 + fine_y;
        self.decoded_pattern_table_low = self.get_vram_byte_at(addr);
    }

    /// Fetches the high plane of the background tile.
    fn decode_pattern_table_high(&mut self)
        requires
            old(self).wf(),
        ensures
            final(self).wf(),
            regs_eq(*old(self), *final(self)),
            scan_eq(*old(self), *final(self)),
            mem_eq(*old(self), *final(self)),
            shifts_eq(*old(self), *final(self)),
            final(self).decoded_nametable_byte == old(self).decoded_nametable_byte,
            final(self).decoded_attribute_table_bit_high == old(
                self,
            ).decoded_attribute_table_bit_high,
            final(self).decoded_attribute_table_bit_low == old(
                self,
            ).decoded_attribute_table_bit_low,
            final(self).decoded_pattern_table_low == old(self).decoded_pattern_table_low,
            final(self).decoded_pattern_table_high == vram_peek(
                *old(self),
                pattern_high_addr(*old(self)),
            ),
    {
        let base: u16 = if self.ppuctrl & 0x10 == 0 {
            0x0000
        } else {
            0x1000
        };
        let fine_y = (self.ppuaddr & 0x7000) >> 12;
        proof {
            lemma_v_fields(self.ppuaddr);
        }
        let addr = base + (self.decoded_nametable_byte as u16) * 16 + fine_y + 8;
        self.decoded_pattern_table_high = self.get_vram_byte_at(addr);
    }
}

/// Sprites are 8x8 when control bit 5 is clear, 8x16 when set.
pub open spec fn square_sprites(p: Ppu) -> bool {
    (p.ppuctrl & 0x20u8) >> 5u8 == 0u8
}

/// The four-bit background colour index at the current fine-x tap of
/// the shift registers, or zero when the background is disabled or the
/// pattern bits are both clear.
pub open spec fn bg_pattern_final(p: Ppu) -> u8 {
    let bit_1 = (p.attribute_table_palette_shift_high >> ((7 - p.fine_x) as u8)) & 0x1u8;
    let bit_2 = (p.attribute_table_palette_shift_low >> ((7 - p.fine_x) as u8)) & 0x1u8;
    let bit_3 = ((p.pattern_table_shift_high >> ((15 - p.fine_x) as u8)) & 0x1u16) as u8;
    let bit_4 = ((p.pattern_table_shift_low >> ((15 - p.fine_x) as u8)) & 0x1u16) as u8;
    if p.ppumask & 0x08u8 != 0u8 && !(bit_3 == 0u8 && bit_4 == 0u8) {
        ((bit_1 << 3u8) | (bit_2 << 2u8) | (bit_3 << 1u8)) | bit_4
    } else {
        0u8
    }
}

/// Stored sprite y is one line early; the on-screen top is one below.
pub open spec fn sprite_y(p: Ppu, i: int) -> int {
    p.oam@[4 * i] + 1
}

pub open spec fn sprite_tile(p: Ppu, i: int) -> u8 {
    p.oam@[4 * i + 1]
}

pub open spec fn sprite_attrs(p: Ppu, i: int) -> u8 {
    p.oam@[4 * i + 2]
}

pub open spec fn sprite_x(p: Ppu, i: int) -> int {
    p.oam@[4 * i + 3] as int
}

/// Whether sprite `i` overlaps the pixel at (`d`, `s`), given the
/// current sprite height.
pub open spec fn sprite_covers(p: Ppu, s: u16, d: u16, i: int) -> bool {
    let h: int = if square_sprites(p) {
        8
    } else {
        16
    };
    &&& d >= sprite_x(p, i)
    &&& d < sprite_x(p, i) + 8
    &&& s >= sprite_y(p, i)
    &&& s < sprite_y(p, i) + h
}

/// Row within the sprite's pattern, honouring vertical flip.
pub open spec fn sprite_height_offset(p: Ppu, s: u16, i: int) -> u16 {
    if sprite_attrs(p, i) & 0x80u8 == 0u8 {
        (s - sprite_y(p, i)) as u16
    } else {
        if square_sprites(p) {
            (7 - (s - sprite_y(p, i))) as u16
        } else {
            (15 - (s - sprite_y(p, i))) as u16
        }
    }
}

/// VRAM address of the low pattern plane byte for sprite `i` on row
/// `s`; 8x8 sprites use the pattern table picked by control bit 3,
/// 8x16 sprites use the table picked by the tile index's low bit.
pub open spec fn sprite_pattern_addr_low(p: Ppu, s: u16, i: int) -> u16 {
    let h = sprite_height_offset(p, s, i);
    if square_sprites(p) {
        let start = (((p.ppuctrl as u16) << 9u16) & 0x1000u16) | ((sprite_tile(p, i) as u16)
            << 4u16);
        (start + h) as u16
    } else {
        let t = sprite_tile(p, i) as u16;
        let start = ((t << 12u16) & 0x1000u16) | ((t << 4u16) & 0x0FE0u16) | ((h << 1u16)
            & 0x10u16);
        (start + (h & 0x7u16)) as u16
    }
}

/// Column within the sprite's pattern strip, honouring horizontal flip.
pub open spec fn sprite_strip(p: Ppu, d: u16, i: int) -> u16 {
    if sprite_attrs(p, i) & 0x40u8 == 0u8 {
        (7 - (d - sprite_x(p, i))) as u16
    } else {
        (d - sprite_x(p, i)) as u16
    }
}

/// The sprite's two pattern bits at this pixel; zero means transparent.
pub open spec fn sprite_pattern_bits(p: Ppu, s: u16, d: u16, i: int) -> u8 {
    let lo = vram_peek(p, sprite_pattern_addr_low(p, s, i));
    let hi = vram_peek(p, (sprite_pattern_addr_low(p, s, i) + 8) as u16);
    let strip = sprite_strip(p, d, i);
    ((lo >> strip) & 0x1u8) | (((hi >> strip) & 0x1u8) << 1u8)
}

/// The palette byte this sprite emits at this pixel.
pub open spec fn sprite_palette_byte(p: Ppu, s: u16, d: u16, i: int) -> u8 {
    let pattern_final = sprite_pattern_bits(p, s, d, i) | ((sprite_attrs(p, i) & 0x3u8) << 2u8);
    vram_peek(p, (0x3F10 + pattern_final) as u16)
}

/// The first sprite at or after index `i` that covers the pixel with a
/// non-transparent pattern.
pub open spec fn first_opaque_sprite(p: Ppu, s: u16, d: u16, i: int) -> Option<int>
    decreases 64 - i,
{
    if i >= 64 {
        None
    } else if sprite_covers(p, s, d, i) && sprite_pattern_bits(p, s, d, i) != 0u8 {
        Some(i)
    } else {
        first_opaque_sprite(p, s, d, i + 1)
    }
}

/// The palette byte emitted at pixel (`d`, `s`): the first opaque
/// covering sprite wins, else the background palette entry.
pub open spec fn pixel_color(p: Ppu, s: u16, d: u16) -> u8 {
    match first_opaque_sprite(p, s, d, 0) {
        Some(i) => sprite_palette_byte(p, s, d, i),
        None => vram_peek(p, (0x3F00 + bg_pattern_final(p)) as u16),
    }
}

/// Sprite-0 hit fires when sprite 0 covers this pixel opaquely and the
/// background is opaque too.
pub open spec fn sprite_zero_hit_now(p: Ppu, s: u16, d: u16) -> bool {
    &&& sprite_covers(p, s, d, 0)
    &&& sprite_pattern_bits(p, s, d, 0) != 0u8
    &&& bg_pattern_final(p) != 0u8
}

/// Bounds for the sprite pattern start addresses.
proof fn lemma_sprite_start_bounds(c: u16, t: u16, h: u16)
    requires
        t <= 255,
    ensures
        (((c << 9u16) & 0x1000u16) | (t << 4u16)) <= 0x1FF0,
        (((t << 12u16) & 0x1000u16) | ((t << 4u16) & 0x0FE0u16) | ((h << 1u16) & 0x10u16))
            <= 0x1FF0,
        h & 0x7u16 <= 7,
{
    assert(t <= 255 ==> ((((c << 9u16) & 0x1000u16) | (t << 4u16)) <= 0x1FF0) && ((((t << 12u16)
        & 0x1000u16) | ((t << 4u16) & 0x0FE0u16) | ((h << 1u16) & 0x10u16)) <= 0x1FF0) && (h
        & 0x7u16 <= 7)) by (bit_vector);
}

impl Ppu {
    /// Computes the palette byte for the pixel at (`dot`, `scanline`),
    /// raising sprite-0 hit when both sprite 0 and the background are
    /// opaque there.
    #[verifier::rlimit(100)]
    fn get_current_pixel(&mut self, scanline: u16, dot: u16) -> (px: u8)
        requires
            old(self).wf(),
            scanline <= 239,
            dot <= 255,
        ensures
            final(self).wf(),
            px == pixel_color(*old(self), scanline, dot),
            final(self).ppustatus == (if sprite_zero_hit_now(*old(self), scanline, dot) {
                old(self).ppustatus | 0x40u8
            } else {
                old(self).ppustatus
            }),
            regs_eq_except_status(*old(self), *final(self)),
            scan_eq(*old(self), *final(self)),
            mem_eq(*old(self), *final(self)),
            pipe_eq(*old(self), *final(self)),
    {
        let ghost p0 = *self;
        let pal_off: u8 = 7 - self.fine_x;
        let pat_off: u8 = 15 - self.fine_x;
        let bit_1: u8 = (self.attribute_table_palette_shift_high >> pal_off) & 0x1;
        let bit_2: u8 = (self.attribute_table_palette_shift_low >> pal_off) & 0x1;
        let bit_3: u8 = #[verifier::truncate] (((self.pattern_table_shift_high >> pat_off) & 0x1)
            as u8);
        let bit_4: u8 = #[verifier::truncate] (((self.pattern_table_shift_low >> pat_off) & 0x1)
            as u8);
        let background_pattern_final: u8 = if self.ppumask & 0x08 != 0 && !(bit_3 == 0 && bit_4
            == 0) {
            ((bit_1 << 3) | (bit_2 << 2) | (bit_3 << 1)) | bit_4
        } else {
            0
        };
        assert(background_pattern_final == bg_pattern_final(p0));
        let background_palette_idx = self.get_vram_byte_at(0x3F00 + (background_pattern_final
            as u16));
        let square = (self.ppuctrl & 0x20) >> 5 == 0;
        let mut sprite_idx: usize = 0;
        while sprite_idx < 64
            invariant
                sprite_idx <= 64,
                self.wf(),
                p0 == *old(self),
                regs_eq(p0, *self),
                scan_eq(p0, *self),
                mem_eq(p0, *self),
                pipe_eq(p0, *self),
                p0.wf(),
                scanline <= 239,
                dot <= 255,
                square == square_sprites(p0),
                background_pattern_final == bg_pattern_final(p0),
                background_palette_idx == vram_peek(p0, (0x3F00 + bg_pattern_final(p0)) as u16),
                first_opaque_sprite(p0, scanline, dot, 0) == first_opaque_sprite(
                    p0,
                    scanline,
                    dot,
                    sprite_idx as int,
                ),
            decreases 64 - sprite_idx,
        {
            let sprite_y_v: u16 = self.oam[4 * sprite_idx] as u16 + 1;
            let pattern_idx: u8 = self.oam[4 * sprite_idx + 1];
            let attributes: u8 = self.oam[4 * sprite_idx + 2];
            let sprite_x_v: u16 = self.oam[4 * sprite_idx + 3] as u16;
            let covers = dot >= sprite_x_v && dot < sprite_x_v + 8 && scanline >= sprite_y_v
                && scanline < sprite_y_v + (if square {
                8
            } else {
                16
            });
            if covers {
                let flip_limit: u16 = if square {
                    7
                } else {
                    15
                };
                let sprite_height_off: u16 = if attributes & 0x80 == 0 {
                    scanline - sprite_y_v
                } else {
                    flip_limit - (scanline - sprite_y_v)
                };
                proof {
                    lemma_sprite_start_bounds(
                        p0.ppuctrl as u16,
                        pattern_idx as u16,
                        sprite_height_off,
                    );
                }
                let pattern_addr_low: u16 = if square {
                    let start = (((self.ppuctrl as u16) << 9) & 0x1000) | ((pattern_idx as u16)
                        << 4);
                    start + sprite_height_off
                } else {
                    let t = pattern_idx as u16;
                    let start = ((t << 12) & 0x1000) | ((t << 4) & 0x0FE0) | ((sprite_height_off
                        << 1) & 0x10);
                    start + (sprite_height_off & 0x7)
                };
                assert(pattern_addr_low == sprite_pattern_addr_low(p0, scanline, sprite_idx as int));
                let pattern_0 = self.get_vram_byte_at(pattern_addr_low);
                let pattern_1 = self.get_vram_byte_at(pattern_addr_low + 8);
                let strip: u16 = if attributes & 0x40 == 0 {
                    7 - (dot - sprite_x_v)
                } else {
                    dot - sprite_x_v
                };
                let pattern_low: u8 = ((pattern_0 >> strip) & 0x1) | (((pattern_1 >> strip) & 0x1)
                    << 1);
                assert(pattern_low == sprite_pattern_bits(p0, scanline, dot, sprite_idx as int));
                if pattern_low != 0 {
                    if sprite_idx == 0 && background_pattern_final != 0 {
                        self.ppustatus = self.ppustatus | 0x40;
                    }
                    let pattern_final: u8 = pattern_low | ((attributes & 0x3) << 2);
                    let palette_idx = self.get_vram_byte_at(0x3F10 + (pattern_final as u16));
                    proof {
                        assert(first_opaque_sprite(p0, scanline, dot, sprite_idx as int)
                            == Some(sprite_idx as int));
                        assert(first_opaque_sprite(p0, scanline, dot, 0) == Some(
                            sprite_idx as int,
                        ));
                        assert(palette_idx == sprite_palette_byte(
                            p0,
                            scanline,
                            dot,
                            sprite_idx as int,
                        ));
                        if sprite_idx != 0 && sprite_covers(p0, scanline, dot, 0)
                            && sprite_pattern_bits(p0, scanline, dot, 0) != 0u8 {
                            assert(first_opaque_sprite(p0, scanline, dot, 0) == Some(0int));
                            assert(false);
                        }
                    }
                    return palette_idx;
                }
            }
            proof {
                assert(first_opaque_sprite(p0, scanline, dot, sprite_idx as int)
                    == first_opaque_sprite(p0, scanline, dot, sprite_idx + 1));
            }
            sprite_idx = sprite_idx + 1;
        }
        background_palette_idx
    }
}

/// The odd-frame dot skip: the pre-render line loses its next-to-last
/// dot when rendering is enabled.
pub open spec fn scan_skip(s: u16, c: u16, even: bool, en: bool) -> bool {
    en && s == 261 && c == 339 && !even
}

/// The scan position after one dot, wrapping scanline and frame.
pub open spec fn scan_next(s: u16, c: u16, even: bool, en: bool) -> (u16, u16, bool) {
    let c2 = if scan_skip(s, c, even, en) {
        c + 2
    } else {
        c + 1
    };
    if c2 > 340 {
        if s == 261 {
            (0u16, 0u16, !even)
        } else {
            ((s + 1) as u16, 0u16, even)
        }
    } else {
        (s, c2 as u16, even)
    }
}

/// Whether the dot at this position is the last of its frame.
pub open spec fn scan_frame_end(s: u16, c: u16, even: bool, en: bool) -> bool {
    s == 261 && (c == 340 || scan_skip(s, c, even, en))
}

/// A pixel is emitted on visible scanlines at dots 1 through 256.
pub open spec fn draws_pixel(p: Ppu) -> bool {
    p.scanline <= 239 && 1 <= p.cycle <= 256
}

/// The status register after one dot: sprite-0 hit from the drawn
/// pixel, vblank raised at (241, 1), vblank and sprite-0 hit cleared at
/// (261, 1).
pub open spec fn step_status(p: Ppu) -> u8 {
    let s0 = if draws_pixel(p) && sprite_zero_hit_now(p, p.scanline, (p.cycle - 1) as u16) {
        p.ppustatus | 0x40u8
    } else {
        p.ppustatus
    };
    if p.cycle == 1 && p.scanline == 241 {
        s0 | 0x80u8
    } else if p.cycle == 1 && p.scanline == 261 {
        s0 & 0x3Fu8
    } else {
        s0
    }
}

/// The NMI line after one dot: armed at (241, 1) when control bit 7 is
/// set, dropped when it is clear.
pub open spec fn step_nmi(p: Ppu) -> bool {
    if p.cycle == 1 && p.scanline == 241 {
        (p.ppuctrl >> 7u8) & 0x1u8 != 0u8
    } else {
        p.nmi_waiting
    }
}

/// OAMADDR is forced to zero during dots 257 through 320 of the
/// pre-render and visible scanlines.
pub open spec fn step_oamaddr(p: Ppu) -> u8 {
    if (p.scanline == 261 || p.scanline < 240) && 257 <= p.cycle <= 320 {
        0u8
    } else {
        p.oamaddr
    }
}

/// The current VRAM address after one dot: when rendering is active,
/// coarse x increments at the end of each fetch, fine y increments at
/// dot 256, the horizontal bits reload from `t` at dot 257, and the
/// vertical bits reload during dots 280 through 304 of the pre-render
/// line.
pub open spec fn step_v(p: Ppu) -> u16 {
    if rendering_enabled(p) && scan_eligible(p) {
        let v1 = if fetch_window(p.cycle) && p.cycle % 8 == 0 {
            coarse_x_inc(p.ppuaddr)
        } else {
            p.ppuaddr
        };
        if p.cycle == 256 {
            fine_y_inc(v1)
        } else if p.cycle == 257 {
            (v1 & 0xFBE0u16) | (p.ppuscroll & 0x041Fu16)
        } else if p.scanline == 261 && 280 <= p.cycle <= 304 {
            (v1 & 0x841Fu16) | (p.ppuscroll & 0x7BE0u16)
        } else {
            v1
        }
    } else {
        p.ppuaddr
    }
}

/// The control register after one dot: its nametable-select bits track
/// the VRAM address when the scroll bits reload.
pub open spec fn step_ctrl(p: Ppu) -> u8 {
    if rendering_enabled(p) && scan_eligible(p) && p.cycle == 257 {
        (p.ppuctrl & 0xFEu8) | (((step_v(p) >> 10u16) & 0x1u16) as u8)
    } else if rendering_enabled(p) && p.scanline == 261 && 280 <= p.cycle <= 304 {
        (p.ppuctrl & 0xFDu8) | (((step_v(p) >> 10u16) & 0x3u16) as u8)
    } else {
        p.ppuctrl
    }
}

/// The frame buffer after one dot: on visible dots the drawn pixel's
/// palette byte lands at its position.
pub open spec fn step_frame(p: Ppu) -> Seq<u8> {
    if draws_pixel(p) {
        p.frame@.update(p.scanline * 256 + (p.cycle - 1), pixel_color(p, p.scanline, (p.cycle
            - 1) as u16))
    } else {
        p.frame@
    }
}

/// How the shift registers and fetch latches change over one dot.
pub open spec fn pipeline_rel(p: Ppu, q: Ppu) -> bool {
    if rendering_enabled(p) && scan_eligible(p) && fetch_window(p.cycle) {
        let ptl = p.pattern_table_shift_low << 1u16;
        let pth = p.pattern_table_shift_high << 1u16;
        let asl = if p.attribute_table_palette_latch_low {
            (p.attribute_table_palette_shift_low << 1u8) | 0x1u8
        } else {
            p.attribute_table_palette_shift_low << 1u8
        };
        let ash = if p.attribute_table_palette_latch_high {
            (p.attribute_table_palette_shift_high << 1u8) | 0x1u8
        } else {
            p.attribute_table_palette_shift_high << 1u8
        };
        &&& q.attribute_table_palette_shift_low == asl
        &&& q.attribute_table_palette_shift_high == ash
        &&& if p.cycle % 8 == 1 {
            &&& q.pattern_table_shift_low == (ptl & 0xFF00u16) | (p.decoded_pattern_table_low
                as u16)
            &&& q.pattern_table_shift_high == (pth & 0xFF00u16) | (p.decoded_pattern_table_high
                as u16)
            &&& q.attribute_table_palette_latch_low == p.decoded_attribute_table_bit_low
            &&& q.attribute_table_palette_latch_high == p.decoded_attribute_table_bit_high
            &&& q.decoded_nametable_byte == vram_peek(p, nt_addr(p.ppuaddr))
            &&& q.decoded_attribute_table_bit_low == p.decoded_attribute_table_bit_low
            &&& q.decoded_attribute_table_bit_high == p.decoded_attribute_table_bit_high
            &&& q.decoded_pattern_table_low == p.decoded_pattern_table_low
            &&& q.decoded_pattern_table_high == p.decoded_pattern_table_high
        } else {
            &&& q.pattern_table_shift_low == ptl
            &&& q.pattern_table_shift_high == pth
            &&& q.attribute_table_palette_latch_low == p.attribute_table_palette_latch_low
            &&& q.attribute_table_palette_latch_high == p.attribute_table_palette_latch_high
            &&& q.decoded_nametable_byte == p.decoded_nametable_byte
            &&& q.decoded_attribute_table_bit_low == (if p.cycle % 8 == 3 {
                attr_quadrant_bits(p) & 0x1u8 != 0u8
            } else {
                p.decoded_attribute_table_bit_low
            })
            &&& q.decoded_attribute_table_bit_high == (if p.cycle % 8 == 3 {
                attr_quadrant_bits(p) & 0x2u8 != 0u8
            } else {
                p.decoded_attribute_table_bit_high
            })
            &&& q.decoded_pattern_table_low == (if p.cycle % 8 == 5 {
                vram_peek(p, pattern_low_addr(p))
            } else {
                p.decoded_pattern_table_low
            })
            &&& q.decoded_pattern_table_high == (if p.cycle % 8 == 7 {
                vram_peek(p, pattern_high_addr(p))
            } else {
                p.decoded_pattern_table_high
            })
        }
    } else {
        pipe_eq(p, q)
    }
}

impl Ppu {
    /// The rendering-enabled work of one dot: pipeline shifts and
    /// fetches, the scroll-address increments and reloads, and the
    /// odd-frame dot skip.
    #[verifier::rlimit(100)]
    fn render_tick(&mut self)
        requires
            old(self).wf(),
        ensures
            final(self).wf(),
            final(self).vram@ == old(self).vram@,
            final(self).oam@ == old(self).oam@,
            final(self).frame@ == old(self).frame@,
            final(self).mirror_type == old(self).mirror_type,
            final(self).ppumask == old(self).ppumask,
            final(self).ppuscroll == old(self).ppuscroll,
            final(self).ppudata_buffer == old(self).ppudata_buffer,
            final(self).fine_x == old(self).fine_x,
            final(self).two_write_partial == old(self).two_write_partial,
            final(self).ppustatus == old(self).ppustatus,
            final(self).oamaddr == old(self).oamaddr,
            final(self).nmi_waiting == old(self).nmi_waiting,
            final(self).scanline == old(self).scanline,
            final(self).even_frame == old(self).even_frame,
            final(self).cycle == (if scan_skip(
                old(self).scanline,
                old(self).cycle,
                old(self).even_frame,
                rendering_enabled(*old(self)),
            ) {
                (old(self).cycle + 1) as u16
            } else {
                old(self).cycle
            }),
            final(self).ppuaddr == step_v(*old(self)),
            final(self).ppuctrl == step_ctrl(*old(self)),
            pipeline_rel(*old(self), *final(self)),
    {
        if self.ppumask & 0x18 != 0 {
            let eligible = self.scanline <= 239 || self.scanline == 261;
            if eligible && ((self.cycle >= 1 && self.cycle <= 256) || (self.cycle >= 321
                && self.cycle <= 336)) {
                self.pattern_table_shift_low = self.pattern_table_shift_low << 1;
                self.pattern_table_shift_high = self.pattern_table_shift_high << 1;
                self.attribute_table_palette_shift_low = self.attribute_table_palette_shift_low
                    << 1;
                if self.attribute_table_palette_latch_low {
                    self.attribute_table_palette_shift_low = self.attribute_table_palette_shift_low
                        | 0x01;
                }
                self.attribute_table_palette_shift_high = self.attribute_table_palette_shift_high
                    << 1;
                if self.attribute_table_palette_latch_high {
                    self.attribute_table_palette_shift_high =
                        self.attribute_table_palette_shift_high | 0x01;
                }
                if self.cycle % 8 == 0 {
                    self.coarse_x_increment();
                } else if self.cycle % 8 == 1 {
                    self.reload_shift_registers();
                    self.decode_nametable_byte();
                } else if self.cycle % 8 == 3 {
                    self.decode_attribute_table_byte();
                } else if self.cycle % 8 == 5 {
                    self.decode_pattern_table_low();
                } else if self.cycle % 8 == 7 {
                    self.decode_pattern_table_high();
                }
            }
            if eligible {
                if self.cycle == 256 {
                    self.fine_y_increment();
                } else if self.cycle == 257 {
                    self.ppuaddr = (self.ppuaddr & 0xFBE0) | (self.ppuscroll & 0x041F);
                    self.ppuctrl = (self.ppuctrl & 0xFE) | (((self.ppuaddr >> 10) & 0x1) as u8);
                }
            }
            if self.scanline == 261 {
                if self.cycle >= 280 && self.cycle <= 304 {
                    self.ppuaddr = (self.ppuaddr & 0x841F) | (self.ppuscroll & 0x7BE0);
                    self.ppuctrl = (self.ppuctrl & 0xFD) | (((self.ppuaddr >> 10) & 0x3) as u8);
                } else if self.cycle == 339 && !self.even_frame {
                    self.cycle = self.cycle + 1;
                }
            }
        }
    }
}

/// Everything one PPU dot does, as a relation between the state
/// before, the state after, and the end-of-frame report.
pub open spec fn ppu_step_rel(p0: Ppu, p1: Ppu, frame_end: bool) -> bool {
    &&& p1.vram@ == p0.vram@
    &&& p1.oam@ == p0.oam@
    &&& p1.mirror_type == p0.mirror_type
    &&& p1.ppumask == p0.ppumask
    &&& p1.ppuscroll == p0.ppuscroll
    &&& p1.ppudata_buffer == p0.ppudata_buffer
    &&& p1.fine_x == p0.fine_x
    &&& p1.two_write_partial == p0.two_write_partial
    &&& (p1.scanline, p1.cycle, p1.even_frame) == scan_next(
        p0.scanline,
        p0.cycle,
        p0.even_frame,
        rendering_enabled(p0),
    )
    &&& frame_end == scan_frame_end(p0.scanline, p0.cycle, p0.even_frame, rendering_enabled(p0))
    &&& p1.nmi_waiting == step_nmi(p0)
    &&& p1.ppustatus == step_status(p0)
    &&& p1.oamaddr == step_oamaddr(p0)
    &&& p1.ppuaddr == step_v(p0)
    &&& p1.ppuctrl == step_ctrl(p0)
    &&& p1.frame@ == step_frame(p0)
    &&& pipeline_rel(p0, p1)
}

impl Ppu {
    /// Advances the PPU by one dot: draws the pixel on visible dots,
    /// runs the background fetch pipeline and the scroll-address
    /// increments when rendering is enabled, latches the vblank and
    /// sprite-0 flags at their fixed dots, and steps the scan position.
    /// Returns true exactly when this dot completes a frame.
    #[verifier::rlimit(100)]
    pub fn step(&mut self) -> (frame_end: bool)
        requires
            old(self).wf(),
        ensures
            final(self).wf(),
            ppu_step_rel(*old(self), *final(self), frame_end),
    {
        let ghost p0 = *self;
        if self.scanline <= 239 && self.cycle >= 1 && self.cycle <= 256 {
            let dot = self.cycle - 1;
            let px = self.get_current_pixel(self.scanline, dot);
            let idx: usize = (self.scanline as usize) * 256 + (dot as usize);
            self.frame.set(idx, px);
        }
        let ghost p1 = *self;
        self.render_tick();
        proof {
            assert(step_v(p1) == step_v(p0));
            assert(step_ctrl(p1) == step_ctrl(p0));
            assert(pipeline_rel(p1, *self) ==> pipeline_rel(p0, *self));
        }
        if self.cycle == 1 {
            if self.scanline == 241 {
                self.ppustatus = self.ppustatus | 0x80;
                self.nmi_waiting = (self.ppuctrl >> 7) & 0x1 != 0;
            } else if self.scanline == 261 {
                self.ppustatus = self.ppustatus & 0x3F;
            }
        }
        if (self.scanline == 261 || self.scanline < 240) && (self.cycle >= 257 && self.cycle
            <= 320) {
            self.oamaddr = 0;
        }
        self.cycle = self.cycle + 1;
        let mut frame_end = false;
        if self.cycle > 340 {
            self.cycle = 0;
            self.scanline = self.scanline + 1;
            if self.scanline > 261 {
                self.scanline = 0;
                self.even_frame = !self.even_frame;
                frame_end = true;
            }
        }
        frame_end
    }
}

/// The scan position reached from (`s`, `c`) after `n` dots.
pub open spec fn scan_iter(s: u16, c: u16, even: bool, en: bool, n: nat) -> (u16, u16, bool)
    decreases n,
{
    if n == 0 {
        (s, c, even)
    } else {
        let prev = scan_iter(s, c, even, en, (n - 1) as nat);
        scan_next(prev.0, prev.1, prev.2, en)
    }
}

/// Whether the `k`-th step taken from frame start reports end of frame.
pub open spec fn scan_ends(even: bool, en: bool, k: nat) -> bool {
    let pos = scan_iter(0, 0, even, en, k);
    scan_frame_end(pos.0, pos.1, pos.2, en)
}

/// Steps in one frame: 341 x 262, less the one skipped dot on frames
/// that start with `even_frame` clear while rendering is enabled.
pub open spec fn frame_steps(even: bool, en: bool) -> int {
    if en && !even {
        89341
    } else {
        89342
    }
}

/// Until the skipped dot can occur, the scan position after `k` dots
/// from (0, 0) is simply dot index `k` of the frame.
proof fn lemma_scan_iter_pos(even: bool, en: bool, k: nat)
    requires
        k <= frame_steps(even, en) - 1,
    ensures
        scan_iter(0, 0, even, en, k) == (((k as int / 341) as u16, (k as int % 341) as u16, even)),
    decreases k,
{
    vstd::arithmetic::div_mod::lemma_mod_bound(k as int, 341);
    vstd::arithmetic::div_mod::lemma_fundamental_div_mod(k as int, 341);
    if k > 0 {
        let j = (k - 1) as nat;
        lemma_scan_iter_pos(even, en, j);
        vstd::arithmetic::div_mod::lemma_mod_bound(j as int, 341);
        vstd::arithmetic::div_mod::lemma_fundamental_div_mod(j as int, 341);
        let q = j as int / 341;
        let r = j as int % 341;
        assert(q <= 261) by (nonlinear_arith)
            requires
                j as int == 341 * q + r,
                0 <= r < 341,
                j <= 89341,
        ;
        if r == 340 {
            assert(k as int == 341 * (q + 1));
        } else {
            assert(k as int == 341 * q + (r + 1));
        }
    }
}

/// The frame invariant: from the first dot of a frame, none of the
/// first `frame_steps - 1` steps reports end of frame, the very next
/// step does, and the position is then back at (0, 0) with the frame
/// parity flipped.
pub proof fn lemma_frame_length(even: bool, en: bool)
    ensures
        forall|k: nat| k < frame_steps(even, en) - 1 ==> !scan_ends(even, en, k),
        scan_ends(even, en, (frame_steps(even, en) - 1) as nat),
        scan_iter(0, 0, even, en, frame_steps(even, en) as nat) == (0u16, 0u16, !even),
{
    assert forall|k: nat| k < frame_steps(even, en) - 1 implies !scan_ends(even, en, k) by {
        lemma_scan_iter_pos(even, en, k);
        vstd::arithmetic::div_mod::lemma_mod_bound(k as int, 341);
        vstd::arithmetic::div_mod::lemma_fundamental_div_mod(k as int, 341);
        let q = k as int / 341;
        let r = k as int % 341;
        assert(q == 261 ==> k as int == 89001 + r);
    }
    let last = (frame_steps(even, en) - 1) as nat;
    lemma_scan_iter_pos(even, en, last);
    vstd::arithmetic::div_mod::lemma_fundamental_div_mod(last as int, 341);
    if en && !even {
        assert(last as int == 341 * 261 + 339);
        assert(last as int / 341 == 261 && last as int % 341 == 339) by (nonlinear_arith)
            requires
                last as int == 341 * 261 + 339,
        ;
    } else {
        assert(last as int == 341 * 261 + 340);
        assert(last as int / 341 == 261 && last as int % 341 == 340) by (nonlinear_arith)
            requires
                last as int == 341 * 261 + 340,
        ;
    }
}

/// The 64-entry master palette: maps a palette index (taken modulo the
/// 6-bit palette size, as the hardware wires it) to its RGB colour.
/// This constant table is the specification of the colours.
pub fn palette_color(idx: u8) -> (rgb: (u8, u8, u8)) {
    let i = idx % 0x40;
    match i {
        0x00 => (0x75, 0x75, 0x75),
        0x01 => (0x27, 0x1B, 0x8F),
        0x02 => (0x00, 0x00, 0xAB),
        0x03 => (0x47, 0x00, 0x9F),
        0x04 => (0x8F, 0x00, 0x77),
        0x05 => (0xAB, 0x00, 0x13),
        0x06 => (0xA7, 0x00, 0x00),
        0x07 => (0x7F, 0x0B, 0x00),
        0x08 => (0x43, 0x2F, 0x00),
        0x09 => (0x00, 0x47, 0x00),
        0x0A => (0x00, 0x51, 0x00),
        0x0B => (0x00, 0x3F, 0x17),
        0x0C => (0x1B, 0x3F, 0x5F),
        0x0D => (0x00, 0x00, 0x00),
        0x0E => (0x00, 0x00, 0x00),
        0x0F => (0x00, 0x00, 0x00),
        0x10 => (0xBC, 0xBC, 0xBC),
        0x11 => (0x00, 0x73, 0xEF),
        0x12 => (0x23, 0x3B, 0xEF),
        0x13 => (0x83, 0x00, 0xF3),
        0x14 => (0xBF, 0x00, 0xBF),
        0x15 => (0xE7, 0x00, 0x5B),
        0x16 => (0xDB, 0x2B, 0x00),
        0x17 => (0xCB, 0x4F, 0x0F),
        0x18 => (0x8B, 0x73, 0x00),
        0x19 => (0x00, 0x97, 0x00),
        0x1A => (0x00, 0xAB, 0x00),
        0x1B => (0x00, 0x93, 0x3B),
        0x1C => (0x00, 0x83, 0x8B),
        0x1D => (0x00, 0x00, 0x00),
        0x1E => (0x00, 0x00, 0x00),
        0x1F => (0x00, 0x00, 0x00),
        0x20 => (0xFF, 0xFF, 0xFF),
        0x21 => (0x3F, 0xBF, 0xFF),
        0x22 => (0x5F, 0x97, 0xFF),
        0x23 => (0xA7, 0x8B, 0xFD),
        0x24 => (0xF7, 0x7B, 0xFF),
        0x25 => (0xFF, 0x77, 0xB7),
        0x26 => (0xFF, 0x77, 0x63),
        0x27 => (0xFF, 0x9B, 0x3B),
        0x28 => (0xF3, 0xBF, 0x3F),
        0x29 => (0x83, 0xD3, 0x13),
        0x2A => (0x4F, 0xDF, 0x4B),
        0x2B => (0x58, 0xF8, 0x98),
        0x2C => (0x00, 0xEB, 0xDB),
        0x2D => (0x00, 0x00, 0x00),
        0x2E => (0x00, 0x00, 0x00),
        0x2F => (0x00, 0x00, 0x00),
        0x30 => (0xFF, 0xFF, 0xFF),
        0x31 => (0xAB, 0xE7, 0xFF),
        0x32 => (0xC7, 0xD7, 0xFF),
        0x33 => (0xD7, 0xCB, 0xFF),
        0x34 => (0xFF, 0xC7, 0xFF),
        0x35 => (0xFF, 0xC7, 0xDB),
        0x36 => (0xFF, 0xBF, 0xB3),
        0x37 => (0xFF, 0xDB, 0xAB),
        0x38 => (0xFF, 0xE7, 0xA3),
        0x39 => (0xE3, 0xFF, 0xA3),
        0x3A => (0xAB, 0xF3, 0xBF),
        0x3B => (0xB3, 0xFF, 0xCF),
        0x3C => (0x9F, 0xFF, 0xF3),
        _ => (0x00, 0x00, 0x00),
    }
}

} // verus!
