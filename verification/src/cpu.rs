//! The 6502-derived processor: decode, addressing, execution, flags,
//! stack and interrupt dispatch, all against the memory bus.
//!
//! Every instruction's effect on registers, flags, memory and the
//! cycle budget is stated by a transition relation and proved.

use vstd::prelude::*;

use crate::bus::{
    bus_eq, bus_peek, bus_readable, plain_addr, read_rel, write_rel, Bus, BusError,
};

verus! {

/// Instruction kinds: the documented set plus the common illegal
/// combinations.
#[derive(Copy, Clone, Debug, PartialEq, Eq, Structural)]
pub enum Opcode {
    Add,
    And,
    Asl,
    Bcc,
    Bcs,
    Beq,
    Bit,
    Bmi,
    Bne,
    Bpl,
    Brk,
    Bvc,
    Bvs,
    Clc,
    Cld,
    Cli,
    Clv,
    Cmp,
    Cpx,
    Cpy,
    Dcp,
    Dec,
    Dex,
    Dey,
    Eor,
    Inc,
    Inx,
    Iny,
    Isc,
    Jmp,
    Jsr,
    Lax,
    Lda,
    Ldx,
    Ldy,
    Lsr,
    Nop,
    Ora,
    Pha,
    Php,
    Pla,
    Plp,
    Rla,
    Rol,
    Ror,
    Rra,
    Rti,
    Rts,
    Sax,
    Sbc,
    Sec,
    Sed,
    Sei,
    Slo,
    Sre,
    Sta,
    Stx,
    Sty,
    Tax,
    Tay,
    Tsx,
    Txa,
    Txs,
    Tya,
}

/// An addressing mode with its decoded operand.
#[derive(Copy, Clone, Debug, PartialEq, Eq, Structural)]
pub enum AddressingMode {
    ZeroPage(u8),
    ZeroPageX(u8),
    ZeroPageY(u8),
    Absolute(u16),
    AbsoluteX(u16),
    AbsoluteY(u16),
    Indirect(u16),
    IndirectX(u8),
    IndirectY(u8),
    Implicit,
    Immediate(u8),
    Relative(i8),
    Accumulator,
}

/// A decoded instruction: kind, mode with operand, base cycles, and
/// whether a page crossing costs one more cycle.
#[derive(Copy, Clone, Debug, PartialEq, Eq, Structural)]
pub struct Instruction {
    pub opcode: Opcode,
    pub mode: AddressingMode,
    pub cycles: u8,
    pub page_cross_cost: bool,
}

/// The three interrupt lines.
#[derive(Clone, Copy, Debug, PartialEq, Eq, Structural)]
pub enum Interrupt {
    Irq,
    Nmi,
    Reset,
}

/// Why a CPU step stopped: an opcode outside the decode table (with
/// the program counter and the byte), or a bus fault.
#[derive(Clone, Copy, Debug, PartialEq, Eq, Structural)]
pub enum CpuError {
    UnknownOpcode(u16, u8),
    Bus(BusError),
}

/// Processor state. The break flag is not stored; it is synthesised
/// when the status byte is pushed.
#[derive(Clone, Copy, Debug, PartialEq, Eq, Structural)]
pub struct Cpu {
    pub pc: u16,
    pub sp: u8,
    pub accumulator: u8,
    pub x: u8,
    pub y: u8,
    pub cycles_left: u16,
    pub cycles_completed: u64,
    pub carry: bool,
    pub zero: bool,
    pub interrupt: bool,
    pub decimal: bool,
    pub overflow: bool,
    pub sign: bool,
}

impl Cpu {
    /// The cycle budget stays below the DMA stall plus the longest
    /// instruction, so cycle bookkeeping cannot overflow.
    pub open spec fn wf(self) -> bool {
        self.cycles_left <= 1000
    }

    /// A powered-on CPU: all registers and flags clear.
    pub fn new() -> (r: Cpu)
        ensures
            r.wf(),
            r.pc == 0u16 && r.sp == 0u8 && r.accumulator == 0u8 && r.x == 0u8 && r.y == 0u8,
            r.cycles_left == 0u16 && r.cycles_completed == 0u64,
            !r.carry && !r.zero && !r.interrupt && !r.decimal && !r.overflow && !r.sign,
    {
        Cpu {
            pc: 0,
            sp: 0,
            accumulator: 0,
            x: 0,
            y: 0,
            cycles_left: 0,
            cycles_completed: 0,
            carry: false,
            zero: false,
            interrupt: false,
            decimal: false,
            overflow: false,
            sign: false,
        }
    }
}

/// The status byte as pushed on the stack: bit 5 always set, the break
/// bit as requested.
pub open spec fn status_byte(c: Cpu, brk: bool) -> u8 {
    ((((((((if c.sign {
        0x80u8
    } else {
        0u8
    }) | (if c.overflow {
        0x40u8
    } else {
        0u8
    })) | 0x20u8) | (if brk {
        0x10u8
    } else {
        0u8
    })) | (if c.decimal {
        0x08u8
    } else {
        0u8
    })) | (if c.interrupt {
        0x04u8
    } else {
        0u8
    })) | (if c.zero {
        0x02u8
    } else {
        0u8
    })) | (if c.carry {
        0x01u8
    } else {
        0u8
    }))
}

/// Each flag can be recovered from the packed status byte.
pub proof fn lemma_status_bits(c: Cpu, brk: bool)
    ensures
        (status_byte(c, brk) & 0x80u8 != 0u8) == c.sign,
        (status_byte(c, brk) & 0x40u8 != 0u8) == c.overflow,
        (status_byte(c, brk) & 0x20u8 != 0u8) == true,
        (status_byte(c, brk) & 0x10u8 != 0u8) == brk,
        (status_byte(c, brk) & 0x08u8 != 0u8) == c.decimal,
        (status_byte(c, brk) & 0x04u8 != 0u8) == c.interrupt,
        (status_byte(c, brk) & 0x02u8 != 0u8) == c.zero,
        (status_byte(c, brk) & 0x01u8 != 0u8) == c.carry,
{
    let sn: u8 = if c.sign {
        0x80
    } else {
        0
    };
    let sv: u8 = if c.overflow {
        0x40
    } else {
        0
    };
    let sb: u8 = if brk {
        0x10
    } else {
        0
    };
    let sd: u8 = if c.decimal {
        0x08
    } else {
        0
    };
    let si: u8 = if c.interrupt {
        0x04
    } else {
        0
    };
    let sz: u8 = if c.zero {
        0x02
    } else {
        0
    };
    let sc: u8 = if c.carry {
        0x01
    } else {
        0
    };
    let b = status_byte(c, brk);
    assert(b == (((((((sn | sv) | 0x20u8) | sb) | sd) | si) | sz) | sc));
    assert((sn == 0x80 || sn == 0) && (sv == 0x40 || sv == 0) && (sb == 0x10 || sb == 0) && (sd
        == 0x08 || sd == 0) && (si == 0x04 || si == 0) && (sz == 0x02 || sz == 0) && (sc == 0x01
        || sc == 0) ==> {
        let t = (((((((sn | sv) | 0x20u8) | sb) | sd) | si) | sz) | sc);
        &&& (t & 0x80u8) == sn
        &&& (t & 0x40u8) == sv
        &&& (t & 0x20u8) == 0x20u8
        &&& (t & 0x10u8) == sb
        &&& (t & 0x08u8) == sd
        &&& (t & 0x04u8) == si
        &&& (t & 0x02u8) == sz
        &&& (t & 0x01u8) == sc
    }) by (bit_vector);
}

/// The stack cell a push with pointer `sp` lands in.
pub open spec fn stack_slot(sp: u8) -> int {
    0x100 + sp
}

/// Bus unchanged except work RAM, which holds the given sequence.
pub open spec fn bus_ram_now(b0: Bus, b1: Bus, ram: Seq<u8>) -> bool {
    &&& b1.ram@ == ram
    &&& crate::bus::rom_eq(b0.rom, b1.rom)
    &&& crate::bus::controller_eq(b0.controller, b1.controller)
    &&& b1.dma_pending == b0.dma_pending
    &&& b1.keys == b0.keys
    &&& crate::ppu::ppu_eq(b0.ppu, b1.ppu)
}

/// CPU fields that the ALU leaves alone: program counter, stack
/// pointer and cycle counters.
pub open spec fn cpu_frame_eq(a: Cpu, b: Cpu) -> bool {
    &&& a.pc == b.pc
    &&& a.sp == b.sp
    &&& a.cycles_left == b.cycles_left
    &&& a.cycles_completed == b.cycles_completed
}

/// The six behavioural flags agree.
pub open spec fn flags_eq(a: Cpu, b: Cpu) -> bool {
    &&& a.carry == b.carry
    &&& a.zero == b.zero
    &&& a.interrupt == b.interrupt
    &&& a.decimal == b.decimal
    &&& a.overflow == b.overflow
    &&& a.sign == b.sign
}

/// The three data registers agree.
pub open spec fn axy_eq(a: Cpu, b: Cpu) -> bool {
    &&& a.accumulator == b.accumulator
    &&& a.x == b.x
    &&& a.y == b.y
}

/// Zero and sign flags describe the value `v`.
pub open spec fn zn(c: Cpu, v: u8) -> bool {
    &&& c.zero == (v == 0u8)
    &&& c.sign == (v & 0x80u8 != 0u8)
}

impl Cpu {
    /// Pushes a byte on the stack; the pointer decrements with silent
    /// wrap.
    fn push_byte(&mut self, bus: &mut Bus, val: u8)
        requires
            old(self).wf(),
            old(bus).wf(),
        ensures
            final(self).wf(),
            final(bus).wf(),
            final(self).sp == ((old(self).sp - 1) % 256) as u8,
            final(self).pc == old(self).pc,
            axy_eq(*old(self), *final(self)),
            flags_eq(*old(self), *final(self)),
            final(self).cycles_left == old(self).cycles_left,
            final(self).cycles_completed == old(self).cycles_completed,
            bus_ram_now(
                *old(bus),
                *final(bus),
                old(bus).ram@.update(stack_slot(old(self).sp), val),
            ),
    {
        let addr = 0x100 + (self.sp as u16);
        let _r = bus.set_byte_at(addr, val);
        self.sp = self.sp.wrapping_sub(1);
    }

    /// Pushes a word: high byte first, then low.
    fn push_word(&mut self, bus: &mut Bus, val: u16)
        requires
            old(self).wf(),
            old(bus).wf(),
        ensures
            final(self).wf(),
            final(bus).wf(),
            final(self).sp == ((old(self).sp - 2) % 256) as u8,
            final(self).pc == old(self).pc,
            axy_eq(*old(self), *final(self)),
            flags_eq(*old(self), *final(self)),
            final(self).cycles_left == old(self).cycles_left,
            final(self).cycles_completed == old(self).cycles_completed,
            bus_ram_now(
                *old(bus),
                *final(bus),
                old(bus).ram@.update(stack_slot(old(self).sp), ((val >> 8u16) & 0xFFu16) as u8)
                    .update(stack_slot(((old(self).sp - 1) % 256) as u8), (val & 0xFFu16) as u8),
            ),
    {
        let low_byte = (val & 0xFF) as u8;
        let high_byte = ((val >> 8) & 0xFF) as u8;
        self.push_byte(bus, high_byte);
        self.push_byte(bus, low_byte);
    }

    /// Pulls a byte from the stack; the pointer increments with silent
    /// wrap.
    fn pop_byte(&mut self, bus: &Bus) -> (r: u8)
        requires
            old(self).wf(),
            bus.wf(),
        ensures
            final(self).wf(),
            final(self).sp == ((old(self).sp + 1) % 256) as u8,
            final(self).pc == old(self).pc,
            axy_eq(*old(self), *final(self)),
            flags_eq(*old(self), *final(self)),
            final(self).cycles_left == old(self).cycles_left,
            final(self).cycles_completed == old(self).cycles_completed,
            r == bus.ram@[stack_slot(final(self).sp)],
    {
        self.sp = self.sp.wrapping_add(1);
        bus.read_plain(0x100 + (self.sp as u16))
    }

    /// Pulls a word: low byte first, then high.
    fn pop_word(&mut self, bus: &Bus) -> (r: u16)
        requires
            old(self).wf(),
            bus.wf(),
        ensures
            final(self).wf(),
            final(self).sp == ((old(self).sp + 2) % 256) as u8,
            final(self).pc == old(self).pc,
            axy_eq(*old(self), *final(self)),
            flags_eq(*old(self), *final(self)),
            final(self).cycles_left == old(self).cycles_left,
            final(self).cycles_completed == old(self).cycles_completed,
            r == (((bus.ram@[stack_slot(((old(self).sp + 2) % 256) as u8)] as u16) << 8u16) | (
            bus.ram@[stack_slot(((old(self).sp + 1) % 256) as u8)] as u16)),
    {
        let low_byte = self.pop_byte(bus);
        let high_byte = self.pop_byte(bus);
        ((high_byte as u16) << 8) | (low_byte as u16)
    }
}

/// Whether the mode names a memory location.
pub open spec fn mode_has_addr(m: AddressingMode) -> bool {
    match m {
        AddressingMode::ZeroPage(_) => true,
        AddressingMode::ZeroPageX(_) => true,
        AddressingMode::ZeroPageY(_) => true,
        AddressingMode::Absolute(_) => true,
        AddressingMode::AbsoluteX(_) => true,
        AddressingMode::AbsoluteY(_) => true,
        AddressingMode::IndirectX(_) => true,
        AddressingMode::IndirectY(_) => true,
        _ => false,
    }
}

/// Whether the mode can supply an operand byte.
pub open spec fn mode_reads(m: AddressingMode) -> bool {
    mode_has_addr(m) || m is Immediate || m is Accumulator
}

/// The effective address of a mode: zero-page indexing never leaves
/// page zero, absolute indexing wraps at the top of the address
/// space, and the indirect modes read their pointers from page zero.
pub open spec fn eff_addr(c: Cpu, b: Bus, m: AddressingMode) -> u16 {
    match m {
        AddressingMode::ZeroPage(v) => v as u16,
        AddressingMode::ZeroPageX(v) => ((v + c.x) % 256) as u16,
        AddressingMode::ZeroPageY(v) => ((v + c.y) % 256) as u16,
        AddressingMode::Absolute(a) => a,
        AddressingMode::AbsoluteX(a) => ((a + c.x) % 0x10000) as u16,
        AddressingMode::AbsoluteY(a) => ((a + c.y) % 0x10000) as u16,
        AddressingMode::IndirectX(v) => {
            let lo = bus_peek(b, ((v + c.x) % 256) as u16);
            let hi = bus_peek(b, ((v + c.x + 1) % 256) as u16);
            ((hi as u16) << 8u16) | (lo as u16)
        },
        AddressingMode::IndirectY(v) => {
            let lo = bus_peek(b, v as u16);
            let hi = bus_peek(b, ((v + 1) % 256) as u16);
            (((((hi as u16) << 8u16) | (lo as u16)) + c.y) % 0x10000) as u16
        },
        _ => 0u16,
    }
}

/// Whether indexing crossed a page, which costs a cycle on the modes
/// that advertise it.
pub open spec fn page_crossed(c: Cpu, b: Bus, m: AddressingMode) -> bool {
    match m {
        AddressingMode::AbsoluteX(a) => (a % 256) + c.x > 255,
        AddressingMode::AbsoluteY(a) => (a % 256) + c.y > 255,
        AddressingMode::IndirectY(v) => {
            let lo = bus_peek(b, v as u16);
            let hi = bus_peek(b, ((v + 1) % 256) as u16);
            (((((hi as u16) << 8u16) | (lo as u16))) % 256) + c.y > 255
        },
        _ => false,
    }
}

/// The operand byte a reading instruction sees, before side effects.
pub open spec fn operand_val(c: Cpu, b: Bus, m: AddressingMode) -> u8 {
    match m {
        AddressingMode::Immediate(v) => v,
        AddressingMode::Accumulator => c.accumulator,
        _ => bus_peek(b, eff_addr(c, b, m)),
    }
}

impl Cpu {
    /// Computes the effective address and whether a page was crossed.
    #[verifier::rlimit(100)]
    fn effective_addr(&self, bus: &Bus, mode: AddressingMode) -> (r: (u16, bool))
        requires
            bus.wf(),
            mode_has_addr(mode),
        ensures
            r.0 == eff_addr(*self, *bus, mode),
            r.1 == page_crossed(*self, *bus, mode),
    {
        match mode {
            AddressingMode::ZeroPage(v) => (v as u16, false),
            AddressingMode::ZeroPageX(v) => (v.wrapping_add(self.x) as u16, false),
            AddressingMode::ZeroPageY(v) => (v.wrapping_add(self.y) as u16, false),
            AddressingMode::Absolute(a) => (a, false),
            AddressingMode::AbsoluteX(a) => (
                a.wrapping_add(self.x as u16),
                (a % 256) + (self.x as u16) > 255,
            ),
            AddressingMode::AbsoluteY(a) => (
                a.wrapping_add(self.y as u16),
                (a % 256) + (self.y as u16) > 255,
            ),
            AddressingMode::IndirectX(v) => {
                let lo = bus.read_plain(v.wrapping_add(self.x) as u16);
                let hi = bus.read_plain(v.wrapping_add(self.x).wrapping_add(1) as u16);
                (((hi as u16) << 8) | (lo as u16), false)
            },
            AddressingMode::IndirectY(v) => {
                let lo = bus.read_plain(v as u16);
                let hi = bus.read_plain(v.wrapping_add(1) as u16);
                let base = ((hi as u16) << 8) | (lo as u16);
                (base.wrapping_add(self.y as u16), (base % 256) + (self.y as u16) > 255)
            },
            _ => (0, false),
        }
    }
}

/// A read succeeds unless the mode names an unreadable address.
pub open spec fn read_ok(c: Cpu, b: Bus, m: AddressingMode) -> bool {
    !mode_has_addr(m) || bus_readable(eff_addr(c, b, m))
}

/// How the bus changes when the operand is read.
pub open spec fn read_bus_rel(c: Cpu, b0: Bus, b1: Bus, m: AddressingMode) -> bool {
    if mode_has_addr(m) {
        read_rel(b0, b1, eff_addr(c, b0, m))
    } else {
        bus_eq(b0, b1)
    }
}

/// The fault a failing operand read reports.
pub open spec fn read_fault(c: Cpu, b: Bus, m: AddressingMode) -> Result<(), CpuError> {
    Err(CpuError::Bus(BusError::ReadFault(eff_addr(c, b, m))))
}

/// A write succeeds unless the mode names an unwritable address.
pub open spec fn write_ok(c: Cpu, b: Bus, m: AddressingMode, v: u8) -> bool {
    m is Accumulator || crate::bus::bus_writable(eff_addr(c, b, m), v)
}

/// How the bus changes when `v` is stored through the mode.
pub open spec fn write_bus_rel(c: Cpu, b0: Bus, b1: Bus, m: AddressingMode, v: u8) -> bool {
    if m is Accumulator {
        bus_eq(b0, b1)
    } else {
        write_rel(b0, b1, eff_addr(c, b0, m), v)
    }
}

/// The fault a failing store reports.
pub open spec fn write_fault(c: Cpu, b: Bus, m: AddressingMode) -> Result<(), CpuError> {
    Err(CpuError::Bus(BusError::WriteFault(eff_addr(c, b, m))))
}

impl Cpu {
    /// Reads the operand byte the mode names, applying the read's bus
    /// side effects.
    fn read_operand(&self, bus: &mut Bus, mode: AddressingMode) -> (r: Result<u8, CpuError>)
        requires
            old(bus).wf(),
            mode_reads(mode),
        ensures
            final(bus).wf(),
            r is Ok <==> read_ok(*self, *old(bus), mode),
            r matches Ok(v) ==> v == operand_val(*self, *old(bus), mode) && read_bus_rel(
                *self,
                *old(bus),
                *final(bus),
                mode,
            ),
            r matches Err(e) ==> bus_eq(*old(bus), *final(bus)) && e == CpuError::Bus(
                BusError::ReadFault(eff_addr(*self, *old(bus), mode)),
            ),
    {
        match mode {
            AddressingMode::Immediate(v) => Ok(v),
            AddressingMode::Accumulator => Ok(self.accumulator),
            _ => {
                let (addr, _) = self.effective_addr(bus, mode);
                match bus.get_byte_at(addr) {
                    Ok(v) => Ok(v),
                    Err(e) => Err(CpuError::Bus(e)),
                }
            },
        }
    }

    /// Stores a byte through the mode (or into the accumulator).
    fn write_operand(&mut self, bus: &mut Bus, mode: AddressingMode, val: u8) -> (r: Result<
        (),
        CpuError,
    >)
        requires
            old(self).wf(),
            old(bus).wf(),
            mode_has_addr(mode) || mode is Accumulator,
        ensures
            final(self).wf(),
            final(bus).wf(),
            r is Ok <==> write_ok(*old(self), *old(bus), mode, val),
            mode is Accumulator ==> final(self).accumulator == val && final(self).x == old(self).x
                && final(self).y == old(self).y && flags_eq(*old(self), *final(self))
                && cpu_frame_eq(*old(self), *final(self)),
            !(mode is Accumulator) ==> *final(self) == *old(self),
            r is Ok ==> write_bus_rel(*old(self), *old(bus), *final(bus), mode, val),
            r matches Err(e) ==> bus_eq(*old(bus), *final(bus)) && e == CpuError::Bus(
                BusError::WriteFault(eff_addr(*old(self), *old(bus), mode)),
            ),
    {
        match mode {
            AddressingMode::Accumulator => {
                self.accumulator = val;
                Ok(())
            },
            _ => {
                let (addr, _) = self.effective_addr(bus, mode);
                match bus.set_byte_at(addr, val) {
                    Ok(_) => Ok(()),
                    Err(e) => Err(CpuError::Bus(e)),
                }
            },
        }
    }
}

/// A load into the accumulator.
pub open spec fn rel_lda(
    c0: Cpu,
    c1: Cpu,
    b0: Bus,
    b1: Bus,
    m: AddressingMode,
    r: Result<(), CpuError>,
) -> bool {
    let v = operand_val(c0, b0, m);
    &&& (r is Ok <==> read_ok(c0, b0, m))
    &&& (r is Ok ==> {
        &&& c1.accumulator == v
        &&& zn(c1, v)
        &&& c1.x == c0.x && c1.y == c0.y
        &&& c1.carry == c0.carry && c1.interrupt == c0.interrupt && c1.decimal == c0.decimal
            && c1.overflow == c0.overflow
        &&& cpu_frame_eq(c0, c1)
        &&& read_bus_rel(c0, b0, b1, m)
    })
    &&& (r is Err ==> c1 == c0 && bus_eq(b0, b1) && r == read_fault(c0, b0, m))
}

/// A load into X.
pub open spec fn rel_ldx(
    c0: Cpu,
    c1: Cpu,
    b0: Bus,
    b1: Bus,
    m: AddressingMode,
    r: Result<(), CpuError>,
) -> bool {
    let v = operand_val(c0, b0, m);
    &&& (r is Ok <==> read_ok(c0, b0, m))
    &&& (r is Ok ==> {
        &&& c1.x == v
        &&& zn(c1, v)
        &&& c1.accumulator == c0.accumulator && c1.y == c0.y
        &&& c1.carry == c0.carry && c1.interrupt == c0.interrupt && c1.decimal == c0.decimal
            && c1.overflow == c0.overflow
        &&& cpu_frame_eq(c0, c1)
        &&& read_bus_rel(c0, b0, b1, m)
    })
    &&& (r is Err ==> c1 == c0 && bus_eq(b0, b1) && r == read_fault(c0, b0, m))
}

/// A load into Y.
pub open spec fn rel_ldy(
    c0: Cpu,
    c1: Cpu,
    b0: Bus,
    b1: Bus,
    m: AddressingMode,
    r: Result<(), CpuError>,
) -> bool {
    let v = operand_val(c0, b0, m);
    &&& (r is Ok <==> read_ok(c0, b0, m))
    &&& (r is Ok ==> {
        &&& c1.y == v
        &&& zn(c1, v)
        &&& c1.accumulator == c0.accumulator && c1.x == c0.x
        &&& c1.carry == c0.carry && c1.interrupt == c0.interrupt && c1.decimal == c0.decimal
            && c1.overflow == c0.overflow
        &&& cpu_frame_eq(c0, c1)
        &&& read_bus_rel(c0, b0, b1, m)
    })
    &&& (r is Err ==> c1 == c0 && bus_eq(b0, b1) && r == read_fault(c0, b0, m))
}

/// A load into both the accumulator and X.
pub open spec fn rel_lax(
    c0: Cpu,
    c1: Cpu,
    b0: Bus,
    b1: Bus,
    m: AddressingMode,
    r: Result<(), CpuError>,
) -> bool {
    let v = operand_val(c0, b0, m);
    &&& (r is Ok <==> read_ok(c0, b0, m))
    &&& (r is Ok ==> {
        &&& c1.accumulator == v && c1.x == v
        &&& zn(c1, v)
        &&& c1.y == c0.y
        &&& c1.carry == c0.carry && c1.interrupt == c0.interrupt && c1.decimal == c0.decimal
            && c1.overflow == c0.overflow
        &&& cpu_frame_eq(c0, c1)
        &&& read_bus_rel(c0, b0, b1, m)
    })
    &&& (r is Err ==> c1 == c0 && bus_eq(b0, b1) && r == read_fault(c0, b0, m))
}

/// A store of a register value.
pub open spec fn rel_store(
    c0: Cpu,
    c1: Cpu,
    b0: Bus,
    b1: Bus,
    m: AddressingMode,
    v: u8,
    r: Result<(), CpuError>,
) -> bool {
    &&& (r is Ok <==> write_ok(c0, b0, m, v))
    &&& (r is Ok ==> c1 == c0 && write_bus_rel(c0, b0, b1, m, v))
    &&& (r is Err ==> c1 == c0 && bus_eq(b0, b1) && r == write_fault(c0, b0, m))
}

/// A bitwise accumulator operation (AND, ORA, EOR).
pub open spec fn rel_logic(
    c0: Cpu,
    c1: Cpu,
    b0: Bus,
    b1: Bus,
    m: AddressingMode,
    res: u8,
    r: Result<(), CpuError>,
) -> bool {
    &&& (r is Ok <==> read_ok(c0, b0, m))
    &&& (r is Ok ==> {
        &&& c1.accumulator == res
        &&& zn(c1, res)
        &&& c1.x == c0.x && c1.y == c0.y
        &&& c1.carry == c0.carry && c1.interrupt == c0.interrupt && c1.decimal == c0.decimal
            && c1.overflow == c0.overflow
        &&& cpu_frame_eq(c0, c1)
        &&& read_bus_rel(c0, b0, b1, m)
    })
    &&& (r is Err ==> c1 == c0 && bus_eq(b0, b1) && r == read_fault(c0, b0, m))
}

/// The binary addition at the heart of ADC and SBC: the sum of the
/// accumulator, the operand and the carry, with carry-out, and signed
/// overflow per the sign-bit rule.
pub open spec fn rel_adc_core(c0: Cpu, c1: Cpu, v: u8) -> bool {
    let sum = c0.accumulator + v + (if c0.carry {
        1int
    } else {
        0int
    });
    let res = (sum % 256) as u8;
    &&& c1.accumulator == res
    &&& c1.carry == (sum > 255)
    &&& c1.overflow == ((v ^ res) & (c0.accumulator ^ res) & 0x80u8 != 0u8)
    &&& zn(c1, res)
    &&& c1.x == c0.x && c1.y == c0.y
    &&& c1.interrupt == c0.interrupt && c1.decimal == c0.decimal
    &&& cpu_frame_eq(c0, c1)
}

/// Add with carry.
pub open spec fn rel_add(
    c0: Cpu,
    c1: Cpu,
    b0: Bus,
    b1: Bus,
    m: AddressingMode,
    r: Result<(), CpuError>,
) -> bool {
    &&& (r is Ok <==> read_ok(c0, b0, m))
    &&& (r is Ok ==> rel_adc_core(c0, c1, operand_val(c0, b0, m)) && read_bus_rel(c0, b0, b1, m))
    &&& (r is Err ==> c1 == c0 && bus_eq(b0, b1) && r == read_fault(c0, b0, m))
}

/// Subtract with borrow: an add of the operand's one's complement.
pub open spec fn rel_sbc(
    c0: Cpu,
    c1: Cpu,
    b0: Bus,
    b1: Bus,
    m: AddressingMode,
    r: Result<(), CpuError>,
) -> bool {
    &&& (r is Ok <==> read_ok(c0, b0, m))
    &&& (r is Ok ==> rel_adc_core(c0, c1, (255 - operand_val(c0, b0, m)) as u8) && read_bus_rel(
        c0,
        b0,
        b1,
        m,
    ))
    &&& (r is Err ==> c1 == c0 && bus_eq(b0, b1) && r == read_fault(c0, b0, m))
}

/// A comparison of a register with the operand.
pub open spec fn rel_compare(
    c0: Cpu,
    c1: Cpu,
    b0: Bus,
    b1: Bus,
    m: AddressingMode,
    reg: u8,
    r: Result<(), CpuError>,
) -> bool {
    let v = operand_val(c0, b0, m);
    &&& (r is Ok <==> read_ok(c0, b0, m))
    &&& (r is Ok ==> {
        &&& c1.carry == (reg >= v)
        &&& c1.zero == (reg == v)
        &&& c1.sign == (reg.wrapping_sub(v) & 0x80u8 != 0u8)
        &&& axy_eq(c0, c1)
        &&& c1.interrupt == c0.interrupt && c1.decimal == c0.decimal && c1.overflow == c0.overflow
        &&& cpu_frame_eq(c0, c1)
        &&& read_bus_rel(c0, b0, b1, m)
    })
    &&& (r is Err ==> c1 == c0 && bus_eq(b0, b1) && r == read_fault(c0, b0, m))
}

/// BIT: the zero flag from the masked accumulator, sign and overflow
/// from the operand's top bits.
pub open spec fn rel_bit(
    c0: Cpu,
    c1: Cpu,
    b0: Bus,
    b1: Bus,
    m: AddressingMode,
    r: Result<(), CpuError>,
) -> bool {
    let v = operand_val(c0, b0, m);
    &&& (r is Ok <==> read_ok(c0, b0, m))
    &&& (r is Ok ==> {
        &&& c1.sign == (v & 0x80u8 != 0u8)
        &&& c1.overflow == (v & 0x40u8 != 0u8)
        &&& c1.zero == (v & c0.accumulator == 0u8)
        &&& axy_eq(c0, c1)
        &&& c1.carry == c0.carry && c1.interrupt == c0.interrupt && c1.decimal == c0.decimal
        &&& cpu_frame_eq(c0, c1)
        &&& read_bus_rel(c0, b0, b1, m)
    })
    &&& (r is Err ==> c1 == c0 && bus_eq(b0, b1) && r == read_fault(c0, b0, m))
}

impl Cpu {
    fn lda(&mut self, bus: &mut Bus, mode: AddressingMode) -> (r: Result<(), CpuError>)
        requires
            old(self).wf(),
            old(bus).wf(),
            mode_reads(mode),
        ensures
            final(self).wf(),
            final(bus).wf(),
            rel_lda(*old(self), *final(self), *old(bus), *final(bus), mode, r),
    {
        let v = match self.read_operand(bus, mode) {
            Ok(v) => v,
            Err(e) => {
                return Err(e);
            },
        };
        self.accumulator = v;
        self.zero = v == 0;
        self.sign = v & 0x80 != 0;
        Ok(())
    }

    fn ldx(&mut self, bus: &mut Bus, mode: AddressingMode) -> (r: Result<(), CpuError>)
        requires
            old(self).wf(),
            old(bus).wf(),
            mode_reads(mode),
        ensures
            final(self).wf(),
            final(bus).wf(),
            rel_ldx(*old(self), *final(self), *old(bus), *final(bus), mode, r),
    {
        let v = match self.read_operand(bus, mode) {
            Ok(v) => v,
            Err(e) => {
                return Err(e);
            },
        };
        self.x = v;
        self.zero = v == 0;
        self.sign = v & 0x80 != 0;
        Ok(())
    }

    fn ldy(&mut self, bus: &mut Bus, mode: AddressingMode) -> (r: Result<(), CpuError>)
        requires
            old(self).wf(),
            old(bus).wf(),
            mode_reads(mode),
        ensures
            final(self).wf(),
            final(bus).wf(),
            rel_ldy(*old(self), *final(self), *old(bus), *final(bus), mode, r),
    {
        let v = match self.read_operand(bus, mode) {
            Ok(v) => v,
            Err(e) => {
                return Err(e);
            },
        };
        self.y = v;
        self.zero = v == 0;
        self.sign = v & 0x80 != 0;
        Ok(())
    }

    fn lax(&mut self, bus: &mut Bus, mode: AddressingMode) -> (r: Result<(), CpuError>)
        requires
            old(self).wf(),
            old(bus).wf(),
            mode_reads(mode),
        ensures
            final(self).wf(),
            final(bus).wf(),
            rel_lax(*old(self), *final(self), *old(bus), *final(bus), mode, r),
    {
        let v = match self.read_operand(bus, mode) {
            Ok(v) => v,
            Err(e) => {
                return Err(e);
            },
        };
        self.accumulator = v;
        self.zero = v == 0;
        self.sign = v & 0x80 != 0;
        self.x = v;
        Ok(())
    }

    fn sta(&mut self, bus: &mut Bus, mode: AddressingMode) -> (r: Result<(), CpuError>)
        requires
            old(self).wf(),
            old(bus).wf(),
            mode_has_addr(mode),
        ensures
            final(self).wf(),
            final(bus).wf(),
            rel_store(
                *old(self),
                *final(self),
                *old(bus),
                *final(bus),
                mode,
                old(self).accumulator,
                r,
            ),
    {
        let v = self.accumulator;
        self.write_operand(bus, mode, v)
    }

    fn stx(&mut self, bus: &mut Bus, mode: AddressingMode) -> (r: Result<(), CpuError>)
        requires
            old(self).wf(),
            old(bus).wf(),
            mode_has_addr(mode),
        ensures
            final(self).wf(),
            final(bus).wf(),
            rel_store(*old(self), *final(self), *old(bus), *final(bus), mode, old(self).x, r),
    {
        let v = self.x;
        self.write_operand(bus, mode, v)
    }

    fn sty(&mut self, bus: &mut Bus, mode: AddressingMode) -> (r: Result<(), CpuError>)
        requires
            old(self).wf(),
            old(bus).wf(),
            mode_has_addr(mode),
        ensures
            final(self).wf(),
            final(bus).wf(),
            rel_store(*old(self), *final(self), *old(bus), *final(bus), mode, old(self).y, r),
    {
        let v = self.y;
        self.write_operand(bus, mode, v)
    }

    fn sax(&mut self, bus: &mut Bus, mode: AddressingMode) -> (r: Result<(), CpuError>)
        requires
            old(self).wf(),
            old(bus).wf(),
            mode_has_addr(mode),
        ensures
            final(self).wf(),
            final(bus).wf(),
            rel_store(
                *old(self),
                *final(self),
                *old(bus),
                *final(bus),
                mode,
                old(self).accumulator & old(self).x,
                r,
            ),
    {
        let v = self.accumulator & self.x;
        self.write_operand(bus, mode, v)
    }

    fn and(&mut self, bus: &mut Bus, mode: AddressingMode) -> (r: Result<(), CpuError>)
        requires
            old(self).wf(),
            old(bus).wf(),
            mode_reads(mode),
        ensures
            final(self).wf(),
            final(bus).wf(),
            rel_logic(
                *old(self),
                *final(self),
                *old(bus),
                *final(bus),
                mode,
                old(self).accumulator & operand_val(*old(self), *old(bus), mode),
                r,
            ),
    {
        let v = match self.read_operand(bus, mode) {
            Ok(v) => v,
            Err(e) => {
                return Err(e);
            },
        };
        let res = self.accumulator & v;
        self.accumulator = res;
        self.zero = res == 0;
        self.sign = res & 0x80 != 0;
        Ok(())
    }

    fn ora(&mut self, bus: &mut Bus, mode: AddressingMode) -> (r: Result<(), CpuError>)
        requires
            old(self).wf(),
            old(bus).wf(),
            mode_reads(mode),
        ensures
            final(self).wf(),
            final(bus).wf(),
            rel_logic(
                *old(self),
                *final(self),
                *old(bus),
                *final(bus),
                mode,
                old(self).accumulator | operand_val(*old(self), *old(bus), mode),
                r,
            ),
    {
        let v = match self.read_operand(bus, mode) {
            Ok(v) => v,
            Err(e) => {
                return Err(e);
            },
        };
        let res = self.accumulator | v;
        self.accumulator = res;
        self.zero = res == 0;
        self.sign = res & 0x80 != 0;
        Ok(())
    }

    fn eor(&mut self, bus: &mut Bus, mode: AddressingMode) -> (r: Result<(), CpuError>)
        requires
            old(self).wf(),
            old(bus).wf(),
            mode_reads(mode),
        ensures
            final(self).wf(),
            final(bus).wf(),
            rel_logic(
                *old(self),
                *final(self),
                *old(bus),
                *final(bus),
                mode,
                old(self).accumulator ^ operand_val(*old(self), *old(bus), mode),
                r,
            ),
    {
        let v = match self.read_operand(bus, mode) {
            Ok(v) => v,
            Err(e) => {
                return Err(e);
            },
        };
        let res = self.accumulator ^ v;
        self.accumulator = res;
        self.zero = res == 0;
        self.sign = res & 0x80 != 0;
        Ok(())
    }

    /// The shared addition step of ADC and SBC.
    fn adc_value(&mut self, v: u8)
        requires
            old(self).wf(),
        ensures
            final(self).wf(),
            rel_adc_core(*old(self), *final(self), v),
    {
        let carry_in: u16 = if self.carry {
            1
        } else {
            0
        };
        let sum: u16 = (self.accumulator as u16) + (v as u16) + carry_in;
        let res: u8 = (sum % 256) as u8;
        let old_a = self.accumulator;
        self.accumulator = res;
        self.sign = res & 0x80 != 0;
        self.zero = res == 0;
        self.overflow = (v ^ res) & (old_a ^ res) & 0x80 != 0;
        self.carry = sum > 255;
    }

    fn adc(&mut self, bus: &mut Bus, mode: AddressingMode) -> (r: Result<(), CpuError>)
        requires
            old(self).wf(),
            old(bus).wf(),
            mode_reads(mode),
        ensures
            final(self).wf(),
            final(bus).wf(),
            rel_add(*old(self), *final(self), *old(bus), *final(bus), mode, r),
    {
        let v = match self.read_operand(bus, mode) {
            Ok(v) => v,
            Err(e) => {
                return Err(e);
            },
        };
        self.adc_value(v);
        Ok(())
    }

    fn sbc(&mut self, bus: &mut Bus, mode: AddressingMode) -> (r: Result<(), CpuError>)
        requires
            old(self).wf(),
            old(bus).wf(),
            mode_reads(mode),
        ensures
            final(self).wf(),
            final(bus).wf(),
            rel_sbc(*old(self), *final(self), *old(bus), *final(bus), mode, r),
    {
        let v = match self.read_operand(bus, mode) {
            Ok(v) => v,
            Err(e) => {
                return Err(e);
            },
        };
        self.adc_value(255 - v);
        Ok(())
    }

    /// The shared flag update of CMP, CPX and CPY.
    fn compare_value(&mut self, reg: u8, v: u8)
        requires
            old(self).wf(),
        ensures
            final(self).wf(),
            final(self).carry == (reg >= v),
            final(self).zero == (reg == v),
            final(self).sign == (reg.wrapping_sub(v) & 0x80u8 != 0u8),
            axy_eq(*old(self), *final(self)),
            final(self).interrupt == old(self).interrupt,
            final(self).decimal == old(self).decimal,
            final(self).overflow == old(self).overflow,
            cpu_frame_eq(*old(self), *final(self)),
    {
        self.sign = reg.wrapping_sub(v) & 0x80 != 0;
        self.zero = reg == v;
        self.carry = reg >= v;
    }

    fn cmp(&mut self, bus: &mut Bus, mode: AddressingMode) -> (r: Result<(), CpuError>)
        requires
            old(self).wf(),
            old(bus).wf(),
            mode_reads(mode),
        ensures
            final(self).wf(),
            final(bus).wf(),
            rel_compare(
                *old(self),
                *final(self),
                *old(bus),
                *final(bus),
                mode,
                old(self).accumulator,
                r,
            ),
    {
        let v = match self.read_operand(bus, mode) {
            Ok(v) => v,
            Err(e) => {
                return Err(e);
            },
        };
        let reg = self.accumulator;
        self.compare_value(reg, v);
        Ok(())
    }

    fn cpx(&mut self, bus: &mut Bus, mode: AddressingMode) -> (r: Result<(), CpuError>)
        requires
            old(self).wf(),
            old(bus).wf(),
            mode_reads(mode),
        ensures
            final(self).wf(),
            final(bus).wf(),
            rel_compare(*old(self), *final(self), *old(bus), *final(bus), mode, old(self).x, r),
    {
        let v = match self.read_operand(bus, mode) {
            Ok(v) => v,
            Err(e) => {
                return Err(e);
            },
        };
        let reg = self.x;
        self.compare_value(reg, v);
        Ok(())
    }

    fn cpy(&mut self, bus: &mut Bus, mode: AddressingMode) -> (r: Result<(), CpuError>)
        requires
            old(self).wf(),
            old(bus).wf(),
            mode_reads(mode),
        ensures
            final(self).wf(),
            final(bus).wf(),
            rel_compare(*old(self), *final(self), *old(bus), *final(bus), mode, old(self).y, r),
    {
        let v = match self.read_operand(bus, mode) {
            Ok(v) => v,
            Err(e) => {
                return Err(e);
            },
        };
        let reg = self.y;
        self.compare_value(reg, v);
        Ok(())
    }

    fn bit(&mut self, bus: &mut Bus, mode: AddressingMode) -> (r: Result<(), CpuError>)
        requires
            old(self).wf(),
            old(bus).wf(),
            mode_reads(mode),
        ensures
            final(self).wf(),
            final(bus).wf(),
            rel_bit(*old(self), *final(self), *old(bus), *final(bus), mode, r),
    {
        let v = match self.read_operand(bus, mode) {
            Ok(v) => v,
            Err(e) => {
                return Err(e);
            },
        };
        self.sign = v & 0x80 != 0;
        self.overflow = v & 0x40 != 0;
        self.zero = v & self.accumulator == 0;
        Ok(())
    }
}

/// Program counter, stack pointer, registers and cycles untouched.
pub open spec fn only_flags_changed(c0: Cpu, c1: Cpu) -> bool {
    &&& axy_eq(c0, c1)
    &&& cpu_frame_eq(c0, c1)
}

/// A pure register-to-register operation: `dst` holds `v` with Z and N
/// set from it; everything else (but the named destination) is fixed
/// by the caller's clauses.
pub open spec fn rel_reg_zn(c0: Cpu, c1: Cpu, v: u8) -> bool {
    &&& zn(c1, v)
    &&& c1.carry == c0.carry && c1.interrupt == c0.interrupt && c1.decimal == c0.decimal
        && c1.overflow == c0.overflow
    &&& cpu_frame_eq(c0, c1)
}

/// The word read little-endian at `a`.
pub open spec fn peek_word(b: Bus, a: u16) -> u16 {
    ((bus_peek(b, a.wrapping_add(1)) as u16) << 8u16) | (bus_peek(b, a) as u16)
}

/// A branch destination: the signed offset added to the program
/// counter, wrapping.
pub open spec fn branch_target(pc: u16, off: i8) -> u16 {
    ((pc + off) % 0x10000) as u16
}

/// What a taken or not-taken branch does: one extra cycle when taken,
/// one more when the destination sits on another page.
pub open spec fn rel_branch(c0: Cpu, c1: Cpu, b0: Bus, b1: Bus, cond: bool, off: i8) -> bool {
    &&& bus_eq(b0, b1)
    &&& if cond {
        let t = branch_target(c0.pc, off);
        &&& c1.pc == t
        &&& c1.cycles_left == c0.cycles_left + 1 + (if t / 0x100 != c0.pc / 0x100 {
            1int
        } else {
            0int
        })
        &&& c1.sp == c0.sp
        &&& axy_eq(c0, c1)
        &&& flags_eq(c0, c1)
        &&& c1.cycles_completed == c0.cycles_completed
    } else {
        c1 == c0
    }
}

/// A read-modify-write through the mode: the read's side effects, then
/// the store of `res`.
pub open spec fn rmw_bus_rel(c0: Cpu, b0: Bus, b1: Bus, m: AddressingMode, res: u8) -> bool {
    if m is Accumulator {
        bus_eq(b0, b1)
    } else {
        exists|bm: Bus|
            #[trigger] read_rel(b0, bm, eff_addr(c0, b0, m)) && write_rel(
                bm,
                b1,
                eff_addr(c0, b0, m),
                res,
            )
    }
}

/// A shift or rotate: stores `res` back through the mode, sets the
/// carry to the bit shifted out and Z and N from the result.
pub open spec fn rel_shift(
    c0: Cpu,
    c1: Cpu,
    b0: Bus,
    b1: Bus,
    m: AddressingMode,
    res: u8,
    carry_out: bool,
    r: Result<(), CpuError>,
) -> bool {
    &&& (r is Ok <==> read_ok(c0, b0, m) && write_ok(c0, b0, m, res))
    &&& (r is Ok ==> {
        &&& c1.carry == carry_out
        &&& zn(c1, res)
        &&& c1.accumulator == (if m is Accumulator {
            res
        } else {
            c0.accumulator
        })
        &&& c1.x == c0.x && c1.y == c0.y
        &&& c1.interrupt == c0.interrupt && c1.decimal == c0.decimal && c1.overflow == c0.overflow
        &&& cpu_frame_eq(c0, c1)
        &&& rmw_bus_rel(c0, b0, b1, m, res)
    })
    &&& (!read_ok(c0, b0, m) ==> r == read_fault(c0, b0, m) && c1 == c0 && bus_eq(b0, b1))
    &&& (read_ok(c0, b0, m) && !write_ok(c0, b0, m, res) ==> r == write_fault(c0, b0, m) && c1 == c0
        && read_bus_rel(c0, b0, b1, m))
}

/// An increment or decrement in memory: stores `res` and sets Z and N,
/// leaving the carry alone.
pub open spec fn rel_incdec(
    c0: Cpu,
    c1: Cpu,
    b0: Bus,
    b1: Bus,
    m: AddressingMode,
    res: u8,
    r: Result<(), CpuError>,
) -> bool {
    &&& (r is Ok <==> read_ok(c0, b0, m) && write_ok(c0, b0, m, res))
    &&& (r is Ok ==> {
        &&& zn(c1, res)
        &&& c1.accumulator == (if m is Accumulator {
            res
        } else {
            c0.accumulator
        })
        &&& c1.x == c0.x && c1.y == c0.y
        &&& c1.carry == c0.carry && c1.interrupt == c0.interrupt && c1.decimal == c0.decimal
            && c1.overflow == c0.overflow
        &&& cpu_frame_eq(c0, c1)
        &&& rmw_bus_rel(c0, b0, b1, m, res)
    })
    &&& (!read_ok(c0, b0, m) ==> r == read_fault(c0, b0, m) && c1 == c0 && bus_eq(b0, b1))
    &&& (read_ok(c0, b0, m) && !write_ok(c0, b0, m, res) ==> r == write_fault(c0, b0, m) && c1 == c0
        && read_bus_rel(c0, b0, b1, m))
}

impl Cpu {
    fn asl(&mut self, bus: &mut Bus, mode: AddressingMode) -> (r: Result<(), CpuError>)
        requires
            old(self).wf(),
            old(bus).wf(),
            mode_reads(mode),
            mode_has_addr(mode) || mode is Accumulator,
        ensures
            final(self).wf(),
            final(bus).wf(),
            rel_shift(
                *old(self),
                *final(self),
                *old(bus),
                *final(bus),
                mode,
                operand_val(*old(self), *old(bus), mode) << 1u8,
                operand_val(*old(self), *old(bus), mode) & 0x80u8 != 0u8,
                r,
            ),
    {
        let v = match self.read_operand(bus, mode) {
            Ok(v) => v,
            Err(e) => {
                return Err(e);
            },
        };
        let res = v << 1;
        match self.write_operand(bus, mode, res) {
            Ok(_) => {},
            Err(e) => {
                return Err(e);
            },
        }
        self.sign = res & 0x80 != 0;
        self.zero = res == 0;
        self.carry = v & 0x80 != 0;
        Ok(())
    }

    fn lsr(&mut self, bus: &mut Bus, mode: AddressingMode) -> (r: Result<(), CpuError>)
        requires
            old(self).wf(),
            old(bus).wf(),
            mode_reads(mode),
            mode_has_addr(mode) || mode is Accumulator,
        ensures
            final(self).wf(),
            final(bus).wf(),
            rel_shift(
                *old(self),
                *final(self),
                *old(bus),
                *final(bus),
                mode,
                operand_val(*old(self), *old(bus), mode) >> 1u8,
                operand_val(*old(self), *old(bus), mode) & 0x01u8 != 0u8,
                r,
            ),
    {
        let v = match self.read_operand(bus, mode) {
            Ok(v) => v,
            Err(e) => {
                return Err(e);
            },
        };
        let res = v >> 1;
        match self.write_operand(bus, mode, res) {
            Ok(_) => {},
            Err(e) => {
                return Err(e);
            },
        }
        self.sign = res & 0x80 != 0;
        self.zero = res == 0;
        self.carry = v & 0x01 != 0;
        Ok(())
    }

    fn rol(&mut self, bus: &mut Bus, mode: AddressingMode) -> (r: Result<(), CpuError>)
        requires
            old(self).wf(),
            old(bus).wf(),
            mode_reads(mode),
            mode_has_addr(mode) || mode is Accumulator,
        ensures
            final(self).wf(),
            final(bus).wf(),
            rel_shift(
                *old(self),
                *final(self),
                *old(bus),
                *final(bus),
                mode,
                (operand_val(*old(self), *old(bus), mode) << 1u8) | (if old(self).carry {
                    1u8
                } else {
                    0u8
                }),
                operand_val(*old(self), *old(bus), mode) & 0x80u8 != 0u8,
                r,
            ),
    {
        let v = match self.read_operand(bus, mode) {
            Ok(v) => v,
            Err(e) => {
                return Err(e);
            },
        };
        let res = (v << 1) | (if self.carry {
            1
        } else {
            0
        });
        match self.write_operand(bus, mode, res) {
            Ok(_) => {},
            Err(e) => {
                return Err(e);
            },
        }
        self.sign = res & 0x80 != 0;
        self.zero = res == 0;
        self.carry = v & 0x80 != 0;
        Ok(())
    }

    fn ror(&mut self, bus: &mut Bus, mode: AddressingMode) -> (r: Result<(), CpuError>)
        requires
            old(self).wf(),
            old(bus).wf(),
            mode_reads(mode),
            mode_has_addr(mode) || mode is Accumulator,
        ensures
            final(self).wf(),
            final(bus).wf(),
            rel_shift(
                *old(self),
                *final(self),
                *old(bus),
                *final(bus),
                mode,
                (operand_val(*old(self), *old(bus), mode) >> 1u8) | (if old(self).carry {
                    0x80u8
                } else {
                    0u8
                }),
                operand_val(*old(self), *old(bus), mode) & 0x01u8 != 0u8,
                r,
            ),
    {
        let v = match self.read_operand(bus, mode) {
            Ok(v) => v,
            Err(e) => {
                return Err(e);
            },
        };
        let res = (v >> 1) | (if self.carry {
            0x80
        } else {
            0
        });
        match self.write_operand(bus, mode, res) {
            Ok(_) => {},
            Err(e) => {
                return Err(e);
            },
        }
        self.sign = res & 0x80 != 0;
        self.zero = res == 0;
        self.carry = v & 0x01 != 0;
        Ok(())
    }

    fn inc(&mut self, bus: &mut Bus, mode: AddressingMode) -> (r: Result<(), CpuError>)
        requires
            old(self).wf(),
            old(bus).wf(),
            mode_reads(mode),
            mode_has_addr(mode) || mode is Accumulator,
        ensures
            final(self).wf(),
            final(bus).wf(),
            rel_incdec(
                *old(self),
                *final(self),
                *old(bus),
                *final(bus),
                mode,
                operand_val(*old(self), *old(bus), mode).wrapping_add(1),
                r,
            ),
    {
        let v = match self.read_operand(bus, mode) {
            Ok(v) => v,
            Err(e) => {
                return Err(e);
            },
        };
        let res = v.wrapping_add(1);
        match self.write_operand(bus, mode, res) {
            Ok(_) => {},
            Err(e) => {
                return Err(e);
            },
        }
        self.sign = res & 0x80 != 0;
        self.zero = res == 0;
        Ok(())
    }

    fn dec(&mut self, bus: &mut Bus, mode: AddressingMode) -> (r: Result<(), CpuError>)
        requires
            old(self).wf(),
            old(bus).wf(),
            mode_reads(mode),
            mode_has_addr(mode) || mode is Accumulator,
        ensures
            final(self).wf(),
            final(bus).wf(),
            rel_incdec(
                *old(self),
                *final(self),
                *old(bus),
                *final(bus),
                mode,
                operand_val(*old(self), *old(bus), mode).wrapping_sub(1),
                r,
            ),
    {
        let v = match self.read_operand(bus, mode) {
            Ok(v) => v,
            Err(e) => {
                return Err(e);
            },
        };
        let res = v.wrapping_sub(1);
        match self.write_operand(bus, mode, res) {
            Ok(_) => {},
            Err(e) => {
                return Err(e);
            },
        }
        self.sign = res & 0x80 != 0;
        self.zero = res == 0;
        Ok(())
    }

    fn inx(&mut self)
        requires
            old(self).wf(),
        ensures
            final(self).wf(),
            final(self).x == old(self).x.wrapping_add(1),
            final(self).accumulator == old(self).accumulator && final(self).y == old(self).y,
            final(self).sp == old(self).sp,
            rel_reg_zn(*old(self), *final(self), final(self).x),
    {
        self.x = self.x.wrapping_add(1);
        self.sign = self.x & 0x80 != 0;
        self.zero = self.x == 0;
    }

    fn iny(&mut self)
        requires
            old(self).wf(),
        ensures
            final(self).wf(),
            final(self).y == old(self).y.wrapping_add(1),
            final(self).accumulator == old(self).accumulator && final(self).x == old(self).x,
            final(self).sp == old(self).sp,
            rel_reg_zn(*old(self), *final(self), final(self).y),
    {
        self.y = self.y.wrapping_add(1);
        self.sign = self.y & 0x80 != 0;
        self.zero = self.y == 0;
    }

    fn dex(&mut self)
        requires
            old(self).wf(),
        ensures
            final(self).wf(),
            final(self).x == old(self).x.wrapping_sub(1),
            final(self).accumulator == old(self).accumulator && final(self).y == old(self).y,
            final(self).sp == old(self).sp,
            rel_reg_zn(*old(self), *final(self), final(self).x),
    {
        self.x = self.x.wrapping_sub(1);
        self.sign = self.x & 0x80 != 0;
        self.zero = self.x == 0;
    }

    fn dey(&mut self)
        requires
            old(self).wf(),
        ensures
            final(self).wf(),
            final(self).y == old(self).y.wrapping_sub(1),
            final(self).accumulator == old(self).accumulator && final(self).x == old(self).x,
            final(self).sp == old(self).sp,
            rel_reg_zn(*old(self), *final(self), final(self).y),
    {
        self.y = self.y.wrapping_sub(1);
        self.sign = self.y & 0x80 != 0;
        self.zero = self.y == 0;
    }

    fn tax(&mut self)
        requires
            old(self).wf(),
        ensures
            final(self).wf(),
            final(self).x == old(self).accumulator,
            final(self).accumulator == old(self).accumulator && final(self).y == old(self).y,
            final(self).sp == old(self).sp,
            rel_reg_zn(*old(self), *final(self), final(self).x),
    {
        self.x = self.accumulator;
        self.zero = self.x == 0;
        self.sign = self.x & 0x80 != 0;
    }

    fn tay(&mut self)
        requires
            old(self).wf(),
        ensures
            final(self).wf(),
            final(self).y == old(self).accumulator,
            final(self).accumulator == old(self).accumulator && final(self).x == old(self).x,
            final(self).sp == old(self).sp,
            rel_reg_zn(*old(self), *final(self), final(self).y),
    {
        self.y = self.accumulator;
        self.zero = self.y == 0;
        self.sign = self.y & 0x80 != 0;
    }

    fn tsx(&mut self)
        requires
            old(self).wf(),
        ensures
            final(self).wf(),
            final(self).x == old(self).sp,
            final(self).accumulator == old(self).accumulator && final(self).y == old(self).y,
            final(self).sp == old(self).sp,
            rel_reg_zn(*old(self), *final(self), final(self).x),
    {
        self.x = self.sp;
        self.zero = self.x == 0;
        self.sign = self.x & 0x80 != 0;
    }

    fn txa(&mut self)
        requires
            old(self).wf(),
        ensures
            final(self).wf(),
            final(self).accumulator == old(self).x,
            final(self).x == old(self).x && final(self).y == old(self).y,
            final(self).sp == old(self).sp,
            rel_reg_zn(*old(self), *final(self), final(self).accumulator),
    {
        self.accumulator = self.x;
        self.zero = self.accumulator == 0;
        self.sign = self.accumulator & 0x80 != 0;
    }

    fn txs(&mut self)
        requires
            old(self).wf(),
        ensures
            final(self).wf(),
            final(self).sp == old(self).x,
            axy_eq(*old(self), *final(self)),
            flags_eq(*old(self), *final(self)),
            final(self).pc == old(self).pc,
            final(self).cycles_left == old(self).cycles_left,
            final(self).cycles_completed == old(self).cycles_completed,
    {
        self.sp = self.x;
    }

    fn tya(&mut self)
        requires
            old(self).wf(),
        ensures
            final(self).wf(),
            final(self).accumulator == old(self).y,
            final(self).x == old(self).x && final(self).y == old(self).y,
            final(self).sp == old(self).sp,
            rel_reg_zn(*old(self), *final(self), final(self).accumulator),
    {
        self.accumulator = self.y;
        self.zero = self.accumulator == 0;
        self.sign = self.accumulator & 0x80 != 0;
    }

    fn pha(&mut self, bus: &mut Bus)
        requires
            old(self).wf(),
            old(bus).wf(),
        ensures
            final(self).wf(),
            final(bus).wf(),
            final(self).sp == ((old(self).sp - 1) % 256) as u8,
            final(self).pc == old(self).pc,
            axy_eq(*old(self), *final(self)),
            flags_eq(*old(self), *final(self)),
            final(self).cycles_left == old(self).cycles_left,
            final(self).cycles_completed == old(self).cycles_completed,
            bus_ram_now(
                *old(bus),
                *final(bus),
                old(bus).ram@.update(stack_slot(old(self).sp), old(self).accumulator),
            ),
    {
        let v = self.accumulator;
        self.push_byte(bus, v);
    }

    fn php(&mut self, bus: &mut Bus)
        requires
            old(self).wf(),
            old(bus).wf(),
        ensures
            final(self).wf(),
            final(bus).wf(),
            final(self).sp == ((old(self).sp - 1) % 256) as u8,
            final(self).pc == old(self).pc,
            axy_eq(*old(self), *final(self)),
            flags_eq(*old(self), *final(self)),
            final(self).cycles_left == old(self).cycles_left,
            final(self).cycles_completed == old(self).cycles_completed,
            bus_ram_now(
                *old(bus),
                *final(bus),
                old(bus).ram@.update(stack_slot(old(self).sp), status_byte(*old(self), true)),
            ),
    {
        let processor_status: u8 = (((((((if self.sign {
            0x80u8
        } else {
            0u8
        }) | (if self.overflow {
            0x40u8
        } else {
            0u8
        })) | 0x20u8) | 0x10u8) | (if self.decimal {
            0x08u8
        } else {
            0u8
        })) | (if self.interrupt {
            0x04u8
        } else {
            0u8
        })) | (if self.zero {
            0x02u8
        } else {
            0u8
        })) | (if self.carry {
            0x01u8
        } else {
            0u8
        });
        assert(processor_status == status_byte(*old(self), true));
        self.push_byte(bus, processor_status);
    }

    fn pla(&mut self, bus: &Bus)
        requires
            old(self).wf(),
            bus.wf(),
        ensures
            final(self).wf(),
            final(self).sp == ((old(self).sp + 1) % 256) as u8,
            final(self).pc == old(self).pc,
            final(self).accumulator == bus.ram@[stack_slot(final(self).sp)],
            final(self).x == old(self).x && final(self).y == old(self).y,
            zn(*final(self), final(self).accumulator),
            final(self).carry == old(self).carry && final(self).interrupt == old(self).interrupt
                && final(self).decimal == old(self).decimal && final(self).overflow == old(
                self,
            ).overflow,
            final(self).cycles_left == old(self).cycles_left,
            final(self).cycles_completed == old(self).cycles_completed,
    {
        let v = self.pop_byte(bus);
        self.accumulator = v;
        self.zero = v == 0;
        self.sign = v & 0x80 != 0;
    }

    /// Restores the six behavioural flags from a status byte, ignoring
    /// the break bit and bit 5.
    fn set_flags_from(&mut self, v: u8)
        requires
            old(self).wf(),
        ensures
            final(self).wf(),
            final(self).sign == (v & 0x80u8 != 0u8),
            final(self).overflow == (v & 0x40u8 != 0u8),
            final(self).decimal == (v & 0x08u8 != 0u8),
            final(self).interrupt == (v & 0x04u8 != 0u8),
            final(self).zero == (v & 0x02u8 != 0u8),
            final(self).carry == (v & 0x01u8 != 0u8),
            axy_eq(*old(self), *final(self)),
            final(self).pc == old(self).pc,
            final(self).sp == old(self).sp,
            final(self).cycles_left == old(self).cycles_left,
            final(self).cycles_completed == old(self).cycles_completed,
    {
        self.sign = v & 0x80 != 0;
        self.overflow = v & 0x40 != 0;
        self.decimal = v & 0x08 != 0;
        self.interrupt = v & 0x04 != 0;
        self.zero = v & 0x02 != 0;
        self.carry = v & 0x01 != 0;
    }

    fn plp(&mut self, bus: &Bus)
        requires
            old(self).wf(),
            bus.wf(),
        ensures
            final(self).wf(),
            final(self).sp == ((old(self).sp + 1) % 256) as u8,
            final(self).pc == old(self).pc,
            axy_eq(*old(self), *final(self)),
            final(self).sign == (bus.ram@[stack_slot(final(self).sp)] & 0x80u8 != 0u8),
            final(self).overflow == (bus.ram@[stack_slot(final(self).sp)] & 0x40u8 != 0u8),
            final(self).decimal == (bus.ram@[stack_slot(final(self).sp)] & 0x08u8 != 0u8),
            final(self).interrupt == (bus.ram@[stack_slot(final(self).sp)] & 0x04u8 != 0u8),
            final(self).zero == (bus.ram@[stack_slot(final(self).sp)] & 0x02u8 != 0u8),
            final(self).carry == (bus.ram@[stack_slot(final(self).sp)] & 0x01u8 != 0u8),
            final(self).cycles_left == old(self).cycles_left,
            final(self).cycles_completed == old(self).cycles_completed,
    {
        let v = self.pop_byte(bus);
        self.set_flags_from(v);
    }

    /// Conditional relative branch.
    fn branch(&mut self, condition: bool, offset: i8)
        requires
            old(self).wf(),
            old(self).cycles_left <= 900,
        ensures
            final(self).wf(),
            if condition {
                let t = branch_target(old(self).pc, offset);
                &&& final(self).pc == t
                &&& final(self).cycles_left == old(self).cycles_left + 1 + (if t / 0x100 != old(
                    self,
                ).pc / 0x100 {
                    1int
                } else {
                    0int
                })
                &&& final(self).sp == old(self).sp
                &&& axy_eq(*old(self), *final(self))
                &&& flags_eq(*old(self), *final(self))
                &&& final(self).cycles_completed == old(self).cycles_completed
            } else {
                *final(self) == *old(self)
            },
    {
        if condition {
            self.cycles_left = self.cycles_left + 1;
            let new_pc: u16 = if offset >= 0 {
                self.pc.wrapping_add(offset as u16)
            } else {
                let mag = -(offset as i16);
                self.pc.wrapping_sub(mag as u16)
            };
            if new_pc / 0x100 != self.pc / 0x100 {
                self.cycles_left = self.cycles_left + 1;
            }
            self.pc = new_pc;
        }
    }

    /// Pushes a return address and the status byte (break bit as
    /// given, bit 5 set), sets the interrupt-disable flag, loads the
    /// vector and charges seven cycles.
    fn dispatch_through_vector(&mut self, bus: &mut Bus, vector: u16, ret: u16, brk_flag: bool)
        requires
            old(self).wf(),
            old(bus).wf(),
            0x8000 <= vector < 0xFFFF,
        ensures
            final(self).wf(),
            final(bus).wf(),
            final(self).pc == peek_word(*old(bus), vector),
            final(self).sp == ((old(self).sp - 3) % 256) as u8,
            final(self).interrupt == true,
            final(self).carry == old(self).carry,
            final(self).zero == old(self).zero,
            final(self).decimal == old(self).decimal,
            final(self).overflow == old(self).overflow,
            final(self).sign == old(self).sign,
            axy_eq(*old(self), *final(self)),
            final(self).cycles_left == 7,
            final(self).cycles_completed == old(self).cycles_completed,
            bus_ram_now(
                *old(bus),
                *final(bus),
                old(bus).ram@.update(
                    stack_slot(old(self).sp),
                    ((ret >> 8u16) & 0xFFu16) as u8,
                ).update(stack_slot(((old(self).sp - 1) % 256) as u8), (ret & 0xFFu16) as u8)
                    .update(
                    stack_slot(((old(self).sp - 2) % 256) as u8),
                    status_byte(*old(self), brk_flag),
                ),
            ),
    {
        self.push_word(bus, ret);
        let status: u8 = (((((((if self.sign {
            0x80u8
        } else {
            0u8
        }) | (if self.overflow {
            0x40u8
        } else {
            0u8
        })) | 0x20u8) | (if brk_flag {
            0x10u8
        } else {
            0u8
        })) | (if self.decimal {
            0x08u8
        } else {
            0u8
        })) | (if self.interrupt {
            0x04u8
        } else {
            0u8
        })) | (if self.zero {
            0x02u8
        } else {
            0u8
        })) | (if self.carry {
            0x01u8
        } else {
            0u8
        });
        assert(status == status_byte(*old(self), brk_flag));
        self.push_byte(bus, status);
        self.interrupt = true;
        let low = bus.read_plain(vector);
        let high = bus.read_plain(vector.wrapping_add(1));
        self.pc = ((high as u16) << 8) | (low as u16);
        self.cycles_left = 7;
    }

    /// Interrupt dispatch: pushes the program counter and the status
    /// byte (break clear, bit 5 set), sets the interrupt-disable flag,
    /// loads the vector and charges seven cycles.
    pub fn interrupt(&mut self, bus: &mut Bus, int_type: Interrupt)
        requires
            old(self).wf(),
            old(bus).wf(),
        ensures
            final(self).wf(),
            final(bus).wf(),
            final(self).pc == peek_word(
                *old(bus),
                match int_type {
                    Interrupt::Irq => 0xFFFEu16,
                    Interrupt::Nmi => 0xFFFAu16,
                    Interrupt::Reset => 0xFFFCu16,
                },
            ),
            final(self).sp == ((old(self).sp - 3) % 256) as u8,
            final(self).interrupt == true,
            final(self).carry == old(self).carry,
            final(self).zero == old(self).zero,
            final(self).decimal == old(self).decimal,
            final(self).overflow == old(self).overflow,
            final(self).sign == old(self).sign,
            axy_eq(*old(self), *final(self)),
            final(self).cycles_left == 7,
            final(self).cycles_completed == old(self).cycles_completed,
            bus_ram_now(
                *old(bus),
                *final(bus),
                old(bus).ram@.update(
                    stack_slot(old(self).sp),
                    ((old(self).pc >> 8u16) & 0xFFu16) as u8,
                ).update(
                    stack_slot(((old(self).sp - 1) % 256) as u8),
                    (old(self).pc & 0xFFu16) as u8,
                ).update(
                    stack_slot(((old(self).sp - 2) % 256) as u8),
                    status_byte(*old(self), false),
                ),
            ),
    {
        let pc = self.pc;
        let vector: u16 = match int_type {
            Interrupt::Irq => 0xFFFE,
            Interrupt::Nmi => 0xFFFA,
            Interrupt::Reset => 0xFFFC,
        };
        self.dispatch_through_vector(bus, vector, pc, false);
    }
}

/// A jump: absolute loads the operand; indirect reads the target from
/// memory, fetching the high byte from the start of the same page when
/// the pointer's low byte is 0xFF (the page-boundary quirk).
pub open spec fn rel_jmp(
    c0: Cpu,
    c1: Cpu,
    b0: Bus,
    b1: Bus,
    m: AddressingMode,
    r: Result<(), CpuError>,
) -> bool {
    match m {
        AddressingMode::Absolute(t) => {
            &&& r is Ok
            &&& c1.pc == t
            &&& c1.sp == c0.sp
            &&& axy_eq(c0, c1)
            &&& flags_eq(c0, c1)
            &&& c1.cycles_left == c0.cycles_left
            &&& c1.cycles_completed == c0.cycles_completed
            &&& bus_eq(b0, b1)
        },
        AddressingMode::Indirect(t) => {
            let lo_a = t;
            let hi_a = if t & 0xFFu16 == 0xFFu16 {
                t & 0xFF00u16
            } else {
                t.wrapping_add(1)
            };
            &&& (r is Ok <==> bus_readable(lo_a) && bus_readable(hi_a))
            &&& (!bus_readable(lo_a) ==> r == Err::<(), CpuError>(
                CpuError::Bus(BusError::ReadFault(lo_a)),
            ) && c1 == c0 && bus_eq(b0, b1))
            &&& (bus_readable(lo_a) && !bus_readable(hi_a) ==> r == Err::<(), CpuError>(
                CpuError::Bus(BusError::ReadFault(hi_a)),
            ) && c1 == c0 && read_rel(b0, b1, lo_a))
            &&& (r is Ok ==> {
                &&& c1.sp == c0.sp
                &&& axy_eq(c0, c1)
                &&& flags_eq(c0, c1)
                &&& c1.cycles_left == c0.cycles_left
                &&& c1.cycles_completed == c0.cycles_completed
            })
            &&& (r is Ok && plain_addr(lo_a) && plain_addr(hi_a) ==> c1.pc == (((bus_peek(b0, hi_a)
                as u16) << 8u16) | (bus_peek(b0, lo_a) as u16)) && bus_eq(b0, b1))
        },
        _ => true,
    }
}

impl Cpu {
    fn clc(&mut self)
        requires
            old(self).wf(),
        ensures
            final(self).wf(),
            final(self).carry == false,
            final(self).zero == old(self).zero && final(self).interrupt == old(self).interrupt,
            final(self).decimal == old(self).decimal && final(self).overflow == old(self).overflow,
            final(self).sign == old(self).sign,
            only_flags_changed(*old(self), *final(self)),
    {
        self.carry = false;
    }

    fn cld(&mut self)
        requires
            old(self).wf(),
        ensures
            final(self).wf(),
            final(self).decimal == false,
            final(self).zero == old(self).zero && final(self).interrupt == old(self).interrupt,
            final(self).carry == old(self).carry && final(self).overflow == old(self).overflow,
            final(self).sign == old(self).sign,
            only_flags_changed(*old(self), *final(self)),
    {
        self.decimal = false;
    }

    fn cli(&mut self)
        requires
            old(self).wf(),
        ensures
            final(self).wf(),
            final(self).interrupt == false,
            final(self).zero == old(self).zero && final(self).decimal == old(self).decimal,
            final(self).carry == old(self).carry && final(self).overflow == old(self).overflow,
            final(self).sign == old(self).sign,
            only_flags_changed(*old(self), *final(self)),
    {
        self.interrupt = false;
    }

    fn clv(&mut self)
        requires
            old(self).wf(),
        ensures
            final(self).wf(),
            final(self).overflow == false,
            final(self).zero == old(self).zero && final(self).interrupt == old(self).interrupt,
            final(self).carry == old(self).carry && final(self).decimal == old(self).decimal,
            final(self).sign == old(self).sign,
            only_flags_changed(*old(self), *final(self)),
    {
        self.overflow = false;
    }

    fn sec(&mut self)
        requires
            old(self).wf(),
        ensures
            final(self).wf(),
            final(self).carry == true,
            final(self).zero == old(self).zero && final(self).interrupt == old(self).interrupt,
            final(self).decimal == old(self).decimal && final(self).overflow == old(self).overflow,
            final(self).sign == old(self).sign,
            only_flags_changed(*old(self), *final(self)),
    {
        self.carry = true;
    }

    fn sed(&mut self)
        requires
            old(self).wf(),
        ensures
            final(self).wf(),
            final(self).decimal == true,
            final(self).zero == old(self).zero && final(self).interrupt == old(self).interrupt,
            final(self).carry == old(self).carry && final(self).overflow == old(self).overflow,
            final(self).sign == old(self).sign,
            only_flags_changed(*old(self), *final(self)),
    {
        self.decimal = true;
    }

    fn sei(&mut self)
        requires
            old(self).wf(),
        ensures
            final(self).wf(),
            final(self).interrupt == true,
            final(self).zero == old(self).zero && final(self).decimal == old(self).decimal,
            final(self).carry == old(self).carry && final(self).overflow == old(self).overflow,
            final(self).sign == old(self).sign,
            only_flags_changed(*old(self), *final(self)),
    {
        self.interrupt = true;
    }

    fn jmp(&mut self, bus: &mut Bus, mode: AddressingMode) -> (r: Result<(), CpuError>)
        requires
            old(self).wf(),
            old(bus).wf(),
            mode is Absolute || mode is Indirect,
        ensures
            final(self).wf(),
            final(bus).wf(),
            rel_jmp(*old(self), *final(self), *old(bus), *final(bus), mode, r),
    {
        match mode {
            AddressingMode::Absolute(addr) => {
                self.pc = addr;
                Ok(())
            },
            AddressingMode::Indirect(addr) => {
                let hi_a: u16 = if addr & 0xFF == 0xFF {
                    addr & 0xFF00
                } else {
                    addr.wrapping_add(1)
                };
                let lo = match bus.get_byte_at(addr) {
                    Ok(v) => v,
                    Err(e) => {
                        return Err(CpuError::Bus(e));
                    },
                };
                let hi = match bus.get_byte_at(hi_a) {
                    Ok(v) => v,
                    Err(e) => {
                        return Err(CpuError::Bus(e));
                    },
                };
                self.pc = ((hi as u16) << 8) | (lo as u16);
                Ok(())
            },
            _ => Ok(()),
        }
    }

    fn jsr(&mut self, bus: &mut Bus, addr: u16)
        requires
            old(self).wf(),
            old(bus).wf(),
        ensures
            final(self).wf(),
            final(bus).wf(),
            final(self).pc == addr,
            final(self).sp == ((old(self).sp - 2) % 256) as u8,
            axy_eq(*old(self), *final(self)),
            flags_eq(*old(self), *final(self)),
            final(self).cycles_left == old(self).cycles_left,
            final(self).cycles_completed == old(self).cycles_completed,
            bus_ram_now(
                *old(bus),
                *final(bus),
                old(bus).ram@.update(
                    stack_slot(old(self).sp),
                    ((old(self).pc.wrapping_sub(1) >> 8u16) & 0xFFu16) as u8,
                ).update(
                    stack_slot(((old(self).sp - 1) % 256) as u8),
                    (old(self).pc.wrapping_sub(1) & 0xFFu16) as u8,
                ),
            ),
    {
        let ret = self.pc.wrapping_sub(1);
        self.push_word(bus, ret);
        self.pc = addr;
    }

    fn rts(&mut self, bus: &Bus)
        requires
            old(self).wf(),
            bus.wf(),
        ensures
            final(self).wf(),
            final(self).sp == ((old(self).sp + 2) % 256) as u8,
            final(self).pc == ((((bus.ram@[stack_slot(((old(self).sp + 2) % 256) as u8)] as u16)
                << 8u16) | (bus.ram@[stack_slot(((old(self).sp + 1) % 256) as u8)] as u16))
                + 1) % 0x10000,
            axy_eq(*old(self), *final(self)),
            flags_eq(*old(self), *final(self)),
            final(self).cycles_left == old(self).cycles_left,
            final(self).cycles_completed == old(self).cycles_completed,
    {
        let w = self.pop_word(bus);
        self.pc = w.wrapping_add(1);
    }

    fn rti(&mut self, bus: &Bus)
        requires
            old(self).wf(),
            bus.wf(),
        ensures
            final(self).wf(),
            final(self).sp == ((old(self).sp + 3) % 256) as u8,
            final(self).sign == (bus.ram@[stack_slot(((old(self).sp + 1) % 256) as u8)] & 0x80u8
                != 0u8),
            final(self).overflow == (bus.ram@[stack_slot(((old(self).sp + 1) % 256) as u8)]
                & 0x40u8 != 0u8),
            final(self).decimal == (bus.ram@[stack_slot(((old(self).sp + 1) % 256) as u8)] & 0x08u8
                != 0u8),
            final(self).interrupt == (bus.ram@[stack_slot(((old(self).sp + 1) % 256) as u8)]
                & 0x04u8 != 0u8),
            final(self).zero == (bus.ram@[stack_slot(((old(self).sp + 1) % 256) as u8)] & 0x02u8
                != 0u8),
            final(self).carry == (bus.ram@[stack_slot(((old(self).sp + 1) % 256) as u8)] & 0x01u8
                != 0u8),
            final(self).pc == (((bus.ram@[stack_slot(((old(self).sp + 3) % 256) as u8)] as u16)
                << 8u16) | (bus.ram@[stack_slot(((old(self).sp + 2) % 256) as u8)] as u16)),
            axy_eq(*old(self), *final(self)),
            final(self).cycles_left == old(self).cycles_left,
            final(self).cycles_completed == old(self).cycles_completed,
    {
        let v = self.pop_byte(bus);
        self.set_flags_from(v);
        let w = self.pop_word(bus);
        self.pc = w;
    }

    /// BRK: pushes the return address past the padding byte and the
    /// status byte with the break bit set, then dispatches through the
    /// IRQ vector.
    fn brk(&mut self, bus: &mut Bus)
        requires
            old(self).wf(),
            old(bus).wf(),
        ensures
            final(self).wf(),
            final(bus).wf(),
            final(self).pc == peek_word(*old(bus), 0xFFFEu16),
            final(self).sp == ((old(self).sp - 3) % 256) as u8,
            final(self).interrupt == true,
            final(self).carry == old(self).carry,
            final(self).zero == old(self).zero,
            final(self).decimal == old(self).decimal,
            final(self).overflow == old(self).overflow,
            final(self).sign == old(self).sign,
            axy_eq(*old(self), *final(self)),
            final(self).cycles_left == 7,
            final(self).cycles_completed == old(self).cycles_completed,
            bus_ram_now(
                *old(bus),
                *final(bus),
                old(bus).ram@.update(
                    stack_slot(old(self).sp),
                    ((old(self).pc.wrapping_add(1) >> 8u16) & 0xFFu16) as u8,
                ).update(
                    stack_slot(((old(self).sp - 1) % 256) as u8),
                    (old(self).pc.wrapping_add(1) & 0xFFu16) as u8,
                ).update(
                    stack_slot(((old(self).sp - 2) % 256) as u8),
                    status_byte(*old(self), true),
                ),
            ),
    {
        let ret = self.pc.wrapping_add(1);
        self.dispatch_through_vector(bus, 0xFFFE, ret, true);
    }
}

/// A combined read-modify-write plus ALU instruction: the memory step
/// happens first, then the ALU step sees the stored value.
pub open spec fn rel_combo_first_fails(
    c0: Cpu,
    b0: Bus,
    m: AddressingMode,
    res1: u8,
) -> bool {
    !(read_ok(c0, b0, m) && write_ok(c0, b0, m, res1))
}

/// DCP: decrement memory, then compare the accumulator with it.
pub open spec fn rel_dcp(
    c0: Cpu,
    c1: Cpu,
    b0: Bus,
    b1: Bus,
    m: AddressingMode,
    r: Result<(), CpuError>,
) -> bool {
    let res1 = operand_val(c0, b0, m).wrapping_sub(1);
    if rel_combo_first_fails(c0, b0, m, res1) {
        rel_incdec(c0, c1, b0, b1, m, res1, r)
    } else {
        exists|cm: Cpu, bm: Bus|
            #[trigger] rel_incdec(c0, cm, b0, bm, m, res1, Ok(())) && rel_compare(
                cm,
                c1,
                bm,
                b1,
                m,
                c0.accumulator,
                r,
            )
    }
}

/// ISC: increment memory, then subtract it from the accumulator.
pub open spec fn rel_isc(
    c0: Cpu,
    c1: Cpu,
    b0: Bus,
    b1: Bus,
    m: AddressingMode,
    r: Result<(), CpuError>,
) -> bool {
    let res1 = operand_val(c0, b0, m).wrapping_add(1);
    if rel_combo_first_fails(c0, b0, m, res1) {
        rel_incdec(c0, c1, b0, b1, m, res1, r)
    } else {
        exists|cm: Cpu, bm: Bus|
            #[trigger] rel_incdec(c0, cm, b0, bm, m, res1, Ok(())) && rel_sbc(cm, c1, bm, b1, m, r)
    }
}

/// RLA: rotate memory left, then AND it into the accumulator.
pub open spec fn rel_rla(
    c0: Cpu,
    c1: Cpu,
    b0: Bus,
    b1: Bus,
    m: AddressingMode,
    r: Result<(), CpuError>,
) -> bool {
    let v = operand_val(c0, b0, m);
    let res1 = (v << 1u8) | (if c0.carry {
        1u8
    } else {
        0u8
    });
    if rel_combo_first_fails(c0, b0, m, res1) {
        rel_shift(c0, c1, b0, b1, m, res1, v & 0x80u8 != 0u8, r)
    } else {
        exists|cm: Cpu, bm: Bus|
            rel_shift(c0, cm, b0, bm, m, res1, v & 0x80u8 != 0u8, Ok(())) && #[trigger] rel_logic(
                cm,
                c1,
                bm,
                b1,
                m,
                cm.accumulator & operand_val(cm, bm, m),
                r,
            )
    }
}

/// RRA: rotate memory right, then add it to the accumulator.
pub open spec fn rel_rra(
    c0: Cpu,
    c1: Cpu,
    b0: Bus,
    b1: Bus,
    m: AddressingMode,
    r: Result<(), CpuError>,
) -> bool {
    let v = operand_val(c0, b0, m);
    let res1 = (v >> 1u8) | (if c0.carry {
        0x80u8
    } else {
        0u8
    });
    if rel_combo_first_fails(c0, b0, m, res1) {
        rel_shift(c0, c1, b0, b1, m, res1, v & 0x01u8 != 0u8, r)
    } else {
        exists|cm: Cpu, bm: Bus|
            rel_shift(c0, cm, b0, bm, m, res1, v & 0x01u8 != 0u8, Ok(())) && #[trigger] rel_add(
                cm,
                c1,
                bm,
                b1,
                m,
                r,
            )
    }
}

/// SLO: shift memory left, then OR it into the accumulator.
pub open spec fn rel_slo(
    c0: Cpu,
    c1: Cpu,
    b0: Bus,
    b1: Bus,
    m: AddressingMode,
    r: Result<(), CpuError>,
) -> bool {
    let v = operand_val(c0, b0, m);
    let res1 = v << 1u8;
    if rel_combo_first_fails(c0, b0, m, res1) {
        rel_shift(c0, c1, b0, b1, m, res1, v & 0x80u8 != 0u8, r)
    } else {
        exists|cm: Cpu, bm: Bus|
            rel_shift(c0, cm, b0, bm, m, res1, v & 0x80u8 != 0u8, Ok(())) && #[trigger] rel_logic(
                cm,
                c1,
                bm,
                b1,
                m,
                cm.accumulator | operand_val(cm, bm, m),
                r,
            )
    }
}

/// SRE: shift memory right, then XOR it into the accumulator.
pub open spec fn rel_sre(
    c0: Cpu,
    c1: Cpu,
    b0: Bus,
    b1: Bus,
    m: AddressingMode,
    r: Result<(), CpuError>,
) -> bool {
    let v = operand_val(c0, b0, m);
    let res1 = v >> 1u8;
    if rel_combo_first_fails(c0, b0, m, res1) {
        rel_shift(c0, c1, b0, b1, m, res1, v & 0x01u8 != 0u8, r)
    } else {
        exists|cm: Cpu, bm: Bus|
            rel_shift(c0, cm, b0, bm, m, res1, v & 0x01u8 != 0u8, Ok(())) && #[trigger] rel_logic(
                cm,
                c1,
                bm,
                b1,
                m,
                cm.accumulator ^ operand_val(cm, bm, m),
                r,
            )
    }
}

impl Cpu {
    fn dcp(&mut self, bus: &mut Bus, mode: AddressingMode) -> (r: Result<(), CpuError>)
        requires
            old(self).wf(),
            old(bus).wf(),
            mode_has_addr(mode),
        ensures
            final(self).wf(),
            final(bus).wf(),
            rel_dcp(*old(self), *final(self), *old(bus), *final(bus), mode, r),
    {
        match self.dec(bus, mode) {
            Ok(_) => {},
            Err(e) => {
                return Err(e);
            },
        }
        let ghost cm = *self;
        let ghost bm = *bus;
        let r2 = self.cmp(bus, mode);
        proof {
            assert(rel_incdec(
                *old(self),
                cm,
                *old(bus),
                bm,
                mode,
                operand_val(*old(self), *old(bus), mode).wrapping_sub(1),
                Ok(()),
            ) && rel_compare(cm, *self, bm, *bus, mode, old(self).accumulator, r2));
        }
        r2
    }

    fn isc(&mut self, bus: &mut Bus, mode: AddressingMode) -> (r: Result<(), CpuError>)
        requires
            old(self).wf(),
            old(bus).wf(),
            mode_has_addr(mode),
        ensures
            final(self).wf(),
            final(bus).wf(),
            rel_isc(*old(self), *final(self), *old(bus), *final(bus), mode, r),
    {
        match self.inc(bus, mode) {
            Ok(_) => {},
            Err(e) => {
                return Err(e);
            },
        }
        let ghost cm = *self;
        let ghost bm = *bus;
        let r2 = self.sbc(bus, mode);
        proof {
            assert(rel_incdec(
                *old(self),
                cm,
                *old(bus),
                bm,
                mode,
                operand_val(*old(self), *old(bus), mode).wrapping_add(1),
                Ok(()),
            ) && rel_sbc(cm, *self, bm, *bus, mode, r2));
        }
        r2
    }

    fn rla(&mut self, bus: &mut Bus, mode: AddressingMode) -> (r: Result<(), CpuError>)
        requires
            old(self).wf(),
            old(bus).wf(),
            mode_has_addr(mode),
        ensures
            final(self).wf(),
            final(bus).wf(),
            rel_rla(*old(self), *final(self), *old(bus), *final(bus), mode, r),
    {
        match self.rol(bus, mode) {
            Ok(_) => {},
            Err(e) => {
                return Err(e);
            },
        }
        let ghost cm = *self;
        let ghost bm = *bus;
        let r2 = self.and(bus, mode);
        proof {
            let v = operand_val(*old(self), *old(bus), mode);
            let res1 = (v << 1u8) | (if old(self).carry {
                1u8
            } else {
                0u8
            });
            assert(rel_shift(*old(self), cm, *old(bus), bm, mode, res1, v & 0x80u8 != 0u8, Ok(()))
                && rel_logic(cm, *self, bm, *bus, mode, cm.accumulator & operand_val(cm, bm, mode), r2));
        }
        r2
    }

    fn rra(&mut self, bus: &mut Bus, mode: AddressingMode) -> (r: Result<(), CpuError>)
        requires
            old(self).wf(),
            old(bus).wf(),
            mode_has_addr(mode),
        ensures
            final(self).wf(),
            final(bus).wf(),
            rel_rra(*old(self), *final(self), *old(bus), *final(bus), mode, r),
    {
        match self.ror(bus, mode) {
            Ok(_) => {},
            Err(e) => {
                return Err(e);
            },
        }
        let ghost cm = *self;
        let ghost bm = *bus;
        let r2 = self.adc(bus, mode);
        proof {
            let v = operand_val(*old(self), *old(bus), mode);
            let res1 = (v >> 1u8) | (if old(self).carry {
                0x80u8
            } else {
                0u8
            });
            assert(rel_shift(*old(self), cm, *old(bus), bm, mode, res1, v & 0x01u8 != 0u8, Ok(()))
                && rel_add(cm, *self, bm, *bus, mode, r2));
        }
        r2
    }

    fn slo(&mut self, bus: &mut Bus, mode: AddressingMode) -> (r: Result<(), CpuError>)
        requires
            old(self).wf(),
            old(bus).wf(),
            mode_has_addr(mode),
        ensures
            final(self).wf(),
            final(bus).wf(),
            rel_slo(*old(self), *final(self), *old(bus), *final(bus), mode, r),
    {
        match self.asl(bus, mode) {
            Ok(_) => {},
            Err(e) => {
                return Err(e);
            },
        }
        let ghost cm = *self;
        let ghost bm = *bus;
        let r2 = self.ora(bus, mode);
        proof {
            let v = operand_val(*old(self), *old(bus), mode);
            assert(rel_shift(*old(self), cm, *old(bus), bm, mode, v << 1u8, v & 0x80u8 != 0u8, Ok(()))
                && rel_logic(cm, *self, bm, *bus, mode, cm.accumulator | operand_val(cm, bm, mode), r2));
        }
        r2
    }

    fn sre(&mut self, bus: &mut Bus, mode: AddressingMode) -> (r: Result<(), CpuError>)
        requires
            old(self).wf(),
            old(bus).wf(),
            mode_has_addr(mode),
        ensures
            final(self).wf(),
            final(bus).wf(),
            rel_sre(*old(self), *final(self), *old(bus), *final(bus), mode, r),
    {
        match self.lsr(bus, mode) {
            Ok(_) => {},
            Err(e) => {
                return Err(e);
            },
        }
        let ghost cm = *self;
        let ghost bm = *bus;
        let r2 = self.eor(bus, mode);
        proof {
            let v = operand_val(*old(self), *old(bus), mode);
            assert(rel_shift(*old(self), cm, *old(bus), bm, mode, v >> 1u8, v & 0x01u8 != 0u8, Ok(()))
                && rel_logic(cm, *self, bm, *bus, mode, cm.accumulator ^ operand_val(cm, bm, mode), r2));
        }
        r2
    }
}

/// An addressing-mode shape, before the operand bytes are attached.
#[derive(Copy, Clone, Debug, PartialEq, Eq, Structural)]
pub enum ModeKind {
    Imp,
    Acc,
    Imm,
    Zp,
    ZpX,
    ZpY,
    Abs,
    AbsX,
    AbsY,
    Ind,
    IndX,
    IndY,
    Rel,
}

/// A decode-table row: kind, mode shape, base cycles and the
/// page-cross marker.
#[derive(Copy, Clone, Debug, PartialEq, Eq, Structural)]
pub struct InstrInfo {
    pub opcode: Opcode,
    pub mode: ModeKind,
    pub cycles: u8,
    pub page_cross_cost: bool,
}

/// Total instruction length in bytes: the opcode plus its operands.
pub open spec fn kind_len(k: ModeKind) -> u16 {
    match k {
        ModeKind::Imp => 1u16,
        ModeKind::Acc => 1u16,
        ModeKind::Imm => 2u16,
        ModeKind::Zp => 2u16,
        ModeKind::ZpX => 2u16,
        ModeKind::ZpY => 2u16,
        ModeKind::Rel => 2u16,
        ModeKind::IndX => 2u16,
        ModeKind::IndY => 2u16,
        ModeKind::Abs => 3u16,
        ModeKind::AbsX => 3u16,
        ModeKind::AbsY => 3u16,
        ModeKind::Ind => 3u16,
    }
}
/// Decode rows 0x00 through 0x3F.
pub open spec fn spec_decode_q0(op: u8) -> Option<InstrInfo> {
    match op {
        0x00 => Some(InstrInfo { opcode: Opcode::Brk, mode: ModeKind::Imp, cycles: 0, page_cross_cost: false }),
        0x01 => Some(InstrInfo { opcode: Opcode::Ora, mode: ModeKind::IndX, cycles: 6, page_cross_cost: false }),
        0x03 => Some(InstrInfo { opcode: Opcode::Slo, mode: ModeKind::IndX, cycles: 8, page_cross_cost: false }),
        0x04 => Some(InstrInfo { opcode: Opcode::Nop, mode: ModeKind::Zp, cycles: 3, page_cross_cost: false }),
        0x05 => Some(InstrInfo { opcode: Opcode::Ora, mode: ModeKind::Zp, cycles: 3, page_cross_cost: false }),
        0x06 => Some(InstrInfo { opcode: Opcode::Asl, mode: ModeKind::Zp, cycles: 5, page_cross_cost: false }),
        0x07 => Some(InstrInfo { opcode: Opcode::Slo, mode: ModeKind::Zp, cycles: 5, page_cross_cost: false }),
        0x08 => Some(InstrInfo { opcode: Opcode::Php, mode: ModeKind::Imp, cycles: 3, page_cross_cost: false }),
        0x09 => Some(InstrInfo { opcode: Opcode::Ora, mode: ModeKind::Imm, cycles: 2, page_cross_cost: false }),
        0x0A => Some(InstrInfo { opcode: Opcode::Asl, mode: ModeKind::Acc, cycles: 2, page_cross_cost: false }),
        0x0C => Some(InstrInfo { opcode: Opcode::Nop, mode: ModeKind::Abs, cycles: 4, page_cross_cost: false }),
        0x0D => Some(InstrInfo { opcode: Opcode::Ora, mode: ModeKind::Abs, cycles: 4, page_cross_cost: false }),
        0x0E => Some(InstrInfo { opcode: Opcode::Asl, mode: ModeKind::Abs, cycles: 6, page_cross_cost: false }),
        0x0F => Some(InstrInfo { opcode: Opcode::Slo, mode: ModeKind::Abs, cycles: 6, page_cross_cost: false }),
        0x10 => Some(InstrInfo { opcode: Opcode::Bpl, mode: ModeKind::Rel, cycles: 2, page_cross_cost: true }),
        0x11 => Some(InstrInfo { opcode: Opcode::Ora, mode: ModeKind::IndY, cycles: 5, page_cross_cost: true }),
        0x13 => Some(InstrInfo { opcode: Opcode::Slo, mode: ModeKind::IndY, cycles: 8, page_cross_cost: false }),
        0x14 => Some(InstrInfo { opcode: Opcode::Nop, mode: ModeKind::ZpX, cycles: 4, page_cross_cost: false }),
        0x15 => Some(InstrInfo { opcode: Opcode::Ora, mode: ModeKind::ZpX, cycles: 4, page_cross_cost: false }),
        0x16 => Some(InstrInfo { opcode: Opcode::Asl, mode: ModeKind::ZpX, cycles: 6, page_cross_cost: false }),
        0x17 => Some(InstrInfo { opcode: Opcode::Slo, mode: ModeKind::ZpX, cycles: 6, page_cross_cost: false }),
        0x18 => Some(InstrInfo { opcode: Opcode::Clc, mode: ModeKind::Imp, cycles: 2, page_cross_cost: false }),
        0x19 => Some(InstrInfo { opcode: Opcode::Ora, mode: ModeKind::AbsY, cycles: 4, page_cross_cost: true }),
        0x1A => Some(InstrInfo { opcode: Opcode::Nop, mode: ModeKind::Imp, cycles: 2, page_cross_cost: false }),
        0x1B => Some(InstrInfo { opcode: Opcode::Slo, mode: ModeKind::AbsY, cycles: 7, page_cross_cost: false }),
        0x1C => Some(InstrInfo { opcode: Opcode::Nop, mode: ModeKind::AbsX, cycles: 4, page_cross_cost: true }),
        0x1D => Some(InstrInfo { opcode: Opcode::Ora, mode: ModeKind::AbsX, cycles: 4, page_cross_cost: true }),
        0x1E => Some(InstrInfo { opcode: Opcode::Asl, mode: ModeKind::AbsX, cycles: 7, page_cross_cost: false }),
        0x1F => Some(InstrInfo { opcode: Opcode::Slo, mode: ModeKind::AbsX, cycles: 7, page_cross_cost: false }),
        0x20 => Some(InstrInfo { opcode: Opcode::Jsr, mode: ModeKind::Abs, cycles: 6, page_cross_cost: false }),
        0x21 => Some(InstrInfo { opcode: Opcode::And, mode: ModeKind::IndX, cycles: 6, page_cross_cost: false }),
        0x23 => Some(InstrInfo { opcode: Opcode::Rla, mode: ModeKind::IndX, cycles: 8, page_cross_cost: false }),
        0x24 => Some(InstrInfo { opcode: Opcode::Bit, mode: ModeKind::Zp, cycles: 3, page_cross_cost: false }),
        0x25 => Some(InstrInfo { opcode: Opcode::And, mode: ModeKind::Zp, cycles: 3, page_cross_cost: false }),
        0x26 => Some(InstrInfo { opcode: Opcode::Rol, mode: ModeKind::Zp, cycles: 5, page_cross_cost: false }),
        0x27 => Some(InstrInfo { opcode: Opcode::Rla, mode: ModeKind::Zp, cycles: 5, page_cross_cost: false }),
        0x28 => Some(InstrInfo { opcode: Opcode::Plp, mode: ModeKind::Imp, cycles: 4, page_cross_cost: false }),
        0x29 => Some(InstrInfo { opcode: Opcode::And, mode: ModeKind::Imm, cycles: 2, page_cross_cost: false }),
        0x2A => Some(InstrInfo { opcode: Opcode::Rol, mode: ModeKind::Acc, cycles: 2, page_cross_cost: false }),
        0x2C => Some(InstrInfo { opcode: Opcode::Bit, mode: ModeKind::Abs, cycles: 4, page_cross_cost: false }),
        0x2D => Some(InstrInfo { opcode: Opcode::And, mode: ModeKind::Abs, cycles: 4, page_cross_cost: false }),
        0x2E => Some(InstrInfo { opcode: Opcode::Rol, mode: ModeKind::Abs, cycles: 6, page_cross_cost: false }),
        0x2F => Some(InstrInfo { opcode: Opcode::Rla, mode: ModeKind::Abs, cycles: 6, page_cross_cost: false }),
        0x30 => Some(InstrInfo { opcode: Opcode::Bmi, mode: ModeKind::Rel, cycles: 2, page_cross_cost: true }),
        0x31 => Some(InstrInfo { opcode: Opcode::And, mode: ModeKind::IndY, cycles: 5, page_cross_cost: true }),
        0x33 => Some(InstrInfo { opcode: Opcode::Rla, mode: ModeKind::IndY, cycles: 8, page_cross_cost: false }),
        0x34 => Some(InstrInfo { opcode: Opcode::Nop, mode: ModeKind::ZpX, cycles: 4, page_cross_cost: false }),
        0x35 => Some(InstrInfo { opcode: Opcode::And, mode: ModeKind::ZpX, cycles: 4, page_cross_cost: false }),
        0x36 => Some(InstrInfo { opcode: Opcode::Rol, mode: ModeKind::ZpX, cycles: 6, page_cross_cost: false }),
        0x37 => Some(InstrInfo { opcode: Opcode::Rla, mode: ModeKind::ZpX, cycles: 6, page_cross_cost: false }),
        0x38 => Some(InstrInfo { opcode: Opcode::Sec, mode: ModeKind::Imp, cycles: 2, page_cross_cost: false }),
        0x39 => Some(InstrInfo { opcode: Opcode::And, mode: ModeKind::AbsY, cycles: 4, page_cross_cost: true }),
        0x3A => Some(InstrInfo { opcode: Opcode::Nop, mode: ModeKind::Imp, cycles: 2, page_cross_cost: false }),
        0x3B => Some(InstrInfo { opcode: Opcode::Rla, mode: ModeKind::AbsY, cycles: 7, page_cross_cost: false }),
        0x3C => Some(InstrInfo { opcode: Opcode::Nop, mode: ModeKind::AbsX, cycles: 4, page_cross_cost: true }),
        0x3D => Some(InstrInfo { opcode: Opcode::And, mode: ModeKind::AbsX, cycles: 4, page_cross_cost: true }),
        0x3E => Some(InstrInfo { opcode: Opcode::Rol, mode: ModeKind::AbsX, cycles: 7, page_cross_cost: false }),
        0x3F => Some(InstrInfo { opcode: Opcode::Rla, mode: ModeKind::AbsX, cycles: 7, page_cross_cost: false }),
        _ => None,
    }
}

/// Decode rows 0x40 through 0x7F.
pub open spec fn spec_decode_q1(op: u8) -> Option<InstrInfo> {
    match op {
        0x40 => Some(InstrInfo { opcode: Opcode::Rti, mode: ModeKind::Imp, cycles: 6, page_cross_cost: false }),
        0x41 => Some(InstrInfo { opcode: Opcode::Eor, mode: ModeKind::IndX, cycles: 6, page_cross_cost: false }),
        0x43 => Some(InstrInfo { opcode: Opcode::Sre, mode: ModeKind::IndX, cycles: 8, page_cross_cost: false }),
        0x44 => Some(InstrInfo { opcode: Opcode::Nop, mode: ModeKind::Zp, cycles: 3, page_cross_cost: false }),
        0x45 => Some(InstrInfo { opcode: Opcode::Eor, mode: ModeKind::Zp, cycles: 3, page_cross_cost: false }),
        0x46 => Some(InstrInfo { opcode: Opcode::Lsr, mode: ModeKind::Zp, cycles: 5, page_cross_cost: false }),
        0x47 => Some(InstrInfo { opcode: Opcode::Sre, mode: ModeKind::Zp, cycles: 5, page_cross_cost: false }),
        0x48 => Some(InstrInfo { opcode: Opcode::Pha, mode: ModeKind::Imp, cycles: 3, page_cross_cost: false }),
        0x49 => Some(InstrInfo { opcode: Opcode::Eor, mode: ModeKind::Imm, cycles: 2, page_cross_cost: false }),
        0x4A => Some(InstrInfo { opcode: Opcode::Lsr, mode: ModeKind::Acc, cycles: 2, page_cross_cost: false }),
        0x4C => Some(InstrInfo { opcode: Opcode::Jmp, mode: ModeKind::Abs, cycles: 3, page_cross_cost: false }),
        0x4D => Some(InstrInfo { opcode: Opcode::Eor, mode: ModeKind::Abs, cycles: 4, page_cross_cost: false }),
        0x4E => Some(InstrInfo { opcode: Opcode::Lsr, mode: ModeKind::Abs, cycles: 6, page_cross_cost: false }),
        0x4F => Some(InstrInfo { opcode: Opcode::Sre, mode: ModeKind::Abs, cycles: 6, page_cross_cost: false }),
        0x50 => Some(InstrInfo { opcode: Opcode::Bvc, mode: ModeKind::Rel, cycles: 2, page_cross_cost: true }),
        0x51 => Some(InstrInfo { opcode: Opcode::Eor, mode: ModeKind::IndY, cycles: 5, page_cross_cost: true }),
        0x53 => Some(InstrInfo { opcode: Opcode::Sre, mode: ModeKind::IndY, cycles: 8, page_cross_cost: false }),
        0x54 => Some(InstrInfo { opcode: Opcode::Nop, mode: ModeKind::ZpX, cycles: 4, page_cross_cost: false }),
        0x55 => Some(InstrInfo { opcode: Opcode::Eor, mode: ModeKind::ZpX, cycles: 4, page_cross_cost: false }),
        0x56 => Some(InstrInfo { opcode: Opcode::Lsr, mode: ModeKind::ZpX, cycles: 6, page_cross_cost: false }),
        0x57 => Some(InstrInfo { opcode: Opcode::Sre, mode: ModeKind::ZpX, cycles: 6, page_cross_cost: false }),
        0x58 => Some(InstrInfo { opcode: Opcode::Cli, mode: ModeKind::Imp, cycles: 2, page_cross_cost: false }),
        0x59 => Some(InstrInfo { opcode: Opcode::Eor, mode: ModeKind::AbsY, cycles: 4, page_cross_cost: true }),
        0x5A => Some(InstrInfo { opcode: Opcode::Nop, mode: ModeKind::Imp, cycles: 2, page_cross_cost: false }),
        0x5B => Some(InstrInfo { opcode: Opcode::Sre, mode: ModeKind::AbsY, cycles: 7, page_cross_cost: false }),
        0x5C => Some(InstrInfo { opcode: Opcode::Nop, mode: ModeKind::AbsX, cycles: 4, page_cross_cost: true }),
        0x5D => Some(InstrInfo { opcode: Opcode::Eor, mode: ModeKind::AbsX, cycles: 4, page_cross_cost: true }),
        0x5E => Some(InstrInfo { opcode: Opcode::Lsr, mode: ModeKind::AbsX, cycles: 7, page_cross_cost: false }),
        0x5F => Some(InstrInfo { opcode: Opcode::Sre, mode: ModeKind::AbsX, cycles: 7, page_cross_cost: false }),
        0x60 => Some(InstrInfo { opcode: Opcode::Rts, mode: ModeKind::Imp, cycles: 6, page_cross_cost: false }),
        0x61 => Some(InstrInfo { opcode: Opcode::Add, mode: ModeKind::IndX, cycles: 6, page_cross_cost: false }),
        0x63 => Some(InstrInfo { opcode: Opcode::Rra, mode: ModeKind::IndX, cycles: 8, page_cross_cost: false }),
        0x64 => Some(InstrInfo { opcode: Opcode::Nop, mode: ModeKind::Zp, cycles: 3, page_cross_cost: false }),
        0x65 => Some(InstrInfo { opcode: Opcode::Add, mode: ModeKind::Zp, cycles: 3, page_cross_cost: false }),
        0x66 => Some(InstrInfo { opcode: Opcode::Ror, mode: ModeKind::Zp, cycles: 5, page_cross_cost: false }),
        0x67 => Some(InstrInfo { opcode: Opcode::Rra, mode: ModeKind::Zp, cycles: 5, page_cross_cost: false }),
        0x68 => Some(InstrInfo { opcode: Opcode::Pla, mode: ModeKind::Imp, cycles: 4, page_cross_cost: false }),
        0x69 => Some(InstrInfo { opcode: Opcode::Add, mode: ModeKind::Imm, cycles: 2, page_cross_cost: false }),
        0x6A => Some(InstrInfo { opcode: Opcode::Ror, mode: ModeKind::Acc, cycles: 2, page_cross_cost: false }),
        0x6C => Some(InstrInfo { opcode: Opcode::Jmp, mode: ModeKind::Ind, cycles: 5, page_cross_cost: false }),
        0x6D => Some(InstrInfo { opcode: Opcode::Add, mode: ModeKind::Abs, cycles: 4, page_cross_cost: false }),
        0x6E => Some(InstrInfo { opcode: Opcode::Ror, mode: ModeKind::Abs, cycles: 6, page_cross_cost: false }),
        0x6F => Some(InstrInfo { opcode: Opcode::Rra, mode: ModeKind::Abs, cycles: 6, page_cross_cost: false }),
        0x70 => Some(InstrInfo { opcode: Opcode::Bvs, mode: ModeKind::Rel, cycles: 2, page_cross_cost: true }),
        0x71 => Some(InstrInfo { opcode: Opcode::Add, mode: ModeKind::IndY, cycles: 5, page_cross_cost: true }),
        0x73 => Some(InstrInfo { opcode: Opcode::Rra, mode: ModeKind::IndY, cycles: 8, page_cross_cost: false }),
        0x74 => Some(InstrInfo { opcode: Opcode::Nop, mode: ModeKind::ZpX, cycles: 4, page_cross_cost: false }),
        0x75 => Some(InstrInfo { opcode: Opcode::Add, mode: ModeKind::ZpX, cycles: 4, page_cross_cost: false }),
        0x76 => Some(InstrInfo { opcode: Opcode::Ror, mode: ModeKind::ZpX, cycles: 6, page_cross_cost: false }),
        0x77 => Some(InstrInfo { opcode: Opcode::Rra, mode: ModeKind::ZpX, cycles: 6, page_cross_cost: false }),
        0x78 => Some(InstrInfo { opcode: Opcode::Sei, mode: ModeKind::Imp, cycles: 2, page_cross_cost: false }),
        0x79 => Some(InstrInfo { opcode: Opcode::Add, mode: ModeKind::AbsY, cycles: 4, page_cross_cost: true }),
        0x7A => Some(InstrInfo { opcode: Opcode::Nop, mode: ModeKind::Imp, cycles: 2, page_cross_cost: false }),
        0x7B => Some(InstrInfo { opcode: Opcode::Rra, mode: ModeKind::AbsY, cycles: 7, page_cross_cost: false }),
        0x7C => Some(InstrInfo { opcode: Opcode::Nop, mode: ModeKind::AbsX, cycles: 4, page_cross_cost: true }),
        0x7D => Some(InstrInfo { opcode: Opcode::Add, mode: ModeKind::AbsX, cycles: 4, page_cross_cost: true }),
        0x7E => Some(InstrInfo { opcode: Opcode::Ror, mode: ModeKind::AbsX, cycles: 7, page_cross_cost: false }),
        0x7F => Some(InstrInfo { opcode: Opcode::Rra, mode: ModeKind::AbsX, cycles: 7, page_cross_cost: false }),
        _ => None,
    }
}

/// Decode rows 0x80 through 0xBF.
pub open spec fn spec_decode_q2(op: u8) -> Option<InstrInfo> {
    match op {
        0x80 => Some(InstrInfo { opcode: Opcode::Nop, mode: ModeKind::Imm, cycles: 2, page_cross_cost: false }),
        0x81 => Some(InstrInfo { opcode: Opcode::Sta, mode: ModeKind::IndX, cycles: 6, page_cross_cost: false }),
        0x83 => Some(InstrInfo { opcode: Opcode::Sax, mode: ModeKind::IndX, cycles: 6, page_cross_cost: false }),
        0x84 => Some(InstrInfo { opcode: Opcode::Sty, mode: ModeKind::Zp, cycles: 3, page_cross_cost: false }),
        0x85 => Some(InstrInfo { opcode: Opcode::Sta, mode: ModeKind::Zp, cycles: 3, page_cross_cost: false }),
        0x86 => Some(InstrInfo { opcode: Opcode::Stx, mode: ModeKind::Zp, cycles: 3, page_cross_cost: false }),
        0x87 => Some(InstrInfo { opcode: Opcode::Sax, mode: ModeKind::Zp, cycles: 3, page_cross_cost: false }),
        0x88 => Some(InstrInfo { opcode: Opcode::Dey, mode: ModeKind::Imp, cycles: 2, page_cross_cost: false }),
        0x8A => Some(InstrInfo { opcode: Opcode::Txa, mode: ModeKind::Imp, cycles: 2, page_cross_cost: false }),
        0x8C => Some(InstrInfo { opcode: Opcode::Sty, mode: ModeKind::Abs, cycles: 4, page_cross_cost: false }),
        0x8D => Some(InstrInfo { opcode: Opcode::Sta, mode: ModeKind::Abs, cycles: 4, page_cross_cost: false }),
        0x8E => Some(InstrInfo { opcode: Opcode::Stx, mode: ModeKind::Abs, cycles: 4, page_cross_cost: false }),
        0x8F => Some(InstrInfo { opcode: Opcode::Sax, mode: ModeKind::Abs, cycles: 4, page_cross_cost: false }),
        0x90 => Some(InstrInfo { opcode: Opcode::Bcc, mode: ModeKind::Rel, cycles: 2, page_cross_cost: true }),
        0x91 => Some(InstrInfo { opcode: Opcode::Sta, mode: ModeKind::IndY, cycles: 6, page_cross_cost: false }),
        0x94 => Some(InstrInfo { opcode: Opcode::Sty, mode: ModeKind::ZpX, cycles: 4, page_cross_cost: false }),
        0x95 => Some(InstrInfo { opcode: Opcode::Sta, mode: ModeKind::ZpX, cycles: 4, page_cross_cost: false }),
        0x96 => Some(InstrInfo { opcode: Opcode::Stx, mode: ModeKind::ZpY, cycles: 4, page_cross_cost: false }),
        0x97 => Some(InstrInfo { opcode: Opcode::Sax, mode: ModeKind::ZpY, cycles: 4, page_cross_cost: false }),
        0x98 => Some(InstrInfo { opcode: Opcode::Tya, mode: ModeKind::Imp, cycles: 2, page_cross_cost: false }),
        0x99 => Some(InstrInfo { opcode: Opcode::Sta, mode: ModeKind::AbsY, cycles: 5, page_cross_cost: false }),
        0x9A => Some(InstrInfo { opcode: Opcode::Txs, mode: ModeKind::Imp, cycles: 2, page_cross_cost: false }),
        0x9D => Some(InstrInfo { opcode: Opcode::Sta, mode: ModeKind::AbsX, cycles: 5, page_cross_cost: false }),
        0xA0 => Some(InstrInfo { opcode: Opcode::Ldy, mode: ModeKind::Imm, cycles: 2, page_cross_cost: false }),
        0xA1 => Some(InstrInfo { opcode: Opcode::Lda, mode: ModeKind::IndX, cycles: 6, page_cross_cost: false }),
        0xA2 => Some(InstrInfo { opcode: Opcode::Ldx, mode: ModeKind::Imm, cycles: 2, page_cross_cost: false }),
        0xA3 => Some(InstrInfo { opcode: Opcode::Lax, mode: ModeKind::IndX, cycles: 6, page_cross_cost: false }),
        0xA4 => Some(InstrInfo { opcode: Opcode::Ldy, mode: ModeKind::Zp, cycles: 3, page_cross_cost: false }),
        0xA5 => Some(InstrInfo { opcode: Opcode::Lda, mode: ModeKind::Zp, cycles: 3, page_cross_cost: false }),
        0xA6 => Some(InstrInfo { opcode: Opcode::Ldx, mode: ModeKind::Zp, cycles: 3, page_cross_cost: false }),
        0xA7 => Some(InstrInfo { opcode: Opcode::Lax, mode: ModeKind::Zp, cycles: 3, page_cross_cost: false }),
        0xA8 => Some(InstrInfo { opcode: Opcode::Tay, mode: ModeKind::Imp, cycles: 2, page_cross_cost: false }),
        0xA9 => Some(InstrInfo { opcode: Opcode::Lda, mode: ModeKind::Imm, cycles: 2, page_cross_cost: false }),
        0xAA => Some(InstrInfo { opcode: Opcode::Tax, mode: ModeKind::Imp, cycles: 2, page_cross_cost: false }),
        0xAC => Some(InstrInfo { opcode: Opcode::Ldy, mode: ModeKind::Abs, cycles: 4, page_cross_cost: false }),
        0xAD => Some(InstrInfo { opcode: Opcode::Lda, mode: ModeKind::Abs, cycles: 4, page_cross_cost: false }),
        0xAE => Some(InstrInfo { opcode: Opcode::Ldx, mode: ModeKind::Abs, cycles: 4, page_cross_cost: false }),
        0xAF => Some(InstrInfo { opcode: Opcode::Lax, mode: ModeKind::Abs, cycles: 4, page_cross_cost: false }),
        0xB0 => Some(InstrInfo { opcode: Opcode::Bcs, mode: ModeKind::Rel, cycles: 2, page_cross_cost: true }),
        0xB1 => Some(InstrInfo { opcode: Opcode::Lda, mode: ModeKind::IndY, cycles: 5, page_cross_cost: true }),
        0xB3 => Some(InstrInfo { opcode: Opcode::Lax, mode: ModeKind::IndY, cycles: 5, page_cross_cost: true }),
        0xB4 => Some(InstrInfo { opcode: Opcode::Ldy, mode: ModeKind::ZpX, cycles: 4, page_cross_cost: false }),
        0xB5 => Some(InstrInfo { opcode: Opcode::Lda, mode: ModeKind::ZpX, cycles: 4, page_cross_cost: false }),
        0xB6 => Some(InstrInfo { opcode: Opcode::Ldx, mode: ModeKind::ZpY, cycles: 4, page_cross_cost: false }),
        0xB7 => Some(InstrInfo { opcode: Opcode::Lax, mode: ModeKind::ZpY, cycles: 4, page_cross_cost: false }),
        0xB8 => Some(InstrInfo { opcode: Opcode::Clv, mode: ModeKind::Imp, cycles: 2, page_cross_cost: false }),
        0xB9 => Some(InstrInfo { opcode: Opcode::Lda, mode: ModeKind::AbsY, cycles: 4, page_cross_cost: true }),
        0xBA => Some(InstrInfo { opcode: Opcode::Tsx, mode: ModeKind::Imp, cycles: 2, page_cross_cost: false }),
        0xBC => Some(InstrInfo { opcode: Opcode::Ldy, mode: ModeKind::AbsX, cycles: 4, page_cross_cost: true }),
        0xBD => Some(InstrInfo { opcode: Opcode::Lda, mode: ModeKind::AbsX, cycles: 4, page_cross_cost: true }),
        0xBE => Some(InstrInfo { opcode: Opcode::Ldx, mode: ModeKind::AbsY, cycles: 4, page_cross_cost: true }),
        0xBF => Some(InstrInfo { opcode: Opcode::Lax, mode: ModeKind::AbsY, cycles: 4, page_cross_cost: true }),
        _ => None,
    }
}

/// Decode rows 0xC0 through 0xFF.
pub open spec fn spec_decode_q3(op: u8) -> Option<InstrInfo> {
    match op {
        0xC0 => Some(InstrInfo { opcode: Opcode::Cpy, mode: ModeKind::Imm, cycles: 2, page_cross_cost: false }),
        0xC1 => Some(InstrInfo { opcode: Opcode::Cmp, mode: ModeKind::IndX, cycles: 6, page_cross_cost: false }),
        0xC3 => Some(InstrInfo { opcode: Opcode::Dcp, mode: ModeKind::IndX, cycles: 8, page_cross_cost: false }),
        0xC4 => Some(InstrInfo { opcode: Opcode::Cpy, mode: ModeKind::Zp, cycles: 3, page_cross_cost: false }),
        0xC5 => Some(InstrInfo { opcode: Opcode::Cmp, mode: ModeKind::Zp, cycles: 3, page_cross_cost: false }),
        0xC6 => Some(InstrInfo { opcode: Opcode::Dec, mode: ModeKind::Zp, cycles: 5, page_cross_cost: false }),
        0xC7 => Some(InstrInfo { opcode: Opcode::Dcp, mode: ModeKind::Zp, cycles: 5, page_cross_cost: false }),
        0xC8 => Some(InstrInfo { opcode: Opcode::Iny, mode: ModeKind::Imp, cycles: 2, page_cross_cost: false }),
        0xC9 => Some(InstrInfo { opcode: Opcode::Cmp, mode: ModeKind::Imm, cycles: 2, page_cross_cost: false }),
        0xCA => Some(InstrInfo { opcode: Opcode::Dex, mode: ModeKind::Imp, cycles: 2, page_cross_cost: false }),
        0xCC => Some(InstrInfo { opcode: Opcode::Cpy, mode: ModeKind::Abs, cycles: 4, page_cross_cost: false }),
        0xCD => Some(InstrInfo { opcode: Opcode::Cmp, mode: ModeKind::Abs, cycles: 4, page_cross_cost: false }),
        0xCE => Some(InstrInfo { opcode: Opcode::Dec, mode: ModeKind::Abs, cycles: 6, page_cross_cost: false }),
        0xCF => Some(InstrInfo { opcode: Opcode::Dcp, mode: ModeKind::Abs, cycles: 6, page_cross_cost: false }),
        0xD0 => Some(InstrInfo { opcode: Opcode::Bne, mode: ModeKind::Rel, cycles: 2, page_cross_cost: true }),
        0xD1 => Some(InstrInfo { opcode: Opcode::Cmp, mode: ModeKind::IndY, cycles: 5, page_cross_cost: true }),
        0xD3 => Some(InstrInfo { opcode: Opcode::Dcp, mode: ModeKind::IndY, cycles: 8, page_cross_cost: false }),
        0xD4 => Some(InstrInfo { opcode: Opcode::Nop, mode: ModeKind::ZpX, cycles: 4, page_cross_cost: false }),
        0xD5 => Some(InstrInfo { opcode: Opcode::Cmp, mode: ModeKind::ZpX, cycles: 4, page_cross_cost: false }),
        0xD6 => Some(InstrInfo { opcode: Opcode::Dec, mode: ModeKind::ZpX, cycles: 6, page_cross_cost: false }),
        0xD7 => Some(InstrInfo { opcode: Opcode::Dcp, mode: ModeKind::ZpX, cycles: 6, page_cross_cost: false }),
        0xD8 => Some(InstrInfo { opcode: Opcode::Cld, mode: ModeKind::Imp, cycles: 2, page_cross_cost: false }),
        0xD9 => Some(InstrInfo { opcode: Opcode::Cmp, mode: ModeKind::AbsY, cycles: 4, page_cross_cost: true }),
        0xDA => Some(InstrInfo { opcode: Opcode::Nop, mode: ModeKind::Imp, cycles: 2, page_cross_cost: false }),
        0xDB => Some(InstrInfo { opcode: Opcode::Dcp, mode: ModeKind::AbsY, cycles: 7, page_cross_cost: false }),
        0xDC => Some(InstrInfo { opcode: Opcode::Nop, mode: ModeKind::AbsX, cycles: 4, page_cross_cost: true }),
        0xDD => Some(InstrInfo { opcode: Opcode::Cmp, mode: ModeKind::AbsX, cycles: 4, page_cross_cost: true }),
        0xDE => Some(InstrInfo { opcode: Opcode::Dec, mode: ModeKind::AbsX, cycles: 7, page_cross_cost: false }),
        0xDF => Some(InstrInfo { opcode: Opcode::Dcp, mode: ModeKind::AbsX, cycles: 7, page_cross_cost: false }),
        0xE0 => Some(InstrInfo { opcode: Opcode::Cpx, mode: ModeKind::Imm, cycles: 2, page_cross_cost: false }),
        0xE1 => Some(InstrInfo { opcode: Opcode::Sbc, mode: ModeKind::IndX, cycles: 6, page_cross_cost: false }),
        0xE3 => Some(InstrInfo { opcode: Opcode::Isc, mode: ModeKind::IndX, cycles: 8, page_cross_cost: false }),
        0xE4 => Some(InstrInfo { opcode: Opcode::Cpx, mode: ModeKind::Zp, cycles: 3, page_cross_cost: false }),
        0xE5 => Some(InstrInfo { opcode: Opcode::Sbc, mode: ModeKind::Zp, cycles: 3, page_cross_cost: false }),
        0xE6 => Some(InstrInfo { opcode: Opcode::Inc, mode: ModeKind::Zp, cycles: 5, page_cross_cost: false }),
        0xE7 => Some(InstrInfo { opcode: Opcode::Isc, mode: ModeKind::Zp, cycles: 5, page_cross_cost: false }),
        0xE8 => Some(InstrInfo { opcode: Opcode::Inx, mode: ModeKind::Imp, cycles: 2, page_cross_cost: false }),
        0xE9 => Some(InstrInfo { opcode: Opcode::Sbc, mode: ModeKind::Imm, cycles: 2, page_cross_cost: false }),
        0xEA => Some(InstrInfo { opcode: Opcode::Nop, mode: ModeKind::Imp, cycles: 2, page_cross_cost: false }),
        0xEB => Some(InstrInfo { opcode: Opcode::Sbc, mode: ModeKind::Imm, cycles: 2, page_cross_cost: false }),
        0xEC => Some(InstrInfo { opcode: Opcode::Cpx, mode: ModeKind::Abs, cycles: 4, page_cross_cost: false }),
        0xED => Some(InstrInfo { opcode: Opcode::Sbc, mode: ModeKind::Abs, cycles: 4, page_cross_cost: false }),
        0xEE => Some(InstrInfo { opcode: Opcode::Inc, mode: ModeKind::Abs, cycles: 6, page_cross_cost: false }),
        0xEF => Some(InstrInfo { opcode: Opcode::Isc, mode: ModeKind::Abs, cycles: 6, page_cross_cost: false }),
        0xF0 => Some(InstrInfo { opcode: Opcode::Beq, mode: ModeKind::Rel, cycles: 2, page_cross_cost: true }),
        0xF1 => Some(InstrInfo { opcode: Opcode::Sbc, mode: ModeKind::IndY, cycles: 5, page_cross_cost: true }),
        0xF3 => Some(InstrInfo { opcode: Opcode::Isc, mode: ModeKind::IndY, cycles: 8, page_cross_cost: false }),
        0xF4 => Some(InstrInfo { opcode: Opcode::Nop, mode: ModeKind::ZpX, cycles: 4, page_cross_cost: false }),
        0xF5 => Some(InstrInfo { opcode: Opcode::Sbc, mode: ModeKind::ZpX, cycles: 4, page_cross_cost: false }),
        0xF6 => Some(InstrInfo { opcode: Opcode::Inc, mode: ModeKind::ZpX, cycles: 6, page_cross_cost: false }),
        0xF7 => Some(InstrInfo { opcode: Opcode::Isc, mode: ModeKind::ZpX, cycles: 6, page_cross_cost: false }),
        0xF8 => Some(InstrInfo { opcode: Opcode::Sed, mode: ModeKind::Imp, cycles: 2, page_cross_cost: false }),
        0xF9 => Some(InstrInfo { opcode: Opcode::Sbc, mode: ModeKind::AbsY, cycles: 4, page_cross_cost: true }),
        0xFA => Some(InstrInfo { opcode: Opcode::Nop, mode: ModeKind::Imp, cycles: 2, page_cross_cost: false }),
        0xFB => Some(InstrInfo { opcode: Opcode::Isc, mode: ModeKind::AbsY, cycles: 7, page_cross_cost: false }),
        0xFC => Some(InstrInfo { opcode: Opcode::Nop, mode: ModeKind::AbsX, cycles: 4, page_cross_cost: true }),
        0xFD => Some(InstrInfo { opcode: Opcode::Sbc, mode: ModeKind::AbsX, cycles: 4, page_cross_cost: true }),
        0xFE => Some(InstrInfo { opcode: Opcode::Inc, mode: ModeKind::AbsX, cycles: 7, page_cross_cost: false }),
        0xFF => Some(InstrInfo { opcode: Opcode::Isc, mode: ModeKind::AbsX, cycles: 7, page_cross_cost: false }),
        _ => None,
    }
}

/// The canonical decode table: every documented opcode and the common
/// illegal combinations, with canonical base cycles and page-cross
/// markers.
pub open spec fn spec_decode(op: u8) -> Option<InstrInfo> {
    if op < 0x40 {
        spec_decode_q0(op)
    } else if op < 0x80 {
        spec_decode_q1(op)
    } else if op < 0xC0 {
        spec_decode_q2(op)
    } else {
        spec_decode_q3(op)
    }
}
#[verifier::rlimit(100)]
fn decode_q0(op: u8) -> (r: Option<InstrInfo>)
    requires
        op < 0x40,
    ensures
        r == spec_decode(op),
{
    match op {
        0x00 => Some(InstrInfo { opcode: Opcode::Brk, mode: ModeKind::Imp, cycles: 0, page_cross_cost: false }),
        0x01 => Some(InstrInfo { opcode: Opcode::Ora, mode: ModeKind::IndX, cycles: 6, page_cross_cost: false }),
        0x03 => Some(InstrInfo { opcode: Opcode::Slo, mode: ModeKind::IndX, cycles: 8, page_cross_cost: false }),
        0x04 => Some(InstrInfo { opcode: Opcode::Nop, mode: ModeKind::Zp, cycles: 3, page_cross_cost: false }),
        0x05 => Some(InstrInfo { opcode: Opcode::Ora, mode: ModeKind::Zp, cycles: 3, page_cross_cost: false }),
        0x06 => Some(InstrInfo { opcode: Opcode::Asl, mode: ModeKind::Zp, cycles: 5, page_cross_cost: false }),
        0x07 => Some(InstrInfo { opcode: Opcode::Slo, mode: ModeKind::Zp, cycles: 5, page_cross_cost: false }),
        0x08 => Some(InstrInfo { opcode: Opcode::Php, mode: ModeKind::Imp, cycles: 3, page_cross_cost: false }),
        0x09 => Some(InstrInfo { opcode: Opcode::Ora, mode: ModeKind::Imm, cycles: 2, page_cross_cost: false }),
        0x0A => Some(InstrInfo { opcode: Opcode::Asl, mode: ModeKind::Acc, cycles: 2, page_cross_cost: false }),
        0x0C => Some(InstrInfo { opcode: Opcode::Nop, mode: ModeKind::Abs, cycles: 4, page_cross_cost: false }),
        0x0D => Some(InstrInfo { opcode: Opcode::Ora, mode: ModeKind::Abs, cycles: 4, page_cross_cost: false }),
        0x0E => Some(InstrInfo { opcode: Opcode::Asl, mode: ModeKind::Abs, cycles: 6, page_cross_cost: false }),
        0x0F => Some(InstrInfo { opcode: Opcode::Slo, mode: ModeKind::Abs, cycles: 6, page_cross_cost: false }),
        0x10 => Some(InstrInfo { opcode: Opcode::Bpl, mode: ModeKind::Rel, cycles: 2, page_cross_cost: true }),
        0x11 => Some(InstrInfo { opcode: Opcode::Ora, mode: ModeKind::IndY, cycles: 5, page_cross_cost: true }),
        0x13 => Some(InstrInfo { opcode: Opcode::Slo, mode: ModeKind::IndY, cycles: 8, page_cross_cost: false }),
        0x14 => Some(InstrInfo { opcode: Opcode::Nop, mode: ModeKind::ZpX, cycles: 4, page_cross_cost: false }),
        0x15 => Some(InstrInfo { opcode: Opcode::Ora, mode: ModeKind::ZpX, cycles: 4, page_cross_cost: false }),
        0x16 => Some(InstrInfo { opcode: Opcode::Asl, mode: ModeKind::ZpX, cycles: 6, page_cross_cost: false }),
        0x17 => Some(InstrInfo { opcode: Opcode::Slo, mode: ModeKind::ZpX, cycles: 6, page_cross_cost: false }),
        0x18 => Some(InstrInfo { opcode: Opcode::Clc, mode: ModeKind::Imp, cycles: 2, page_cross_cost: false }),
        0x19 => Some(InstrInfo { opcode: Opcode::Ora, mode: ModeKind::AbsY, cycles: 4, page_cross_cost: true }),
        0x1A => Some(InstrInfo { opcode: Opcode::Nop, mode: ModeKind::Imp, cycles: 2, page_cross_cost: false }),
        0x1B => Some(InstrInfo { opcode: Opcode::Slo, mode: ModeKind::AbsY, cycles: 7, page_cross_cost: false }),
        0x1C => Some(InstrInfo { opcode: Opcode::Nop, mode: ModeKind::AbsX, cycles: 4, page_cross_cost: true }),
        0x1D => Some(InstrInfo { opcode: Opcode::Ora, mode: ModeKind::AbsX, cycles: 4, page_cross_cost: true }),
        0x1E => Some(InstrInfo { opcode: Opcode::Asl, mode: ModeKind::AbsX, cycles: 7, page_cross_cost: false }),
        0x1F => Some(InstrInfo { opcode: Opcode::Slo, mode: ModeKind::AbsX, cycles: 7, page_cross_cost: false }),
        0x20 => Some(InstrInfo { opcode: Opcode::Jsr, mode: ModeKind::Abs, cycles: 6, page_cross_cost: false }),
        0x21 => Some(InstrInfo { opcode: Opcode::And, mode: ModeKind::IndX, cycles: 6, page_cross_cost: false }),
        0x23 => Some(InstrInfo { opcode: Opcode::Rla, mode: ModeKind::IndX, cycles: 8, page_cross_cost: false }),
        0x24 => Some(InstrInfo { opcode: Opcode::Bit, mode: ModeKind::Zp, cycles: 3, page_cross_cost: false }),
        0x25 => Some(InstrInfo { opcode: Opcode::And, mode: ModeKind::Zp, cycles: 3, page_cross_cost: false }),
        0x26 => Some(InstrInfo { opcode: Opcode::Rol, mode: ModeKind::Zp, cycles: 5, page_cross_cost: false }),
        0x27 => Some(InstrInfo { opcode: Opcode::Rla, mode: ModeKind::Zp, cycles: 5, page_cross_cost: false }),
        0x28 => Some(InstrInfo { opcode: Opcode::Plp, mode: ModeKind::Imp, cycles: 4, page_cross_cost: false }),
        0x29 => Some(InstrInfo { opcode: Opcode::And, mode: ModeKind::Imm, cycles: 2, page_cross_cost: false }),
        0x2A => Some(InstrInfo { opcode: Opcode::Rol, mode: ModeKind::Acc, cycles: 2, page_cross_cost: false }),
        0x2C => Some(InstrInfo { opcode: Opcode::Bit, mode: ModeKind::Abs, cycles: 4, page_cross_cost: false }),
        0x2D => Some(InstrInfo { opcode: Opcode::And, mode: ModeKind::Abs, cycles: 4, page_cross_cost: false }),
        0x2E => Some(InstrInfo { opcode: Opcode::Rol, mode: ModeKind::Abs, cycles: 6, page_cross_cost: false }),
        0x2F => Some(InstrInfo { opcode: Opcode::Rla, mode: ModeKind::Abs, cycles: 6, page_cross_cost: false }),
        0x30 => Some(InstrInfo { opcode: Opcode::Bmi, mode: ModeKind::Rel, cycles: 2, page_cross_cost: true }),
        0x31 => Some(InstrInfo { opcode: Opcode::And, mode: ModeKind::IndY, cycles: 5, page_cross_cost: true }),
        0x33 => Some(InstrInfo { opcode: Opcode::Rla, mode: ModeKind::IndY, cycles: 8, page_cross_cost: false }),
        0x34 => Some(InstrInfo { opcode: Opcode::Nop, mode: ModeKind::ZpX, cycles: 4, page_cross_cost: false }),
        0x35 => Some(InstrInfo { opcode: Opcode::And, mode: ModeKind::ZpX, cycles: 4, page_cross_cost: false }),
        0x36 => Some(InstrInfo { opcode: Opcode::Rol, mode: ModeKind::ZpX, cycles: 6, page_cross_cost: false }),
        0x37 => Some(InstrInfo { opcode: Opcode::Rla, mode: ModeKind::ZpX, cycles: 6, page_cross_cost: false }),
        0x38 => Some(InstrInfo { opcode: Opcode::Sec, mode: ModeKind::Imp, cycles: 2, page_cross_cost: false }),
        0x39 => Some(InstrInfo { opcode: Opcode::And, mode: ModeKind::AbsY, cycles: 4, page_cross_cost: true }),
        0x3A => Some(InstrInfo { opcode: Opcode::Nop, mode: ModeKind::Imp, cycles: 2, page_cross_cost: false }),
        0x3B => Some(InstrInfo { opcode: Opcode::Rla, mode: ModeKind::AbsY, cycles: 7, page_cross_cost: false }),
        0x3C => Some(InstrInfo { opcode: Opcode::Nop, mode: ModeKind::AbsX, cycles: 4, page_cross_cost: true }),
        0x3D => Some(InstrInfo { opcode: Opcode::And, mode: ModeKind::AbsX, cycles: 4, page_cross_cost: true }),
        0x3E => Some(InstrInfo { opcode: Opcode::Rol, mode: ModeKind::AbsX, cycles: 7, page_cross_cost: false }),
        0x3F => Some(InstrInfo { opcode: Opcode::Rla, mode: ModeKind::AbsX, cycles: 7, page_cross_cost: false }),
        _ => None,
    }
}

#[verifier::rlimit(100)]
fn decode_q1(op: u8) -> (r: Option<InstrInfo>)
    requires
        0x40 <= op < 0x80,
    ensures
        r == spec_decode(op),
{
    match op {
        0x40 => Some(InstrInfo { opcode: Opcode::Rti, mode: ModeKind::Imp, cycles: 6, page_cross_cost: false }),
        0x41 => Some(InstrInfo { opcode: Opcode::Eor, mode: ModeKind::IndX, cycles: 6, page_cross_cost: false }),
        0x43 => Some(InstrInfo { opcode: Opcode::Sre, mode: ModeKind::IndX, cycles: 8, page_cross_cost: false }),
        0x44 => Some(InstrInfo { opcode: Opcode::Nop, mode: ModeKind::Zp, cycles: 3, page_cross_cost: false }),
        0x45 => Some(InstrInfo { opcode: Opcode::Eor, mode: ModeKind::Zp, cycles: 3, page_cross_cost: false }),
        0x46 => Some(InstrInfo { opcode: Opcode::Lsr, mode: ModeKind::Zp, cycles: 5, page_cross_cost: false }),
        0x47 => Some(InstrInfo { opcode: Opcode::Sre, mode: ModeKind::Zp, cycles: 5, page_cross_cost: false }),
        0x48 => Some(InstrInfo { opcode: Opcode::Pha, mode: ModeKind::Imp, cycles: 3, page_cross_cost: false }),
        0x49 => Some(InstrInfo { opcode: Opcode::Eor, mode: ModeKind::Imm, cycles: 2, page_cross_cost: false }),
        0x4A => Some(InstrInfo { opcode: Opcode::Lsr, mode: ModeKind::Acc, cycles: 2, page_cross_cost: false }),
        0x4C => Some(InstrInfo { opcode: Opcode::Jmp, mode: ModeKind::Abs, cycles: 3, page_cross_cost: false }),
        0x4D => Some(InstrInfo { opcode: Opcode::Eor, mode: ModeKind::Abs, cycles: 4, page_cross_cost: false }),
        0x4E => Some(InstrInfo { opcode: Opcode::Lsr, mode: ModeKind::Abs, cycles: 6, page_cross_cost: false }),
        0x4F => Some(InstrInfo { opcode: Opcode::Sre, mode: ModeKind::Abs, cycles: 6, page_cross_cost: false }),
        0x50 => Some(InstrInfo { opcode: Opcode::Bvc, mode: ModeKind::Rel, cycles: 2, page_cross_cost: true }),
        0x51 => Some(InstrInfo { opcode: Opcode::Eor, mode: ModeKind::IndY, cycles: 5, page_cross_cost: true }),
        0x53 => Some(InstrInfo { opcode: Opcode::Sre, mode: ModeKind::IndY, cycles: 8, page_cross_cost: false }),
        0x54 => Some(InstrInfo { opcode: Opcode::Nop, mode: ModeKind::ZpX, cycles: 4, page_cross_cost: false }),
        0x55 => Some(InstrInfo { opcode: Opcode::Eor, mode: ModeKind::ZpX, cycles: 4, page_cross_cost: false }),
        0x56 => Some(InstrInfo { opcode: Opcode::Lsr, mode: ModeKind::ZpX, cycles: 6, page_cross_cost: false }),
        0x57 => Some(InstrInfo { opcode: Opcode::Sre, mode: ModeKind::ZpX, cycles: 6, page_cross_cost: false }),
        0x58 => Some(InstrInfo { opcode: Opcode::Cli, mode: ModeKind::Imp, cycles: 2, page_cross_cost: false }),
        0x59 => Some(InstrInfo { opcode: Opcode::Eor, mode: ModeKind::AbsY, cycles: 4, page_cross_cost: true }),
        0x5A => Some(InstrInfo { opcode: Opcode::Nop, mode: ModeKind::Imp, cycles: 2, page_cross_cost: false }),
        0x5B => Some(InstrInfo { opcode: Opcode::Sre, mode: ModeKind::AbsY, cycles: 7, page_cross_cost: false }),
        0x5C => Some(InstrInfo { opcode: Opcode::Nop, mode: ModeKind::AbsX, cycles: 4, page_cross_cost: true }),
        0x5D => Some(InstrInfo { opcode: Opcode::Eor, mode: ModeKind::AbsX, cycles: 4, page_cross_cost: true }),
        0x5E => Some(InstrInfo { opcode: Opcode::Lsr, mode: ModeKind::AbsX, cycles: 7, page_cross_cost: false }),
        0x5F => Some(InstrInfo { opcode: Opcode::Sre, mode: ModeKind::AbsX, cycles: 7, page_cross_cost: false }),
        0x60 => Some(InstrInfo { opcode: Opcode::Rts, mode: ModeKind::Imp, cycles: 6, page_cross_cost: false }),
        0x61 => Some(InstrInfo { opcode: Opcode::Add, mode: ModeKind::IndX, cycles: 6, page_cross_cost: false }),
        0x63 => Some(InstrInfo { opcode: Opcode::Rra, mode: ModeKind::IndX, cycles: 8, page_cross_cost: false }),
        0x64 => Some(InstrInfo { opcode: Opcode::Nop, mode: ModeKind::Zp, cycles: 3, page_cross_cost: false }),
        0x65 => Some(InstrInfo { opcode: Opcode::Add, mode: ModeKind::Zp, cycles: 3, page_cross_cost: false }),
        0x66 => Some(InstrInfo { opcode: Opcode::Ror, mode: ModeKind::Zp, cycles: 5, page_cross_cost: false }),
        0x67 => Some(InstrInfo { opcode: Opcode::Rra, mode: ModeKind::Zp, cycles: 5, page_cross_cost: false }),
        0x68 => Some(InstrInfo { opcode: Opcode::Pla, mode: ModeKind::Imp, cycles: 4, page_cross_cost: false }),
        0x69 => Some(InstrInfo { opcode: Opcode::Add, mode: ModeKind::Imm, cycles: 2, page_cross_cost: false }),
        0x6A => Some(InstrInfo { opcode: Opcode::Ror, mode: ModeKind::Acc, cycles: 2, page_cross_cost: false }),
        0x6C => Some(InstrInfo { opcode: Opcode::Jmp, mode: ModeKind::Ind, cycles: 5, page_cross_cost: false }),
        0x6D => Some(InstrInfo { opcode: Opcode::Add, mode: ModeKind::Abs, cycles: 4, page_cross_cost: false }),
        0x6E => Some(InstrInfo { opcode: Opcode::Ror, mode: ModeKind::Abs, cycles: 6, page_cross_cost: false }),
        0x6F => Some(InstrInfo { opcode: Opcode::Rra, mode: ModeKind::Abs, cycles: 6, page_cross_cost: false }),
        0x70 => Some(InstrInfo { opcode: Opcode::Bvs, mode: ModeKind::Rel, cycles: 2, page_cross_cost: true }),
        0x71 => Some(InstrInfo { opcode: Opcode::Add, mode: ModeKind::IndY, cycles: 5, page_cross_cost: true }),
        0x73 => Some(InstrInfo { opcode: Opcode::Rra, mode: ModeKind::IndY, cycles: 8, page_cross_cost: false }),
        0x74 => Some(InstrInfo { opcode: Opcode::Nop, mode: ModeKind::ZpX, cycles: 4, page_cross_cost: false }),
        0x75 => Some(InstrInfo { opcode: Opcode::Add, mode: ModeKind::ZpX, cycles: 4, page_cross_cost: false }),
        0x76 => Some(InstrInfo { opcode: Opcode::Ror, mode: ModeKind::ZpX, cycles: 6, page_cross_cost: false }),
        0x77 => Some(InstrInfo { opcode: Opcode::Rra, mode: ModeKind::ZpX, cycles: 6, page_cross_cost: false }),
        0x78 => Some(InstrInfo { opcode: Opcode::Sei, mode: ModeKind::Imp, cycles: 2, page_cross_cost: false }),
        0x79 => Some(InstrInfo { opcode: Opcode::Add, mode: ModeKind::AbsY, cycles: 4, page_cross_cost: true }),
        0x7A => Some(InstrInfo { opcode: Opcode::Nop, mode: ModeKind::Imp, cycles: 2, page_cross_cost: false }),
        0x7B => Some(InstrInfo { opcode: Opcode::Rra, mode: ModeKind::AbsY, cycles: 7, page_cross_cost: false }),
        0x7C => Some(InstrInfo { opcode: Opcode::Nop, mode: ModeKind::AbsX, cycles: 4, page_cross_cost: true }),
        0x7D => Some(InstrInfo { opcode: Opcode::Add, mode: ModeKind::AbsX, cycles: 4, page_cross_cost: true }),
        0x7E => Some(InstrInfo { opcode: Opcode::Ror, mode: ModeKind::AbsX, cycles: 7, page_cross_cost: false }),
        0x7F => Some(InstrInfo { opcode: Opcode::Rra, mode: ModeKind::AbsX, cycles: 7, page_cross_cost: false }),
        _ => None,
    }
}

#[verifier::rlimit(100)]
fn decode_q2(op: u8) -> (r: Option<InstrInfo>)
    requires
        0x80 <= op < 0xC0,
    ensures
        r == spec_decode(op),
{
    match op {
        0x80 => Some(InstrInfo { opcode: Opcode::Nop, mode: ModeKind::Imm, cycles: 2, page_cross_cost: false }),
        0x81 => Some(InstrInfo { opcode: Opcode::Sta, mode: ModeKind::IndX, cycles: 6, page_cross_cost: false }),
        0x83 => Some(InstrInfo { opcode: Opcode::Sax, mode: ModeKind::IndX, cycles: 6, page_cross_cost: false }),
        0x84 => Some(InstrInfo { opcode: Opcode::Sty, mode: ModeKind::Zp, cycles: 3, page_cross_cost: false }),
        0x85 => Some(InstrInfo { opcode: Opcode::Sta, mode: ModeKind::Zp, cycles: 3, page_cross_cost: false }),
        0x86 => Some(InstrInfo { opcode: Opcode::Stx, mode: ModeKind::Zp, cycles: 3, page_cross_cost: false }),
        0x87 => Some(InstrInfo { opcode: Opcode::Sax, mode: ModeKind::Zp, cycles: 3, page_cross_cost: false }),
        0x88 => Some(InstrInfo { opcode: Opcode::Dey, mode: ModeKind::Imp, cycles: 2, page_cross_cost: false }),
        0x8A => Some(InstrInfo { opcode: Opcode::Txa, mode: ModeKind::Imp, cycles: 2, page_cross_cost: false }),
        0x8C => Some(InstrInfo { opcode: Opcode::Sty, mode: ModeKind::Abs, cycles: 4, page_cross_cost: false }),
        0x8D => Some(InstrInfo { opcode: Opcode::Sta, mode: ModeKind::Abs, cycles: 4, page_cross_cost: false }),
        0x8E => Some(InstrInfo { opcode: Opcode::Stx, mode: ModeKind::Abs, cycles: 4, page_cross_cost: false }),
        0x8F => Some(InstrInfo { opcode: Opcode::Sax, mode: ModeKind::Abs, cycles: 4, page_cross_cost: false }),
        0x90 => Some(InstrInfo { opcode: Opcode::Bcc, mode: ModeKind::Rel, cycles: 2, page_cross_cost: true }),
        0x91 => Some(InstrInfo { opcode: Opcode::Sta, mode: ModeKind::IndY, cycles: 6, page_cross_cost: false }),
        0x94 => Some(InstrInfo { opcode: Opcode::Sty, mode: ModeKind::ZpX, cycles: 4, page_cross_cost: false }),
        0x95 => Some(InstrInfo { opcode: Opcode::Sta, mode: ModeKind::ZpX, cycles: 4, page_cross_cost: false }),
        0x96 => Some(InstrInfo { opcode: Opcode::Stx, mode: ModeKind::ZpY, cycles: 4, page_cross_cost: false }),
        0x97 => Some(InstrInfo { opcode: Opcode::Sax, mode: ModeKind::ZpY, cycles: 4, page_cross_cost: false }),
        0x98 => Some(InstrInfo { opcode: Opcode::Tya, mode: ModeKind::Imp, cycles: 2, page_cross_cost: false }),
        0x99 => Some(InstrInfo { opcode: Opcode::Sta, mode: ModeKind::AbsY, cycles: 5, page_cross_cost: false }),
        0x9A => Some(InstrInfo { opcode: Opcode::Txs, mode: ModeKind::Imp, cycles: 2, page_cross_cost: false }),
        0x9D => Some(InstrInfo { opcode: Opcode::Sta, mode: ModeKind::AbsX, cycles: 5, page_cross_cost: false }),
        0xA0 => Some(InstrInfo { opcode: Opcode::Ldy, mode: ModeKind::Imm, cycles: 2, page_cross_cost: false }),
        0xA1 => Some(InstrInfo { opcode: Opcode::Lda, mode: ModeKind::IndX, cycles: 6, page_cross_cost: false }),
        0xA2 => Some(InstrInfo { opcode: Opcode::Ldx, mode: ModeKind::Imm, cycles: 2, page_cross_cost: false }),
        0xA3 => Some(InstrInfo { opcode: Opcode::Lax, mode: ModeKind::IndX, cycles: 6, page_cross_cost: false }),
        0xA4 => Some(InstrInfo { opcode: Opcode::Ldy, mode: ModeKind::Zp, cycles: 3, page_cross_cost: false }),
        0xA5 => Some(InstrInfo { opcode: Opcode::Lda, mode: ModeKind::Zp, cycles: 3, page_cross_cost: false }),
        0xA6 => Some(InstrInfo { opcode: Opcode::Ldx, mode: ModeKind::Zp, cycles: 3, page_cross_cost: false }),
        0xA7 => Some(InstrInfo { opcode: Opcode::Lax, mode: ModeKind::Zp, cycles: 3, page_cross_cost: false }),
        0xA8 => Some(InstrInfo { opcode: Opcode::Tay, mode: ModeKind::Imp, cycles: 2, page_cross_cost: false }),
        0xA9 => Some(InstrInfo { opcode: Opcode::Lda, mode: ModeKind::Imm, cycles: 2, page_cross_cost: false }),
        0xAA => Some(InstrInfo { opcode: Opcode::Tax, mode: ModeKind::Imp, cycles: 2, page_cross_cost: false }),
        0xAC => Some(InstrInfo { opcode: Opcode::Ldy, mode: ModeKind::Abs, cycles: 4, page_cross_cost: false }),
        0xAD => Some(InstrInfo { opcode: Opcode::Lda, mode: ModeKind::Abs, cycles: 4, page_cross_cost: false }),
        0xAE => Some(InstrInfo { opcode: Opcode::Ldx, mode: ModeKind::Abs, cycles: 4, page_cross_cost: false }),
        0xAF => Some(InstrInfo { opcode: Opcode::Lax, mode: ModeKind::Abs, cycles: 4, page_cross_cost: false }),
        0xB0 => Some(InstrInfo { opcode: Opcode::Bcs, mode: ModeKind::Rel, cycles: 2, page_cross_cost: true }),
        0xB1 => Some(InstrInfo { opcode: Opcode::Lda, mode: ModeKind::IndY, cycles: 5, page_cross_cost: true }),
        0xB3 => Some(InstrInfo { opcode: Opcode::Lax, mode: ModeKind::IndY, cycles: 5, page_cross_cost: true }),
        0xB4 => Some(InstrInfo { opcode: Opcode::Ldy, mode: ModeKind::ZpX, cycles: 4, page_cross_cost: false }),
        0xB5 => Some(InstrInfo { opcode: Opcode::Lda, mode: ModeKind::ZpX, cycles: 4, page_cross_cost: false }),
        0xB6 => Some(InstrInfo { opcode: Opcode::Ldx, mode: ModeKind::ZpY, cycles: 4, page_cross_cost: false }),
        0xB7 => Some(InstrInfo { opcode: Opcode::Lax, mode: ModeKind::ZpY, cycles: 4, page_cross_cost: false }),
        0xB8 => Some(InstrInfo { opcode: Opcode::Clv, mode: ModeKind::Imp, cycles: 2, page_cross_cost: false }),
        0xB9 => Some(InstrInfo { opcode: Opcode::Lda, mode: ModeKind::AbsY, cycles: 4, page_cross_cost: true }),
        0xBA => Some(InstrInfo { opcode: Opcode::Tsx, mode: ModeKind::Imp, cycles: 2, page_cross_cost: false }),
        0xBC => Some(InstrInfo { opcode: Opcode::Ldy, mode: ModeKind::AbsX, cycles: 4, page_cross_cost: true }),
        0xBD => Some(InstrInfo { opcode: Opcode::Lda, mode: ModeKind::AbsX, cycles: 4, page_cross_cost: true }),
        0xBE => Some(InstrInfo { opcode: Opcode::Ldx, mode: ModeKind::AbsY, cycles: 4, page_cross_cost: true }),
        0xBF => Some(InstrInfo { opcode: Opcode::Lax, mode: ModeKind::AbsY, cycles: 4, page_cross_cost: true }),
        _ => None,
    }
}

#[verifier::rlimit(100)]
fn decode_q3(op: u8) -> (r: Option<InstrInfo>)
    requires
        op >= 0xC0,
    ensures
        r == spec_decode(op),
{
    match op {
        0xC0 => Some(InstrInfo { opcode: Opcode::Cpy, mode: ModeKind::Imm, cycles: 2, page_cross_cost: false }),
        0xC1 => Some(InstrInfo { opcode: Opcode::Cmp, mode: ModeKind::IndX, cycles: 6, page_cross_cost: false }),
        0xC3 => Some(InstrInfo { opcode: Opcode::Dcp, mode: ModeKind::IndX, cycles: 8, page_cross_cost: false }),
        0xC4 => Some(InstrInfo { opcode: Opcode::Cpy, mode: ModeKind::Zp, cycles: 3, page_cross_cost: false }),
        0xC5 => Some(InstrInfo { opcode: Opcode::Cmp, mode: ModeKind::Zp, cycles: 3, page_cross_cost: false }),
        0xC6 => Some(InstrInfo { opcode: Opcode::Dec, mode: ModeKind::Zp, cycles: 5, page_cross_cost: false }),
        0xC7 => Some(InstrInfo { opcode: Opcode::Dcp, mode: ModeKind::Zp, cycles: 5, page_cross_cost: false }),
        0xC8 => Some(InstrInfo { opcode: Opcode::Iny, mode: ModeKind::Imp, cycles: 2, page_cross_cost: false }),
        0xC9 => Some(InstrInfo { opcode: Opcode::Cmp, mode: ModeKind::Imm, cycles: 2, page_cross_cost: false }),
        0xCA => Some(InstrInfo { opcode: Opcode::Dex, mode: ModeKind::Imp, cycles: 2, page_cross_cost: false }),
        0xCC => Some(InstrInfo { opcode: Opcode::Cpy, mode: ModeKind::Abs, cycles: 4, page_cross_cost: false }),
        0xCD => Some(InstrInfo { opcode: Opcode::Cmp, mode: ModeKind::Abs, cycles: 4, page_cross_cost: false }),
        0xCE => Some(InstrInfo { opcode: Opcode::Dec, mode: ModeKind::Abs, cycles: 6, page_cross_cost: false }),
        0xCF => Some(InstrInfo { opcode: Opcode::Dcp, mode: ModeKind::Abs, cycles: 6, page_cross_cost: false }),
        0xD0 => Some(InstrInfo { opcode: Opcode::Bne, mode: ModeKind::Rel, cycles: 2, page_cross_cost: true }),
        0xD1 => Some(InstrInfo { opcode: Opcode::Cmp, mode: ModeKind::IndY, cycles: 5, page_cross_cost: true }),
        0xD3 => Some(InstrInfo { opcode: Opcode::Dcp, mode: ModeKind::IndY, cycles: 8, page_cross_cost: false }),
        0xD4 => Some(InstrInfo { opcode: Opcode::Nop, mode: ModeKind::ZpX, cycles: 4, page_cross_cost: false }),
        0xD5 => Some(InstrInfo { opcode: Opcode::Cmp, mode: ModeKind::ZpX, cycles: 4, page_cross_cost: false }),
        0xD6 => Some(InstrInfo { opcode: Opcode::Dec, mode: ModeKind::ZpX, cycles: 6, page_cross_cost: false }),
        0xD7 => Some(InstrInfo { opcode: Opcode::Dcp, mode: ModeKind::ZpX, cycles: 6, page_cross_cost: false }),
        0xD8 => Some(InstrInfo { opcode: Opcode::Cld, mode: ModeKind::Imp, cycles: 2, page_cross_cost: false }),
        0xD9 => Some(InstrInfo { opcode: Opcode::Cmp, mode: ModeKind::AbsY, cycles: 4, page_cross_cost: true }),
        0xDA => Some(InstrInfo { opcode: Opcode::Nop, mode: ModeKind::Imp, cycles: 2, page_cross_cost: false }),
        0xDB => Some(InstrInfo { opcode: Opcode::Dcp, mode: ModeKind::AbsY, cycles: 7, page_cross_cost: false }),
        0xDC => Some(InstrInfo { opcode: Opcode::Nop, mode: ModeKind::AbsX, cycles: 4, page_cross_cost: true }),
        0xDD => Some(InstrInfo { opcode: Opcode::Cmp, mode: ModeKind::AbsX, cycles: 4, page_cross_cost: true }),
        0xDE => Some(InstrInfo { opcode: Opcode::Dec, mode: ModeKind::AbsX, cycles: 7, page_cross_cost: false }),
        0xDF => Some(InstrInfo { opcode: Opcode::Dcp, mode: ModeKind::AbsX, cycles: 7, page_cross_cost: false }),
        0xE0 => Some(InstrInfo { opcode: Opcode::Cpx, mode: ModeKind::Imm, cycles: 2, page_cross_cost: false }),
        0xE1 => Some(InstrInfo { opcode: Opcode::Sbc, mode: ModeKind::IndX, cycles: 6, page_cross_cost: false }),
        0xE3 => Some(InstrInfo { opcode: Opcode::Isc, mode: ModeKind::IndX, cycles: 8, page_cross_cost: false }),
        0xE4 => Some(InstrInfo { opcode: Opcode::Cpx, mode: ModeKind::Zp, cycles: 3, page_cross_cost: false }),
        0xE5 => Some(InstrInfo { opcode: Opcode::Sbc, mode: ModeKind::Zp, cycles: 3, page_cross_cost: false }),
        0xE6 => Some(InstrInfo { opcode: Opcode::Inc, mode: ModeKind::Zp, cycles: 5, page_cross_cost: false }),
        0xE7 => Some(InstrInfo { opcode: Opcode::Isc, mode: ModeKind::Zp, cycles: 5, page_cross_cost: false }),
        0xE8 => Some(InstrInfo { opcode: Opcode::Inx, mode: ModeKind::Imp, cycles: 2, page_cross_cost: false }),
        0xE9 => Some(InstrInfo { opcode: Opcode::Sbc, mode: ModeKind::Imm, cycles: 2, page_cross_cost: false }),
        0xEA => Some(InstrInfo { opcode: Opcode::Nop, mode: ModeKind::Imp, cycles: 2, page_cross_cost: false }),
        0xEB => Some(InstrInfo { opcode: Opcode::Sbc, mode: ModeKind::Imm, cycles: 2, page_cross_cost: false }),
        0xEC => Some(InstrInfo { opcode: Opcode::Cpx, mode: ModeKind::Abs, cycles: 4, page_cross_cost: false }),
        0xED => Some(InstrInfo { opcode: Opcode::Sbc, mode: ModeKind::Abs, cycles: 4, page_cross_cost: false }),
        0xEE => Some(InstrInfo { opcode: Opcode::Inc, mode: ModeKind::Abs, cycles: 6, page_cross_cost: false }),
        0xEF => Some(InstrInfo { opcode: Opcode::Isc, mode: ModeKind::Abs, cycles: 6, page_cross_cost: false }),
        0xF0 => Some(InstrInfo { opcode: Opcode::Beq, mode: ModeKind::Rel, cycles: 2, page_cross_cost: true }),
        0xF1 => Some(InstrInfo { opcode: Opcode::Sbc, mode: ModeKind::IndY, cycles: 5, page_cross_cost: true }),
        0xF3 => Some(InstrInfo { opcode: Opcode::Isc, mode: ModeKind::IndY, cycles: 8, page_cross_cost: false }),
        0xF4 => Some(InstrInfo { opcode: Opcode::Nop, mode: ModeKind::ZpX, cycles: 4, page_cross_cost: false }),
        0xF5 => Some(InstrInfo { opcode: Opcode::Sbc, mode: ModeKind::ZpX, cycles: 4, page_cross_cost: false }),
        0xF6 => Some(InstrInfo { opcode: Opcode::Inc, mode: ModeKind::ZpX, cycles: 6, page_cross_cost: false }),
        0xF7 => Some(InstrInfo { opcode: Opcode::Isc, mode: ModeKind::ZpX, cycles: 6, page_cross_cost: false }),
        0xF8 => Some(InstrInfo { opcode: Opcode::Sed, mode: ModeKind::Imp, cycles: 2, page_cross_cost: false }),
        0xF9 => Some(InstrInfo { opcode: Opcode::Sbc, mode: ModeKind::AbsY, cycles: 4, page_cross_cost: true }),
        0xFA => Some(InstrInfo { opcode: Opcode::Nop, mode: ModeKind::Imp, cycles: 2, page_cross_cost: false }),
        0xFB => Some(InstrInfo { opcode: Opcode::Isc, mode: ModeKind::AbsY, cycles: 7, page_cross_cost: false }),
        0xFC => Some(InstrInfo { opcode: Opcode::Nop, mode: ModeKind::AbsX, cycles: 4, page_cross_cost: true }),
        0xFD => Some(InstrInfo { opcode: Opcode::Sbc, mode: ModeKind::AbsX, cycles: 4, page_cross_cost: true }),
        0xFE => Some(InstrInfo { opcode: Opcode::Inc, mode: ModeKind::AbsX, cycles: 7, page_cross_cost: false }),
        0xFF => Some(InstrInfo { opcode: Opcode::Isc, mode: ModeKind::AbsX, cycles: 7, page_cross_cost: false }),
        _ => None,
    }
}

/// Looks an opcode byte up in the decode table.
pub fn decode(op: u8) -> (r: Option<InstrInfo>)
    ensures
        r == spec_decode(op),
{
    if op < 0x40 {
        decode_q0(op)
    } else if op < 0x80 {
        decode_q1(op)
    } else if op < 0xC0 {
        decode_q2(op)
    } else {
        decode_q3(op)
    }
}

/// A pure register move or count: the new register file and, when
/// `set_zn` holds, Z and N from `vzn`.
pub open spec fn rel_regs(
    c0: Cpu,
    c1: Cpu,
    b0: Bus,
    b1: Bus,
    na: u8,
    nx: u8,
    ny: u8,
    nsp: u8,
    vzn: u8,
    set_zn: bool,
) -> bool {
    &&& c1.accumulator == na && c1.x == nx && c1.y == ny && c1.sp == nsp
    &&& c1.pc == c0.pc
    &&& c1.cycles_left == c0.cycles_left && c1.cycles_completed == c0.cycles_completed
    &&& c1.carry == c0.carry && c1.interrupt == c0.interrupt && c1.decimal == c0.decimal
        && c1.overflow == c0.overflow
    &&& if set_zn {
        zn(c1, vzn)
    } else {
        c1.zero == c0.zero && c1.sign == c0.sign
    }
    &&& bus_eq(b0, b1)
}

/// A flag set or clear: the four writable flags take the given values.
pub open spec fn rel_set_flags(
    c0: Cpu,
    c1: Cpu,
    b0: Bus,
    b1: Bus,
    carry: bool,
    interrupt: bool,
    decimal: bool,
    overflow: bool,
) -> bool {
    &&& c1.carry == carry && c1.interrupt == interrupt && c1.decimal == decimal && c1.overflow
        == overflow
    &&& c1.zero == c0.zero && c1.sign == c0.sign
    &&& only_flags_changed(c0, c1)
    &&& bus_eq(b0, b1)
}

/// PHA: the accumulator lands on the stack.
pub open spec fn rel_pha(c0: Cpu, c1: Cpu, b0: Bus, b1: Bus) -> bool {
    &&& c1.sp == ((c0.sp - 1) % 256) as u8
    &&& c1.pc == c0.pc
    &&& axy_eq(c0, c1)
    &&& flags_eq(c0, c1)
    &&& c1.cycles_left == c0.cycles_left && c1.cycles_completed == c0.cycles_completed
    &&& bus_ram_now(b0, b1, b0.ram@.update(stack_slot(c0.sp), c0.accumulator))
}

/// PHP: the status byte lands on the stack with the break bit and bit
/// 5 set.
pub open spec fn rel_php(c0: Cpu, c1: Cpu, b0: Bus, b1: Bus) -> bool {
    &&& c1.sp == ((c0.sp - 1) % 256) as u8
    &&& c1.pc == c0.pc
    &&& axy_eq(c0, c1)
    &&& flags_eq(c0, c1)
    &&& c1.cycles_left == c0.cycles_left && c1.cycles_completed == c0.cycles_completed
    &&& bus_ram_now(b0, b1, b0.ram@.update(stack_slot(c0.sp), status_byte(c0, true)))
}

/// PLA: the accumulator comes off the stack, setting Z and N.
pub open spec fn rel_pla(c0: Cpu, c1: Cpu, b0: Bus, b1: Bus) -> bool {
    &&& c1.sp == ((c0.sp + 1) % 256) as u8
    &&& c1.pc == c0.pc
    &&& c1.accumulator == b0.ram@[stack_slot(c1.sp)]
    &&& c1.x == c0.x && c1.y == c0.y
    &&& zn(c1, c1.accumulator)
    &&& c1.carry == c0.carry && c1.interrupt == c0.interrupt && c1.decimal == c0.decimal
        && c1.overflow == c0.overflow
    &&& c1.cycles_left == c0.cycles_left && c1.cycles_completed == c0.cycles_completed
    &&& bus_eq(b0, b1)
}

/// PLP: the six behavioural flags come off the stack; the break bit
/// and bit 5 are ignored.
pub open spec fn rel_plp(c0: Cpu, c1: Cpu, b0: Bus, b1: Bus) -> bool {
    let v = b0.ram@[stack_slot(((c0.sp + 1) % 256) as u8)];
    &&& c1.sp == ((c0.sp + 1) % 256) as u8
    &&& c1.pc == c0.pc
    &&& axy_eq(c0, c1)
    &&& c1.sign == (v & 0x80u8 != 0u8)
    &&& c1.overflow == (v & 0x40u8 != 0u8)
    &&& c1.decimal == (v & 0x08u8 != 0u8)
    &&& c1.interrupt == (v & 0x04u8 != 0u8)
    &&& c1.zero == (v & 0x02u8 != 0u8)
    &&& c1.carry == (v & 0x01u8 != 0u8)
    &&& c1.cycles_left == c0.cycles_left && c1.cycles_completed == c0.cycles_completed
    &&& bus_eq(b0, b1)
}

/// JSR: the address of the last operand byte is pushed, and the
/// program counter loads the target.
pub open spec fn rel_jsr(c0: Cpu, c1: Cpu, b0: Bus, b1: Bus, t: u16) -> bool {
    &&& c1.pc == t
    &&& c1.sp == ((c0.sp - 2) % 256) as u8
    &&& axy_eq(c0, c1)
    &&& flags_eq(c0, c1)
    &&& c1.cycles_left == c0.cycles_left && c1.cycles_completed == c0.cycles_completed
    &&& bus_ram_now(
        b0,
        b1,
        b0.ram@.update(stack_slot(c0.sp), ((c0.pc.wrapping_sub(1) >> 8u16) & 0xFFu16) as u8)
            .update(stack_slot(((c0.sp - 1) % 256) as u8), (c0.pc.wrapping_sub(1) & 0xFFu16) as u8),
    )
}

/// RTS: the program counter is pulled and incremented.
pub open spec fn rel_rts(c0: Cpu, c1: Cpu, b0: Bus, b1: Bus) -> bool {
    &&& c1.sp == ((c0.sp + 2) % 256) as u8
    &&& c1.pc == ((((b0.ram@[stack_slot(((c0.sp + 2) % 256) as u8)] as u16) << 8u16) | (
    b0.ram@[stack_slot(((c0.sp + 1) % 256) as u8)] as u16)) + 1) % 0x10000
    &&& axy_eq(c0, c1)
    &&& flags_eq(c0, c1)
    &&& c1.cycles_left == c0.cycles_left && c1.cycles_completed == c0.cycles_completed
    &&& bus_eq(b0, b1)
}

/// RTI: flags are pulled (break bit ignored), then the program counter,
/// without the increment.
pub open spec fn rel_rti(c0: Cpu, c1: Cpu, b0: Bus, b1: Bus) -> bool {
    let v = b0.ram@[stack_slot(((c0.sp + 1) % 256) as u8)];
    &&& c1.sp == ((c0.sp + 3) % 256) as u8
    &&& c1.sign == (v & 0x80u8 != 0u8)
    &&& c1.overflow == (v & 0x40u8 != 0u8)
    &&& c1.decimal == (v & 0x08u8 != 0u8)
    &&& c1.interrupt == (v & 0x04u8 != 0u8)
    &&& c1.zero == (v & 0x02u8 != 0u8)
    &&& c1.carry == (v & 0x01u8 != 0u8)
    &&& c1.pc == (((b0.ram@[stack_slot(((c0.sp + 3) % 256) as u8)] as u16) << 8u16) | (
    b0.ram@[stack_slot(((c0.sp + 2) % 256) as u8)] as u16))
    &&& axy_eq(c0, c1)
    &&& c1.cycles_left == c0.cycles_left && c1.cycles_completed == c0.cycles_completed
    &&& bus_eq(b0, b1)
}

/// BRK: the byte past the padding byte returns; the status is pushed
/// with the break bit set; dispatch through the IRQ vector.
pub open spec fn rel_brk(c0: Cpu, c1: Cpu, b0: Bus, b1: Bus) -> bool {
    &&& c1.pc == peek_word(b0, 0xFFFEu16)
    &&& c1.sp == ((c0.sp - 3) % 256) as u8
    &&& c1.interrupt == true
    &&& c1.carry == c0.carry && c1.zero == c0.zero && c1.decimal == c0.decimal && c1.overflow
        == c0.overflow && c1.sign == c0.sign
    &&& axy_eq(c0, c1)
    &&& c1.cycles_left == 7
    &&& c1.cycles_completed == c0.cycles_completed
    &&& bus_ram_now(
        b0,
        b1,
        b0.ram@.update(stack_slot(c0.sp), ((c0.pc.wrapping_add(1) >> 8u16) & 0xFFu16) as u8)
            .update(stack_slot(((c0.sp - 1) % 256) as u8), (c0.pc.wrapping_add(1) & 0xFFu16) as u8)
            .update(stack_slot(((c0.sp - 2) % 256) as u8), status_byte(c0, true)),
    )
}

/// What each instruction kind does, before the page-cross penalty.
pub open spec fn op_rel(
    c0: Cpu,
    c1: Cpu,
    b0: Bus,
    b1: Bus,
    i: Instruction,
    r: Result<(), CpuError>,
) -> bool {
    match i.opcode {
        Opcode::Add => rel_add(c0, c1, b0, b1, i.mode, r),
        Opcode::And => rel_logic(c0, c1, b0, b1, i.mode, c0.accumulator & operand_val(c0, b0, i.mode), r),
        Opcode::Asl => rel_shift(c0, c1, b0, b1, i.mode, operand_val(c0, b0, i.mode) << 1u8, operand_val(c0, b0, i.mode) & 0x80u8 != 0u8, r),
        Opcode::Bcc => (i.mode matches AddressingMode::Relative(off) ==> rel_branch(c0, c1, b0, b1, !c0.carry, off)) && r is Ok,
        Opcode::Bcs => (i.mode matches AddressingMode::Relative(off) ==> rel_branch(c0, c1, b0, b1, c0.carry, off)) && r is Ok,
        Opcode::Beq => (i.mode matches AddressingMode::Relative(off) ==> rel_branch(c0, c1, b0, b1, c0.zero, off)) && r is Ok,
        Opcode::Bit => rel_bit(c0, c1, b0, b1, i.mode, r),
        Opcode::Bmi => (i.mode matches AddressingMode::Relative(off) ==> rel_branch(c0, c1, b0, b1, c0.sign, off)) && r is Ok,
        Opcode::Bne => (i.mode matches AddressingMode::Relative(off) ==> rel_branch(c0, c1, b0, b1, !c0.zero, off)) && r is Ok,
        Opcode::Bpl => (i.mode matches AddressingMode::Relative(off) ==> rel_branch(c0, c1, b0, b1, !c0.sign, off)) && r is Ok,
        Opcode::Brk => rel_brk(c0, c1, b0, b1) && r is Ok,
        Opcode::Bvc => (i.mode matches AddressingMode::Relative(off) ==> rel_branch(c0, c1, b0, b1, !c0.overflow, off)) && r is Ok,
        Opcode::Bvs => (i.mode matches AddressingMode::Relative(off) ==> rel_branch(c0, c1, b0, b1, c0.overflow, off)) && r is Ok,
        Opcode::Clc => rel_set_flags(c0, c1, b0, b1, false, c0.interrupt, c0.decimal, c0.overflow) && r is Ok,
        Opcode::Cld => rel_set_flags(c0, c1, b0, b1, c0.carry, c0.interrupt, false, c0.overflow) && r is Ok,
        Opcode::Cli => rel_set_flags(c0, c1, b0, b1, c0.carry, false, c0.decimal, c0.overflow) && r is Ok,
        Opcode::Clv => rel_set_flags(c0, c1, b0, b1, c0.carry, c0.interrupt, c0.decimal, false) && r is Ok,
        Opcode::Cmp => rel_compare(c0, c1, b0, b1, i.mode, c0.accumulator, r),
        Opcode::Cpx => rel_compare(c0, c1, b0, b1, i.mode, c0.x, r),
        Opcode::Cpy => rel_compare(c0, c1, b0, b1, i.mode, c0.y, r),
        Opcode::Dcp => rel_dcp(c0, c1, b0, b1, i.mode, r),
        Opcode::Dec => rel_incdec(c0, c1, b0, b1, i.mode, operand_val(c0, b0, i.mode).wrapping_sub(1), r),
        Opcode::Dex => rel_regs(c0, c1, b0, b1, c0.accumulator, c0.x.wrapping_sub(1), c0.y, c0.sp, c0.x.wrapping_sub(1), true) && r is Ok,
        Opcode::Dey => rel_regs(c0, c1, b0, b1, c0.accumulator, c0.x, c0.y.wrapping_sub(1), c0.sp, c0.y.wrapping_sub(1), true) && r is Ok,
        Opcode::Eor => rel_logic(c0, c1, b0, b1, i.mode, c0.accumulator ^ operand_val(c0, b0, i.mode), r),
        Opcode::Inc => rel_incdec(c0, c1, b0, b1, i.mode, operand_val(c0, b0, i.mode).wrapping_add(1), r),
        Opcode::Inx => rel_regs(c0, c1, b0, b1, c0.accumulator, c0.x.wrapping_add(1), c0.y, c0.sp, c0.x.wrapping_add(1), true) && r is Ok,
        Opcode::Iny => rel_regs(c0, c1, b0, b1, c0.accumulator, c0.x, c0.y.wrapping_add(1), c0.sp, c0.y.wrapping_add(1), true) && r is Ok,
        Opcode::Isc => rel_isc(c0, c1, b0, b1, i.mode, r),
        Opcode::Jmp => rel_jmp(c0, c1, b0, b1, i.mode, r),
        Opcode::Jsr => (i.mode matches AddressingMode::Absolute(t) ==> rel_jsr(c0, c1, b0, b1, t)) && r is Ok,
        Opcode::Lax => rel_lax(c0, c1, b0, b1, i.mode, r),
        Opcode::Lda => rel_lda(c0, c1, b0, b1, i.mode, r),
        Opcode::Ldx => rel_ldx(c0, c1, b0, b1, i.mode, r),
        Opcode::Ldy => rel_ldy(c0, c1, b0, b1, i.mode, r),
        Opcode::Lsr => rel_shift(c0, c1, b0, b1, i.mode, operand_val(c0, b0, i.mode) >> 1u8, operand_val(c0, b0, i.mode) & 0x01u8 != 0u8, r),
        Opcode::Nop => rel_regs(c0, c1, b0, b1, c0.accumulator, c0.x, c0.y, c0.sp, 0u8, false) && r is Ok,
        Opcode::Ora => rel_logic(c0, c1, b0, b1, i.mode, c0.accumulator | operand_val(c0, b0, i.mode), r),
        Opcode::Pha => rel_pha(c0, c1, b0, b1) && r is Ok,
        Opcode::Php => rel_php(c0, c1, b0, b1) && r is Ok,
        Opcode::Pla => rel_pla(c0, c1, b0, b1) && r is Ok,
        Opcode::Plp => rel_plp(c0, c1, b0, b1) && r is Ok,
        Opcode::Rla => rel_rla(c0, c1, b0, b1, i.mode, r),
        Opcode::Rol => rel_shift(c0, c1, b0, b1, i.mode, (operand_val(c0, b0, i.mode) << 1u8) | (if c0.carry { 1u8 } else { 0u8 }), operand_val(c0, b0, i.mode) & 0x80u8 != 0u8, r),
        Opcode::Ror => rel_shift(c0, c1, b0, b1, i.mode, (operand_val(c0, b0, i.mode) >> 1u8) | (if c0.carry { 0x80u8 } else { 0u8 }), operand_val(c0, b0, i.mode) & 0x01u8 != 0u8, r),
        Opcode::Rra => rel_rra(c0, c1, b0, b1, i.mode, r),
        Opcode::Rti => rel_rti(c0, c1, b0, b1) && r is Ok,
        Opcode::Rts => rel_rts(c0, c1, b0, b1) && r is Ok,
        Opcode::Sax => rel_store(c0, c1, b0, b1, i.mode, c0.accumulator & c0.x, r),
        Opcode::Sbc => rel_sbc(c0, c1, b0, b1, i.mode, r),
        Opcode::Sec => rel_set_flags(c0, c1, b0, b1, true, c0.interrupt, c0.decimal, c0.overflow) && r is Ok,
        Opcode::Sed => rel_set_flags(c0, c1, b0, b1, c0.carry, c0.interrupt, true, c0.overflow) && r is Ok,
        Opcode::Sei => rel_set_flags(c0, c1, b0, b1, c0.carry, true, c0.decimal, c0.overflow) && r is Ok,
        Opcode::Slo => rel_slo(c0, c1, b0, b1, i.mode, r),
        Opcode::Sre => rel_sre(c0, c1, b0, b1, i.mode, r),
        Opcode::Sta => rel_store(c0, c1, b0, b1, i.mode, c0.accumulator, r),
        Opcode::Stx => rel_store(c0, c1, b0, b1, i.mode, c0.x, r),
        Opcode::Sty => rel_store(c0, c1, b0, b1, i.mode, c0.y, r),
        Opcode::Tax => rel_regs(c0, c1, b0, b1, c0.accumulator, c0.accumulator, c0.y, c0.sp, c0.accumulator, true) && r is Ok,
        Opcode::Tay => rel_regs(c0, c1, b0, b1, c0.accumulator, c0.x, c0.accumulator, c0.sp, c0.accumulator, true) && r is Ok,
        Opcode::Tsx => rel_regs(c0, c1, b0, b1, c0.accumulator, c0.sp, c0.y, c0.sp, c0.sp, true) && r is Ok,
        Opcode::Txa => rel_regs(c0, c1, b0, b1, c0.x, c0.x, c0.y, c0.sp, c0.x, true) && r is Ok,
        Opcode::Txs => rel_regs(c0, c1, b0, b1, c0.accumulator, c0.x, c0.y, c0.x, 0u8, false) && r is Ok,
        Opcode::Tya => rel_regs(c0, c1, b0, b1, c0.y, c0.x, c0.y, c0.sp, c0.y, true) && r is Ok,
    }
}

/// Whether a decoded instruction satisfies the executor's mode
/// expectations.
pub open spec fn instr_wf(i: Instruction) -> bool {
    &&& match i.opcode {
        Opcode::Add | Opcode::And | Opcode::Eor | Opcode::Ora | Opcode::Sbc | Opcode::Cmp
        | Opcode::Cpx | Opcode::Cpy | Opcode::Bit | Opcode::Lda | Opcode::Ldx | Opcode::Ldy
        | Opcode::Lax => mode_reads(i.mode),
        Opcode::Sta | Opcode::Stx | Opcode::Sty | Opcode::Sax | Opcode::Dcp | Opcode::Isc
        | Opcode::Rla | Opcode::Rra | Opcode::Slo | Opcode::Sre => mode_has_addr(i.mode),
        Opcode::Asl | Opcode::Lsr | Opcode::Rol | Opcode::Ror | Opcode::Inc | Opcode::Dec => (
        mode_has_addr(i.mode) || i.mode is Accumulator),
        Opcode::Bcc | Opcode::Bcs | Opcode::Beq | Opcode::Bmi | Opcode::Bne | Opcode::Bpl
        | Opcode::Bvc | Opcode::Bvs => i.mode is Relative,
        Opcode::Jmp => i.mode is Absolute || i.mode is Indirect,
        Opcode::Jsr => i.mode is Absolute,
        _ => true,
    }
    &&& (i.cycles >= 1 || i.opcode is Brk)
}

/// The decode-table counterpart of `instr_wf`, over mode shapes.
pub open spec fn decode_info_ok(info: InstrInfo) -> bool {
    &&& match info.opcode {
        Opcode::Add | Opcode::And | Opcode::Eor | Opcode::Ora | Opcode::Sbc | Opcode::Cmp
        | Opcode::Cpx | Opcode::Cpy | Opcode::Bit | Opcode::Lda | Opcode::Ldx | Opcode::Ldy
        | Opcode::Lax => !(info.mode is Imp || info.mode is Rel || info.mode is Ind
            || info.mode is Acc),
        Opcode::Sta | Opcode::Stx | Opcode::Sty | Opcode::Sax | Opcode::Dcp | Opcode::Isc
        | Opcode::Rla | Opcode::Rra | Opcode::Slo | Opcode::Sre => !(info.mode is Imp
            || info.mode is Rel || info.mode is Ind || info.mode is Acc || info.mode is Imm),
        Opcode::Asl | Opcode::Lsr | Opcode::Rol | Opcode::Ror | Opcode::Inc | Opcode::Dec => !(
        info.mode is Imp || info.mode is Rel || info.mode is Ind || info.mode is Imm),
        Opcode::Bcc | Opcode::Bcs | Opcode::Beq | Opcode::Bmi | Opcode::Bne | Opcode::Bpl
        | Opcode::Bvc | Opcode::Bvs => info.mode is Rel,
        Opcode::Jmp => info.mode is Abs || info.mode is Ind,
        Opcode::Jsr => info.mode is Abs,
        _ => true,
    }
    &&& (info.cycles >= 1 || info.opcode is Brk)
}

/// Table rows 0x00..0x3F are well-shaped.
proof fn lemma_decode_ok_q0(op: u8)
    requires
        op < 0x40,
    ensures
        spec_decode(op) matches Some(info) ==> decode_info_ok(info),
{
}

/// Table rows 0x40..0x7F are well-shaped.
proof fn lemma_decode_ok_q1(op: u8)
    requires
        0x40 <= op < 0x80,
    ensures
        spec_decode(op) matches Some(info) ==> decode_info_ok(info),
{
}

/// Table rows 0x80..0xBF are well-shaped.
proof fn lemma_decode_ok_q2(op: u8)
    requires
        0x80 <= op < 0xC0,
    ensures
        spec_decode(op) matches Some(info) ==> decode_info_ok(info),
{
}

/// Table rows 0xC0..0xFF are well-shaped.
proof fn lemma_decode_ok_q3(op: u8)
    requires
        op >= 0xC0,
    ensures
        spec_decode(op) matches Some(info) ==> decode_info_ok(info),
{
}

/// Every table row is well-shaped.
pub proof fn lemma_decode_ok(op: u8)
    ensures
        spec_decode(op) matches Some(info) ==> decode_info_ok(info),
{
    if op < 0x40 {
        lemma_decode_ok_q0(op);
    } else if op < 0x80 {
        lemma_decode_ok_q1(op);
    } else if op < 0xC0 {
        lemma_decode_ok_q2(op);
    } else {
        lemma_decode_ok_q3(op);
    }
}

/// The operand bytes after `pc` attached to a mode shape.
pub open spec fn build_mode(k: ModeKind, b: Bus, pc: u16) -> AddressingMode {
    let op1 = bus_peek(b, pc.wrapping_add(1));
    let op2 = bus_peek(b, pc.wrapping_add(2));
    let w = ((op2 as u16) << 8u16) | (op1 as u16);
    match k {
        ModeKind::Imp => AddressingMode::Implicit,
        ModeKind::Acc => AddressingMode::Accumulator,
        ModeKind::Imm => AddressingMode::Immediate(op1),
        ModeKind::Zp => AddressingMode::ZeroPage(op1),
        ModeKind::ZpX => AddressingMode::ZeroPageX(op1),
        ModeKind::ZpY => AddressingMode::ZeroPageY(op1),
        ModeKind::Rel => AddressingMode::Relative(op1 as i8),
        ModeKind::IndX => AddressingMode::IndirectX(op1),
        ModeKind::IndY => AddressingMode::IndirectY(op1),
        ModeKind::Abs => AddressingMode::Absolute(w),
        ModeKind::AbsX => AddressingMode::AbsoluteX(w),
        ModeKind::AbsY => AddressingMode::AbsoluteY(w),
        ModeKind::Ind => AddressingMode::Indirect(w),
    }
}

/// The instruction a fetch at `pc` decodes, given its table row.
pub open spec fn fetched_instr(b: Bus, pc: u16, info: InstrInfo) -> Instruction {
    Instruction {
        opcode: info.opcode,
        mode: build_mode(info.mode, b, pc),
        cycles: info.cycles,
        page_cross_cost: info.page_cross_cost,
    }
}

/// The whole fetch window lies in RAM or ROM, where reads are free of
/// side effects.
pub open spec fn fetch_plain(b: Bus, pc: u16) -> bool {
    &&& plain_addr(pc)
    &&& plain_addr(pc.wrapping_add(1))
    &&& plain_addr(pc.wrapping_add(2))
}

impl Cpu {
    /// Fetches and decodes the instruction at the program counter and
    /// advances past it. An opcode outside the table reports itself
    /// with the program counter; the registers other than the program
    /// counter never change.
    #[verifier::rlimit(100)]
    pub fn fetch_next_instruction(&mut self, bus: &mut Bus) -> (r: Result<Instruction, CpuError>)
        requires
            old(self).wf(),
            old(bus).wf(),
        ensures
            final(self).wf(),
            final(bus).wf(),
            r matches Ok(i) ==> instr_wf(i),
            final(self).sp == old(self).sp,
            axy_eq(*old(self), *final(self)),
            flags_eq(*old(self), *final(self)),
            final(self).cycles_left == old(self).cycles_left,
            final(self).cycles_completed == old(self).cycles_completed,
            !bus_readable(old(self).pc) ==> r == Err::<Instruction, CpuError>(
                CpuError::Bus(BusError::ReadFault(old(self).pc)),
            ) && final(self).pc == old(self).pc && bus_eq(*old(bus), *final(bus)),
            fetch_plain(*old(bus), old(self).pc) ==> {
                let byte = bus_peek(*old(bus), old(self).pc);
                match spec_decode(byte) {
                    Option::None => r == Err::<Instruction, CpuError>(
                        CpuError::UnknownOpcode(old(self).pc, byte),
                    ) && final(self).pc == old(self).pc && bus_eq(*old(bus), *final(bus)),
                    Option::Some(info) => r == Ok::<Instruction, CpuError>(
                        fetched_instr(*old(bus), old(self).pc, info),
                    ) && final(self).pc == old(self).pc.wrapping_add(kind_len(info.mode)) && bus_eq(
                        *old(bus),
                        *final(bus),
                    ),
                }
            },
    {
        let pc = self.pc;
        let opcode_byte = match bus.get_byte_at(pc) {
            Ok(v) => v,
            Err(e) => {
                return Err(CpuError::Bus(e));
            },
        };
        let info = match decode(opcode_byte) {
            Some(i) => i,
            None => {
                return Err(CpuError::UnknownOpcode(pc, opcode_byte));
            },
        };
        proof {
            lemma_decode_ok(opcode_byte);
        }
        let mode: AddressingMode = match info.mode {
            ModeKind::Imp => AddressingMode::Implicit,
            ModeKind::Acc => AddressingMode::Accumulator,
            ModeKind::Imm | ModeKind::Zp | ModeKind::ZpX | ModeKind::ZpY | ModeKind::Rel
            | ModeKind::IndX | ModeKind::IndY => {
                let b1 = match bus.get_byte_at(pc.wrapping_add(1)) {
                    Ok(v) => v,
                    Err(e) => {
                        return Err(CpuError::Bus(e));
                    },
                };
                match info.mode {
                    ModeKind::Imm => AddressingMode::Immediate(b1),
                    ModeKind::Zp => AddressingMode::ZeroPage(b1),
                    ModeKind::ZpX => AddressingMode::ZeroPageX(b1),
                    ModeKind::ZpY => AddressingMode::ZeroPageY(b1),
                    ModeKind::Rel => AddressingMode::Relative(b1 as i8),
                    ModeKind::IndX => AddressingMode::IndirectX(b1),
                    _ => AddressingMode::IndirectY(b1),
                }
            },
            _ => {
                let lo = match bus.get_byte_at(pc.wrapping_add(1)) {
                    Ok(v) => v,
                    Err(e) => {
                        return Err(CpuError::Bus(e));
                    },
                };
                let hi = match bus.get_byte_at(pc.wrapping_add(2)) {
                    Ok(v) => v,
                    Err(e) => {
                        return Err(CpuError::Bus(e));
                    },
                };
                let w = ((hi as u16) << 8) | (lo as u16);
                match info.mode {
                    ModeKind::Abs => AddressingMode::Absolute(w),
                    ModeKind::AbsX => AddressingMode::AbsoluteX(w),
                    ModeKind::AbsY => AddressingMode::AbsoluteY(w),
                    _ => AddressingMode::Indirect(w),
                }
            },
        };
        let len: u16 = match info.mode {
            ModeKind::Imp | ModeKind::Acc => 1,
            ModeKind::Imm | ModeKind::Zp | ModeKind::ZpX | ModeKind::ZpY | ModeKind::Rel
            | ModeKind::IndX | ModeKind::IndY => 2,
            _ => 3,
        };
        self.pc = pc.wrapping_add(len);
        Ok(
            Instruction {
                opcode: info.opcode,
                mode,
                cycles: info.cycles,
                page_cross_cost: info.page_cross_cost,
            },
        )
    }
}

/// The one-cycle penalty for a page-crossing read.
pub open spec fn penalty(c0: Cpu, b0: Bus, i: Instruction) -> int {
    if i.page_cross_cost && page_crossed(c0, b0, i.mode) {
        1
    } else {
        0
    }
}

/// `cm` is `c0` with `pen` more cycles on the budget.
pub open spec fn bump_cycles(c0: Cpu, cm: Cpu, pen: int) -> bool {
    &&& cm.pc == c0.pc
    &&& cm.sp == c0.sp
    &&& axy_eq(c0, cm)
    &&& flags_eq(c0, cm)
    &&& cm.cycles_left == c0.cycles_left + pen
    &&& cm.cycles_completed == c0.cycles_completed
}

/// What executing a decoded instruction does: the page-cross penalty
/// lands on the cycle budget, then the instruction's own transition.
pub open spec fn exec_rel(
    c0: Cpu,
    c1: Cpu,
    b0: Bus,
    b1: Bus,
    i: Instruction,
    r: Result<(), CpuError>,
) -> bool {
    exists|cm: Cpu|
        #[trigger] bump_cycles(c0, cm, penalty(c0, b0, i)) && op_rel(cm, c1, b0, b1, i, r)
}

impl Cpu {
    /// Loads and stores.
    fn exec_group_mem(&mut self, bus: &mut Bus, i: Instruction) -> (r: Result<(), CpuError>)
        requires
            old(self).wf(),
            old(bus).wf(),
            instr_wf(i),
            old(self).cycles_left <= 900,
            i.opcode is Lda || i.opcode is Ldx || i.opcode is Ldy || i.opcode is Lax
                || i.opcode is Sta || i.opcode is Stx || i.opcode is Sty || i.opcode is Sax,
        ensures
            final(self).wf(),
            final(bus).wf(),
            op_rel(*old(self), *final(self), *old(bus), *final(bus), i, r),
            r is Ok ==> final(self).cycles_left <= old(self).cycles_left + 7,
            r is Ok ==> final(self).cycles_left + i.cycles >= 1,
    {
        match i.opcode {
            Opcode::Lda => self.lda(bus, i.mode),
            Opcode::Ldx => self.ldx(bus, i.mode),
            Opcode::Ldy => self.ldy(bus, i.mode),
            Opcode::Lax => self.lax(bus, i.mode),
            Opcode::Sta => self.sta(bus, i.mode),
            Opcode::Stx => self.stx(bus, i.mode),
            Opcode::Sty => self.sty(bus, i.mode),
            _ => self.sax(bus, i.mode),
        }
    }

    /// Arithmetic, logic, comparisons and BIT.
    fn exec_group_alu(&mut self, bus: &mut Bus, i: Instruction) -> (r: Result<(), CpuError>)
        requires
            old(self).wf(),
            old(bus).wf(),
            instr_wf(i),
            old(self).cycles_left <= 900,
            i.opcode is Add || i.opcode is Sbc || i.opcode is And || i.opcode is Ora
                || i.opcode is Eor || i.opcode is Cmp || i.opcode is Cpx || i.opcode is Cpy
                || i.opcode is Bit,
        ensures
            final(self).wf(),
            final(bus).wf(),
            op_rel(*old(self), *final(self), *old(bus), *final(bus), i, r),
            r is Ok ==> final(self).cycles_left <= old(self).cycles_left + 7,
            r is Ok ==> final(self).cycles_left + i.cycles >= 1,
    {
        match i.opcode {
            Opcode::Add => self.adc(bus, i.mode),
            Opcode::Sbc => self.sbc(bus, i.mode),
            Opcode::And => self.and(bus, i.mode),
            Opcode::Ora => self.ora(bus, i.mode),
            Opcode::Eor => self.eor(bus, i.mode),
            Opcode::Cmp => self.cmp(bus, i.mode),
            Opcode::Cpx => self.cpx(bus, i.mode),
            Opcode::Cpy => self.cpy(bus, i.mode),
            _ => self.bit(bus, i.mode),
        }
    }

    /// Shifts, rotates, memory increments and the combined illegal
    /// instructions.
    fn exec_group_rmw(&mut self, bus: &mut Bus, i: Instruction) -> (r: Result<(), CpuError>)
        requires
            old(self).wf(),
            old(bus).wf(),
            instr_wf(i),
            old(self).cycles_left <= 900,
            i.opcode is Asl || i.opcode is Lsr || i.opcode is Rol || i.opcode is Ror
                || i.opcode is Inc || i.opcode is Dec || i.opcode is Dcp || i.opcode is Isc
                || i.opcode is Rla || i.opcode is Rra || i.opcode is Slo || i.opcode is Sre,
        ensures
            final(self).wf(),
            final(bus).wf(),
            op_rel(*old(self), *final(self), *old(bus), *final(bus), i, r),
            r is Ok ==> final(self).cycles_left <= old(self).cycles_left + 7,
            r is Ok ==> final(self).cycles_left + i.cycles >= 1,
    {
        match i.opcode {
            Opcode::Asl => self.asl(bus, i.mode),
            Opcode::Lsr => self.lsr(bus, i.mode),
            Opcode::Rol => self.rol(bus, i.mode),
            Opcode::Ror => self.ror(bus, i.mode),
            Opcode::Inc => self.inc(bus, i.mode),
            Opcode::Dec => self.dec(bus, i.mode),
            Opcode::Dcp => self.dcp(bus, i.mode),
            Opcode::Isc => self.isc(bus, i.mode),
            Opcode::Rla => self.rla(bus, i.mode),
            Opcode::Rra => self.rra(bus, i.mode),
            Opcode::Slo => self.slo(bus, i.mode),
            _ => self.sre(bus, i.mode),
        }
    }

    /// Branches, jumps, returns and BRK.
    fn exec_group_flow(&mut self, bus: &mut Bus, i: Instruction) -> (r: Result<(), CpuError>)
        requires
            old(self).wf(),
            old(bus).wf(),
            instr_wf(i),
            old(self).cycles_left <= 900,
            i.opcode is Bcc || i.opcode is Bcs || i.opcode is Beq || i.opcode is Bmi
                || i.opcode is Bne || i.opcode is Bpl || i.opcode is Bvc || i.opcode is Bvs
                || i.opcode is Jmp || i.opcode is Jsr || i.opcode is Rts || i.opcode is Rti
                || i.opcode is Brk,
        ensures
            final(self).wf(),
            final(bus).wf(),
            op_rel(*old(self), *final(self), *old(bus), *final(bus), i, r),
            r is Ok ==> final(self).cycles_left <= old(self).cycles_left + 7,
            r is Ok ==> final(self).cycles_left + i.cycles >= 1,
    {
        match i.opcode {
            Opcode::Bcc => {
                if let AddressingMode::Relative(off) = i.mode {
                    let c = !self.carry;
                    self.branch(c, off);
                }
                Ok(())
            },
            Opcode::Bcs => {
                if let AddressingMode::Relative(off) = i.mode {
                    let c = self.carry;
                    self.branch(c, off);
                }
                Ok(())
            },
            Opcode::Beq => {
                if let AddressingMode::Relative(off) = i.mode {
                    let c = self.zero;
                    self.branch(c, off);
                }
                Ok(())
            },
            Opcode::Bmi => {
                if let AddressingMode::Relative(off) = i.mode {
                    let c = self.sign;
                    self.branch(c, off);
                }
                Ok(())
            },
            Opcode::Bne => {
                if let AddressingMode::Relative(off) = i.mode {
                    let c = !self.zero;
                    self.branch(c, off);
                }
                Ok(())
            },
            Opcode::Bpl => {
                if let AddressingMode::Relative(off) = i.mode {
                    let c = !self.sign;
                    self.branch(c, off);
                }
                Ok(())
            },
            Opcode::Bvc => {
                if let AddressingMode::Relative(off) = i.mode {
                    let c = !self.overflow;
                    self.branch(c, off);
                }
                Ok(())
            },
            Opcode::Bvs => {
                if let AddressingMode::Relative(off) = i.mode {
                    let c = self.overflow;
                    self.branch(c, off);
                }
                Ok(())
            },
            Opcode::Jmp => self.jmp(bus, i.mode),
            Opcode::Jsr => {
                if let AddressingMode::Absolute(t) = i.mode {
                    self.jsr(bus, t);
                }
                Ok(())
            },
            Opcode::Rts => {
                self.rts(bus);
                Ok(())
            },
            Opcode::Rti => {
                self.rti(bus);
                Ok(())
            },
            _ => {
                self.brk(bus);
                Ok(())
            },
        }
    }

    /// Stack pushes and pulls, flag writes, register transfers and
    /// counts, and NOP.
    #[verifier::rlimit(100)]
    fn exec_group_misc(&mut self, bus: &mut Bus, i: Instruction) -> (r: Result<(), CpuError>)
        requires
            old(self).wf(),
            old(bus).wf(),
            instr_wf(i),
            old(self).cycles_left <= 900,
            i.opcode is Pha || i.opcode is Php || i.opcode is Pla || i.opcode is Plp
                || i.opcode is Nop || i.opcode is Clc || i.opcode is Cld || i.opcode is Cli
                || i.opcode is Clv || i.opcode is Sec || i.opcode is Sed || i.opcode is Sei
                || i.opcode is Tax || i.opcode is Tay || i.opcode is Tsx || i.opcode is Txa
                || i.opcode is Txs || i.opcode is Tya || i.opcode is Inx || i.opcode is Iny
                || i.opcode is Dex || i.opcode is Dey,
        ensures
            final(self).wf(),
            final(bus).wf(),
            op_rel(*old(self), *final(self), *old(bus), *final(bus), i, r),
            r is Ok ==> final(self).cycles_left <= old(self).cycles_left + 7,
            r is Ok ==> final(self).cycles_left + i.cycles >= 1,
    {
        match i.opcode {
            Opcode::Pha => self.pha(bus),
            Opcode::Php => self.php(bus),
            Opcode::Pla => self.pla(bus),
            Opcode::Plp => self.plp(bus),
            Opcode::Nop => {},
            Opcode::Clc => self.clc(),
            Opcode::Cld => self.cld(),
            Opcode::Cli => self.cli(),
            Opcode::Clv => self.clv(),
            Opcode::Sec => self.sec(),
            Opcode::Sed => self.sed(),
            Opcode::Sei => self.sei(),
            Opcode::Tax => self.tax(),
            Opcode::Tay => self.tay(),
            Opcode::Tsx => self.tsx(),
            Opcode::Txa => self.txa(),
            Opcode::Txs => self.txs(),
            Opcode::Tya => self.tya(),
            Opcode::Inx => self.inx(),
            Opcode::Iny => self.iny(),
            Opcode::Dex => self.dex(),
            _ => self.dey(),
        }
        Ok(())
    }

    /// Executes a decoded instruction: charges the page-cross penalty
    /// where the instruction advertises one, then performs the
    /// instruction's transition.
    pub fn execute_instruction(&mut self, bus: &mut Bus, instruction: Instruction) -> (r: Result<
        (),
        CpuError,
    >)
        requires
            old(self).wf(),
            old(bus).wf(),
            instr_wf(instruction),
            old(self).cycles_left <= 800,
        ensures
            final(self).wf(),
            final(bus).wf(),
            exec_rel(*old(self), *final(self), *old(bus), *final(bus), instruction, r),
            r is Ok ==> final(self).cycles_left <= old(self).cycles_left + 8,
            r is Ok ==> final(self).cycles_left + instruction.cycles >= 1,
    {
        if instruction.page_cross_cost {
            match instruction.mode {
                AddressingMode::AbsoluteX(_) | AddressingMode::AbsoluteY(_)
                | AddressingMode::IndirectY(_) => {
                    let (_, crossed) = self.effective_addr(bus, instruction.mode);
                    if crossed {
                        self.cycles_left = self.cycles_left + 1;
                    }
                },
                _ => {},
            }
        }
        let ghost cm = *self;
        proof {
            assert(bump_cycles(*old(self), cm, penalty(*old(self), *old(bus), instruction)));
        }
        let r = match instruction.opcode {
            Opcode::Lda | Opcode::Ldx | Opcode::Ldy | Opcode::Lax | Opcode::Sta | Opcode::Stx
            | Opcode::Sty | Opcode::Sax => self.exec_group_mem(bus, instruction),
            Opcode::Add | Opcode::Sbc | Opcode::And | Opcode::Ora | Opcode::Eor | Opcode::Cmp
            | Opcode::Cpx | Opcode::Cpy | Opcode::Bit => self.exec_group_alu(bus, instruction),
            Opcode::Asl | Opcode::Lsr | Opcode::Rol | Opcode::Ror | Opcode::Inc | Opcode::Dec
            | Opcode::Dcp | Opcode::Isc | Opcode::Rla | Opcode::Rra | Opcode::Slo
            | Opcode::Sre => self.exec_group_rmw(bus, instruction),
            Opcode::Bcc | Opcode::Bcs | Opcode::Beq | Opcode::Bmi | Opcode::Bne | Opcode::Bpl
            | Opcode::Bvc | Opcode::Bvs | Opcode::Jmp | Opcode::Jsr | Opcode::Rts | Opcode::Rti
            | Opcode::Brk => self.exec_group_flow(bus, instruction),
            _ => self.exec_group_misc(bus, instruction),
        };
        proof {
            assert(bump_cycles(*old(self), cm, penalty(*old(self), *old(bus), instruction))
                && op_rel(cm, *self, *old(bus), *bus, instruction, r));
        }
        r
    }
}

/// `cm` is `c0` advanced past a fetched instruction of length `len`.
pub open spec fn fetch_adv(c0: Cpu, cm: Cpu, len: u16) -> bool {
    &&& cm.pc == c0.pc.wrapping_add(len)
    &&& cm.sp == c0.sp
    &&& axy_eq(c0, cm)
    &&& flags_eq(c0, cm)
    &&& cm.cycles_left == c0.cycles_left
    &&& cm.cycles_completed == c0.cycles_completed
}

/// `c1` is `ce` after the step's bookkeeping: the base cycles joined
/// the budget, this cycle was spent, and the completed counter ticked.
pub open spec fn step_tail(ce: Cpu, c1: Cpu, base: u8) -> bool {
    &&& c1.pc == ce.pc
    &&& c1.sp == ce.sp
    &&& axy_eq(ce, c1)
    &&& flags_eq(ce, c1)
    &&& c1.cycles_left == ce.cycles_left + base - 1
    &&& c1.cycles_completed == ce.cycles_completed.wrapping_add(1)
}

impl Cpu {
    /// Services a pending NMI: clears the line, dispatches through the
    /// NMI vector, and spends this cycle.
    #[verifier::rlimit(100)]
    fn service_nmi(&mut self, bus: &mut Bus)
        requires
            old(self).wf(),
            old(bus).wf(),
            old(bus).ppu.nmi_waiting,
        ensures
            final(self).wf(),
            final(bus).wf(),
            final(self).pc == peek_word(*old(bus), 0xFFFAu16),
            final(self).sp == ((old(self).sp - 3) % 256) as u8,
            final(self).interrupt == true,
            final(self).carry == old(self).carry,
            final(self).zero == old(self).zero,
            final(self).decimal == old(self).decimal,
            final(self).overflow == old(self).overflow,
            final(self).sign == old(self).sign,
            axy_eq(*old(self), *final(self)),
            final(self).cycles_left == 6,
            final(self).cycles_completed == old(self).cycles_completed.wrapping_add(1),
            final(bus).ram@ == old(bus).ram@.update(
                stack_slot(old(self).sp),
                ((old(self).pc >> 8u16) & 0xFFu16) as u8,
            ).update(
                stack_slot(((old(self).sp - 1) % 256) as u8),
                (old(self).pc & 0xFFu16) as u8,
            ).update(
                stack_slot(((old(self).sp - 2) % 256) as u8),
                status_byte(*old(self), false),
            ),
            crate::bus::rom_eq(final(bus).rom, old(bus).rom),
            crate::bus::controller_eq(final(bus).controller, old(bus).controller),
            final(bus).dma_pending == old(bus).dma_pending,
            final(bus).keys == old(bus).keys,
            final(bus).ppu.nmi_waiting == false,
            crate::ppu::regs_eq(final(bus).ppu, old(bus).ppu),
            crate::ppu::pipe_eq(final(bus).ppu, old(bus).ppu),
            crate::ppu::mem_eq(final(bus).ppu, old(bus).ppu),
            final(bus).ppu.scanline == old(bus).ppu.scanline,
            final(bus).ppu.cycle == old(bus).ppu.cycle,
            final(bus).ppu.even_frame == old(bus).ppu.even_frame,
    {
        bus.ppu.nmi_waiting = false;
        self.interrupt(bus, Interrupt::Nmi);
        self.cycles_left = self.cycles_left - 1;
        self.cycles_completed = self.cycles_completed.wrapping_add(1);
    }

    /// Fetches and executes the instruction at the program counter,
    /// charging its base cycles and spending this cycle.
    #[verifier::rlimit(100)]
    fn step_instruction(&mut self, bus: &mut Bus) -> (r: Result<(), CpuError>)
        requires
            old(self).wf(),
            old(bus).wf(),
            old(self).cycles_left == 0,
        ensures
            final(self).wf(),
            final(bus).wf(),
            !bus_readable(old(self).pc) ==> r == Err::<(), CpuError>(
                CpuError::Bus(BusError::ReadFault(old(self).pc)),
            ) && *final(self) == *old(self) && bus_eq(*old(bus), *final(bus)),
            fetch_plain(*old(bus), old(self).pc) ==> {
                let byte = bus_peek(*old(bus), old(self).pc);
                match spec_decode(byte) {
                    Option::None => r == Err::<(), CpuError>(
                        CpuError::UnknownOpcode(old(self).pc, byte),
                    ) && *final(self) == *old(self) && bus_eq(*old(bus), *final(bus)),
                    Option::Some(info) => exists|cm: Cpu, bm: Bus, ce: Cpu|
                        {
                            &&& fetch_adv(*old(self), cm, kind_len(info.mode))
                            &&& bus_eq(*old(bus), bm)
                            &&& #[trigger] exec_rel(
                                cm,
                                ce,
                                bm,
                                *final(bus),
                                fetched_instr(*old(bus), old(self).pc, info),
                                r,
                            )
                            &&& (r is Ok ==> step_tail(ce, *final(self), info.cycles))
                            &&& (r is Err ==> *final(self) == ce)
                        },
                }
            },
    {
        let instruction = match self.fetch_next_instruction(bus) {
            Ok(i) => i,
            Err(e) => {
                return Err(e);
            },
        };
        let ghost cm = *self;
        let ghost bm = *bus;
        let r2 = self.finish_instruction(bus, instruction);
        proof {
            if fetch_plain(*old(bus), old(self).pc) {
                let byte = bus_peek(*old(bus), old(self).pc);
                if spec_decode(byte) is Some {
                    let info = spec_decode(byte)->Some_0;
                    let ce = choose|ce: Cpu|
                        #[trigger] exec_rel(cm, ce, bm, *bus, instruction, r2) && (r2 is Ok
                            ==> step_tail(ce, *self, instruction.cycles)) && (r2 is Err ==> *self
                            == ce);
                    assert(fetch_adv(*old(self), cm, kind_len(info.mode)));
                    assert(exec_rel(
                        cm,
                        ce,
                        bm,
                        *bus,
                        fetched_instr(*old(bus), old(self).pc, info),
                        r2,
                    ) && (r2 is Ok ==> step_tail(ce, *self, info.cycles)) && (r2 is Err ==> *self
                        == ce));
                }
            }
        }
        r2
    }

    /// Executes a fetched instruction and does the step's cycle
    /// bookkeeping.
    fn finish_instruction(&mut self, bus: &mut Bus, instruction: Instruction) -> (r: Result<
        (),
        CpuError,
    >)
        requires
            old(self).wf(),
            old(bus).wf(),
            old(self).cycles_left == 0,
            instr_wf(instruction),
        ensures
            final(self).wf(),
            final(bus).wf(),
            exists|ce: Cpu|
                #[trigger] exec_rel(*old(self), ce, *old(bus), *final(bus), instruction, r) && (
                r is Ok ==> step_tail(ce, *final(self), instruction.cycles)) && (r is Err
                    ==> *final(self) == ce),
    {
        let r2 = self.execute_instruction(bus, instruction);
        match r2 {
            Ok(_) => {},
            Err(e) => {
                proof {
                    assert(exec_rel(*old(self), *self, *old(bus), *bus, instruction, r2));
                }
                return Err(e);
            },
        }
        let ghost ce = *self;
        self.cycles_left = self.cycles_left + (instruction.cycles as u16);
        self.cycles_left = self.cycles_left - 1;
        self.cycles_completed = self.cycles_completed.wrapping_add(1);
        proof {
            assert(exec_rel(*old(self), ce, *old(bus), *bus, instruction, r2));
            assert(step_tail(ce, *self, instruction.cycles));
        }
        r2
    }

}

/// Everything one CPU cycle does, as a relation between the states
/// before and after and the step's result.
pub open spec fn step_rel(c0: Cpu, c1: Cpu, b0: Bus, b1: Bus, r: Result<(), CpuError>) -> bool {
    &&& (c0.cycles_left > 0 ==> r is Ok && c1.cycles_left == c0.cycles_left - 1
        && c1.cycles_completed == c0.cycles_completed.wrapping_add(1) && c1.pc == c0.pc && c1.sp
        == c0.sp && axy_eq(c0, c1) && flags_eq(c0, c1) && bus_eq(b0, b1))
    &&& (c0.cycles_left == 0 && b0.ppu.nmi_waiting ==> r is Ok && c1.pc == peek_word(
        b0,
        0xFFFAu16,
    ) && c1.sp == ((c0.sp - 3) % 256) as u8 && c1.interrupt == true && c1.carry == c0.carry
        && c1.zero == c0.zero && c1.decimal == c0.decimal && c1.overflow == c0.overflow && c1.sign
        == c0.sign && axy_eq(c0, c1) && c1.cycles_left == 6 && c1.cycles_completed
        == c0.cycles_completed.wrapping_add(1) && b1.ram@ == b0.ram@.update(
        stack_slot(c0.sp),
        ((c0.pc >> 8u16) & 0xFFu16) as u8,
    ).update(stack_slot(((c0.sp - 1) % 256) as u8), (c0.pc & 0xFFu16) as u8).update(
        stack_slot(((c0.sp - 2) % 256) as u8),
        status_byte(c0, false),
    ) && crate::bus::rom_eq(b1.rom, b0.rom) && crate::bus::controller_eq(b1.controller,
        b0.controller) && b1.dma_pending == b0.dma_pending && b1.keys == b0.keys
        && b1.ppu.nmi_waiting == false && crate::ppu::regs_eq(b1.ppu, b0.ppu)
        && crate::ppu::pipe_eq(b1.ppu, b0.ppu) && crate::ppu::mem_eq(b1.ppu, b0.ppu)
        && b1.ppu.scanline == b0.ppu.scanline && b1.ppu.cycle == b0.ppu.cycle
        && b1.ppu.even_frame == b0.ppu.even_frame)
    &&& (c0.cycles_left == 0 && !b0.ppu.nmi_waiting && b0.dma_pending ==> r is Ok
        && c1.cycles_left == 512 && c1.cycles_completed == c0.cycles_completed.wrapping_add(1)
        && c1.pc == c0.pc && c1.sp == c0.sp && axy_eq(c0, c1) && flags_eq(c0, c1)
        && b1.dma_pending == false && b1.ram@ == b0.ram@ && crate::bus::rom_eq(b1.rom, b0.rom)
        && crate::bus::controller_eq(b1.controller, b0.controller) && b1.keys == b0.keys
        && crate::ppu::ppu_eq(b1.ppu, b0.ppu))
    &&& (c0.cycles_left == 0 && !b0.ppu.nmi_waiting && !b0.dma_pending && !bus_readable(c0.pc)
        ==> r == Err::<(), CpuError>(CpuError::Bus(BusError::ReadFault(c0.pc))) && c1 == c0
        && bus_eq(b0, b1))
    &&& (c0.cycles_left == 0 && !b0.ppu.nmi_waiting && !b0.dma_pending && fetch_plain(b0, c0.pc)
        ==> {
        let byte = bus_peek(b0, c0.pc);
        match spec_decode(byte) {
            Option::None => r == Err::<(), CpuError>(CpuError::UnknownOpcode(c0.pc, byte)) && c1
                == c0 && bus_eq(b0, b1),
            Option::Some(info) => exists|cm: Cpu, bm: Bus, ce: Cpu|
                {
                    &&& fetch_adv(c0, cm, kind_len(info.mode))
                    &&& bus_eq(b0, bm)
                    &&& #[trigger] exec_rel(cm, ce, bm, b1, fetched_instr(b0, c0.pc, info), r)
                    &&& (r is Ok ==> step_tail(ce, c1, info.cycles))
                    &&& (r is Err ==> c1 == ce)
                },
        }
    })
}

impl Cpu {
    /// One master-CPU cycle. A busy CPU just counts down; an idle CPU
    /// services a pending NMI, accounts a pending sprite-DMA stall, or
    /// fetches and executes the next instruction, charging its base
    /// cycles and the applicable adders.
    #[verifier::rlimit(100)]
    pub fn step(&mut self, bus: &mut Bus) -> (r: Result<(), CpuError>)
        requires
            old(self).wf(),
            old(bus).wf(),
        ensures
            final(self).wf(),
            final(bus).wf(),
            step_rel(*old(self), *final(self), *old(bus), *final(bus), r),
    {
        if self.cycles_left > 0 {
            self.cycles_left = self.cycles_left - 1;
            self.cycles_completed = self.cycles_completed.wrapping_add(1);
            return Ok(());
        }
        if bus.ppu.nmi_waiting {
            self.service_nmi(bus);
            return Ok(());
        }
        if bus.dma_pending {
            bus.dma_pending = false;
            self.cycles_left = 512;
            self.cycles_completed = self.cycles_completed.wrapping_add(1);
            return Ok(());
        }
        self.step_instruction(bus)
    }
}

/// Splitting a word into bytes and rejoining them is the identity.
proof fn lemma_u16_split(w: u16)
    ensures
        ((((((w >> 8u16) & 0xFFu16) as u8) as u16) << 8u16) | (((w & 0xFFu16) as u8) as u16)) == w,
{
    assert(((((((w >> 8u16) & 0xFFu16) as u8) as u16) << 8u16) | (((w & 0xFFu16) as u8) as u16))
        == w) by (bit_vector);
}

/// After a JSR/RTS pair with no intervening stack writes, the stack
/// pointer returns to its original value and the program counter to
/// the instruction after the JSR.
pub proof fn lemma_jsr_rts(c0: Cpu, c1: Cpu, c2: Cpu, b0: Bus, b1: Bus, b2: Bus, t: u16)
    requires
        b0.wf(),
        rel_jsr(c0, c1, b0, b1, t),
        rel_rts(c1, c2, b1, b2),
    ensures
        c2.sp == c0.sp,
        c2.pc == c0.pc,
        axy_eq(c0, c2),
        flags_eq(c0, c2),
{
    let ret = c0.pc.wrapping_sub(1);
    lemma_u16_split(ret);
    assert(stack_slot(c0.sp) != stack_slot(((c0.sp - 1) % 256) as u8));
    assert(b1.ram@[stack_slot(c0.sp)] == ((ret >> 8u16) & 0xFFu16) as u8);
    assert(b1.ram@[stack_slot(((c0.sp - 1) % 256) as u8)] == (ret & 0xFFu16) as u8);
    assert(((c1.sp + 2) % 256) as u8 == c0.sp);
    assert(((c1.sp + 1) % 256) as u8 == ((c0.sp - 1) % 256) as u8);
}

/// After a PHP/PLP round trip with no flag mutation between, all six
/// behavioural flags are unchanged; the byte PHP put on the stack has
/// the break bit and bit 5 set, and PLP ignored them.
pub proof fn lemma_php_plp_roundtrip(c0: Cpu, c1: Cpu, c2: Cpu, b0: Bus, b1: Bus, b2: Bus)
    requires
        b0.wf(),
        rel_php(c0, c1, b0, b1),
        rel_plp(c1, c2, b1, b2),
    ensures
        flags_eq(c0, c2),
        c2.sp == c0.sp,
        axy_eq(c0, c2),
        b1.ram@[stack_slot(c0.sp)] == status_byte(c0, true),
        status_byte(c0, true) & 0x10u8 != 0u8,
        status_byte(c0, true) & 0x20u8 != 0u8,
{
    lemma_status_bits(c0, true);
    assert(((c1.sp + 1) % 256) as u8 == c0.sp);
}

/// The JMP indirect page-boundary quirk: with a pointer whose low byte
/// is 0xFF, the high byte of the target comes from the start of the
/// same page, not the next one.
pub proof fn lemma_jmp_page_boundary_bug(
    c0: Cpu,
    c1: Cpu,
    b0: Bus,
    b1: Bus,
    t: u16,
    r: Result<(), CpuError>,
)
    requires
        rel_jmp(c0, c1, b0, b1, AddressingMode::Indirect(t), r),
        t & 0xFFu16 == 0xFFu16,
        plain_addr(t),
        r is Ok,
    ensures
        c1.pc == (((bus_peek(b0, t & 0xFF00u16) as u16) << 8u16) | (bus_peek(b0, t) as u16)),
{
    assert(t < 0x2000 ==> t & 0xFF00u16 < 0x2000 && (t >= 0x8000 ==> t & 0xFF00u16 >= 0x8000))
        by (bit_vector);
    assert(t >= 0x8000 ==> t & 0xFF00u16 >= 0x8000) by (bit_vector);
}

/// Which branch instructions take their branch in a given flag state.
pub open spec fn branch_taken(c: Cpu, op: Opcode) -> bool {
    match op {
        Opcode::Bcc => !c.carry,
        Opcode::Bcs => c.carry,
        Opcode::Beq => c.zero,
        Opcode::Bmi => c.sign,
        Opcode::Bne => !c.zero,
        Opcode::Bpl => !c.sign,
        Opcode::Bvc => !c.overflow,
        Opcode::Bvs => c.overflow,
        _ => false,
    }
}

/// The branch opcodes.
pub open spec fn is_branch_op(op: Opcode) -> bool {
    match op {
        Opcode::Bcc | Opcode::Bcs | Opcode::Beq | Opcode::Bmi | Opcode::Bne | Opcode::Bpl
        | Opcode::Bvc | Opcode::Bvs => true,
        _ => false,
    }
}

/// Cycle cost of a straight-line instruction: executing from an idle
/// state leaves exactly the base cycles less the one just spent, plus
/// the page-cross adder where the instruction advertises one.
#[verifier::rlimit(100)]
pub proof fn lemma_cycle_cost(
    c0: Cpu,
    ce: Cpu,
    c1: Cpu,
    b0: Bus,
    b1: Bus,
    i: Instruction,
    r: Result<(), CpuError>,
)
    requires
        c0.cycles_left == 0,
        exec_rel(c0, ce, b0, b1, i, r),
        step_tail(ce, c1, i.cycles),
        r is Ok,
        instr_wf(i),
        !is_branch_op(i.opcode),
        !(i.opcode is Brk),
    ensures
        c1.cycles_left == i.cycles - 1 + penalty(c0, b0, i),
{
}

/// Cycle cost of a branch: the base cycles, plus one when taken, plus
/// one more when the taken branch crosses a page.
#[verifier::rlimit(100)]
pub proof fn lemma_cycle_cost_branch(
    c0: Cpu,
    ce: Cpu,
    c1: Cpu,
    b0: Bus,
    b1: Bus,
    i: Instruction,
    off: i8,
    r: Result<(), CpuError>,
)
    requires
        c0.cycles_left == 0,
        exec_rel(c0, ce, b0, b1, i, r),
        step_tail(ce, c1, i.cycles),
        r is Ok,
        instr_wf(i),
        is_branch_op(i.opcode),
        i.mode == AddressingMode::Relative(off),
    ensures
        c1.cycles_left == i.cycles - 1 + (if branch_taken(c0, i.opcode) {
            1 + (if branch_target(c0.pc, off) / 0x100 != c0.pc / 0x100 {
                1int
            } else {
                0int
            })
        } else {
            0int
        }),
{
}

} // verus!
