//! The master-clock scheduler: one console ties a CPU, a bus and the
//! master tick counter together. The CPU steps once every 12 master
//! ticks and the PPU once every 4; on ticks where both run, the CPU
//! runs first.

use vstd::prelude::*;

use crate::bus::{bus_env_eq, bus_eq, Bus};
use crate::controller::{Controller, Keys};
use crate::cpu::{step_rel, Cpu, CpuError, Interrupt};
use crate::ppu::{ppu_step_rel, Ppu};
use crate::rom::Rom;

verus! {

/// A whole console: processor, bus (with cartridge, PPU and
/// controller inside) and the master tick counter.
pub struct Console {
    pub cpu: Cpu,
    pub bus: Bus,
    pub master_ticks: u64,
}

impl Console {
    pub open spec fn wf(self) -> bool {
        &&& self.cpu.wf()
        &&& self.bus.wf()
    }

    /// Builds a console around a parsed cartridge. Only the trivial
    /// one- or two-bank program-ROM layout is supported; anything else
    /// is refused.
    pub fn new(rom: Rom) -> (r: Option<Console>)
        ensures
            r is Some <==> (rom.prg_rom@.len() == 0x4000 || rom.prg_rom@.len() == 0x8000)
                && rom.chr_rom@.len() <= 0x4000,
            r matches Some(c) ==> c.wf() && c.master_ticks == 0u64 && c.cpu.cycles_left == 0u16,
    {
        let prg_len = rom.prg_rom.len();
        let chr_len = rom.chr_rom.len();
        if !(prg_len == 0x4000 || prg_len == 0x8000) || chr_len > 0x4000 {
            return None;
        }
        let ppu = Ppu::new();
        let controller = Controller::new();
        let bus = Bus::new(rom, ppu, controller);
        Some(Console { cpu: Cpu::new(), bus, master_ticks: 0 })
    }

    /// Dispatches the reset interrupt, as power-on does.
    pub fn reset(&mut self)
        requires
            old(self).wf(),
        ensures
            final(self).wf(),
            final(self).cpu.pc == crate::cpu::peek_word(old(self).bus, 0xFFFCu16),
            final(self).cpu.cycles_left == 7,
            final(self).master_ticks == old(self).master_ticks,
    {
        self.cpu.interrupt(&mut self.bus, Interrupt::Reset);
    }

    /// Hands the controller port the latest host key snapshot.
    pub fn set_keys(&mut self, keys: Keys)
        requires
            old(self).wf(),
        ensures
            final(self).wf(),
            final(self).bus.keys == keys,
            final(self).cpu == old(self).cpu,
            final(self).master_ticks == old(self).master_ticks,
            final(self).bus.ram@ == old(self).bus.ram@,
            crate::bus::rom_eq(final(self).bus.rom, old(self).bus.rom),
            crate::ppu::ppu_eq(final(self).bus.ppu, old(self).bus.ppu),
            crate::bus::controller_eq(final(self).bus.controller, old(self).bus.controller),
            final(self).bus.dma_pending == old(self).bus.dma_pending,
    {
        self.bus.set_keys(keys);
    }

    /// One master tick: the CPU steps on every 12th tick, the PPU on
    /// every 4th (after the CPU), and the counter advances. Reports
    /// whether this tick completed a frame.
    pub fn tick(&mut self) -> (r: Result<bool, CpuError>)
        requires
            old(self).wf(),
        ensures
            final(self).wf(),
            final(self).master_ticks == old(self).master_ticks.wrapping_add(1),
            old(self).master_ticks % 12 != 0 && old(self).master_ticks % 4 != 0 ==> r == Ok::<
                bool,
                CpuError,
            >(false) && final(self).cpu == old(self).cpu && bus_eq(old(self).bus, final(self).bus),
            old(self).master_ticks % 12 != 0 && old(self).master_ticks % 4 == 0 ==> final(self).cpu
                == old(self).cpu && bus_env_eq(old(self).bus, final(self).bus) && (r matches Ok(f)
                && ppu_step_rel(old(self).bus.ppu, final(self).bus.ppu, f)),
            old(self).master_ticks % 12 == 0 ==> exists|cm: Cpu, bm: Bus, r2: Result<(), CpuError>|
                {
                    &&& #[trigger] step_rel(old(self).cpu, cm, old(self).bus, bm, r2)
                    &&& final(self).cpu == cm
                    &&& match r2 {
                        Result::Ok(_) => {
                            &&& bus_env_eq(bm, final(self).bus)
                            &&& (r matches Ok(f) && ppu_step_rel(bm.ppu, final(self).bus.ppu, f))
                        },
                        Result::Err(e) => r == Err::<bool, CpuError>(e) && bus_eq(
                            bm,
                            final(self).bus,
                        ),
                    }
                },
    {
        let mut frame = false;
        if self.master_ticks % 12 == 0 {
            let ghost c0 = self.cpu;
            let ghost b0 = self.bus;
            let step_result = self.cpu.step(&mut self.bus);
            let ghost cm = self.cpu;
            let ghost bm = self.bus;
            match step_result {
                Ok(_) => {},
                Err(e) => {
                    self.master_ticks = self.master_ticks.wrapping_add(1);
                    proof {
                        assert(step_rel(c0, cm, b0, bm, step_result));
                    }
                    return Err(e);
                },
            }
            frame = self.bus.ppu.step();
            self.master_ticks = self.master_ticks.wrapping_add(1);
            proof {
                assert(step_rel(c0, cm, b0, bm, step_result));
            }
            return Ok(frame);
        }
        if self.master_ticks % 4 == 0 {
            frame = self.bus.ppu.step();
        }
        self.master_ticks = self.master_ticks.wrapping_add(1);
        Ok(frame)
    }
}

} // verus!
