//! Cycle-timed emulator core for the classic 8-bit home console: a
//! 6502-derived CPU, a picture-processing unit (PPU), and the memory bus
//! that couples them, together with the cartridge image, the controller
//! shift register, and the master-clock scheduler.
//!
//! Every state transition of the core is specified by contracts and
//! verified. Host concerns (loading the image from disk, presenting
//! frames, polling the keyboard) live outside this crate and talk to it
//! through plain values: the rendered frame is a vector of palette
//! indices, and the keyboard is a snapshot of eight button states.

pub mod bus;
pub mod console;
pub mod controller;
pub mod cpu;
pub mod ppu;
pub mod rom;
