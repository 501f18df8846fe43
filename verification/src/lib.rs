//! Core of an 8-bit game-console emulator: a 6502-family CPU interpreter and a
//! tile/sprite picture processing unit (PPU), joined by a bus that records the
//! memory-mapped register traffic between them.
//!
//! The run loop, cartridge loading and the drawing surface live outside this
//! crate: the CPU and PPU each expose a single-step operation over the bus, and
//! the PPU reports what should be drawn as a plain value.

pub mod bus;
pub mod cpu;
pub mod ppu;
