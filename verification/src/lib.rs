//! Core of a Game Boy (DMG) emulator: a cycle-driven machine built from a
//! Sharp LR35902 CPU, a memory-mapped bus, a pixel-processing unit, a timer
//! and an interrupt controller. The host feeds it a cartridge ROM image and
//! an optional 256-byte boot ROM, drives it by T-cycle budgets, and reads a
//! 160x144 two-bit framebuffer back.

pub mod bootrom;
pub mod cartridge;
pub mod cpu;
pub mod gameboy;
pub mod gpu;
pub mod interconnect;
pub mod interrupt;
pub mod timer;
