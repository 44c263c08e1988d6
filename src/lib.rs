//! Core of a cycle-stepped NES emulator: a 6502 CPU interpreter, the PPU scanline
//! engine, and the two address-space decoders that connect them to work RAM and
//! cartridge ROM.
pub mod wram;
pub mod error;
pub mod screen;
pub mod ppu;
pub mod cpu_bus;
pub mod cpu;
pub mod nes;
