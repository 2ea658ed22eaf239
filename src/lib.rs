//! Core of a NES (NTSC, NROM) emulator: iNES cartridge parsing, the CPU bus,
//! the PPU register model and a 6502 interpreter, with their behaviour stated
//! as contracts over spec-level state models.
pub mod error;
pub mod cartridge;
pub mod registers;
pub mod ppu;
pub mod bus;
pub mod cpu;
pub mod instructions;
pub mod opcode;
pub mod mem;
pub mod screen;
pub mod trace;
