use vstd::prelude::*;

verus! {

/// Every failure the emulation core can report.
#[derive(Debug, Clone, Copy, PartialEq, Eq, Structural)]
pub enum NesError {
    /// The cartridge does not start with "NES\x1A".
    InvalidMagic,
    /// The low two bits of header byte 7 are not zero.
    UnsupportedFormat,
    /// The header announces iNES 2.0.
    Unsupported2_0,
    /// The image is shorter than its header says.
    TruncatedCartridge,
    /// The byte at PC is not a documented 6502 opcode.
    UnknownOpcode(u8),
    /// A write-only PPU register (or OAMDMA) was read.
    ReadFromWriteOnly(u16),
    /// The read-only PPU status register was written.
    WriteToReadOnly(u16),
    /// PRG-ROM was written.
    WriteToROM(u16),
}

} // verus!
