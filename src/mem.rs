//! A flat 64 KiB byte-addressed memory, for running programs without a
//! cartridge or memory map.
use vstd::prelude::*;

verus! {

pub const MEMORY_CAP: usize = 0x10000;

pub struct Memory {
    pub raw_mem: Vec<u8>,
}

impl Memory {
    pub open spec fn wf(&self) -> bool {
        self.raw_mem@.len() == MEMORY_CAP
    }

    pub fn new() -> (r: Self)
        ensures
            r.wf(),
            r.raw_mem@ == crate::ppu::zeros(MEMORY_CAP as int),
    {
        Memory { raw_mem: crate::ppu::zeroed(MEMORY_CAP) }
    }

    pub fn read(&self, addr: u16) -> (r: u8)
        requires
            self.wf(),
        ensures
            r == self.raw_mem@[addr as int],
    {
        self.raw_mem[addr as usize]
    }

    /// Little-endian; the high byte comes from `addr + 1`, wrapping at
    /// `$FFFF`.
    pub fn read_u16(&self, addr: u16) -> (r: u16)
        requires
            self.wf(),
        ensures
            r == crate::bus::word(
                self.raw_mem@[addr as int],
                self.raw_mem@[addr.wrapping_add(1) as int],
            ),
    {
        let lo = self.read(addr) as u16;
        let hi = self.read(addr.wrapping_add(1)) as u16;
        (hi << 8u16) | lo
    }

    pub fn write(&mut self, addr: u16, data: u8)
        requires
            old(self).wf(),
        ensures
            final(self).wf(),
            final(self).raw_mem@ == old(self).raw_mem@.update(addr as int, data),
    {
        self.raw_mem.set(addr as usize, data);
    }

    /// Little-endian: low byte at `addr`, high byte at `addr + 1`.
    pub fn write_u16(&mut self, addr: u16, data: u16)
        requires
            old(self).wf(),
        ensures
            final(self).wf(),
            final(self).raw_mem@ == old(self).raw_mem@.update(addr as int, (data & 0xFF) as u8).update(
                addr.wrapping_add(1) as int,
                (data >> 8u16) as u8,
            ),
    {
        self.write(addr, (data & 0xFF) as u8);
        self.write(addr.wrapping_add(1), (data >> 8u16) as u8);
    }

    /// Replaces the whole contents.
    pub fn load(&mut self, bytes: Vec<u8>)
        requires
            bytes@.len() == MEMORY_CAP,
        ensures
            final(self).wf(),
            final(self).raw_mem@ == bytes@,
    {
        self.raw_mem = bytes;
    }
}

} // verus!
