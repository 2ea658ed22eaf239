//! The CPU's 16-bit address decoder.
use vstd::prelude::*;
use crate::cartridge::Cartridge;
use crate::error::NesError;
use crate::ppu::{power_on, zeroed, zeros, PPU, PpuView};
use crate::registers::{OAMADDR, OAMDATA, PPUCTRL, PPUMASK};

verus! {

pub const RAM_SIZE: usize = 0x800;
pub const RAM_END: u16 = 0x1FFF;
pub const PPU_REG_END: u16 = 0x3FFF;
pub const PRG_BEGIN: u16 = 0x8000;

pub struct Bus {
    /// The console's 2 KiB of work RAM.
    pub vram: Vec<u8>,
    pub prg_rom: Vec<u8>,
    pub ppu: PPU,
}

pub struct BusView {
    pub ram: Seq<u8>,
    pub prg_rom: Seq<u8>,
    pub ppu: PpuView,
}

impl View for Bus {
    type V = BusView;

    open spec fn view(&self) -> BusView {
        BusView { ram: self.vram@, prg_rom: self.prg_rom@, ppu: self.ppu@ }
    }
}

/// PRG-ROM byte seen at `addr` (at least `$8000`); a 16 KiB ROM appears
/// twice, and addresses past the ROM read 0.
pub open spec fn prg_byte(prg: Seq<u8>, addr: u16) -> u8 {
    let off = addr - 0x8000;
    let i = if prg.len() == 0x4000 { off % 0x4000 } else { off };
    if 0 <= i < prg.len() {
        prg[i]
    } else {
        0
    }
}

impl BusView {
    pub open spec fn wf(self) -> bool {
        self.ram.len() == RAM_SIZE && self.ppu.wf()
    }

    pub open spec fn with_ppu(self, ppu: PpuView) -> BusView {
        BusView { ppu, ..self }
    }

    /// A read of PPU register `reg` (`$2000-$2007`).
    pub open spec fn read_ppu_register(self, reg: u16) -> (BusView, Result<u8, NesError>) {
        if reg == 0x2002 {
            (self.with_ppu(self.ppu.read_status().0), Ok(self.ppu.read_status().1))
        } else if reg == 0x2004 {
            (self, Ok(self.ppu.oam_data.oam_data))
        } else if reg == 0x2007 {
            (self.with_ppu(self.ppu.read_data().0), Ok(self.ppu.read_data().1))
        } else {
            (self, Err(NesError::ReadFromWriteOnly(reg)))
        }
    }

    /// A CPU read of `addr`: the state after it and the byte or the error.
    pub open spec fn read(self, addr: u16) -> (BusView, Result<u8, NesError>) {
        if addr <= 0x1FFF {
            (self, Ok(self.ram[(addr & 0x7FF) as int]))
        } else if addr <= 0x3FFF {
            self.read_ppu_register(addr & 0x2007)
        } else if addr == 0x4014 {
            (self, Err(NesError::ReadFromWriteOnly(addr)))
        } else if addr >= 0x8000 {
            (self, Ok(prg_byte(self.prg_rom, addr)))
        } else {
            (self, Ok(0))
        }
    }

    /// A write of PPU register `reg` (`$2000-$2007`).
    pub open spec fn write_ppu_register(self, reg: u16, data: u8) -> (BusView, Result<(), NesError>) {
        let p = self.ppu;
        if reg == 0x2000 {
            (self.with_ppu(PpuView { ctrl: PPUCTRL { bits: data }, ..p }), Ok(()))
        } else if reg == 0x2001 {
            (self.with_ppu(PpuView { mask: PPUMASK { bits: data }, ..p }), Ok(()))
        } else if reg == 0x2002 {
            (self, Err(NesError::WriteToReadOnly(reg)))
        } else if reg == 0x2003 {
            (self.with_ppu(PpuView { oam_addr: OAMADDR { oam_address: data }, ..p }), Ok(()))
        } else if reg == 0x2004 {
            (self.with_ppu(PpuView { oam_data: OAMDATA { oam_data: data }, ..p }), Ok(()))
        } else if reg == 0x2005 {
            (self.with_ppu(p.write_scroll(data)), Ok(()))
        } else if reg == 0x2006 {
            (self.with_ppu(p.write_addr(data)), Ok(()))
        } else {
            (self.with_ppu(p.write_data(data)), Ok(()))
        }
    }

    /// A CPU write of `data` to `addr`; on error nothing changes.
    pub open spec fn write(self, addr: u16, data: u8) -> (BusView, Result<(), NesError>) {
        if addr <= 0x1FFF {
            (BusView { ram: self.ram.update((addr & 0x7FF) as int, data), ..self }, Ok(()))
        } else if addr <= 0x3FFF {
            self.write_ppu_register(addr & 0x2007, data)
        } else if addr >= 0x8000 {
            (self, Err(NesError::WriteToROM(addr)))
        } else {
            (self, Ok(()))
        }
    }

    /// Little-endian 16-bit read; the high byte comes from `addr + 1`,
    /// wrapping at `$FFFF`.
    pub open spec fn read16(self, addr: u16) -> (BusView, Result<u16, NesError>) {
        let (s1, lo) = self.read(addr);
        match lo {
            Err(e) => (s1, Err(e)),
            Ok(lo) => {
                let (s2, hi) = s1.read(addr.wrapping_add(1));
                match hi {
                    Err(e) => (s2, Err(e)),
                    Ok(hi) => (s2, Ok(word(lo, hi))),
                }
            },
        }
    }

    /// Little-endian 16-bit write.
    pub open spec fn write16(self, addr: u16, data: u16) -> (BusView, Result<(), NesError>) {
        let (s1, r) = self.write(addr, (data & 0xFF) as u8);
        match r {
            Err(e) => (s1, Err(e)),
            Ok(()) => s1.write(addr.wrapping_add(1), (data >> 8u16) as u8),
        }
    }
}

pub open spec fn word(lo: u8, hi: u8) -> u16 {
    (hi as u16) << 8u16 | lo as u16
}

impl Bus {
    pub open spec fn wf(&self) -> bool {
        self@.wf()
    }

    /// A bus over the cartridge's PRG-ROM and a PPU over its CHR data; RAM
    /// starts zeroed.
    pub fn new(cartridge: Cartridge) -> (r: Self)
        ensures
            r.wf(),
            r@ == (BusView {
                ram: zeros(RAM_SIZE as int),
                prg_rom: cartridge.prg@,
                ppu: power_on(cartridge.chr@, cartridge.mirroring_type),
            }),
    {
        Bus {
            vram: zeroed(RAM_SIZE),
            prg_rom: cartridge.prg,
            ppu: PPU::new(cartridge.chr, cartridge.mirroring_type),
        }
    }

    /// PRG-ROM byte at `addr`.
    pub fn read_prg_rom(&self, addr: u16) -> (r: u8)
        requires
            addr >= PRG_BEGIN,
        ensures
            r == prg_byte(self.prg_rom@, addr),
    {
        let mut off = addr - PRG_BEGIN;
        if self.prg_rom.len() == 0x4000 && off >= 0x4000 {
            off = off % 0x4000;
        }
        if (off as usize) < self.prg_rom.len() {
            self.prg_rom[off as usize]
        } else {
            0
        }
    }

    fn read_ppu_register(&mut self, reg: u16) -> (r: Result<u8, NesError>)
        requires
            old(self).wf(),
        ensures
            final(self).wf(),
            (final(self)@, r) == old(self)@.read_ppu_register(reg),
    {
        if reg == 0x2002 {
            Ok(self.ppu.read_status())
        } else if reg == 0x2004 {
            Ok(self.ppu.oam_data_register.read_oam_data())
        } else if reg == 0x2007 {
            Ok(self.ppu.read())
        } else {
            Err(NesError::ReadFromWriteOnly(reg))
        }
    }

    /// A CPU read; PPU registers at `$2008-$3FFF` mirror `$2000-$2007`.
    pub fn mem_read(&mut self, addr: u16) -> (r: Result<u8, NesError>)
        requires
            old(self).wf(),
        ensures
            final(self).wf(),
            (final(self)@, r) == old(self)@.read(addr),
    {
        if addr <= RAM_END {
            let i = addr & 0x7FF;
            assert(i < 0x800) by (bit_vector)
                requires
                    i == addr & 0x7FF,
            ;
            Ok(self.vram[i as usize])
        } else if addr <= PPU_REG_END {
            self.read_ppu_register(addr & 0x2007)
        } else if addr == 0x4014 {
            Err(NesError::ReadFromWriteOnly(addr))
        } else if addr >= PRG_BEGIN {
            Ok(self.read_prg_rom(addr))
        } else {
            Ok(0)
        }
    }

    fn write_ppu_register(&mut self, reg: u16, data: u8) -> (r: Result<(), NesError>)
        requires
            old(self).wf(),
        ensures
            final(self).wf(),
            (final(self)@, r) == old(self)@.write_ppu_register(reg, data),
    {
        if reg == 0x2000 {
            self.ppu.ctrl_register.update_bits(data);
            Ok(())
        } else if reg == 0x2001 {
            self.ppu.mask_register.update_bits(data);
            Ok(())
        } else if reg == 0x2002 {
            Err(NesError::WriteToReadOnly(reg))
        } else if reg == 0x2003 {
            self.ppu.oam_address_register.write_oam_address(data);
            Ok(())
        } else if reg == 0x2004 {
            self.ppu.oam_data_register.write_oam_data(data);
            Ok(())
        } else if reg == 0x2005 {
            self.ppu.write_to_scroll(data);
            Ok(())
        } else if reg == 0x2006 {
            self.ppu.write_to_addr(data);
            Ok(())
        } else {
            self.ppu.write(data);
            Ok(())
        }
    }

    /// A CPU write; on error nothing changes.
    pub fn mem_write(&mut self, addr: u16, data: u8) -> (r: Result<(), NesError>)
        requires
            old(self).wf(),
        ensures
            final(self).wf(),
            (final(self)@, r) == old(self)@.write(addr, data),
    {
        if addr <= RAM_END {
            let i = addr & 0x7FF;
            assert(i < 0x800) by (bit_vector)
                requires
                    i == addr & 0x7FF,
            ;
            self.vram.set(i as usize, data);
            Ok(())
        } else if addr <= PPU_REG_END {
            self.write_ppu_register(addr & 0x2007, data)
        } else if addr >= PRG_BEGIN {
            Err(NesError::WriteToROM(addr))
        } else {
            Ok(())
        }
    }

    pub fn mem_read_u16(&mut self, addr: u16) -> (r: Result<u16, NesError>)
        requires
            old(self).wf(),
        ensures
            final(self).wf(),
            (final(self)@, r) == old(self)@.read16(addr),
    {
        let lo = self.mem_read(addr)?;
        let hi = self.mem_read(addr.wrapping_add(1))?;
        Ok((hi as u16) << 8u16 | lo as u16)
    }

    pub fn mem_write_u16(&mut self, addr: u16, data: u16) -> (r: Result<(), NesError>)
        requires
            old(self).wf(),
        ensures
            final(self).wf(),
            (final(self)@, r) == old(self)@.write16(addr, data),
    {
        self.mem_write(addr, (data & 0xFF) as u8)?;
        self.mem_write(addr.wrapping_add(1), (data >> 8u16) as u8)
    }
}

/// Work RAM repeats every 2 KiB over `$0000-$1FFF`: reading or writing `a`
/// is reading or writing `a & $07FF`.
pub proof fn lemma_ram_mirroring(bus: BusView, a: u16, data: u8)
    requires
        a <= 0x1FFF,
    ensures
        bus.read(a) == bus.read(a & 0x7FF),
        bus.write(a, data) == bus.write(a & 0x7FF, data),
{
    assert((a & 0x7FF) & 0x7FF == a & 0x7FF && a & 0x7FF <= 0x1FFF) by (bit_vector);
}

/// The eight PPU registers repeat every 8 bytes over `$2008-$3FFF`: an
/// access to `a` is an access to `a & $2007`.
pub proof fn lemma_ppu_register_mirroring(bus: BusView, a: u16, data: u8)
    requires
        0x2008 <= a <= 0x3FFF,
    ensures
        bus.read(a) == bus.read(a & 0x2007),
        bus.write(a, data) == bus.write(a & 0x2007, data),
{
    assert((a & 0x2007) & 0x2007 == a & 0x2007 && 0x2000 <= a & 0x2007 <= 0x2007) by (bit_vector)
        requires
            0x2008 <= a <= 0x3FFF,
    ;
}

/// With a 16 KiB PRG-ROM, `$C000-$FFFF` reads the same bytes as
/// `$8000-$BFFF`.
pub proof fn lemma_prg_mirroring(bus: BusView, k: u16)
    requires
        bus.prg_rom.len() == 0x4000,
        k < 0x4000,
    ensures
        bus.read((0x8000 + k) as u16) == bus.read((0xC000 + k) as u16),
{
}

} // verus!
