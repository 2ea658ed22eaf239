//! The eight memory-mapped PPU registers at `$2000-$2007`.
use vstd::prelude::*;

verus! {

/// `$2006`, written twice (high byte first) to form a 14-bit VRAM address.
#[derive(Debug, Clone, Copy, PartialEq, Eq, Structural)]
pub struct PPUADDR {
    pub vram_addr: u16,
    /// True when the next write supplies the high byte.
    pub write_hi: bool,
}

impl PPUADDR {
    pub fn new() -> (r: Self)
        ensures
            r.vram_addr == 0,
            r.write_hi,
    {
        PPUADDR { vram_addr: 0, write_hi: true }
    }

    pub fn get_address(&self) -> (r: u16)
        ensures
            r == self.vram_addr,
    {
        self.vram_addr
    }

    pub open spec fn spec_write_address(self, data: u8) -> PPUADDR {
        PPUADDR {
            vram_addr: if self.write_hi {
                ((data as u16) << 8u16) & 0x3FFF
            } else {
                (self.vram_addr | data as u16) & 0x3FFF
            },
            write_hi: !self.write_hi,
        }
    }

    /// First write sets the high byte, second the low byte; the result is
    /// kept within `$0000-$3FFF`.
    pub fn write_address(&mut self, data: u8)
        ensures
            *final(self) == old(self).spec_write_address(data),
    {
        if self.write_hi {
            self.vram_addr = (data as u16) << 8u16;
        } else {
            self.vram_addr = self.vram_addr | data as u16;
        }
        self.write_hi = !self.write_hi;
        self.mirror_down();
    }

    pub open spec fn spec_increment(self, inc: u8) -> PPUADDR {
        PPUADDR { vram_addr: ((self.vram_addr + inc) % 0x10000) as u16 & 0x3FFF, ..self }
    }

    /// Advances the address by `inc`, wrapping within `$0000-$3FFF`.
    pub fn increment_address(&mut self, inc: u8)
        ensures
            *final(self) == old(self).spec_increment(inc),
    {
        self.vram_addr = self.vram_addr.wrapping_add(inc as u16);
        self.mirror_down();
    }

    fn mirror_down(&mut self)
        ensures
            final(self).vram_addr == old(self).vram_addr & 0x3FFF,
            final(self).write_hi == old(self).write_hi,
    {
        let a = self.vram_addr;
        if a > 0x3FFF {
            self.vram_addr = a & 0x3FFF;
        } else {
            assert(a & 0x3FFF == a) by (bit_vector)
                requires
                    a <= 0x3FFF,
            ;
        }
    }

    pub fn reset_latch(&mut self)
        ensures
            *final(self) == (PPUADDR { write_hi: true, ..*old(self) }),
    {
        self.write_hi = true;
    }
}

pub const CTRL_NAMETABLE_ADDR: u8 = 0b0000_0011;
pub const CTRL_VRAM_ADDR_INC: u8 = 0b0000_0100;
pub const CTRL_SPR_PTN_ADDR: u8 = 0b0000_1000;
pub const CTRL_BG_PTN_ADDR: u8 = 0b0001_0000;
pub const CTRL_SPR_SIZE: u8 = 0b0010_0000;
pub const CTRL_MASTER_SLAVE_SEL: u8 = 0b0100_0000;
pub const CTRL_GEN_NMI_VBI: u8 = 0b1000_0000;

/// `$2000`, the PPU control register (write only).
#[derive(Debug, Clone, Copy, PartialEq, Eq, Structural)]
pub struct PPUCTRL {
    pub bits: u8,
}

impl PPUCTRL {
    pub fn new() -> (r: Self)
        ensures
            r.bits == 0,
    {
        PPUCTRL { bits: 0 }
    }

    pub fn update_bits(&mut self, bits: u8)
        ensures
            final(self).bits == bits,
    {
        self.bits = bits;
    }

    pub fn get_nametable_address(&self) -> (r: u16)
        ensures
            r == 0x2000 + 0x400 * (self.bits & CTRL_NAMETABLE_ADDR) as int,
    {
        let bits = self.bits;
        let b = bits & CTRL_NAMETABLE_ADDR;
        assert(b <= 3) by (bit_vector)
            requires
                b == bits & 3,
        ;
        if b == 0 {
            0x2000
        } else if b == 1 {
            0x2400
        } else if b == 2 {
            0x2800
        } else {
            0x2C00
        }
    }

    pub open spec fn spec_vram_increment(self) -> u8 {
        if self.bits & CTRL_VRAM_ADDR_INC == 0 {
            1
        } else {
            32
        }
    }

    pub fn get_vram_address_increment(&self) -> (r: u8)
        ensures
            r == self.spec_vram_increment(),
    {
        if self.bits & CTRL_VRAM_ADDR_INC == 0 {
            1
        } else {
            32
        }
    }

    pub fn get_sprite_pattern_table_address(&self) -> (r: u16)
        ensures
            r == (if self.bits & CTRL_SPR_PTN_ADDR == 0 { 0u16 } else { 0x1000u16 }),
    {
        if self.bits & CTRL_SPR_PTN_ADDR == 0 {
            0
        } else {
            0x1000
        }
    }

    pub fn get_background_pattern_table_address(&self) -> (r: u16)
        ensures
            r == (if self.bits & CTRL_BG_PTN_ADDR == 0 { 0u16 } else { 0x1000u16 }),
    {
        if self.bits & CTRL_BG_PTN_ADDR == 0 {
            0
        } else {
            0x1000
        }
    }

    pub fn get_sprite_size(&self) -> (r: u8)
        ensures
            r == (if self.bits & CTRL_SPR_SIZE == 0 { 8u8 } else { 16u8 }),
    {
        if self.bits & CTRL_SPR_SIZE == 0 {
            8
        } else {
            16
        }
    }

    pub fn get_master_slave_select(&self) -> (r: bool)
        ensures
            r == (self.bits & CTRL_MASTER_SLAVE_SEL != 0),
    {
        self.bits & CTRL_MASTER_SLAVE_SEL != 0
    }

    pub open spec fn spec_generate_nmi(self) -> bool {
        self.bits & CTRL_GEN_NMI_VBI != 0
    }

    pub fn get_generate_nmi(&self) -> (r: bool)
        ensures
            r == self.spec_generate_nmi(),
    {
        self.bits & CTRL_GEN_NMI_VBI != 0
    }
}

pub const MASK_GREY_SCALE: u8 = 0b0000_0001;
pub const MASK_SHOW_BG_LM: u8 = 0b0000_0010;
pub const MASK_SHOW_SPR_LM: u8 = 0b0000_0100;
pub const MASK_SHOW_BG: u8 = 0b0000_1000;
pub const MASK_SHOW_SPR: u8 = 0b0001_0000;
pub const MASK_EMPHA_RED: u8 = 0b0010_0000;
pub const MASK_EMPHA_GREEN: u8 = 0b0100_0000;
pub const MASK_EMPHA_BLUE: u8 = 0b1000_0000;

/// `$2001`, the rendering mask register (write only).
#[derive(Debug, Clone, Copy, PartialEq, Eq, Structural)]
pub struct PPUMASK {
    pub bits: u8,
}

impl PPUMASK {
    pub fn new() -> (r: Self)
        ensures
            r.bits == 0,
    {
        PPUMASK { bits: 0 }
    }

    pub fn update_bits(&mut self, bits: u8)
        ensures
            final(self).bits == bits,
    {
        self.bits = bits;
    }

    pub fn get_grey_scale(&self) -> (r: bool)
        ensures
            r == (self.bits & MASK_GREY_SCALE != 0),
    {
        self.bits & MASK_GREY_SCALE != 0
    }

    pub fn get_show_background_in_leftmost(&self) -> (r: bool)
        ensures
            r == (self.bits & MASK_SHOW_BG_LM != 0),
    {
        self.bits & MASK_SHOW_BG_LM != 0
    }

    pub fn get_show_sprites_in_leftmost(&self) -> (r: bool)
        ensures
            r == (self.bits & MASK_SHOW_SPR_LM != 0),
    {
        self.bits & MASK_SHOW_SPR_LM != 0
    }

    pub fn get_show_background(&self) -> (r: bool)
        ensures
            r == (self.bits & MASK_SHOW_BG != 0),
    {
        self.bits & MASK_SHOW_BG != 0
    }

    pub fn get_show_sprites(&self) -> (r: bool)
        ensures
            r == (self.bits & MASK_SHOW_SPR != 0),
    {
        self.bits & MASK_SHOW_SPR != 0
    }

    pub fn get_emphasize_red(&self) -> (r: bool)
        ensures
            r == (self.bits & MASK_EMPHA_RED != 0),
    {
        self.bits & MASK_EMPHA_RED != 0
    }

    pub fn get_emphasize_green(&self) -> (r: bool)
        ensures
            r == (self.bits & MASK_EMPHA_GREEN != 0),
    {
        self.bits & MASK_EMPHA_GREEN != 0
    }

    pub fn get_emphasize_blue(&self) -> (r: bool)
        ensures
            r == (self.bits & MASK_EMPHA_BLUE != 0),
    {
        self.bits & MASK_EMPHA_BLUE != 0
    }
}

pub const STATUS_SPR_OVERFLOW: u8 = 0b0010_0000;
pub const STATUS_SPR_ZERO_HIT: u8 = 0b0100_0000;
pub const STATUS_VBLANK: u8 = 0b1000_0000;

/// `bits` with the bits of `flag` set when `on`, cleared otherwise.
pub open spec fn with_bits(bits: u8, flag: u8, on: bool) -> u8 {
    if on {
        bits | flag
    } else {
        bits & !flag
    }
}

/// `$2002`, the PPU status register (read only).
#[derive(Debug, Clone, Copy, PartialEq, Eq, Structural)]
pub struct PPUSTATUS {
    pub bits: u8,
}

impl PPUSTATUS {
    pub fn new() -> (r: Self)
        ensures
            r.bits == 0,
    {
        PPUSTATUS { bits: 0 }
    }

    pub fn get_bits(&self) -> (r: u8)
        ensures
            r == self.bits,
    {
        self.bits
    }

    fn set(&mut self, flag: u8, on: bool)
        ensures
            final(self).bits == with_bits(old(self).bits, flag, on),
    {
        if on {
            self.bits = self.bits | flag;
        } else {
            self.bits = self.bits & !flag;
        }
    }

    pub fn set_sprite_overflow(&mut self, flag: bool)
        ensures
            final(self).bits == with_bits(old(self).bits, STATUS_SPR_OVERFLOW, flag),
    {
        self.set(STATUS_SPR_OVERFLOW, flag);
    }

    pub fn set_sprite_zero_hit(&mut self, flag: bool)
        ensures
            final(self).bits == with_bits(old(self).bits, STATUS_SPR_ZERO_HIT, flag),
    {
        self.set(STATUS_SPR_ZERO_HIT, flag);
    }

    pub open spec fn spec_vertical_blank(self) -> bool {
        self.bits & STATUS_VBLANK != 0
    }

    pub fn get_vertical_blank(&self) -> (r: bool)
        ensures
            r == self.spec_vertical_blank(),
    {
        self.bits & STATUS_VBLANK != 0
    }

    pub fn set_vertical_blank(&mut self, flag: bool)
        ensures
            final(self).bits == with_bits(old(self).bits, STATUS_VBLANK, flag),
    {
        self.set(STATUS_VBLANK, flag);
    }

    pub fn reset_vertical_blank(&mut self)
        ensures
            final(self).bits == with_bits(old(self).bits, STATUS_VBLANK, false),
    {
        self.set(STATUS_VBLANK, false);
    }
}

/// `$2003`, the OAM address port (write only).
#[derive(Debug, Clone, Copy, PartialEq, Eq, Structural)]
pub struct OAMADDR {
    pub oam_address: u8,
}

impl OAMADDR {
    pub fn new() -> (r: Self)
        ensures
            r.oam_address == 0,
    {
        OAMADDR { oam_address: 0 }
    }

    pub fn write_oam_address(&mut self, addr: u8)
        ensures
            final(self).oam_address == addr,
    {
        self.oam_address = addr;
    }
}

/// `$2004`, the OAM data port.
#[derive(Debug, Clone, Copy, PartialEq, Eq, Structural)]
pub struct OAMDATA {
    pub oam_data: u8,
}

impl OAMDATA {
    pub fn new() -> (r: Self)
        ensures
            r.oam_data == 0,
    {
        OAMDATA { oam_data: 0 }
    }

    pub fn write_oam_data(&mut self, data: u8)
        ensures
            final(self).oam_data == data,
    {
        self.oam_data = data;
    }

    pub fn read_oam_data(&self) -> (r: u8)
        ensures
            r == self.oam_data,
    {
        self.oam_data
    }
}

/// `$2005`, written twice: camera X, then camera Y.
#[derive(Debug, Clone, Copy, PartialEq, Eq, Structural)]
pub struct PPUSCROLL {
    pub cam_position_x: u8,
    pub cam_position_y: u8,
    /// True when the next write supplies X.
    pub latch: bool,
}

impl PPUSCROLL {
    pub fn new() -> (r: Self)
        ensures
            r.cam_position_x == 0,
            r.cam_position_y == 0,
            r.latch,
    {
        PPUSCROLL { cam_position_x: 0, cam_position_y: 0, latch: true }
    }

    pub open spec fn spec_write(self, pos: u8) -> PPUSCROLL {
        if self.latch {
            PPUSCROLL { cam_position_x: pos, latch: false, ..self }
        } else {
            PPUSCROLL { cam_position_y: pos, latch: true, ..self }
        }
    }

    pub fn write(&mut self, cam_position: u8)
        ensures
            *final(self) == old(self).spec_write(cam_position),
    {
        if self.latch {
            self.cam_position_x = cam_position;
        } else {
            self.cam_position_y = cam_position;
        }
        self.latch = !self.latch;
    }

    pub fn reset_latch(&mut self)
        ensures
            *final(self) == (PPUSCROLL { latch: true, ..*old(self) }),
    {
        self.latch = true;
    }
}

/// `$2007`, the last byte that went through the data port.
#[derive(Debug, Clone, Copy, PartialEq, Eq, Structural)]
pub struct PPUDATA {
    pub data: u8,
}

impl PPUDATA {
    pub fn new() -> (r: Self)
        ensures
            r.data == 0,
    {
        PPUDATA { data: 0 }
    }

    pub fn write_data(&mut self, data: u8)
        ensures
            final(self).data == data,
    {
        self.data = data;
    }

    pub fn read_data(&self) -> (r: u8)
        ensures
            r == self.data,
    {
        self.data
    }
}

} // verus!
