//! The Picture Processing Unit: VRAM, palette and OAM, the register file,
//! scanline accounting and NMI generation.
use vstd::prelude::*;
use crate::cartridge::MirroringType;
use crate::registers::{
    with_bits, OAMADDR, OAMDATA, PPUADDR, PPUCTRL, PPUDATA, PPUMASK, PPUSCROLL, PPUSTATUS,
    STATUS_SPR_ZERO_HIT, STATUS_VBLANK,
};

verus! {

pub const PPU_REG_CTRL: u16 = 0x2000;
pub const PPU_REG_MASK: u16 = 0x2001;
pub const PPU_REG_STATUS: u16 = 0x2002;
pub const PPU_REG_OAMADDR: u16 = 0x2003;
pub const PPU_REG_OAMDATA: u16 = 0x2004;
pub const PPU_REG_SCROLL: u16 = 0x2005;
pub const PPU_REG_ADDR: u16 = 0x2006;
pub const PPU_REG_DATA: u16 = 0x2007;
pub const PPU_REG_OAMDMA: u16 = 0x4014;

pub const SCANLINE_CYCLES_COST: u16 = 341;
pub const SCANLINE_TRIGGER_NMI: u16 = 241;
pub const SCANLINE_PER_FRAME: u16 = 262;

pub const VRAM_SIZE: usize = 2048;
pub const PALETTE_SIZE: usize = 32;
pub const OAM_SIZE: usize = 256;

pub struct PPU {
    pub chr: Vec<u8>,
    pub palette: Vec<u8>,
    pub vram: Vec<u8>,
    pub oam: Vec<u8>,
    pub mirroring_type: MirroringType,
    pub ctrl_register: PPUCTRL,
    pub mask_register: PPUMASK,
    pub status_register: PPUSTATUS,
    pub oam_address_register: OAMADDR,
    pub oam_data_register: OAMDATA,
    pub scroll_register: PPUSCROLL,
    pub address_register: PPUADDR,
    pub data_register: PPUDATA,
    /// PPU dots elapsed in the current scanline.
    pub cycles: u16,
    pub scanlines: u16,
    pub should_nmi_flag: bool,
    /// Whether the most recent tick entered vblank.
    pub frame_ready_flag: bool,
    /// The byte a `$2007` read returns next (one-read delay).
    pub internal_last_read_byte: u8,
}

/// The abstract state of a PPU; `cycles` is unbounded so that a tick can be
/// described before it is folded into scanlines.
pub struct PpuView {
    pub chr: Seq<u8>,
    pub palette: Seq<u8>,
    pub vram: Seq<u8>,
    pub oam: Seq<u8>,
    pub mirroring_type: MirroringType,
    pub ctrl: PPUCTRL,
    pub mask: PPUMASK,
    pub status: PPUSTATUS,
    pub oam_addr: OAMADDR,
    pub oam_data: OAMDATA,
    pub scroll: PPUSCROLL,
    pub addr: PPUADDR,
    pub data: PPUDATA,
    pub cycles: int,
    pub scanline: int,
    pub nmi: bool,
    pub frame_ready: bool,
    pub buffer: u8,
}

impl View for PPU {
    type V = PpuView;

    open spec fn view(&self) -> PpuView {
        PpuView {
            chr: self.chr@,
            palette: self.palette@,
            vram: self.vram@,
            oam: self.oam@,
            mirroring_type: self.mirroring_type,
            ctrl: self.ctrl_register,
            mask: self.mask_register,
            status: self.status_register,
            oam_addr: self.oam_address_register,
            oam_data: self.oam_data_register,
            scroll: self.scroll_register,
            addr: self.address_register,
            data: self.data_register,
            cycles: self.cycles as int,
            scanline: self.scanlines as int,
            nmi: self.should_nmi_flag,
            frame_ready: self.frame_ready_flag,
            buffer: self.internal_last_read_byte,
        }
    }
}

/// Nametable offset (before folding into VRAM) for a PPU address in
/// `$2000-$3FFF`.
pub open spec fn spec_mirror(mirroring: MirroringType, addr: u16) -> u16 {
    let off = ((addr & 0x2FFF) - 0x2000) as u16;
    let index = off / 0x400;
    match mirroring {
        MirroringType::Vertical => if index >= 2 { (off - 0x800) as u16 } else { off },
        MirroringType::Horizontal => if index == 1 || index == 2 {
            (off - 0x400) as u16
        } else if index == 3 {
            (off - 0x800) as u16
        } else {
            off
        },
        MirroringType::FourScreen => off,
    }
}

/// VRAM cell for a nametable address; four-screen layouts, which would need
/// 2 KiB more than the console has, wrap into the console's 2 KiB.
pub open spec fn spec_vram_index(mirroring: MirroringType, addr: u16) -> int {
    (spec_mirror(mirroring, addr) & 0x7FF) as int
}

/// Palette cell for a PPU address in `$3F00-$3FFF`; `$3F10/$3F14/$3F18/$3F1C`
/// alias `$3F00/$3F04/$3F08/$3F0C`.
pub open spec fn spec_palette_index(addr: u16) -> int {
    let i = addr & 0x1F;
    if i & 0x13 == 0x10 {
        (i - 0x10) as int
    } else {
        i as int
    }
}

pub open spec fn chr_byte(chr: Seq<u8>, a: int) -> u8 {
    if 0 <= a < chr.len() {
        chr[a]
    } else {
        0
    }
}

impl PpuView {
    pub open spec fn wf(self) -> bool {
        &&& self.palette.len() == PALETTE_SIZE
        &&& self.vram.len() == VRAM_SIZE
        &&& self.oam.len() == OAM_SIZE
        &&& 0 <= self.cycles < 341
        &&& 0 <= self.scanline < 262
        &&& self.addr.write_hi == self.scroll.latch
        &&& self.addr.vram_addr <= 0x3FFF
    }

    /// Result of a `$2007` read and the state after it.
    pub open spec fn read_data(self) -> (PpuView, u8) {
        let a = self.addr.vram_addr;
        let next = PpuView { addr: self.addr.spec_increment(self.ctrl.spec_vram_increment()), ..self };
        if a <= 0x1FFF {
            (PpuView { buffer: chr_byte(self.chr, a as int), ..next }, self.buffer)
        } else if a <= 0x3EFF {
            (PpuView { buffer: self.vram[spec_vram_index(self.mirroring_type, a)], ..next }, self.buffer)
        } else {
            (
                PpuView {
                    buffer: self.vram[spec_vram_index(self.mirroring_type, (a - 0x1000) as u16)],
                    ..next
                },
                self.palette[spec_palette_index(a)],
            )
        }
    }

    /// State after a `$2007` write; CHR-ROM ignores writes.
    pub open spec fn write_data(self, data: u8) -> PpuView {
        let a = self.addr.vram_addr;
        let next = PpuView { addr: self.addr.spec_increment(self.ctrl.spec_vram_increment()), ..self };
        if a <= 0x1FFF {
            next
        } else if a <= 0x3EFF {
            PpuView { vram: self.vram.update(spec_vram_index(self.mirroring_type, a), data), ..next }
        } else {
            PpuView { palette: self.palette.update(spec_palette_index(a), data), ..next }
        }
    }

    /// Result of a `$2002` read: the status byte; vblank and the shared
    /// write latch are cleared.
    pub open spec fn read_status(self) -> (PpuView, u8) {
        (
            PpuView {
                status: PPUSTATUS { bits: with_bits(self.status.bits, STATUS_VBLANK, false) },
                addr: PPUADDR { write_hi: true, ..self.addr },
                scroll: PPUSCROLL { latch: true, ..self.scroll },
                ..self
            },
            self.status.bits,
        )
    }

    pub open spec fn write_addr(self, data: u8) -> PpuView {
        let a = self.addr.spec_write_address(data);
        PpuView { addr: a, scroll: PPUSCROLL { latch: a.write_hi, ..self.scroll }, ..self }
    }

    pub open spec fn write_scroll(self, data: u8) -> PpuView {
        let s = self.scroll.spec_write(data);
        PpuView { scroll: s, addr: PPUADDR { write_hi: s.latch, ..self.addr }, ..self }
    }

    /// Moving on to the next scanline.
    pub open spec fn next_scanline(self) -> PpuView {
        let s = self.scanline + 1;
        if s == 241 {
            PpuView {
                scanline: s,
                status: PPUSTATUS {
                    bits: with_bits(
                        with_bits(self.status.bits, STATUS_VBLANK, true),
                        STATUS_SPR_ZERO_HIT,
                        false,
                    ),
                },
                nmi: self.nmi || self.ctrl.spec_generate_nmi(),
                frame_ready: true,
                ..self
            }
        } else if s >= 262 {
            PpuView {
                scanline: 0,
                nmi: false,
                status: PPUSTATUS {
                    bits: with_bits(
                        with_bits(self.status.bits, STATUS_SPR_ZERO_HIT, false),
                        STATUS_VBLANK,
                        false,
                    ),
                },
                ..self
            }
        } else {
            PpuView { scanline: s, ..self }
        }
    }

    /// Folds whole scanlines out of `cycles`.
    pub open spec fn settle(self) -> PpuView
        decreases self.cycles,
    {
        if self.cycles < 341 {
            self
        } else {
            PpuView { cycles: self.cycles - 341, ..self }.next_scanline().settle()
        }
    }

    pub open spec fn tick(self, cycles: u16) -> PpuView {
        PpuView { cycles: self.cycles + cycles, frame_ready: false, ..self }.settle()
    }

    pub open spec fn poll_nmi(self) -> (PpuView, bool) {
        (PpuView { nmi: false, ..self }, self.nmi)
    }
}

proof fn lemma_mask14(x: u16)
    ensures
        x & 0x3FFF <= 0x3FFF,
{
    assert(x & 0x3FFF <= 0x3FFF) by (bit_vector);
}

pub open spec fn zeros(n: int) -> Seq<u8> {
    Seq::new(n as nat, |i: int| 0u8)
}

/// A zero-filled buffer of `n` bytes.
pub fn zeroed(n: usize) -> (r: Vec<u8>)
    ensures
        r@ == zeros(n as int),
{
    let mut v: Vec<u8> = Vec::new();
    let mut i: usize = 0;
    while i < n
        invariant
            i <= n,
            v@ == zeros(i as int),
        decreases n - i,
    {
        v.push(0);
        i += 1;
        assert(v@ =~= zeros(i as int));
    }
    v
}

/// The state of a PPU at power-on: memories zeroed, registers cleared,
/// both write latches expecting a first write, at dot 0 of scanline 0.
pub open spec fn power_on(chr: Seq<u8>, mirroring_type: MirroringType) -> PpuView {
    PpuView {
        chr,
        palette: zeros(PALETTE_SIZE as int),
        vram: zeros(VRAM_SIZE as int),
        oam: zeros(OAM_SIZE as int),
        mirroring_type,
        ctrl: PPUCTRL { bits: 0 },
        mask: PPUMASK { bits: 0 },
        status: PPUSTATUS { bits: 0 },
        oam_addr: OAMADDR { oam_address: 0 },
        oam_data: OAMDATA { oam_data: 0 },
        scroll: PPUSCROLL { cam_position_x: 0, cam_position_y: 0, latch: true },
        addr: PPUADDR { vram_addr: 0, write_hi: true },
        data: PPUDATA { data: 0 },
        cycles: 0,
        scanline: 0,
        nmi: false,
        frame_ready: false,
        buffer: 0,
    }
}

impl PPU {
    pub open spec fn wf(&self) -> bool {
        self@.wf()
    }

    /// A powered-up PPU over the cartridge's CHR data: memories zeroed, the
    /// frame at dot 0 of scanline 0.
    pub fn new(chr: Vec<u8>, mirroring_type: MirroringType) -> (r: Self)
        ensures
            r.wf(),
            r@ == power_on(chr@, mirroring_type),
    {
        PPU {
            chr,
            palette: zeroed(PALETTE_SIZE),
            vram: zeroed(VRAM_SIZE),
            oam: zeroed(OAM_SIZE),
            mirroring_type,
            ctrl_register: PPUCTRL::new(),
            mask_register: PPUMASK::new(),
            status_register: PPUSTATUS::new(),
            oam_address_register: OAMADDR::new(),
            oam_data_register: OAMDATA::new(),
            scroll_register: PPUSCROLL::new(),
            address_register: PPUADDR::new(),
            data_register: PPUDATA::new(),
            cycles: 0,
            scanlines: 0,
            should_nmi_flag: false,
            frame_ready_flag: false,
            internal_last_read_byte: 0,
        }
    }

    /// Nametable offset for `addr`, following the cartridge's mirroring.
    pub fn get_mirror_vram_addr(&self, addr: u16) -> (r: u16)
        requires
            0x2000 <= addr <= 0x3FFF,
        ensures
            r == spec_mirror(self.mirroring_type, addr),
            self.mirroring_type != MirroringType::FourScreen ==> r < 0x800,
            r < 0x1000,
    {
        let masked = addr & 0x2FFF;
        assert(0x2000 <= masked <= 0x2FFF) by (bit_vector)
            requires
                0x2000 <= addr <= 0x3FFF,
                masked == addr & 0x2FFF,
        ;
        let off = masked - 0x2000;
        let index = off / 0x400;
        match self.mirroring_type {
            MirroringType::Vertical => if index >= 2 { off - 0x800 } else { off },
            MirroringType::Horizontal => if index == 1 || index == 2 {
                off - 0x400
            } else if index == 3 {
                off - 0x800
            } else {
                off
            },
            MirroringType::FourScreen => off,
        }
    }

    fn vram_index(&self, addr: u16) -> (r: usize)
        requires
            0x2000 <= addr <= 0x3FFF,
        ensures
            r == spec_vram_index(self.mirroring_type, addr),
            r < VRAM_SIZE,
    {
        let m = self.get_mirror_vram_addr(addr);
        let i = m & 0x7FF;
        assert(i < 0x800) by (bit_vector)
            requires
                i == m & 0x7FF,
        ;
        i as usize
    }

    fn palette_index(addr: u16) -> (r: usize)
        ensures
            r == spec_palette_index(addr),
            r < PALETTE_SIZE,
    {
        let i = addr & 0x1F;
        assert(i < 32) by (bit_vector)
            requires
                i == addr & 0x1F,
        ;
        if i & 0x13 == 0x10 {
            assert(i >= 0x10) by (bit_vector)
                requires
                    i & 0x13 == 0x10,
            ;
            (i - 0x10) as usize
        } else {
            i as usize
        }
    }

    fn advance_address(&mut self)
        ensures
            final(self).address_register.vram_addr <= 0x3FFF,
            *final(self) == (PPU {
                address_register: old(self).address_register.spec_increment(
                    old(self).ctrl_register.spec_vram_increment(),
                ),
                ..*old(self)
            }),
    {
        let inc = self.ctrl_register.get_vram_address_increment();
        self.address_register.increment_address(inc);
        proof {
            lemma_mask14(((old(self).address_register.vram_addr + inc) % 0x10000) as u16);
        }
    }

    /// `$2007` read: through the one-byte buffer, except for the palette,
    /// which answers at once while the buffer is refilled from the
    /// nametable beneath it. `$3000-$3EFF` reads as `$2000-$2EFF`; CHR
    /// addresses past the cartridge's CHR data read 0.
    pub fn read(&mut self) -> (r: u8)
        requires
            old(self).wf(),
        ensures
            final(self).wf(),
            (final(self)@, r) == old(self)@.read_data(),
    {
        let addr = self.address_register.get_address();
        self.advance_address();
        let prev = self.internal_last_read_byte;
        if addr <= 0x1FFF {
            let a = addr as usize;
            self.internal_last_read_byte = if a < self.chr.len() {
                self.chr[a]
            } else {
                0
            };
            prev
        } else if addr <= 0x3EFF {
            let i = self.vram_index(addr);
            self.internal_last_read_byte = self.vram[i];
            prev
        } else {
            let i = self.vram_index(addr - 0x1000);
            self.internal_last_read_byte = self.vram[i];
            self.palette[Self::palette_index(addr)]
        }
    }

    /// `$2007` write at the current address, which then advances.
    pub fn write(&mut self, data: u8)
        requires
            old(self).wf(),
        ensures
            final(self).wf(),
            final(self)@ == old(self)@.write_data(data),
    {
        let addr = self.address_register.get_address();
        self.advance_address();
        if addr <= 0x1FFF {
        } else if addr <= 0x3EFF {
            let i = self.vram_index(addr);
            self.vram.set(i, data);
        } else {
            let i = Self::palette_index(addr);
            self.palette.set(i, data);
        }
    }

    /// `$2002` read: returns the status byte, clears vblank and the shared
    /// `$2005/$2006` write latch.
    pub fn read_status(&mut self) -> (r: u8)
        requires
            old(self).wf(),
        ensures
            final(self).wf(),
            (final(self)@, r) == old(self)@.read_status(),
    {
        let r = self.status_register.get_bits();
        self.status_register.reset_vertical_blank();
        self.address_register.reset_latch();
        self.scroll_register.reset_latch();
        r
    }

    /// `$2006` write through the shared latch.
    pub fn write_to_addr(&mut self, data: u8)
        requires
            old(self).wf(),
        ensures
            final(self).wf(),
            final(self)@ == old(self)@.write_addr(data),
    {
        self.address_register.write_address(data);
        self.scroll_register.latch = self.address_register.write_hi;
        proof {
            lemma_mask14((data as u16) << 8u16);
            lemma_mask14(old(self).address_register.vram_addr | data as u16);
        }
    }

    /// `$2005` write through the shared latch.
    pub fn write_to_scroll(&mut self, data: u8)
        requires
            old(self).wf(),
        ensures
            final(self).wf(),
            final(self)@ == old(self)@.write_scroll(data),
    {
        self.scroll_register.write(data);
        self.address_register.write_hi = self.scroll_register.latch;
    }

    fn next_scanline(&mut self)
        requires
            old(self)@.scanline < 262,
        ensures
            final(self)@ == old(self)@.next_scanline(),
    {
        self.scanlines = self.scanlines + 1;
        if self.scanlines == SCANLINE_TRIGGER_NMI {
            self.status_register.set_vertical_blank(true);
            self.status_register.set_sprite_zero_hit(false);
            if self.ctrl_register.get_generate_nmi() {
                self.should_nmi_flag = true;
            }
            self.frame_ready_flag = true;
        }
        if self.scanlines >= SCANLINE_PER_FRAME {
            self.scanlines = 0;
            self.should_nmi_flag = false;
            self.status_register.set_sprite_zero_hit(false);
            self.status_register.set_vertical_blank(false);
        }
    }

    /// Advances by `cycles` PPU dots, crossing as many scanlines as they
    /// fill.
    pub fn tick(&mut self, cycles: u16)
        requires
            old(self).wf(),
        ensures
            final(self).wf(),
            final(self)@ == old(self)@.tick(cycles),
    {
        let mut total: u32 = self.cycles as u32 + cycles as u32;
        self.frame_ready_flag = false;
        while total >= SCANLINE_CYCLES_COST as u32
            invariant
                self@.wf(),
                total <= 0x10000 + 341,
                (PpuView { cycles: total as int, ..self@ }).settle() == old(self)@.tick(cycles),
            decreases total,
        {
            total = total - SCANLINE_CYCLES_COST as u32;
            self.next_scanline();
        }
        self.cycles = total as u16;
    }

    /// Whether the most recent tick entered vblank, so that a frame is
    /// complete.
    pub fn frame_ready(&self) -> (r: bool)
        ensures
            r == self@.frame_ready,
    {
        self.frame_ready_flag
    }

    /// Reports a pending NMI, once.
    pub fn should_nmi(&mut self) -> (r: bool)
        requires
            old(self).wf(),
        ensures
            final(self).wf(),
            (final(self)@, r) == old(self)@.poll_nmi(),
    {
        let r = self.should_nmi_flag;
        self.should_nmi_flag = false;
        r
    }
}

/// Folding cycles into scanlines leaves a well-formed PPU whatever number
/// of cycles had piled up.
proof fn lemma_settle_wf(p: PpuView)
    requires
        p.palette.len() == PALETTE_SIZE,
        p.vram.len() == VRAM_SIZE,
        p.oam.len() == OAM_SIZE,
        p.cycles >= 0,
        0 <= p.scanline < 262,
        p.addr.write_hi == p.scroll.latch,
        p.addr.vram_addr <= 0x3FFF,
    ensures
        p.settle().wf(),
    decreases p.cycles,
{
    if p.cycles >= 341 {
        lemma_settle_wf(PpuView { cycles: p.cycles - 341, ..p }.next_scanline());
    }
}

/// However many dots a tick adds, the PPU ends with `cycles < 341` and
/// `scanline < 262`.
pub proof fn lemma_tick_bounds(p: PpuView, cycles: u16)
    requires
        p.wf(),
    ensures
        p.tick(cycles).wf(),
        0 <= p.tick(cycles).cycles < 341,
        0 <= p.tick(cycles).scanline < 262,
{
    lemma_settle_wf(PpuView { cycles: p.cycles + cycles, frame_ready: false, ..p });
}

/// A reported NMI is consumed: polling again at once reports none.
pub proof fn lemma_nmi_one_shot(p: PpuView)
    requires
        p.poll_nmi().1,
    ensures
        !p.poll_nmi().0.poll_nmi().1,
{
}

} // verus!
