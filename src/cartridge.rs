use vstd::prelude::*;
use crate::error::NesError;

verus! {

pub const PRG_ROM_PAGE_SIZE: usize = 16384;
pub const CHR_ROM_PAGE_SIZE: usize = 8192;
pub const HEADER_SIZE: usize = 16;
pub const TRAINER_SIZE: usize = 512;

/// Nametable layout wired on the cartridge board.
#[derive(Debug, Clone, Copy, PartialEq, Eq, Structural)]
pub enum MirroringType {
    Vertical,
    Horizontal,
    FourScreen,
}

/// A parsed iNES 1.0 cartridge.
pub struct Cartridge {
    pub prg: Vec<u8>,
    pub chr: Vec<u8>,
    pub mapper: u8,
    pub mirroring_type: MirroringType,
}

pub open spec fn has_magic(raw: Seq<u8>) -> bool {
    raw.len() >= 4 && raw[0] == 0x4E && raw[1] == 0x45 && raw[2] == 0x53 && raw[3] == 0x1A
}

pub open spec fn has_trainer(raw: Seq<u8>) -> bool {
    raw[6] & 0x04 != 0
}

pub open spec fn prg_start(raw: Seq<u8>) -> int {
    16 + if has_trainer(raw) { 512int } else { 0int }
}

pub open spec fn prg_size(raw: Seq<u8>) -> int {
    raw[4] as int * 16384
}

pub open spec fn chr_size(raw: Seq<u8>) -> int {
    raw[5] as int * 8192
}

/// Total length the header asks for.
pub open spec fn image_size(raw: Seq<u8>) -> int {
    prg_start(raw) + prg_size(raw) + chr_size(raw)
}

pub open spec fn mirroring_of(raw: Seq<u8>) -> MirroringType {
    if raw[6] & 0x08 != 0 {
        MirroringType::FourScreen
    } else if raw[6] & 0x01 != 0 {
        MirroringType::Vertical
    } else {
        MirroringType::Horizontal
    }
}

pub open spec fn mapper_of(raw: Seq<u8>) -> u8 {
    (raw[7] & 0xF0) | (raw[6] >> 4u8)
}

/// Which error, if any, parsing `raw` reports.
pub open spec fn parse_error(raw: Seq<u8>) -> Option<NesError> {
    if !has_magic(raw) {
        Some(NesError::InvalidMagic)
    } else if raw.len() < 16 {
        Some(NesError::TruncatedCartridge)
    } else if raw[7] & 0x03 != 0 {
        Some(NesError::UnsupportedFormat)
    } else if raw[7] & 0x0C == 0x08 {
        Some(NesError::Unsupported2_0)
    } else if raw.len() < image_size(raw) {
        Some(NesError::TruncatedCartridge)
    } else {
        None
    }
}

impl Cartridge {
    /// Parses an iNES 1.0 image.
    pub fn new(raw: &Vec<u8>) -> (r: Result<Cartridge, NesError>)
        ensures
            parse_error(raw@) is Some <==> r is Err,
            r matches Err(e) ==> parse_error(raw@) == Some(e),
            r matches Ok(c) ==> {
                &&& c.prg@ == raw@.subrange(prg_start(raw@), prg_start(raw@) + prg_size(raw@))
                &&& c.chr@ == raw@.subrange(
                    prg_start(raw@) + prg_size(raw@),
                    image_size(raw@),
                )
                &&& c.mapper == mapper_of(raw@)
                &&& c.mirroring_type == mirroring_of(raw@)
            },
    {
        if raw.len() < 4 || raw[0] != 0x4E || raw[1] != 0x45 || raw[2] != 0x53 || raw[3] != 0x1A {
            return Err(NesError::InvalidMagic);
        }
        if raw.len() < HEADER_SIZE {
            return Err(NesError::TruncatedCartridge);
        }
        let ctrl_one = raw[6];
        let ctrl_two = raw[7];
        if ctrl_two & 0x03 != 0 {
            return Err(NesError::UnsupportedFormat);
        }
        if ctrl_two & 0x0C == 0x08 {
            return Err(NesError::Unsupported2_0);
        }
        let prg_len: usize = raw[4] as usize * PRG_ROM_PAGE_SIZE;
        let chr_len: usize = raw[5] as usize * CHR_ROM_PAGE_SIZE;
        let start: usize = if ctrl_one & 0x04 != 0 {
            HEADER_SIZE + TRAINER_SIZE
        } else {
            HEADER_SIZE
        };
        let chr_start: usize = start + prg_len;
        if raw.len() < chr_start + chr_len {
            return Err(NesError::TruncatedCartridge);
        }
        let mirroring_type = if ctrl_one & 0x08 != 0 {
            MirroringType::FourScreen
        } else if ctrl_one & 0x01 != 0 {
            MirroringType::Vertical
        } else {
            MirroringType::Horizontal
        };
        let prg = copy_range(raw, start, chr_start);
        let chr = copy_range(raw, chr_start, chr_start + chr_len);
        Ok(Cartridge {
            prg,
            chr,
            mapper: (ctrl_two & 0xF0) | (ctrl_one >> 4u8),
            mirroring_type,
        })
    }
}

/// The bytes of `raw` in `[from, to)`.
fn copy_range(raw: &Vec<u8>, from: usize, to: usize) -> (r: Vec<u8>)
    requires
        from <= to <= raw@.len(),
    ensures
        r@ == raw@.subrange(from as int, to as int),
{
    let mut out: Vec<u8> = Vec::new();
    let mut i: usize = from;
    while i < to
        invariant
            from <= i <= to <= raw@.len(),
            out@ == raw@.subrange(from as int, i as int),
        decreases to - i,
    {
        out.push(raw[i]);
        i += 1;
    }
    out
}

/// Largest program `from_program` places in PRG-ROM: everything below the
/// interrupt vectors.
pub const PROGRAM_SPACE: usize = 0x7FFA;

/// The 32 KiB PRG-ROM image holding `program` at `$8000` (cut at
/// `PROGRAM_SPACE` bytes), zeros elsewhere, and a reset vector to `$8000`.
pub open spec fn program_rom(program: Seq<u8>) -> Seq<u8> {
    Seq::new(
        0x8000,
        |i: int|
            if i < program.len() && i < PROGRAM_SPACE {
                program[i]
            } else if i == 0x7FFD {
                0x80u8
            } else {
                0u8
            },
    )
}

impl Cartridge {
    /// A mapper-0 cartridge that runs `program` from `$8000`, with 8 KiB of
    /// blank CHR data and horizontal mirroring.
    pub fn from_program(program: &Vec<u8>) -> (r: Cartridge)
        ensures
            r.prg@ == program_rom(program@),
            r.chr@ == Seq::new(CHR_ROM_PAGE_SIZE as nat, |i: int| 0u8),
            r.mapper == 0,
            r.mirroring_type == MirroringType::Horizontal,
    {
        let mut prg: Vec<u8> = Vec::new();
        let mut i: usize = 0;
        while i < 0x8000
            invariant
                i <= 0x8000,
                prg@ =~= program_rom(program@).subrange(0, i as int),
            decreases 0x8000 - i,
        {
            let b: u8 = if i < program.len() && i < PROGRAM_SPACE {
                program[i]
            } else if i == 0x7FFD {
                0x80
            } else {
                0
            };
            prg.push(b);
            i += 1;
        }
        let mut chr: Vec<u8> = Vec::new();
        let mut j: usize = 0;
        while j < CHR_ROM_PAGE_SIZE
            invariant
                j <= CHR_ROM_PAGE_SIZE,
                chr@ =~= Seq::new(j as nat, |i: int| 0u8),
            decreases CHR_ROM_PAGE_SIZE - j,
        {
            chr.push(0);
            j += 1;
        }
        Cartridge { prg, chr, mapper: 0, mirroring_type: MirroringType::Horizontal }
    }
}

} // verus!
