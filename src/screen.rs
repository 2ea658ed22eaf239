//! The demo display: 32x32 cells at `$0200-$05FF`, one palette index per
//! byte, turned into RGBA pixels.
use vstd::prelude::*;
use crate::cpu::CPU;

verus! {

pub const SCREEN_BEGIN: u16 = 0x0200;
pub const SCREEN_END: u16 = 0x0600;
pub const FRAME_BYTES: usize = 32 * 32 * 4;

pub open spec fn spec_byte_to_color(byte: u8) -> (u8, u8, u8, u8) {
    if byte == 0 {
        (0, 0, 0, 255)
    } else if byte == 1 {
        (255, 255, 255, 255)
    } else if byte == 2 || byte == 9 {
        (128, 128, 128, 255)
    } else if byte == 3 || byte == 10 {
        (255, 0, 0, 255)
    } else if byte == 4 || byte == 11 {
        (0, 255, 0, 255)
    } else if byte == 5 || byte == 12 {
        (0, 0, 255, 255)
    } else if byte == 6 || byte == 13 {
        (255, 0, 255, 255)
    } else if byte == 7 || byte == 14 {
        (255, 255, 0, 255)
    } else {
        (0, 255, 255, 255)
    }
}

/// RGBA colour of a display cell value.
pub fn byte_to_color(byte: u8) -> (r: (u8, u8, u8, u8))
    ensures
        r == spec_byte_to_color(byte),
{
    match byte {
        0 => (0, 0, 0, 255),
        1 => (255, 255, 255, 255),
        2 | 9 => (128, 128, 128, 255),
        3 | 10 => (255, 0, 0, 255),
        4 | 11 => (0, 255, 0, 255),
        5 | 12 => (0, 0, 255, 255),
        6 | 13 => (255, 0, 255, 255),
        7 | 14 => (255, 255, 0, 255),
        _ => (0, 255, 255, 255),
    }
}

/// The RGBA frame for the cells in `ram` (the console's 2 KiB work RAM):
/// cell `k` at `$0200 + k`, alpha always 255.
pub open spec fn spec_frame(ram: Seq<u8>) -> Seq<u8> {
    Seq::new(
        FRAME_BYTES as nat,
        |i: int|
            {
                let c = spec_byte_to_color(ram[0x200 + i / 4]);
                if i % 4 == 0 {
                    c.0
                } else if i % 4 == 1 {
                    c.1
                } else if i % 4 == 2 {
                    c.2
                } else {
                    255u8
                }
            },
    )
}

/// Renders the display cells of `cpu`'s work RAM.
pub fn render(cpu: &CPU) -> (r: Vec<u8>)
    requires
        cpu.wf(),
    ensures
        r@ == spec_frame(cpu@.bus.ram),
{
    let mut frame: Vec<u8> = Vec::new();
    let mut i: u16 = SCREEN_BEGIN;
    while i < SCREEN_END
        invariant
            SCREEN_BEGIN <= i <= SCREEN_END,
            cpu.wf(),
            frame@.len() == 4 * (i - SCREEN_BEGIN),
            frame@ =~= spec_frame(cpu@.bus.ram).subrange(0, frame@.len() as int),
        decreases SCREEN_END - i,
    {
        let (b1, b2, b3, _) = byte_to_color(cpu.bus.vram[i as usize]);
        frame.push(b1);
        frame.push(b2);
        frame.push(b3);
        frame.push(255);
        i = i + 1;
    }
    frame
}

} // verus!
