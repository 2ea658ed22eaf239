use nes::bus::Bus;
use nes::cartridge::{Cartridge, MirroringType};
use nes::cpu::{CPUStatus, With, CPU};
use nes::error::NesError;
use nes::instructions::branch;
use nes::mem::Memory;
use nes::opcode::lookup;
use nes::ppu::PPU;
use nes::registers::{PPUCTRL, PPUMASK, PPUSTATUS};
use nes::screen::{byte_to_color, render};
use nes::trace::TraceInfo;

fn ines(prg_pages: u8, chr_pages: u8, ctrl1: u8, ctrl2: u8) -> Vec<u8> {
    let mut raw = vec![0x4E, 0x45, 0x53, 0x1A, prg_pages, chr_pages, ctrl1, ctrl2];
    raw.resize(16, 0);
    if ctrl1 & 0x04 != 0 {
        raw.resize(16 + 512, 0xEE);
    }
    for i in 0..(prg_pages as usize * 16384) {
        raw.push((i % 251) as u8);
    }
    for i in 0..(chr_pages as usize * 8192) {
        raw.push((i % 241) as u8);
    }
    raw
}

fn run_program(program: Vec<u8>) -> CPU {
    let mut cpu = CPU::with(program);
    assert_eq!(cpu.run(), Ok(true));
    cpu
}

#[test]
fn adc_chain_flags() {
    let cpu = run_program(vec![0x69, 0x10, 0x69, 0x20, 0x00]);
    assert_eq!(cpu.acc, 0x30);
    assert!(!cpu.status.contains(CPUStatus::CARRY));
    assert!(!cpu.status.contains(CPUStatus::OVERFLOW));
    assert!(!cpu.status.contains(CPUStatus::ZERO));
    assert!(!cpu.status.contains(CPUStatus::NEGATIVE));
}

#[test]
fn adc_overflow_flags() {
    let cpu = run_program(vec![0x69, 0xD0, 0x69, 0x90, 0x00]);
    assert_eq!(cpu.acc, 0x60);
    assert!(cpu.status.contains(CPUStatus::OVERFLOW));
    assert!(cpu.status.contains(CPUStatus::CARRY));
}

#[test]
fn adc_with_incoming_carry() {
    let mut cpu = CPU::with(vec![0x69, 0x01, 0x00]);
    cpu.reset().unwrap();
    cpu.acc = 0xFE;
    cpu.status.insert(CPUStatus::CARRY);
    cpu.interprect().unwrap();
    assert_eq!(cpu.acc, 0x00);
    assert!(cpu.status.contains(CPUStatus::CARRY));
    assert!(cpu.status.contains(CPUStatus::ZERO));
    assert!(!cpu.status.contains(CPUStatus::OVERFLOW));
}

#[test]
fn sbc_borrows_when_carry_clear() {
    let cpu = run_program(vec![0x69, 0x10, 0xE9, 0x01, 0x00]);
    assert_eq!(cpu.acc, 0x0E);
    assert!(cpu.status.contains(CPUStatus::CARRY));
}

#[test]
fn cmp_equal_sets_carry_and_zero() {
    let cpu = run_program(vec![0x69, 0x10, 0xC9, 0x10, 0x00]);
    assert!(cpu.status.contains(CPUStatus::CARRY));
    assert!(cpu.status.contains(CPUStatus::ZERO));
    assert!(!cpu.status.contains(CPUStatus::NEGATIVE));
}

#[test]
fn jmp_indirect_page_wrap() {
    let mut cpu = CPU::with(vec![0x6C, 0xFF, 0x02]);
    cpu.reset().unwrap();
    cpu.mem_write(0x02FF, 0x80).unwrap();
    cpu.mem_write(0x0200, 0x50).unwrap();
    cpu.mem_write(0x0300, 0x77).unwrap();
    assert_eq!(cpu.step(), Ok(5));
    assert_eq!(cpu.pc, 0x5080);
}

#[test]
fn jmp_indirect_within_page() {
    let mut cpu = CPU::with(vec![0x6C, 0x10, 0x02]);
    cpu.reset().unwrap();
    cpu.mem_write_u16(0x0210, 0x1234).unwrap();
    cpu.step().unwrap();
    assert_eq!(cpu.pc, 0x1234);
}

#[test]
fn reset_state() {
    let mut cpu = CPU::with(vec![0xEA]);
    cpu.acc = 5;
    cpu.reset().unwrap();
    assert_eq!(cpu.pc, 0x8000);
    assert_eq!(cpu.sp, 0xFD);
    assert_eq!(cpu.acc, 0);
    assert_eq!(cpu.status.bits(), 0b0010_0100);
}

#[test]
fn step_reports_cycles_and_advances_pc() {
    let mut cpu = CPU::with(vec![0xA9, 0x80, 0xAD, 0x00, 0x03, 0x00]);
    cpu.reset().unwrap();
    assert_eq!(cpu.step(), Ok(2));
    assert_eq!(cpu.pc, 0x8002);
    assert_eq!(cpu.acc, 0x80);
    assert!(cpu.status.contains(CPUStatus::NEGATIVE));
    assert_eq!(cpu.step(), Ok(4));
    assert_eq!(cpu.pc, 0x8005);
    assert!(cpu.status.contains(CPUStatus::ZERO));
}

#[test]
fn unknown_opcode_is_reported() {
    let mut cpu = CPU::with(vec![0x02]);
    cpu.reset().unwrap();
    assert_eq!(cpu.step(), Err(NesError::UnknownOpcode(0x02)));
    assert_eq!(cpu.run(), Err(NesError::UnknownOpcode(0x02)));
}

#[test]
fn brk_pushes_return_address_and_flags() {
    let mut cpu = CPU::with(vec![0x00]);
    cpu.reset().unwrap();
    assert_eq!(cpu.step(), Ok(7));
    assert_eq!(cpu.sp, 0xFA);
    assert_eq!(cpu.mem_read(0x01FD), Ok(0x80));
    assert_eq!(cpu.mem_read(0x01FC), Ok(0x02));
    assert_eq!(cpu.mem_read(0x01FB), Ok(0b0011_0100));
    assert!(cpu.status.contains(CPUStatus::INTERRUPT_DISABLE));
    assert!(!cpu.status.contains(CPUStatus::BREAK));
    assert_eq!(cpu.pc, 0x0000);
}

#[test]
fn jsr_and_rts_round_trip() {
    // JSR $8005; LDX #1; BRK; (at $8005) LDY #2; RTS
    let mut cpu = CPU::with(vec![0x20, 0x06, 0x80, 0xA2, 0x01, 0x00, 0xA0, 0x02, 0x60]);
    assert_eq!(cpu.run(), Ok(true));
    assert_eq!(cpu.rx, 1);
    assert_eq!(cpu.ry, 2);
    assert_eq!(cpu.sp, 0xFD);
    assert_eq!(cpu.pc, 0x8005);
}

#[test]
fn php_plp_and_stack_values() {
    // LDA #$42; PHA; LDA #0; PLA; PHP; PLP
    let mut cpu = CPU::with(vec![0xA9, 0x42, 0x48, 0xA9, 0x00, 0x68, 0x08, 0x28, 0x00]);
    assert_eq!(cpu.run(), Ok(true));
    assert_eq!(cpu.acc, 0x42);
    assert_eq!(cpu.mem_read(0x01FD), Ok(0b0011_0100));
    assert_eq!(cpu.status.bits() & 0b0011_0000, 0b0010_0000);
    assert_eq!(cpu.sp, 0xFD);
}

#[test]
fn store_and_indexed_addressing() {
    // LDX #4; LDA #$99; STA $10,X; LDY $14; INC $14; LDA ($20,X) with ptr at $24
    let mut cpu = CPU::with(vec![
        0xA2, 0x04, 0xA9, 0x99, 0x95, 0x10, 0xA4, 0x14, 0xE6, 0x14, 0xA1, 0x20, 0x00,
    ]);
    cpu.reset().unwrap();
    cpu.mem_write_u16(0x0024, 0x0014).unwrap();
    cpu.interprect().unwrap();
    assert_eq!(cpu.ry, 0x99);
    assert_eq!(cpu.mem_read(0x0014), Ok(0x9A));
    assert_eq!(cpu.acc, 0x9A);
}

#[test]
fn indirect_y_and_zero_page_wrap() {
    let mut cpu = CPU::with(vec![0xB1, 0xFF, 0xB5, 0xF0, 0x00]);
    cpu.reset().unwrap();
    cpu.mem_write(0x00FF, 0x00).unwrap();
    cpu.mem_write(0x0000, 0x03).unwrap();
    cpu.mem_write(0x0305, 0x11).unwrap();
    cpu.mem_write(0x000F, 0x22).unwrap();
    cpu.ry = 5;
    cpu.rx = 0x1F;
    cpu.step().unwrap();
    assert_eq!(cpu.acc, 0x11);
    cpu.step().unwrap();
    assert_eq!(cpu.acc, 0x22);
}

#[test]
fn shifts_and_bit_test() {
    let mut cpu = CPU::with(vec![0x0A, 0x4A, 0x24, 0x10, 0x00]);
    cpu.reset().unwrap();
    cpu.acc = 0x81;
    cpu.mem_write(0x0010, 0xC0).unwrap();
    cpu.step().unwrap();
    assert_eq!(cpu.acc, 0x02);
    assert!(cpu.status.contains(CPUStatus::CARRY));
    cpu.step().unwrap();
    assert_eq!(cpu.acc, 0x01);
    assert!(!cpu.status.contains(CPUStatus::CARRY));
    cpu.step().unwrap();
    assert!(cpu.status.contains(CPUStatus::NEGATIVE));
    assert!(cpu.status.contains(CPUStatus::OVERFLOW));
    assert!(cpu.status.contains(CPUStatus::ZERO));
}

#[test]
fn backward_branch_loop() {
    // LDX #3; DEX; BNE -3; BRK
    let cpu = run_program(vec![0xA2, 0x03, 0xCA, 0xD0, 0xFD, 0x00]);
    assert_eq!(cpu.rx, 0);
    assert!(cpu.status.contains(CPUStatus::ZERO));
}

#[test]
fn writing_rom_is_an_error() {
    let mut cpu = CPU::with(vec![0x8D, 0x00, 0x90, 0x00]);
    cpu.reset().unwrap();
    assert_eq!(cpu.step(), Err(NesError::WriteToROM(0x9000)));
}

#[test]
fn cartridge_parses_header() {
    let raw = ines(1, 1, 0x01, 0x00);
    let c = Cartridge::new(&raw).unwrap();
    assert_eq!(c.prg.len(), 16384);
    assert_eq!(c.chr.len(), 8192);
    assert_eq!(c.prg[5], 5);
    assert_eq!(c.chr[3], 3);
    assert_eq!(c.mapper, 0);
    assert_eq!(c.mirroring_type, MirroringType::Vertical);
}

#[test]
fn cartridge_trainer_mapper_and_four_screen() {
    let raw = ines(2, 1, 0x0C | 0x30, 0x40);
    let c = Cartridge::new(&raw).unwrap();
    assert_eq!(c.prg.len(), 32768);
    assert_eq!(c.prg[0], 0);
    assert_eq!(c.prg[300], (300 % 251) as u8);
    assert_eq!(c.mapper, 0x43);
    assert_eq!(c.mirroring_type, MirroringType::FourScreen);
    let h = Cartridge::new(&ines(1, 1, 0x00, 0x00)).unwrap();
    assert_eq!(h.mirroring_type, MirroringType::Horizontal);
}

#[test]
fn cartridge_errors() {
    let mut bad = ines(1, 1, 0, 0);
    bad[3] = 0x1B;
    assert!(matches!(Cartridge::new(&bad), Err(NesError::InvalidMagic)));
    assert!(matches!(Cartridge::new(&vec![0x4E, 0x45]), Err(NesError::InvalidMagic)));
    assert!(matches!(Cartridge::new(&ines(1, 1, 0, 0x01)), Err(NesError::UnsupportedFormat)));
    assert!(matches!(Cartridge::new(&ines(1, 1, 0, 0x08)), Err(NesError::Unsupported2_0)));
    let mut short = ines(1, 1, 0, 0);
    short.pop();
    assert!(matches!(Cartridge::new(&short), Err(NesError::TruncatedCartridge)));
    assert!(matches!(Cartridge::new(&vec![0x4E, 0x45, 0x53, 0x1A, 1]), Err(NesError::TruncatedCartridge)));
}

fn bus_with(prg_pages: u8) -> Bus {
    Bus::new(Cartridge::new(&ines(prg_pages, 1, 0x00, 0x00)).unwrap())
}

#[test]
fn ram_mirroring() {
    let mut bus = bus_with(1);
    bus.mem_write(0x0801, 0xAB).unwrap();
    assert_eq!(bus.mem_read(0x0001), Ok(0xAB));
    assert_eq!(bus.mem_read(0x1801), Ok(0xAB));
    bus.mem_write_u16(0x07FF, 0x1234).unwrap();
    assert_eq!(bus.mem_read_u16(0x17FF), Ok(0x1234));
}

#[test]
fn prg_mirroring_for_16k() {
    let mut bus = bus_with(1);
    for k in [0u16, 1, 0x1234, 0x3FFF] {
        assert_eq!(bus.mem_read(0x8000 + k), bus.mem_read(0xC000 + k));
    }
    assert_eq!(bus.read_prg_rom(0xC005), 5);
    let mut big = bus_with(2);
    assert_eq!(big.mem_read(0xC000), Ok((16384 % 251) as u8));
}

#[test]
fn bus_access_errors() {
    let mut bus = bus_with(1);
    assert_eq!(bus.mem_read(0x2000), Err(NesError::ReadFromWriteOnly(0x2000)));
    assert_eq!(bus.mem_read(0x2006), Err(NesError::ReadFromWriteOnly(0x2006)));
    assert_eq!(bus.mem_read(0x4014), Err(NesError::ReadFromWriteOnly(0x4014)));
    assert_eq!(bus.mem_write(0x2002, 1), Err(NesError::WriteToReadOnly(0x2002)));
    assert_eq!(bus.mem_write(0x8000, 1), Err(NesError::WriteToROM(0x8000)));
    assert_eq!(bus.mem_read(0x5000), Ok(0));
    assert_eq!(bus.mem_write(0x6000, 1), Ok(()));
}

#[test]
fn ppu_register_mirroring() {
    let mut bus = bus_with(1);
    assert_eq!(bus.mem_read(0x3FF8), Err(NesError::ReadFromWriteOnly(0x2000)));
    bus.mem_write(0x200E, 0x21).unwrap();
    bus.mem_write(0x3FFE, 0x05).unwrap();
    assert_eq!(bus.ppu.address_register.get_address(), 0x2105);
    bus.mem_write(0x2008, 0x80).unwrap();
    assert!(bus.ppu.ctrl_register.get_generate_nmi());
}

#[test]
fn ppu_data_reads_are_buffered() {
    let mut bus = bus_with(1);
    bus.mem_write(0x2006, 0x23).unwrap();
    bus.mem_write(0x2006, 0x05).unwrap();
    bus.mem_write(0x2007, 0x66).unwrap();
    bus.mem_write(0x2007, 0x77).unwrap();
    bus.mem_write(0x2006, 0x23).unwrap();
    bus.mem_write(0x2006, 0x05).unwrap();
    assert_eq!(bus.mem_read(0x2007), Ok(0x00));
    assert_eq!(bus.mem_read(0x2007), Ok(0x66));
    assert_eq!(bus.mem_read(0x2007), Ok(0x77));
}

#[test]
fn ppu_chr_reads_and_increment_32() {
    let mut bus = bus_with(1);
    bus.mem_write(0x2000, 0b0000_0100).unwrap();
    bus.mem_write(0x2006, 0x00).unwrap();
    bus.mem_write(0x2006, 0x03).unwrap();
    assert_eq!(bus.mem_read(0x2007), Ok(0));
    assert_eq!(bus.ppu.address_register.get_address(), 0x0023);
    assert_eq!(bus.mem_read(0x2007), Ok(3));
    assert_eq!(bus.mem_read(0x2007), Ok((0x23 % 241) as u8));
}

#[test]
fn palette_reads_are_immediate_and_mirrored() {
    let mut bus = bus_with(1);
    bus.mem_write(0x2006, 0x3F).unwrap();
    bus.mem_write(0x2006, 0x10).unwrap();
    bus.mem_write(0x2007, 0x2A).unwrap();
    bus.mem_write(0x2006, 0x3F).unwrap();
    bus.mem_write(0x2006, 0x00).unwrap();
    assert_eq!(bus.mem_read(0x2007), Ok(0x2A));
    assert_eq!(bus.ppu.palette[0], 0x2A);
}

#[test]
fn nametable_mirroring() {
    let v = PPU::new(vec![0; 8192], MirroringType::Vertical);
    assert_eq!(v.get_mirror_vram_addr(0x2000), 0x000);
    assert_eq!(v.get_mirror_vram_addr(0x2400), 0x400);
    assert_eq!(v.get_mirror_vram_addr(0x2805), 0x005);
    assert_eq!(v.get_mirror_vram_addr(0x2C10), 0x410);
    let h = PPU::new(vec![0; 8192], MirroringType::Horizontal);
    assert_eq!(h.get_mirror_vram_addr(0x2405), 0x005);
    assert_eq!(h.get_mirror_vram_addr(0x2800), 0x400);
    assert_eq!(h.get_mirror_vram_addr(0x2C01), 0x401);
    assert_eq!(h.get_mirror_vram_addr(0x3000), 0x000);
    let f = PPU::new(vec![0; 8192], MirroringType::FourScreen);
    assert_eq!(f.get_mirror_vram_addr(0x2C01), 0xC01);
}

#[test]
fn nmi_on_vblank() {
    let mut bus = bus_with(1);
    bus.mem_write(0x2000, 0x80).unwrap();
    bus.mem_write(0x2006, 0x21).unwrap();
    for _ in 0..241 {
        bus.ppu.tick(341);
    }
    assert!(bus.ppu.status_register.get_vertical_blank());
    assert!(bus.ppu.should_nmi());
    assert!(!bus.ppu.should_nmi());
    assert_eq!(bus.mem_read(0x2002), Ok(0x80));
    assert!(!bus.ppu.status_register.get_vertical_blank());
    assert_eq!(bus.mem_read(0x2002), Ok(0x00));
    bus.mem_write(0x2006, 0x22).unwrap();
    bus.mem_write(0x2006, 0x33).unwrap();
    assert_eq!(bus.ppu.address_register.get_address(), 0x2233);
}

#[test]
fn no_nmi_when_disabled_and_frame_wrap() {
    let mut ppu = PPU::new(vec![0; 8192], MirroringType::Horizontal);
    ppu.tick(341 * 100);
    ppu.tick(341 * 141 + 5);
    assert!(ppu.status_register.get_vertical_blank());
    assert!(!ppu.should_nmi());
    assert_eq!(ppu.cycles, 5);
    assert_eq!(ppu.scanlines, 241);
    ppu.tick(341 * 21);
    assert_eq!(ppu.scanlines, 0);
    assert!(!ppu.status_register.get_vertical_blank());
}

#[test]
fn tick_keeps_counters_in_range() {
    let mut ppu = PPU::new(vec![0; 8192], MirroringType::Horizontal);
    for _ in 0..10 {
        ppu.tick(65535);
        assert!(ppu.cycles < 341);
        assert!(ppu.scanlines < 262);
    }
}

#[test]
fn cpu_services_nmi() {
    // INX; JMP $8000 loop, NMI vector -> $8010 (absent, so zeros)
    let mut cpu = CPU::with(vec![0xE8, 0x4C, 0x00, 0x80]);
    cpu.reset().unwrap();
    cpu.mem_write(0x2000, 0x80).unwrap();
    let mut total: u32 = 0;
    let mut entered = false;
    for _ in 0..20000 {
        let c = cpu.step().unwrap();
        total += c as u32;
        if c > 7 {
            entered = true;
            break;
        }
    }
    assert!(entered);
    assert!(total * 3 >= 341 * 241);
    assert_eq!(cpu.pc, 0x0000);
    assert!(cpu.status.contains(CPUStatus::INTERRUPT_DISABLE));
    assert_eq!(cpu.mem_read(0x01FB), Ok(0b0010_0100));
}

#[test]
fn register_getters() {
    let mut ctrl = PPUCTRL::new();
    ctrl.update_bits(0b1011_1110);
    assert_eq!(ctrl.get_nametable_address(), 0x2800);
    assert_eq!(ctrl.get_vram_address_increment(), 32);
    assert_eq!(ctrl.get_sprite_pattern_table_address(), 0x1000);
    assert_eq!(ctrl.get_background_pattern_table_address(), 0x1000);
    assert_eq!(ctrl.get_sprite_size(), 16);
    assert!(!ctrl.get_master_slave_select());
    assert!(ctrl.get_generate_nmi());
    let mut mask = PPUMASK::new();
    mask.update_bits(0b0100_1001);
    assert!(mask.get_grey_scale());
    assert!(mask.get_show_background());
    assert!(!mask.get_show_sprites());
    assert!(mask.get_emphasize_green());
    assert!(!mask.get_emphasize_red());
    assert!(!mask.get_emphasize_blue());
    let mut st = PPUSTATUS::new();
    st.set_sprite_overflow(true);
    st.set_vertical_blank(true);
    assert_eq!(st.get_bits(), 0xA0);
    st.reset_vertical_blank();
    assert_eq!(st.get_bits(), 0x20);
}

#[test]
fn opcode_table_entries() {
    let adc = lookup(0x7D).unwrap();
    assert_eq!(adc.name, "ADC");
    assert_eq!(adc.bytes, 3);
    assert_eq!(adc.cycles, 4);
    let count = (0u16..256).filter(|b| lookup(*b as u8).is_some()).count();
    assert_eq!(count, 151);
    assert!(lookup(0xFF).is_none());
}

#[test]
fn flat_memory() {
    let mut m = Memory::new();
    m.write_u16(0xFFFF, 0xBEEF);
    assert_eq!(m.read(0xFFFF), 0xEF);
    assert_eq!(m.read(0x0000), 0xBE);
    assert_eq!(m.read_u16(0xFFFF), 0xBEEF);
    let mut image = vec![0u8; 0x10000];
    image[0x1234] = 9;
    m.load(image);
    assert_eq!(m.read(0x1234), 9);
}

#[test]
fn display_rendering() {
    assert_eq!(byte_to_color(3), (255, 0, 0, 255));
    assert_eq!(byte_to_color(14), (255, 255, 0, 255));
    assert_eq!(byte_to_color(200), (0, 255, 255, 255));
    let mut cpu = CPU::with(vec![]);
    cpu.mem_write(0x0200, 1).unwrap();
    cpu.mem_write(0x05FF, 4).unwrap();
    let frame = render(&cpu);
    assert_eq!(frame.len(), 4096);
    assert_eq!(&frame[0..4], &[255, 255, 255, 255]);
    assert_eq!(&frame[4..8], &[0, 0, 0, 255]);
    assert_eq!(&frame[4092..4096], &[0, 255, 0, 255]);
}

#[test]
fn trace_snapshot() {
    let mut cpu = CPU::with(vec![0xA9, 0x01]);
    cpu.reset().unwrap();
    let t = TraceInfo::new(7, &mut cpu).unwrap();
    assert_eq!(t.frame, 7);
    assert_eq!(t.pc, 0x8000);
    assert_eq!(t.opcode.name, "LDA");
    assert_eq!(t.sp, 0xFD);
    let mut bad = CPU::with(vec![0xFF]);
    bad.reset().unwrap();
    assert!(matches!(TraceInfo::new(0, &mut bad), Err(NesError::UnknownOpcode(0xFF))));
}

#[test]
fn load_program_replaces_rom() {
    let mut cpu = CPU::with(vec![0xA9, 0x01, 0x00]);
    cpu.load_program(vec![0xA9, 0x02, 0x00]);
    assert_eq!(cpu.run(), Ok(true));
    assert_eq!(cpu.acc, 2);
}

#[test]
fn observer_sees_each_instruction() {
    let seen = std::cell::RefCell::new(Vec::new());
    let mut cpu = CPU::with(vec![0xA9, 0x05, 0xAA, 0xE8, 0x00]);
    cpu.reset().unwrap();
    let r = cpu.interprect_with_callback(|c: &CPU| seen.borrow_mut().push((c.pc, c.acc, c.rx)));
    assert_eq!(r, Ok(true));
    assert_eq!(*seen.borrow(), vec![(0x8000, 0, 0), (0x8002, 5, 0), (0x8003, 5, 5), (0x8004, 5, 6)]);
    assert_eq!(cpu.rx, 6);
}

#[test]
fn frame_ready_only_on_vblank_entry() {
    let mut ppu = PPU::new(vec![0; 8192], MirroringType::Vertical);
    for _ in 0..240 {
        ppu.tick(341);
        assert!(!ppu.frame_ready());
    }
    ppu.tick(341);
    assert!(ppu.frame_ready());
    ppu.tick(341);
    assert!(!ppu.frame_ready());
    assert!(ppu.status_register.get_vertical_blank());
}

#[test]
fn branch_helper_leaves_pc_when_not_taken() {
    let mut cpu = CPU::with(vec![0x90, 0x05, 0x00]);
    cpu.reset().unwrap();
    cpu.pc = 0x8001;
    assert_eq!(branch(&mut cpu, false), Ok(()));
    assert_eq!(cpu.pc, 0x8001);
    assert_eq!(branch(&mut cpu, true), Ok(()));
    assert_eq!(cpu.pc, 0x8007);
}

#[test]
fn not_taken_branch_step_skips_operand() {
    let mut cpu = CPU::with(vec![0xB0, 0x05, 0x00]);
    cpu.reset().unwrap();
    assert_eq!(cpu.step(), Ok(2));
    assert_eq!(cpu.pc, 0x8002);
}

#[test]
fn taken_branch_with_offset_back_to_itself() {
    // BCC -2 loops on itself
    let mut cpu = CPU::with(vec![0x90, 0xFE]);
    cpu.reset().unwrap();
    cpu.step().unwrap();
    assert_eq!(cpu.pc, 0x8000);
}

#[test]
fn step_with_observer() {
    let seen = std::cell::RefCell::new(Vec::new());
    let mut cpu = CPU::with(vec![0xA9, 0x07, 0x00]);
    cpu.reset().unwrap();
    let r = cpu.step_with_callback(|c: &CPU| seen.borrow_mut().push((c.pc, c.acc)));
    assert_eq!(r, Ok(2));
    assert_eq!(*seen.borrow(), vec![(0x8000, 0)]);
    assert_eq!(cpu.pc, 0x8002);
    assert_eq!(cpu.acc, 7);
}
