//! The documented 6502 opcodes: mnemonic, length, base cycles, addressing
//! mode and operation of each opcode byte.
use vstd::prelude::*;
use crate::cpu::AddressMode;

verus! {

/// The operation an opcode performs; shifts and rotates of A are told
/// apart from those of memory, and `JMP (ind)` from `JMP abs`.
#[derive(Debug, Clone, Copy, PartialEq, Eq, Structural)]
pub enum Instruction {
    Adc,
    And,
    Asl,
    AslAcc,
    Bcc,
    Bcs,
    Beq,
    Bit,
    Bmi,
    Bne,
    Bpl,
    Brk,
    Bvc,
    Bvs,
    Clc,
    Cld,
    Cli,
    Clv,
    Cmp,
    Cpx,
    Cpy,
    Dec,
    Dex,
    Dey,
    Eor,
    Inc,
    Inx,
    Iny,
    Jmp,
    JmpInd,
    Jsr,
    Lda,
    Ldx,
    Ldy,
    Lsr,
    LsrAcc,
    Nop,
    Ora,
    Pha,
    Php,
    Pla,
    Plp,
    Rol,
    RolAcc,
    Ror,
    RorAcc,
    Rti,
    Rts,
    Sbc,
    Sec,
    Sed,
    Sei,
    Sta,
    Stx,
    Sty,
    Tax,
    Tay,
    Tsx,
    Txa,
    Txs,
    Tya,
}

#[derive(Debug, Clone, Copy, PartialEq, Eq)]
pub struct Opcode {
    pub op: u8,
    pub name: &'static str,
    /// Instruction length, opcode byte included.
    pub bytes: u8,
    /// Base cycle count.
    pub cycles: u8,
    pub mode: AddressMode,
    pub instruction: Instruction,
}

/// The entry for `op`, or `None` for a byte outside the documented set.
pub open spec fn opcode_table(op: u8) -> Option<Opcode> {
    match op {
        0x00 => Some(Opcode { op: 0x00, name: "BRK", bytes: 1, cycles: 7, mode: AddressMode::NoneAddressing, instruction: Instruction::Brk }),
        0x01 => Some(Opcode { op: 0x01, name: "ORA", bytes: 2, cycles: 6, mode: AddressMode::IndirectX, instruction: Instruction::Ora }),
        0x05 => Some(Opcode { op: 0x05, name: "ORA", bytes: 2, cycles: 3, mode: AddressMode::ZeroPage, instruction: Instruction::Ora }),
        0x06 => Some(Opcode { op: 0x06, name: "ASL", bytes: 2, cycles: 5, mode: AddressMode::ZeroPage, instruction: Instruction::Asl }),
        0x08 => Some(Opcode { op: 0x08, name: "PHP", bytes: 1, cycles: 3, mode: AddressMode::NoneAddressing, instruction: Instruction::Php }),
        0x09 => Some(Opcode { op: 0x09, name: "ORA", bytes: 2, cycles: 2, mode: AddressMode::Immediate, instruction: Instruction::Ora }),
        0x0A => Some(Opcode { op: 0x0A, name: "ASL", bytes: 1, cycles: 2, mode: AddressMode::NoneAddressing, instruction: Instruction::AslAcc }),
        0x0D => Some(Opcode { op: 0x0D, name: "ORA", bytes: 3, cycles: 4, mode: AddressMode::Absolute, instruction: Instruction::Ora }),
        0x0E => Some(Opcode { op: 0x0E, name: "ASL", bytes: 3, cycles: 6, mode: AddressMode::Absolute, instruction: Instruction::Asl }),
        0x10 => Some(Opcode { op: 0x10, name: "BPL", bytes: 2, cycles: 2, mode: AddressMode::NoneAddressing, instruction: Instruction::Bpl }),
        0x11 => Some(Opcode { op: 0x11, name: "ORA", bytes: 2, cycles: 5, mode: AddressMode::IndirectY, instruction: Instruction::Ora }),
        0x15 => Some(Opcode { op: 0x15, name: "ORA", bytes: 2, cycles: 4, mode: AddressMode::ZeroPageX, instruction: Instruction::Ora }),
        0x16 => Some(Opcode { op: 0x16, name: "ASL", bytes: 2, cycles: 6, mode: AddressMode::ZeroPageX, instruction: Instruction::Asl }),
        0x18 => Some(Opcode { op: 0x18, name: "CLC", bytes: 1, cycles: 2, mode: AddressMode::NoneAddressing, instruction: Instruction::Clc }),
        0x19 => Some(Opcode { op: 0x19, name: "ORA", bytes: 3, cycles: 4, mode: AddressMode::AbsoluteY, instruction: Instruction::Ora }),
        0x1D => Some(Opcode { op: 0x1D, name: "ORA", bytes: 3, cycles: 4, mode: AddressMode::AbsoluteX, instruction: Instruction::Ora }),
        0x1E => Some(Opcode { op: 0x1E, name: "ASL", bytes: 3, cycles: 7, mode: AddressMode::AbsoluteX, instruction: Instruction::Asl }),
        0x20 => Some(Opcode { op: 0x20, name: "JSR", bytes: 3, cycles: 6, mode: AddressMode::Absolute, instruction: Instruction::Jsr }),
        0x21 => Some(Opcode { op: 0x21, name: "AND", bytes: 2, cycles: 6, mode: AddressMode::IndirectX, instruction: Instruction::And }),
        0x24 => Some(Opcode { op: 0x24, name: "BIT", bytes: 2, cycles: 3, mode: AddressMode::ZeroPage, instruction: Instruction::Bit }),
        0x25 => Some(Opcode { op: 0x25, name: "AND", bytes: 2, cycles: 3, mode: AddressMode::ZeroPage, instruction: Instruction::And }),
        0x26 => Some(Opcode { op: 0x26, name: "ROL", bytes: 2, cycles: 5, mode: AddressMode::ZeroPage, instruction: Instruction::Rol }),
        0x28 => Some(Opcode { op: 0x28, name: "PLP", bytes: 1, cycles: 4, mode: AddressMode::NoneAddressing, instruction: Instruction::Plp }),
        0x29 => Some(Opcode { op: 0x29, name: "AND", bytes: 2, cycles: 2, mode: AddressMode::Immediate, instruction: Instruction::And }),
        0x2A => Some(Opcode { op: 0x2A, name: "ROL", bytes: 1, cycles: 2, mode: AddressMode::NoneAddressing, instruction: Instruction::RolAcc }),
        0x2C => Some(Opcode { op: 0x2C, name: "BIT", bytes: 3, cycles: 4, mode: AddressMode::Absolute, instruction: Instruction::Bit }),
        0x2D => Some(Opcode { op: 0x2D, name: "AND", bytes: 3, cycles: 4, mode: AddressMode::Absolute, instruction: Instruction::And }),
        0x2E => Some(Opcode { op: 0x2E, name: "ROL", bytes: 3, cycles: 6, mode: AddressMode::Absolute, instruction: Instruction::Rol }),
        0x30 => Some(Opcode { op: 0x30, name: "BMI", bytes: 2, cycles: 2, mode: AddressMode::NoneAddressing, instruction: Instruction::Bmi }),
        0x31 => Some(Opcode { op: 0x31, name: "AND", bytes: 2, cycles: 5, mode: AddressMode::IndirectY, instruction: Instruction::And }),
        0x35 => Some(Opcode { op: 0x35, name: "AND", bytes: 2, cycles: 4, mode: AddressMode::ZeroPageX, instruction: Instruction::And }),
        0x36 => Some(Opcode { op: 0x36, name: "ROL", bytes: 2, cycles: 6, mode: AddressMode::ZeroPageX, instruction: Instruction::Rol }),
        0x38 => Some(Opcode { op: 0x38, name: "SEC", bytes: 1, cycles: 2, mode: AddressMode::NoneAddressing, instruction: Instruction::Sec }),
        0x39 => Some(Opcode { op: 0x39, name: "AND", bytes: 3, cycles: 4, mode: AddressMode::AbsoluteY, instruction: Instruction::And }),
        0x3D => Some(Opcode { op: 0x3D, name: "AND", bytes: 3, cycles: 4, mode: AddressMode::AbsoluteX, instruction: Instruction::And }),
        0x3E => Some(Opcode { op: 0x3E, name: "ROL", bytes: 3, cycles: 7, mode: AddressMode::AbsoluteX, instruction: Instruction::Rol }),
        0x40 => Some(Opcode { op: 0x40, name: "RTI", bytes: 1, cycles: 6, mode: AddressMode::NoneAddressing, instruction: Instruction::Rti }),
        0x41 => Some(Opcode { op: 0x41, name: "EOR", bytes: 2, cycles: 6, mode: AddressMode::IndirectX, instruction: Instruction::Eor }),
        0x45 => Some(Opcode { op: 0x45, name: "EOR", bytes: 2, cycles: 3, mode: AddressMode::ZeroPage, instruction: Instruction::Eor }),
        0x46 => Some(Opcode { op: 0x46, name: "LSR", bytes: 2, cycles: 5, mode: AddressMode::ZeroPage, instruction: Instruction::Lsr }),
        0x48 => Some(Opcode { op: 0x48, name: "PHA", bytes: 1, cycles: 3, mode: AddressMode::NoneAddressing, instruction: Instruction::Pha }),
        0x49 => Some(Opcode { op: 0x49, name: "EOR", bytes: 2, cycles: 2, mode: AddressMode::Immediate, instruction: Instruction::Eor }),
        0x4A => Some(Opcode { op: 0x4A, name: "LSR", bytes: 1, cycles: 2, mode: AddressMode::NoneAddressing, instruction: Instruction::LsrAcc }),
        0x4C => Some(Opcode { op: 0x4C, name: "JMP", bytes: 3, cycles: 3, mode: AddressMode::Absolute, instruction: Instruction::Jmp }),
        0x4D => Some(Opcode { op: 0x4D, name: "EOR", bytes: 3, cycles: 4, mode: AddressMode::Absolute, instruction: Instruction::Eor }),
        0x4E => Some(Opcode { op: 0x4E, name: "LSR", bytes: 3, cycles: 6, mode: AddressMode::Absolute, instruction: Instruction::Lsr }),
        0x50 => Some(Opcode { op: 0x50, name: "BVC", bytes: 2, cycles: 2, mode: AddressMode::NoneAddressing, instruction: Instruction::Bvc }),
        0x51 => Some(Opcode { op: 0x51, name: "EOR", bytes: 2, cycles: 5, mode: AddressMode::IndirectY, instruction: Instruction::Eor }),
        0x55 => Some(Opcode { op: 0x55, name: "EOR", bytes: 2, cycles: 4, mode: AddressMode::ZeroPageX, instruction: Instruction::Eor }),
        0x56 => Some(Opcode { op: 0x56, name: "LSR", bytes: 2, cycles: 6, mode: AddressMode::ZeroPageX, instruction: Instruction::Lsr }),
        0x58 => Some(Opcode { op: 0x58, name: "CLI", bytes: 1, cycles: 2, mode: AddressMode::NoneAddressing, instruction: Instruction::Cli }),
        0x59 => Some(Opcode { op: 0x59, name: "EOR", bytes: 3, cycles: 4, mode: AddressMode::AbsoluteY, instruction: Instruction::Eor }),
        0x5D => Some(Opcode { op: 0x5D, name: "EOR", bytes: 3, cycles: 4, mode: AddressMode::AbsoluteX, instruction: Instruction::Eor }),
        0x5E => Some(Opcode { op: 0x5E, name: "LSR", bytes: 3, cycles: 7, mode: AddressMode::AbsoluteX, instruction: Instruction::Lsr }),
        0x60 => Some(Opcode { op: 0x60, name: "RTS", bytes: 1, cycles: 6, mode: AddressMode::NoneAddressing, instruction: Instruction::Rts }),
        0x61 => Some(Opcode { op: 0x61, name: "ADC", bytes: 2, cycles: 6, mode: AddressMode::IndirectX, instruction: Instruction::Adc }),
        0x65 => Some(Opcode { op: 0x65, name: "ADC", bytes: 2, cycles: 3, mode: AddressMode::ZeroPage, instruction: Instruction::Adc }),
        0x66 => Some(Opcode { op: 0x66, name: "ROR", bytes: 2, cycles: 5, mode: AddressMode::ZeroPage, instruction: Instruction::Ror }),
        0x68 => Some(Opcode { op: 0x68, name: "PLA", bytes: 1, cycles: 4, mode: AddressMode::NoneAddressing, instruction: Instruction::Pla }),
        0x69 => Some(Opcode { op: 0x69, name: "ADC", bytes: 2, cycles: 2, mode: AddressMode::Immediate, instruction: Instruction::Adc }),
        0x6A => Some(Opcode { op: 0x6A, name: "ROR", bytes: 1, cycles: 2, mode: AddressMode::NoneAddressing, instruction: Instruction::RorAcc }),
        0x6C => Some(Opcode { op: 0x6C, name: "JMP", bytes: 3, cycles: 5, mode: AddressMode::NoneAddressing, instruction: Instruction::JmpInd }),
        0x6D => Some(Opcode { op: 0x6D, name: "ADC", bytes: 3, cycles: 4, mode: AddressMode::Absolute, instruction: Instruction::Adc }),
        0x6E => Some(Opcode { op: 0x6E, name: "ROR", bytes: 3, cycles: 6, mode: AddressMode::Absolute, instruction: Instruction::Ror }),
        0x70 => Some(Opcode { op: 0x70, name: "BVS", bytes: 2, cycles: 2, mode: AddressMode::NoneAddressing, instruction: Instruction::Bvs }),
        0x71 => Some(Opcode { op: 0x71, name: "ADC", bytes: 2, cycles: 5, mode: AddressMode::IndirectY, instruction: Instruction::Adc }),
        0x75 => Some(Opcode { op: 0x75, name: "ADC", bytes: 2, cycles: 4, mode: AddressMode::ZeroPageX, instruction: Instruction::Adc }),
        0x76 => Some(Opcode { op: 0x76, name: "ROR", bytes: 2, cycles: 6, mode: AddressMode::ZeroPageX, instruction: Instruction::Ror }),
        0x78 => Some(Opcode { op: 0x78, name: "SEI", bytes: 1, cycles: 2, mode: AddressMode::NoneAddressing, instruction: Instruction::Sei }),
        0x79 => Some(Opcode { op: 0x79, name: "ADC", bytes: 3, cycles: 4, mode: AddressMode::AbsoluteY, instruction: Instruction::Adc }),
        0x7D => Some(Opcode { op: 0x7D, name: "ADC", bytes: 3, cycles: 4, mode: AddressMode::AbsoluteX, instruction: Instruction::Adc }),
        0x7E => Some(Opcode { op: 0x7E, name: "ROR", bytes: 3, cycles: 7, mode: AddressMode::AbsoluteX, instruction: Instruction::Ror }),
        0x81 => Some(Opcode { op: 0x81, name: "STA", bytes: 2, cycles: 6, mode: AddressMode::IndirectX, instruction: Instruction::Sta }),
        0x84 => Some(Opcode { op: 0x84, name: "STY", bytes: 2, cycles: 3, mode: AddressMode::ZeroPage, instruction: Instruction::Sty }),
        0x85 => Some(Opcode { op: 0x85, name: "STA", bytes: 2, cycles: 3, mode: AddressMode::ZeroPage, instruction: Instruction::Sta }),
        0x86 => Some(Opcode { op: 0x86, name: "STX", bytes: 2, cycles: 3, mode: AddressMode::ZeroPage, instruction: Instruction::Stx }),
        0x88 => Some(Opcode { op: 0x88, name: "DEY", bytes: 1, cycles: 2, mode: AddressMode::NoneAddressing, instruction: Instruction::Dey }),
        0x8A => Some(Opcode { op: 0x8A, name: "TXA", bytes: 1, cycles: 2, mode: AddressMode::NoneAddressing, instruction: Instruction::Txa }),
        0x8C => Some(Opcode { op: 0x8C, name: "STY", bytes: 3, cycles: 4, mode: AddressMode::Absolute, instruction: Instruction::Sty }),
        0x8D => Some(Opcode { op: 0x8D, name: "STA", bytes: 3, cycles: 4, mode: AddressMode::Absolute, instruction: Instruction::Sta }),
        0x8E => Some(Opcode { op: 0x8E, name: "STX", bytes: 3, cycles: 4, mode: AddressMode::Absolute, instruction: Instruction::Stx }),
        0x90 => Some(Opcode { op: 0x90, name: "BCC", bytes: 2, cycles: 2, mode: AddressMode::NoneAddressing, instruction: Instruction::Bcc }),
        0x91 => Some(Opcode { op: 0x91, name: "STA", bytes: 2, cycles: 6, mode: AddressMode::IndirectY, instruction: Instruction::Sta }),
        0x94 => Some(Opcode { op: 0x94, name: "STY", bytes: 2, cycles: 4, mode: AddressMode::ZeroPageX, instruction: Instruction::Sty }),
        0x95 => Some(Opcode { op: 0x95, name: "STA", bytes: 2, cycles: 4, mode: AddressMode::ZeroPageX, instruction: Instruction::Sta }),
        0x96 => Some(Opcode { op: 0x96, name: "STX", bytes: 2, cycles: 4, mode: AddressMode::ZeroPageY, instruction: Instruction::Stx }),
        0x98 => Some(Opcode { op: 0x98, name: "TYA", bytes: 1, cycles: 2, mode: AddressMode::NoneAddressing, instruction: Instruction::Tya }),
        0x99 => Some(Opcode { op: 0x99, name: "STA", bytes: 3, cycles: 5, mode: AddressMode::AbsoluteY, instruction: Instruction::Sta }),
        0x9A => Some(Opcode { op: 0x9A, name: "TXS", bytes: 1, cycles: 2, mode: AddressMode::NoneAddressing, instruction: Instruction::Txs }),
        0x9D => Some(Opcode { op: 0x9D, name: "STA", bytes: 3, cycles: 5, mode: AddressMode::AbsoluteX, instruction: Instruction::Sta }),
        0xA0 => Some(Opcode { op: 0xA0, name: "LDY", bytes: 2, cycles: 2, mode: AddressMode::Immediate, instruction: Instruction::Ldy }),
        0xA1 => Some(Opcode { op: 0xA1, name: "LDA", bytes: 2, cycles: 6, mode: AddressMode::IndirectX, instruction: Instruction::Lda }),
        0xA2 => Some(Opcode { op: 0xA2, name: "LDX", bytes: 2, cycles: 2, mode: AddressMode::Immediate, instruction: Instruction::Ldx }),
        0xA4 => Some(Opcode { op: 0xA4, name: "LDY", bytes: 2, cycles: 3, mode: AddressMode::ZeroPage, instruction: Instruction::Ldy }),
        0xA5 => Some(Opcode { op: 0xA5, name: "LDA", bytes: 2, cycles: 3, mode: AddressMode::ZeroPage, instruction: Instruction::Lda }),
        0xA6 => Some(Opcode { op: 0xA6, name: "LDX", bytes: 2, cycles: 3, mode: AddressMode::ZeroPage, instruction: Instruction::Ldx }),
        0xA8 => Some(Opcode { op: 0xA8, name: "TAY", bytes: 1, cycles: 2, mode: AddressMode::NoneAddressing, instruction: Instruction::Tay }),
        0xA9 => Some(Opcode { op: 0xA9, name: "LDA", bytes: 2, cycles: 2, mode: AddressMode::Immediate, instruction: Instruction::Lda }),
        0xAA => Some(Opcode { op: 0xAA, name: "TAX", bytes: 1, cycles: 2, mode: AddressMode::NoneAddressing, instruction: Instruction::Tax }),
        0xAC => Some(Opcode { op: 0xAC, name: "LDY", bytes: 3, cycles: 4, mode: AddressMode::Absolute, instruction: Instruction::Ldy }),
        0xAD => Some(Opcode { op: 0xAD, name: "LDA", bytes: 3, cycles: 4, mode: AddressMode::Absolute, instruction: Instruction::Lda }),
        0xAE => Some(Opcode { op: 0xAE, name: "LDX", bytes: 3, cycles: 4, mode: AddressMode::Absolute, instruction: Instruction::Ldx }),
        0xB0 => Some(Opcode { op: 0xB0, name: "BCS", bytes: 2, cycles: 2, mode: AddressMode::NoneAddressing, instruction: Instruction::Bcs }),
        0xB1 => Some(Opcode { op: 0xB1, name: "LDA", bytes: 2, cycles: 5, mode: AddressMode::IndirectY, instruction: Instruction::Lda }),
        0xB4 => Some(Opcode { op: 0xB4, name: "LDY", bytes: 2, cycles: 4, mode: AddressMode::ZeroPageX, instruction: Instruction::Ldy }),
        0xB5 => Some(Opcode { op: 0xB5, name: "LDA", bytes: 2, cycles: 4, mode: AddressMode::ZeroPageX, instruction: Instruction::Lda }),
        0xB6 => Some(Opcode { op: 0xB6, name: "LDX", bytes: 2, cycles: 4, mode: AddressMode::ZeroPageY, instruction: Instruction::Ldx }),
        0xB8 => Some(Opcode { op: 0xB8, name: "CLV", bytes: 1, cycles: 2, mode: AddressMode::NoneAddressing, instruction: Instruction::Clv }),
        0xB9 => Some(Opcode { op: 0xB9, name: "LDA", bytes: 3, cycles: 4, mode: AddressMode::AbsoluteY, instruction: Instruction::Lda }),
        0xBA => Some(Opcode { op: 0xBA, name: "TSX", bytes: 1, cycles: 2, mode: AddressMode::NoneAddressing, instruction: Instruction::Tsx }),
        0xBC => Some(Opcode { op: 0xBC, name: "LDY", bytes: 3, cycles: 4, mode: AddressMode::AbsoluteX, instruction: Instruction::Ldy }),
        0xBD => Some(Opcode { op: 0xBD, name: "LDA", bytes: 3, cycles: 4, mode: AddressMode::AbsoluteX, instruction: Instruction::Lda }),
        0xBE => Some(Opcode { op: 0xBE, name: "LDX", bytes: 3, cycles: 4, mode: AddressMode::AbsoluteY, instruction: Instruction::Ldx }),
        0xC0 => Some(Opcode { op: 0xC0, name: "CPY", bytes: 2, cycles: 2, mode: AddressMode::Immediate, instruction: Instruction::Cpy }),
        0xC1 => Some(Opcode { op: 0xC1, name: "CMP", bytes: 2, cycles: 6, mode: AddressMode::IndirectX, instruction: Instruction::Cmp }),
        0xC4 => Some(Opcode { op: 0xC4, name: "CPY", bytes: 2, cycles: 3, mode: AddressMode::ZeroPage, instruction: Instruction::Cpy }),
        0xC5 => Some(Opcode { op: 0xC5, name: "CMP", bytes: 2, cycles: 3, mode: AddressMode::ZeroPage, instruction: Instruction::Cmp }),
        0xC6 => Some(Opcode { op: 0xC6, name: "DEC", bytes: 2, cycles: 5, mode: AddressMode::ZeroPage, instruction: Instruction::Dec }),
        0xC8 => Some(Opcode { op: 0xC8, name: "INY", bytes: 1, cycles: 2, mode: AddressMode::NoneAddressing, instruction: Instruction::Iny }),
        0xC9 => Some(Opcode { op: 0xC9, name: "CMP", bytes: 2, cycles: 2, mode: AddressMode::Immediate, instruction: Instruction::Cmp }),
        0xCA => Some(Opcode { op: 0xCA, name: "DEX", bytes: 1, cycles: 2, mode: AddressMode::NoneAddressing, instruction: Instruction::Dex }),
        0xCC => Some(Opcode { op: 0xCC, name: "CPY", bytes: 3, cycles: 4, mode: AddressMode::Absolute, instruction: Instruction::Cpy }),
        0xCD => Some(Opcode { op: 0xCD, name: "CMP", bytes: 3, cycles: 4, mode: AddressMode::Absolute, instruction: Instruction::Cmp }),
        0xCE => Some(Opcode { op: 0xCE, name: "DEC", bytes: 3, cycles: 6, mode: AddressMode::Absolute, instruction: Instruction::Dec }),
        0xD0 => Some(Opcode { op: 0xD0, name: "BNE", bytes: 2, cycles: 2, mode: AddressMode::NoneAddressing, instruction: Instruction::Bne }),
        0xD1 => Some(Opcode { op: 0xD1, name: "CMP", bytes: 2, cycles: 5, mode: AddressMode::IndirectY, instruction: Instruction::Cmp }),
        0xD5 => Some(Opcode { op: 0xD5, name: "CMP", bytes: 2, cycles: 4, mode: AddressMode::ZeroPageX, instruction: Instruction::Cmp }),
        0xD6 => Some(Opcode { op: 0xD6, name: "DEC", bytes: 2, cycles: 6, mode: AddressMode::ZeroPageX, instruction: Instruction::Dec }),
        0xD8 => Some(Opcode { op: 0xD8, name: "CLD", bytes: 1, cycles: 2, mode: AddressMode::NoneAddressing, instruction: Instruction::Cld }),
        0xD9 => Some(Opcode { op: 0xD9, name: "CMP", bytes: 3, cycles: 4, mode: AddressMode::AbsoluteY, instruction: Instruction::Cmp }),
        0xDD => Some(Opcode { op: 0xDD, name: "CMP", bytes: 3, cycles: 4, mode: AddressMode::AbsoluteX, instruction: Instruction::Cmp }),
        0xDE => Some(Opcode { op: 0xDE, name: "DEC", bytes: 3, cycles: 7, mode: AddressMode::AbsoluteX, instruction: Instruction::Dec }),
        0xE0 => Some(Opcode { op: 0xE0, name: "CPX", bytes: 2, cycles: 2, mode: AddressMode::Immediate, instruction: Instruction::Cpx }),
        0xE1 => Some(Opcode { op: 0xE1, name: "SBC", bytes: 2, cycles: 6, mode: AddressMode::IndirectX, instruction: Instruction::Sbc }),
        0xE4 => Some(Opcode { op: 0xE4, name: "CPX", bytes: 2, cycles: 3, mode: AddressMode::ZeroPage, instruction: Instruction::Cpx }),
        0xE5 => Some(Opcode { op: 0xE5, name: "SBC", bytes: 2, cycles: 3, mode: AddressMode::ZeroPage, instruction: Instruction::Sbc }),
        0xE6 => Some(Opcode { op: 0xE6, name: "INC", bytes: 2, cycles: 5, mode: AddressMode::ZeroPage, instruction: Instruction::Inc }),
        0xE8 => Some(Opcode { op: 0xE8, name: "INX", bytes: 1, cycles: 2, mode: AddressMode::NoneAddressing, instruction: Instruction::Inx }),
        0xE9 => Some(Opcode { op: 0xE9, name: "SBC", bytes: 2, cycles: 2, mode: AddressMode::Immediate, instruction: Instruction::Sbc }),
        0xEA => Some(Opcode { op: 0xEA, name: "NOP", bytes: 1, cycles: 2, mode: AddressMode::NoneAddressing, instruction: Instruction::Nop }),
        0xEC => Some(Opcode { op: 0xEC, name: "CPX", bytes: 3, cycles: 4, mode: AddressMode::Absolute, instruction: Instruction::Cpx }),
        0xED => Some(Opcode { op: 0xED, name: "SBC", bytes: 3, cycles: 4, mode: AddressMode::Absolute, instruction: Instruction::Sbc }),
        0xEE => Some(Opcode { op: 0xEE, name: "INC", bytes: 3, cycles: 6, mode: AddressMode::Absolute, instruction: Instruction::Inc }),
        0xF0 => Some(Opcode { op: 0xF0, name: "BEQ", bytes: 2, cycles: 2, mode: AddressMode::NoneAddressing, instruction: Instruction::Beq }),
        0xF1 => Some(Opcode { op: 0xF1, name: "SBC", bytes: 2, cycles: 5, mode: AddressMode::IndirectY, instruction: Instruction::Sbc }),
        0xF5 => Some(Opcode { op: 0xF5, name: "SBC", bytes: 2, cycles: 4, mode: AddressMode::ZeroPageX, instruction: Instruction::Sbc }),
        0xF6 => Some(Opcode { op: 0xF6, name: "INC", bytes: 2, cycles: 6, mode: AddressMode::ZeroPageX, instruction: Instruction::Inc }),
        0xF8 => Some(Opcode { op: 0xF8, name: "SED", bytes: 1, cycles: 2, mode: AddressMode::NoneAddressing, instruction: Instruction::Sed }),
        0xF9 => Some(Opcode { op: 0xF9, name: "SBC", bytes: 3, cycles: 4, mode: AddressMode::AbsoluteY, instruction: Instruction::Sbc }),
        0xFD => Some(Opcode { op: 0xFD, name: "SBC", bytes: 3, cycles: 4, mode: AddressMode::AbsoluteX, instruction: Instruction::Sbc }),
        0xFE => Some(Opcode { op: 0xFE, name: "INC", bytes: 3, cycles: 7, mode: AddressMode::AbsoluteX, instruction: Instruction::Inc }),
        _ => None,
    }
}

/// Looks `op` up in the opcode table.
pub fn lookup(op: u8) -> (r: Option<Opcode>)
    ensures
        r == opcode_table(op),
{
    match op {
        0x00 => Some(Opcode { op: 0x00, name: "BRK", bytes: 1, cycles: 7, mode: AddressMode::NoneAddressing, instruction: Instruction::Brk }),
        0x01 => Some(Opcode { op: 0x01, name: "ORA", bytes: 2, cycles: 6, mode: AddressMode::IndirectX, instruction: Instruction::Ora }),
        0x05 => Some(Opcode { op: 0x05, name: "ORA", bytes: 2, cycles: 3, mode: AddressMode::ZeroPage, instruction: Instruction::Ora }),
        0x06 => Some(Opcode { op: 0x06, name: "ASL", bytes: 2, cycles: 5, mode: AddressMode::ZeroPage, instruction: Instruction::Asl }),
        0x08 => Some(Opcode { op: 0x08, name: "PHP", bytes: 1, cycles: 3, mode: AddressMode::NoneAddressing, instruction: Instruction::Php }),
        0x09 => Some(Opcode { op: 0x09, name: "ORA", bytes: 2, cycles: 2, mode: AddressMode::Immediate, instruction: Instruction::Ora }),
        0x0A => Some(Opcode { op: 0x0A, name: "ASL", bytes: 1, cycles: 2, mode: AddressMode::NoneAddressing, instruction: Instruction::AslAcc }),
        0x0D => Some(Opcode { op: 0x0D, name: "ORA", bytes: 3, cycles: 4, mode: AddressMode::Absolute, instruction: Instruction::Ora }),
        0x0E => Some(Opcode { op: 0x0E, name: "ASL", bytes: 3, cycles: 6, mode: AddressMode::Absolute, instruction: Instruction::Asl }),
        0x10 => Some(Opcode { op: 0x10, name: "BPL", bytes: 2, cycles: 2, mode: AddressMode::NoneAddressing, instruction: Instruction::Bpl }),
        0x11 => Some(Opcode { op: 0x11, name: "ORA", bytes: 2, cycles: 5, mode: AddressMode::IndirectY, instruction: Instruction::Ora }),
        0x15 => Some(Opcode { op: 0x15, name: "ORA", bytes: 2, cycles: 4, mode: AddressMode::ZeroPageX, instruction: Instruction::Ora }),
        0x16 => Some(Opcode { op: 0x16, name: "ASL", bytes: 2, cycles: 6, mode: AddressMode::ZeroPageX, instruction: Instruction::Asl }),
        0x18 => Some(Opcode { op: 0x18, name: "CLC", bytes: 1, cycles: 2, mode: AddressMode::NoneAddressing, instruction: Instruction::Clc }),
        0x19 => Some(Opcode { op: 0x19, name: "ORA", bytes: 3, cycles: 4, mode: AddressMode::AbsoluteY, instruction: Instruction::Ora }),
        0x1D => Some(Opcode { op: 0x1D, name: "ORA", bytes: 3, cycles: 4, mode: AddressMode::AbsoluteX, instruction: Instruction::Ora }),
        0x1E => Some(Opcode { op: 0x1E, name: "ASL", bytes: 3, cycles: 7, mode: AddressMode::AbsoluteX, instruction: Instruction::Asl }),
        0x20 => Some(Opcode { op: 0x20, name: "JSR", bytes: 3, cycles: 6, mode: AddressMode::Absolute, instruction: Instruction::Jsr }),
        0x21 => Some(Opcode { op: 0x21, name: "AND", bytes: 2, cycles: 6, mode: AddressMode::IndirectX, instruction: Instruction::And }),
        0x24 => Some(Opcode { op: 0x24, name: "BIT", bytes: 2, cycles: 3, mode: AddressMode::ZeroPage, instruction: Instruction::Bit }),
        0x25 => Some(Opcode { op: 0x25, name: "AND", bytes: 2, cycles: 3, mode: AddressMode::ZeroPage, instruction: Instruction::And }),
        0x26 => Some(Opcode { op: 0x26, name: "ROL", bytes: 2, cycles: 5, mode: AddressMode::ZeroPage, instruction: Instruction::Rol }),
        0x28 => Some(Opcode { op: 0x28, name: "PLP", bytes: 1, cycles: 4, mode: AddressMode::NoneAddressing, instruction: Instruction::Plp }),
        0x29 => Some(Opcode { op: 0x29, name: "AND", bytes: 2, cycles: 2, mode: AddressMode::Immediate, instruction: Instruction::And }),
        0x2A => Some(Opcode { op: 0x2A, name: "ROL", bytes: 1, cycles: 2, mode: AddressMode::NoneAddressing, instruction: Instruction::RolAcc }),
        0x2C => Some(Opcode { op: 0x2C, name: "BIT", bytes: 3, cycles: 4, mode: AddressMode::Absolute, instruction: Instruction::Bit }),
        0x2D => Some(Opcode { op: 0x2D, name: "AND", bytes: 3, cycles: 4, mode: AddressMode::Absolute, instruction: Instruction::And }),
        0x2E => Some(Opcode { op: 0x2E, name: "ROL", bytes: 3, cycles: 6, mode: AddressMode::Absolute, instruction: Instruction::Rol }),
        0x30 => Some(Opcode { op: 0x30, name: "BMI", bytes: 2, cycles: 2, mode: AddressMode::NoneAddressing, instruction: Instruction::Bmi }),
        0x31 => Some(Opcode { op: 0x31, name: "AND", bytes: 2, cycles: 5, mode: AddressMode::IndirectY, instruction: Instruction::And }),
        0x35 => Some(Opcode { op: 0x35, name: "AND", bytes: 2, cycles: 4, mode: AddressMode::ZeroPageX, instruction: Instruction::And }),
        0x36 => Some(Opcode { op: 0x36, name: "ROL", bytes: 2, cycles: 6, mode: AddressMode::ZeroPageX, instruction: Instruction::Rol }),
        0x38 => Some(Opcode { op: 0x38, name: "SEC", bytes: 1, cycles: 2, mode: AddressMode::NoneAddressing, instruction: Instruction::Sec }),
        0x39 => Some(Opcode { op: 0x39, name: "AND", bytes: 3, cycles: 4, mode: AddressMode::AbsoluteY, instruction: Instruction::And }),
        0x3D => Some(Opcode { op: 0x3D, name: "AND", bytes: 3, cycles: 4, mode: AddressMode::AbsoluteX, instruction: Instruction::And }),
        0x3E => Some(Opcode { op: 0x3E, name: "ROL", bytes: 3, cycles: 7, mode: AddressMode::AbsoluteX, instruction: Instruction::Rol }),
        0x40 => Some(Opcode { op: 0x40, name: "RTI", bytes: 1, cycles: 6, mode: AddressMode::NoneAddressing, instruction: Instruction::Rti }),
        0x41 => Some(Opcode { op: 0x41, name: "EOR", bytes: 2, cycles: 6, mode: AddressMode::IndirectX, instruction: Instruction::Eor }),
        0x45 => Some(Opcode { op: 0x45, name: "EOR", bytes: 2, cycles: 3, mode: AddressMode::ZeroPage, instruction: Instruction::Eor }),
        0x46 => Some(Opcode { op: 0x46, name: "LSR", bytes: 2, cycles: 5, mode: AddressMode::ZeroPage, instruction: Instruction::Lsr }),
        0x48 => Some(Opcode { op: 0x48, name: "PHA", bytes: 1, cycles: 3, mode: AddressMode::NoneAddressing, instruction: Instruction::Pha }),
        0x49 => Some(Opcode { op: 0x49, name: "EOR", bytes: 2, cycles: 2, mode: AddressMode::Immediate, instruction: Instruction::Eor }),
        0x4A => Some(Opcode { op: 0x4A, name: "LSR", bytes: 1, cycles: 2, mode: AddressMode::NoneAddressing, instruction: Instruction::LsrAcc }),
        0x4C => Some(Opcode { op: 0x4C, name: "JMP", bytes: 3, cycles: 3, mode: AddressMode::Absolute, instruction: Instruction::Jmp }),
        0x4D => Some(Opcode { op: 0x4D, name: "EOR", bytes: 3, cycles: 4, mode: AddressMode::Absolute, instruction: Instruction::Eor }),
        0x4E => Some(Opcode { op: 0x4E, name: "LSR", bytes: 3, cycles: 6, mode: AddressMode::Absolute, instruction: Instruction::Lsr }),
        0x50 => Some(Opcode { op: 0x50, name: "BVC", bytes: 2, cycles: 2, mode: AddressMode::NoneAddressing, instruction: Instruction::Bvc }),
        0x51 => Some(Opcode { op: 0x51, name: "EOR", bytes: 2, cycles: 5, mode: AddressMode::IndirectY, instruction: Instruction::Eor }),
        0x55 => Some(Opcode { op: 0x55, name: "EOR", bytes: 2, cycles: 4, mode: AddressMode::ZeroPageX, instruction: Instruction::Eor }),
        0x56 => Some(Opcode { op: 0x56, name: "LSR", bytes: 2, cycles: 6, mode: AddressMode::ZeroPageX, instruction: Instruction::Lsr }),
        0x58 => Some(Opcode { op: 0x58, name: "CLI", bytes: 1, cycles: 2, mode: AddressMode::NoneAddressing, instruction: Instruction::Cli }),
        0x59 => Some(Opcode { op: 0x59, name: "EOR", bytes: 3, cycles: 4, mode: AddressMode::AbsoluteY, instruction: Instruction::Eor }),
        0x5D => Some(Opcode { op: 0x5D, name: "EOR", bytes: 3, cycles: 4, mode: AddressMode::AbsoluteX, instruction: Instruction::Eor }),
        0x5E => Some(Opcode { op: 0x5E, name: "LSR", bytes: 3, cycles: 7, mode: AddressMode::AbsoluteX, instruction: Instruction::Lsr }),
        0x60 => Some(Opcode { op: 0x60, name: "RTS", bytes: 1, cycles: 6, mode: AddressMode::NoneAddressing, instruction: Instruction::Rts }),
        0x61 => Some(Opcode { op: 0x61, name: "ADC", bytes: 2, cycles: 6, mode: AddressMode::IndirectX, instruction: Instruction::Adc }),
        0x65 => Some(Opcode { op: 0x65, name: "ADC", bytes: 2, cycles: 3, mode: AddressMode::ZeroPage, instruction: Instruction::Adc }),
        0x66 => Some(Opcode { op: 0x66, name: "ROR", bytes: 2, cycles: 5, mode: AddressMode::ZeroPage, instruction: Instruction::Ror }),
        0x68 => Some(Opcode { op: 0x68, name: "PLA", bytes: 1, cycles: 4, mode: AddressMode::NoneAddressing, instruction: Instruction::Pla }),
        0x69 => Some(Opcode { op: 0x69, name: "ADC", bytes: 2, cycles: 2, mode: AddressMode::Immediate, instruction: Instruction::Adc }),
        0x6A => Some(Opcode { op: 0x6A, name: "ROR", bytes: 1, cycles: 2, mode: AddressMode::NoneAddressing, instruction: Instruction::RorAcc }),
        0x6C => Some(Opcode { op: 0x6C, name: "JMP", bytes: 3, cycles: 5, mode: AddressMode::NoneAddressing, instruction: Instruction::JmpInd }),
        0x6D => Some(Opcode { op: 0x6D, name: "ADC", bytes: 3, cycles: 4, mode: AddressMode::Absolute, instruction: Instruction::Adc }),
        0x6E => Some(Opcode { op: 0x6E, name: "ROR", bytes: 3, cycles: 6, mode: AddressMode::Absolute, instruction: Instruction::Ror }),
        0x70 => Some(Opcode { op: 0x70, name: "BVS", bytes: 2, cycles: 2, mode: AddressMode::NoneAddressing, instruction: Instruction::Bvs }),
        0x71 => Some(Opcode { op: 0x71, name: "ADC", bytes: 2, cycles: 5, mode: AddressMode::IndirectY, instruction: Instruction::Adc }),
        0x75 => Some(Opcode { op: 0x75, name: "ADC", bytes: 2, cycles: 4, mode: AddressMode::ZeroPageX, instruction: Instruction::Adc }),
        0x76 => Some(Opcode { op: 0x76, name: "ROR", bytes: 2, cycles: 6, mode: AddressMode::ZeroPageX, instruction: Instruction::Ror }),
        0x78 => Some(Opcode { op: 0x78, name: "SEI", bytes: 1, cycles: 2, mode: AddressMode::NoneAddressing, instruction: Instruction::Sei }),
        0x79 => Some(Opcode { op: 0x79, name: "ADC", bytes: 3, cycles: 4, mode: AddressMode::AbsoluteY, instruction: Instruction::Adc }),
        0x7D => Some(Opcode { op: 0x7D, name: "ADC", bytes: 3, cycles: 4, mode: AddressMode::AbsoluteX, instruction: Instruction::Adc }),
        0x7E => Some(Opcode { op: 0x7E, name: "ROR", bytes: 3, cycles: 7, mode: AddressMode::AbsoluteX, instruction: Instruction::Ror }),
        0x81 => Some(Opcode { op: 0x81, name: "STA", bytes: 2, cycles: 6, mode: AddressMode::IndirectX, instruction: Instruction::Sta }),
        0x84 => Some(Opcode { op: 0x84, name: "STY", bytes: 2, cycles: 3, mode: AddressMode::ZeroPage, instruction: Instruction::Sty }),
        0x85 => Some(Opcode { op: 0x85, name: "STA", bytes: 2, cycles: 3, mode: AddressMode::ZeroPage, instruction: Instruction::Sta }),
        0x86 => Some(Opcode { op: 0x86, name: "STX", bytes: 2, cycles: 3, mode: AddressMode::ZeroPage, instruction: Instruction::Stx }),
        0x88 => Some(Opcode { op: 0x88, name: "DEY", bytes: 1, cycles: 2, mode: AddressMode::NoneAddressing, instruction: Instruction::Dey }),
        0x8A => Some(Opcode { op: 0x8A, name: "TXA", bytes: 1, cycles: 2, mode: AddressMode::NoneAddressing, instruction: Instruction::Txa }),
        0x8C => Some(Opcode { op: 0x8C, name: "STY", bytes: 3, cycles: 4, mode: AddressMode::Absolute, instruction: Instruction::Sty }),
        0x8D => Some(Opcode { op: 0x8D, name: "STA", bytes: 3, cycles: 4, mode: AddressMode::Absolute, instruction: Instruction::Sta }),
        0x8E => Some(Opcode { op: 0x8E, name: "STX", bytes: 3, cycles: 4, mode: AddressMode::Absolute, instruction: Instruction::Stx }),
        0x90 => Some(Opcode { op: 0x90, name: "BCC", bytes: 2, cycles: 2, mode: AddressMode::NoneAddressing, instruction: Instruction::Bcc }),
        0x91 => Some(Opcode { op: 0x91, name: "STA", bytes: 2, cycles: 6, mode: AddressMode::IndirectY, instruction: Instruction::Sta }),
        0x94 => Some(Opcode { op: 0x94, name: "STY", bytes: 2, cycles: 4, mode: AddressMode::ZeroPageX, instruction: Instruction::Sty }),
        0x95 => Some(Opcode { op: 0x95, name: "STA", bytes: 2, cycles: 4, mode: AddressMode::ZeroPageX, instruction: Instruction::Sta }),
        0x96 => Some(Opcode { op: 0x96, name: "STX", bytes: 2, cycles: 4, mode: AddressMode::ZeroPageY, instruction: Instruction::Stx }),
        0x98 => Some(Opcode { op: 0x98, name: "TYA", bytes: 1, cycles: 2, mode: AddressMode::NoneAddressing, instruction: Instruction::Tya }),
        0x99 => Some(Opcode { op: 0x99, name: "STA", bytes: 3, cycles: 5, mode: AddressMode::AbsoluteY, instruction: Instruction::Sta }),
        0x9A => Some(Opcode { op: 0x9A, name: "TXS", bytes: 1, cycles: 2, mode: AddressMode::NoneAddressing, instruction: Instruction::Txs }),
        0x9D => Some(Opcode { op: 0x9D, name: "STA", bytes: 3, cycles: 5, mode: AddressMode::AbsoluteX, instruction: Instruction::Sta }),
        0xA0 => Some(Opcode { op: 0xA0, name: "LDY", bytes: 2, cycles: 2, mode: AddressMode::Immediate, instruction: Instruction::Ldy }),
        0xA1 => Some(Opcode { op: 0xA1, name: "LDA", bytes: 2, cycles: 6, mode: AddressMode::IndirectX, instruction: Instruction::Lda }),
        0xA2 => Some(Opcode { op: 0xA2, name: "LDX", bytes: 2, cycles: 2, mode: AddressMode::Immediate, instruction: Instruction::Ldx }),
        0xA4 => Some(Opcode { op: 0xA4, name: "LDY", bytes: 2, cycles: 3, mode: AddressMode::ZeroPage, instruction: Instruction::Ldy }),
        0xA5 => Some(Opcode { op: 0xA5, name: "LDA", bytes: 2, cycles: 3, mode: AddressMode::ZeroPage, instruction: Instruction::Lda }),
        0xA6 => Some(Opcode { op: 0xA6, name: "LDX", bytes: 2, cycles: 3, mode: AddressMode::ZeroPage, instruction: Instruction::Ldx }),
        0xA8 => Some(Opcode { op: 0xA8, name: "TAY", bytes: 1, cycles: 2, mode: AddressMode::NoneAddressing, instruction: Instruction::Tay }),
        0xA9 => Some(Opcode { op: 0xA9, name: "LDA", bytes: 2, cycles: 2, mode: AddressMode::Immediate, instruction: Instruction::Lda }),
        0xAA => Some(Opcode { op: 0xAA, name: "TAX", bytes: 1, cycles: 2, mode: AddressMode::NoneAddressing, instruction: Instruction::Tax }),
        0xAC => Some(Opcode { op: 0xAC, name: "LDY", bytes: 3, cycles: 4, mode: AddressMode::Absolute, instruction: Instruction::Ldy }),
        0xAD => Some(Opcode { op: 0xAD, name: "LDA", bytes: 3, cycles: 4, mode: AddressMode::Absolute, instruction: Instruction::Lda }),
        0xAE => Some(Opcode { op: 0xAE, name: "LDX", bytes: 3, cycles: 4, mode: AddressMode::Absolute, instruction: Instruction::Ldx }),
        0xB0 => Some(Opcode { op: 0xB0, name: "BCS", bytes: 2, cycles: 2, mode: AddressMode::NoneAddressing, instruction: Instruction::Bcs }),
        0xB1 => Some(Opcode { op: 0xB1, name: "LDA", bytes: 2, cycles: 5, mode: AddressMode::IndirectY, instruction: Instruction::Lda }),
        0xB4 => Some(Opcode { op: 0xB4, name: "LDY", bytes: 2, cycles: 4, mode: AddressMode::ZeroPageX, instruction: Instruction::Ldy }),
        0xB5 => Some(Opcode { op: 0xB5, name: "LDA", bytes: 2, cycles: 4, mode: AddressMode::ZeroPageX, instruction: Instruction::Lda }),
        0xB6 => Some(Opcode { op: 0xB6, name: "LDX", bytes: 2, cycles: 4, mode: AddressMode::ZeroPageY, instruction: Instruction::Ldx }),
        0xB8 => Some(Opcode { op: 0xB8, name: "CLV", bytes: 1, cycles: 2, mode: AddressMode::NoneAddressing, instruction: Instruction::Clv }),
        0xB9 => Some(Opcode { op: 0xB9, name: "LDA", bytes: 3, cycles: 4, mode: AddressMode::AbsoluteY, instruction: Instruction::Lda }),
        0xBA => Some(Opcode { op: 0xBA, name: "TSX", bytes: 1, cycles: 2, mode: AddressMode::NoneAddressing, instruction: Instruction::Tsx }),
        0xBC => Some(Opcode { op: 0xBC, name: "LDY", bytes: 3, cycles: 4, mode: AddressMode::AbsoluteX, instruction: Instruction::Ldy }),
        0xBD => Some(Opcode { op: 0xBD, name: "LDA", bytes: 3, cycles: 4, mode: AddressMode::AbsoluteX, instruction: Instruction::Lda }),
        0xBE => Some(Opcode { op: 0xBE, name: "LDX", bytes: 3, cycles: 4, mode: AddressMode::AbsoluteY, instruction: Instruction::Ldx }),
        0xC0 => Some(Opcode { op: 0xC0, name: "CPY", bytes: 2, cycles: 2, mode: AddressMode::Immediate, instruction: Instruction::Cpy }),
        0xC1 => Some(Opcode { op: 0xC1, name: "CMP", bytes: 2, cycles: 6, mode: AddressMode::IndirectX, instruction: Instruction::Cmp }),
        0xC4 => Some(Opcode { op: 0xC4, name: "CPY", bytes: 2, cycles: 3, mode: AddressMode::ZeroPage, instruction: Instruction::Cpy }),
        0xC5 => Some(Opcode { op: 0xC5, name: "CMP", bytes: 2, cycles: 3, mode: AddressMode::ZeroPage, instruction: Instruction::Cmp }),
        0xC6 => Some(Opcode { op: 0xC6, name: "DEC", bytes: 2, cycles: 5, mode: AddressMode::ZeroPage, instruction: Instruction::Dec }),
        0xC8 => Some(Opcode { op: 0xC8, name: "INY", bytes: 1, cycles: 2, mode: AddressMode::NoneAddressing, instruction: Instruction::Iny }),
        0xC9 => Some(Opcode { op: 0xC9, name: "CMP", bytes: 2, cycles: 2, mode: AddressMode::Immediate, instruction: Instruction::Cmp }),
        0xCA => Some(Opcode { op: 0xCA, name: "DEX", bytes: 1, cycles: 2, mode: AddressMode::NoneAddressing, instruction: Instruction::Dex }),
        0xCC => Some(Opcode { op: 0xCC, name: "CPY", bytes: 3, cycles: 4, mode: AddressMode::Absolute, instruction: Instruction::Cpy }),
        0xCD => Some(Opcode { op: 0xCD, name: "CMP", bytes: 3, cycles: 4, mode: AddressMode::Absolute, instruction: Instruction::Cmp }),
        0xCE => Some(Opcode { op: 0xCE, name: "DEC", bytes: 3, cycles: 6, mode: AddressMode::Absolute, instruction: Instruction::Dec }),
        0xD0 => Some(Opcode { op: 0xD0, name: "BNE", bytes: 2, cycles: 2, mode: AddressMode::NoneAddressing, instruction: Instruction::Bne }),
        0xD1 => Some(Opcode { op: 0xD1, name: "CMP", bytes: 2, cycles: 5, mode: AddressMode::IndirectY, instruction: Instruction::Cmp }),
        0xD5 => Some(Opcode { op: 0xD5, name: "CMP", bytes: 2, cycles: 4, mode: AddressMode::ZeroPageX, instruction: Instruction::Cmp }),
        0xD6 => Some(Opcode { op: 0xD6, name: "DEC", bytes: 2, cycles: 6, mode: AddressMode::ZeroPageX, instruction: Instruction::Dec }),
        0xD8 => Some(Opcode { op: 0xD8, name: "CLD", bytes: 1, cycles: 2, mode: AddressMode::NoneAddressing, instruction: Instruction::Cld }),
        0xD9 => Some(Opcode { op: 0xD9, name: "CMP", bytes: 3, cycles: 4, mode: AddressMode::AbsoluteY, instruction: Instruction::Cmp }),
        0xDD => Some(Opcode { op: 0xDD, name: "CMP", bytes: 3, cycles: 4, mode: AddressMode::AbsoluteX, instruction: Instruction::Cmp }),
        0xDE => Some(Opcode { op: 0xDE, name: "DEC", bytes: 3, cycles: 7, mode: AddressMode::AbsoluteX, instruction: Instruction::Dec }),
        0xE0 => Some(Opcode { op: 0xE0, name: "CPX", bytes: 2, cycles: 2, mode: AddressMode::Immediate, instruction: Instruction::Cpx }),
        0xE1 => Some(Opcode { op: 0xE1, name: "SBC", bytes: 2, cycles: 6, mode: AddressMode::IndirectX, instruction: Instruction::Sbc }),
        0xE4 => Some(Opcode { op: 0xE4, name: "CPX", bytes: 2, cycles: 3, mode: AddressMode::ZeroPage, instruction: Instruction::Cpx }),
        0xE5 => Some(Opcode { op: 0xE5, name: "SBC", bytes: 2, cycles: 3, mode: AddressMode::ZeroPage, instruction: Instruction::Sbc }),
        0xE6 => Some(Opcode { op: 0xE6, name: "INC", bytes: 2, cycles: 5, mode: AddressMode::ZeroPage, instruction: Instruction::Inc }),
        0xE8 => Some(Opcode { op: 0xE8, name: "INX", bytes: 1, cycles: 2, mode: AddressMode::NoneAddressing, instruction: Instruction::Inx }),
        0xE9 => Some(Opcode { op: 0xE9, name: "SBC", bytes: 2, cycles: 2, mode: AddressMode::Immediate, instruction: Instruction::Sbc }),
        0xEA => Some(Opcode { op: 0xEA, name: "NOP", bytes: 1, cycles: 2, mode: AddressMode::NoneAddressing, instruction: Instruction::Nop }),
        0xEC => Some(Opcode { op: 0xEC, name: "CPX", bytes: 3, cycles: 4, mode: AddressMode::Absolute, instruction: Instruction::Cpx }),
        0xED => Some(Opcode { op: 0xED, name: "SBC", bytes: 3, cycles: 4, mode: AddressMode::Absolute, instruction: Instruction::Sbc }),
        0xEE => Some(Opcode { op: 0xEE, name: "INC", bytes: 3, cycles: 6, mode: AddressMode::Absolute, instruction: Instruction::Inc }),
        0xF0 => Some(Opcode { op: 0xF0, name: "BEQ", bytes: 2, cycles: 2, mode: AddressMode::NoneAddressing, instruction: Instruction::Beq }),
        0xF1 => Some(Opcode { op: 0xF1, name: "SBC", bytes: 2, cycles: 5, mode: AddressMode::IndirectY, instruction: Instruction::Sbc }),
        0xF5 => Some(Opcode { op: 0xF5, name: "SBC", bytes: 2, cycles: 4, mode: AddressMode::ZeroPageX, instruction: Instruction::Sbc }),
        0xF6 => Some(Opcode { op: 0xF6, name: "INC", bytes: 2, cycles: 6, mode: AddressMode::ZeroPageX, instruction: Instruction::Inc }),
        0xF8 => Some(Opcode { op: 0xF8, name: "SED", bytes: 1, cycles: 2, mode: AddressMode::NoneAddressing, instruction: Instruction::Sed }),
        0xF9 => Some(Opcode { op: 0xF9, name: "SBC", bytes: 3, cycles: 4, mode: AddressMode::AbsoluteY, instruction: Instruction::Sbc }),
        0xFD => Some(Opcode { op: 0xFD, name: "SBC", bytes: 3, cycles: 4, mode: AddressMode::AbsoluteX, instruction: Instruction::Sbc }),
        0xFE => Some(Opcode { op: 0xFE, name: "INC", bytes: 3, cycles: 7, mode: AddressMode::AbsoluteX, instruction: Instruction::Inc }),
        _ => None,
    }
}

/// Every entry is 1 to 3 bytes long, takes 2 to 7 cycles and describes its
/// own opcode byte.
pub proof fn lemma_opcode_table_shape(op: u8)
    ensures
        opcode_table(op) matches Some(c) ==> 1 <= c.bytes <= 3 && 2 <= c.cycles <= 7 && c.op == op,
{
}

} // verus!
