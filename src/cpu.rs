//! The 6502 register file, its view of memory, operand addressing, the
//! fetch/execute loop and interrupt entry.
use vstd::prelude::*;
use crate::bus::{Bus, BusView, RAM_SIZE, word};
use crate::cartridge::{program_rom, Cartridge, MirroringType, CHR_ROM_PAGE_SIZE};
use crate::ppu::{power_on, zeros};
use crate::error::NesError;
use crate::instructions::{
    stack_push, stack_push_u16, adc, and, asl, asl_acc, bcc, bcs, beq, bit, bmi, bne, bpl, brk, bvc, bvs, clc, cld, cli, clv, cmp, cpx, cpy, dec, dex, dey, eor, inc, inx, iny, jmp,
    jmp_indirect, jsr, lda, ldx, ldy, lsr, lsr_acc, ora, pha, php, pla, plp, rol, rol_acc, ror, ror_acc, rti, rts, sbc, sec, sed, sei, sta, stx, sty, tax, tay, tsx, txa, txs, tya,
};
use crate::opcode::{lemma_opcode_table_shape, lookup, opcode_table, Instruction, Opcode};
use crate::registers::with_bits;

verus! {

pub const NMI_VECTOR: u16 = 0xFFFA;
pub const RESET_INTERRUPT_MEM_LOC: u16 = 0xFFFC;
pub const IRQ_VECTOR: u16 = 0xFFFE;
pub const STACK_BOTTOM_LOC: u16 = 0x0100;
pub const STACK_RESET_LOC: u8 = 0xFD;
/// Status after reset: U and I set.
pub const STATUS_RESET: u8 = 0b0010_0100;

pub const FLAG_CARRY: u8 = 0b0000_0001;
pub const FLAG_ZERO: u8 = 0b0000_0010;
pub const FLAG_INTERRUPT_DISABLE: u8 = 0b0000_0100;
pub const FLAG_DECIMAL: u8 = 0b0000_1000;
pub const FLAG_BREAK: u8 = 0b0001_0000;
pub const FLAG_UNUSED: u8 = 0b0010_0000;
pub const FLAG_OVERFLOW: u8 = 0b0100_0000;
pub const FLAG_NEGATIVE: u8 = 0b1000_0000;

/// How an instruction finds its operand.
#[derive(Debug, Clone, Copy, PartialEq, Eq, Structural)]
pub enum AddressMode {
    Immediate,
    ZeroPage,
    ZeroPageX,
    ZeroPageY,
    Absolute,
    AbsoluteX,
    AbsoluteY,
    IndirectX,
    IndirectY,
    NoneAddressing,
}

/// The processor status register `P`, bits `N V U B D I Z C` from the top.
#[derive(Debug, Clone, Copy, PartialEq, Eq, Structural)]
pub struct CPUStatus {
    pub bits: u8,
}

impl CPUStatus {
    pub const NEGATIVE: u8 = FLAG_NEGATIVE;
    pub const OVERFLOW: u8 = FLAG_OVERFLOW;
    pub const UNUSED: u8 = FLAG_UNUSED;
    pub const BREAK: u8 = FLAG_BREAK;
    pub const DECIMAL: u8 = FLAG_DECIMAL;
    pub const INTERRUPT_DISABLE: u8 = FLAG_INTERRUPT_DISABLE;
    pub const ZERO: u8 = FLAG_ZERO;
    pub const CARRY: u8 = FLAG_CARRY;

    pub fn from_bits_truncate(bits: u8) -> (r: CPUStatus)
        ensures
            r.bits == bits,
    {
        CPUStatus { bits }
    }

    pub fn bits(&self) -> (r: u8)
        ensures
            r == self.bits,
    {
        self.bits
    }

    /// Whether every bit of `flag` is set.
    pub fn contains(&self, flag: u8) -> (r: bool)
        ensures
            r == (self.bits & flag == flag),
    {
        self.bits & flag == flag
    }

    pub fn insert(&mut self, flag: u8)
        ensures
            final(self).bits == old(self).bits | flag,
    {
        self.bits = self.bits | flag;
    }

    pub fn remove(&mut self, flag: u8)
        ensures
            final(self).bits == old(self).bits & !flag,
    {
        self.bits = self.bits & !flag;
    }

    pub fn set(&mut self, flag: u8, on: bool)
        ensures
            final(self).bits == with_bits(old(self).bits, flag, on),
    {
        if on {
            self.insert(flag);
        } else {
            self.remove(flag);
        }
    }
}

pub struct CPU {
    pub pc: u16,
    pub sp: u8,
    pub acc: u8,
    pub rx: u8,
    pub ry: u8,
    pub status: CPUStatus,
    pub bus: Bus,
}

pub struct CpuView {
    pub pc: u16,
    pub sp: u8,
    pub acc: u8,
    pub rx: u8,
    pub ry: u8,
    pub status: u8,
    pub bus: BusView,
}

impl View for CPU {
    type V = CpuView;

    open spec fn view(&self) -> CpuView {
        CpuView {
            pc: self.pc,
            sp: self.sp,
            acc: self.acc,
            rx: self.rx,
            ry: self.ry,
            status: self.status.bits,
            bus: self.bus@,
        }
    }
}

/// Where the byte after a pointer's low byte is read from: the next address
/// within the same page, so a pointer at `$xxFF` takes its high byte from
/// `$xx00`.
pub open spec fn page_wrapped_next(ptr: u16) -> u16 {
    if ptr & 0x00FF == 0x00FF {
        ptr & 0xFF00
    } else {
        (ptr + 1) as u16
    }
}

/// `status` with Z and N taken from `v`.
pub open spec fn zn(status: u8, v: u8) -> u8 {
    with_bits(with_bits(status, FLAG_ZERO, v == 0), FLAG_NEGATIVE, v & 0x80 != 0)
}

impl CpuView {
    pub open spec fn wf(self) -> bool {
        self.bus.wf()
    }

    pub open spec fn with_bus(self, bus: BusView) -> CpuView {
        CpuView { bus, ..self }
    }

    pub open spec fn read(self, addr: u16) -> (CpuView, Result<u8, NesError>) {
        (self.with_bus(self.bus.read(addr).0), self.bus.read(addr).1)
    }

    pub open spec fn write(self, addr: u16, data: u8) -> (CpuView, Result<(), NesError>) {
        (self.with_bus(self.bus.write(addr, data).0), self.bus.write(addr, data).1)
    }

    pub open spec fn read16(self, addr: u16) -> (CpuView, Result<u16, NesError>) {
        (self.with_bus(self.bus.read16(addr).0), self.bus.read16(addr).1)
    }

    pub open spec fn write16(self, addr: u16, data: u16) -> (CpuView, Result<(), NesError>) {
        (self.with_bus(self.bus.write16(addr, data).0), self.bus.write16(addr, data).1)
    }

    /// Reads `addr`, then goes on with `f` unless the read failed.
    pub open spec fn read_then<T>(
        self,
        addr: u16,
        f: spec_fn(CpuView, u8) -> (CpuView, Result<T, NesError>),
    ) -> (CpuView, Result<T, NesError>) {
        match self.read(addr).1 {
            Ok(v) => f(self.read(addr).0, v),
            Err(e) => (self.read(addr).0, Err(e)),
        }
    }

    /// Reads the 16-bit word at `addr`, then goes on with `f` unless the
    /// read failed.
    pub open spec fn read16_then<T>(
        self,
        addr: u16,
        f: spec_fn(CpuView, u16) -> (CpuView, Result<T, NesError>),
    ) -> (CpuView, Result<T, NesError>) {
        match self.read16(addr).1 {
            Ok(v) => f(self.read16(addr).0, v),
            Err(e) => (self.read16(addr).0, Err(e)),
        }
    }

    /// Effective address for `mode` with the operand bytes at `addr`.
    pub open spec fn absolute_address(self, mode: AddressMode, addr: u16) -> (
        CpuView,
        Result<u16, NesError>,
    ) {
        match mode {
            AddressMode::ZeroPage => self.read_then(addr, |s: CpuView, v: u8| (s, Ok(v as u16))),
            AddressMode::ZeroPageX => self.read_then(
                addr,
                |s: CpuView, v: u8| (s, Ok(v.wrapping_add(s.rx) as u16)),
            ),
            AddressMode::ZeroPageY => self.read_then(
                addr,
                |s: CpuView, v: u8| (s, Ok(v.wrapping_add(s.ry) as u16)),
            ),
            AddressMode::Absolute => self.read16_then(addr, |s: CpuView, w: u16| (s, Ok(w))),
            AddressMode::AbsoluteX => self.read16_then(
                addr,
                |s: CpuView, w: u16| (s, Ok(w.wrapping_add(s.rx as u16))),
            ),
            AddressMode::AbsoluteY => self.read16_then(
                addr,
                |s: CpuView, w: u16| (s, Ok(w.wrapping_add(s.ry as u16))),
            ),
            AddressMode::IndirectX => self.read_then(
                addr,
                |s: CpuView, base: u8|
                    {
                        let ptr = base.wrapping_add(s.rx);
                        s.read_then(
                            ptr as u16,
                            |s1: CpuView, lo: u8|
                                s1.read_then(
                                    ptr.wrapping_add(1) as u16,
                                    |s2: CpuView, hi: u8| (s2, Ok(word(lo, hi))),
                                ),
                        )
                    },
            ),
            AddressMode::IndirectY => self.read_then(
                addr,
                |s: CpuView, base: u8|
                    s.read_then(
                        base as u16,
                        |s1: CpuView, lo: u8|
                            s1.read_then(
                                base.wrapping_add(1) as u16,
                                |s2: CpuView, hi: u8|
                                    (s2, Ok(word(lo, hi).wrapping_add(s2.ry as u16))),
                            ),
                    ),
            ),
            _ => (self, Ok(addr)),
        }
    }

    /// Effective address of the current instruction's operand, whose
    /// bytes start at PC.
    pub open spec fn operand_address(self, mode: AddressMode) -> (CpuView, Result<u16, NesError>) {
        match mode {
            AddressMode::Immediate => (self, Ok(self.pc)),
            _ => self.absolute_address(mode, self.pc),
        }
    }

    /// The operand byte of the current instruction.
    pub open spec fn read_operand(self, mode: AddressMode) -> (CpuView, Result<u8, NesError>) {
        match self.operand_address(mode).1 {
            Ok(a) => self.operand_address(mode).0.read(a),
            Err(e) => (self.operand_address(mode).0, Err(e)),
        }
    }

    pub open spec fn push(self, v: u8) -> CpuView {
        CpuView {
            sp: self.sp.wrapping_sub(1),
            bus: BusView { ram: self.bus.ram.update(0x100 + self.sp, v), ..self.bus },
            ..self
        }
    }

    pub open spec fn pop(self) -> (CpuView, u8) {
        let sp = self.sp.wrapping_add(1);
        (CpuView { sp, ..self }, self.bus.ram[0x100 + sp])
    }

    /// High byte first, so that the low byte ends on top.
    pub open spec fn push16(self, v: u16) -> CpuView {
        self.push((v >> 8u16) as u8).push((v & 0xFF) as u8)
    }

    pub open spec fn pop16(self) -> (CpuView, u16) {
        let (s1, lo) = self.pop();
        let (s2, hi) = s1.pop();
        (s2, word(lo, hi))
    }

    pub open spec fn with_status(self, status: u8) -> CpuView {
        CpuView { status, ..self }
    }

    /// State after reset: registers cleared, status `U|I`, SP `$FD`, PC
    /// from the reset vector.
    pub open spec fn reset(self) -> (CpuView, Result<(), NesError>) {
        let s = CpuView { acc: 0, rx: 0, ry: 0, status: STATUS_RESET, ..self };
        match s.read16(RESET_INTERRUPT_MEM_LOC).1 {
            Ok(pc) => (CpuView { pc, sp: STACK_RESET_LOC, ..s.read16(RESET_INTERRUPT_MEM_LOC).0 }, Ok(())),
            Err(e) => (s.read16(RESET_INTERRUPT_MEM_LOC).0, Err(e)),
        }
    }
}

pub proof fn lemma_stack_address(sp: u8)
    ensures
        (0x100 + sp) as u16 & 0x7FF == 0x100 + sp,
        0x100 + sp <= 0x1FFF,
{
    assert((0x100 + sp) as u16 & 0x7FF == 0x100 + sp) by (bit_vector);
}

impl CPU {
    pub open spec fn wf(&self) -> bool {
        self@.wf()
    }

    /// A CPU on `bus`, not yet reset.
    pub fn new(bus: Bus) -> (r: Self)
        ensures
            r@ == (CpuView {
                pc: 0,
                sp: STACK_RESET_LOC,
                acc: 0,
                rx: 0,
                ry: 0,
                status: STATUS_RESET,
                bus: bus@,
            }),
    {
        CPU {
            pc: 0,
            sp: STACK_RESET_LOC,
            acc: 0,
            rx: 0,
            ry: 0,
            status: CPUStatus::from_bits_truncate(STATUS_RESET),
            bus,
        }
    }

    pub fn mem_read(&mut self, addr: u16) -> (r: Result<u8, NesError>)
        requires
            old(self).wf(),
        ensures
            final(self).wf(),
            (final(self)@, r) == old(self)@.read(addr),
    {
        self.bus.mem_read(addr)
    }

    pub fn mem_write(&mut self, addr: u16, data: u8) -> (r: Result<(), NesError>)
        requires
            old(self).wf(),
        ensures
            final(self).wf(),
            (final(self)@, r) == old(self)@.write(addr, data),
    {
        self.bus.mem_write(addr, data)
    }

    pub fn mem_read_u16(&mut self, addr: u16) -> (r: Result<u16, NesError>)
        requires
            old(self).wf(),
        ensures
            final(self).wf(),
            (final(self)@, r) == old(self)@.read16(addr),
    {
        self.bus.mem_read_u16(addr)
    }

    pub fn mem_write_u16(&mut self, addr: u16, data: u16) -> (r: Result<(), NesError>)
        requires
            old(self).wf(),
        ensures
            final(self).wf(),
            (final(self)@, r) == old(self)@.write16(addr, data),
    {
        self.bus.mem_write_u16(addr, data)
    }

    /// Zeroes A, X and Y, sets status to `U|I` and SP to `$FD`, and loads
    /// PC from the reset vector at `$FFFC`.
    pub fn reset(&mut self) -> (r: Result<(), NesError>)
        requires
            old(self).wf(),
        ensures
            final(self).wf(),
            (final(self)@, r) == old(self)@.reset(),
    {
        self.acc = 0;
        self.rx = 0;
        self.ry = 0;
        self.status = CPUStatus::from_bits_truncate(STATUS_RESET);
        let pc = self.mem_read_u16(RESET_INTERRUPT_MEM_LOC)?;
        self.pc = pc;
        self.sp = STACK_RESET_LOC;
        Ok(())
    }

    /// Effective address for `mode` with the operand bytes at `addr`.
    pub fn get_absolute_address(&mut self, mode: &AddressMode, addr: u16) -> (r: Result<
        u16,
        NesError,
    >)
        requires
            old(self).wf(),
        ensures
            final(self).wf(),
            (final(self)@, r) == old(self)@.absolute_address(*mode, addr),
    {
        match mode {
            AddressMode::ZeroPage => {
                let v = self.mem_read(addr)?;
                Ok(v as u16)
            },
            AddressMode::ZeroPageX => {
                let v = self.mem_read(addr)?;
                Ok(v.wrapping_add(self.rx) as u16)
            },
            AddressMode::ZeroPageY => {
                let v = self.mem_read(addr)?;
                Ok(v.wrapping_add(self.ry) as u16)
            },
            AddressMode::Absolute => self.mem_read_u16(addr),
            AddressMode::AbsoluteX => {
                let w = self.mem_read_u16(addr)?;
                Ok(w.wrapping_add(self.rx as u16))
            },
            AddressMode::AbsoluteY => {
                let w = self.mem_read_u16(addr)?;
                Ok(w.wrapping_add(self.ry as u16))
            },
            AddressMode::IndirectX => {
                let base = self.mem_read(addr)?;
                let ptr = base.wrapping_add(self.rx);
                let lo = self.mem_read(ptr as u16)?;
                let hi = self.mem_read(ptr.wrapping_add(1) as u16)?;
                Ok((hi as u16) << 8u16 | lo as u16)
            },
            AddressMode::IndirectY => {
                let base = self.mem_read(addr)?;
                let lo = self.mem_read(base as u16)?;
                let hi = self.mem_read(base.wrapping_add(1) as u16)?;
                let deref_base = (hi as u16) << 8u16 | lo as u16;
                Ok(deref_base.wrapping_add(self.ry as u16))
            },
            _ => Ok(addr),
        }
    }

    /// Effective address of the current instruction's operand.
    pub fn get_operand_address(&mut self, mode: &AddressMode) -> (r: Result<u16, NesError>)
        requires
            old(self).wf(),
        ensures
            final(self).wf(),
            (final(self)@, r) == old(self)@.operand_address(*mode),
    {
        match mode {
            AddressMode::Immediate => Ok(self.pc),
            _ => {
                let pc = self.pc;
                self.get_absolute_address(mode, pc)
            },
        }
    }

    /// The operand byte of the current instruction.
    pub fn read_operand(&mut self, mode: &AddressMode) -> (r: Result<u8, NesError>)
        requires
            old(self).wf(),
        ensures
            final(self).wf(),
            (final(self)@, r) == old(self)@.read_operand(*mode),
    {
        let addr = self.get_operand_address(mode)?;
        self.mem_read(addr)
    }
}

/// How many instructions `interprect` runs at most before giving control
/// back.
pub const STEP_LIMIT: u32 = 1_000_000;

/// Whether operation `i`, run with status `st`, sets PC itself: jumps,
/// calls, returns, BRK, and branches whose condition holds. After any other,
/// PC skips the operand bytes.
pub open spec fn is_control(i: Instruction, st: u8) -> bool {
    match i {
        Instruction::Brk
        | Instruction::Jmp
        | Instruction::JmpInd
        | Instruction::Jsr
        | Instruction::Rts
        | Instruction::Rti => true,
        Instruction::Bcc => st & FLAG_CARRY == 0,
        Instruction::Bcs => st & FLAG_CARRY != 0,
        Instruction::Beq => st & FLAG_ZERO != 0,
        Instruction::Bne => st & FLAG_ZERO == 0,
        Instruction::Bmi => st & FLAG_NEGATIVE != 0,
        Instruction::Bpl => st & FLAG_NEGATIVE == 0,
        Instruction::Bvc => st & FLAG_OVERFLOW == 0,
        Instruction::Bvs => st & FLAG_OVERFLOW != 0,
        _ => false,
    }
}

pub open spec fn is_memory_op(i: Instruction) -> bool {
    match i {
        Instruction::Adc
        | Instruction::And
        | Instruction::Asl
        | Instruction::Bit
        | Instruction::Cmp
        | Instruction::Cpx
        | Instruction::Cpy
        | Instruction::Dec
        | Instruction::Eor
        | Instruction::Inc
        | Instruction::Lda
        | Instruction::Ldx
        | Instruction::Ldy
        | Instruction::Lsr
        | Instruction::Ora
        | Instruction::Rol
        | Instruction::Ror
        | Instruction::Sbc
        | Instruction::Sta
        | Instruction::Stx
        | Instruction::Sty => true,
        _ => false,
    }
}

pub open spec fn is_flow_op(i: Instruction) -> bool {
    match i {
        Instruction::Bcc
        | Instruction::Bcs
        | Instruction::Beq
        | Instruction::Bmi
        | Instruction::Bne
        | Instruction::Bpl
        | Instruction::Brk
        | Instruction::Bvc
        | Instruction::Bvs
        | Instruction::Jmp
        | Instruction::JmpInd
        | Instruction::Jsr => true,
        _ => false,
    }
}

fn sets_pc(i: Instruction, st: u8) -> (r: bool)
    ensures
        r == is_control(i, st),
{
    match i {
        Instruction::Brk
        | Instruction::Jmp
        | Instruction::JmpInd
        | Instruction::Jsr
        | Instruction::Rts
        | Instruction::Rti => true,
        Instruction::Bcc => st & FLAG_CARRY == 0,
        Instruction::Bcs => st & FLAG_CARRY != 0,
        Instruction::Beq => st & FLAG_ZERO != 0,
        Instruction::Bne => st & FLAG_ZERO == 0,
        Instruction::Bmi => st & FLAG_NEGATIVE != 0,
        Instruction::Bpl => st & FLAG_NEGATIVE == 0,
        Instruction::Bvc => st & FLAG_OVERFLOW == 0,
        Instruction::Bvs => st & FLAG_OVERFLOW != 0,
        _ => false,
    }
}

fn uses_memory_operand(i: Instruction) -> (r: bool)
    ensures
        r == is_memory_op(i),
{
    match i {
        Instruction::Adc
        | Instruction::And
        | Instruction::Asl
        | Instruction::Bit
        | Instruction::Cmp
        | Instruction::Cpx
        | Instruction::Cpy
        | Instruction::Dec
        | Instruction::Eor
        | Instruction::Inc
        | Instruction::Lda
        | Instruction::Ldx
        | Instruction::Ldy
        | Instruction::Lsr
        | Instruction::Ora
        | Instruction::Rol
        | Instruction::Ror
        | Instruction::Sbc
        | Instruction::Sta
        | Instruction::Stx
        | Instruction::Sty => true,
        _ => false,
    }
}

fn changes_flow(i: Instruction) -> (r: bool)
    ensures
        r == is_flow_op(i),
{
    match i {
        Instruction::Bcc
        | Instruction::Bcs
        | Instruction::Beq
        | Instruction::Bmi
        | Instruction::Bne
        | Instruction::Bpl
        | Instruction::Brk
        | Instruction::Bvc
        | Instruction::Bvs
        | Instruction::Jmp
        | Instruction::JmpInd
        | Instruction::Jsr => true,
        _ => false,
    }
}

impl CpuView {
    /// Loads, stores, arithmetic, logic, compares and read-modify-writes on
    /// an operand in memory.
    pub open spec fn execute_load_store(self, i: Instruction, mode: AddressMode) -> (CpuView, Result<(), NesError>) {
        match i {
            Instruction::Lda => self.op_lda(mode),
            Instruction::Ldx => self.op_ldx(mode),
            Instruction::Ldy => self.op_ldy(mode),
            Instruction::Sta => self.op_sta(mode),
            Instruction::Stx => self.op_stx(mode),
            Instruction::Sty => self.op_sty(mode),
            Instruction::Bit => self.op_bit(mode),
            _ => (self, Ok(())),
        }
    }

    pub open spec fn execute_arithmetic(self, i: Instruction, mode: AddressMode) -> (CpuView, Result<(), NesError>) {
        match i {
            Instruction::Adc => self.op_adc(mode),
            Instruction::Sbc => self.op_sbc(mode),
            Instruction::And => self.op_and(mode),
            Instruction::Ora => self.op_ora(mode),
            Instruction::Eor => self.op_eor(mode),
            Instruction::Cmp => self.op_cmp(mode),
            Instruction::Cpx => self.op_cpx(mode),
            Instruction::Cpy => self.op_cpy(mode),
            _ => (self, Ok(())),
        }
    }

    pub open spec fn execute_read_modify_write(self, i: Instruction, mode: AddressMode) -> (CpuView, Result<(), NesError>) {
        match i {
            Instruction::Asl => self.op_asl(mode),
            Instruction::Lsr => self.op_lsr(mode),
            Instruction::Rol => self.op_rol(mode),
            Instruction::Ror => self.op_ror(mode),
            Instruction::Inc => self.op_inc(mode),
            Instruction::Dec => self.op_dec(mode),
            _ => (self, Ok(())),
        }
    }

    pub open spec fn execute_memory(self, i: Instruction, mode: AddressMode) -> (CpuView, Result<(), NesError>) {
        match i {
            Instruction::Lda | Instruction::Ldx | Instruction::Ldy | Instruction::Sta | Instruction::Stx
            | Instruction::Sty | Instruction::Bit => self.execute_load_store(i, mode),
            Instruction::Asl | Instruction::Lsr | Instruction::Rol | Instruction::Ror | Instruction::Inc
            | Instruction::Dec => self.execute_read_modify_write(i, mode),
            _ => self.execute_arithmetic(i, mode),
        }
    }

    /// Branches, jumps, calls and BRK.
    pub open spec fn execute_flow(self, i: Instruction) -> (CpuView, Result<(), NesError>) {
        match i {
            Instruction::Bcc => self.op_bcc(),
            Instruction::Bcs => self.op_bcs(),
            Instruction::Beq => self.op_beq(),
            Instruction::Bmi => self.op_bmi(),
            Instruction::Bne => self.op_bne(),
            Instruction::Bpl => self.op_bpl(),
            Instruction::Brk => self.op_brk(),
            Instruction::Bvc => self.op_bvc(),
            Instruction::Bvs => self.op_bvs(),
            Instruction::Jmp => self.op_jmp(),
            Instruction::JmpInd => self.op_jmp_indirect(),
            Instruction::Jsr => self.op_jsr(),
            _ => (self, Ok(())),
        }
    }

    /// Register, flag and stack operations.
    pub open spec fn execute_register(self, i: Instruction) -> (CpuView, Result<(), NesError>) {
        match i {
            Instruction::AslAcc => (self.op_asl_acc(), Ok(())),
            Instruction::Clc => (self.op_clc(), Ok(())),
            Instruction::Cld => (self.op_cld(), Ok(())),
            Instruction::Cli => (self.op_cli(), Ok(())),
            Instruction::Clv => (self.op_clv(), Ok(())),
            Instruction::Dex => (self.op_dex(), Ok(())),
            Instruction::Dey => (self.op_dey(), Ok(())),
            Instruction::Inx => (self.op_inx(), Ok(())),
            Instruction::Iny => (self.op_iny(), Ok(())),
            Instruction::LsrAcc => (self.op_lsr_acc(), Ok(())),
            Instruction::Nop => (self, Ok(())),
            Instruction::Pha => (self.op_pha(), Ok(())),
            Instruction::Php => (self.op_php(), Ok(())),
            Instruction::Pla => (self.op_pla(), Ok(())),
            Instruction::Plp => (self.op_plp(), Ok(())),
            Instruction::RolAcc => (self.op_rol_acc(), Ok(())),
            Instruction::RorAcc => (self.op_ror_acc(), Ok(())),
            Instruction::Rti => (self.op_rti(), Ok(())),
            Instruction::Rts => (self.op_rts(), Ok(())),
            Instruction::Sec => (self.op_sec(), Ok(())),
            Instruction::Sed => (self.op_sed(), Ok(())),
            Instruction::Sei => (self.op_sei(), Ok(())),
            Instruction::Tax => (self.op_tax(), Ok(())),
            Instruction::Tay => (self.op_tay(), Ok(())),
            Instruction::Tsx => (self.op_tsx(), Ok(())),
            Instruction::Txa => (self.op_txa(), Ok(())),
            Instruction::Txs => (self.op_txs(), Ok(())),
            Instruction::Tya => (self.op_tya(), Ok(())),
            _ => (self, Ok(())),
        }
    }

    /// The effect of operation `i` with addressing `mode`, PC on its first
    /// operand byte.
    pub open spec fn execute(self, i: Instruction, mode: AddressMode) -> (CpuView, Result<(), NesError>) {
        if is_memory_op(i) {
            self.execute_memory(i, mode)
        } else if is_flow_op(i) {
            self.execute_flow(i)
        } else {
            self.execute_register(i)
        }
    }

    /// NMI entry: pushes PC and P (B cleared, U set), sets I and jumps
    /// through `$FFFA`.
    pub open spec fn nmi_entry(self) -> (CpuView, Result<(), NesError>) {
        let s = self.push16(self.pc).push(Self::pulled_status(self.status)).set_flag(
            FLAG_INTERRUPT_DISABLE,
            true,
        );
        let (s1, t) = s.read16(NMI_VECTOR);
        match t {
            Ok(t) => (CpuView { pc: t, ..s1 }, Ok(())),
            Err(e) => (s1, Err(e)),
        }
    }

    /// After an instruction has executed: skip its operand bytes unless it
    /// set PC itself (`jumped`), run the PPU three dots per cycle, then
    /// enter a pending NMI.
    pub open spec fn finish(self, op: u8, code: Opcode, jumped: bool) -> (
        CpuView,
        Result<(u8, u8), NesError>,
    ) {
        let s = if jumped {
            self
        } else {
            CpuView { pc: self.pc.wrapping_add((code.bytes - 1) as u16), ..self }
        };
        let s = s.with_bus(s.bus.with_ppu(s.bus.ppu.tick((code.cycles * 3) as u16)));
        let (ppu, nmi) = s.bus.ppu.poll_nmi();
        let s = s.with_bus(s.bus.with_ppu(ppu));
        if nmi {
            let (s2, r) = s.nmi_entry();
            match r {
                Ok(()) => (s2, Ok((op, (code.cycles + 7) as u8))),
                Err(e) => (s2, Err(e)),
            }
        } else {
            (s, Ok((op, code.cycles)))
        }
    }

    /// The rest of an instruction once its opcode byte `op` has been
    /// fetched: PC past the opcode, decode, execute, advance, tick,
    /// interrupt. Gives the opcode and the cycles it took.
    pub open spec fn execute_opcode(self, op: u8) -> (CpuView, Result<(u8, u8), NesError>) {
        let s2 = CpuView { pc: self.pc.wrapping_add(1), ..self };
        match opcode_table(op) {
            None => (s2, Err(NesError::UnknownOpcode(op))),
            Some(code) => {
                let (s3, r) = s2.execute(code.instruction, code.mode);
                match r {
                    Err(e) => (s3, Err(e)),
                    Ok(()) => s3.finish(op, code, is_control(code.instruction, s2.status)),
                }
            },
        }
    }

    /// One instruction: fetch, decode, execute, advance, tick, interrupt.
    /// Gives the opcode and the cycles it took.
    pub open spec fn step(self) -> (CpuView, Result<(u8, u8), NesError>) {
        let (s1, op) = self.read(self.pc);
        match op {
            Err(e) => (s1, Err(e)),
            Ok(op) => s1.execute_opcode(op),
        }
    }

    /// Runs until `fuel` instructions have run (`false`), an error, or the
    /// fetched opcode is BRK, which is then left unexecuted (`true`). Each
    /// opcode byte is fetched once.
    pub open spec fn run_until_brk(self, fuel: nat) -> (CpuView, Result<bool, NesError>)
        decreases fuel,
    {
        if fuel == 0 {
            (self, Ok(false))
        } else {
            let (s0, op) = self.read(self.pc);
            match op {
                Err(e) => (s0, Err(e)),
                Ok(op) => if op == 0x00 {
                    (s0, Ok(true))
                } else {
                    let (s, r) = s0.execute_opcode(op);
                    match r {
                        Err(e) => (s, Err(e)),
                        Ok(_) => s.run_until_brk((fuel - 1) as nat),
                    }
                },
            }
        }
    }
}

impl CPU {
    fn execute_load_store(&mut self, i: Instruction, mode: AddressMode) -> (r: Result<(), NesError>)
        requires
            old(self).wf(),
        ensures
            final(self).wf(),
            (final(self)@, r) == old(self)@.execute_load_store(i, mode),
    {
        match i {
            Instruction::Lda => lda(self, &mode),
            Instruction::Ldx => ldx(self, &mode),
            Instruction::Ldy => ldy(self, &mode),
            Instruction::Sta => sta(self, &mode),
            Instruction::Stx => stx(self, &mode),
            Instruction::Sty => sty(self, &mode),
            Instruction::Bit => bit(self, &mode),
            _ => Ok(()),
        }
    }

    fn execute_arithmetic(&mut self, i: Instruction, mode: AddressMode) -> (r: Result<(), NesError>)
        requires
            old(self).wf(),
        ensures
            final(self).wf(),
            (final(self)@, r) == old(self)@.execute_arithmetic(i, mode),
    {
        match i {
            Instruction::Adc => adc(self, &mode),
            Instruction::Sbc => sbc(self, &mode),
            Instruction::And => and(self, &mode),
            Instruction::Ora => ora(self, &mode),
            Instruction::Eor => eor(self, &mode),
            Instruction::Cmp => cmp(self, &mode),
            Instruction::Cpx => cpx(self, &mode),
            Instruction::Cpy => cpy(self, &mode),
            _ => Ok(()),
        }
    }

    fn execute_read_modify_write(&mut self, i: Instruction, mode: AddressMode) -> (r: Result<(), NesError>)
        requires
            old(self).wf(),
        ensures
            final(self).wf(),
            (final(self)@, r) == old(self)@.execute_read_modify_write(i, mode),
    {
        match i {
            Instruction::Asl => asl(self, &mode),
            Instruction::Lsr => lsr(self, &mode),
            Instruction::Rol => rol(self, &mode),
            Instruction::Ror => ror(self, &mode),
            Instruction::Inc => inc(self, &mode),
            Instruction::Dec => dec(self, &mode),
            _ => Ok(()),
        }
    }

    fn execute_memory(&mut self, i: Instruction, mode: AddressMode) -> (r: Result<(), NesError>)
        requires
            old(self).wf(),
        ensures
            final(self).wf(),
            (final(self)@, r) == old(self)@.execute_memory(i, mode),
    {
        match i {
            Instruction::Lda | Instruction::Ldx | Instruction::Ldy | Instruction::Sta | Instruction::Stx
            | Instruction::Sty | Instruction::Bit => self.execute_load_store(i, mode),
            Instruction::Asl | Instruction::Lsr | Instruction::Rol | Instruction::Ror | Instruction::Inc
            | Instruction::Dec => self.execute_read_modify_write(i, mode),
            _ => self.execute_arithmetic(i, mode),
        }
    }

    fn execute_flow(&mut self, i: Instruction) -> (r: Result<(), NesError>)
        requires
            old(self).wf(),
        ensures
            final(self).wf(),
            (final(self)@, r) == old(self)@.execute_flow(i),
    {
        match i {
            Instruction::Bcc => bcc(self),
            Instruction::Bcs => bcs(self),
            Instruction::Beq => beq(self),
            Instruction::Bmi => bmi(self),
            Instruction::Bne => bne(self),
            Instruction::Bpl => bpl(self),
            Instruction::Brk => brk(self),
            Instruction::Bvc => bvc(self),
            Instruction::Bvs => bvs(self),
            Instruction::Jmp => jmp(self),
            Instruction::JmpInd => jmp_indirect(self),
            Instruction::Jsr => jsr(self),
            _ => Ok(()),
        }
    }

    fn execute_register(&mut self, i: Instruction) -> (r: Result<(), NesError>)
        requires
            old(self).wf(),
        ensures
            final(self).wf(),
            (final(self)@, r) == old(self)@.execute_register(i),
    {
        match i {
            Instruction::AslAcc => {
                asl_acc(self);
                Ok(())
            },
            Instruction::Clc => {
                clc(self);
                Ok(())
            },
            Instruction::Cld => {
                cld(self);
                Ok(())
            },
            Instruction::Cli => {
                cli(self);
                Ok(())
            },
            Instruction::Clv => {
                clv(self);
                Ok(())
            },
            Instruction::Dex => {
                dex(self);
                Ok(())
            },
            Instruction::Dey => {
                dey(self);
                Ok(())
            },
            Instruction::Inx => {
                inx(self);
                Ok(())
            },
            Instruction::Iny => {
                iny(self);
                Ok(())
            },
            Instruction::LsrAcc => {
                lsr_acc(self);
                Ok(())
            },
            Instruction::Nop => Ok(()),
            Instruction::Pha => {
                pha(self);
                Ok(())
            },
            Instruction::Php => {
                php(self);
                Ok(())
            },
            Instruction::Pla => {
                pla(self);
                Ok(())
            },
            Instruction::Plp => {
                plp(self);
                Ok(())
            },
            Instruction::RolAcc => {
                rol_acc(self);
                Ok(())
            },
            Instruction::RorAcc => {
                ror_acc(self);
                Ok(())
            },
            Instruction::Rti => {
                rti(self);
                Ok(())
            },
            Instruction::Rts => {
                rts(self);
                Ok(())
            },
            Instruction::Sec => {
                sec(self);
                Ok(())
            },
            Instruction::Sed => {
                sed(self);
                Ok(())
            },
            Instruction::Sei => {
                sei(self);
                Ok(())
            },
            Instruction::Tax => {
                tax(self);
                Ok(())
            },
            Instruction::Tay => {
                tay(self);
                Ok(())
            },
            Instruction::Tsx => {
                tsx(self);
                Ok(())
            },
            Instruction::Txa => {
                txa(self);
                Ok(())
            },
            Instruction::Txs => {
                txs(self);
                Ok(())
            },
            Instruction::Tya => {
                tya(self);
                Ok(())
            },
            _ => Ok(()),
        }
    }

    fn execute(&mut self, i: Instruction, mode: AddressMode) -> (r: Result<(), NesError>)
        requires
            old(self).wf(),
        ensures
            final(self).wf(),
            (final(self)@, r) == old(self)@.execute(i, mode),
    {
        if uses_memory_operand(i) {
            self.execute_memory(i, mode)
        } else if changes_flow(i) {
            self.execute_flow(i)
        } else {
            self.execute_register(i)
        }
    }

    fn interrupt_nmi(&mut self) -> (r: Result<(), NesError>)
        requires
            old(self).wf(),
        ensures
            final(self).wf(),
            (final(self)@, r) == old(self)@.nmi_entry(),
    {
        let pc = self.pc;
        stack_push_u16(self, pc);
        let s = (self.status.bits & !FLAG_BREAK) | FLAG_UNUSED;
        stack_push(self, s);
        self.status.set(FLAG_INTERRUPT_DISABLE, true);
        let target = self.mem_read_u16(NMI_VECTOR)?;
        self.pc = target;
        Ok(())
    }

    fn execute_opcode(&mut self, op: u8) -> (r: Result<(u8, u8), NesError>)
        requires
            old(self).wf(),
        ensures
            final(self).wf(),
            (final(self)@, r) == old(self)@.execute_opcode(op),
    {
        self.pc = self.pc.wrapping_add(1);
        let code = match lookup(op) {
            Some(c) => c,
            None => {
                return Err(NesError::UnknownOpcode(op));
            },
        };
        proof {
            lemma_opcode_table_shape(op);
        }
        let jumps = sets_pc(code.instruction, self.status.bits);
        self.execute(code.instruction, code.mode)?;
        if !jumps {
            self.pc = self.pc.wrapping_add((code.bytes - 1) as u16);
        }
        self.bus.ppu.tick((code.cycles * 3) as u16);
        if self.bus.ppu.should_nmi() {
            self.interrupt_nmi()?;
            Ok((op, code.cycles + 7))
        } else {
            Ok((op, code.cycles))
        }
    }

    /// Executes one instruction and returns the CPU cycles it took,
    /// interrupt entry included.
    pub fn step(&mut self) -> (r: Result<u8, NesError>)
        requires
            old(self).wf(),
        ensures
            final(self).wf(),
            final(self)@ == old(self)@.step().0,
            r == (match old(self)@.step().1 {
                Ok((_, cycles)) => Ok(cycles),
                Err(e) => Err(e),
            }),
    {
        let pc = self.pc;
        let op = self.mem_read(pc)?;
        match self.execute_opcode(op) {
            Ok((_, cycles)) => Ok(cycles),
            Err(e) => Err(e),
        }
    }

    /// `step` with a read-only observer called once, before the fetch; the
    /// observer cannot change the outcome.
    pub fn step_with_callback<F: Fn(&CPU)>(&mut self, callback: F) -> (r: Result<u8, NesError>)
        requires
            old(self).wf(),
            forall|c: &CPU| callback.requires((c,)),
        ensures
            final(self).wf(),
            final(self)@ == old(self)@.step().0,
            r == (match old(self)@.step().1 {
                Ok((_, cycles)) => Ok(cycles),
                Err(e) => Err(e),
            }),
    {
        callback(self);
        self.step()
    }

    /// Runs instructions until the fetched opcode is BRK, which is left
    /// unexecuted (`Ok(true)`), one fails, or `STEP_LIMIT` have run
    /// (`Ok(false)`).
    pub fn interprect(&mut self) -> (r: Result<bool, NesError>)
        requires
            old(self).wf(),
        ensures
            final(self).wf(),
            (final(self)@, r) == old(self)@.run_until_brk(STEP_LIMIT as nat),
    {
        let mut fuel: u32 = STEP_LIMIT;
        loop
            invariant
                self.wf(),
                self@.run_until_brk(fuel as nat) == old(self)@.run_until_brk(STEP_LIMIT as nat),
            decreases fuel,
        {
            if fuel == 0 {
                return Ok(false);
            }
            let pc = self.pc;
            let op = self.mem_read(pc)?;
            if op == 0x00 {
                return Ok(true);
            }
            self.execute_opcode(op)?;
            fuel = fuel - 1;
        }
    }

    /// `interprect` with a read-only observer called before each fetch; the
    /// observer cannot change the outcome.
    pub fn interprect_with_callback<F: Fn(&CPU)>(&mut self, callback: F) -> (r: Result<bool, NesError>)
        requires
            old(self).wf(),
            forall|c: &CPU| callback.requires((c,)),
        ensures
            final(self).wf(),
            (final(self)@, r) == old(self)@.run_until_brk(STEP_LIMIT as nat),
    {
        let mut fuel: u32 = STEP_LIMIT;
        loop
            invariant
                self.wf(),
                forall|c: &CPU| callback.requires((c,)),
                self@.run_until_brk(fuel as nat) == old(self)@.run_until_brk(STEP_LIMIT as nat),
            decreases fuel,
        {
            if fuel == 0 {
                return Ok(false);
            }
            callback(self);
            let pc = self.pc;
            let op = self.mem_read(pc)?;
            if op == 0x00 {
                return Ok(true);
            }
            self.execute_opcode(op)?;
            fuel = fuel - 1;
        }
    }

    /// Reset, then `interprect`.
    pub fn run(&mut self) -> (r: Result<bool, NesError>)
        requires
            old(self).wf(),
        ensures
            final(self).wf(),
            (final(self)@, r) == (match old(self)@.reset() {
                (s, Ok(())) => s.run_until_brk(STEP_LIMIT as nat),
                (s, Err(e)) => (s, Err(e)),
            }),
    {
        self.reset()?;
        self.interprect()
    }
}

/// Building a value from another, as a CPU from a bare program.
pub trait With<T>: Sized {
    fn with(value: T) -> Self;
}

impl With<Vec<u8>> for CPU {
    /// A CPU, not yet reset, on a bus over `Cartridge::from_program(value)`.
    fn with(value: Vec<u8>) -> CPU {
        CPU::new(Bus::new(Cartridge::from_program(&value)))
    }
}

impl CPU {
    /// Swaps in a fresh bus over `Cartridge::from_program(program)`; the
    /// registers stay as they are.
    pub fn load_program(&mut self, program: Vec<u8>)
        ensures
            final(self).wf(),
            final(self)@ == (CpuView {
                bus: BusView {
                    ram: zeros(RAM_SIZE as int),
                    prg_rom: program_rom(program@),
                    ppu: power_on(zeros(CHR_ROM_PAGE_SIZE as int), MirroringType::Horizontal),
                },
                ..old(self)@
            }),
    {
        let cartridge = Cartridge::from_program(&program);
        assert(cartridge.chr@ =~= zeros(CHR_ROM_PAGE_SIZE as int));
        self.bus = Bus::new(cartridge);
    }
}

/// The live status register: U set, B clear.
pub open spec fn status_ok(st: u8) -> bool {
    st & FLAG_UNUSED != 0 && st & FLAG_BREAK == 0
}

/// Updating a flag other than B and U keeps U set and B clear.
pub broadcast proof fn lemma_flag_update_keeps_status(x: u8, f: u8, on: bool)
    requires
        f == 1 || f == 2 || f == 4 || f == 8 || f == 64 || f == 128,
        status_ok(x),
    ensures
        #[trigger] status_ok(with_bits(x, f, on)),
{
    assert(status_ok(with_bits(x, f, on))) by (bit_vector)
        requires
            f == 1 || f == 2 || f == 4 || f == 8 || f == 64 || f == 128,
            status_ok(x),
    ;
}

/// A status pulled from the stack has U set and B clear.
pub broadcast proof fn lemma_pulled_status_ok(v: u8)
    ensures
        #[trigger] status_ok(CpuView::pulled_status(v)),
{
    assert(status_ok(CpuView::pulled_status(v))) by (bit_vector);
}

/// The copies of P that BRK and PHP push have B (and U) set; the copy an
/// NMI pushes has B clear and U set.
pub proof fn lemma_pushed_status(st: u8)
    ensures
        (st | FLAG_BREAK | FLAG_UNUSED) & FLAG_BREAK != 0,
        (st | FLAG_BREAK | FLAG_UNUSED) & FLAG_UNUSED != 0,
        status_ok(CpuView::pulled_status(st)),
{
    assert((st | 0x10 | 0x20) & 0x10 != 0 && (st | 0x10 | 0x20) & 0x20 != 0) by (bit_vector);
    lemma_pulled_status_ok(st);
}

proof fn lemma_op_adc_keeps_status(s: CpuView, mode: AddressMode)
    requires
        status_ok(s.status),
    ensures
        status_ok(s.op_adc(mode).0.status),
{
    broadcast use lemma_flag_update_keeps_status, lemma_pulled_status_ok;
    reveal(CpuView::op_adc);
}

proof fn lemma_op_sbc_keeps_status(s: CpuView, mode: AddressMode)
    requires
        status_ok(s.status),
    ensures
        status_ok(s.op_sbc(mode).0.status),
{
    broadcast use lemma_flag_update_keeps_status, lemma_pulled_status_ok;
    reveal(CpuView::op_sbc);
}

proof fn lemma_op_and_keeps_status(s: CpuView, mode: AddressMode)
    requires
        status_ok(s.status),
    ensures
        status_ok(s.op_and(mode).0.status),
{
    broadcast use lemma_flag_update_keeps_status, lemma_pulled_status_ok;
    reveal(CpuView::op_and);
}

proof fn lemma_op_ora_keeps_status(s: CpuView, mode: AddressMode)
    requires
        status_ok(s.status),
    ensures
        status_ok(s.op_ora(mode).0.status),
{
    broadcast use lemma_flag_update_keeps_status, lemma_pulled_status_ok;
    reveal(CpuView::op_ora);
}

proof fn lemma_op_eor_keeps_status(s: CpuView, mode: AddressMode)
    requires
        status_ok(s.status),
    ensures
        status_ok(s.op_eor(mode).0.status),
{
    broadcast use lemma_flag_update_keeps_status, lemma_pulled_status_ok;
    reveal(CpuView::op_eor);
}

proof fn lemma_op_asl_acc_keeps_status(s: CpuView)
    requires
        status_ok(s.status),
    ensures
        status_ok(s.op_asl_acc().status),
{
    broadcast use lemma_flag_update_keeps_status, lemma_pulled_status_ok;
    reveal(CpuView::op_asl_acc);
}

proof fn lemma_op_asl_keeps_status(s: CpuView, mode: AddressMode)
    requires
        status_ok(s.status),
    ensures
        status_ok(s.op_asl(mode).0.status),
{
    broadcast use lemma_flag_update_keeps_status, lemma_pulled_status_ok;
    reveal(CpuView::op_asl);
}

proof fn lemma_op_lsr_acc_keeps_status(s: CpuView)
    requires
        status_ok(s.status),
    ensures
        status_ok(s.op_lsr_acc().status),
{
    broadcast use lemma_flag_update_keeps_status, lemma_pulled_status_ok;
    reveal(CpuView::op_lsr_acc);
}

proof fn lemma_op_lsr_keeps_status(s: CpuView, mode: AddressMode)
    requires
        status_ok(s.status),
    ensures
        status_ok(s.op_lsr(mode).0.status),
{
    broadcast use lemma_flag_update_keeps_status, lemma_pulled_status_ok;
    reveal(CpuView::op_lsr);
}

proof fn lemma_op_rol_acc_keeps_status(s: CpuView)
    requires
        status_ok(s.status),
    ensures
        status_ok(s.op_rol_acc().status),
{
    broadcast use lemma_flag_update_keeps_status, lemma_pulled_status_ok;
    reveal(CpuView::op_rol_acc);
}

proof fn lemma_op_rol_keeps_status(s: CpuView, mode: AddressMode)
    requires
        status_ok(s.status),
    ensures
        status_ok(s.op_rol(mode).0.status),
{
    broadcast use lemma_flag_update_keeps_status, lemma_pulled_status_ok;
    reveal(CpuView::op_rol);
}

proof fn lemma_op_ror_acc_keeps_status(s: CpuView)
    requires
        status_ok(s.status),
    ensures
        status_ok(s.op_ror_acc().status),
{
    broadcast use lemma_flag_update_keeps_status, lemma_pulled_status_ok;
    reveal(CpuView::op_ror_acc);
}

proof fn lemma_op_ror_keeps_status(s: CpuView, mode: AddressMode)
    requires
        status_ok(s.status),
    ensures
        status_ok(s.op_ror(mode).0.status),
{
    broadcast use lemma_flag_update_keeps_status, lemma_pulled_status_ok;
    reveal(CpuView::op_ror);
}

proof fn lemma_op_bcc_keeps_status(s: CpuView)
    requires
        status_ok(s.status),
    ensures
        status_ok(s.op_bcc().0.status),
{
    broadcast use lemma_flag_update_keeps_status, lemma_pulled_status_ok;
    reveal(CpuView::op_bcc);
}

proof fn lemma_op_bcs_keeps_status(s: CpuView)
    requires
        status_ok(s.status),
    ensures
        status_ok(s.op_bcs().0.status),
{
    broadcast use lemma_flag_update_keeps_status, lemma_pulled_status_ok;
    reveal(CpuView::op_bcs);
}

proof fn lemma_op_beq_keeps_status(s: CpuView)
    requires
        status_ok(s.status),
    ensures
        status_ok(s.op_beq().0.status),
{
    broadcast use lemma_flag_update_keeps_status, lemma_pulled_status_ok;
    reveal(CpuView::op_beq);
}

proof fn lemma_op_bne_keeps_status(s: CpuView)
    requires
        status_ok(s.status),
    ensures
        status_ok(s.op_bne().0.status),
{
    broadcast use lemma_flag_update_keeps_status, lemma_pulled_status_ok;
    reveal(CpuView::op_bne);
}

proof fn lemma_op_bmi_keeps_status(s: CpuView)
    requires
        status_ok(s.status),
    ensures
        status_ok(s.op_bmi().0.status),
{
    broadcast use lemma_flag_update_keeps_status, lemma_pulled_status_ok;
    reveal(CpuView::op_bmi);
}

proof fn lemma_op_bpl_keeps_status(s: CpuView)
    requires
        status_ok(s.status),
    ensures
        status_ok(s.op_bpl().0.status),
{
    broadcast use lemma_flag_update_keeps_status, lemma_pulled_status_ok;
    reveal(CpuView::op_bpl);
}

proof fn lemma_op_bvc_keeps_status(s: CpuView)
    requires
        status_ok(s.status),
    ensures
        status_ok(s.op_bvc().0.status),
{
    broadcast use lemma_flag_update_keeps_status, lemma_pulled_status_ok;
    reveal(CpuView::op_bvc);
}

proof fn lemma_op_bvs_keeps_status(s: CpuView)
    requires
        status_ok(s.status),
    ensures
        status_ok(s.op_bvs().0.status),
{
    broadcast use lemma_flag_update_keeps_status, lemma_pulled_status_ok;
    reveal(CpuView::op_bvs);
}

proof fn lemma_op_cmp_keeps_status(s: CpuView, mode: AddressMode)
    requires
        status_ok(s.status),
    ensures
        status_ok(s.op_cmp(mode).0.status),
{
    broadcast use lemma_flag_update_keeps_status, lemma_pulled_status_ok;
    reveal(CpuView::op_cmp);
}

proof fn lemma_op_cpx_keeps_status(s: CpuView, mode: AddressMode)
    requires
        status_ok(s.status),
    ensures
        status_ok(s.op_cpx(mode).0.status),
{
    broadcast use lemma_flag_update_keeps_status, lemma_pulled_status_ok;
    reveal(CpuView::op_cpx);
}

proof fn lemma_op_cpy_keeps_status(s: CpuView, mode: AddressMode)
    requires
        status_ok(s.status),
    ensures
        status_ok(s.op_cpy(mode).0.status),
{
    broadcast use lemma_flag_update_keeps_status, lemma_pulled_status_ok;
    reveal(CpuView::op_cpy);
}

proof fn lemma_op_inc_keeps_status(s: CpuView, mode: AddressMode)
    requires
        status_ok(s.status),
    ensures
        status_ok(s.op_inc(mode).0.status),
{
    broadcast use lemma_flag_update_keeps_status, lemma_pulled_status_ok;
    reveal(CpuView::op_inc);
}

proof fn lemma_op_dec_keeps_status(s: CpuView, mode: AddressMode)
    requires
        status_ok(s.status),
    ensures
        status_ok(s.op_dec(mode).0.status),
{
    broadcast use lemma_flag_update_keeps_status, lemma_pulled_status_ok;
    reveal(CpuView::op_dec);
}

proof fn lemma_op_inx_keeps_status(s: CpuView)
    requires
        status_ok(s.status),
    ensures
        status_ok(s.op_inx().status),
{
    broadcast use lemma_flag_update_keeps_status, lemma_pulled_status_ok;
    reveal(CpuView::op_inx);
}

proof fn lemma_op_iny_keeps_status(s: CpuView)
    requires
        status_ok(s.status),
    ensures
        status_ok(s.op_iny().status),
{
    broadcast use lemma_flag_update_keeps_status, lemma_pulled_status_ok;
    reveal(CpuView::op_iny);
}

proof fn lemma_op_dex_keeps_status(s: CpuView)
    requires
        status_ok(s.status),
    ensures
        status_ok(s.op_dex().status),
{
    broadcast use lemma_flag_update_keeps_status, lemma_pulled_status_ok;
    reveal(CpuView::op_dex);
}

proof fn lemma_op_dey_keeps_status(s: CpuView)
    requires
        status_ok(s.status),
    ensures
        status_ok(s.op_dey().status),
{
    broadcast use lemma_flag_update_keeps_status, lemma_pulled_status_ok;
    reveal(CpuView::op_dey);
}

proof fn lemma_op_lda_keeps_status(s: CpuView, mode: AddressMode)
    requires
        status_ok(s.status),
    ensures
        status_ok(s.op_lda(mode).0.status),
{
    broadcast use lemma_flag_update_keeps_status, lemma_pulled_status_ok;
    reveal(CpuView::op_lda);
}

proof fn lemma_op_ldx_keeps_status(s: CpuView, mode: AddressMode)
    requires
        status_ok(s.status),
    ensures
        status_ok(s.op_ldx(mode).0.status),
{
    broadcast use lemma_flag_update_keeps_status, lemma_pulled_status_ok;
    reveal(CpuView::op_ldx);
}

proof fn lemma_op_ldy_keeps_status(s: CpuView, mode: AddressMode)
    requires
        status_ok(s.status),
    ensures
        status_ok(s.op_ldy(mode).0.status),
{
    broadcast use lemma_flag_update_keeps_status, lemma_pulled_status_ok;
    reveal(CpuView::op_ldy);
}

proof fn lemma_op_sta_keeps_status(s: CpuView, mode: AddressMode)
    requires
        status_ok(s.status),
    ensures
        status_ok(s.op_sta(mode).0.status),
{
    broadcast use lemma_flag_update_keeps_status, lemma_pulled_status_ok;
    reveal(CpuView::op_sta);
}

proof fn lemma_op_stx_keeps_status(s: CpuView, mode: AddressMode)
    requires
        status_ok(s.status),
    ensures
        status_ok(s.op_stx(mode).0.status),
{
    broadcast use lemma_flag_update_keeps_status, lemma_pulled_status_ok;
    reveal(CpuView::op_stx);
}

proof fn lemma_op_sty_keeps_status(s: CpuView, mode: AddressMode)
    requires
        status_ok(s.status),
    ensures
        status_ok(s.op_sty(mode).0.status),
{
    broadcast use lemma_flag_update_keeps_status, lemma_pulled_status_ok;
    reveal(CpuView::op_sty);
}

proof fn lemma_op_tax_keeps_status(s: CpuView)
    requires
        status_ok(s.status),
    ensures
        status_ok(s.op_tax().status),
{
    broadcast use lemma_flag_update_keeps_status, lemma_pulled_status_ok;
    reveal(CpuView::op_tax);
}

proof fn lemma_op_tay_keeps_status(s: CpuView)
    requires
        status_ok(s.status),
    ensures
        status_ok(s.op_tay().status),
{
    broadcast use lemma_flag_update_keeps_status, lemma_pulled_status_ok;
    reveal(CpuView::op_tay);
}

proof fn lemma_op_txa_keeps_status(s: CpuView)
    requires
        status_ok(s.status),
    ensures
        status_ok(s.op_txa().status),
{
    broadcast use lemma_flag_update_keeps_status, lemma_pulled_status_ok;
    reveal(CpuView::op_txa);
}

proof fn lemma_op_tya_keeps_status(s: CpuView)
    requires
        status_ok(s.status),
    ensures
        status_ok(s.op_tya().status),
{
    broadcast use lemma_flag_update_keeps_status, lemma_pulled_status_ok;
    reveal(CpuView::op_tya);
}

proof fn lemma_op_tsx_keeps_status(s: CpuView)
    requires
        status_ok(s.status),
    ensures
        status_ok(s.op_tsx().status),
{
    broadcast use lemma_flag_update_keeps_status, lemma_pulled_status_ok;
    reveal(CpuView::op_tsx);
}

proof fn lemma_op_txs_keeps_status(s: CpuView)
    requires
        status_ok(s.status),
    ensures
        status_ok(s.op_txs().status),
{
    broadcast use lemma_flag_update_keeps_status, lemma_pulled_status_ok;
    reveal(CpuView::op_txs);
}

proof fn lemma_op_clc_keeps_status(s: CpuView)
    requires
        status_ok(s.status),
    ensures
        status_ok(s.op_clc().status),
{
    broadcast use lemma_flag_update_keeps_status, lemma_pulled_status_ok;
    reveal(CpuView::op_clc);
}

proof fn lemma_op_cld_keeps_status(s: CpuView)
    requires
        status_ok(s.status),
    ensures
        status_ok(s.op_cld().status),
{
    broadcast use lemma_flag_update_keeps_status, lemma_pulled_status_ok;
    reveal(CpuView::op_cld);
}

proof fn lemma_op_cli_keeps_status(s: CpuView)
    requires
        status_ok(s.status),
    ensures
        status_ok(s.op_cli().status),
{
    broadcast use lemma_flag_update_keeps_status, lemma_pulled_status_ok;
    reveal(CpuView::op_cli);
}

proof fn lemma_op_clv_keeps_status(s: CpuView)
    requires
        status_ok(s.status),
    ensures
        status_ok(s.op_clv().status),
{
    broadcast use lemma_flag_update_keeps_status, lemma_pulled_status_ok;
    reveal(CpuView::op_clv);
}

proof fn lemma_op_sec_keeps_status(s: CpuView)
    requires
        status_ok(s.status),
    ensures
        status_ok(s.op_sec().status),
{
    broadcast use lemma_flag_update_keeps_status, lemma_pulled_status_ok;
    reveal(CpuView::op_sec);
}

proof fn lemma_op_sed_keeps_status(s: CpuView)
    requires
        status_ok(s.status),
    ensures
        status_ok(s.op_sed().status),
{
    broadcast use lemma_flag_update_keeps_status, lemma_pulled_status_ok;
    reveal(CpuView::op_sed);
}

proof fn lemma_op_sei_keeps_status(s: CpuView)
    requires
        status_ok(s.status),
    ensures
        status_ok(s.op_sei().status),
{
    broadcast use lemma_flag_update_keeps_status, lemma_pulled_status_ok;
    reveal(CpuView::op_sei);
}

proof fn lemma_op_bit_keeps_status(s: CpuView, mode: AddressMode)
    requires
        status_ok(s.status),
    ensures
        status_ok(s.op_bit(mode).0.status),
{
    broadcast use lemma_flag_update_keeps_status, lemma_pulled_status_ok;
    reveal(CpuView::op_bit);
}

proof fn lemma_op_php_keeps_status(s: CpuView)
    requires
        status_ok(s.status),
    ensures
        status_ok(s.op_php().status),
{
    broadcast use lemma_flag_update_keeps_status, lemma_pulled_status_ok;
    reveal(CpuView::op_php);
}

proof fn lemma_op_plp_keeps_status(s: CpuView)
    requires
        status_ok(s.status),
    ensures
        status_ok(s.op_plp().status),
{
    broadcast use lemma_flag_update_keeps_status, lemma_pulled_status_ok;
    reveal(CpuView::op_plp);
}

proof fn lemma_op_pha_keeps_status(s: CpuView)
    requires
        status_ok(s.status),
    ensures
        status_ok(s.op_pha().status),
{
    broadcast use lemma_flag_update_keeps_status, lemma_pulled_status_ok;
    reveal(CpuView::op_pha);
}

proof fn lemma_op_pla_keeps_status(s: CpuView)
    requires
        status_ok(s.status),
    ensures
        status_ok(s.op_pla().status),
{
    broadcast use lemma_flag_update_keeps_status, lemma_pulled_status_ok;
    reveal(CpuView::op_pla);
}

proof fn lemma_op_jmp_keeps_status(s: CpuView)
    requires
        status_ok(s.status),
    ensures
        status_ok(s.op_jmp().0.status),
{
    broadcast use lemma_flag_update_keeps_status, lemma_pulled_status_ok;
    reveal(CpuView::op_jmp);
}

proof fn lemma_op_jmp_indirect_keeps_status(s: CpuView)
    requires
        status_ok(s.status),
    ensures
        status_ok(s.op_jmp_indirect().0.status),
{
    broadcast use lemma_flag_update_keeps_status, lemma_pulled_status_ok;
    reveal(CpuView::op_jmp_indirect);
}

proof fn lemma_op_jsr_keeps_status(s: CpuView)
    requires
        status_ok(s.status),
    ensures
        status_ok(s.op_jsr().0.status),
{
    broadcast use lemma_flag_update_keeps_status, lemma_pulled_status_ok;
    reveal(CpuView::op_jsr);
}

proof fn lemma_op_rts_keeps_status(s: CpuView)
    requires
        status_ok(s.status),
    ensures
        status_ok(s.op_rts().status),
{
    broadcast use lemma_flag_update_keeps_status, lemma_pulled_status_ok;
    reveal(CpuView::op_rts);
}

proof fn lemma_op_rti_keeps_status(s: CpuView)
    requires
        status_ok(s.status),
    ensures
        status_ok(s.op_rti().status),
{
    broadcast use lemma_flag_update_keeps_status, lemma_pulled_status_ok;
    reveal(CpuView::op_rti);
}

proof fn lemma_op_brk_keeps_status(s: CpuView)
    requires
        status_ok(s.status),
    ensures
        status_ok(s.op_brk().0.status),
{
    broadcast use lemma_flag_update_keeps_status, lemma_pulled_status_ok;
    reveal(CpuView::op_brk);
}

/// Every operation keeps the live status register's U set and B clear: B
/// exists only on pushed copies.
pub proof fn lemma_execute_keeps_status(s: CpuView, i: Instruction, mode: AddressMode)
    requires
        status_ok(s.status),
    ensures
        status_ok(s.execute(i, mode).0.status),
{
    match i {
        Instruction::Adc => lemma_op_adc_keeps_status(s, mode),
        Instruction::And => lemma_op_and_keeps_status(s, mode),
        Instruction::Asl => lemma_op_asl_keeps_status(s, mode),
        Instruction::Bit => lemma_op_bit_keeps_status(s, mode),
        Instruction::Cmp => lemma_op_cmp_keeps_status(s, mode),
        Instruction::Cpx => lemma_op_cpx_keeps_status(s, mode),
        Instruction::Cpy => lemma_op_cpy_keeps_status(s, mode),
        Instruction::Dec => lemma_op_dec_keeps_status(s, mode),
        Instruction::Eor => lemma_op_eor_keeps_status(s, mode),
        Instruction::Inc => lemma_op_inc_keeps_status(s, mode),
        Instruction::Lda => lemma_op_lda_keeps_status(s, mode),
        Instruction::Ldx => lemma_op_ldx_keeps_status(s, mode),
        Instruction::Ldy => lemma_op_ldy_keeps_status(s, mode),
        Instruction::Lsr => lemma_op_lsr_keeps_status(s, mode),
        Instruction::Ora => lemma_op_ora_keeps_status(s, mode),
        Instruction::Rol => lemma_op_rol_keeps_status(s, mode),
        Instruction::Ror => lemma_op_ror_keeps_status(s, mode),
        Instruction::Sbc => lemma_op_sbc_keeps_status(s, mode),
        Instruction::Sta => lemma_op_sta_keeps_status(s, mode),
        Instruction::Stx => lemma_op_stx_keeps_status(s, mode),
        Instruction::Sty => lemma_op_sty_keeps_status(s, mode),
        Instruction::Bcc => lemma_op_bcc_keeps_status(s),
        Instruction::Bcs => lemma_op_bcs_keeps_status(s),
        Instruction::Beq => lemma_op_beq_keeps_status(s),
        Instruction::Bmi => lemma_op_bmi_keeps_status(s),
        Instruction::Bne => lemma_op_bne_keeps_status(s),
        Instruction::Bpl => lemma_op_bpl_keeps_status(s),
        Instruction::Brk => lemma_op_brk_keeps_status(s),
        Instruction::Bvc => lemma_op_bvc_keeps_status(s),
        Instruction::Bvs => lemma_op_bvs_keeps_status(s),
        Instruction::Jmp => lemma_op_jmp_keeps_status(s),
        Instruction::JmpInd => lemma_op_jmp_indirect_keeps_status(s),
        Instruction::Jsr => lemma_op_jsr_keeps_status(s),
        Instruction::AslAcc => lemma_op_asl_acc_keeps_status(s),
        Instruction::Clc => lemma_op_clc_keeps_status(s),
        Instruction::Cld => lemma_op_cld_keeps_status(s),
        Instruction::Cli => lemma_op_cli_keeps_status(s),
        Instruction::Clv => lemma_op_clv_keeps_status(s),
        Instruction::Dex => lemma_op_dex_keeps_status(s),
        Instruction::Dey => lemma_op_dey_keeps_status(s),
        Instruction::Inx => lemma_op_inx_keeps_status(s),
        Instruction::Iny => lemma_op_iny_keeps_status(s),
        Instruction::LsrAcc => lemma_op_lsr_acc_keeps_status(s),
        Instruction::Nop => {},
        Instruction::Pha => lemma_op_pha_keeps_status(s),
        Instruction::Php => lemma_op_php_keeps_status(s),
        Instruction::Pla => lemma_op_pla_keeps_status(s),
        Instruction::Plp => lemma_op_plp_keeps_status(s),
        Instruction::RolAcc => lemma_op_rol_acc_keeps_status(s),
        Instruction::RorAcc => lemma_op_ror_acc_keeps_status(s),
        Instruction::Rti => lemma_op_rti_keeps_status(s),
        Instruction::Rts => lemma_op_rts_keeps_status(s),
        Instruction::Sec => lemma_op_sec_keeps_status(s),
        Instruction::Sed => lemma_op_sed_keeps_status(s),
        Instruction::Sei => lemma_op_sei_keeps_status(s),
        Instruction::Tax => lemma_op_tax_keeps_status(s),
        Instruction::Tay => lemma_op_tay_keeps_status(s),
        Instruction::Tsx => lemma_op_tsx_keeps_status(s),
        Instruction::Txa => lemma_op_txa_keeps_status(s),
        Instruction::Txs => lemma_op_txs_keeps_status(s),
        Instruction::Tya => lemma_op_tya_keeps_status(s),
    }
}

/// A whole step (execution, PPU time and NMI entry) keeps U set and B
/// clear in the live status register.
pub proof fn lemma_step_keeps_status(s: CpuView)
    requires
        status_ok(s.status),
    ensures
        status_ok(s.step().0.status),
{
    broadcast use lemma_flag_update_keeps_status, lemma_pulled_status_ok;
    let (s1, op) = s.read(s.pc);
    if let Ok(op) = op {
        let s2 = CpuView { pc: s1.pc.wrapping_add(1), ..s1 };
        if let Some(code) = opcode_table(op) {
            lemma_execute_keeps_status(s2, code.instruction, code.mode);
        }
    }
}

/// Reset leaves U set and B clear.
pub proof fn lemma_reset_status(s: CpuView)
    ensures
        status_ok(s.reset().0.status),
{
    assert(status_ok(STATUS_RESET)) by (bit_vector);
}

/// The 8-bit registers always hold values in `[0, $FF]`.
pub proof fn lemma_register_ranges(s: CpuView)
    ensures
        0 <= s.sp <= 0xFF,
        0 <= s.acc <= 0xFF,
        0 <= s.rx <= 0xFF,
        0 <= s.ry <= 0xFF,
        0 <= s.status <= 0xFF,
{
}

} // verus!
