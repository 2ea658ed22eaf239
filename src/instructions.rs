//! Semantics of the documented 6502 instructions, each stated over
//! `CpuView` and implemented on `CPU`.
use vstd::prelude::*;
use crate::bus::{BusView, word};
use crate::cpu::{
    page_wrapped_next, zn, AddressMode, CpuView, CPU, FLAG_BREAK, FLAG_CARRY, FLAG_DECIMAL,
    FLAG_INTERRUPT_DISABLE, FLAG_NEGATIVE, FLAG_OVERFLOW, FLAG_UNUSED, FLAG_ZERO, IRQ_VECTOR,
    STACK_BOTTOM_LOC,
};
use crate::error::NesError;
use crate::registers::with_bits;

verus! {

impl CpuView {
    pub open spec fn carry(self) -> int {
        if self.status & FLAG_CARRY != 0 {
            1
        } else {
            0
        }
    }

    pub open spec fn set_zn(self, v: u8) -> CpuView {
        self.with_status(zn(self.status, v))
    }

    pub open spec fn load_a(self, v: u8) -> CpuView {
        CpuView { acc: v, status: zn(self.status, v), ..self }
    }

    pub open spec fn load_x(self, v: u8) -> CpuView {
        CpuView { rx: v, status: zn(self.status, v), ..self }
    }

    pub open spec fn load_y(self, v: u8) -> CpuView {
        CpuView { ry: v, status: zn(self.status, v), ..self }
    }

    /// Runs `f` on the operand byte unless fetching it failed.
    pub open spec fn with_operand(self, mode: AddressMode, f: spec_fn(CpuView, u8) -> CpuView) -> (
        CpuView,
        Result<(), NesError>,
    ) {
        let (s, v) = self.read_operand(mode);
        match v {
            Ok(v) => (f(s, v), Ok(())),
            Err(e) => (s, Err(e)),
        }
    }

    /// Read-modify-write of the operand: `f` gives the new state and the
    /// byte written back.
    pub open spec fn modify(self, mode: AddressMode, f: spec_fn(CpuView, u8) -> (CpuView, u8)) -> (
        CpuView,
        Result<(), NesError>,
    ) {
        let (s1, a) = self.operand_address(mode);
        match a {
            Err(e) => (s1, Err(e)),
            Ok(addr) => {
                let (s2, v) = s1.read(addr);
                match v {
                    Err(e) => (s2, Err(e)),
                    Ok(v) => f(s2, v).0.write(addr, f(s2, v).1),
                }
            },
        }
    }

    /// Stores `v` at the operand address.
    pub open spec fn store(self, mode: AddressMode, v: u8) -> (CpuView, Result<(), NesError>) {
        let (s1, a) = self.operand_address(mode);
        match a {
            Err(e) => (s1, Err(e)),
            Ok(addr) => s1.write(addr, v),
        }
    }

    /// `A + M + C`: A takes the low byte, C the ninth bit, V signed
    /// overflow, and N, Z follow the result.
    pub open spec fn add_to_acc(self, m: u8) -> CpuView {
        let sum = self.acc + m + self.carry();
        let res = (sum % 256) as u8;
        let st = with_bits(self.status, FLAG_CARRY, sum > 0xFF);
        let st = with_bits(st, FLAG_OVERFLOW, (m ^ res) & (self.acc ^ res) & 0x80 != 0);
        CpuView { acc: res, status: zn(st, res), ..self }
    }

    pub open spec fn compare(self, reg: u8, m: u8) -> CpuView {
        self.with_status(zn(with_bits(self.status, FLAG_CARRY, reg >= m), reg.wrapping_sub(m)))
    }

    pub open spec fn asl_value(self, v: u8) -> (CpuView, u8) {
        let res = v << 1u8;
        (self.with_status(zn(with_bits(self.status, FLAG_CARRY, v >> 7u8 == 1), res)), res)
    }

    pub open spec fn lsr_value(self, v: u8) -> (CpuView, u8) {
        let res = v >> 1u8;
        (self.with_status(zn(with_bits(self.status, FLAG_CARRY, v & 1 == 1), res)), res)
    }

    pub open spec fn rol_value(self, v: u8) -> (CpuView, u8) {
        let res = (v << 1u8) | (self.status & FLAG_CARRY);
        (self.with_status(zn(with_bits(self.status, FLAG_CARRY, v >> 7u8 == 1), res)), res)
    }

    pub open spec fn ror_value(self, v: u8) -> (CpuView, u8) {
        let res = (v >> 1u8) | ((self.status & FLAG_CARRY) << 7u8);
        (self.with_status(zn(with_bits(self.status, FLAG_CARRY, v & 1 == 1), res)), res)
    }

    pub open spec fn bit_test(self, m: u8) -> CpuView {
        let st = with_bits(self.status, FLAG_NEGATIVE, m & 0x80 != 0);
        let st = with_bits(st, FLAG_OVERFLOW, m & 0x40 != 0);
        self.with_status(with_bits(st, FLAG_ZERO, self.acc & m == 0))
    }

    pub open spec fn branch(self, cond: bool) -> (CpuView, Result<(), NesError>) {
        if cond {
            let (s, off) = self.read(self.pc);
            match off {
                Ok(off) => (
                    CpuView { pc: s.pc.wrapping_add(1).wrapping_add(off as i8 as u16), ..s },
                    Ok(()),
                ),
                Err(e) => (s, Err(e)),
            }
        } else {
            (self, Ok(()))
        }
    }

    pub open spec fn flag(self, f: u8) -> bool {
        self.status & f != 0
    }

    /// A plain status update.
    pub open spec fn set_flag(self, f: u8, on: bool) -> CpuView {
        self.with_status(with_bits(self.status, f, on))
    }

    pub open spec fn jmp_absolute(self) -> (CpuView, Result<(), NesError>) {
        let (s, t) = self.read16(self.pc);
        match t {
            Ok(t) => (CpuView { pc: t, ..s }, Ok(())),
            Err(e) => (s, Err(e)),
        }
    }

    /// `JMP (ptr)`, with the high byte read from the same page as the low.
    pub open spec fn jmp_indirect(self) -> (CpuView, Result<(), NesError>) {
        let (s, p) = self.read16(self.pc);
        match p {
            Err(e) => (s, Err(e)),
            Ok(ptr) => {
                let (s1, lo) = s.read(ptr);
                match lo {
                    Err(e) => (s1, Err(e)),
                    Ok(lo) => {
                        let (s2, hi) = s1.read(page_wrapped_next(ptr));
                        match hi {
                            Err(e) => (s2, Err(e)),
                            Ok(hi) => (CpuView { pc: word(lo, hi), ..s2 }, Ok(())),
                        }
                    },
                }
            },
        }
    }

    /// Pushes the address of JSR's last byte and jumps.
    pub open spec fn jsr(self) -> (CpuView, Result<(), NesError>) {
        let (s, t) = self.read16(self.pc);
        match t {
            Ok(t) => (CpuView { pc: t, ..s.push16(s.pc.wrapping_add(1)) }, Ok(())),
            Err(e) => (s, Err(e)),
        }
    }

    pub open spec fn rts(self) -> CpuView {
        let (s, a) = self.pop16();
        CpuView { pc: a.wrapping_add(1), ..s }
    }

    /// Status as pulled from the stack: B cleared, U set.
    pub open spec fn pulled_status(v: u8) -> u8 {
        (v & !FLAG_BREAK) | FLAG_UNUSED
    }

    pub open spec fn rti(self) -> CpuView {
        let (s1, p) = self.pop();
        let (s2, a) = s1.pop16();
        CpuView { pc: a, status: Self::pulled_status(p), ..s2 }
    }

    pub open spec fn php(self) -> CpuView {
        self.push(self.status | FLAG_BREAK | FLAG_UNUSED)
    }

    pub open spec fn plp(self) -> CpuView {
        let (s, p) = self.pop();
        s.with_status(Self::pulled_status(p))
    }

    pub open spec fn pla(self) -> CpuView {
        let (s, v) = self.pop();
        s.load_a(v)
    }

    /// Pushes PC + 1 and `P | B | U`, sets I and jumps through `$FFFE`.
    pub open spec fn brk(self) -> (CpuView, Result<(), NesError>) {
        let s = self.push16(self.pc.wrapping_add(1)).push(self.status | FLAG_BREAK | FLAG_UNUSED);
        let s = s.set_flag(FLAG_INTERRUPT_DISABLE, true);
        let (s1, t) = s.read16(IRQ_VECTOR);
        match t {
            Ok(t) => (CpuView { pc: t, ..s1 }, Ok(())),
            Err(e) => (s1, Err(e)),
        }
    }
}

impl CpuView {
    #[verifier::opaque]
    pub open spec fn op_adc(self, mode: AddressMode) -> (CpuView, Result<(), NesError>) {
        self.with_operand(mode, |s: CpuView, m: u8| s.add_to_acc(m))
    }

    #[verifier::opaque]
    pub open spec fn op_sbc(self, mode: AddressMode) -> (CpuView, Result<(), NesError>) {
        self.with_operand(mode, |s: CpuView, m: u8| s.add_to_acc(!m))
    }

    #[verifier::opaque]
    pub open spec fn op_and(self, mode: AddressMode) -> (CpuView, Result<(), NesError>) {
        self.with_operand(mode, |s: CpuView, m: u8| s.load_a(s.acc & m))
    }

    #[verifier::opaque]
    pub open spec fn op_ora(self, mode: AddressMode) -> (CpuView, Result<(), NesError>) {
        self.with_operand(mode, |s: CpuView, m: u8| s.load_a(s.acc | m))
    }

    #[verifier::opaque]
    pub open spec fn op_eor(self, mode: AddressMode) -> (CpuView, Result<(), NesError>) {
        self.with_operand(mode, |s: CpuView, m: u8| s.load_a(s.acc ^ m))
    }

    #[verifier::opaque]
    pub open spec fn op_asl_acc(self) -> CpuView {
        (CpuView {
            acc: self.asl_value(self.acc).1,
            ..self.asl_value(self.acc).0
        })
    }

    #[verifier::opaque]
    pub open spec fn op_asl(self, mode: AddressMode) -> (CpuView, Result<(), NesError>) {
        self.modify(mode, |s: CpuView, v: u8| s.asl_value(v))
    }

    #[verifier::opaque]
    pub open spec fn op_lsr_acc(self) -> CpuView {
        (CpuView {
            acc: self.lsr_value(self.acc).1,
            ..self.lsr_value(self.acc).0
        })
    }

    #[verifier::opaque]
    pub open spec fn op_lsr(self, mode: AddressMode) -> (CpuView, Result<(), NesError>) {
        self.modify(mode, |s: CpuView, v: u8| s.lsr_value(v))
    }

    #[verifier::opaque]
    pub open spec fn op_rol_acc(self) -> CpuView {
        (CpuView {
            acc: self.rol_value(self.acc).1,
            ..self.rol_value(self.acc).0
        })
    }

    #[verifier::opaque]
    pub open spec fn op_rol(self, mode: AddressMode) -> (CpuView, Result<(), NesError>) {
        self.modify(mode, |s: CpuView, v: u8| s.rol_value(v))
    }

    #[verifier::opaque]
    pub open spec fn op_ror_acc(self) -> CpuView {
        (CpuView {
            acc: self.ror_value(self.acc).1,
            ..self.ror_value(self.acc).0
        })
    }

    #[verifier::opaque]
    pub open spec fn op_ror(self, mode: AddressMode) -> (CpuView, Result<(), NesError>) {
        self.modify(mode, |s: CpuView, v: u8| s.ror_value(v))
    }

    #[verifier::opaque]
    pub open spec fn op_bcc(self) -> (CpuView, Result<(), NesError>) {
        self.branch(!self.flag(FLAG_CARRY))
    }

    #[verifier::opaque]
    pub open spec fn op_bcs(self) -> (CpuView, Result<(), NesError>) {
        self.branch(self.flag(FLAG_CARRY))
    }

    #[verifier::opaque]
    pub open spec fn op_beq(self) -> (CpuView, Result<(), NesError>) {
        self.branch(self.flag(FLAG_ZERO))
    }

    #[verifier::opaque]
    pub open spec fn op_bne(self) -> (CpuView, Result<(), NesError>) {
        self.branch(!self.flag(FLAG_ZERO))
    }

    #[verifier::opaque]
    pub open spec fn op_bmi(self) -> (CpuView, Result<(), NesError>) {
        self.branch(self.flag(FLAG_NEGATIVE))
    }

    #[verifier::opaque]
    pub open spec fn op_bpl(self) -> (CpuView, Result<(), NesError>) {
        self.branch(!self.flag(FLAG_NEGATIVE))
    }

    #[verifier::opaque]
    pub open spec fn op_bvc(self) -> (CpuView, Result<(), NesError>) {
        self.branch(!self.flag(FLAG_OVERFLOW))
    }

    #[verifier::opaque]
    pub open spec fn op_bvs(self) -> (CpuView, Result<(), NesError>) {
        self.branch(self.flag(FLAG_OVERFLOW))
    }

    #[verifier::opaque]
    pub open spec fn op_cmp(self, mode: AddressMode) -> (CpuView, Result<(), NesError>) {
        self.with_operand(mode, |s: CpuView, m: u8| s.compare(s.acc, m))
    }

    #[verifier::opaque]
    pub open spec fn op_cpx(self, mode: AddressMode) -> (CpuView, Result<(), NesError>) {
        self.with_operand(mode, |s: CpuView, m: u8| s.compare(s.rx, m))
    }

    #[verifier::opaque]
    pub open spec fn op_cpy(self, mode: AddressMode) -> (CpuView, Result<(), NesError>) {
        self.with_operand(mode, |s: CpuView, m: u8| s.compare(s.ry, m))
    }

    #[verifier::opaque]
    pub open spec fn op_inc(self, mode: AddressMode) -> (CpuView, Result<(), NesError>) {
        self.modify(mode, |s: CpuView, v: u8| (s.set_zn(v.wrapping_add(1)), v.wrapping_add(1)))
    }

    #[verifier::opaque]
    pub open spec fn op_dec(self, mode: AddressMode) -> (CpuView, Result<(), NesError>) {
        self.modify(mode, |s: CpuView, v: u8| (s.set_zn(v.wrapping_sub(1)), v.wrapping_sub(1)))
    }

    #[verifier::opaque]
    pub open spec fn op_inx(self) -> CpuView {
        self.load_x(self.rx.wrapping_add(1))
    }

    #[verifier::opaque]
    pub open spec fn op_iny(self) -> CpuView {
        self.load_y(self.ry.wrapping_add(1))
    }

    #[verifier::opaque]
    pub open spec fn op_dex(self) -> CpuView {
        self.load_x(self.rx.wrapping_sub(1))
    }

    #[verifier::opaque]
    pub open spec fn op_dey(self) -> CpuView {
        self.load_y(self.ry.wrapping_sub(1))
    }

    #[verifier::opaque]
    pub open spec fn op_lda(self, mode: AddressMode) -> (CpuView, Result<(), NesError>) {
        self.with_operand(mode, |s: CpuView, m: u8| s.load_a(m))
    }

    #[verifier::opaque]
    pub open spec fn op_ldx(self, mode: AddressMode) -> (CpuView, Result<(), NesError>) {
        self.with_operand(mode, |s: CpuView, m: u8| s.load_x(m))
    }

    #[verifier::opaque]
    pub open spec fn op_ldy(self, mode: AddressMode) -> (CpuView, Result<(), NesError>) {
        self.with_operand(mode, |s: CpuView, m: u8| s.load_y(m))
    }

    #[verifier::opaque]
    pub open spec fn op_sta(self, mode: AddressMode) -> (CpuView, Result<(), NesError>) {
        self.store(mode, self.acc)
    }

    #[verifier::opaque]
    pub open spec fn op_stx(self, mode: AddressMode) -> (CpuView, Result<(), NesError>) {
        self.store(mode, self.rx)
    }

    #[verifier::opaque]
    pub open spec fn op_sty(self, mode: AddressMode) -> (CpuView, Result<(), NesError>) {
        self.store(mode, self.ry)
    }

    #[verifier::opaque]
    pub open spec fn op_tax(self) -> CpuView {
        self.load_x(self.acc)
    }

    #[verifier::opaque]
    pub open spec fn op_tay(self) -> CpuView {
        self.load_y(self.acc)
    }

    #[verifier::opaque]
    pub open spec fn op_txa(self) -> CpuView {
        self.load_a(self.rx)
    }

    #[verifier::opaque]
    pub open spec fn op_tya(self) -> CpuView {
        self.load_a(self.ry)
    }

    #[verifier::opaque]
    pub open spec fn op_tsx(self) -> CpuView {
        self.load_x(self.sp)
    }

    #[verifier::opaque]
    pub open spec fn op_txs(self) -> CpuView {
        (CpuView { sp: self.rx, ..self })
    }

    #[verifier::opaque]
    pub open spec fn op_clc(self) -> CpuView {
        self.set_flag(FLAG_CARRY, false)
    }

    #[verifier::opaque]
    pub open spec fn op_cld(self) -> CpuView {
        self.set_flag(FLAG_DECIMAL, false)
    }

    #[verifier::opaque]
    pub open spec fn op_cli(self) -> CpuView {
        self.set_flag(FLAG_INTERRUPT_DISABLE, false)
    }

    #[verifier::opaque]
    pub open spec fn op_clv(self) -> CpuView {
        self.set_flag(FLAG_OVERFLOW, false)
    }

    #[verifier::opaque]
    pub open spec fn op_sec(self) -> CpuView {
        self.set_flag(FLAG_CARRY, true)
    }

    #[verifier::opaque]
    pub open spec fn op_sed(self) -> CpuView {
        self.set_flag(FLAG_DECIMAL, true)
    }

    #[verifier::opaque]
    pub open spec fn op_sei(self) -> CpuView {
        self.set_flag(FLAG_INTERRUPT_DISABLE, true)
    }

    #[verifier::opaque]
    pub open spec fn op_bit(self, mode: AddressMode) -> (CpuView, Result<(), NesError>) {
        self.with_operand(mode, |s: CpuView, m: u8| s.bit_test(m))
    }

    #[verifier::opaque]
    pub open spec fn op_php(self) -> CpuView {
        self.php()
    }

    #[verifier::opaque]
    pub open spec fn op_plp(self) -> CpuView {
        self.plp()
    }

    #[verifier::opaque]
    pub open spec fn op_pha(self) -> CpuView {
        self.push(self.acc)
    }

    #[verifier::opaque]
    pub open spec fn op_pla(self) -> CpuView {
        self.pla()
    }

    #[verifier::opaque]
    pub open spec fn op_jmp(self) -> (CpuView, Result<(), NesError>) {
        self.jmp_absolute()
    }

    #[verifier::opaque]
    pub open spec fn op_jmp_indirect(self) -> (CpuView, Result<(), NesError>) {
        self.jmp_indirect()
    }

    #[verifier::opaque]
    pub open spec fn op_jsr(self) -> (CpuView, Result<(), NesError>) {
        self.jsr()
    }

    #[verifier::opaque]
    pub open spec fn op_rts(self) -> CpuView {
        self.rts()
    }

    #[verifier::opaque]
    pub open spec fn op_rti(self) -> CpuView {
        self.rti()
    }

    #[verifier::opaque]
    pub open spec fn op_brk(self) -> (CpuView, Result<(), NesError>) {
        self.brk()
    }
}

/* flags */

pub fn update_zero_flag(cpu: &mut CPU, v: u8)
    ensures
        final(cpu)@ == old(cpu)@.set_flag(FLAG_ZERO, v == 0),
{
    cpu.status.set(FLAG_ZERO, v == 0);
}

pub fn update_neg_flag(cpu: &mut CPU, v: u8)
    ensures
        final(cpu)@ == old(cpu)@.set_flag(FLAG_NEGATIVE, v & 0x80 != 0),
{
    cpu.status.set(FLAG_NEGATIVE, v & 0x80 != 0);
}

pub fn update_overflow_flag(cpu: &mut CPU, flag: bool)
    ensures
        final(cpu)@ == old(cpu)@.set_flag(FLAG_OVERFLOW, flag),
{
    cpu.status.set(FLAG_OVERFLOW, flag);
}

pub fn update_carry_flag(cpu: &mut CPU, flag: bool)
    ensures
        final(cpu)@ == old(cpu)@.set_flag(FLAG_CARRY, flag),
{
    cpu.status.set(FLAG_CARRY, flag);
}

fn update_zn(cpu: &mut CPU, v: u8)
    ensures
        final(cpu)@ == old(cpu)@.set_zn(v),
{
    update_zero_flag(cpu, v);
    update_neg_flag(cpu, v);
}

/* stack */

/// Writes `value` at `$0100 + SP`, then decrements SP.
pub fn stack_push(cpu: &mut CPU, value: u8)
    requires
        old(cpu).wf(),
    ensures
        final(cpu).wf(),
        final(cpu)@ == old(cpu)@.push(value),
{
    let sp = cpu.sp;
    proof {
        crate::cpu::lemma_stack_address(sp);
    }
    let _ = cpu.mem_write(STACK_BOTTOM_LOC + sp as u16, value);
    cpu.sp = sp.wrapping_sub(1);
    assert(cpu@.bus.ram =~= old(cpu)@.push(value).bus.ram);
}

/// Increments SP, then reads `$0100 + SP`.
pub fn stack_pop(cpu: &mut CPU) -> (r: u8)
    requires
        old(cpu).wf(),
    ensures
        final(cpu).wf(),
        (final(cpu)@, r) == old(cpu)@.pop(),
{
    let sp = cpu.sp.wrapping_add(1);
    cpu.sp = sp;
    proof {
        crate::cpu::lemma_stack_address(sp);
    }
    let r = cpu.mem_read(STACK_BOTTOM_LOC + sp as u16);
    match r {
        Ok(v) => v,
        Err(_) => 0,
    }
}

pub fn stack_push_u16(cpu: &mut CPU, value: u16)
    requires
        old(cpu).wf(),
    ensures
        final(cpu).wf(),
        final(cpu)@ == old(cpu)@.push16(value),
{
    stack_push(cpu, (value >> 8u16) as u8);
    stack_push(cpu, (value & 0xFF) as u8);
}

pub fn stack_pop_u16(cpu: &mut CPU) -> (r: u16)
    requires
        old(cpu).wf(),
    ensures
        final(cpu).wf(),
        (final(cpu)@, r) == old(cpu)@.pop16(),
{
    let lo = stack_pop(cpu);
    let hi = stack_pop(cpu);
    (hi as u16) << 8u16 | lo as u16
}

/// `reg - M` without storing: C when `reg >= M`, Z and N from the difference.
pub fn compare(cpu: &mut CPU, v1: u8, v2: u8)
    ensures
        final(cpu)@ == old(cpu)@.compare(v1, v2),
{
    update_carry_flag(cpu, v1 >= v2);
    update_zn(cpu, v1.wrapping_sub(v2));
}

/// Adds `data` and the carry into A (ADC's arithmetic).
pub fn add_to_acc(cpu: &mut CPU, data: u8)
    ensures
        final(cpu)@ == old(cpu)@.add_to_acc(data),
{
    let carry: u16 = if cpu.status.contains(FLAG_CARRY) {
        1
    } else {
        0
    };
    proof {
        let b = old(cpu).status.bits;
        assert((b & FLAG_CARRY == FLAG_CARRY) == (b & FLAG_CARRY != 0)) by (bit_vector);
    }
    let sum: u16 = cpu.acc as u16 + data as u16 + carry;
    let res = (sum & 0xFF) as u8;
    proof {
        assert(sum & 0xFF == sum % 256) by (bit_vector);
    }
    update_carry_flag(cpu, sum > 0xFF);
    let acc = cpu.acc;
    update_overflow_flag(cpu, (data ^ res) & (acc ^ res) & 0x80 != 0);
    cpu.acc = res;
    update_zn(cpu, res);
}

/// Takes a relative branch when `flag` holds: PC goes to the target,
/// counted from the byte after the offset. Otherwise nothing changes.
pub fn branch(cpu: &mut CPU, flag: bool) -> (r: Result<(), NesError>)
    requires
        old(cpu).wf(),
    ensures
        final(cpu).wf(),
        (final(cpu)@, r) == old(cpu)@.branch(flag),
{
    if flag {
        let pc = cpu.pc;
        let offset = cpu.mem_read(pc)?;
        cpu.pc = cpu.pc.wrapping_add(1).wrapping_add(offset as i8 as u16);
    }
    Ok(())
}

/// Add with carry.
pub fn adc(cpu: &mut CPU, mode: &AddressMode) -> (r: Result<(), NesError>)
    requires
        old(cpu).wf(),
    ensures
        final(cpu).wf(),
        (final(cpu)@, r) == old(cpu)@.op_adc(*mode),
{
    reveal(CpuView::op_adc);
    let m = cpu.read_operand(mode)?;
    add_to_acc(cpu, m);
    Ok(())
}

/// Subtract with borrow: ADC of the operand's complement.
pub fn sbc(cpu: &mut CPU, mode: &AddressMode) -> (r: Result<(), NesError>)
    requires
        old(cpu).wf(),
    ensures
        final(cpu).wf(),
        (final(cpu)@, r) == old(cpu)@.op_sbc(*mode),
{
    reveal(CpuView::op_sbc);
    let m = cpu.read_operand(mode)?;
    add_to_acc(cpu, !m);
    Ok(())
}

/// Bitwise AND into A.
pub fn and(cpu: &mut CPU, mode: &AddressMode) -> (r: Result<(), NesError>)
    requires
        old(cpu).wf(),
    ensures
        final(cpu).wf(),
        (final(cpu)@, r) == old(cpu)@.op_and(*mode),
{
    reveal(CpuView::op_and);
    let m = cpu.read_operand(mode)?;
    let res = cpu.acc & m;
    cpu.acc = res;
    update_zn(cpu, res);
    Ok(())
}

/// Bitwise OR into A.
pub fn ora(cpu: &mut CPU, mode: &AddressMode) -> (r: Result<(), NesError>)
    requires
        old(cpu).wf(),
    ensures
        final(cpu).wf(),
        (final(cpu)@, r) == old(cpu)@.op_ora(*mode),
{
    reveal(CpuView::op_ora);
    let m = cpu.read_operand(mode)?;
    let res = cpu.acc | m;
    cpu.acc = res;
    update_zn(cpu, res);
    Ok(())
}

/// Bitwise exclusive OR into A.
pub fn eor(cpu: &mut CPU, mode: &AddressMode) -> (r: Result<(), NesError>)
    requires
        old(cpu).wf(),
    ensures
        final(cpu).wf(),
        (final(cpu)@, r) == old(cpu)@.op_eor(*mode),
{
    reveal(CpuView::op_eor);
    let m = cpu.read_operand(mode)?;
    let res = cpu.acc ^ m;
    cpu.acc = res;
    update_zn(cpu, res);
    Ok(())
}

/// Arithmetic shift left of A.
pub fn asl_acc(cpu: &mut CPU)
    requires
        old(cpu).wf(),
    ensures
        final(cpu).wf(),
        final(cpu)@ == old(cpu)@.op_asl_acc(),
{
    reveal(CpuView::op_asl_acc);
    let v = cpu.acc;
    let res = v << 1u8;
    update_carry_flag(cpu, v >> 7u8 == 1);
    cpu.acc = res;
    update_zn(cpu, res);
}

/// Arithmetic shift left of the operand in memory.
pub fn asl(cpu: &mut CPU, mode: &AddressMode) -> (r: Result<(), NesError>)
    requires
        old(cpu).wf(),
    ensures
        final(cpu).wf(),
        (final(cpu)@, r) == old(cpu)@.op_asl(*mode),
{
    reveal(CpuView::op_asl);
    let addr = cpu.get_operand_address(mode)?;
    let v = cpu.mem_read(addr)?;
    let res = v << 1u8;
    update_carry_flag(cpu, v >> 7u8 == 1);
    update_zn(cpu, res);
    cpu.mem_write(addr, res)
}

/// Logical shift right of A.
pub fn lsr_acc(cpu: &mut CPU)
    requires
        old(cpu).wf(),
    ensures
        final(cpu).wf(),
        final(cpu)@ == old(cpu)@.op_lsr_acc(),
{
    reveal(CpuView::op_lsr_acc);
    let v = cpu.acc;
    let res = v >> 1u8;
    update_carry_flag(cpu, v & 1 == 1);
    cpu.acc = res;
    update_zn(cpu, res);
}

/// Logical shift right of the operand in memory.
pub fn lsr(cpu: &mut CPU, mode: &AddressMode) -> (r: Result<(), NesError>)
    requires
        old(cpu).wf(),
    ensures
        final(cpu).wf(),
        (final(cpu)@, r) == old(cpu)@.op_lsr(*mode),
{
    reveal(CpuView::op_lsr);
    let addr = cpu.get_operand_address(mode)?;
    let v = cpu.mem_read(addr)?;
    let res = v >> 1u8;
    update_carry_flag(cpu, v & 1 == 1);
    update_zn(cpu, res);
    cpu.mem_write(addr, res)
}

/// Rotate left through carry of A.
pub fn rol_acc(cpu: &mut CPU)
    requires
        old(cpu).wf(),
    ensures
        final(cpu).wf(),
        final(cpu)@ == old(cpu)@.op_rol_acc(),
{
    reveal(CpuView::op_rol_acc);
    let v = cpu.acc;
    let res = (v << 1u8) | (cpu.status.bits & FLAG_CARRY);
    update_carry_flag(cpu, v >> 7u8 == 1);
    cpu.acc = res;
    update_zn(cpu, res);
}

/// Rotate left through carry of the operand in memory.
pub fn rol(cpu: &mut CPU, mode: &AddressMode) -> (r: Result<(), NesError>)
    requires
        old(cpu).wf(),
    ensures
        final(cpu).wf(),
        (final(cpu)@, r) == old(cpu)@.op_rol(*mode),
{
    reveal(CpuView::op_rol);
    let addr = cpu.get_operand_address(mode)?;
    let v = cpu.mem_read(addr)?;
    let res = (v << 1u8) | (cpu.status.bits & FLAG_CARRY);
    update_carry_flag(cpu, v >> 7u8 == 1);
    update_zn(cpu, res);
    cpu.mem_write(addr, res)
}

/// Rotate right through carry of A.
pub fn ror_acc(cpu: &mut CPU)
    requires
        old(cpu).wf(),
    ensures
        final(cpu).wf(),
        final(cpu)@ == old(cpu)@.op_ror_acc(),
{
    reveal(CpuView::op_ror_acc);
    let v = cpu.acc;
    let res = (v >> 1u8) | ((cpu.status.bits & FLAG_CARRY) << 7u8);
    update_carry_flag(cpu, v & 1 == 1);
    cpu.acc = res;
    update_zn(cpu, res);
}

/// Rotate right through carry of the operand in memory.
pub fn ror(cpu: &mut CPU, mode: &AddressMode) -> (r: Result<(), NesError>)
    requires
        old(cpu).wf(),
    ensures
        final(cpu).wf(),
        (final(cpu)@, r) == old(cpu)@.op_ror(*mode),
{
    reveal(CpuView::op_ror);
    let addr = cpu.get_operand_address(mode)?;
    let v = cpu.mem_read(addr)?;
    let res = (v >> 1u8) | ((cpu.status.bits & FLAG_CARRY) << 7u8);
    update_carry_flag(cpu, v & 1 == 1);
    update_zn(cpu, res);
    cpu.mem_write(addr, res)
}

/// Branch when carry is clear.
pub fn bcc(cpu: &mut CPU) -> (r: Result<(), NesError>)
    requires
        old(cpu).wf(),
    ensures
        final(cpu).wf(),
        (final(cpu)@, r) == old(cpu)@.op_bcc(),
{
    reveal(CpuView::op_bcc);
    let taken = cpu.status.bits & FLAG_CARRY == 0;
    branch(cpu, taken)
}

/// Branch when carry is set.
pub fn bcs(cpu: &mut CPU) -> (r: Result<(), NesError>)
    requires
        old(cpu).wf(),
    ensures
        final(cpu).wf(),
        (final(cpu)@, r) == old(cpu)@.op_bcs(),
{
    reveal(CpuView::op_bcs);
    let taken = cpu.status.bits & FLAG_CARRY != 0;
    branch(cpu, taken)
}

/// Branch when zero is set.
pub fn beq(cpu: &mut CPU) -> (r: Result<(), NesError>)
    requires
        old(cpu).wf(),
    ensures
        final(cpu).wf(),
        (final(cpu)@, r) == old(cpu)@.op_beq(),
{
    reveal(CpuView::op_beq);
    let taken = cpu.status.bits & FLAG_ZERO != 0;
    branch(cpu, taken)
}

/// Branch when zero is clear.
pub fn bne(cpu: &mut CPU) -> (r: Result<(), NesError>)
    requires
        old(cpu).wf(),
    ensures
        final(cpu).wf(),
        (final(cpu)@, r) == old(cpu)@.op_bne(),
{
    reveal(CpuView::op_bne);
    let taken = cpu.status.bits & FLAG_ZERO == 0;
    branch(cpu, taken)
}

/// Branch when negative is set.
pub fn bmi(cpu: &mut CPU) -> (r: Result<(), NesError>)
    requires
        old(cpu).wf(),
    ensures
        final(cpu).wf(),
        (final(cpu)@, r) == old(cpu)@.op_bmi(),
{
    reveal(CpuView::op_bmi);
    let taken = cpu.status.bits & FLAG_NEGATIVE != 0;
    branch(cpu, taken)
}

/// Branch when negative is clear.
pub fn bpl(cpu: &mut CPU) -> (r: Result<(), NesError>)
    requires
        old(cpu).wf(),
    ensures
        final(cpu).wf(),
        (final(cpu)@, r) == old(cpu)@.op_bpl(),
{
    reveal(CpuView::op_bpl);
    let taken = cpu.status.bits & FLAG_NEGATIVE == 0;
    branch(cpu, taken)
}

/// Branch when overflow is clear.
pub fn bvc(cpu: &mut CPU) -> (r: Result<(), NesError>)
    requires
        old(cpu).wf(),
    ensures
        final(cpu).wf(),
        (final(cpu)@, r) == old(cpu)@.op_bvc(),
{
    reveal(CpuView::op_bvc);
    let taken = cpu.status.bits & FLAG_OVERFLOW == 0;
    branch(cpu, taken)
}

/// Branch when overflow is set.
pub fn bvs(cpu: &mut CPU) -> (r: Result<(), NesError>)
    requires
        old(cpu).wf(),
    ensures
        final(cpu).wf(),
        (final(cpu)@, r) == old(cpu)@.op_bvs(),
{
    reveal(CpuView::op_bvs);
    let taken = cpu.status.bits & FLAG_OVERFLOW != 0;
    branch(cpu, taken)
}

/// Compare acc with the operand.
pub fn cmp(cpu: &mut CPU, mode: &AddressMode) -> (r: Result<(), NesError>)
    requires
        old(cpu).wf(),
    ensures
        final(cpu).wf(),
        (final(cpu)@, r) == old(cpu)@.op_cmp(*mode),
{
    reveal(CpuView::op_cmp);
    let m = cpu.read_operand(mode)?;
    let reg = cpu.acc;
    compare(cpu, reg, m);
    Ok(())
}

/// Compare rx with the operand.
pub fn cpx(cpu: &mut CPU, mode: &AddressMode) -> (r: Result<(), NesError>)
    requires
        old(cpu).wf(),
    ensures
        final(cpu).wf(),
        (final(cpu)@, r) == old(cpu)@.op_cpx(*mode),
{
    reveal(CpuView::op_cpx);
    let m = cpu.read_operand(mode)?;
    let reg = cpu.rx;
    compare(cpu, reg, m);
    Ok(())
}

/// Compare ry with the operand.
pub fn cpy(cpu: &mut CPU, mode: &AddressMode) -> (r: Result<(), NesError>)
    requires
        old(cpu).wf(),
    ensures
        final(cpu).wf(),
        (final(cpu)@, r) == old(cpu)@.op_cpy(*mode),
{
    reveal(CpuView::op_cpy);
    let m = cpu.read_operand(mode)?;
    let reg = cpu.ry;
    compare(cpu, reg, m);
    Ok(())
}

/// Increment the operand in memory.
pub fn inc(cpu: &mut CPU, mode: &AddressMode) -> (r: Result<(), NesError>)
    requires
        old(cpu).wf(),
    ensures
        final(cpu).wf(),
        (final(cpu)@, r) == old(cpu)@.op_inc(*mode),
{
    reveal(CpuView::op_inc);
    let addr = cpu.get_operand_address(mode)?;
    let v = cpu.mem_read(addr)?;
    let res = v.wrapping_add(1);
    update_zn(cpu, res);
    cpu.mem_write(addr, res)
}

/// Decrement the operand in memory.
pub fn dec(cpu: &mut CPU, mode: &AddressMode) -> (r: Result<(), NesError>)
    requires
        old(cpu).wf(),
    ensures
        final(cpu).wf(),
        (final(cpu)@, r) == old(cpu)@.op_dec(*mode),
{
    reveal(CpuView::op_dec);
    let addr = cpu.get_operand_address(mode)?;
    let v = cpu.mem_read(addr)?;
    let res = v.wrapping_sub(1);
    update_zn(cpu, res);
    cpu.mem_write(addr, res)
}

/// Increment X.
pub fn inx(cpu: &mut CPU)
    requires
        old(cpu).wf(),
    ensures
        final(cpu).wf(),
        final(cpu)@ == old(cpu)@.op_inx(),
{
    reveal(CpuView::op_inx);
    let res = cpu.rx.wrapping_add(1);
    cpu.rx = res;
    update_zn(cpu, res);
}

/// Increment Y.
pub fn iny(cpu: &mut CPU)
    requires
        old(cpu).wf(),
    ensures
        final(cpu).wf(),
        final(cpu)@ == old(cpu)@.op_iny(),
{
    reveal(CpuView::op_iny);
    let res = cpu.ry.wrapping_add(1);
    cpu.ry = res;
    update_zn(cpu, res);
}

/// Decrement X.
pub fn dex(cpu: &mut CPU)
    requires
        old(cpu).wf(),
    ensures
        final(cpu).wf(),
        final(cpu)@ == old(cpu)@.op_dex(),
{
    reveal(CpuView::op_dex);
    let res = cpu.rx.wrapping_sub(1);
    cpu.rx = res;
    update_zn(cpu, res);
}

/// Decrement Y.
pub fn dey(cpu: &mut CPU)
    requires
        old(cpu).wf(),
    ensures
        final(cpu).wf(),
        final(cpu)@ == old(cpu)@.op_dey(),
{
    reveal(CpuView::op_dey);
    let res = cpu.ry.wrapping_sub(1);
    cpu.ry = res;
    update_zn(cpu, res);
}

/// Load acc from the operand.
pub fn lda(cpu: &mut CPU, mode: &AddressMode) -> (r: Result<(), NesError>)
    requires
        old(cpu).wf(),
    ensures
        final(cpu).wf(),
        (final(cpu)@, r) == old(cpu)@.op_lda(*mode),
{
    reveal(CpuView::op_lda);
    let m = cpu.read_operand(mode)?;
    cpu.acc = m;
    update_zn(cpu, m);
    Ok(())
}

/// Load rx from the operand.
pub fn ldx(cpu: &mut CPU, mode: &AddressMode) -> (r: Result<(), NesError>)
    requires
        old(cpu).wf(),
    ensures
        final(cpu).wf(),
        (final(cpu)@, r) == old(cpu)@.op_ldx(*mode),
{
    reveal(CpuView::op_ldx);
    let m = cpu.read_operand(mode)?;
    cpu.rx = m;
    update_zn(cpu, m);
    Ok(())
}

/// Load ry from the operand.
pub fn ldy(cpu: &mut CPU, mode: &AddressMode) -> (r: Result<(), NesError>)
    requires
        old(cpu).wf(),
    ensures
        final(cpu).wf(),
        (final(cpu)@, r) == old(cpu)@.op_ldy(*mode),
{
    reveal(CpuView::op_ldy);
    let m = cpu.read_operand(mode)?;
    cpu.ry = m;
    update_zn(cpu, m);
    Ok(())
}

/// Store acc at the operand address.
pub fn sta(cpu: &mut CPU, mode: &AddressMode) -> (r: Result<(), NesError>)
    requires
        old(cpu).wf(),
    ensures
        final(cpu).wf(),
        (final(cpu)@, r) == old(cpu)@.op_sta(*mode),
{
    reveal(CpuView::op_sta);
    let addr = cpu.get_operand_address(mode)?;
    let v = cpu.acc;
    cpu.mem_write(addr, v)
}

/// Store rx at the operand address.
pub fn stx(cpu: &mut CPU, mode: &AddressMode) -> (r: Result<(), NesError>)
    requires
        old(cpu).wf(),
    ensures
        final(cpu).wf(),
        (final(cpu)@, r) == old(cpu)@.op_stx(*mode),
{
    reveal(CpuView::op_stx);
    let addr = cpu.get_operand_address(mode)?;
    let v = cpu.rx;
    cpu.mem_write(addr, v)
}

/// Store ry at the operand address.
pub fn sty(cpu: &mut CPU, mode: &AddressMode) -> (r: Result<(), NesError>)
    requires
        old(cpu).wf(),
    ensures
        final(cpu).wf(),
        (final(cpu)@, r) == old(cpu)@.op_sty(*mode),
{
    reveal(CpuView::op_sty);
    let addr = cpu.get_operand_address(mode)?;
    let v = cpu.ry;
    cpu.mem_write(addr, v)
}

/// Copy acc into rx, setting N and Z.
pub fn tax(cpu: &mut CPU)
    requires
        old(cpu).wf(),
    ensures
        final(cpu).wf(),
        final(cpu)@ == old(cpu)@.op_tax(),
{
    reveal(CpuView::op_tax);
    let v = cpu.acc;
    cpu.rx = v;
    update_zn(cpu, v);
}

/// Copy acc into ry, setting N and Z.
pub fn tay(cpu: &mut CPU)
    requires
        old(cpu).wf(),
    ensures
        final(cpu).wf(),
        final(cpu)@ == old(cpu)@.op_tay(),
{
    reveal(CpuView::op_tay);
    let v = cpu.acc;
    cpu.ry = v;
    update_zn(cpu, v);
}

/// Copy rx into acc, setting N and Z.
pub fn txa(cpu: &mut CPU)
    requires
        old(cpu).wf(),
    ensures
        final(cpu).wf(),
        final(cpu)@ == old(cpu)@.op_txa(),
{
    reveal(CpuView::op_txa);
    let v = cpu.rx;
    cpu.acc = v;
    update_zn(cpu, v);
}

/// Copy ry into acc, setting N and Z.
pub fn tya(cpu: &mut CPU)
    requires
        old(cpu).wf(),
    ensures
        final(cpu).wf(),
        final(cpu)@ == old(cpu)@.op_tya(),
{
    reveal(CpuView::op_tya);
    let v = cpu.ry;
    cpu.acc = v;
    update_zn(cpu, v);
}

/// Copy sp into rx, setting N and Z.
pub fn tsx(cpu: &mut CPU)
    requires
        old(cpu).wf(),
    ensures
        final(cpu).wf(),
        final(cpu)@ == old(cpu)@.op_tsx(),
{
    reveal(CpuView::op_tsx);
    let v = cpu.sp;
    cpu.rx = v;
    update_zn(cpu, v);
}

/// Copy X into SP; no flags change.
pub fn txs(cpu: &mut CPU)
    requires
        old(cpu).wf(),
    ensures
        final(cpu).wf(),
        final(cpu)@ == old(cpu)@.op_txs(),
{
    reveal(CpuView::op_txs);
    cpu.sp = cpu.rx;
}

/// Clear carry.
pub fn clc(cpu: &mut CPU)
    requires
        old(cpu).wf(),
    ensures
        final(cpu).wf(),
        final(cpu)@ == old(cpu)@.op_clc(),
{
    reveal(CpuView::op_clc);
    cpu.status.set(FLAG_CARRY, false);
}

/// Clear decimal.
pub fn cld(cpu: &mut CPU)
    requires
        old(cpu).wf(),
    ensures
        final(cpu).wf(),
        final(cpu)@ == old(cpu)@.op_cld(),
{
    reveal(CpuView::op_cld);
    cpu.status.set(FLAG_DECIMAL, false);
}

/// Clear interrupt disable.
pub fn cli(cpu: &mut CPU)
    requires
        old(cpu).wf(),
    ensures
        final(cpu).wf(),
        final(cpu)@ == old(cpu)@.op_cli(),
{
    reveal(CpuView::op_cli);
    cpu.status.set(FLAG_INTERRUPT_DISABLE, false);
}

/// Clear overflow.
pub fn clv(cpu: &mut CPU)
    requires
        old(cpu).wf(),
    ensures
        final(cpu).wf(),
        final(cpu)@ == old(cpu)@.op_clv(),
{
    reveal(CpuView::op_clv);
    cpu.status.set(FLAG_OVERFLOW, false);
}

/// Set carry.
pub fn sec(cpu: &mut CPU)
    requires
        old(cpu).wf(),
    ensures
        final(cpu).wf(),
        final(cpu)@ == old(cpu)@.op_sec(),
{
    reveal(CpuView::op_sec);
    cpu.status.set(FLAG_CARRY, true);
}

/// Set decimal.
pub fn sed(cpu: &mut CPU)
    requires
        old(cpu).wf(),
    ensures
        final(cpu).wf(),
        final(cpu)@ == old(cpu)@.op_sed(),
{
    reveal(CpuView::op_sed);
    cpu.status.set(FLAG_DECIMAL, true);
}

/// Set interrupt disable.
pub fn sei(cpu: &mut CPU)
    requires
        old(cpu).wf(),
    ensures
        final(cpu).wf(),
        final(cpu)@ == old(cpu)@.op_sei(),
{
    reveal(CpuView::op_sei);
    cpu.status.set(FLAG_INTERRUPT_DISABLE, true);
}

/// N and V from the operand's bits 7 and 6, Z from `A & M == 0`.
pub fn bit(cpu: &mut CPU, mode: &AddressMode) -> (r: Result<(), NesError>)
    requires
        old(cpu).wf(),
    ensures
        final(cpu).wf(),
        (final(cpu)@, r) == old(cpu)@.op_bit(*mode),
{
    reveal(CpuView::op_bit);
    let m = cpu.read_operand(mode)?;
    update_neg_flag(cpu, m);
    update_overflow_flag(cpu, m & 0x40 != 0);
    let acc = cpu.acc;
    update_zero_flag(cpu, acc & m);
    Ok(())
}

/// Push P with B and U set.
pub fn php(cpu: &mut CPU)
    requires
        old(cpu).wf(),
    ensures
        final(cpu).wf(),
        final(cpu)@ == old(cpu)@.op_php(),
{
    reveal(CpuView::op_php);
    let s = cpu.status.bits | FLAG_BREAK | FLAG_UNUSED;
    stack_push(cpu, s);
}

/// Pull P; B comes back cleared and U set.
pub fn plp(cpu: &mut CPU)
    requires
        old(cpu).wf(),
    ensures
        final(cpu).wf(),
        final(cpu)@ == old(cpu)@.op_plp(),
{
    reveal(CpuView::op_plp);
    let s = stack_pop(cpu);
    cpu.status.bits = (s & !FLAG_BREAK) | FLAG_UNUSED;
}

/// Push A.
pub fn pha(cpu: &mut CPU)
    requires
        old(cpu).wf(),
    ensures
        final(cpu).wf(),
        final(cpu)@ == old(cpu)@.op_pha(),
{
    reveal(CpuView::op_pha);
    let a = cpu.acc;
    stack_push(cpu, a);
}

/// Pull A, setting N and Z.
pub fn pla(cpu: &mut CPU)
    requires
        old(cpu).wf(),
    ensures
        final(cpu).wf(),
        final(cpu)@ == old(cpu)@.op_pla(),
{
    reveal(CpuView::op_pla);
    let v = stack_pop(cpu);
    cpu.acc = v;
    update_zn(cpu, v);
}

/// Jump to the 16-bit operand.
pub fn jmp(cpu: &mut CPU) -> (r: Result<(), NesError>)
    requires
        old(cpu).wf(),
    ensures
        final(cpu).wf(),
        (final(cpu)@, r) == old(cpu)@.op_jmp(),
{
    reveal(CpuView::op_jmp);
    let pc = cpu.pc;
    let target = cpu.mem_read_u16(pc)?;
    cpu.pc = target;
    Ok(())
}

/// Jump through a 16-bit pointer whose high byte never crosses a page.
pub fn jmp_indirect(cpu: &mut CPU) -> (r: Result<(), NesError>)
    requires
        old(cpu).wf(),
    ensures
        final(cpu).wf(),
        (final(cpu)@, r) == old(cpu)@.op_jmp_indirect(),
{
    reveal(CpuView::op_jmp_indirect);
    let pc = cpu.pc;
    let ptr = cpu.mem_read_u16(pc)?;
    let lo = cpu.mem_read(ptr)?;
    let hi_addr = if ptr & 0x00FF == 0x00FF {
        ptr & 0xFF00
    } else {
        assert(ptr < 0xFFFF) by (bit_vector)
            requires
                ptr & 0x00FF != 0x00FF,
        ;
        ptr + 1
    };
    let hi = cpu.mem_read(hi_addr)?;
    cpu.pc = (hi as u16) << 8u16 | lo as u16;
    Ok(())
}

/// Push the address of JSR's last byte, then jump to the operand.
pub fn jsr(cpu: &mut CPU) -> (r: Result<(), NesError>)
    requires
        old(cpu).wf(),
    ensures
        final(cpu).wf(),
        (final(cpu)@, r) == old(cpu)@.op_jsr(),
{
    reveal(CpuView::op_jsr);
    let pc = cpu.pc;
    let target = cpu.mem_read_u16(pc)?;
    let ret = cpu.pc.wrapping_add(1);
    stack_push_u16(cpu, ret);
    cpu.pc = target;
    Ok(())
}

/// Pull the return address and continue after it.
pub fn rts(cpu: &mut CPU)
    requires
        old(cpu).wf(),
    ensures
        final(cpu).wf(),
        final(cpu)@ == old(cpu)@.op_rts(),
{
    reveal(CpuView::op_rts);
    let a = stack_pop_u16(cpu);
    cpu.pc = a.wrapping_add(1);
}

/// Pull P (B cleared, U set), then PC.
pub fn rti(cpu: &mut CPU)
    requires
        old(cpu).wf(),
    ensures
        final(cpu).wf(),
        final(cpu)@ == old(cpu)@.op_rti(),
{
    reveal(CpuView::op_rti);
    let s = stack_pop(cpu);
    cpu.status.bits = (s & !FLAG_BREAK) | FLAG_UNUSED;
    let a = stack_pop_u16(cpu);
    cpu.pc = a;
}

/// Software interrupt through `$FFFE`.
pub fn brk(cpu: &mut CPU) -> (r: Result<(), NesError>)
    requires
        old(cpu).wf(),
    ensures
        final(cpu).wf(),
        (final(cpu)@, r) == old(cpu)@.op_brk(),
{
    reveal(CpuView::op_brk);
    let ret = cpu.pc.wrapping_add(1);
    stack_push_u16(cpu, ret);
    let s = cpu.status.bits | FLAG_BREAK | FLAG_UNUSED;
    stack_push(cpu, s);
    cpu.status.set(FLAG_INTERRUPT_DISABLE, true);
    let target = cpu.mem_read_u16(IRQ_VECTOR)?;
    cpu.pc = target;
    Ok(())
}

/// Setting or clearing one flag reads back as set or cleared and leaves the
/// other bits alone.
pub proof fn lemma_with_bits(x: u8, f: u8, g: u8, on: bool)
    requires
        f == 1 || f == 2 || f == 4 || f == 8 || f == 16 || f == 32 || f == 64 || f == 128,
        f & g == 0,
    ensures
        (with_bits(x, f, on) & f != 0) == on,
        with_bits(x, f, on) & g == x & g,
{
    assert((with_bits(x, f, on) & f != 0) == on) by (bit_vector)
        requires
            f == 1 || f == 2 || f == 4 || f == 8 || f == 16 || f == 32 || f == 64 || f == 128,
    ;
    assert(with_bits(x, f, on) & g == x & g) by (bit_vector)
        requires
            f & g == 0,
    ;
}

/// ADC: A becomes `(A + M + C) mod 256`, C is set exactly when the sum
/// exceeds `$FF`, and V exactly when `(M ^ A') & (A ^ A') & $80 != 0`.
pub proof fn lemma_adc(s: CpuView, m: u8)
    ensures
        s.add_to_acc(m).acc == (s.acc + m + s.carry()) % 256,
        (s.add_to_acc(m).status & FLAG_CARRY != 0) == (s.acc + m + s.carry() > 0xFF),
        (s.add_to_acc(m).status & FLAG_OVERFLOW != 0) == ((m ^ s.add_to_acc(m).acc) & (s.acc
            ^ s.add_to_acc(m).acc) & 0x80 != 0),
{
    let sum = s.acc + m + s.carry();
    let res = (sum % 256) as u8;
    let st1 = with_bits(s.status, FLAG_CARRY, sum > 0xFF);
    let st2 = with_bits(st1, FLAG_OVERFLOW, (m ^ res) & (s.acc ^ res) & 0x80 != 0);
    let st3 = with_bits(st2, FLAG_ZERO, res == 0);
    assert(1u8 & 64u8 == 0 && 64u8 & 1u8 == 0 && 2u8 & 1u8 == 0 && 2u8 & 64u8 == 0 && 128u8 & 1u8 == 0
        && 128u8 & 64u8 == 0) by (bit_vector);
    lemma_with_bits(s.status, FLAG_CARRY, FLAG_OVERFLOW, sum > 0xFF);
    lemma_with_bits(st1, FLAG_OVERFLOW, FLAG_CARRY, (m ^ res) & (s.acc ^ res) & 0x80 != 0);
    lemma_with_bits(st2, FLAG_ZERO, FLAG_CARRY, res == 0);
    lemma_with_bits(st2, FLAG_ZERO, FLAG_OVERFLOW, res == 0);
    lemma_with_bits(st3, FLAG_NEGATIVE, FLAG_CARRY, res & 0x80 != 0);
    lemma_with_bits(st3, FLAG_NEGATIVE, FLAG_OVERFLOW, res & 0x80 != 0);
}

/// `JMP ($xxFF)` takes the target's low byte from `$xxFF` and its high
/// byte from `$xx00` of the same page; other pointers read two consecutive
/// bytes.
pub proof fn lemma_indirect_jmp_page_wrap(ptr: u16)
    ensures
        ptr & 0xFF == 0xFF ==> page_wrapped_next(ptr) == ptr & 0xFF00,
        ptr & 0xFF != 0xFF ==> page_wrapped_next(ptr) == ptr + 1,
{
    assert(ptr & 0xFF != 0xFF ==> ptr < 0xFFFF) by (bit_vector);
}

/// The indirect JMP opcode jumps to the word made of the byte at the
/// pointer and the byte at `page_wrapped_next(pointer)`.
pub proof fn lemma_op_jmp_indirect(s: CpuView)
    ensures
        s.op_jmp_indirect() == s.jmp_indirect(),
{
    reveal(CpuView::op_jmp_indirect);
}

} // verus!
