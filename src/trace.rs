//! A snapshot of the CPU taken before an instruction, for diagnostics.
use vstd::prelude::*;
use crate::cpu::{CPUStatus, CPU};
use crate::error::NesError;
use crate::opcode::{lookup, opcode_table, Opcode};

verus! {

pub struct TraceInfo {
    pub frame: u32,
    pub pc: u16,
    /// The instruction about to execute.
    pub opcode: Opcode,
    pub sp: u8,
    pub acc: u8,
    pub rx: u8,
    pub ry: u8,
    pub status: CPUStatus,
}

impl TraceInfo {
    /// Registers of `cpu` and the opcode at its PC; fails when that byte
    /// cannot be read or is not a documented opcode.
    pub fn new(frame: u32, cpu: &mut CPU) -> (r: Result<TraceInfo, NesError>)
        requires
            old(cpu).wf(),
        ensures
            final(cpu).wf(),
            final(cpu)@ == old(cpu)@.read(old(cpu)@.pc).0,
            match old(cpu)@.read(old(cpu)@.pc).1 {
                Err(e) => r == Err::<TraceInfo, NesError>(e),
                Ok(op) => match opcode_table(op) {
                    None => r == Err::<TraceInfo, NesError>(NesError::UnknownOpcode(op)),
                    Some(code) => r matches Ok(t) && t.frame == frame && t.pc == old(cpu).pc
                        && t.opcode == code && t.sp == old(cpu).sp && t.acc == old(cpu).acc
                        && t.rx == old(cpu).rx && t.ry == old(cpu).ry && t.status
                        == old(cpu).status,
                },
            },
    {
        let pc = cpu.pc;
        let op = cpu.mem_read(pc)?;
        match lookup(op) {
            None => Err(NesError::UnknownOpcode(op)),
            Some(opcode) => Ok(
                TraceInfo {
                    frame,
                    pc: cpu.pc,
                    opcode,
                    sp: cpu.sp,
                    acc: cpu.acc,
                    rx: cpu.rx,
                    ry: cpu.ry,
                    status: cpu.status,
                },
            ),
        }
    }
}

} // verus!
