//! The specification of one retired instruction: addressing-mode resolution,
//! operation semantics, flag arithmetic, cycle accounting and the interrupt
//! sequencer, all as pure functions over the ghost machine state.  The
//! executable engine in `cpu` is proved to follow `spec_step` exactly.

use vstd::prelude::*;

use crate::arith::{hi8, lo8, sext, wadd16, wadd8, word, wsub8};
use crate::decode::{spec_decode, Mnemonic, Mode, OpInfo};
use crate::memory::{rd, wr, MemSpec};
use crate::status::{
    flag_c, flag_i, flag_n, flag_v, flag_z, with_c, with_d, with_i, with_n, with_v, with_z, with_zn,
};
use crate::trace::{trace_line, TraceArgs};

verus! {

/// Ghost image of the CPU: the register file, the cycle counter, the two
/// interrupt latches, and the trace log.
pub ghost struct CpuSpec {
    pub a: u8,
    pub x: u8,
    pub y: u8,
    pub pc: u16,
    pub sp: u8,
    pub p: u8,
    pub cycle: u64,
    pub irq: bool,
    pub nmi: bool,
    pub log_on: bool,
    pub log: Seq<u8>,
}

/// The stack lives in page one: the physical address behind a stack pointer.
pub open spec fn stack_addr(sp: u8) -> u16 {
    (0x100 + sp) as u16
}

/// Outcome of resolving a read-path operand: the operand byte, the program
/// counter after the operand bytes, and the true cycle cost including any
/// page-cross penalty.
pub ghost struct ReadResolve {
    pub v: u8,
    pub pc: u16,
    pub cost: u64,
}

/// Outcome of resolving a write or read-modify-write target.
pub ghost struct AddrResolve {
    pub addr: u16,
    pub pc: u16,
    pub cost: u64,
}

/// Read-path operand resolution.  `c.pc` points at the first operand byte.
/// Read-path absolute-indexed and indirect-indexed modes pay one extra cycle
/// when the index carries out of the low address byte.
pub open spec fn resolve_read(c: CpuSpec, m: MemSpec, mode: Mode) -> ReadResolve {
    let op = rd(m, c.pc);
    let pc1 = wadd16(c.pc, 1);
    let pc2 = wadd16(c.pc, 2);
    match mode {
        Mode::Imm => ReadResolve { v: op, pc: pc1, cost: 2 },
        Mode::Zpg => ReadResolve { v: rd(m, op as u16), pc: pc1, cost: 3 },
        Mode::ZpgX => ReadResolve { v: rd(m, wadd8(op, c.x) as u16), pc: pc1, cost: 4 },
        Mode::ZpgY => ReadResolve { v: rd(m, wadd8(op, c.y) as u16), pc: pc1, cost: 4 },
        Mode::Abs => ReadResolve { v: rd(m, word(op, rd(m, pc1))), pc: pc2, cost: 4 },
        Mode::AbsX => ReadResolve {
            v: rd(m, wadd16(word(op, rd(m, pc1)), c.x as u16)),
            pc: pc2,
            cost: if op + c.x > 255 {
                5
            } else {
                4
            },
        },
        Mode::AbsY => ReadResolve {
            v: rd(m, wadd16(word(op, rd(m, pc1)), c.y as u16)),
            pc: pc2,
            cost: if op + c.y > 255 {
                5
            } else {
                4
            },
        },
        Mode::XInd => {
            let zp = wadd8(op, c.x);
            ReadResolve {
                v: rd(m, word(rd(m, zp as u16), rd(m, wadd8(zp, 1) as u16))),
                pc: pc1,
                cost: 6,
            }
        },
        Mode::IndY => {
            let lo = rd(m, op as u16);
            let hi = rd(m, wadd8(op, 1) as u16);
            ReadResolve {
                v: rd(m, wadd16(word(lo, hi), c.y as u16)),
                pc: pc1,
                cost: if lo + c.y > 255 {
                    6
                } else {
                    5
                },
            }
        },
        _ => ReadResolve { v: 0, pc: c.pc, cost: 0 },  // no opcode decodes to these
    }
}

/// Write-path target resolution.  Store modes always pay the worst-case
/// cost: there is no page-cross discount on the write path.
pub open spec fn resolve_store(c: CpuSpec, m: MemSpec, mode: Mode) -> AddrResolve {
    let op = rd(m, c.pc);
    let pc1 = wadd16(c.pc, 1);
    let pc2 = wadd16(c.pc, 2);
    match mode {
        Mode::Zpg => AddrResolve { addr: op as u16, pc: pc1, cost: 3 },
        Mode::ZpgX => AddrResolve { addr: wadd8(op, c.x) as u16, pc: pc1, cost: 4 },
        Mode::ZpgY => AddrResolve { addr: wadd8(op, c.y) as u16, pc: pc1, cost: 4 },
        Mode::Abs => AddrResolve { addr: word(op, rd(m, pc1)), pc: pc2, cost: 4 },
        Mode::AbsX => AddrResolve {
            addr: wadd16(word(op, rd(m, pc1)), c.x as u16),
            pc: pc2,
            cost: 5,
        },
        Mode::AbsY => AddrResolve {
            addr: wadd16(word(op, rd(m, pc1)), c.y as u16),
            pc: pc2,
            cost: 5,
        },
        Mode::XInd => {
            let zp = wadd8(op, c.x);
            AddrResolve {
                addr: word(rd(m, zp as u16), rd(m, wadd8(zp, 1) as u16)),
                pc: pc1,
                cost: 6,
            }
        },
        Mode::IndY => AddrResolve {
            addr: wadd16(word(rd(m, op as u16), rd(m, wadd8(op, 1) as u16)), c.y as u16),
            pc: pc1,
            cost: 6,
        },
        _ => AddrResolve { addr: 0, pc: c.pc, cost: 0 },  // no opcode decodes to these
    }
}

/// Read-modify-write target resolution.  These modes always pay the fixed
/// worst-case cost, page crossing or not.
pub open spec fn resolve_rmw(c: CpuSpec, m: MemSpec, mode: Mode) -> AddrResolve {
    let op = rd(m, c.pc);
    let pc1 = wadd16(c.pc, 1);
    let pc2 = wadd16(c.pc, 2);
    match mode {
        Mode::Zpg => AddrResolve { addr: op as u16, pc: pc1, cost: 5 },
        Mode::ZpgX => AddrResolve { addr: wadd8(op, c.x) as u16, pc: pc1, cost: 6 },
        Mode::Abs => AddrResolve { addr: word(op, rd(m, pc1)), pc: pc2, cost: 6 },
        Mode::AbsX => AddrResolve {
            addr: wadd16(word(op, rd(m, pc1)), c.x as u16),
            pc: pc2,
            cost: 7,
        },
        _ => AddrResolve { addr: 0, pc: c.pc, cost: 0 },  // no opcode decodes to these
    }
}

/// ADC in binary mode: result and status byte.  The carry in adds one, the
/// carry out reports the unsigned overflow, and V reports signed overflow:
/// bit 7 of the result differs from bit 7 of both addends.
pub open spec fn alu_adc(a: u8, v: u8, p: u8) -> (u8, u8) {
    let cin: int = if flag_c(p) {
        1
    } else {
        0
    };
    let sum = a + v + cin;
    let r = if sum > 255 {
        (sum - 256) as u8
    } else {
        sum as u8
    };
    let p1 = with_c(p, sum > 255);
    let p2 = with_v(p1, ((a ^ r) & (v ^ r)) & 0x80 != 0);
    (r, with_zn(p2, r))
}

/// SBC in binary mode: subtract the operand and the borrow (the inverted
/// carry); the carry out is set exactly when no unsigned borrow occurred.
pub open spec fn alu_sbc(a: u8, v: u8, p: u8) -> (u8, u8) {
    let bin: int = if flag_c(p) {
        0
    } else {
        1
    };
    let diff = a - v - bin;
    let r = if diff < 0 {
        (diff + 256) as u8
    } else {
        diff as u8
    };
    let p1 = with_c(p, diff >= 0);
    let p2 = with_v(p1, ((a ^ v) & (a ^ r)) & 0x80 != 0);
    (r, with_zn(p2, r))
}

/// CMP/CPX/CPY: compare a register with the operand without storing the
/// difference.
pub open spec fn alu_cmp(reg: u8, v: u8, p: u8) -> u8 {
    with_zn(with_c(p, reg >= v), wsub8(reg, v))
}

/// BIT: Z from the masked accumulator, V and N straight from operand bits 6
/// and 7.
pub open spec fn alu_bit(a: u8, v: u8, p: u8) -> u8 {
    with_n(with_v(with_z(p, a & v == 0), v & 0x40 != 0), v & 0x80 != 0)
}

/// One read-path instruction, operand already resolved by `resolve_read`.
pub open spec fn step_read(c: CpuSpec, m: MemSpec, mn: Mnemonic, mode: Mode) -> CpuSpec {
    let r = resolve_read(c, m, mode);
    let c1 = CpuSpec { pc: r.pc, cycle: (c.cycle + r.cost) as u64, ..c };
    match mn {
        Mnemonic::Adc => {
            let (res, p) = alu_adc(c.a, r.v, c.p);
            CpuSpec { a: res, p: p, ..c1 }
        },
        Mnemonic::Sbc => {
            let (res, p) = alu_sbc(c.a, r.v, c.p);
            CpuSpec { a: res, p: p, ..c1 }
        },
        Mnemonic::And => {
            let res = c.a & r.v;
            CpuSpec { a: res, p: with_zn(c.p, res), ..c1 }
        },
        Mnemonic::Ora => {
            let res = c.a | r.v;
            CpuSpec { a: res, p: with_zn(c.p, res), ..c1 }
        },
        Mnemonic::Eor => {
            let res = c.a ^ r.v;
            CpuSpec { a: res, p: with_zn(c.p, res), ..c1 }
        },
        Mnemonic::Cmp => CpuSpec { p: alu_cmp(c.a, r.v, c.p), ..c1 },
        Mnemonic::Cpx => CpuSpec { p: alu_cmp(c.x, r.v, c.p), ..c1 },
        Mnemonic::Cpy => CpuSpec { p: alu_cmp(c.y, r.v, c.p), ..c1 },
        Mnemonic::Bit => CpuSpec { p: alu_bit(c.a, r.v, c.p), ..c1 },
        Mnemonic::Lda => CpuSpec { a: r.v, p: with_zn(c.p, r.v), ..c1 },
        Mnemonic::Ldx => CpuSpec { x: r.v, p: with_zn(c.p, r.v), ..c1 },
        Mnemonic::Ldy => CpuSpec { y: r.v, p: with_zn(c.p, r.v), ..c1 },
        _ => c1,  // the dispatcher sends no other mnemonic here
    }
}

/// The pure value transformation of a shift, rotate, increment or decrement,
/// with the flags it leaves behind.
pub open spec fn rmw_result(mn: Mnemonic, v: u8, p: u8) -> (u8, u8) {
    match mn {
        Mnemonic::Asl => {
            let r = v << 1;
            (r, with_zn(with_c(p, v & 0x80 != 0), r))
        },
        Mnemonic::Lsr => {
            let r = v >> 1;
            (r, with_n(with_z(with_c(p, v & 0x01 != 0), r == 0), false))
        },
        Mnemonic::Rol => {
            let r = (v << 1) | (if flag_c(p) {
                1u8
            } else {
                0u8
            });
            (r, with_zn(with_c(p, v & 0x80 != 0), r))
        },
        Mnemonic::Ror => {
            let r = (v >> 1) | (if flag_c(p) {
                0x80u8
            } else {
                0u8
            });
            (r, with_zn(with_c(p, v & 0x01 != 0), r))
        },
        Mnemonic::Inc => {
            let r = wadd8(v, 1);
            (r, with_zn(p, r))
        },
        Mnemonic::Dec => {
            let r = wsub8(v, 1);
            (r, with_zn(p, r))
        },
        _ => (v, p),  // the dispatcher sends no other mnemonic here
    }
}

/// One read-modify-write instruction: on the accumulator for mode A, else
/// read the target, transform, write back.
pub open spec fn step_rmw(c: CpuSpec, m: MemSpec, mn: Mnemonic, mode: Mode) -> (CpuSpec, MemSpec) {
    if mode == Mode::A {
        let (r, p) = rmw_result(mn, c.a, c.p);
        (CpuSpec { a: r, p: p, cycle: (c.cycle + 2) as u64, ..c }, m)
    } else {
        let ar = resolve_rmw(c, m, mode);
        let (r, p) = rmw_result(mn, rd(m, ar.addr), c.p);
        (
            CpuSpec { pc: ar.pc, p: p, cycle: (c.cycle + ar.cost) as u64, ..c },
            wr(m, ar.addr, r),
        )
    }
}

/// One store instruction.
pub open spec fn step_store(c: CpuSpec, m: MemSpec, mn: Mnemonic, mode: Mode) -> (
    CpuSpec,
    MemSpec,
) {
    let ar = resolve_store(c, m, mode);
    let v = match mn {
        Mnemonic::Sta => c.a,
        Mnemonic::Stx => c.x,
        _ => c.y,
    };
    (CpuSpec { pc: ar.pc, cycle: (c.cycle + ar.cost) as u64, ..c }, wr(m, ar.addr, v))
}

/// The flag each branch mnemonic tests, with its polarity.
pub open spec fn branch_cond(mn: Mnemonic, p: u8) -> bool {
    match mn {
        Mnemonic::Bcc => !flag_c(p),
        Mnemonic::Bcs => flag_c(p),
        Mnemonic::Bne => !flag_z(p),
        Mnemonic::Beq => flag_z(p),
        Mnemonic::Bpl => !flag_n(p),
        Mnemonic::Bmi => flag_n(p),
        Mnemonic::Bvc => !flag_v(p),
        Mnemonic::Bvs => flag_v(p),
        _ => false,
    }
}

/// One branch: 2 cycles untaken, one more when taken, one more again when
/// the target sits on a different page than the instruction's successor.
pub open spec fn step_branch(c: CpuSpec, m: MemSpec, mn: Mnemonic) -> CpuSpec {
    let off = rd(m, c.pc);
    let next = wadd16(c.pc, 1);
    if !branch_cond(mn, c.p) {
        CpuSpec { pc: next, cycle: (c.cycle + 2) as u64, ..c }
    } else {
        let tgt = wadd16(next, sext(off));
        CpuSpec {
            pc: tgt,
            cycle: (c.cycle + if tgt / 256 != next / 256 {
                4int
            } else {
                3int
            }) as u64,
            ..c
        }
    }
}

/// PHA: push the accumulator.
pub open spec fn step_pha(c: CpuSpec, m: MemSpec) -> (CpuSpec, MemSpec) {
    (
        CpuSpec { sp: wsub8(c.sp, 1), cycle: (c.cycle + 3) as u64, ..c },
        wr(m, stack_addr(c.sp), c.a),
    )
}

/// PHP: push the status byte with B and U forced on.
pub open spec fn step_php(c: CpuSpec, m: MemSpec) -> (CpuSpec, MemSpec) {
    (
        CpuSpec { sp: wsub8(c.sp, 1), cycle: (c.cycle + 3) as u64, ..c },
        wr(m, stack_addr(c.sp), c.p | 0x30),
    )
}

/// PLA: pull the accumulator and set Z and N from it.
pub open spec fn step_pla(c: CpuSpec, m: MemSpec) -> CpuSpec {
    let sp1 = wadd8(c.sp, 1);
    let v = rd(m, stack_addr(sp1));
    CpuSpec { sp: sp1, a: v, p: with_zn(c.p, v), cycle: (c.cycle + 4) as u64, ..c }
}

/// PLP: pull the status byte.  B stays clear and U stays set; the pulled I
/// bit is deferred until after this instruction's interrupt poll.
pub open spec fn step_plp(c: CpuSpec, m: MemSpec) -> (CpuSpec, Option<bool>) {
    let sp1 = wadd8(c.sp, 1);
    let v = rd(m, stack_addr(sp1));
    (
        CpuSpec {
            sp: sp1,
            p: (c.p & 0x04) | (v & 0xEB) | 0x20,
            cycle: (c.cycle + 4) as u64,
            ..c
        },
        Some(v & 0x04 != 0),
    )
}

/// JMP with an absolute target.
pub open spec fn step_jmp_abs(c: CpuSpec, m: MemSpec) -> CpuSpec {
    CpuSpec {
        pc: word(rd(m, c.pc), rd(m, wadd16(c.pc, 1))),
        cycle: (c.cycle + 3) as u64,
        ..c
    }
}

/// JMP indirect, with the 6502 page-wrap defect: the pointer's high byte is
/// fetched without carrying into the pointer's own high address byte.
pub open spec fn step_jmp_ind(c: CpuSpec, m: MemSpec) -> CpuSpec {
    let lo = rd(m, c.pc);
    let hi = rd(m, wadd16(c.pc, 1));
    let jump_lo = rd(m, word(lo, hi));
    let jump_hi = rd(m, word(wadd8(lo, 1), hi));
    CpuSpec { pc: word(jump_lo, jump_hi), cycle: (c.cycle + 5) as u64, ..c }
}

/// JSR: push the address of the instruction's last byte, then jump.
pub open spec fn step_jsr(c: CpuSpec, m: MemSpec) -> (CpuSpec, MemSpec) {
    let lo = rd(m, c.pc);
    let ret = wadd16(c.pc, 1);
    let hi = rd(m, ret);
    let m1 = wr(m, stack_addr(c.sp), hi8(ret));
    let m2 = wr(m1, stack_addr(wsub8(c.sp, 1)), lo8(ret));
    (
        CpuSpec { pc: word(lo, hi), sp: wsub8(c.sp, 2), cycle: (c.cycle + 6) as u64, ..c },
        m2,
    )
}

/// RTS: pull the return address and resume one byte past it.
pub open spec fn step_rts(c: CpuSpec, m: MemSpec) -> CpuSpec {
    let sp1 = wadd8(c.sp, 1);
    let lo = rd(m, stack_addr(sp1));
    let sp2 = wadd8(c.sp, 2);
    let hi = rd(m, stack_addr(sp2));
    CpuSpec { sp: sp2, pc: wadd16(word(lo, hi), 1), cycle: (c.cycle + 6) as u64, ..c }
}

/// RTI: pull the status byte (B masked off, U forced on), then the return
/// address, taken as is.
pub open spec fn step_rti(c: CpuSpec, m: MemSpec) -> CpuSpec {
    let sp1 = wadd8(c.sp, 1);
    let p = (rd(m, stack_addr(sp1)) & 0xEF) | 0x20;
    let sp2 = wadd8(c.sp, 2);
    let lo = rd(m, stack_addr(sp2));
    let sp3 = wadd8(c.sp, 3);
    let hi = rd(m, stack_addr(sp3));
    CpuSpec { sp: sp3, p: p, pc: word(lo, hi), cycle: (c.cycle + 6) as u64, ..c }
}

/// BRK: skip the padding byte, push the return address and the status byte
/// with B set, raise I, and jump through the IRQ vector.
pub open spec fn step_brk(c: CpuSpec, m: MemSpec) -> (CpuSpec, MemSpec) {
    let ret = wadd16(c.pc, 1);
    let m1 = wr(m, stack_addr(c.sp), hi8(ret));
    let m2 = wr(m1, stack_addr(wsub8(c.sp, 1)), lo8(ret));
    let m3 = wr(m2, stack_addr(wsub8(c.sp, 2)), c.p | 0x30);
    (
        CpuSpec {
            pc: word(rd(m3, 0xFFFE), rd(m3, 0xFFFF)),
            sp: wsub8(c.sp, 3),
            p: with_i(c.p, true),
            cycle: (c.cycle + 7) as u64,
            ..c
        },
        m3,
    )
}

/// The one-byte instructions: flag operations, register transfers, index
/// steps and NOP.  All cost 2 cycles.  CLI and SEI defer their effect on I
/// until after the interrupt poll.
pub open spec fn step_implied(c: CpuSpec, mn: Mnemonic) -> (CpuSpec, Option<bool>) {
    let c1 = CpuSpec { cycle: (c.cycle + 2) as u64, ..c };
    match mn {
        Mnemonic::Clc => (CpuSpec { p: with_c(c.p, false), ..c1 }, None),
        Mnemonic::Sec => (CpuSpec { p: with_c(c.p, true), ..c1 }, None),
        Mnemonic::Cld => (CpuSpec { p: with_d(c.p, false), ..c1 }, None),
        Mnemonic::Sed => (CpuSpec { p: with_d(c.p, true), ..c1 }, None),
        Mnemonic::Clv => (CpuSpec { p: with_v(c.p, false), ..c1 }, None),
        Mnemonic::Cli => (c1, Some(false)),
        Mnemonic::Sei => (c1, Some(true)),
        Mnemonic::Tax => (CpuSpec { x: c.a, p: with_zn(c.p, c.a), ..c1 }, None),
        Mnemonic::Tay => (CpuSpec { y: c.a, p: with_zn(c.p, c.a), ..c1 }, None),
        Mnemonic::Tsx => (CpuSpec { x: c.sp, p: with_zn(c.p, c.sp), ..c1 }, None),
        Mnemonic::Txa => (CpuSpec { a: c.x, p: with_zn(c.p, c.x), ..c1 }, None),
        Mnemonic::Tya => (CpuSpec { a: c.y, p: with_zn(c.p, c.y), ..c1 }, None),
        Mnemonic::Txs => (CpuSpec { sp: c.x, ..c1 }, None),
        Mnemonic::Dex => {
            let r = wsub8(c.x, 1);
            (CpuSpec { x: r, p: with_zn(c.p, r), ..c1 }, None)
        },
        Mnemonic::Dey => {
            let r = wsub8(c.y, 1);
            (CpuSpec { y: r, p: with_zn(c.p, r), ..c1 }, None)
        },
        Mnemonic::Inx => {
            let r = wadd8(c.x, 1);
            (CpuSpec { x: r, p: with_zn(c.p, r), ..c1 }, None)
        },
        Mnemonic::Iny => {
            let r = wadd8(c.y, 1);
            (CpuSpec { y: r, p: with_zn(c.p, r), ..c1 }, None)
        },
        _ => (c1, None),  // NOP
    }
}

/// One instruction after fetch and logging, still before the interrupt poll.
pub ghost struct InstrOut {
    pub c: CpuSpec,
    pub m: MemSpec,
    pub defer_i: Option<bool>,
}

pub open spec fn spec_instr(c: CpuSpec, m: MemSpec, mn: Mnemonic, mode: Mode) -> InstrOut {
    match mn {
        Mnemonic::Adc | Mnemonic::And | Mnemonic::Bit | Mnemonic::Cmp | Mnemonic::Cpx
            | Mnemonic::Cpy | Mnemonic::Eor | Mnemonic::Lda | Mnemonic::Ldx | Mnemonic::Ldy
            | Mnemonic::Ora | Mnemonic::Sbc => InstrOut {
            c: step_read(c, m, mn, mode),
            m: m,
            defer_i: None,
        },
        Mnemonic::Asl | Mnemonic::Lsr | Mnemonic::Rol | Mnemonic::Ror | Mnemonic::Inc
            | Mnemonic::Dec => {
            let (c2, m2) = step_rmw(c, m, mn, mode);
            InstrOut { c: c2, m: m2, defer_i: None }
        },
        Mnemonic::Sta | Mnemonic::Stx | Mnemonic::Sty => {
            let (c2, m2) = step_store(c, m, mn, mode);
            InstrOut { c: c2, m: m2, defer_i: None }
        },
        Mnemonic::Bcc | Mnemonic::Bcs | Mnemonic::Beq | Mnemonic::Bmi | Mnemonic::Bne
            | Mnemonic::Bpl | Mnemonic::Bvc | Mnemonic::Bvs => InstrOut {
            c: step_branch(c, m, mn),
            m: m,
            defer_i: None,
        },
        Mnemonic::Jmp => InstrOut {
            c: if mode == Mode::Ind {
                step_jmp_ind(c, m)
            } else {
                step_jmp_abs(c, m)
            },
            m: m,
            defer_i: None,
        },
        Mnemonic::Jsr => {
            let (c2, m2) = step_jsr(c, m);
            InstrOut { c: c2, m: m2, defer_i: None }
        },
        Mnemonic::Rts => InstrOut { c: step_rts(c, m), m: m, defer_i: None },
        Mnemonic::Rti => InstrOut { c: step_rti(c, m), m: m, defer_i: None },
        Mnemonic::Brk => {
            let (c2, m2) = step_brk(c, m);
            InstrOut { c: c2, m: m2, defer_i: None }
        },
        Mnemonic::Pha => {
            let (c2, m2) = step_pha(c, m);
            InstrOut { c: c2, m: m2, defer_i: None }
        },
        Mnemonic::Php => {
            let (c2, m2) = step_php(c, m);
            InstrOut { c: c2, m: m2, defer_i: None }
        },
        Mnemonic::Pla => InstrOut { c: step_pla(c, m), m: m, defer_i: None },
        Mnemonic::Plp => {
            let (c2, d) = step_plp(c, m);
            InstrOut { c: c2, m: m, defer_i: d }
        },
        _ => {
            let (c2, d) = step_implied(c, mn);
            InstrOut { c: c2, m: m, defer_i: d }
        },
    }
}

/// The interrupt entry common to NMI and IRQ: push the return address, push
/// the status byte with B clear and U set, raise I, jump through the vector,
/// and charge the 7 entry cycles before the handler's first fetch.
pub open spec fn service_interrupt(c: CpuSpec, m: MemSpec, vec_lo: u16, vec_hi: u16) -> (
    CpuSpec,
    MemSpec,
) {
    let m1 = wr(m, stack_addr(c.sp), hi8(c.pc));
    let m2 = wr(m1, stack_addr(wsub8(c.sp, 1)), lo8(c.pc));
    let m3 = wr(m2, stack_addr(wsub8(c.sp, 2)), (c.p & 0xEF) | 0x20);
    (
        CpuSpec {
            sp: wsub8(c.sp, 3),
            p: with_i(c.p, true),
            pc: word(rd(m3, vec_lo), rd(m3, vec_hi)),
            cycle: (c.cycle + 7) as u64,
            ..c
        },
        m3,
    )
}

/// The poll after each retired instruction.  NMI wins over IRQ and is
/// consumed when serviced; IRQ is level-held by the environment and is
/// masked by the I flag.
pub open spec fn spec_poll(c: CpuSpec, m: MemSpec) -> (CpuSpec, MemSpec) {
    if c.nmi {
        let (c2, m2) = service_interrupt(c, m, 0xFFFA, 0xFFFB);
        (CpuSpec { nmi: false, ..c2 }, m2)
    } else if c.irq && !flag_i(c.p) {
        service_interrupt(c, m, 0xFFFE, 0xFFFF)
    } else {
        (c, m)
    }
}

/// A deferred I update (from PLP, CLI or SEI) lands after the poll.
pub open spec fn apply_defer(c: CpuSpec, d: Option<bool>) -> CpuSpec {
    match d {
        Some(b) => CpuSpec { p: with_i(c.p, b), ..c },
        None => c,
    }
}

/// Everything the trace line shows, read from the pre-fetch state.
pub open spec fn targs(c: CpuSpec, m: MemSpec) -> TraceArgs {
    let b1 = rd(m, wadd16(c.pc, 1));
    let b2 = rd(m, wadd16(c.pc, 2));
    TraceArgs {
        pc: c.pc,
        b0: rd(m, c.pc),
        b1: b1,
        b2: b2,
        zp_val: rd(m, b1 as u16),
        at_y: wadd16(word(b1, b2), c.y as u16),
        rel_target: wadd16(wadd16(c.pc, 2), sext(b1)),
        a: c.a,
        x: c.x,
        y: c.y,
        p: c.p,
        sp: c.sp,
        cyc: c.cycle,
    }
}

/// What one call that retires an instruction does: the machine afterwards,
/// and the opcode byte when it was a fatal (unofficial) decode.
pub ghost struct StepOut {
    pub c: CpuSpec,
    pub m: MemSpec,
    pub err: Option<u8>,
}

/// One whole retired instruction: fetch, decode, trace, execute, poll, and
/// the deferred I update.  A fatal decode advances the program counter past
/// the opcode byte and changes nothing else.
pub open spec fn spec_step(c: CpuSpec, m: MemSpec) -> StepOut {
    let op = rd(m, c.pc);
    let info = spec_decode(op);
    let c1 = CpuSpec { pc: wadd16(c.pc, 1), ..c };
    if !info.official {
        StepOut { c: c1, m: m, err: Some(op) }
    } else {
        let c2 = if c.log_on {
            CpuSpec { log: c.log + trace_line(targs(c, m), info), ..c1 }
        } else {
            c1
        };
        let io = spec_instr(c2, m, info.mn, info.mode);
        let (c3, m3) = spec_poll(io.c, io.m);
        StepOut { c: apply_defer(c3, io.defer_i), m: m3, err: None }
    }
}

} // verus!
