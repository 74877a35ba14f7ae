//! The execution engine: the register file, the addressing-mode resolvers,
//! the opcode dispatch and the interrupt sequencer.  One call to [`CPU::cycle`]
//! either does nothing (when the core is still ahead of the external clock)
//! or retires one whole instruction, and is proved to follow
//! [`crate::step::spec_step`] exactly.

use vstd::prelude::*;

use crate::arith::word;
use crate::decode::{is_read_mode, is_rmw_mode, is_store_mode, Mnemonic, Mode, OpInfo};
use crate::memory::{rd, Memory};
use crate::status::{
    flag_c, flag_i, flag_n, flag_v, flag_z, lemma_with_c, lemma_with_d, lemma_with_i, lemma_with_n, lemma_with_v, lemma_with_z, lemma_with_zn, p_ok, with_b, with_c,
    with_d, with_i, with_n, with_v, with_z, with_zn,
};
use crate::step::{
    spec_instr, spec_poll, spec_step, step_branch, step_brk, step_implied, step_jmp_abs,
    step_jmp_ind, step_jsr, step_pha, step_php, step_pla, step_plp, step_read, step_rmw,
    step_rti, step_rts, step_store, targs, CpuSpec,
};
use crate::trace::{append_trace_line, err_text, hex_byte_text, TraceArgs};

verus! {

pub struct CPU {
    pub accumulator: u8,
    pub index_x: u8,
    pub index_y: u8,
    pub program_counter: u16,
    pub stack_pointer: u8,
    pub status_register: u8,
    pub cycle: u64,
    pub irq: bool,
    pub nmi: bool,
    pub log_enabled: bool,
    pub log: Vec<u8>,
}

impl View for CPU {
    type V = CpuSpec;

    open spec fn view(&self) -> CpuSpec {
        CpuSpec {
            a: self.accumulator,
            x: self.index_x,
            y: self.index_y,
            pc: self.program_counter,
            sp: self.stack_pointer,
            p: self.status_register,
            cycle: self.cycle,
            irq: self.irq,
            nmi: self.nmi,
            log_on: self.log_enabled,
            log: self.log@,
        }
    }
}

impl CPU {
    /// The live status byte always reads U set and B clear.
    pub open spec fn inv(self) -> bool {
        p_ok(self@.p)
    }

    /// Power-on reset: clear the registers, point the program counter at the
    /// reset vector (or the caller's override), and charge the 7 startup
    /// cycles.
    pub fn new(memory: &Memory, log_enabled: bool, start_pc: Option<u16>) -> (r: CPU)
        requires
            memory.wf(),
        ensures
            r.inv(),
            r@ == (CpuSpec {
                a: 0,
                x: 0,
                y: 0,
                pc: match start_pc {
                    Some(v) => v,
                    None => word(rd(memory@, 0xFFFC), rd(memory@, 0xFFFD)),
                },
                sp: 0xFD,
                p: 0x24,
                cycle: 7,
                irq: false,
                nmi: false,
                log_on: log_enabled,
                log: Seq::empty(),
            }),
    {
        let pc = match start_pc {
            Some(v) => v,
            None => {
                let lo = memory.get(0xFFFC);
                let hi = memory.get(0xFFFD);
                lo as u16 + 256 * (hi as u16)
            },
        };
        let r = CPU {
            accumulator: 0,
            index_x: 0,
            index_y: 0,
            program_counter: pc,
            stack_pointer: 0xFD,
            status_register: 0b0010_0100,
            cycle: 7,
            irq: false,
            nmi: false,
            log_enabled,
            log: Vec::new(),
        };
        proof {
            assert(r@.log =~= Seq::<u8>::empty());
            assert(p_ok(0x24)) by (bit_vector);
        }
        r
    }

    pub fn get_flag_carry(&self) -> (r: bool)
        ensures
            r == flag_c(self@.p),
    {
        self.status_register & 0b0000_0001 != 0
    }

    pub fn set_flag_carry(&mut self, value: bool)
        ensures
            final(self)@ == (CpuSpec { p: with_c(old(self)@.p, value), ..old(self)@ }),
    {
        if value {
            self.status_register |= 0b0000_0001;
        } else {
            self.status_register &= 0b1111_1110;
        }
    }

    pub fn get_flag_zero(&self) -> (r: bool)
        ensures
            r == flag_z(self@.p),
    {
        self.status_register & 0b0000_0010 != 0
    }

    pub fn set_flag_zero(&mut self, value: bool)
        ensures
            final(self)@ == (CpuSpec { p: with_z(old(self)@.p, value), ..old(self)@ }),
    {
        if value {
            self.status_register |= 0b0000_0010;
        } else {
            self.status_register &= 0b1111_1101;
        }
    }

    pub fn get_flag_interrupt_disable(&self) -> (r: bool)
        ensures
            r == flag_i(self@.p),
    {
        self.status_register & 0b0000_0100 != 0
    }

    pub fn set_flag_interrupt_disable(&mut self, value: bool)
        ensures
            final(self)@ == (CpuSpec { p: with_i(old(self)@.p, value), ..old(self)@ }),
    {
        if value {
            self.status_register |= 0b0000_0100;
        } else {
            self.status_register &= 0b1111_1011;
        }
    }

    pub fn get_flag_decimal(&self) -> (r: bool)
        ensures
            r == crate::status::flag_d(self@.p),
    {
        self.status_register & 0b0000_1000 != 0
    }

    pub fn set_flag_decimal(&mut self, value: bool)
        ensures
            final(self)@ == (CpuSpec { p: with_d(old(self)@.p, value), ..old(self)@ }),
    {
        if value {
            self.status_register |= 0b0000_1000;
        } else {
            self.status_register &= 0b1111_0111;
        }
    }

    pub fn get_flag_b(&self) -> (r: bool)
        ensures
            r == crate::status::flag_b(self@.p),
    {
        self.status_register & 0b0001_0000 != 0
    }

    pub fn set_flag_b(&mut self, value: bool)
        ensures
            final(self)@ == (CpuSpec { p: with_b(old(self)@.p, value), ..old(self)@ }),
    {
        if value {
            self.status_register |= 0b0001_0000;
        } else {
            self.status_register &= 0b1110_1111;
        }
    }

    pub fn get_flag_overflow(&self) -> (r: bool)
        ensures
            r == flag_v(self@.p),
    {
        self.status_register & 0b0100_0000 != 0
    }

    pub fn set_flag_overflow(&mut self, value: bool)
        ensures
            final(self)@ == (CpuSpec { p: with_v(old(self)@.p, value), ..old(self)@ }),
    {
        if value {
            self.status_register |= 0b0100_0000;
        } else {
            self.status_register &= 0b1011_1111;
        }
    }

    pub fn get_flag_negative(&self) -> (r: bool)
        ensures
            r == flag_n(self@.p),
    {
        self.status_register & 0b1000_0000 != 0
    }

    pub fn set_flag_negative(&mut self, value: bool)
        ensures
            final(self)@ == (CpuSpec { p: with_n(old(self)@.p, value), ..old(self)@ }),
    {
        if value {
            self.status_register |= 0b1000_0000;
        } else {
            self.status_register &= 0b0111_1111;
        }
    }

    /// Route a result through the flag unit: Z records whether it was zero,
    /// N records its top bit, and no other flag moves.
    pub fn set_zn(&mut self, value: u8)
        ensures
            final(self)@ == (CpuSpec { p: with_zn(old(self)@.p, value), ..old(self)@ }),
            flag_z(final(self)@.p) == (value == 0),
            flag_n(final(self)@.p) == (value & 0x80 != 0),
            p_ok(final(self)@.p) == p_ok(old(self)@.p),
    {
        self.set_flag_zero(value == 0);
        self.set_flag_negative(value & 0b1000_0000 != 0);
        proof {
            lemma_with_zn(old(self)@.p, value);
        }
    }

    /// Resolve a read-path operand: the operand byte and the cycle cost,
    /// advancing the program counter over the operand bytes.
    fn resolve_read(&mut self, memory: &Memory, mode: Mode) -> (r: (u8, u64))
        requires
            is_read_mode(mode),
            memory.wf(),
        ensures
            ({
                let rr = crate::step::resolve_read(old(self)@, memory@, mode);
                &&& r.0 == rr.v
                &&& r.1 == rr.cost
                &&& r.1 <= 6
                &&& final(self)@ == (CpuSpec { pc: rr.pc, ..old(self)@ })
            }),
    {
        let opb = memory.get(self.program_counter);
        match mode {
            Mode::Imm => {
                self.program_counter = self.program_counter.wrapping_add(1);
                (opb, 2)
            },
            Mode::Zpg => {
                self.program_counter = self.program_counter.wrapping_add(1);
                (memory.get(opb as u16), 3)
            },
            Mode::ZpgX => {
                self.program_counter = self.program_counter.wrapping_add(1);
                (memory.get(opb.wrapping_add(self.index_x) as u16), 4)
            },
            Mode::ZpgY => {
                self.program_counter = self.program_counter.wrapping_add(1);
                (memory.get(opb.wrapping_add(self.index_y) as u16), 4)
            },
            Mode::Abs => {
                let hi = memory.get(self.program_counter.wrapping_add(1));
                self.program_counter = self.program_counter.wrapping_add(2);
                (memory.get(opb as u16 + 256 * (hi as u16)), 4)
            },
            Mode::AbsX => {
                let hi = memory.get(self.program_counter.wrapping_add(1));
                self.program_counter = self.program_counter.wrapping_add(2);
                let addr = (opb as u16 + 256 * (hi as u16)).wrapping_add(self.index_x as u16);
                let cost: u64 = if opb as u16 + self.index_x as u16 > 255 {
                    5
                } else {
                    4
                };
                (memory.get(addr), cost)
            },
            Mode::AbsY => {
                let hi = memory.get(self.program_counter.wrapping_add(1));
                self.program_counter = self.program_counter.wrapping_add(2);
                let addr = (opb as u16 + 256 * (hi as u16)).wrapping_add(self.index_y as u16);
                let cost: u64 = if opb as u16 + self.index_y as u16 > 255 {
                    5
                } else {
                    4
                };
                (memory.get(addr), cost)
            },
            Mode::XInd => {
                self.program_counter = self.program_counter.wrapping_add(1);
                let zp = opb.wrapping_add(self.index_x);
                let lo = memory.get(zp as u16);
                let hi = memory.get(zp.wrapping_add(1) as u16);
                (memory.get(lo as u16 + 256 * (hi as u16)), 6)
            },
            Mode::IndY => {
                self.program_counter = self.program_counter.wrapping_add(1);
                let lo = memory.get(opb as u16);
                let hi = memory.get(opb.wrapping_add(1) as u16);
                let addr = (lo as u16 + 256 * (hi as u16)).wrapping_add(self.index_y as u16);
                let cost: u64 = if lo as u16 + self.index_y as u16 > 255 {
                    6
                } else {
                    5
                };
                (memory.get(addr), cost)
            },
            Mode::A | Mode::Impl | Mode::Ind | Mode::Rel => unreached(),
        }
    }

    /// Resolve a store target: the effective address and the fixed
    /// write-path cycle cost.
    fn resolve_store(&mut self, memory: &Memory, mode: Mode) -> (r: (u16, u64))
        requires
            is_store_mode(mode),
            memory.wf(),
        ensures
            ({
                let ar = crate::step::resolve_store(old(self)@, memory@, mode);
                &&& r.0 == ar.addr
                &&& r.1 == ar.cost
                &&& r.1 <= 6
                &&& final(self)@ == (CpuSpec { pc: ar.pc, ..old(self)@ })
            }),
    {
        let opb = memory.get(self.program_counter);
        match mode {
            Mode::Zpg => {
                self.program_counter = self.program_counter.wrapping_add(1);
                (opb as u16, 3)
            },
            Mode::ZpgX => {
                self.program_counter = self.program_counter.wrapping_add(1);
                (opb.wrapping_add(self.index_x) as u16, 4)
            },
            Mode::ZpgY => {
                self.program_counter = self.program_counter.wrapping_add(1);
                (opb.wrapping_add(self.index_y) as u16, 4)
            },
            Mode::Abs => {
                let hi = memory.get(self.program_counter.wrapping_add(1));
                self.program_counter = self.program_counter.wrapping_add(2);
                (opb as u16 + 256 * (hi as u16), 4)
            },
            Mode::AbsX => {
                let hi = memory.get(self.program_counter.wrapping_add(1));
                self.program_counter = self.program_counter.wrapping_add(2);
                ((opb as u16 + 256 * (hi as u16)).wrapping_add(self.index_x as u16), 5)
            },
            Mode::AbsY => {
                let hi = memory.get(self.program_counter.wrapping_add(1));
                self.program_counter = self.program_counter.wrapping_add(2);
                ((opb as u16 + 256 * (hi as u16)).wrapping_add(self.index_y as u16), 5)
            },
            Mode::XInd => {
                self.program_counter = self.program_counter.wrapping_add(1);
                let zp = opb.wrapping_add(self.index_x);
                let lo = memory.get(zp as u16);
                let hi = memory.get(zp.wrapping_add(1) as u16);
                (lo as u16 + 256 * (hi as u16), 6)
            },
            Mode::IndY => {
                self.program_counter = self.program_counter.wrapping_add(1);
                let lo = memory.get(opb as u16);
                let hi = memory.get(opb.wrapping_add(1) as u16);
                ((lo as u16 + 256 * (hi as u16)).wrapping_add(self.index_y as u16), 6)
            },
            Mode::A | Mode::Imm | Mode::Impl | Mode::Ind | Mode::Rel => unreached(),
        }
    }

    /// Resolve a read-modify-write target: the effective address and the
    /// fixed worst-case cycle cost.
    fn resolve_rmw(&mut self, memory: &Memory, mode: Mode) -> (r: (u16, u64))
        requires
            is_rmw_mode(mode),
            mode != Mode::A,
            memory.wf(),
        ensures
            ({
                let ar = crate::step::resolve_rmw(old(self)@, memory@, mode);
                &&& r.0 == ar.addr
                &&& r.1 == ar.cost
                &&& r.1 <= 7
                &&& final(self)@ == (CpuSpec { pc: ar.pc, ..old(self)@ })
            }),
    {
        let opb = memory.get(self.program_counter);
        match mode {
            Mode::Zpg => {
                self.program_counter = self.program_counter.wrapping_add(1);
                (opb as u16, 5)
            },
            Mode::ZpgX => {
                self.program_counter = self.program_counter.wrapping_add(1);
                (opb.wrapping_add(self.index_x) as u16, 6)
            },
            Mode::Abs => {
                let hi = memory.get(self.program_counter.wrapping_add(1));
                self.program_counter = self.program_counter.wrapping_add(2);
                (opb as u16 + 256 * (hi as u16), 6)
            },
            Mode::AbsX => {
                let hi = memory.get(self.program_counter.wrapping_add(1));
                self.program_counter = self.program_counter.wrapping_add(2);
                ((opb as u16 + 256 * (hi as u16)).wrapping_add(self.index_x as u16), 7)
            },
            _ => unreached(),
        }
    }

    /// One instruction of the read family: ALU and compare operations,
    /// loads and BIT.
    fn op_read(&mut self, memory: &Memory, mn: Mnemonic, mode: Mode)
        requires
            is_read_mode(mode),
            memory.wf(),
            old(self)@.cycle + 7 <= u64::MAX,
        ensures
            final(self)@ == step_read(old(self)@, memory@, mn, mode),
            final(self)@.cycle <= old(self)@.cycle + 7,
            p_ok(final(self)@.p) == p_ok(old(self)@.p),
    {
        let ghost p0 = self@.p;
        let (v, cost) = self.resolve_read(memory, mode);
        match mn {
            Mnemonic::Adc => {
                let a = self.accumulator;
                let cin: u16 = if self.get_flag_carry() {
                    1
                } else {
                    0
                };
                let sum: u16 = a as u16 + v as u16 + cin;
                let carry = sum > 255;
                let r = if carry {
                    (sum - 256) as u8
                } else {
                    sum as u8
                };
                self.set_flag_carry(carry);
                self.set_flag_overflow(((a ^ r) & (v ^ r)) & 0x80 != 0);
                self.set_zn(r);
                self.accumulator = r;
                proof {
                    lemma_with_c(p0, carry);
                    lemma_with_v(with_c(p0, carry), ((a ^ r) & (v ^ r)) & 0x80 != 0);
                }
            },
            Mnemonic::Sbc => {
                let a = self.accumulator;
                let bin: u16 = if self.get_flag_carry() {
                    0
                } else {
                    1
                };
                let t: u16 = 256 + a as u16 - v as u16 - bin;
                let nob = t > 255;
                let r = if nob {
                    (t - 256) as u8
                } else {
                    t as u8
                };
                self.set_flag_carry(nob);
                self.set_flag_overflow(((a ^ v) & (a ^ r)) & 0x80 != 0);
                self.set_zn(r);
                self.accumulator = r;
                proof {
                    lemma_with_c(p0, nob);
                    lemma_with_v(with_c(p0, nob), ((a ^ v) & (a ^ r)) & 0x80 != 0);
                }
            },
            Mnemonic::And => {
                let r = self.accumulator & v;
                self.accumulator = r;
                self.set_zn(r);
            },
            Mnemonic::Ora => {
                let r = self.accumulator | v;
                self.accumulator = r;
                self.set_zn(r);
            },
            Mnemonic::Eor => {
                let r = self.accumulator ^ v;
                self.accumulator = r;
                self.set_zn(r);
            },
            Mnemonic::Cmp => {
                let reg = self.accumulator;
                self.set_flag_carry(reg >= v);
                self.set_zn(reg.wrapping_sub(v));
                proof {
                    lemma_with_c(p0, reg >= v);
                }
            },
            Mnemonic::Cpx => {
                let reg = self.index_x;
                self.set_flag_carry(reg >= v);
                self.set_zn(reg.wrapping_sub(v));
                proof {
                    lemma_with_c(p0, reg >= v);
                }
            },
            Mnemonic::Cpy => {
                let reg = self.index_y;
                self.set_flag_carry(reg >= v);
                self.set_zn(reg.wrapping_sub(v));
                proof {
                    lemma_with_c(p0, reg >= v);
                }
            },
            Mnemonic::Bit => {
                let a = self.accumulator;
                self.set_flag_zero(a & v == 0);
                self.set_flag_overflow(v & 0x40 != 0);
                self.set_flag_negative(v & 0x80 != 0);
                proof {
                    lemma_with_z(p0, a & v == 0);
                    lemma_with_v(with_z(p0, a & v == 0), v & 0x40 != 0);
                    lemma_with_n(with_v(with_z(p0, a & v == 0), v & 0x40 != 0), v & 0x80 != 0);
                }
            },
            Mnemonic::Lda => {
                self.accumulator = v;
                self.set_zn(v);
            },
            Mnemonic::Ldx => {
                self.index_x = v;
                self.set_zn(v);
            },
            Mnemonic::Ldy => {
                self.index_y = v;
                self.set_zn(v);
            },
            _ => {},  // the dispatcher sends no other mnemonic here
        }
        self.cycle = self.cycle + cost;
    }

    /// The pure transformation of a shift, rotate, increment or decrement,
    /// flags applied on the way.
    fn apply_rmw(&mut self, mn: Mnemonic, v: u8) -> (r: u8)
        ensures
            r == crate::step::rmw_result(mn, v, old(self)@.p).0,
            final(self)@ == (CpuSpec {
                p: crate::step::rmw_result(mn, v, old(self)@.p).1,
                ..old(self)@
            }),
            p_ok(final(self)@.p) == p_ok(old(self)@.p),
    {
        let ghost p0 = self@.p;
        match mn {
            Mnemonic::Asl => {
                let r = v << 1;
                self.set_flag_carry(v & 0x80 != 0);
                self.set_zn(r);
                proof {
                    lemma_with_c(p0, v & 0x80 != 0);
                }
                r
            },
            Mnemonic::Lsr => {
                let r = v >> 1;
                self.set_flag_carry(v & 0x01 != 0);
                self.set_flag_zero(r == 0);
                self.set_flag_negative(false);
                proof {
                    lemma_with_c(p0, v & 0x01 != 0);
                    lemma_with_z(with_c(p0, v & 0x01 != 0), r == 0);
                    lemma_with_n(with_z(with_c(p0, v & 0x01 != 0), r == 0), false);
                }
                r
            },
            Mnemonic::Rol => {
                let cin: u8 = if self.get_flag_carry() {
                    1
                } else {
                    0
                };
                let r = (v << 1) | cin;
                self.set_flag_carry(v & 0x80 != 0);
                self.set_zn(r);
                proof {
                    lemma_with_c(p0, v & 0x80 != 0);
                }
                r
            },
            Mnemonic::Ror => {
                let cin: u8 = if self.get_flag_carry() {
                    0x80
                } else {
                    0
                };
                let r = (v >> 1) | cin;
                self.set_flag_carry(v & 0x01 != 0);
                self.set_zn(r);
                proof {
                    lemma_with_c(p0, v & 0x01 != 0);
                }
                r
            },
            Mnemonic::Inc => {
                let r = v.wrapping_add(1);
                self.set_zn(r);
                r
            },
            Mnemonic::Dec => {
                let r = v.wrapping_sub(1);
                self.set_zn(r);
                r
            },
            _ => v,  // the dispatcher sends no other mnemonic here
        }
    }

    /// One read-modify-write instruction: shifts and rotates on the
    /// accumulator or in memory, INC and DEC in memory.
    fn op_rmw(&mut self, memory: &mut Memory, mn: Mnemonic, mode: Mode)
        requires
            is_rmw_mode(mode),
            old(memory).wf(),
            old(self)@.cycle + 7 <= u64::MAX,
        ensures
            (final(self)@, final(memory)@) == step_rmw(old(self)@, old(memory)@, mn, mode),
            final(self)@.cycle <= old(self)@.cycle + 7,
            final(memory).wf(),
            p_ok(final(self)@.p) == p_ok(old(self)@.p),
    {
        if mode == Mode::A {
            let v = self.accumulator;
            let r = self.apply_rmw(mn, v);
            self.accumulator = r;
            self.cycle = self.cycle + 2;
        } else {
            let (addr, cost) = self.resolve_rmw(memory, mode);
            let v = memory.get(addr);
            let r = self.apply_rmw(mn, v);
            memory.set(addr, r);
            self.cycle = self.cycle + cost;
        }
    }

    /// One store instruction.
    fn op_store(&mut self, memory: &mut Memory, mn: Mnemonic, mode: Mode)
        requires
            is_store_mode(mode),
            old(memory).wf(),
            old(self)@.cycle + 7 <= u64::MAX,
        ensures
            (final(self)@, final(memory)@) == step_store(old(self)@, old(memory)@, mn, mode),
            final(self)@.cycle <= old(self)@.cycle + 7,
            final(memory).wf(),
            final(self)@.p == old(self)@.p,
    {
        let (addr, cost) = self.resolve_store(memory, mode);
        let v = match mn {
            Mnemonic::Sta => self.accumulator,
            Mnemonic::Stx => self.index_x,
            _ => self.index_y,
        };
        memory.set(addr, v);
        self.cycle = self.cycle + cost;
    }

    /// One branch: test the flag, then pay for the taken branch and the
    /// page cross.
    fn op_branch(&mut self, memory: &Memory, mn: Mnemonic)
        requires
            memory.wf(),
            old(self)@.cycle + 7 <= u64::MAX,
        ensures
            final(self)@ == step_branch(old(self)@, memory@, mn),
            final(self)@.cycle <= old(self)@.cycle + 7,
            final(self)@.p == old(self)@.p,
    {
        let off = memory.get(self.program_counter);
        let next = self.program_counter.wrapping_add(1);
        let cond = match mn {
            Mnemonic::Bcc => !self.get_flag_carry(),
            Mnemonic::Bcs => self.get_flag_carry(),
            Mnemonic::Bne => !self.get_flag_zero(),
            Mnemonic::Beq => self.get_flag_zero(),
            Mnemonic::Bpl => !self.get_flag_negative(),
            Mnemonic::Bmi => self.get_flag_negative(),
            Mnemonic::Bvc => !self.get_flag_overflow(),
            Mnemonic::Bvs => self.get_flag_overflow(),
            _ => false,
        };
        if !cond {
            self.program_counter = next;
            self.cycle = self.cycle + 2;
        } else {
            let s: u16 = if off < 128 {
                off as u16
            } else {
                0xFF00 + off as u16
            };
            let tgt = next.wrapping_add(s);
            self.program_counter = tgt;
            self.cycle = self.cycle + (if tgt / 256 != next / 256 {
                4
            } else {
                3
            });
        }
    }

    fn op_jmp_abs(&mut self, memory: &Memory)
        requires
            memory.wf(),
            old(self)@.cycle + 7 <= u64::MAX,
        ensures
            final(self)@ == step_jmp_abs(old(self)@, memory@),
            final(self)@.cycle <= old(self)@.cycle + 7,
            final(self)@.p == old(self)@.p,
    {
        let lo = memory.get(self.program_counter);
        let hi = memory.get(self.program_counter.wrapping_add(1));
        self.program_counter = lo as u16 + 256 * (hi as u16);
        self.cycle = self.cycle + 3;
    }

    fn op_jmp_ind(&mut self, memory: &Memory)
        requires
            memory.wf(),
            old(self)@.cycle + 7 <= u64::MAX,
        ensures
            final(self)@ == step_jmp_ind(old(self)@, memory@),
            final(self)@.cycle <= old(self)@.cycle + 7,
            final(self)@.p == old(self)@.p,
    {
        let lo = memory.get(self.program_counter);
        let hi = memory.get(self.program_counter.wrapping_add(1));
        let jump_lo = memory.get(lo as u16 + 256 * (hi as u16));
        let jump_hi = memory.get(lo.wrapping_add(1) as u16 + 256 * (hi as u16));
        self.program_counter = jump_lo as u16 + 256 * (jump_hi as u16);
        self.cycle = self.cycle + 5;
    }

    fn op_jsr(&mut self, memory: &mut Memory)
        requires
            old(memory).wf(),
            old(self)@.cycle + 7 <= u64::MAX,
        ensures
            (final(self)@, final(memory)@) == step_jsr(old(self)@, old(memory)@),
            final(self)@.cycle <= old(self)@.cycle + 7,
            final(memory).wf(),
            final(self)@.p == old(self)@.p,
    {
        let lo = memory.get(self.program_counter);
        let ret = self.program_counter.wrapping_add(1);
        let hi = memory.get(ret);
        memory.set(0x100 + self.stack_pointer as u16, (ret / 256) as u8);
        self.stack_pointer = self.stack_pointer.wrapping_sub(1);
        memory.set(0x100 + self.stack_pointer as u16, (ret % 256) as u8);
        self.stack_pointer = self.stack_pointer.wrapping_sub(1);
        self.program_counter = lo as u16 + 256 * (hi as u16);
        self.cycle = self.cycle + 6;
    }

    fn op_rts(&mut self, memory: &Memory)
        requires
            memory.wf(),
            old(self)@.cycle + 7 <= u64::MAX,
        ensures
            final(self)@ == step_rts(old(self)@, memory@),
            final(self)@.cycle <= old(self)@.cycle + 7,
            final(self)@.p == old(self)@.p,
    {
        self.stack_pointer = self.stack_pointer.wrapping_add(1);
        let lo = memory.get(0x100 + self.stack_pointer as u16);
        self.stack_pointer = self.stack_pointer.wrapping_add(1);
        let hi = memory.get(0x100 + self.stack_pointer as u16);
        self.program_counter = (lo as u16 + 256 * (hi as u16)).wrapping_add(1);
        self.cycle = self.cycle + 6;
    }

    fn op_rti(&mut self, memory: &Memory)
        requires
            memory.wf(),
            old(self)@.cycle + 7 <= u64::MAX,
        ensures
            final(self)@ == step_rti(old(self)@, memory@),
            final(self)@.cycle <= old(self)@.cycle + 7,
            p_ok(final(self)@.p),
    {
        self.stack_pointer = self.stack_pointer.wrapping_add(1);
        let pv = memory.get(0x100 + self.stack_pointer as u16);
        self.status_register = (pv & 0xEF) | 0x20;
        self.stack_pointer = self.stack_pointer.wrapping_add(1);
        let lo = memory.get(0x100 + self.stack_pointer as u16);
        self.stack_pointer = self.stack_pointer.wrapping_add(1);
        let hi = memory.get(0x100 + self.stack_pointer as u16);
        self.program_counter = lo as u16 + 256 * (hi as u16);
        self.cycle = self.cycle + 6;
        proof {
            assert({
                let q = (pv & 0xEF) | 0x20;
                q & 0x20 != 0 && q & 0x10 == 0
            }) by (bit_vector);
        }
    }

    fn op_brk(&mut self, memory: &mut Memory)
        requires
            old(memory).wf(),
            old(self)@.cycle + 7 <= u64::MAX,
        ensures
            (final(self)@, final(memory)@) == step_brk(old(self)@, old(memory)@),
            final(self)@.cycle <= old(self)@.cycle + 7,
            final(memory).wf(),
            p_ok(final(self)@.p) == p_ok(old(self)@.p),
    {
        let ret = self.program_counter.wrapping_add(1);
        memory.set(0x100 + self.stack_pointer as u16, (ret / 256) as u8);
        self.stack_pointer = self.stack_pointer.wrapping_sub(1);
        memory.set(0x100 + self.stack_pointer as u16, (ret % 256) as u8);
        self.stack_pointer = self.stack_pointer.wrapping_sub(1);
        memory.set(0x100 + self.stack_pointer as u16, self.status_register | 0x30);
        self.stack_pointer = self.stack_pointer.wrapping_sub(1);
        self.set_flag_interrupt_disable(true);
        let lo = memory.get(0xFFFE);
        let hi = memory.get(0xFFFF);
        self.program_counter = lo as u16 + 256 * (hi as u16);
        self.cycle = self.cycle + 7;
        proof {
            lemma_with_i(old(self)@.p, true);
        }
    }

    fn op_pha(&mut self, memory: &mut Memory)
        requires
            old(memory).wf(),
            old(self)@.cycle + 7 <= u64::MAX,
        ensures
            (final(self)@, final(memory)@) == step_pha(old(self)@, old(memory)@),
            final(self)@.cycle <= old(self)@.cycle + 7,
            final(memory).wf(),
            final(self)@.p == old(self)@.p,
    {
        memory.set(0x100 + self.stack_pointer as u16, self.accumulator);
        self.stack_pointer = self.stack_pointer.wrapping_sub(1);
        self.cycle = self.cycle + 3;
    }

    fn op_php(&mut self, memory: &mut Memory)
        requires
            old(memory).wf(),
            old(self)@.cycle + 7 <= u64::MAX,
        ensures
            (final(self)@, final(memory)@) == step_php(old(self)@, old(memory)@),
            final(self)@.cycle <= old(self)@.cycle + 7,
            final(memory).wf(),
            final(self)@.p == old(self)@.p,
    {
        memory.set(0x100 + self.stack_pointer as u16, self.status_register | 0b0011_0000);
        self.stack_pointer = self.stack_pointer.wrapping_sub(1);
        self.cycle = self.cycle + 3;
    }

    fn op_pla(&mut self, memory: &Memory)
        requires
            memory.wf(),
            old(self)@.cycle + 7 <= u64::MAX,
        ensures
            final(self)@ == step_pla(old(self)@, memory@),
            final(self)@.cycle <= old(self)@.cycle + 7,
            p_ok(final(self)@.p) == p_ok(old(self)@.p),
    {
        self.stack_pointer = self.stack_pointer.wrapping_add(1);
        let v = memory.get(0x100 + self.stack_pointer as u16);
        self.accumulator = v;
        self.set_zn(v);
        self.cycle = self.cycle + 4;
    }

    fn op_plp(&mut self, memory: &Memory) -> (d: Option<bool>)
        requires
            memory.wf(),
            old(self)@.cycle + 7 <= u64::MAX,
        ensures
            (final(self)@, d) == step_plp(old(self)@, memory@),
            final(self)@.cycle <= old(self)@.cycle + 7,
            p_ok(final(self)@.p),
    {
        self.stack_pointer = self.stack_pointer.wrapping_add(1);
        let v = memory.get(0x100 + self.stack_pointer as u16);
        let p0 = self.status_register;
        self.status_register = (p0 & 0b0000_0100) | (v & 0b1110_1011) | 0b0010_0000;
        self.cycle = self.cycle + 4;
        proof {
            assert({
                let q = (p0 & 0x04) | (v & 0xEB) | 0x20;
                q & 0x20 != 0 && q & 0x10 == 0
            }) by (bit_vector);
        }
        Some(v & 0b0000_0100 != 0)
    }

    /// The one-byte instructions: flag operations, transfers, index steps
    /// and NOP.  Returns the deferred I update of CLI and SEI.
    fn op_implied(&mut self, mn: Mnemonic) -> (d: Option<bool>)
        requires
            old(self)@.cycle + 7 <= u64::MAX,
        ensures
            (final(self)@, d) == step_implied(old(self)@, mn),
            final(self)@.cycle <= old(self)@.cycle + 7,
            p_ok(final(self)@.p) == p_ok(old(self)@.p),
    {
        let ghost p0 = self@.p;
        self.cycle = self.cycle + 2;
        match mn {
            Mnemonic::Clc => {
                self.set_flag_carry(false);
                proof {
                    lemma_with_c(p0, false);
                }
                None
            },
            Mnemonic::Sec => {
                self.set_flag_carry(true);
                proof {
                    lemma_with_c(p0, true);
                }
                None
            },
            Mnemonic::Cld => {
                self.set_flag_decimal(false);
                proof {
                    lemma_with_d(p0, false);
                }
                None
            },
            Mnemonic::Sed => {
                self.set_flag_decimal(true);
                proof {
                    lemma_with_d(p0, true);
                }
                None
            },
            Mnemonic::Clv => {
                self.set_flag_overflow(false);
                proof {
                    lemma_with_v(p0, false);
                }
                None
            },
            Mnemonic::Cli => Some(false),
            Mnemonic::Sei => Some(true),
            Mnemonic::Tax => {
                self.index_x = self.accumulator;
                self.set_zn(self.accumulator);
                None
            },
            Mnemonic::Tay => {
                self.index_y = self.accumulator;
                self.set_zn(self.accumulator);
                None
            },
            Mnemonic::Tsx => {
                self.index_x = self.stack_pointer;
                self.set_zn(self.stack_pointer);
                None
            },
            Mnemonic::Txa => {
                self.accumulator = self.index_x;
                self.set_zn(self.index_x);
                None
            },
            Mnemonic::Tya => {
                self.accumulator = self.index_y;
                self.set_zn(self.index_y);
                None
            },
            Mnemonic::Txs => {
                self.stack_pointer = self.index_x;
                None
            },
            Mnemonic::Dex => {
                let r = self.index_x.wrapping_sub(1);
                self.index_x = r;
                self.set_zn(r);
                None
            },
            Mnemonic::Dey => {
                let r = self.index_y.wrapping_sub(1);
                self.index_y = r;
                self.set_zn(r);
                None
            },
            Mnemonic::Inx => {
                let r = self.index_x.wrapping_add(1);
                self.index_x = r;
                self.set_zn(r);
                None
            },
            Mnemonic::Iny => {
                let r = self.index_y.wrapping_add(1);
                self.index_y = r;
                self.set_zn(r);
                None
            },
            _ => None,
        }
    }

    /// The common interrupt entry: push the return address and the status
    /// byte with B clear, raise I, jump through the vector, charge 7 cycles.
    fn service_interrupt(&mut self, memory: &mut Memory, vec_lo: u16, vec_hi: u16)
        requires
            old(memory).wf(),
            old(self)@.cycle + 7 <= u64::MAX,
        ensures
            (final(self)@, final(memory)@) == crate::step::service_interrupt(
                old(self)@,
                old(memory)@,
                vec_lo,
                vec_hi,
            ),
            final(memory).wf(),
            p_ok(final(self)@.p) == p_ok(old(self)@.p),
    {
        memory.set(0x100 + self.stack_pointer as u16, (self.program_counter / 256) as u8);
        self.stack_pointer = self.stack_pointer.wrapping_sub(1);
        memory.set(0x100 + self.stack_pointer as u16, (self.program_counter % 256) as u8);
        self.stack_pointer = self.stack_pointer.wrapping_sub(1);
        memory.set(0x100 + self.stack_pointer as u16, (self.status_register & 0b1110_1111)
            | 0b0010_0000);
        self.stack_pointer = self.stack_pointer.wrapping_sub(1);
        self.set_flag_interrupt_disable(true);
        let lo = memory.get(vec_lo);
        let hi = memory.get(vec_hi);
        self.program_counter = lo as u16 + 256 * (hi as u16);
        self.cycle = self.cycle + 7;
        proof {
            lemma_with_i(old(self)@.p, true);
        }
    }

    /// The poll after each retired instruction: NMI first and consumed when
    /// taken; IRQ level-held and masked by I.
    fn poll_interrupts(&mut self, memory: &mut Memory)
        requires
            old(memory).wf(),
            old(self)@.cycle + 7 <= u64::MAX,
        ensures
            (final(self)@, final(memory)@) == spec_poll(old(self)@, old(memory)@),
            final(memory).wf(),
            p_ok(final(self)@.p) == p_ok(old(self)@.p),
    {
        if self.nmi {
            self.service_interrupt(memory, 0xFFFA, 0xFFFB);
            self.nmi = false;
        } else if self.irq && !self.get_flag_interrupt_disable() {
            self.service_interrupt(memory, 0xFFFE, 0xFFFF);
        }
    }

    /// Drive the core by one external tick.  While the core's cycle counter
    /// is ahead of `emulator_cycle` nothing happens; otherwise one whole
    /// instruction is retired, atomically: trace, execution, cycle
    /// accounting and the interrupt poll, exactly as `spec_step` describes.
    /// An unofficial opcode is a fatal decode error carrying the byte in
    /// hexadecimal; it leaves the machine at the post-fetch program counter.
    pub fn cycle(&mut self, memory: &mut Memory, emulator_cycle: u64) -> (r: Result<(), String>)
        requires
            old(self).inv(),
            old(memory).wf(),
            old(self)@.cycle + 14 <= u64::MAX,
        ensures
            final(self).inv(),
            final(memory).wf(),
            emulator_cycle < old(self)@.cycle ==> final(self)@ == old(self)@ && final(memory)@
                == old(memory)@ && r is Ok,
            emulator_cycle >= old(self)@.cycle ==> ({
                let s = spec_step(old(self)@, old(memory)@);
                &&& final(self)@ == s.c
                &&& final(memory)@ == s.m
                &&& match s.err {
                    Option::None => r is Ok,
                    Option::Some(op) => r matches Err(e) && e@ == err_text(op),
                }
            }),
    {
        if emulator_cycle < self.cycle {
            return Ok(());
        }
        let ghost c0 = self@;
        let ghost m0 = memory@;
        let pc0 = self.program_counter;
        let op = memory.get(pc0);
        self.program_counter = pc0.wrapping_add(1);
        let info = OpInfo::decode(op);
        if !info.official {
            return Err(hex_byte_text(op));
        }
        if self.log_enabled {
            let b1 = memory.get(pc0.wrapping_add(1));
            let b2 = memory.get(pc0.wrapping_add(2));
            let s16: u16 = if b1 < 128 {
                b1 as u16
            } else {
                0xFF00 + b1 as u16
            };
            let t = TraceArgs {
                pc: pc0,
                b0: op,
                b1,
                b2,
                zp_val: memory.get(b1 as u16),
                at_y: (b1 as u16 + 256 * (b2 as u16)).wrapping_add(self.index_y as u16),
                rel_target: pc0.wrapping_add(2).wrapping_add(s16),
                a: self.accumulator,
                x: self.index_x,
                y: self.index_y,
                p: self.status_register,
                sp: self.stack_pointer,
                cyc: self.cycle,
            };
            proof {
                assert(t == targs(c0, m0));
            }
            append_trace_line(&mut self.log, &t, info);
        }
        let ghost c2 = self@;
        let defer: Option<bool> = match info.mn {
            Mnemonic::Adc | Mnemonic::And | Mnemonic::Bit | Mnemonic::Cmp | Mnemonic::Cpx
                | Mnemonic::Cpy | Mnemonic::Eor | Mnemonic::Lda | Mnemonic::Ldx | Mnemonic::Ldy
                | Mnemonic::Ora | Mnemonic::Sbc => {
                self.op_read(memory, info.mn, info.mode);
                None
            },
            Mnemonic::Asl | Mnemonic::Lsr | Mnemonic::Rol | Mnemonic::Ror | Mnemonic::Inc
                | Mnemonic::Dec => {
                self.op_rmw(memory, info.mn, info.mode);
                None
            },
            Mnemonic::Sta | Mnemonic::Stx | Mnemonic::Sty => {
                self.op_store(memory, info.mn, info.mode);
                None
            },
            Mnemonic::Bcc | Mnemonic::Bcs | Mnemonic::Beq | Mnemonic::Bmi | Mnemonic::Bne
                | Mnemonic::Bpl | Mnemonic::Bvc | Mnemonic::Bvs => {
                self.op_branch(memory, info.mn);
                None
            },
            Mnemonic::Jmp => {
                if info.mode == Mode::Ind {
                    self.op_jmp_ind(memory);
                } else {
                    self.op_jmp_abs(memory);
                }
                None
            },
            Mnemonic::Jsr => {
                self.op_jsr(memory);
                None
            },
            Mnemonic::Rts => {
                self.op_rts(memory);
                None
            },
            Mnemonic::Rti => {
                self.op_rti(memory);
                None
            },
            Mnemonic::Brk => {
                self.op_brk(memory);
                None
            },
            Mnemonic::Pha => {
                self.op_pha(memory);
                None
            },
            Mnemonic::Php => {
                self.op_php(memory);
                None
            },
            Mnemonic::Pla => {
                self.op_pla(memory);
                None
            },
            Mnemonic::Plp => self.op_plp(memory),
            _ => self.op_implied(info.mn),
        };
        proof {
            assert(spec_instr(c2, m0, info.mn, info.mode) == (crate::step::InstrOut {
                c: self@,
                m: memory@,
                defer_i: defer,
            }));
        }
        self.poll_interrupts(memory);
        let ghost c3 = self@;
        if let Some(b) = defer {
            self.set_flag_interrupt_disable(b);
            proof {
                lemma_with_i(c3.p, b);
            }
        }
        proof {
            let s = spec_step(c0, m0);
            assert(self@ == s.c);
            assert(memory@ == s.m);
        }
        Ok(())
    }
}

} // verus!
