//! Laws of the instruction semantics, stated over the same spec functions
//! that the engine's contracts use and proved once and for all inputs.

use vstd::prelude::*;

use crate::arith::{hi8, lo8, wadd8, wadd16, word, wsub8};
use crate::memory::{rd, wr, MemSpec};
use crate::status::{flag_c, flag_i, flag_n, flag_u, flag_z, p_ok, with_zn};
use crate::step::{
    alu_adc, alu_sbc, apply_defer, rmw_result, service_interrupt, spec_step, stack_addr,
    step_brk, step_jsr, step_pha, step_php, step_pla, step_plp, step_rts, CpuSpec,
};
use crate::decode::Mnemonic;

verus! {

/// The two bus states agree everywhere except possibly inside the stack
/// page 0x0100..0x01FF.
pub open spec fn stack_page_only(m: MemSpec, m2: MemSpec) -> bool {
    &&& m2.ram.len() == m.ram.len()
    &&& forall|i: int|
        0 <= i < m.ram.len() && !(0x100 <= i && i <= 0x1FF) ==> m2.ram[i] == m.ram[i]
    &&& m2.ppu == m.ppu
    &&& m2.apu == m.apu
    &&& m2.prg == m.prg
    &&& m2.chr == m.chr
    &&& m2.vram == m.vram
    &&& m2.pal == m.pal
}

/// A write through a stack pointer lands in the stack page and nowhere
/// else.
pub proof fn lemma_stack_write(m: MemSpec, sp: u8, v: u8)
    requires
        m.wf(),
    ensures
        stack_page_only(m, wr(m, stack_addr(sp), v)),
        wr(m, stack_addr(sp), v).wf(),
        rd(wr(m, stack_addr(sp), v), stack_addr(sp)) == v,
{
    assert(stack_addr(sp) as int % 0x800 == 0x100 + sp);
}

/// Stack operations modify only addresses 0x0100..0x01FF: the memory that
/// PHA, PHP, JSR, BRK and an interrupt entry leave behind differs from the
/// memory before only inside the stack page.  (PLA, PLP, RTS and RTI write
/// nothing at all.)
pub proof fn lemma_stack_ops_touch_only_stack_page(
    c: CpuSpec,
    m: MemSpec,
    vec_lo: u16,
    vec_hi: u16,
)
    requires
        m.wf(),
    ensures
        stack_page_only(m, step_pha(c, m).1),
        stack_page_only(m, step_php(c, m).1),
        stack_page_only(m, step_jsr(c, m).1),
        stack_page_only(m, step_brk(c, m).1),
        stack_page_only(m, service_interrupt(c, m, vec_lo, vec_hi).1),
{
    lemma_stack_write(m, c.sp, c.a);
    lemma_stack_write(m, c.sp, c.p | 0x30);
    let ret = wadd16(c.pc, 1);
    lemma_stack_write(m, c.sp, hi8(ret));
    let m1 = wr(m, stack_addr(c.sp), hi8(ret));
    lemma_stack_write(m1, wsub8(c.sp, 1), lo8(ret));
    let m2 = wr(m1, stack_addr(wsub8(c.sp, 1)), lo8(ret));
    lemma_stack_write(m2, wsub8(c.sp, 2), c.p | 0x30);
    lemma_stack_write(m, c.sp, hi8(c.pc));
    let n1 = wr(m, stack_addr(c.sp), hi8(c.pc));
    lemma_stack_write(n1, wsub8(c.sp, 1), lo8(c.pc));
    let n2 = wr(n1, stack_addr(wsub8(c.sp, 1)), lo8(c.pc));
    lemma_stack_write(n2, wsub8(c.sp, 2), (c.p & 0xEF) | 0x20);
}

/// PHA then PLA restores the accumulator, returns the stack pointer to its
/// original value, routes the pulled value through the Z and N update, and
/// changes nothing else of the register file.
pub proof fn lemma_pha_pla_round_trip(c: CpuSpec, m: MemSpec)
    requires
        m.wf(),
        c.cycle + 7 <= u64::MAX,
    ensures
        ({
            let (c1, m1) = step_pha(c, m);
            let c2 = step_pla(c1, m1);
            &&& c2.a == c.a
            &&& c2.sp == c.sp
            &&& c2.p == with_zn(c.p, c.a)
            &&& c2.x == c.x
            &&& c2.y == c.y
            &&& c2.pc == c.pc
            &&& c2.cycle == c.cycle + 7
            &&& c2.irq == c.irq
            &&& c2.nmi == c.nmi
            &&& c2.log == c.log
        }),
{
    let (c1, m1) = step_pha(c, m);
    lemma_stack_write(m, c.sp, c.a);
    assert(wadd8(wsub8(c.sp, 1), 1) == c.sp);
}

/// PHP then PLP restores the status byte: the pushed copy carries B and U
/// set, the pull masks B back off and keeps U on, and the I bit pulled is
/// the I bit pushed, so even the deferred update leaves P exactly as it
/// was.  U remains 1 throughout.
pub proof fn lemma_php_plp_round_trip(c: CpuSpec, m: MemSpec)
    requires
        m.wf(),
        p_ok(c.p),
        c.cycle + 7 <= u64::MAX,
    ensures
        ({
            let (c1, m1) = step_php(c, m);
            let (c2, d) = step_plp(c1, m1);
            &&& c2.p == c.p
            &&& d == Some(flag_i(c.p))
            &&& apply_defer(c2, d).p == c.p
            &&& flag_u(c2.p)
            &&& c2.sp == c.sp
            &&& c2.a == c.a
            &&& c2.x == c.x
            &&& c2.y == c.y
            &&& c2.pc == c.pc
            &&& c2.cycle == c.cycle + 7
        }),
{
    let (c1, m1) = step_php(c, m);
    lemma_stack_write(m, c.sp, c.p | 0x30);
    assert(wadd8(wsub8(c.sp, 1), 1) == c.sp);
    let p = c.p;
    assert((p & 0x20 != 0 && p & 0x10 == 0) ==> {
        &&& (p & 0x04) | ((p | 0x30) & 0xEB) | 0x20 == p
        &&& ((p | 0x30) & 0x04 != 0) == (p & 0x04 != 0)
        &&& (p & 0x04 != 0) ==> p | 0x04 == p
        &&& (p & 0x04 == 0) ==> p & 0xFB == p
        &&& p & 0x20 != 0
    }) by (bit_vector);
}

/// ADC with C clear returns the low byte of the sum and sets C exactly when
/// the sum reaches 256.
pub proof fn lemma_adc_sum(a: u8, v: u8, p: u8)
    requires
        !flag_c(p),
    ensures
        alu_adc(a, v, p).0 == (a + v) % 256,
        flag_c(alu_adc(a, v, p).1) == (a + v >= 256),
        flag_z(alu_adc(a, v, p).1) == (alu_adc(a, v, p).0 == 0),
        flag_n(alu_adc(a, v, p).1) == (alu_adc(a, v, p).0 & 0x80 != 0),
{
    let (r, p1) = alu_adc(a, v, p);
    assert((a + v) % 256 == if a + v > 255 {
        a + v - 256
    } else {
        a + v as int
    });
    let q = crate::status::with_c(p, a + v > 255);
    crate::status::lemma_with_c(p, a + v > 255);
    crate::status::lemma_with_v(q, ((a ^ r) & (v ^ r)) & 0x80 != 0);
    crate::status::lemma_with_zn(crate::status::with_v(q, ((a ^ r) & (v ^ r)) & 0x80 != 0), r);
}

/// Where the addition carried, SBC of the result and the same operand, with
/// the carry ADC produced, reproduces the original accumulator.  (Without
/// the carry the borrow costs one: SBC then yields the accumulator less
/// one, so the round trip holds exactly on the carrying inputs.)
pub proof fn lemma_adc_sbc_round_trip(a: u8, v: u8, p: u8)
    requires
        !flag_c(p),
        a + v >= 256,
    ensures
        ({
            let (r, p1) = alu_adc(a, v, p);
            alu_sbc(r, v, p1).0 == a
        }),
{
    let (r, p1) = alu_adc(a, v, p);
    let q = crate::status::with_c(p, a + v > 255);
    crate::status::lemma_with_c(p, a + v > 255);
    crate::status::lemma_with_v(q, ((a ^ r) & (v ^ r)) & 0x80 != 0);
    crate::status::lemma_with_zn(crate::status::with_v(q, ((a ^ r) & (v ^ r)) & 0x80 != 0), r);
    assert(flag_c(p1));
}

/// JSR then RTS: the return lands three bytes past the JSR opcode and the
/// stack pointer comes back to its original value.  `c.pc` here is the
/// address after the JSR opcode byte, so the JSR opcode sits at
/// `c.pc - 1` and the instruction after it at `c.pc + 2`.
pub proof fn lemma_jsr_rts_round_trip(c: CpuSpec, m: MemSpec)
    requires
        m.wf(),
        c.cycle + 12 <= u64::MAX,
    ensures
        ({
            let (c1, m1) = step_jsr(c, m);
            let c2 = step_rts(c1, m1);
            &&& c2.pc == wadd16(c.pc, 2)
            &&& c2.sp == c.sp
            &&& c2.p == c.p
            &&& c2.a == c.a
            &&& c2.x == c.x
            &&& c2.y == c.y
            &&& c2.cycle == c.cycle + 12
        }),
{
    let ret = wadd16(c.pc, 1);
    lemma_stack_write(m, c.sp, hi8(ret));
    let m1 = wr(m, stack_addr(c.sp), hi8(ret));
    lemma_stack_write(m1, wsub8(c.sp, 1), lo8(ret));
    let m2 = wr(m1, stack_addr(wsub8(c.sp, 1)), lo8(ret));
    assert(wadd8(wsub8(c.sp, 2), 1) == wsub8(c.sp, 1));
    assert(wadd8(wsub8(c.sp, 2), 2) == c.sp);
    assert(stack_addr(wsub8(c.sp, 1)) != stack_addr(c.sp));
    assert(rd(m2, stack_addr(wsub8(c.sp, 1))) == lo8(ret));
    assert(rd(m2, stack_addr(c.sp)) == hi8(ret)) by {
        assert(stack_addr(c.sp) as int % 0x800 == 0x100 + c.sp);
        assert(stack_addr(wsub8(c.sp, 1)) as int % 0x800 == 0x100 + wsub8(c.sp, 1));
    };
    assert(word(lo8(ret), hi8(ret)) == ret) by {
        assert(ret == 256 * (ret / 256) + ret % 256);
    };
}

/// ASL then LSR clears bit 7: the byte that comes back is `(v << 1) >> 1`,
/// ASL's carry is the original bit 7, and LSR's carry is bit 0 of the
/// shifted byte, which a left shift always leaves clear.
pub proof fn lemma_asl_lsr(v: u8, p: u8)
    ensures
        ({
            let (r1, p1) = rmw_result(Mnemonic::Asl, v, p);
            let (r2, p2) = rmw_result(Mnemonic::Lsr, r1, p1);
            &&& r2 == (v << 1) >> 1
            &&& r2 & 0x80 == 0
            &&& flag_c(p1) == (v & 0x80 != 0)
            &&& flag_c(p2) == ((v << 1) & 0x01 != 0)
            &&& (v << 1) & 0x01 == 0
        }),
{
    let (r1, p1) = rmw_result(Mnemonic::Asl, v, p);
    crate::status::lemma_with_c(p, v & 0x80 != 0);
    crate::status::lemma_with_zn(crate::status::with_c(p, v & 0x80 != 0), r1);
    let (r2, p2) = rmw_result(Mnemonic::Lsr, r1, p1);
    crate::status::lemma_with_c(p1, r1 & 0x01 != 0);
    crate::status::lemma_with_z(crate::status::with_c(p1, r1 & 0x01 != 0), r2 == 0);
    crate::status::lemma_with_n(
        crate::status::with_z(crate::status::with_c(p1, r1 & 0x01 != 0), r2 == 0),
        false,
    );
    assert(((v << 1) >> 1) & 0x80 == 0 && (v << 1) & 0x01 == 0) by (bit_vector);
}

/// A bus change confined to the stack page leaves every read outside RAM,
/// and every RAM read outside the stack page, exactly as it was.
pub proof fn lemma_stack_page_only_preserves_reads(m: MemSpec, m2: MemSpec, a: u16)
    requires
        m.wf(),
        stack_page_only(m, m2),
        a >= 0x2000 || !(0x100 <= a as int % 0x800 <= 0x1FF),
    ensures
        rd(m2, a) == rd(m, a),
{
}

/// PHA then PLA, as a two-instruction program: running `spec_step` twice on
/// code placed in ROM restores the accumulator and the stack pointer, routes
/// the pulled value through the Z and N update, leaves the other registers
/// alone, and touches memory only inside the stack page.
#[verifier::rlimit(100)]
#[verifier::spinoff_prover]
pub proof fn lemma_pha_pla_program(c: CpuSpec, m: MemSpec)
    requires
        m.wf(),
        c.cycle + 14 <= u64::MAX,
        0x8000 <= c.pc < 0xFFFF,
        rd(m, c.pc) == 0x48,
        rd(m, wadd16(c.pc, 1)) == 0x68,
        !c.nmi,
        !c.irq,
    ensures
        ({
            let s1 = spec_step(c, m);
            let s2 = spec_step(s1.c, s1.m);
            &&& s1.err is None
            &&& s2.err is None
            &&& s2.c.a == c.a
            &&& s2.c.sp == c.sp
            &&& s2.c.p == with_zn(c.p, c.a)
            &&& s2.c.x == c.x
            &&& s2.c.y == c.y
            &&& s2.c.pc == wadd16(c.pc, 2)
            &&& s2.c.cycle == c.cycle + 7
            &&& stack_page_only(m, s2.m)
        }),
{
    let s1 = spec_step(c, m);
    lemma_stack_write(m, c.sp, c.a);
    lemma_stack_page_only_preserves_reads(m, s1.m, wadd16(c.pc, 1));
    assert(wadd8(wsub8(c.sp, 1), 1) == c.sp);
}

/// PHP then PLP, as a two-instruction program in ROM: the status byte comes
/// back exactly, U stays 1 through the pull and through the deferred I
/// update, and the stack pointer returns to its original value.
#[verifier::rlimit(100)]
#[verifier::spinoff_prover]
pub proof fn lemma_php_plp_program(c: CpuSpec, m: MemSpec)
    requires
        m.wf(),
        p_ok(c.p),
        c.cycle + 14 <= u64::MAX,
        0x8000 <= c.pc < 0xFFFF,
        rd(m, c.pc) == 0x08,
        rd(m, wadd16(c.pc, 1)) == 0x28,
        !c.nmi,
        !c.irq,
    ensures
        ({
            let s1 = spec_step(c, m);
            let s2 = spec_step(s1.c, s1.m);
            &&& s1.err is None
            &&& s2.err is None
            &&& s2.c.p == c.p
            &&& flag_u(s2.c.p)
            &&& s2.c.sp == c.sp
            &&& s2.c.a == c.a
            &&& s2.c.x == c.x
            &&& s2.c.y == c.y
            &&& s2.c.pc == wadd16(c.pc, 2)
            &&& s2.c.cycle == c.cycle + 7
            &&& stack_page_only(m, s2.m)
        }),
{
    let s1 = spec_step(c, m);
    lemma_stack_write(m, c.sp, c.p | 0x30);
    lemma_stack_page_only_preserves_reads(m, s1.m, wadd16(c.pc, 1));
    assert(wadd8(wsub8(c.sp, 1), 1) == c.sp);
    let p = c.p;
    assert((p & 0x20 != 0 && p & 0x10 == 0) ==> {
        &&& (p & 0x04) | ((p | 0x30) & 0xEB) | 0x20 == p
        &&& (p & 0x04 != 0) ==> p | 0x04 == p
        &&& (p & 0x04 == 0) ==> p & 0xFB == p
        &&& ((p | 0x30) & 0x04 != 0) == (p & 0x04 != 0)
    }) by (bit_vector);
}

/// JSR then RTS, as a program: a JSR in ROM whose target in ROM holds an
/// RTS comes back to the instruction after the JSR with the stack pointer
/// restored, at 6 cycles each way, having touched memory only inside the
/// stack page.
#[verifier::rlimit(100)]
#[verifier::spinoff_prover]
pub proof fn lemma_jsr_rts_program(c: CpuSpec, m: MemSpec)
    requires
        m.wf(),
        c.cycle + 14 <= u64::MAX,
        0x8000 <= c.pc < 0xFFFD,
        rd(m, c.pc) == 0x20,
        ({
            let target = word(rd(m, wadd16(c.pc, 1)), rd(m, wadd16(c.pc, 2)));
            target >= 0x8000 && rd(m, target) == 0x60
        }),
        !c.nmi,
        !c.irq,
    ensures
        ({
            let s1 = spec_step(c, m);
            let s2 = spec_step(s1.c, s1.m);
            &&& s1.err is None
            &&& s1.c.pc == word(rd(m, wadd16(c.pc, 1)), rd(m, wadd16(c.pc, 2)))
            &&& s2.err is None
            &&& s2.c.pc == wadd16(c.pc, 3)
            &&& s2.c.sp == c.sp
            &&& s2.c.p == c.p
            &&& s2.c.a == c.a
            &&& s2.c.x == c.x
            &&& s2.c.y == c.y
            &&& s2.c.cycle == c.cycle + 12
            &&& stack_page_only(m, s2.m)
        }),
{
    let s1 = spec_step(c, m);
    let ret = wadd16(c.pc, 2);
    lemma_stack_write(m, c.sp, hi8(ret));
    let m1 = wr(m, stack_addr(c.sp), hi8(ret));
    lemma_stack_write(m1, wsub8(c.sp, 1), lo8(ret));
    let m2 = wr(m1, stack_addr(wsub8(c.sp, 1)), lo8(ret));
    let target = word(rd(m, wadd16(c.pc, 1)), rd(m, wadd16(c.pc, 2)));
    lemma_stack_page_only_preserves_reads(m, m2, target);
    assert(wadd8(wsub8(c.sp, 2), 1) == wsub8(c.sp, 1));
    assert(wadd8(wsub8(c.sp, 2), 2) == c.sp);
    assert(stack_addr(wsub8(c.sp, 1)) != stack_addr(c.sp));
    assert(rd(m2, stack_addr(wsub8(c.sp, 1))) == lo8(ret));
    assert(rd(m2, stack_addr(c.sp)) == hi8(ret)) by {
        assert(stack_addr(c.sp) as int % 0x800 == 0x100 + c.sp);
        assert(stack_addr(wsub8(c.sp, 1)) as int % 0x800 == 0x100 + wsub8(c.sp, 1));
    };
    assert(word(lo8(ret), hi8(ret)) == ret) by {
        assert(ret == 256 * (ret / 256) + ret % 256);
    };
}

} // verus!
