//! The trace-line formatter.  One line per retired instruction, in the
//! classic `nestest.log` shape: the pre-fetch program counter, the raw
//! instruction bytes, mnemonic and operand in a 42-column field, then the
//! register block and the cycle counter at the start of the instruction.

use vstd::prelude::*;
use vstd::string::StringExecFns;

use crate::decode::{mn_name, Mnemonic, Mode, OpInfo};

verus! {

/// Upper-case hexadecimal digit (meaningful for `n < 16`).
pub open spec fn hexdig(n: u8) -> u8 {
    if n < 10 {
        (48 + n) as u8
    } else {
        (55 + n) as u8
    }
}

/// Two upper-case hexadecimal digits of a byte.
pub open spec fn hex2(b: u8) -> Seq<u8> {
    seq![hexdig((b / 16) as u8), hexdig((b % 16) as u8)]
}

/// Four upper-case hexadecimal digits of a word.
pub open spec fn hex4(w: u16) -> Seq<u8> {
    hex2((w / 256) as u8) + hex2((w % 256) as u8)
}

/// Decimal digits of a number, most significant first, no padding.
pub open spec fn dec_n(n: nat) -> Seq<u8>
    decreases n,
{
    if n < 10 {
        seq![(48 + n) as u8]
    } else {
        dec_n(n / 10) + seq![(48 + n % 10) as u8]
    }
}

pub open spec fn spaces(n: nat) -> Seq<u8> {
    Seq::new(n, |i: int| 32u8)
}

/// Everything the formatter reads: the pre-fetch program counter and the
/// three bytes after it, the operand byte behind a zero-page operand, the
/// computed absolute-Y target and relative branch target, and the register
/// block as it stood when the instruction was fetched.
#[derive(Clone, Copy)]
pub struct TraceArgs {
    pub pc: u16,
    pub b0: u8,
    pub b1: u8,
    pub b2: u8,
    pub zp_val: u8,
    pub at_y: u16,
    pub rel_target: u16,
    pub a: u8,
    pub x: u8,
    pub y: u8,
    pub p: u8,
    pub sp: u8,
    pub cyc: u64,
}

/// How many bytes an instruction in this mode occupies.
pub open spec fn mode_len(mode: Mode) -> int {
    match mode {
        Mode::A | Mode::Impl => 1,
        Mode::Imm | Mode::XInd | Mode::IndY | Mode::Rel | Mode::Zpg | Mode::ZpgX | Mode::ZpgY => 2,
        Mode::Abs | Mode::AbsX | Mode::AbsY | Mode::Ind => 3,
    }
}

/// The raw instruction bytes, blank-padded so the mnemonic always starts at
/// the same column.
pub open spec fn bytes_part(t: TraceArgs, mode: Mode) -> Seq<u8> {
    if mode_len(mode) == 1 {
        hex2(t.b0) + spaces(8)
    } else if mode_len(mode) == 2 {
        hex2(t.b0) + seq![32u8] + hex2(t.b1) + spaces(5)
    } else {
        hex2(t.b0) + seq![32u8] + hex2(t.b1) + seq![32u8] + hex2(t.b2) + spaces(2)
    }
}

/// The operand text that follows the mnemonic, leading space included.
pub open spec fn operand_part(t: TraceArgs, mode: Mode) -> Seq<u8> {
    match mode {
        Mode::A => seq![32u8, 65u8],  // " A"
        Mode::Impl => Seq::empty(),
        Mode::Abs => seq![32u8, 36u8] + hex2(t.b2) + hex2(t.b1),  // " $hhll"
        Mode::AbsX => seq![32u8, 36u8] + hex2(t.b2) + hex2(t.b1) + seq![44u8, 88u8],  // ",X"
        Mode::AbsY => seq![32u8, 36u8] + hex2(t.b2) + hex2(t.b1) + seq![44u8, 89u8, 32u8, 64u8, 32u8]
            + hex4(t.at_y),  // ",Y @ aaaa"
        Mode::Imm => seq![32u8, 35u8, 36u8] + hex2(t.b1),  // " #$ll"
        Mode::Ind => seq![32u8, 40u8, 36u8] + hex2(t.b2) + hex2(t.b1) + seq![41u8],  // " ($hhll)"
        Mode::XInd => seq![32u8, 40u8, 36u8] + hex2(t.b1) + seq![44u8, 88u8, 41u8],  // " ($ll,X)"
        Mode::IndY => seq![32u8, 40u8, 36u8] + hex2(t.b1) + seq![41u8, 44u8, 89u8],  // " ($ll),Y"
        Mode::Rel => seq![32u8, 36u8, 40u8] + hex4(t.rel_target) + seq![41u8],  // " $(tttt)"
        Mode::Zpg => seq![32u8, 36u8] + hex2(t.b1) + seq![32u8, 61u8, 32u8] + hex2(t.zp_val),  // " $ll = vv"
        Mode::ZpgX => seq![32u8, 36u8] + hex2(t.b1) + seq![44u8, 88u8],  // " $ll,X"
        Mode::ZpgY => seq![32u8, 36u8] + hex2(t.b1) + seq![44u8, 89u8],  // " $ll,Y"
    }
}

/// Bytes, mnemonic and operand, blank-padded to the fixed 42-column field.
pub open spec fn field42(t: TraceArgs, info: OpInfo) -> Seq<u8> {
    let s = bytes_part(t, info.mode) + mn_name(info.mn) + operand_part(t, info.mode);
    if s.len() <= 42 {
        s + spaces((42 - s.len()) as nat)
    } else {
        s
    }
}

/// The register block: accumulator, indexes, status, stack pointer, the
/// fixed PPU column of this CPU-only core, and the cycle counter.
pub open spec fn reg_tail(t: TraceArgs) -> Seq<u8> {
    seq![65u8, 58u8] + hex2(t.a)  // "A:"
     + seq![32u8, 88u8, 58u8] + hex2(t.x)  // " X:"
     + seq![32u8, 89u8, 58u8] + hex2(t.y)  // " Y:"
     + seq![32u8, 80u8, 58u8] + hex2(t.p)  // " P:"
     + seq![32u8, 83u8, 80u8, 58u8] + hex2(t.sp)  // " SP:"
     + seq![32u8, 80u8, 80u8, 85u8, 58u8, 32u8, 32u8, 48u8, 44u8, 32u8, 32u8, 48u8, 32u8, 67u8,
        89u8, 67u8, 58u8]  // " PPU:  0,  0 CYC:"
     + dec_n(t.cyc as nat) + seq![10u8]
}

/// One whole trace line, newline included.
pub open spec fn trace_line(t: TraceArgs, info: OpInfo) -> Seq<u8> {
    hex4(t.pc) + spaces(2) + field42(t, info) + reg_tail(t)
}

fn hex_digit(n: u8) -> (r: u8)
    requires
        n < 16,
    ensures
        r == hexdig(n),
{
    if n < 10 {
        48 + n
    } else {
        55 + n
    }
}

fn push_hex2(v: &mut Vec<u8>, b: u8)
    ensures
        final(v)@ == old(v)@ + hex2(b),
{
    v.push(hex_digit(b / 16));
    v.push(hex_digit(b % 16));
    proof {
        assert(v@ =~= old(v)@ + hex2(b));
    }
}

fn push_hex4(v: &mut Vec<u8>, w: u16)
    ensures
        final(v)@ == old(v)@ + hex4(w),
{
    push_hex2(v, (w / 256) as u8);
    push_hex2(v, (w % 256) as u8);
    proof {
        assert(v@ =~= old(v)@ + hex4(w));
    }
}

fn push_dec(v: &mut Vec<u8>, n: u64)
    ensures
        final(v)@ == old(v)@ + dec_n(n as nat),
    decreases n,
{
    if n < 10 {
        v.push(48 + n as u8);
    } else {
        push_dec(v, n / 10);
        v.push(48 + (n % 10) as u8);
        proof {
            assert(v@ =~= old(v)@ + dec_n(n as nat));
        }
    }
}

fn push_spaces(v: &mut Vec<u8>, n: usize)
    ensures
        final(v)@ == old(v)@ + spaces(n as nat),
{
    let mut i: usize = 0;
    while i < n
        invariant
            i <= n,
            v@ == old(v)@ + spaces(i as nat),
        decreases n - i,
    {
        v.push(32);
        proof {
            assert(v@ =~= old(v)@ + spaces(i as nat + 1));
        }
        i += 1;
    }
}

fn push_lit2(v: &mut Vec<u8>, a: u8, b: u8)
    ensures
        final(v)@ == old(v)@ + seq![a, b],
{
    v.push(a);
    v.push(b);
    proof {
        assert(v@ =~= old(v)@ + seq![a, b]);
    }
}

fn push_lit3(v: &mut Vec<u8>, a: u8, b: u8, c: u8)
    ensures
        final(v)@ == old(v)@ + seq![a, b, c],
{
    v.push(a);
    v.push(b);
    v.push(c);
    proof {
        assert(v@ =~= old(v)@ + seq![a, b, c]);
    }
}

fn push_name(v: &mut Vec<u8>, mn: Mnemonic)
    ensures
        final(v)@ == old(v)@ + mn_name(mn),
{
    let (a, b, c) = mn.name_bytes();
    push_lit3(v, a, b, c);
}

/// " PPU:  0,  0 CYC:"
fn push_ppu_cyc(v: &mut Vec<u8>)
    ensures
        final(v)@ == old(v)@ + seq![
            32u8, 80u8, 80u8, 85u8, 58u8, 32u8, 32u8, 48u8, 44u8, 32u8, 32u8, 48u8, 32u8, 67u8,
            89u8, 67u8, 58u8,
        ],
{
    v.push(32);
    v.push(80);
    v.push(80);
    v.push(85);
    v.push(58);
    v.push(32);
    v.push(32);
    v.push(48);
    v.push(44);
    v.push(32);
    v.push(32);
    v.push(48);
    v.push(32);
    v.push(67);
    v.push(89);
    v.push(67);
    v.push(58);
    proof {
        assert(v@ =~= old(v)@ + seq![
            32u8, 80u8, 80u8, 85u8, 58u8, 32u8, 32u8, 48u8, 44u8, 32u8, 32u8, 48u8, 32u8, 67u8,
            89u8, 67u8, 58u8,
        ]);
    }
}

/// Append the bytes column and remember its exact contents.
fn push_bytes_part(v: &mut Vec<u8>, t: &TraceArgs, mode: Mode)
    ensures
        final(v)@ == old(v)@ + bytes_part(*t, mode),
{
    match mode {
        Mode::A | Mode::Impl => {
            push_hex2(v, t.b0);
            push_spaces(v, 8);
            proof {
                assert(v@ =~= old(v)@ + bytes_part(*t, mode));
            }
        },
        Mode::Imm | Mode::XInd | Mode::IndY | Mode::Rel | Mode::Zpg | Mode::ZpgX | Mode::ZpgY => {
            push_hex2(v, t.b0);
            v.push(32);
            push_hex2(v, t.b1);
            push_spaces(v, 5);
            proof {
                assert(v@ =~= old(v)@ + bytes_part(*t, mode));
            }
        },
        Mode::Abs | Mode::AbsX | Mode::AbsY | Mode::Ind => {
            push_hex2(v, t.b0);
            v.push(32);
            push_hex2(v, t.b1);
            v.push(32);
            push_hex2(v, t.b2);
            push_spaces(v, 2);
            proof {
                assert(v@ =~= old(v)@ + bytes_part(*t, mode));
            }
        },
    }
}

/// Append the operand text.
fn push_operand_part(v: &mut Vec<u8>, t: &TraceArgs, mode: Mode)
    ensures
        final(v)@ == old(v)@ + operand_part(*t, mode),
{
    match mode {
        Mode::A => {
            push_lit2(v, 32, 65);
        },
        Mode::Impl => {
            proof {
                assert(v@ =~= old(v)@ + operand_part(*t, mode));
            }
        },
        Mode::Abs => {
            push_lit2(v, 32, 36);
            push_hex2(v, t.b2);
            push_hex2(v, t.b1);
            proof {
                assert(v@ =~= old(v)@ + operand_part(*t, mode));
            }
        },
        Mode::AbsX => {
            push_lit2(v, 32, 36);
            push_hex2(v, t.b2);
            push_hex2(v, t.b1);
            push_lit2(v, 44, 88);
            proof {
                assert(v@ =~= old(v)@ + operand_part(*t, mode));
            }
        },
        Mode::AbsY => {
            push_lit2(v, 32, 36);
            push_hex2(v, t.b2);
            push_hex2(v, t.b1);
            push_lit2(v, 44, 89);
            push_lit3(v, 32, 64, 32);
            push_hex4(v, t.at_y);
            proof {
                assert(v@ =~= old(v)@ + operand_part(*t, mode));
            }
        },
        Mode::Imm => {
            push_lit3(v, 32, 35, 36);
            push_hex2(v, t.b1);
            proof {
                assert(v@ =~= old(v)@ + operand_part(*t, mode));
            }
        },
        Mode::Ind => {
            push_lit3(v, 32, 40, 36);
            push_hex2(v, t.b2);
            push_hex2(v, t.b1);
            v.push(41);
            proof {
                assert(v@ =~= old(v)@ + operand_part(*t, mode));
            }
        },
        Mode::XInd => {
            push_lit3(v, 32, 40, 36);
            push_hex2(v, t.b1);
            push_lit3(v, 44, 88, 41);
            proof {
                assert(v@ =~= old(v)@ + operand_part(*t, mode));
            }
        },
        Mode::IndY => {
            push_lit3(v, 32, 40, 36);
            push_hex2(v, t.b1);
            push_lit3(v, 41, 44, 89);
            proof {
                assert(v@ =~= old(v)@ + operand_part(*t, mode));
            }
        },
        Mode::Rel => {
            push_lit3(v, 32, 36, 40);
            push_hex4(v, t.rel_target);
            v.push(41);
            proof {
                assert(v@ =~= old(v)@ + operand_part(*t, mode));
            }
        },
        Mode::Zpg => {
            push_lit2(v, 32, 36);
            push_hex2(v, t.b1);
            push_lit3(v, 32, 61, 32);
            push_hex2(v, t.zp_val);
            proof {
                assert(v@ =~= old(v)@ + operand_part(*t, mode));
            }
        },
        Mode::ZpgX => {
            push_lit2(v, 32, 36);
            push_hex2(v, t.b1);
            push_lit2(v, 44, 88);
            proof {
                assert(v@ =~= old(v)@ + operand_part(*t, mode));
            }
        },
        Mode::ZpgY => {
            push_lit2(v, 32, 36);
            push_hex2(v, t.b1);
            push_lit2(v, 44, 89);
            proof {
                assert(v@ =~= old(v)@ + operand_part(*t, mode));
            }
        },
    }
}

/// Append one whole trace line to the log.
#[verifier::rlimit(60)]
#[verifier::spinoff_prover]
pub fn append_trace_line(log: &mut Vec<u8>, t: &TraceArgs, info: OpInfo)
    ensures
        final(log)@ == old(log)@ + trace_line(*t, info),
{
    push_hex4(log, t.pc);
    push_spaces(log, 2);
    let ghost l1 = log@;
    assert(l1 == old(log)@ + hex4(t.pc) + spaces(2));

    // the 42-column field
    let start = log.len();
    push_bytes_part(log, t, info.mode);
    push_name(log, info.mn);
    push_operand_part(log, t, info.mode);
    let ghost body = bytes_part(*t, info.mode) + mn_name(info.mn) + operand_part(*t, info.mode);
    assert(log@ == l1 + body);
    assert(body.len() == log@.len() - start);
    let len = log.len();
    let pad: usize = if len - start >= 42 {
        0
    } else {
        42 - (len - start)
    };
    push_spaces(log, pad);
    proof {
        if body.len() <= 42 {
            assert(log@ =~= l1 + (body + spaces((42 - body.len()) as nat)));
        } else {
            assert(spaces(0) =~= Seq::<u8>::empty());
            assert(log@ =~= l1 + body);
        }
        assert(log@ == l1 + field42(*t, info));
    }
    let ghost l2 = log@;
    assert(l2 == old(log)@ + hex4(t.pc) + spaces(2) + field42(*t, info));

    // register block
    push_lit2(log, 65, 58);
    push_hex2(log, t.a);
    push_lit3(log, 32, 88, 58);
    push_hex2(log, t.x);
    push_lit3(log, 32, 89, 58);
    push_hex2(log, t.y);
    push_lit3(log, 32, 80, 58);
    push_hex2(log, t.p);
    push_lit2(log, 32, 83);
    push_lit2(log, 80, 58);
    push_hex2(log, t.sp);
    push_ppu_cyc(log);
    push_dec(log, t.cyc);
    log.push(10);
    proof {
        assert(log@ =~= l2 + reg_tail(*t));
        assert(log@ =~= old(log)@ + trace_line(*t, info));
    }
}

/// Upper-case hexadecimal digit as a character (meaningful for `n < 16`).
pub open spec fn hexch(n: u8) -> char {
    if n < 10 {
        (48 + n) as char
    } else {
        (55 + n) as char
    }
}

/// The text a fatal decode reports: the opcode byte in `0x..` form.
pub open spec fn err_text(op: u8) -> Seq<char> {
    seq!['0', 'x', hexch((op / 16) as u8), hexch((op % 16) as u8)]
}

fn hex_digit_str(n: u8) -> (r: &'static str)
    requires
        n < 16,
    ensures
        r@ == seq![hexch(n)],
{
    proof {
        reveal_strlit("0");
        reveal_strlit("1");
        reveal_strlit("2");
        reveal_strlit("3");
        reveal_strlit("4");
        reveal_strlit("5");
        reveal_strlit("6");
        reveal_strlit("7");
        reveal_strlit("8");
        reveal_strlit("9");
        reveal_strlit("A");
        reveal_strlit("B");
        reveal_strlit("C");
        reveal_strlit("D");
        reveal_strlit("E");
        reveal_strlit("F");
    }
    if n == 0 {
        "0"
    } else if n == 1 {
        "1"
    } else if n == 2 {
        "2"
    } else if n == 3 {
        "3"
    } else if n == 4 {
        "4"
    } else if n == 5 {
        "5"
    } else if n == 6 {
        "6"
    } else if n == 7 {
        "7"
    } else if n == 8 {
        "8"
    } else if n == 9 {
        "9"
    } else if n == 10 {
        "A"
    } else if n == 11 {
        "B"
    } else if n == 12 {
        "C"
    } else if n == 13 {
        "D"
    } else if n == 14 {
        "E"
    } else {
        "F"
    }
}

/// The opcode byte in `0x..` form, as the error a fatal decode carries.
pub fn hex_byte_text(op: u8) -> (r: String)
    ensures
        r@ == err_text(op),
{
    let mut s = String::new();
    proof {
        reveal_strlit("0x");
    }
    s.append("0x");
    s.append(hex_digit_str(op / 16));
    s.append(hex_digit_str(op % 16));
    proof {
        assert(s@ =~= err_text(op));
    }
    s
}

} // verus!
