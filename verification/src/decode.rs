//! The 256-entry opcode table: every opcode byte decodes to a mnemonic and
//! an addressing mode, and is marked official or not.  Executing any
//! unofficial opcode is a fatal decode error; the table still names it.

use vstd::prelude::*;

verus! {

#[derive(Clone, Copy, PartialEq, Eq, Structural, Debug)]
pub enum Mode {
    A,
    Abs,
    AbsX,
    AbsY,
    Imm,
    Impl,
    Ind,
    XInd,
    IndY,
    Rel,
    Zpg,
    ZpgX,
    ZpgY,
}

#[derive(Clone, Copy, PartialEq, Eq, Structural, Debug)]
pub enum Mnemonic {
    Adc,
    Alr,
    Anc,
    And,
    Ane,
    Arr,
    Asl,
    Bcc,
    Bcs,
    Beq,
    Bit,
    Bmi,
    Bne,
    Bpl,
    Brk,
    Bvc,
    Bvs,
    Clc,
    Cld,
    Cli,
    Clv,
    Cmp,
    Cpx,
    Cpy,
    Dcp,
    Dec,
    Dex,
    Dey,
    Eor,
    Inc,
    Inx,
    Iny,
    Isc,
    Jam,
    Jmp,
    Jsr,
    Las,
    Lax,
    Lda,
    Ldx,
    Ldy,
    Lsr,
    Lxa,
    Nop,
    Ora,
    Pha,
    Php,
    Pla,
    Plp,
    Rla,
    Rol,
    Ror,
    Rra,
    Rti,
    Rts,
    Sax,
    Sbc,
    Sbx,
    Sec,
    Sed,
    Sei,
    Sha,
    Shx,
    Shy,
    Slo,
    Sre,
    Sta,
    Stx,
    Sty,
    Tas,
    Tax,
    Tay,
    Tsx,
    Txa,
    Txs,
    Tya,
    Usbc,
}

#[derive(Clone, Copy, PartialEq, Eq, Structural, Debug)]
pub struct OpInfo {
    pub mn: Mnemonic,
    pub mode: Mode,
    pub official: bool,
}

/// Modes that can produce an operand byte for the read path.
pub open spec fn is_read_mode(mode: Mode) -> bool {
    match mode {
        Mode::Imm | Mode::Zpg | Mode::ZpgX | Mode::ZpgY | Mode::Abs | Mode::AbsX | Mode::AbsY
            | Mode::XInd | Mode::IndY => true,
        _ => false,
    }
}

/// Modes that can name a store target.
pub open spec fn is_store_mode(mode: Mode) -> bool {
    match mode {
        Mode::Zpg | Mode::ZpgX | Mode::ZpgY | Mode::Abs | Mode::AbsX | Mode::AbsY | Mode::XInd
            | Mode::IndY => true,
        _ => false,
    }
}

/// Modes a read-modify-write instruction can use, the accumulator included.
pub open spec fn is_rmw_mode(mode: Mode) -> bool {
    match mode {
        Mode::A | Mode::Zpg | Mode::ZpgX | Mode::Abs | Mode::AbsX => true,
        _ => false,
    }
}

/// Every official table entry pairs its mnemonic with a mode its executor
/// accepts.
pub open spec fn ok_pair(info: OpInfo) -> bool {
    info.official ==> match info.mn {
        Mnemonic::Adc | Mnemonic::And | Mnemonic::Bit | Mnemonic::Cmp | Mnemonic::Cpx
            | Mnemonic::Cpy | Mnemonic::Eor | Mnemonic::Lda | Mnemonic::Ldx | Mnemonic::Ldy
            | Mnemonic::Ora | Mnemonic::Sbc => is_read_mode(info.mode),
        Mnemonic::Asl | Mnemonic::Lsr | Mnemonic::Rol | Mnemonic::Ror => is_rmw_mode(info.mode),
        Mnemonic::Inc | Mnemonic::Dec => is_rmw_mode(info.mode) && info.mode != Mode::A,
        Mnemonic::Sta | Mnemonic::Stx | Mnemonic::Sty => is_store_mode(info.mode),
        Mnemonic::Bcc | Mnemonic::Bcs | Mnemonic::Beq | Mnemonic::Bmi | Mnemonic::Bne
            | Mnemonic::Bpl | Mnemonic::Bvc | Mnemonic::Bvs => info.mode == Mode::Rel,
        Mnemonic::Jmp => info.mode == Mode::Abs || info.mode == Mode::Ind,
        Mnemonic::Jsr => info.mode == Mode::Abs,
        _ => info.mode == Mode::Impl,
    }
}

/// What each opcode byte decodes to.
pub open spec fn spec_decode(op: u8) -> OpInfo {
    match op {
        0x00 => OpInfo { mn: Mnemonic::Brk, mode: Mode::Impl, official: true },
        0x01 => OpInfo { mn: Mnemonic::Ora, mode: Mode::XInd, official: true },
        0x02 => OpInfo { mn: Mnemonic::Jam, mode: Mode::Impl, official: false },
        0x03 => OpInfo { mn: Mnemonic::Slo, mode: Mode::XInd, official: false },
        0x04 => OpInfo { mn: Mnemonic::Nop, mode: Mode::Zpg, official: false },
        0x05 => OpInfo { mn: Mnemonic::Ora, mode: Mode::Zpg, official: true },
        0x06 => OpInfo { mn: Mnemonic::Asl, mode: Mode::Zpg, official: true },
        0x07 => OpInfo { mn: Mnemonic::Slo, mode: Mode::Zpg, official: false },
        0x08 => OpInfo { mn: Mnemonic::Php, mode: Mode::Impl, official: true },
        0x09 => OpInfo { mn: Mnemonic::Ora, mode: Mode::Imm, official: true },
        0x0a => OpInfo { mn: Mnemonic::Asl, mode: Mode::A, official: true },
        0x0b => OpInfo { mn: Mnemonic::Anc, mode: Mode::Imm, official: false },
        0x0c => OpInfo { mn: Mnemonic::Nop, mode: Mode::Abs, official: false },
        0x0d => OpInfo { mn: Mnemonic::Ora, mode: Mode::Abs, official: true },
        0x0e => OpInfo { mn: Mnemonic::Asl, mode: Mode::Abs, official: true },
        0x0f => OpInfo { mn: Mnemonic::Slo, mode: Mode::Abs, official: false },
        0x10 => OpInfo { mn: Mnemonic::Bpl, mode: Mode::Rel, official: true },
        0x11 => OpInfo { mn: Mnemonic::Ora, mode: Mode::IndY, official: true },
        0x12 => OpInfo { mn: Mnemonic::Jam, mode: Mode::Impl, official: false },
        0x13 => OpInfo { mn: Mnemonic::Slo, mode: Mode::IndY, official: false },
        0x14 => OpInfo { mn: Mnemonic::Nop, mode: Mode::ZpgX, official: false },
        0x15 => OpInfo { mn: Mnemonic::Ora, mode: Mode::ZpgX, official: true },
        0x16 => OpInfo { mn: Mnemonic::Asl, mode: Mode::ZpgX, official: true },
        0x17 => OpInfo { mn: Mnemonic::Slo, mode: Mode::ZpgX, official: false },
        0x18 => OpInfo { mn: Mnemonic::Clc, mode: Mode::Impl, official: true },
        0x19 => OpInfo { mn: Mnemonic::Ora, mode: Mode::AbsY, official: true },
        0x1a => OpInfo { mn: Mnemonic::Nop, mode: Mode::Impl, official: false },
        0x1b => OpInfo { mn: Mnemonic::Slo, mode: Mode::AbsY, official: false },
        0x1c => OpInfo { mn: Mnemonic::Nop, mode: Mode::AbsX, official: false },
        0x1d => OpInfo { mn: Mnemonic::Ora, mode: Mode::AbsX, official: true },
        0x1e => OpInfo { mn: Mnemonic::Asl, mode: Mode::AbsX, official: true },
        0x1f => OpInfo { mn: Mnemonic::Slo, mode: Mode::AbsX, official: false },
        0x20 => OpInfo { mn: Mnemonic::Jsr, mode: Mode::Abs, official: true },
        0x21 => OpInfo { mn: Mnemonic::And, mode: Mode::XInd, official: true },
        0x22 => OpInfo { mn: Mnemonic::Jam, mode: Mode::Impl, official: false },
        0x23 => OpInfo { mn: Mnemonic::Rla, mode: Mode::XInd, official: false },
        0x24 => OpInfo { mn: Mnemonic::Bit, mode: Mode::Zpg, official: true },
        0x25 => OpInfo { mn: Mnemonic::And, mode: Mode::Zpg, official: true },
        0x26 => OpInfo { mn: Mnemonic::Rol, mode: Mode::Zpg, official: true },
        0x27 => OpInfo { mn: Mnemonic::Rla, mode: Mode::Zpg, official: false },
        0x28 => OpInfo { mn: Mnemonic::Plp, mode: Mode::Impl, official: true },
        0x29 => OpInfo { mn: Mnemonic::And, mode: Mode::Imm, official: true },
        0x2a => OpInfo { mn: Mnemonic::Rol, mode: Mode::A, official: true },
        0x2b => OpInfo { mn: Mnemonic::Anc, mode: Mode::Imm, official: false },
        0x2c => OpInfo { mn: Mnemonic::Bit, mode: Mode::Abs, official: true },
        0x2d => OpInfo { mn: Mnemonic::And, mode: Mode::Abs, official: true },
        0x2e => OpInfo { mn: Mnemonic::Rol, mode: Mode::Abs, official: true },
        0x2f => OpInfo { mn: Mnemonic::Rla, mode: Mode::Abs, official: false },
        0x30 => OpInfo { mn: Mnemonic::Bmi, mode: Mode::Rel, official: true },
        0x31 => OpInfo { mn: Mnemonic::And, mode: Mode::IndY, official: true },
        0x32 => OpInfo { mn: Mnemonic::Jam, mode: Mode::Impl, official: false },
        0x33 => OpInfo { mn: Mnemonic::Rla, mode: Mode::IndY, official: false },
        0x34 => OpInfo { mn: Mnemonic::Nop, mode: Mode::ZpgX, official: false },
        0x35 => OpInfo { mn: Mnemonic::And, mode: Mode::ZpgX, official: true },
        0x36 => OpInfo { mn: Mnemonic::Rol, mode: Mode::ZpgX, official: true },
        0x37 => OpInfo { mn: Mnemonic::Rla, mode: Mode::ZpgX, official: false },
        0x38 => OpInfo { mn: Mnemonic::Sec, mode: Mode::Impl, official: true },
        0x39 => OpInfo { mn: Mnemonic::And, mode: Mode::AbsY, official: true },
        0x3a => OpInfo { mn: Mnemonic::Nop, mode: Mode::Impl, official: false },
        0x3b => OpInfo { mn: Mnemonic::Rla, mode: Mode::AbsY, official: false },
        0x3c => OpInfo { mn: Mnemonic::Nop, mode: Mode::AbsX, official: false },
        0x3d => OpInfo { mn: Mnemonic::And, mode: Mode::AbsX, official: true },
        0x3e => OpInfo { mn: Mnemonic::Rol, mode: Mode::AbsX, official: true },
        0x3f => OpInfo { mn: Mnemonic::Rla, mode: Mode::AbsX, official: false },
        0x40 => OpInfo { mn: Mnemonic::Rti, mode: Mode::Impl, official: true },
        0x41 => OpInfo { mn: Mnemonic::Eor, mode: Mode::XInd, official: true },
        0x42 => OpInfo { mn: Mnemonic::Jam, mode: Mode::Impl, official: false },
        0x43 => OpInfo { mn: Mnemonic::Sre, mode: Mode::XInd, official: false },
        0x44 => OpInfo { mn: Mnemonic::Nop, mode: Mode::Zpg, official: false },
        0x45 => OpInfo { mn: Mnemonic::Eor, mode: Mode::Zpg, official: true },
        0x46 => OpInfo { mn: Mnemonic::Lsr, mode: Mode::Zpg, official: true },
        0x47 => OpInfo { mn: Mnemonic::Sre, mode: Mode::Zpg, official: false },
        0x48 => OpInfo { mn: Mnemonic::Pha, mode: Mode::Impl, official: true },
        0x49 => OpInfo { mn: Mnemonic::Eor, mode: Mode::Imm, official: true },
        0x4a => OpInfo { mn: Mnemonic::Lsr, mode: Mode::A, official: true },
        0x4b => OpInfo { mn: Mnemonic::Alr, mode: Mode::Imm, official: false },
        0x4c => OpInfo { mn: Mnemonic::Jmp, mode: Mode::Abs, official: true },
        0x4d => OpInfo { mn: Mnemonic::Eor, mode: Mode::Abs, official: true },
        0x4e => OpInfo { mn: Mnemonic::Lsr, mode: Mode::Abs, official: true },
        0x4f => OpInfo { mn: Mnemonic::Sre, mode: Mode::Abs, official: false },
        0x50 => OpInfo { mn: Mnemonic::Bvc, mode: Mode::Rel, official: true },
        0x51 => OpInfo { mn: Mnemonic::Eor, mode: Mode::IndY, official: true },
        0x52 => OpInfo { mn: Mnemonic::Jam, mode: Mode::Impl, official: false },
        0x53 => OpInfo { mn: Mnemonic::Sre, mode: Mode::IndY, official: false },
        0x54 => OpInfo { mn: Mnemonic::Nop, mode: Mode::ZpgX, official: false },
        0x55 => OpInfo { mn: Mnemonic::Eor, mode: Mode::ZpgX, official: true },
        0x56 => OpInfo { mn: Mnemonic::Lsr, mode: Mode::ZpgX, official: true },
        0x57 => OpInfo { mn: Mnemonic::Sre, mode: Mode::ZpgX, official: false },
        0x58 => OpInfo { mn: Mnemonic::Cli, mode: Mode::Impl, official: true },
        0x59 => OpInfo { mn: Mnemonic::Eor, mode: Mode::AbsY, official: true },
        0x5a => OpInfo { mn: Mnemonic::Nop, mode: Mode::Impl, official: false },
        0x5b => OpInfo { mn: Mnemonic::Sre, mode: Mode::AbsY, official: false },
        0x5c => OpInfo { mn: Mnemonic::Nop, mode: Mode::AbsX, official: false },
        0x5d => OpInfo { mn: Mnemonic::Eor, mode: Mode::AbsX, official: true },
        0x5e => OpInfo { mn: Mnemonic::Lsr, mode: Mode::AbsX, official: true },
        0x5f => OpInfo { mn: Mnemonic::Sre, mode: Mode::AbsX, official: false },
        0x60 => OpInfo { mn: Mnemonic::Rts, mode: Mode::Impl, official: true },
        0x61 => OpInfo { mn: Mnemonic::Adc, mode: Mode::XInd, official: true },
        0x62 => OpInfo { mn: Mnemonic::Jam, mode: Mode::Impl, official: false },
        0x63 => OpInfo { mn: Mnemonic::Rra, mode: Mode::XInd, official: false },
        0x64 => OpInfo { mn: Mnemonic::Nop, mode: Mode::Zpg, official: false },
        0x65 => OpInfo { mn: Mnemonic::Adc, mode: Mode::Zpg, official: true },
        0x66 => OpInfo { mn: Mnemonic::Ror, mode: Mode::Zpg, official: true },
        0x67 => OpInfo { mn: Mnemonic::Rra, mode: Mode::Zpg, official: false },
        0x68 => OpInfo { mn: Mnemonic::Pla, mode: Mode::Impl, official: true },
        0x69 => OpInfo { mn: Mnemonic::Adc, mode: Mode::Imm, official: true },
        0x6a => OpInfo { mn: Mnemonic::Ror, mode: Mode::A, official: true },
        0x6b => OpInfo { mn: Mnemonic::Arr, mode: Mode::Imm, official: false },
        0x6c => OpInfo { mn: Mnemonic::Jmp, mode: Mode::Ind, official: true },
        0x6d => OpInfo { mn: Mnemonic::Adc, mode: Mode::Abs, official: true },
        0x6e => OpInfo { mn: Mnemonic::Ror, mode: Mode::Abs, official: true },
        0x6f => OpInfo { mn: Mnemonic::Rra, mode: Mode::Abs, official: false },
        0x70 => OpInfo { mn: Mnemonic::Bvs, mode: Mode::Rel, official: true },
        0x71 => OpInfo { mn: Mnemonic::Adc, mode: Mode::IndY, official: true },
        0x72 => OpInfo { mn: Mnemonic::Jam, mode: Mode::Impl, official: false },
        0x73 => OpInfo { mn: Mnemonic::Rra, mode: Mode::IndY, official: false },
        0x74 => OpInfo { mn: Mnemonic::Nop, mode: Mode::ZpgX, official: false },
        0x75 => OpInfo { mn: Mnemonic::Adc, mode: Mode::ZpgX, official: true },
        0x76 => OpInfo { mn: Mnemonic::Ror, mode: Mode::ZpgX, official: true },
        0x77 => OpInfo { mn: Mnemonic::Rra, mode: Mode::ZpgX, official: false },
        0x78 => OpInfo { mn: Mnemonic::Sei, mode: Mode::Impl, official: true },
        0x79 => OpInfo { mn: Mnemonic::Adc, mode: Mode::AbsY, official: true },
        0x7a => OpInfo { mn: Mnemonic::Nop, mode: Mode::Impl, official: false },
        0x7b => OpInfo { mn: Mnemonic::Rra, mode: Mode::AbsY, official: false },
        0x7c => OpInfo { mn: Mnemonic::Nop, mode: Mode::AbsX, official: false },
        0x7d => OpInfo { mn: Mnemonic::Adc, mode: Mode::AbsX, official: true },
        0x7e => OpInfo { mn: Mnemonic::Ror, mode: Mode::AbsX, official: true },
        0x7f => OpInfo { mn: Mnemonic::Rra, mode: Mode::AbsX, official: false },
        0x80 => OpInfo { mn: Mnemonic::Nop, mode: Mode::Imm, official: false },
        0x81 => OpInfo { mn: Mnemonic::Sta, mode: Mode::XInd, official: true },
        0x82 => OpInfo { mn: Mnemonic::Nop, mode: Mode::Imm, official: false },
        0x83 => OpInfo { mn: Mnemonic::Sax, mode: Mode::XInd, official: false },
        0x84 => OpInfo { mn: Mnemonic::Sty, mode: Mode::Zpg, official: true },
        0x85 => OpInfo { mn: Mnemonic::Sta, mode: Mode::Zpg, official: true },
        0x86 => OpInfo { mn: Mnemonic::Stx, mode: Mode::Zpg, official: true },
        0x87 => OpInfo { mn: Mnemonic::Sax, mode: Mode::Zpg, official: false },
        0x88 => OpInfo { mn: Mnemonic::Dey, mode: Mode::Impl, official: true },
        0x89 => OpInfo { mn: Mnemonic::Nop, mode: Mode::Imm, official: false },
        0x8a => OpInfo { mn: Mnemonic::Txa, mode: Mode::Impl, official: true },
        0x8b => OpInfo { mn: Mnemonic::Ane, mode: Mode::Imm, official: false },
        0x8c => OpInfo { mn: Mnemonic::Sty, mode: Mode::Abs, official: true },
        0x8d => OpInfo { mn: Mnemonic::Sta, mode: Mode::Abs, official: true },
        0x8e => OpInfo { mn: Mnemonic::Stx, mode: Mode::Abs, official: true },
        0x8f => OpInfo { mn: Mnemonic::Sax, mode: Mode::Abs, official: false },
        0x90 => OpInfo { mn: Mnemonic::Bcc, mode: Mode::Rel, official: true },
        0x91 => OpInfo { mn: Mnemonic::Sta, mode: Mode::IndY, official: true },
        0x92 => OpInfo { mn: Mnemonic::Jam, mode: Mode::Impl, official: false },
        0x93 => OpInfo { mn: Mnemonic::Sha, mode: Mode::IndY, official: false },
        0x94 => OpInfo { mn: Mnemonic::Sty, mode: Mode::ZpgX, official: true },
        0x95 => OpInfo { mn: Mnemonic::Sta, mode: Mode::ZpgX, official: true },
        0x96 => OpInfo { mn: Mnemonic::Stx, mode: Mode::ZpgY, official: true },
        0x97 => OpInfo { mn: Mnemonic::Sax, mode: Mode::ZpgY, official: false },
        0x98 => OpInfo { mn: Mnemonic::Tya, mode: Mode::Impl, official: true },
        0x99 => OpInfo { mn: Mnemonic::Sta, mode: Mode::AbsY, official: true },
        0x9a => OpInfo { mn: Mnemonic::Txs, mode: Mode::Impl, official: true },
        0x9b => OpInfo { mn: Mnemonic::Tas, mode: Mode::AbsY, official: false },
        0x9c => OpInfo { mn: Mnemonic::Shy, mode: Mode::AbsX, official: false },
        0x9d => OpInfo { mn: Mnemonic::Sta, mode: Mode::AbsX, official: true },
        0x9e => OpInfo { mn: Mnemonic::Shx, mode: Mode::AbsY, official: false },
        0x9f => OpInfo { mn: Mnemonic::Sha, mode: Mode::AbsY, official: false },
        0xa0 => OpInfo { mn: Mnemonic::Ldy, mode: Mode::Imm, official: true },
        0xa1 => OpInfo { mn: Mnemonic::Lda, mode: Mode::XInd, official: true },
        0xa2 => OpInfo { mn: Mnemonic::Ldx, mode: Mode::Imm, official: true },
        0xa3 => OpInfo { mn: Mnemonic::Lax, mode: Mode::XInd, official: false },
        0xa4 => OpInfo { mn: Mnemonic::Ldy, mode: Mode::Zpg, official: true },
        0xa5 => OpInfo { mn: Mnemonic::Lda, mode: Mode::Zpg, official: true },
        0xa6 => OpInfo { mn: Mnemonic::Ldx, mode: Mode::Zpg, official: true },
        0xa7 => OpInfo { mn: Mnemonic::Lax, mode: Mode::Zpg, official: false },
        0xa8 => OpInfo { mn: Mnemonic::Tay, mode: Mode::Impl, official: true },
        0xa9 => OpInfo { mn: Mnemonic::Lda, mode: Mode::Imm, official: true },
        0xaa => OpInfo { mn: Mnemonic::Tax, mode: Mode::Impl, official: true },
        0xab => OpInfo { mn: Mnemonic::Lxa, mode: Mode::Imm, official: false },
        0xac => OpInfo { mn: Mnemonic::Ldy, mode: Mode::Abs, official: true },
        0xad => OpInfo { mn: Mnemonic::Lda, mode: Mode::Abs, official: true },
        0xae => OpInfo { mn: Mnemonic::Ldx, mode: Mode::Abs, official: true },
        0xaf => OpInfo { mn: Mnemonic::Lax, mode: Mode::Abs, official: false },
        0xb0 => OpInfo { mn: Mnemonic::Bcs, mode: Mode::Rel, official: true },
        0xb1 => OpInfo { mn: Mnemonic::Lda, mode: Mode::IndY, official: true },
        0xb2 => OpInfo { mn: Mnemonic::Jam, mode: Mode::Impl, official: false },
        0xb3 => OpInfo { mn: Mnemonic::Lax, mode: Mode::IndY, official: false },
        0xb4 => OpInfo { mn: Mnemonic::Ldy, mode: Mode::ZpgX, official: true },
        0xb5 => OpInfo { mn: Mnemonic::Lda, mode: Mode::ZpgX, official: true },
        0xb6 => OpInfo { mn: Mnemonic::Ldx, mode: Mode::ZpgY, official: true },
        0xb7 => OpInfo { mn: Mnemonic::Lax, mode: Mode::ZpgY, official: false },
        0xb8 => OpInfo { mn: Mnemonic::Clv, mode: Mode::Impl, official: true },
        0xb9 => OpInfo { mn: Mnemonic::Lda, mode: Mode::AbsY, official: true },
        0xba => OpInfo { mn: Mnemonic::Tsx, mode: Mode::Impl, official: true },
        0xbb => OpInfo { mn: Mnemonic::Las, mode: Mode::AbsY, official: false },
        0xbc => OpInfo { mn: Mnemonic::Ldy, mode: Mode::AbsX, official: true },
        0xbd => OpInfo { mn: Mnemonic::Lda, mode: Mode::AbsX, official: true },
        0xbe => OpInfo { mn: Mnemonic::Ldx, mode: Mode::AbsY, official: true },
        0xbf => OpInfo { mn: Mnemonic::Lax, mode: Mode::AbsY, official: false },
        0xc0 => OpInfo { mn: Mnemonic::Cpy, mode: Mode::Imm, official: true },
        0xc1 => OpInfo { mn: Mnemonic::Cmp, mode: Mode::XInd, official: true },
        0xc2 => OpInfo { mn: Mnemonic::Nop, mode: Mode::Imm, official: false },
        0xc3 => OpInfo { mn: Mnemonic::Dcp, mode: Mode::XInd, official: false },
        0xc4 => OpInfo { mn: Mnemonic::Cpy, mode: Mode::Zpg, official: true },
        0xc5 => OpInfo { mn: Mnemonic::Cmp, mode: Mode::Zpg, official: true },
        0xc6 => OpInfo { mn: Mnemonic::Dec, mode: Mode::Zpg, official: true },
        0xc7 => OpInfo { mn: Mnemonic::Dcp, mode: Mode::Zpg, official: false },
        0xc8 => OpInfo { mn: Mnemonic::Iny, mode: Mode::Impl, official: true },
        0xc9 => OpInfo { mn: Mnemonic::Cmp, mode: Mode::Imm, official: true },
        0xca => OpInfo { mn: Mnemonic::Dex, mode: Mode::Impl, official: true },
        0xcb => OpInfo { mn: Mnemonic::Sbx, mode: Mode::Imm, official: false },
        0xcc => OpInfo { mn: Mnemonic::Cpy, mode: Mode::Abs, official: true },
        0xcd => OpInfo { mn: Mnemonic::Cmp, mode: Mode::Abs, official: true },
        0xce => OpInfo { mn: Mnemonic::Dec, mode: Mode::Abs, official: true },
        0xcf => OpInfo { mn: Mnemonic::Dcp, mode: Mode::Abs, official: false },
        0xd0 => OpInfo { mn: Mnemonic::Bne, mode: Mode::Rel, official: true },
        0xd1 => OpInfo { mn: Mnemonic::Cmp, mode: Mode::IndY, official: true },
        0xd2 => OpInfo { mn: Mnemonic::Jam, mode: Mode::Impl, official: false },
        0xd3 => OpInfo { mn: Mnemonic::Dcp, mode: Mode::IndY, official: false },
        0xd4 => OpInfo { mn: Mnemonic::Nop, mode: Mode::ZpgX, official: false },
        0xd5 => OpInfo { mn: Mnemonic::Cmp, mode: Mode::ZpgX, official: true },
        0xd6 => OpInfo { mn: Mnemonic::Dec, mode: Mode::ZpgX, official: true },
        0xd7 => OpInfo { mn: Mnemonic::Dcp, mode: Mode::ZpgX, official: false },
        0xd8 => OpInfo { mn: Mnemonic::Cld, mode: Mode::Impl, official: true },
        0xd9 => OpInfo { mn: Mnemonic::Cmp, mode: Mode::AbsY, official: true },
        0xda => OpInfo { mn: Mnemonic::Nop, mode: Mode::Impl, official: false },
        0xdb => OpInfo { mn: Mnemonic::Dcp, mode: Mode::AbsY, official: false },
        0xdc => OpInfo { mn: Mnemonic::Nop, mode: Mode::AbsX, official: false },
        0xdd => OpInfo { mn: Mnemonic::Cmp, mode: Mode::AbsX, official: true },
        0xde => OpInfo { mn: Mnemonic::Dec, mode: Mode::AbsX, official: true },
        0xdf => OpInfo { mn: Mnemonic::Dcp, mode: Mode::AbsX, official: false },
        0xe0 => OpInfo { mn: Mnemonic::Cpx, mode: Mode::Imm, official: true },
        0xe1 => OpInfo { mn: Mnemonic::Sbc, mode: Mode::XInd, official: true },
        0xe2 => OpInfo { mn: Mnemonic::Nop, mode: Mode::Imm, official: false },
        0xe3 => OpInfo { mn: Mnemonic::Isc, mode: Mode::XInd, official: false },
        0xe4 => OpInfo { mn: Mnemonic::Cpx, mode: Mode::Zpg, official: true },
        0xe5 => OpInfo { mn: Mnemonic::Sbc, mode: Mode::Zpg, official: true },
        0xe6 => OpInfo { mn: Mnemonic::Inc, mode: Mode::Zpg, official: true },
        0xe7 => OpInfo { mn: Mnemonic::Isc, mode: Mode::Zpg, official: false },
        0xe8 => OpInfo { mn: Mnemonic::Inx, mode: Mode::Impl, official: true },
        0xe9 => OpInfo { mn: Mnemonic::Sbc, mode: Mode::Imm, official: true },
        0xea => OpInfo { mn: Mnemonic::Nop, mode: Mode::Impl, official: true },
        0xeb => OpInfo { mn: Mnemonic::Usbc, mode: Mode::Imm, official: false },
        0xec => OpInfo { mn: Mnemonic::Cpx, mode: Mode::Abs, official: true },
        0xed => OpInfo { mn: Mnemonic::Sbc, mode: Mode::Abs, official: true },
        0xee => OpInfo { mn: Mnemonic::Inc, mode: Mode::Abs, official: true },
        0xef => OpInfo { mn: Mnemonic::Isc, mode: Mode::Abs, official: false },
        0xf0 => OpInfo { mn: Mnemonic::Beq, mode: Mode::Rel, official: true },
        0xf1 => OpInfo { mn: Mnemonic::Sbc, mode: Mode::IndY, official: true },
        0xf2 => OpInfo { mn: Mnemonic::Jam, mode: Mode::Impl, official: false },
        0xf3 => OpInfo { mn: Mnemonic::Isc, mode: Mode::IndY, official: false },
        0xf4 => OpInfo { mn: Mnemonic::Nop, mode: Mode::ZpgX, official: false },
        0xf5 => OpInfo { mn: Mnemonic::Sbc, mode: Mode::ZpgX, official: true },
        0xf6 => OpInfo { mn: Mnemonic::Inc, mode: Mode::ZpgX, official: true },
        0xf7 => OpInfo { mn: Mnemonic::Isc, mode: Mode::ZpgX, official: false },
        0xf8 => OpInfo { mn: Mnemonic::Sed, mode: Mode::Impl, official: true },
        0xf9 => OpInfo { mn: Mnemonic::Sbc, mode: Mode::AbsY, official: true },
        0xfa => OpInfo { mn: Mnemonic::Nop, mode: Mode::Impl, official: false },
        0xfb => OpInfo { mn: Mnemonic::Isc, mode: Mode::AbsY, official: false },
        0xfc => OpInfo { mn: Mnemonic::Nop, mode: Mode::AbsX, official: false },
        0xfd => OpInfo { mn: Mnemonic::Sbc, mode: Mode::AbsX, official: true },
        0xfe => OpInfo { mn: Mnemonic::Inc, mode: Mode::AbsX, official: true },
        _ => OpInfo { mn: Mnemonic::Isc, mode: Mode::AbsX, official: false },    }
}

impl OpInfo {
    /// Decode one opcode byte.
    pub fn decode(op: u8) -> (r: OpInfo)
        ensures
            r == spec_decode(op),
            ok_pair(r),
    {
        match op {
            0x00 => OpInfo { mn: Mnemonic::Brk, mode: Mode::Impl, official: true },
            0x01 => OpInfo { mn: Mnemonic::Ora, mode: Mode::XInd, official: true },
            0x02 => OpInfo { mn: Mnemonic::Jam, mode: Mode::Impl, official: false },
            0x03 => OpInfo { mn: Mnemonic::Slo, mode: Mode::XInd, official: false },
            0x04 => OpInfo { mn: Mnemonic::Nop, mode: Mode::Zpg, official: false },
            0x05 => OpInfo { mn: Mnemonic::Ora, mode: Mode::Zpg, official: true },
            0x06 => OpInfo { mn: Mnemonic::Asl, mode: Mode::Zpg, official: true },
            0x07 => OpInfo { mn: Mnemonic::Slo, mode: Mode::Zpg, official: false },
            0x08 => OpInfo { mn: Mnemonic::Php, mode: Mode::Impl, official: true },
            0x09 => OpInfo { mn: Mnemonic::Ora, mode: Mode::Imm, official: true },
            0x0a => OpInfo { mn: Mnemonic::Asl, mode: Mode::A, official: true },
            0x0b => OpInfo { mn: Mnemonic::Anc, mode: Mode::Imm, official: false },
            0x0c => OpInfo { mn: Mnemonic::Nop, mode: Mode::Abs, official: false },
            0x0d => OpInfo { mn: Mnemonic::Ora, mode: Mode::Abs, official: true },
            0x0e => OpInfo { mn: Mnemonic::Asl, mode: Mode::Abs, official: true },
            0x0f => OpInfo { mn: Mnemonic::Slo, mode: Mode::Abs, official: false },
            0x10 => OpInfo { mn: Mnemonic::Bpl, mode: Mode::Rel, official: true },
            0x11 => OpInfo { mn: Mnemonic::Ora, mode: Mode::IndY, official: true },
            0x12 => OpInfo { mn: Mnemonic::Jam, mode: Mode::Impl, official: false },
            0x13 => OpInfo { mn: Mnemonic::Slo, mode: Mode::IndY, official: false },
            0x14 => OpInfo { mn: Mnemonic::Nop, mode: Mode::ZpgX, official: false },
            0x15 => OpInfo { mn: Mnemonic::Ora, mode: Mode::ZpgX, official: true },
            0x16 => OpInfo { mn: Mnemonic::Asl, mode: Mode::ZpgX, official: true },
            0x17 => OpInfo { mn: Mnemonic::Slo, mode: Mode::ZpgX, official: false },
            0x18 => OpInfo { mn: Mnemonic::Clc, mode: Mode::Impl, official: true },
            0x19 => OpInfo { mn: Mnemonic::Ora, mode: Mode::AbsY, official: true },
            0x1a => OpInfo { mn: Mnemonic::Nop, mode: Mode::Impl, official: false },
            0x1b => OpInfo { mn: Mnemonic::Slo, mode: Mode::AbsY, official: false },
            0x1c => OpInfo { mn: Mnemonic::Nop, mode: Mode::AbsX, official: false },
            0x1d => OpInfo { mn: Mnemonic::Ora, mode: Mode::AbsX, official: true },
            0x1e => OpInfo { mn: Mnemonic::Asl, mode: Mode::AbsX, official: true },
            0x1f => OpInfo { mn: Mnemonic::Slo, mode: Mode::AbsX, official: false },
            0x20 => OpInfo { mn: Mnemonic::Jsr, mode: Mode::Abs, official: true },
            0x21 => OpInfo { mn: Mnemonic::And, mode: Mode::XInd, official: true },
            0x22 => OpInfo { mn: Mnemonic::Jam, mode: Mode::Impl, official: false },
            0x23 => OpInfo { mn: Mnemonic::Rla, mode: Mode::XInd, official: false },
            0x24 => OpInfo { mn: Mnemonic::Bit, mode: Mode::Zpg, official: true },
            0x25 => OpInfo { mn: Mnemonic::And, mode: Mode::Zpg, official: true },
            0x26 => OpInfo { mn: Mnemonic::Rol, mode: Mode::Zpg, official: true },
            0x27 => OpInfo { mn: Mnemonic::Rla, mode: Mode::Zpg, official: false },
            0x28 => OpInfo { mn: Mnemonic::Plp, mode: Mode::Impl, official: true },
            0x29 => OpInfo { mn: Mnemonic::And, mode: Mode::Imm, official: true },
            0x2a => OpInfo { mn: Mnemonic::Rol, mode: Mode::A, official: true },
            0x2b => OpInfo { mn: Mnemonic::Anc, mode: Mode::Imm, official: false },
            0x2c => OpInfo { mn: Mnemonic::Bit, mode: Mode::Abs, official: true },
            0x2d => OpInfo { mn: Mnemonic::And, mode: Mode::Abs, official: true },
            0x2e => OpInfo { mn: Mnemonic::Rol, mode: Mode::Abs, official: true },
            0x2f => OpInfo { mn: Mnemonic::Rla, mode: Mode::Abs, official: false },
            0x30 => OpInfo { mn: Mnemonic::Bmi, mode: Mode::Rel, official: true },
            0x31 => OpInfo { mn: Mnemonic::And, mode: Mode::IndY, official: true },
            0x32 => OpInfo { mn: Mnemonic::Jam, mode: Mode::Impl, official: false },
            0x33 => OpInfo { mn: Mnemonic::Rla, mode: Mode::IndY, official: false },
            0x34 => OpInfo { mn: Mnemonic::Nop, mode: Mode::ZpgX, official: false },
            0x35 => OpInfo { mn: Mnemonic::And, mode: Mode::ZpgX, official: true },
            0x36 => OpInfo { mn: Mnemonic::Rol, mode: Mode::ZpgX, official: true },
            0x37 => OpInfo { mn: Mnemonic::Rla, mode: Mode::ZpgX, official: false },
            0x38 => OpInfo { mn: Mnemonic::Sec, mode: Mode::Impl, official: true },
            0x39 => OpInfo { mn: Mnemonic::And, mode: Mode::AbsY, official: true },
            0x3a => OpInfo { mn: Mnemonic::Nop, mode: Mode::Impl, official: false },
            0x3b => OpInfo { mn: Mnemonic::Rla, mode: Mode::AbsY, official: false },
            0x3c => OpInfo { mn: Mnemonic::Nop, mode: Mode::AbsX, official: false },
            0x3d => OpInfo { mn: Mnemonic::And, mode: Mode::AbsX, official: true },
            0x3e => OpInfo { mn: Mnemonic::Rol, mode: Mode::AbsX, official: true },
            0x3f => OpInfo { mn: Mnemonic::Rla, mode: Mode::AbsX, official: false },
            0x40 => OpInfo { mn: Mnemonic::Rti, mode: Mode::Impl, official: true },
            0x41 => OpInfo { mn: Mnemonic::Eor, mode: Mode::XInd, official: true },
            0x42 => OpInfo { mn: Mnemonic::Jam, mode: Mode::Impl, official: false },
            0x43 => OpInfo { mn: Mnemonic::Sre, mode: Mode::XInd, official: false },
            0x44 => OpInfo { mn: Mnemonic::Nop, mode: Mode::Zpg, official: false },
            0x45 => OpInfo { mn: Mnemonic::Eor, mode: Mode::Zpg, official: true },
            0x46 => OpInfo { mn: Mnemonic::Lsr, mode: Mode::Zpg, official: true },
            0x47 => OpInfo { mn: Mnemonic::Sre, mode: Mode::Zpg, official: false },
            0x48 => OpInfo { mn: Mnemonic::Pha, mode: Mode::Impl, official: true },
            0x49 => OpInfo { mn: Mnemonic::Eor, mode: Mode::Imm, official: true },
            0x4a => OpInfo { mn: Mnemonic::Lsr, mode: Mode::A, official: true },
            0x4b => OpInfo { mn: Mnemonic::Alr, mode: Mode::Imm, official: false },
            0x4c => OpInfo { mn: Mnemonic::Jmp, mode: Mode::Abs, official: true },
            0x4d => OpInfo { mn: Mnemonic::Eor, mode: Mode::Abs, official: true },
            0x4e => OpInfo { mn: Mnemonic::Lsr, mode: Mode::Abs, official: true },
            0x4f => OpInfo { mn: Mnemonic::Sre, mode: Mode::Abs, official: false },
            0x50 => OpInfo { mn: Mnemonic::Bvc, mode: Mode::Rel, official: true },
            0x51 => OpInfo { mn: Mnemonic::Eor, mode: Mode::IndY, official: true },
            0x52 => OpInfo { mn: Mnemonic::Jam, mode: Mode::Impl, official: false },
            0x53 => OpInfo { mn: Mnemonic::Sre, mode: Mode::IndY, official: false },
            0x54 => OpInfo { mn: Mnemonic::Nop, mode: Mode::ZpgX, official: false },
            0x55 => OpInfo { mn: Mnemonic::Eor, mode: Mode::ZpgX, official: true },
            0x56 => OpInfo { mn: Mnemonic::Lsr, mode: Mode::ZpgX, official: true },
            0x57 => OpInfo { mn: Mnemonic::Sre, mode: Mode::ZpgX, official: false },
            0x58 => OpInfo { mn: Mnemonic::Cli, mode: Mode::Impl, official: true },
            0x59 => OpInfo { mn: Mnemonic::Eor, mode: Mode::AbsY, official: true },
            0x5a => OpInfo { mn: Mnemonic::Nop, mode: Mode::Impl, official: false },
            0x5b => OpInfo { mn: Mnemonic::Sre, mode: Mode::AbsY, official: false },
            0x5c => OpInfo { mn: Mnemonic::Nop, mode: Mode::AbsX, official: false },
            0x5d => OpInfo { mn: Mnemonic::Eor, mode: Mode::AbsX, official: true },
            0x5e => OpInfo { mn: Mnemonic::Lsr, mode: Mode::AbsX, official: true },
            0x5f => OpInfo { mn: Mnemonic::Sre, mode: Mode::AbsX, official: false },
            0x60 => OpInfo { mn: Mnemonic::Rts, mode: Mode::Impl, official: true },
            0x61 => OpInfo { mn: Mnemonic::Adc, mode: Mode::XInd, official: true },
            0x62 => OpInfo { mn: Mnemonic::Jam, mode: Mode::Impl, official: false },
            0x63 => OpInfo { mn: Mnemonic::Rra, mode: Mode::XInd, official: false },
            0x64 => OpInfo { mn: Mnemonic::Nop, mode: Mode::Zpg, official: false },
            0x65 => OpInfo { mn: Mnemonic::Adc, mode: Mode::Zpg, official: true },
            0x66 => OpInfo { mn: Mnemonic::Ror, mode: Mode::Zpg, official: true },
            0x67 => OpInfo { mn: Mnemonic::Rra, mode: Mode::Zpg, official: false },
            0x68 => OpInfo { mn: Mnemonic::Pla, mode: Mode::Impl, official: true },
            0x69 => OpInfo { mn: Mnemonic::Adc, mode: Mode::Imm, official: true },
            0x6a => OpInfo { mn: Mnemonic::Ror, mode: Mode::A, official: true },
            0x6b => OpInfo { mn: Mnemonic::Arr, mode: Mode::Imm, official: false },
            0x6c => OpInfo { mn: Mnemonic::Jmp, mode: Mode::Ind, official: true },
            0x6d => OpInfo { mn: Mnemonic::Adc, mode: Mode::Abs, official: true },
            0x6e => OpInfo { mn: Mnemonic::Ror, mode: Mode::Abs, official: true },
            0x6f => OpInfo { mn: Mnemonic::Rra, mode: Mode::Abs, official: false },
            0x70 => OpInfo { mn: Mnemonic::Bvs, mode: Mode::Rel, official: true },
            0x71 => OpInfo { mn: Mnemonic::Adc, mode: Mode::IndY, official: true },
            0x72 => OpInfo { mn: Mnemonic::Jam, mode: Mode::Impl, official: false },
            0x73 => OpInfo { mn: Mnemonic::Rra, mode: Mode::IndY, official: false },
            0x74 => OpInfo { mn: Mnemonic::Nop, mode: Mode::ZpgX, official: false },
            0x75 => OpInfo { mn: Mnemonic::Adc, mode: Mode::ZpgX, official: true },
            0x76 => OpInfo { mn: Mnemonic::Ror, mode: Mode::ZpgX, official: true },
            0x77 => OpInfo { mn: Mnemonic::Rra, mode: Mode::ZpgX, official: false },
            0x78 => OpInfo { mn: Mnemonic::Sei, mode: Mode::Impl, official: true },
            0x79 => OpInfo { mn: Mnemonic::Adc, mode: Mode::AbsY, official: true },
            0x7a => OpInfo { mn: Mnemonic::Nop, mode: Mode::Impl, official: false },
            0x7b => OpInfo { mn: Mnemonic::Rra, mode: Mode::AbsY, official: false },
            0x7c => OpInfo { mn: Mnemonic::Nop, mode: Mode::AbsX, official: false },
            0x7d => OpInfo { mn: Mnemonic::Adc, mode: Mode::AbsX, official: true },
            0x7e => OpInfo { mn: Mnemonic::Ror, mode: Mode::AbsX, official: true },
            0x7f => OpInfo { mn: Mnemonic::Rra, mode: Mode::AbsX, official: false },
            0x80 => OpInfo { mn: Mnemonic::Nop, mode: Mode::Imm, official: false },
            0x81 => OpInfo { mn: Mnemonic::Sta, mode: Mode::XInd, official: true },
            0x82 => OpInfo { mn: Mnemonic::Nop, mode: Mode::Imm, official: false },
            0x83 => OpInfo { mn: Mnemonic::Sax, mode: Mode::XInd, official: false },
            0x84 => OpInfo { mn: Mnemonic::Sty, mode: Mode::Zpg, official: true },
            0x85 => OpInfo { mn: Mnemonic::Sta, mode: Mode::Zpg, official: true },
            0x86 => OpInfo { mn: Mnemonic::Stx, mode: Mode::Zpg, official: true },
            0x87 => OpInfo { mn: Mnemonic::Sax, mode: Mode::Zpg, official: false },
            0x88 => OpInfo { mn: Mnemonic::Dey, mode: Mode::Impl, official: true },
            0x89 => OpInfo { mn: Mnemonic::Nop, mode: Mode::Imm, official: false },
            0x8a => OpInfo { mn: Mnemonic::Txa, mode: Mode::Impl, official: true },
            0x8b => OpInfo { mn: Mnemonic::Ane, mode: Mode::Imm, official: false },
            0x8c => OpInfo { mn: Mnemonic::Sty, mode: Mode::Abs, official: true },
            0x8d => OpInfo { mn: Mnemonic::Sta, mode: Mode::Abs, official: true },
            0x8e => OpInfo { mn: Mnemonic::Stx, mode: Mode::Abs, official: true },
            0x8f => OpInfo { mn: Mnemonic::Sax, mode: Mode::Abs, official: false },
            0x90 => OpInfo { mn: Mnemonic::Bcc, mode: Mode::Rel, official: true },
            0x91 => OpInfo { mn: Mnemonic::Sta, mode: Mode::IndY, official: true },
            0x92 => OpInfo { mn: Mnemonic::Jam, mode: Mode::Impl, official: false },
            0x93 => OpInfo { mn: Mnemonic::Sha, mode: Mode::IndY, official: false },
            0x94 => OpInfo { mn: Mnemonic::Sty, mode: Mode::ZpgX, official: true },
            0x95 => OpInfo { mn: Mnemonic::Sta, mode: Mode::ZpgX, official: true },
            0x96 => OpInfo { mn: Mnemonic::Stx, mode: Mode::ZpgY, official: true },
            0x97 => OpInfo { mn: Mnemonic::Sax, mode: Mode::ZpgY, official: false },
            0x98 => OpInfo { mn: Mnemonic::Tya, mode: Mode::Impl, official: true },
            0x99 => OpInfo { mn: Mnemonic::Sta, mode: Mode::AbsY, official: true },
            0x9a => OpInfo { mn: Mnemonic::Txs, mode: Mode::Impl, official: true },
            0x9b => OpInfo { mn: Mnemonic::Tas, mode: Mode::AbsY, official: false },
            0x9c => OpInfo { mn: Mnemonic::Shy, mode: Mode::AbsX, official: false },
            0x9d => OpInfo { mn: Mnemonic::Sta, mode: Mode::AbsX, official: true },
            0x9e => OpInfo { mn: Mnemonic::Shx, mode: Mode::AbsY, official: false },
            0x9f => OpInfo { mn: Mnemonic::Sha, mode: Mode::AbsY, official: false },
            0xa0 => OpInfo { mn: Mnemonic::Ldy, mode: Mode::Imm, official: true },
            0xa1 => OpInfo { mn: Mnemonic::Lda, mode: Mode::XInd, official: true },
            0xa2 => OpInfo { mn: Mnemonic::Ldx, mode: Mode::Imm, official: true },
            0xa3 => OpInfo { mn: Mnemonic::Lax, mode: Mode::XInd, official: false },
            0xa4 => OpInfo { mn: Mnemonic::Ldy, mode: Mode::Zpg, official: true },
            0xa5 => OpInfo { mn: Mnemonic::Lda, mode: Mode::Zpg, official: true },
            0xa6 => OpInfo { mn: Mnemonic::Ldx, mode: Mode::Zpg, official: true },
            0xa7 => OpInfo { mn: Mnemonic::Lax, mode: Mode::Zpg, official: false },
            0xa8 => OpInfo { mn: Mnemonic::Tay, mode: Mode::Impl, official: true },
            0xa9 => OpInfo { mn: Mnemonic::Lda, mode: Mode::Imm, official: true },
            0xaa => OpInfo { mn: Mnemonic::Tax, mode: Mode::Impl, official: true },
            0xab => OpInfo { mn: Mnemonic::Lxa, mode: Mode::Imm, official: false },
            0xac => OpInfo { mn: Mnemonic::Ldy, mode: Mode::Abs, official: true },
            0xad => OpInfo { mn: Mnemonic::Lda, mode: Mode::Abs, official: true },
            0xae => OpInfo { mn: Mnemonic::Ldx, mode: Mode::Abs, official: true },
            0xaf => OpInfo { mn: Mnemonic::Lax, mode: Mode::Abs, official: false },
            0xb0 => OpInfo { mn: Mnemonic::Bcs, mode: Mode::Rel, official: true },
            0xb1 => OpInfo { mn: Mnemonic::Lda, mode: Mode::IndY, official: true },
            0xb2 => OpInfo { mn: Mnemonic::Jam, mode: Mode::Impl, official: false },
            0xb3 => OpInfo { mn: Mnemonic::Lax, mode: Mode::IndY, official: false },
            0xb4 => OpInfo { mn: Mnemonic::Ldy, mode: Mode::ZpgX, official: true },
            0xb5 => OpInfo { mn: Mnemonic::Lda, mode: Mode::ZpgX, official: true },
            0xb6 => OpInfo { mn: Mnemonic::Ldx, mode: Mode::ZpgY, official: true },
            0xb7 => OpInfo { mn: Mnemonic::Lax, mode: Mode::ZpgY, official: false },
            0xb8 => OpInfo { mn: Mnemonic::Clv, mode: Mode::Impl, official: true },
            0xb9 => OpInfo { mn: Mnemonic::Lda, mode: Mode::AbsY, official: true },
            0xba => OpInfo { mn: Mnemonic::Tsx, mode: Mode::Impl, official: true },
            0xbb => OpInfo { mn: Mnemonic::Las, mode: Mode::AbsY, official: false },
            0xbc => OpInfo { mn: Mnemonic::Ldy, mode: Mode::AbsX, official: true },
            0xbd => OpInfo { mn: Mnemonic::Lda, mode: Mode::AbsX, official: true },
            0xbe => OpInfo { mn: Mnemonic::Ldx, mode: Mode::AbsY, official: true },
            0xbf => OpInfo { mn: Mnemonic::Lax, mode: Mode::AbsY, official: false },
            0xc0 => OpInfo { mn: Mnemonic::Cpy, mode: Mode::Imm, official: true },
            0xc1 => OpInfo { mn: Mnemonic::Cmp, mode: Mode::XInd, official: true },
            0xc2 => OpInfo { mn: Mnemonic::Nop, mode: Mode::Imm, official: false },
            0xc3 => OpInfo { mn: Mnemonic::Dcp, mode: Mode::XInd, official: false },
            0xc4 => OpInfo { mn: Mnemonic::Cpy, mode: Mode::Zpg, official: true },
            0xc5 => OpInfo { mn: Mnemonic::Cmp, mode: Mode::Zpg, official: true },
            0xc6 => OpInfo { mn: Mnemonic::Dec, mode: Mode::Zpg, official: true },
            0xc7 => OpInfo { mn: Mnemonic::Dcp, mode: Mode::Zpg, official: false },
            0xc8 => OpInfo { mn: Mnemonic::Iny, mode: Mode::Impl, official: true },
            0xc9 => OpInfo { mn: Mnemonic::Cmp, mode: Mode::Imm, official: true },
            0xca => OpInfo { mn: Mnemonic::Dex, mode: Mode::Impl, official: true },
            0xcb => OpInfo { mn: Mnemonic::Sbx, mode: Mode::Imm, official: false },
            0xcc => OpInfo { mn: Mnemonic::Cpy, mode: Mode::Abs, official: true },
            0xcd => OpInfo { mn: Mnemonic::Cmp, mode: Mode::Abs, official: true },
            0xce => OpInfo { mn: Mnemonic::Dec, mode: Mode::Abs, official: true },
            0xcf => OpInfo { mn: Mnemonic::Dcp, mode: Mode::Abs, official: false },
            0xd0 => OpInfo { mn: Mnemonic::Bne, mode: Mode::Rel, official: true },
            0xd1 => OpInfo { mn: Mnemonic::Cmp, mode: Mode::IndY, official: true },
            0xd2 => OpInfo { mn: Mnemonic::Jam, mode: Mode::Impl, official: false },
            0xd3 => OpInfo { mn: Mnemonic::Dcp, mode: Mode::IndY, official: false },
            0xd4 => OpInfo { mn: Mnemonic::Nop, mode: Mode::ZpgX, official: false },
            0xd5 => OpInfo { mn: Mnemonic::Cmp, mode: Mode::ZpgX, official: true },
            0xd6 => OpInfo { mn: Mnemonic::Dec, mode: Mode::ZpgX, official: true },
            0xd7 => OpInfo { mn: Mnemonic::Dcp, mode: Mode::ZpgX, official: false },
            0xd8 => OpInfo { mn: Mnemonic::Cld, mode: Mode::Impl, official: true },
            0xd9 => OpInfo { mn: Mnemonic::Cmp, mode: Mode::AbsY, official: true },
            0xda => OpInfo { mn: Mnemonic::Nop, mode: Mode::Impl, official: false },
            0xdb => OpInfo { mn: Mnemonic::Dcp, mode: Mode::AbsY, official: false },
            0xdc => OpInfo { mn: Mnemonic::Nop, mode: Mode::AbsX, official: false },
            0xdd => OpInfo { mn: Mnemonic::Cmp, mode: Mode::AbsX, official: true },
            0xde => OpInfo { mn: Mnemonic::Dec, mode: Mode::AbsX, official: true },
            0xdf => OpInfo { mn: Mnemonic::Dcp, mode: Mode::AbsX, official: false },
            0xe0 => OpInfo { mn: Mnemonic::Cpx, mode: Mode::Imm, official: true },
            0xe1 => OpInfo { mn: Mnemonic::Sbc, mode: Mode::XInd, official: true },
            0xe2 => OpInfo { mn: Mnemonic::Nop, mode: Mode::Imm, official: false },
            0xe3 => OpInfo { mn: Mnemonic::Isc, mode: Mode::XInd, official: false },
            0xe4 => OpInfo { mn: Mnemonic::Cpx, mode: Mode::Zpg, official: true },
            0xe5 => OpInfo { mn: Mnemonic::Sbc, mode: Mode::Zpg, official: true },
            0xe6 => OpInfo { mn: Mnemonic::Inc, mode: Mode::Zpg, official: true },
            0xe7 => OpInfo { mn: Mnemonic::Isc, mode: Mode::Zpg, official: false },
            0xe8 => OpInfo { mn: Mnemonic::Inx, mode: Mode::Impl, official: true },
            0xe9 => OpInfo { mn: Mnemonic::Sbc, mode: Mode::Imm, official: true },
            0xea => OpInfo { mn: Mnemonic::Nop, mode: Mode::Impl, official: true },
            0xeb => OpInfo { mn: Mnemonic::Usbc, mode: Mode::Imm, official: false },
            0xec => OpInfo { mn: Mnemonic::Cpx, mode: Mode::Abs, official: true },
            0xed => OpInfo { mn: Mnemonic::Sbc, mode: Mode::Abs, official: true },
            0xee => OpInfo { mn: Mnemonic::Inc, mode: Mode::Abs, official: true },
            0xef => OpInfo { mn: Mnemonic::Isc, mode: Mode::Abs, official: false },
            0xf0 => OpInfo { mn: Mnemonic::Beq, mode: Mode::Rel, official: true },
            0xf1 => OpInfo { mn: Mnemonic::Sbc, mode: Mode::IndY, official: true },
            0xf2 => OpInfo { mn: Mnemonic::Jam, mode: Mode::Impl, official: false },
            0xf3 => OpInfo { mn: Mnemonic::Isc, mode: Mode::IndY, official: false },
            0xf4 => OpInfo { mn: Mnemonic::Nop, mode: Mode::ZpgX, official: false },
            0xf5 => OpInfo { mn: Mnemonic::Sbc, mode: Mode::ZpgX, official: true },
            0xf6 => OpInfo { mn: Mnemonic::Inc, mode: Mode::ZpgX, official: true },
            0xf7 => OpInfo { mn: Mnemonic::Isc, mode: Mode::ZpgX, official: false },
            0xf8 => OpInfo { mn: Mnemonic::Sed, mode: Mode::Impl, official: true },
            0xf9 => OpInfo { mn: Mnemonic::Sbc, mode: Mode::AbsY, official: true },
            0xfa => OpInfo { mn: Mnemonic::Nop, mode: Mode::Impl, official: false },
            0xfb => OpInfo { mn: Mnemonic::Isc, mode: Mode::AbsY, official: false },
            0xfc => OpInfo { mn: Mnemonic::Nop, mode: Mode::AbsX, official: false },
            0xfd => OpInfo { mn: Mnemonic::Sbc, mode: Mode::AbsX, official: true },
            0xfe => OpInfo { mn: Mnemonic::Inc, mode: Mode::AbsX, official: true },
            _ => OpInfo { mn: Mnemonic::Isc, mode: Mode::AbsX, official: false },        }
    }
}

/// The three ASCII letters the trace log prints for an official mnemonic.
/// Unofficial mnemonics are never logged; they map to "???".
pub open spec fn mn_name(mn: Mnemonic) -> Seq<u8> {
    match mn {
        Mnemonic::Adc => seq![65u8, 68u8, 67u8],  // "ADC"
        Mnemonic::And => seq![65u8, 78u8, 68u8],  // "AND"
        Mnemonic::Asl => seq![65u8, 83u8, 76u8],  // "ASL"
        Mnemonic::Bcc => seq![66u8, 67u8, 67u8],  // "BCC"
        Mnemonic::Bcs => seq![66u8, 67u8, 83u8],  // "BCS"
        Mnemonic::Beq => seq![66u8, 69u8, 81u8],  // "BEQ"
        Mnemonic::Bit => seq![66u8, 73u8, 84u8],  // "BIT"
        Mnemonic::Bmi => seq![66u8, 77u8, 73u8],  // "BMI"
        Mnemonic::Bne => seq![66u8, 78u8, 69u8],  // "BNE"
        Mnemonic::Bpl => seq![66u8, 80u8, 76u8],  // "BPL"
        Mnemonic::Brk => seq![66u8, 82u8, 75u8],  // "BRK"
        Mnemonic::Bvc => seq![66u8, 86u8, 67u8],  // "BVC"
        Mnemonic::Bvs => seq![66u8, 86u8, 83u8],  // "BVS"
        Mnemonic::Clc => seq![67u8, 76u8, 67u8],  // "CLC"
        Mnemonic::Cld => seq![67u8, 76u8, 68u8],  // "CLD"
        Mnemonic::Cli => seq![67u8, 76u8, 73u8],  // "CLI"
        Mnemonic::Clv => seq![67u8, 76u8, 86u8],  // "CLV"
        Mnemonic::Cmp => seq![67u8, 77u8, 80u8],  // "CMP"
        Mnemonic::Cpx => seq![67u8, 80u8, 88u8],  // "CPX"
        Mnemonic::Cpy => seq![67u8, 80u8, 89u8],  // "CPY"
        Mnemonic::Dec => seq![68u8, 69u8, 67u8],  // "DEC"
        Mnemonic::Dex => seq![68u8, 69u8, 88u8],  // "DEX"
        Mnemonic::Dey => seq![68u8, 69u8, 89u8],  // "DEY"
        Mnemonic::Eor => seq![69u8, 79u8, 82u8],  // "EOR"
        Mnemonic::Inc => seq![73u8, 78u8, 67u8],  // "INC"
        Mnemonic::Inx => seq![73u8, 78u8, 88u8],  // "INX"
        Mnemonic::Iny => seq![73u8, 78u8, 89u8],  // "INY"
        Mnemonic::Jmp => seq![74u8, 77u8, 80u8],  // "JMP"
        Mnemonic::Jsr => seq![74u8, 83u8, 82u8],  // "JSR"
        Mnemonic::Lda => seq![76u8, 68u8, 65u8],  // "LDA"
        Mnemonic::Ldx => seq![76u8, 68u8, 88u8],  // "LDX"
        Mnemonic::Ldy => seq![76u8, 68u8, 89u8],  // "LDY"
        Mnemonic::Lsr => seq![76u8, 83u8, 82u8],  // "LSR"
        Mnemonic::Nop => seq![78u8, 79u8, 80u8],  // "NOP"
        Mnemonic::Ora => seq![79u8, 82u8, 65u8],  // "ORA"
        Mnemonic::Pha => seq![80u8, 72u8, 65u8],  // "PHA"
        Mnemonic::Php => seq![80u8, 72u8, 80u8],  // "PHP"
        Mnemonic::Pla => seq![80u8, 76u8, 65u8],  // "PLA"
        Mnemonic::Plp => seq![80u8, 76u8, 80u8],  // "PLP"
        Mnemonic::Rol => seq![82u8, 79u8, 76u8],  // "ROL"
        Mnemonic::Ror => seq![82u8, 79u8, 82u8],  // "ROR"
        Mnemonic::Rti => seq![82u8, 84u8, 73u8],  // "RTI"
        Mnemonic::Rts => seq![82u8, 84u8, 83u8],  // "RTS"
        Mnemonic::Sbc => seq![83u8, 66u8, 67u8],  // "SBC"
        Mnemonic::Sec => seq![83u8, 69u8, 67u8],  // "SEC"
        Mnemonic::Sed => seq![83u8, 69u8, 68u8],  // "SED"
        Mnemonic::Sei => seq![83u8, 69u8, 73u8],  // "SEI"
        Mnemonic::Sta => seq![83u8, 84u8, 65u8],  // "STA"
        Mnemonic::Stx => seq![83u8, 84u8, 88u8],  // "STX"
        Mnemonic::Sty => seq![83u8, 84u8, 89u8],  // "STY"
        Mnemonic::Tax => seq![84u8, 65u8, 88u8],  // "TAX"
        Mnemonic::Tay => seq![84u8, 65u8, 89u8],  // "TAY"
        Mnemonic::Tsx => seq![84u8, 83u8, 88u8],  // "TSX"
        Mnemonic::Txa => seq![84u8, 88u8, 65u8],  // "TXA"
        Mnemonic::Txs => seq![84u8, 88u8, 83u8],  // "TXS"
        Mnemonic::Tya => seq![84u8, 89u8, 65u8],  // "TYA"
        _ => seq![63u8, 63u8, 63u8],
    }
}

impl Mnemonic {
    /// The three trace-log letters of this mnemonic.
    pub fn name_bytes(self) -> (r: (u8, u8, u8))
        ensures
            seq![r.0, r.1, r.2] == mn_name(self),
    {
        match self {
            Mnemonic::Adc => (65, 68, 67),  // "ADC"
            Mnemonic::And => (65, 78, 68),  // "AND"
            Mnemonic::Asl => (65, 83, 76),  // "ASL"
            Mnemonic::Bcc => (66, 67, 67),  // "BCC"
            Mnemonic::Bcs => (66, 67, 83),  // "BCS"
            Mnemonic::Beq => (66, 69, 81),  // "BEQ"
            Mnemonic::Bit => (66, 73, 84),  // "BIT"
            Mnemonic::Bmi => (66, 77, 73),  // "BMI"
            Mnemonic::Bne => (66, 78, 69),  // "BNE"
            Mnemonic::Bpl => (66, 80, 76),  // "BPL"
            Mnemonic::Brk => (66, 82, 75),  // "BRK"
            Mnemonic::Bvc => (66, 86, 67),  // "BVC"
            Mnemonic::Bvs => (66, 86, 83),  // "BVS"
            Mnemonic::Clc => (67, 76, 67),  // "CLC"
            Mnemonic::Cld => (67, 76, 68),  // "CLD"
            Mnemonic::Cli => (67, 76, 73),  // "CLI"
            Mnemonic::Clv => (67, 76, 86),  // "CLV"
            Mnemonic::Cmp => (67, 77, 80),  // "CMP"
            Mnemonic::Cpx => (67, 80, 88),  // "CPX"
            Mnemonic::Cpy => (67, 80, 89),  // "CPY"
            Mnemonic::Dec => (68, 69, 67),  // "DEC"
            Mnemonic::Dex => (68, 69, 88),  // "DEX"
            Mnemonic::Dey => (68, 69, 89),  // "DEY"
            Mnemonic::Eor => (69, 79, 82),  // "EOR"
            Mnemonic::Inc => (73, 78, 67),  // "INC"
            Mnemonic::Inx => (73, 78, 88),  // "INX"
            Mnemonic::Iny => (73, 78, 89),  // "INY"
            Mnemonic::Jmp => (74, 77, 80),  // "JMP"
            Mnemonic::Jsr => (74, 83, 82),  // "JSR"
            Mnemonic::Lda => (76, 68, 65),  // "LDA"
            Mnemonic::Ldx => (76, 68, 88),  // "LDX"
            Mnemonic::Ldy => (76, 68, 89),  // "LDY"
            Mnemonic::Lsr => (76, 83, 82),  // "LSR"
            Mnemonic::Nop => (78, 79, 80),  // "NOP"
            Mnemonic::Ora => (79, 82, 65),  // "ORA"
            Mnemonic::Pha => (80, 72, 65),  // "PHA"
            Mnemonic::Php => (80, 72, 80),  // "PHP"
            Mnemonic::Pla => (80, 76, 65),  // "PLA"
            Mnemonic::Plp => (80, 76, 80),  // "PLP"
            Mnemonic::Rol => (82, 79, 76),  // "ROL"
            Mnemonic::Ror => (82, 79, 82),  // "ROR"
            Mnemonic::Rti => (82, 84, 73),  // "RTI"
            Mnemonic::Rts => (82, 84, 83),  // "RTS"
            Mnemonic::Sbc => (83, 66, 67),  // "SBC"
            Mnemonic::Sec => (83, 69, 67),  // "SEC"
            Mnemonic::Sed => (83, 69, 68),  // "SED"
            Mnemonic::Sei => (83, 69, 73),  // "SEI"
            Mnemonic::Sta => (83, 84, 65),  // "STA"
            Mnemonic::Stx => (83, 84, 88),  // "STX"
            Mnemonic::Sty => (83, 84, 89),  // "STY"
            Mnemonic::Tax => (84, 65, 88),  // "TAX"
            Mnemonic::Tay => (84, 65, 89),  // "TAY"
            Mnemonic::Tsx => (84, 83, 88),  // "TSX"
            Mnemonic::Txa => (84, 88, 65),  // "TXA"
            Mnemonic::Txs => (84, 88, 83),  // "TXS"
            Mnemonic::Tya => (84, 89, 65),  // "TYA"
            _ => (63, 63, 63),
        }
    }
}

} // verus!
