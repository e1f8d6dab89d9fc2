//! The instruction set: mnemonics, addressing modes, and the opcode decoder.
//!
//! `spec_decode` is the specification-level decoding table; `decode` is the
//! executable one, proved to agree with it. Every opcode byte outside the
//! table is undecodable and makes the executor fail.

use vstd::prelude::*;
use crate::consts::{
    LDA_IM, LDA_ZP, LDA_ZPX, LDA_ABS, LDA_ABSX, LDA_ABSY, LDA_INDX, LDA_INDY, LDX_IM, LDX_ZP,
    LDX_ZPY, LDX_ABS, LDX_ABSY, LDY_IM, LDY_ZP, LDY_ZPX, LDY_ABS, LDY_ABSX, STA_ZP, STA_ZPX,
    STA_ABS, STA_ABSX, STA_ABSY, STA_INDX, STA_INDY, STX_ZP, STX_ZPY, STX_ABS, STY_ZP, STY_ZPX,
    STY_ABS, TAX, TAY, TXA, TYA, TSX, TXS, PHA, PHP, PLA, PLP, AND_IM, AND_ZP, AND_ZPX, AND_ABS,
    AND_ABSX, AND_ABSY, AND_INDX, AND_INDY, EOR_IM, EOR_ZP, EOR_ZPX, EOR_ABS, EOR_ABSX, EOR_ABSY,
    EOR_INDX, EOR_INDY, ORA_IM, ORA_ZP, ORA_ZPX, ORA_ABS, ORA_ABSX, ORA_ABSY, ORA_INDX, ORA_INDY,
    BIT_ZP, BIT_ABS, ADC_IM, ADC_ZP, ADC_ZPX, ADC_ABS, ADC_ABSX, ADC_ABSY, ADC_INDX, ADC_INDY,
    SBC_IM, SBC_ZP, SBC_ZPX, SBC_ABS, SBC_ABSX, SBC_ABSY, SBC_INDX, SBC_INDY, CMP_IM, CMP_ZP,
    CMP_ZPX, CMP_ABS, CMP_ABSX, CMP_ABSY, CMP_INDX, CMP_INDY, CPX_IM, CPX_ZP, CPX_ABS, CPY_IM,
    CPY_ZP, CPY_ABS, INC_ZP, INC_ZPX, INC_ABS, INC_ABSX, INX, INY, DEC_ZP, DEC_ZPX, DEC_ABS,
    DEC_ABSX, DEX, DEY, ASL_A, ASL_ZP, ASL_ZPX, ASL_ABS, ASL_ABSX, LSR_A, LSR_ZP, LSR_ZPX,
    LSR_ABS, LSR_ABSX, ROL_A, ROL_ZP, ROL_ZPX, ROL_ABS, ROL_ABSX, ROR_A, ROR_ZP, ROR_ZPX,
    ROR_ABS, ROR_ABSX, JMP_ABS, JMP_IND, JSR, RTS, BCC, BCS, BEQ, BMI, BNE, BPL, BVC, BVS, CLC,
    CLD, CLI, CLV, SEC, SED, SEI, BRK, RTI, NOP,
};

verus! {

/// The mnemonics of the documented NMOS 6502 instruction set.
#[derive(Clone, Copy, PartialEq, Eq, Structural, Debug)]
pub enum Op {
    Lda,
    Ldx,
    Ldy,
    Sta,
    Stx,
    Sty,
    Tax,
    Tay,
    Txa,
    Tya,
    Tsx,
    Txs,
    Pha,
    Php,
    Pla,
    Plp,
    And,
    Eor,
    Ora,
    Bit,
    Adc,
    Sbc,
    Cmp,
    Cpx,
    Cpy,
    Inc,
    Inx,
    Iny,
    Dec,
    Dex,
    Dey,
    Asl,
    Lsr,
    Rol,
    Ror,
    Jmp,
    Jsr,
    Rts,
    Bcc,
    Bcs,
    Beq,
    Bmi,
    Bne,
    Bpl,
    Bvc,
    Bvs,
    Clc,
    Cld,
    Cli,
    Clv,
    Sec,
    Sed,
    Sei,
    Brk,
    Nop,
    Rti,
}

/// The eleven addressing modes, plus the accumulator/implied forms and the
/// relative form used by branches.
#[derive(Clone, Copy, PartialEq, Eq, Structural, Debug)]
pub enum Mode {
    Implied,
    Accumulator,
    Immediate,
    ZeroPage,
    ZeroPageX,
    ZeroPageY,
    Absolute,
    AbsoluteX,
    AbsoluteY,
    Indirect,
    IndirectX,
    IndirectY,
    Relative,
}

/// The decoding table: which mnemonic and addressing mode an opcode byte
/// stands for, or `None` for a byte outside the documented set.
pub open spec fn spec_decode(b: u8) -> Option<(Op, Mode)> {
    if b == LDA_IM {
        Some((Op::Lda, Mode::Immediate))
    } else if b == LDA_ZP {
        Some((Op::Lda, Mode::ZeroPage))
    } else if b == LDA_ZPX {
        Some((Op::Lda, Mode::ZeroPageX))
    } else if b == LDA_ABS {
        Some((Op::Lda, Mode::Absolute))
    } else if b == LDA_ABSX {
        Some((Op::Lda, Mode::AbsoluteX))
    } else if b == LDA_ABSY {
        Some((Op::Lda, Mode::AbsoluteY))
    } else if b == LDA_INDX {
        Some((Op::Lda, Mode::IndirectX))
    } else if b == LDA_INDY {
        Some((Op::Lda, Mode::IndirectY))
    } else if b == LDX_IM {
        Some((Op::Ldx, Mode::Immediate))
    } else if b == LDX_ZP {
        Some((Op::Ldx, Mode::ZeroPage))
    } else if b == LDX_ZPY {
        Some((Op::Ldx, Mode::ZeroPageY))
    } else if b == LDX_ABS {
        Some((Op::Ldx, Mode::Absolute))
    } else if b == LDX_ABSY {
        Some((Op::Ldx, Mode::AbsoluteY))
    } else if b == LDY_IM {
        Some((Op::Ldy, Mode::Immediate))
    } else if b == LDY_ZP {
        Some((Op::Ldy, Mode::ZeroPage))
    } else if b == LDY_ZPX {
        Some((Op::Ldy, Mode::ZeroPageX))
    } else if b == LDY_ABS {
        Some((Op::Ldy, Mode::Absolute))
    } else if b == LDY_ABSX {
        Some((Op::Ldy, Mode::AbsoluteX))
    } else if b == STA_ZP {
        Some((Op::Sta, Mode::ZeroPage))
    } else if b == STA_ZPX {
        Some((Op::Sta, Mode::ZeroPageX))
    } else if b == STA_ABS {
        Some((Op::Sta, Mode::Absolute))
    } else if b == STA_ABSX {
        Some((Op::Sta, Mode::AbsoluteX))
    } else if b == STA_ABSY {
        Some((Op::Sta, Mode::AbsoluteY))
    } else if b == STA_INDX {
        Some((Op::Sta, Mode::IndirectX))
    } else if b == STA_INDY {
        Some((Op::Sta, Mode::IndirectY))
    } else if b == STX_ZP {
        Some((Op::Stx, Mode::ZeroPage))
    } else if b == STX_ZPY {
        Some((Op::Stx, Mode::ZeroPageY))
    } else if b == STX_ABS {
        Some((Op::Stx, Mode::Absolute))
    } else if b == STY_ZP {
        Some((Op::Sty, Mode::ZeroPage))
    } else if b == STY_ZPX {
        Some((Op::Sty, Mode::ZeroPageX))
    } else if b == STY_ABS {
        Some((Op::Sty, Mode::Absolute))
    } else if b == TAX {
        Some((Op::Tax, Mode::Implied))
    } else if b == TAY {
        Some((Op::Tay, Mode::Implied))
    } else if b == TXA {
        Some((Op::Txa, Mode::Implied))
    } else if b == TYA {
        Some((Op::Tya, Mode::Implied))
    } else if b == TSX {
        Some((Op::Tsx, Mode::Implied))
    } else if b == TXS {
        Some((Op::Txs, Mode::Implied))
    } else if b == PHA {
        Some((Op::Pha, Mode::Implied))
    } else if b == PHP {
        Some((Op::Php, Mode::Implied))
    } else if b == PLA {
        Some((Op::Pla, Mode::Implied))
    } else if b == PLP {
        Some((Op::Plp, Mode::Implied))
    } else if b == AND_IM {
        Some((Op::And, Mode::Immediate))
    } else if b == AND_ZP {
        Some((Op::And, Mode::ZeroPage))
    } else if b == AND_ZPX {
        Some((Op::And, Mode::ZeroPageX))
    } else if b == AND_ABS {
        Some((Op::And, Mode::Absolute))
    } else if b == AND_ABSX {
        Some((Op::And, Mode::AbsoluteX))
    } else if b == AND_ABSY {
        Some((Op::And, Mode::AbsoluteY))
    } else if b == AND_INDX {
        Some((Op::And, Mode::IndirectX))
    } else if b == AND_INDY {
        Some((Op::And, Mode::IndirectY))
    } else if b == EOR_IM {
        Some((Op::Eor, Mode::Immediate))
    } else if b == EOR_ZP {
        Some((Op::Eor, Mode::ZeroPage))
    } else if b == EOR_ZPX {
        Some((Op::Eor, Mode::ZeroPageX))
    } else if b == EOR_ABS {
        Some((Op::Eor, Mode::Absolute))
    } else if b == EOR_ABSX {
        Some((Op::Eor, Mode::AbsoluteX))
    } else if b == EOR_ABSY {
        Some((Op::Eor, Mode::AbsoluteY))
    } else if b == EOR_INDX {
        Some((Op::Eor, Mode::IndirectX))
    } else if b == EOR_INDY {
        Some((Op::Eor, Mode::IndirectY))
    } else if b == ORA_IM {
        Some((Op::Ora, Mode::Immediate))
    } else if b == ORA_ZP {
        Some((Op::Ora, Mode::ZeroPage))
    } else if b == ORA_ZPX {
        Some((Op::Ora, Mode::ZeroPageX))
    } else if b == ORA_ABS {
        Some((Op::Ora, Mode::Absolute))
    } else if b == ORA_ABSX {
        Some((Op::Ora, Mode::AbsoluteX))
    } else if b == ORA_ABSY {
        Some((Op::Ora, Mode::AbsoluteY))
    } else if b == ORA_INDX {
        Some((Op::Ora, Mode::IndirectX))
    } else if b == ORA_INDY {
        Some((Op::Ora, Mode::IndirectY))
    } else if b == BIT_ZP {
        Some((Op::Bit, Mode::ZeroPage))
    } else if b == BIT_ABS {
        Some((Op::Bit, Mode::Absolute))
    } else if b == ADC_IM {
        Some((Op::Adc, Mode::Immediate))
    } else if b == ADC_ZP {
        Some((Op::Adc, Mode::ZeroPage))
    } else if b == ADC_ZPX {
        Some((Op::Adc, Mode::ZeroPageX))
    } else if b == ADC_ABS {
        Some((Op::Adc, Mode::Absolute))
    } else if b == ADC_ABSX {
        Some((Op::Adc, Mode::AbsoluteX))
    } else if b == ADC_ABSY {
        Some((Op::Adc, Mode::AbsoluteY))
    } else if b == ADC_INDX {
        Some((Op::Adc, Mode::IndirectX))
    } else if b == ADC_INDY {
        Some((Op::Adc, Mode::IndirectY))
    } else if b == SBC_IM {
        Some((Op::Sbc, Mode::Immediate))
    } else if b == SBC_ZP {
        Some((Op::Sbc, Mode::ZeroPage))
    } else if b == SBC_ZPX {
        Some((Op::Sbc, Mode::ZeroPageX))
    } else if b == SBC_ABS {
        Some((Op::Sbc, Mode::Absolute))
    } else if b == SBC_ABSX {
        Some((Op::Sbc, Mode::AbsoluteX))
    } else if b == SBC_ABSY {
        Some((Op::Sbc, Mode::AbsoluteY))
    } else if b == SBC_INDX {
        Some((Op::Sbc, Mode::IndirectX))
    } else if b == SBC_INDY {
        Some((Op::Sbc, Mode::IndirectY))
    } else if b == CMP_IM {
        Some((Op::Cmp, Mode::Immediate))
    } else if b == CMP_ZP {
        Some((Op::Cmp, Mode::ZeroPage))
    } else if b == CMP_ZPX {
        Some((Op::Cmp, Mode::ZeroPageX))
    } else if b == CMP_ABS {
        Some((Op::Cmp, Mode::Absolute))
    } else if b == CMP_ABSX {
        Some((Op::Cmp, Mode::AbsoluteX))
    } else if b == CMP_ABSY {
        Some((Op::Cmp, Mode::AbsoluteY))
    } else if b == CMP_INDX {
        Some((Op::Cmp, Mode::IndirectX))
    } else if b == CMP_INDY {
        Some((Op::Cmp, Mode::IndirectY))
    } else if b == CPX_IM {
        Some((Op::Cpx, Mode::Immediate))
    } else if b == CPX_ZP {
        Some((Op::Cpx, Mode::ZeroPage))
    } else if b == CPX_ABS {
        Some((Op::Cpx, Mode::Absolute))
    } else if b == CPY_IM {
        Some((Op::Cpy, Mode::Immediate))
    } else if b == CPY_ZP {
        Some((Op::Cpy, Mode::ZeroPage))
    } else if b == CPY_ABS {
        Some((Op::Cpy, Mode::Absolute))
    } else if b == INC_ZP {
        Some((Op::Inc, Mode::ZeroPage))
    } else if b == INC_ZPX {
        Some((Op::Inc, Mode::ZeroPageX))
    } else if b == INC_ABS {
        Some((Op::Inc, Mode::Absolute))
    } else if b == INC_ABSX {
        Some((Op::Inc, Mode::AbsoluteX))
    } else if b == INX {
        Some((Op::Inx, Mode::Implied))
    } else if b == INY {
        Some((Op::Iny, Mode::Implied))
    } else if b == DEC_ZP {
        Some((Op::Dec, Mode::ZeroPage))
    } else if b == DEC_ZPX {
        Some((Op::Dec, Mode::ZeroPageX))
    } else if b == DEC_ABS {
        Some((Op::Dec, Mode::Absolute))
    } else if b == DEC_ABSX {
        Some((Op::Dec, Mode::AbsoluteX))
    } else if b == DEX {
        Some((Op::Dex, Mode::Implied))
    } else if b == DEY {
        Some((Op::Dey, Mode::Implied))
    } else if b == ASL_A {
        Some((Op::Asl, Mode::Accumulator))
    } else if b == ASL_ZP {
        Some((Op::Asl, Mode::ZeroPage))
    } else if b == ASL_ZPX {
        Some((Op::Asl, Mode::ZeroPageX))
    } else if b == ASL_ABS {
        Some((Op::Asl, Mode::Absolute))
    } else if b == ASL_ABSX {
        Some((Op::Asl, Mode::AbsoluteX))
    } else if b == LSR_A {
        Some((Op::Lsr, Mode::Accumulator))
    } else if b == LSR_ZP {
        Some((Op::Lsr, Mode::ZeroPage))
    } else if b == LSR_ZPX {
        Some((Op::Lsr, Mode::ZeroPageX))
    } else if b == LSR_ABS {
        Some((Op::Lsr, Mode::Absolute))
    } else if b == LSR_ABSX {
        Some((Op::Lsr, Mode::AbsoluteX))
    } else if b == ROL_A {
        Some((Op::Rol, Mode::Accumulator))
    } else if b == ROL_ZP {
        Some((Op::Rol, Mode::ZeroPage))
    } else if b == ROL_ZPX {
        Some((Op::Rol, Mode::ZeroPageX))
    } else if b == ROL_ABS {
        Some((Op::Rol, Mode::Absolute))
    } else if b == ROL_ABSX {
        Some((Op::Rol, Mode::AbsoluteX))
    } else if b == ROR_A {
        Some((Op::Ror, Mode::Accumulator))
    } else if b == ROR_ZP {
        Some((Op::Ror, Mode::ZeroPage))
    } else if b == ROR_ZPX {
        Some((Op::Ror, Mode::ZeroPageX))
    } else if b == ROR_ABS {
        Some((Op::Ror, Mode::Absolute))
    } else if b == ROR_ABSX {
        Some((Op::Ror, Mode::AbsoluteX))
    } else if b == JMP_ABS {
        Some((Op::Jmp, Mode::Absolute))
    } else if b == JMP_IND {
        Some((Op::Jmp, Mode::Indirect))
    } else if b == JSR {
        Some((Op::Jsr, Mode::Absolute))
    } else if b == RTS {
        Some((Op::Rts, Mode::Implied))
    } else if b == BCC {
        Some((Op::Bcc, Mode::Relative))
    } else if b == BCS {
        Some((Op::Bcs, Mode::Relative))
    } else if b == BEQ {
        Some((Op::Beq, Mode::Relative))
    } else if b == BMI {
        Some((Op::Bmi, Mode::Relative))
    } else if b == BNE {
        Some((Op::Bne, Mode::Relative))
    } else if b == BPL {
        Some((Op::Bpl, Mode::Relative))
    } else if b == BVC {
        Some((Op::Bvc, Mode::Relative))
    } else if b == BVS {
        Some((Op::Bvs, Mode::Relative))
    } else if b == CLC {
        Some((Op::Clc, Mode::Implied))
    } else if b == CLD {
        Some((Op::Cld, Mode::Implied))
    } else if b == CLI {
        Some((Op::Cli, Mode::Implied))
    } else if b == CLV {
        Some((Op::Clv, Mode::Implied))
    } else if b == SEC {
        Some((Op::Sec, Mode::Implied))
    } else if b == SED {
        Some((Op::Sed, Mode::Implied))
    } else if b == SEI {
        Some((Op::Sei, Mode::Implied))
    } else if b == BRK {
        Some((Op::Brk, Mode::Implied))
    } else if b == NOP {
        Some((Op::Nop, Mode::Implied))
    } else if b == RTI {
        Some((Op::Rti, Mode::Implied))
    } else {
        None
    }
}

/// Decodes one opcode byte; agrees with [`spec_decode`] everywhere.
pub fn decode(b: u8) -> (r: Option<(Op, Mode)>)
    ensures
        r == spec_decode(b),
{
    if b == LDA_IM {
        Some((Op::Lda, Mode::Immediate))
    } else if b == LDA_ZP {
        Some((Op::Lda, Mode::ZeroPage))
    } else if b == LDA_ZPX {
        Some((Op::Lda, Mode::ZeroPageX))
    } else if b == LDA_ABS {
        Some((Op::Lda, Mode::Absolute))
    } else if b == LDA_ABSX {
        Some((Op::Lda, Mode::AbsoluteX))
    } else if b == LDA_ABSY {
        Some((Op::Lda, Mode::AbsoluteY))
    } else if b == LDA_INDX {
        Some((Op::Lda, Mode::IndirectX))
    } else if b == LDA_INDY {
        Some((Op::Lda, Mode::IndirectY))
    } else if b == LDX_IM {
        Some((Op::Ldx, Mode::Immediate))
    } else if b == LDX_ZP {
        Some((Op::Ldx, Mode::ZeroPage))
    } else if b == LDX_ZPY {
        Some((Op::Ldx, Mode::ZeroPageY))
    } else if b == LDX_ABS {
        Some((Op::Ldx, Mode::Absolute))
    } else if b == LDX_ABSY {
        Some((Op::Ldx, Mode::AbsoluteY))
    } else if b == LDY_IM {
        Some((Op::Ldy, Mode::Immediate))
    } else if b == LDY_ZP {
        Some((Op::Ldy, Mode::ZeroPage))
    } else if b == LDY_ZPX {
        Some((Op::Ldy, Mode::ZeroPageX))
    } else if b == LDY_ABS {
        Some((Op::Ldy, Mode::Absolute))
    } else if b == LDY_ABSX {
        Some((Op::Ldy, Mode::AbsoluteX))
    } else if b == STA_ZP {
        Some((Op::Sta, Mode::ZeroPage))
    } else if b == STA_ZPX {
        Some((Op::Sta, Mode::ZeroPageX))
    } else if b == STA_ABS {
        Some((Op::Sta, Mode::Absolute))
    } else if b == STA_ABSX {
        Some((Op::Sta, Mode::AbsoluteX))
    } else if b == STA_ABSY {
        Some((Op::Sta, Mode::AbsoluteY))
    } else if b == STA_INDX {
        Some((Op::Sta, Mode::IndirectX))
    } else if b == STA_INDY {
        Some((Op::Sta, Mode::IndirectY))
    } else if b == STX_ZP {
        Some((Op::Stx, Mode::ZeroPage))
    } else if b == STX_ZPY {
        Some((Op::Stx, Mode::ZeroPageY))
    } else if b == STX_ABS {
        Some((Op::Stx, Mode::Absolute))
    } else if b == STY_ZP {
        Some((Op::Sty, Mode::ZeroPage))
    } else if b == STY_ZPX {
        Some((Op::Sty, Mode::ZeroPageX))
    } else if b == STY_ABS {
        Some((Op::Sty, Mode::Absolute))
    } else if b == TAX {
        Some((Op::Tax, Mode::Implied))
    } else if b == TAY {
        Some((Op::Tay, Mode::Implied))
    } else if b == TXA {
        Some((Op::Txa, Mode::Implied))
    } else if b == TYA {
        Some((Op::Tya, Mode::Implied))
    } else if b == TSX {
        Some((Op::Tsx, Mode::Implied))
    } else if b == TXS {
        Some((Op::Txs, Mode::Implied))
    } else if b == PHA {
        Some((Op::Pha, Mode::Implied))
    } else if b == PHP {
        Some((Op::Php, Mode::Implied))
    } else if b == PLA {
        Some((Op::Pla, Mode::Implied))
    } else if b == PLP {
        Some((Op::Plp, Mode::Implied))
    } else if b == AND_IM {
        Some((Op::And, Mode::Immediate))
    } else if b == AND_ZP {
        Some((Op::And, Mode::ZeroPage))
    } else if b == AND_ZPX {
        Some((Op::And, Mode::ZeroPageX))
    } else if b == AND_ABS {
        Some((Op::And, Mode::Absolute))
    } else if b == AND_ABSX {
        Some((Op::And, Mode::AbsoluteX))
    } else if b == AND_ABSY {
        Some((Op::And, Mode::AbsoluteY))
    } else if b == AND_INDX {
        Some((Op::And, Mode::IndirectX))
    } else if b == AND_INDY {
        Some((Op::And, Mode::IndirectY))
    } else if b == EOR_IM {
        Some((Op::Eor, Mode::Immediate))
    } else if b == EOR_ZP {
        Some((Op::Eor, Mode::ZeroPage))
    } else if b == EOR_ZPX {
        Some((Op::Eor, Mode::ZeroPageX))
    } else if b == EOR_ABS {
        Some((Op::Eor, Mode::Absolute))
    } else if b == EOR_ABSX {
        Some((Op::Eor, Mode::AbsoluteX))
    } else if b == EOR_ABSY {
        Some((Op::Eor, Mode::AbsoluteY))
    } else if b == EOR_INDX {
        Some((Op::Eor, Mode::IndirectX))
    } else if b == EOR_INDY {
        Some((Op::Eor, Mode::IndirectY))
    } else if b == ORA_IM {
        Some((Op::Ora, Mode::Immediate))
    } else if b == ORA_ZP {
        Some((Op::Ora, Mode::ZeroPage))
    } else if b == ORA_ZPX {
        Some((Op::Ora, Mode::ZeroPageX))
    } else if b == ORA_ABS {
        Some((Op::Ora, Mode::Absolute))
    } else if b == ORA_ABSX {
        Some((Op::Ora, Mode::AbsoluteX))
    } else if b == ORA_ABSY {
        Some((Op::Ora, Mode::AbsoluteY))
    } else if b == ORA_INDX {
        Some((Op::Ora, Mode::IndirectX))
    } else if b == ORA_INDY {
        Some((Op::Ora, Mode::IndirectY))
    } else if b == BIT_ZP {
        Some((Op::Bit, Mode::ZeroPage))
    } else if b == BIT_ABS {
        Some((Op::Bit, Mode::Absolute))
    } else if b == ADC_IM {
        Some((Op::Adc, Mode::Immediate))
    } else if b == ADC_ZP {
        Some((Op::Adc, Mode::ZeroPage))
    } else if b == ADC_ZPX {
        Some((Op::Adc, Mode::ZeroPageX))
    } else if b == ADC_ABS {
        Some((Op::Adc, Mode::Absolute))
    } else if b == ADC_ABSX {
        Some((Op::Adc, Mode::AbsoluteX))
    } else if b == ADC_ABSY {
        Some((Op::Adc, Mode::AbsoluteY))
    } else if b == ADC_INDX {
        Some((Op::Adc, Mode::IndirectX))
    } else if b == ADC_INDY {
        Some((Op::Adc, Mode::IndirectY))
    } else if b == SBC_IM {
        Some((Op::Sbc, Mode::Immediate))
    } else if b == SBC_ZP {
        Some((Op::Sbc, Mode::ZeroPage))
    } else if b == SBC_ZPX {
        Some((Op::Sbc, Mode::ZeroPageX))
    } else if b == SBC_ABS {
        Some((Op::Sbc, Mode::Absolute))
    } else if b == SBC_ABSX {
        Some((Op::Sbc, Mode::AbsoluteX))
    } else if b == SBC_ABSY {
        Some((Op::Sbc, Mode::AbsoluteY))
    } else if b == SBC_INDX {
        Some((Op::Sbc, Mode::IndirectX))
    } else if b == SBC_INDY {
        Some((Op::Sbc, Mode::IndirectY))
    } else if b == CMP_IM {
        Some((Op::Cmp, Mode::Immediate))
    } else if b == CMP_ZP {
        Some((Op::Cmp, Mode::ZeroPage))
    } else if b == CMP_ZPX {
        Some((Op::Cmp, Mode::ZeroPageX))
    } else if b == CMP_ABS {
        Some((Op::Cmp, Mode::Absolute))
    } else if b == CMP_ABSX {
        Some((Op::Cmp, Mode::AbsoluteX))
    } else if b == CMP_ABSY {
        Some((Op::Cmp, Mode::AbsoluteY))
    } else if b == CMP_INDX {
        Some((Op::Cmp, Mode::IndirectX))
    } else if b == CMP_INDY {
        Some((Op::Cmp, Mode::IndirectY))
    } else if b == CPX_IM {
        Some((Op::Cpx, Mode::Immediate))
    } else if b == CPX_ZP {
        Some((Op::Cpx, Mode::ZeroPage))
    } else if b == CPX_ABS {
        Some((Op::Cpx, Mode::Absolute))
    } else if b == CPY_IM {
        Some((Op::Cpy, Mode::Immediate))
    } else if b == CPY_ZP {
        Some((Op::Cpy, Mode::ZeroPage))
    } else if b == CPY_ABS {
        Some((Op::Cpy, Mode::Absolute))
    } else if b == INC_ZP {
        Some((Op::Inc, Mode::ZeroPage))
    } else if b == INC_ZPX {
        Some((Op::Inc, Mode::ZeroPageX))
    } else if b == INC_ABS {
        Some((Op::Inc, Mode::Absolute))
    } else if b == INC_ABSX {
        Some((Op::Inc, Mode::AbsoluteX))
    } else if b == INX {
        Some((Op::Inx, Mode::Implied))
    } else if b == INY {
        Some((Op::Iny, Mode::Implied))
    } else if b == DEC_ZP {
        Some((Op::Dec, Mode::ZeroPage))
    } else if b == DEC_ZPX {
        Some((Op::Dec, Mode::ZeroPageX))
    } else if b == DEC_ABS {
        Some((Op::Dec, Mode::Absolute))
    } else if b == DEC_ABSX {
        Some((Op::Dec, Mode::AbsoluteX))
    } else if b == DEX {
        Some((Op::Dex, Mode::Implied))
    } else if b == DEY {
        Some((Op::Dey, Mode::Implied))
    } else if b == ASL_A {
        Some((Op::Asl, Mode::Accumulator))
    } else if b == ASL_ZP {
        Some((Op::Asl, Mode::ZeroPage))
    } else if b == ASL_ZPX {
        Some((Op::Asl, Mode::ZeroPageX))
    } else if b == ASL_ABS {
        Some((Op::Asl, Mode::Absolute))
    } else if b == ASL_ABSX {
        Some((Op::Asl, Mode::AbsoluteX))
    } else if b == LSR_A {
        Some((Op::Lsr, Mode::Accumulator))
    } else if b == LSR_ZP {
        Some((Op::Lsr, Mode::ZeroPage))
    } else if b == LSR_ZPX {
        Some((Op::Lsr, Mode::ZeroPageX))
    } else if b == LSR_ABS {
        Some((Op::Lsr, Mode::Absolute))
    } else if b == LSR_ABSX {
        Some((Op::Lsr, Mode::AbsoluteX))
    } else if b == ROL_A {
        Some((Op::Rol, Mode::Accumulator))
    } else if b == ROL_ZP {
        Some((Op::Rol, Mode::ZeroPage))
    } else if b == ROL_ZPX {
        Some((Op::Rol, Mode::ZeroPageX))
    } else if b == ROL_ABS {
        Some((Op::Rol, Mode::Absolute))
    } else if b == ROL_ABSX {
        Some((Op::Rol, Mode::AbsoluteX))
    } else if b == ROR_A {
        Some((Op::Ror, Mode::Accumulator))
    } else if b == ROR_ZP {
        Some((Op::Ror, Mode::ZeroPage))
    } else if b == ROR_ZPX {
        Some((Op::Ror, Mode::ZeroPageX))
    } else if b == ROR_ABS {
        Some((Op::Ror, Mode::Absolute))
    } else if b == ROR_ABSX {
        Some((Op::Ror, Mode::AbsoluteX))
    } else if b == JMP_ABS {
        Some((Op::Jmp, Mode::Absolute))
    } else if b == JMP_IND {
        Some((Op::Jmp, Mode::Indirect))
    } else if b == JSR {
        Some((Op::Jsr, Mode::Absolute))
    } else if b == RTS {
        Some((Op::Rts, Mode::Implied))
    } else if b == BCC {
        Some((Op::Bcc, Mode::Relative))
    } else if b == BCS {
        Some((Op::Bcs, Mode::Relative))
    } else if b == BEQ {
        Some((Op::Beq, Mode::Relative))
    } else if b == BMI {
        Some((Op::Bmi, Mode::Relative))
    } else if b == BNE {
        Some((Op::Bne, Mode::Relative))
    } else if b == BPL {
        Some((Op::Bpl, Mode::Relative))
    } else if b == BVC {
        Some((Op::Bvc, Mode::Relative))
    } else if b == BVS {
        Some((Op::Bvs, Mode::Relative))
    } else if b == CLC {
        Some((Op::Clc, Mode::Implied))
    } else if b == CLD {
        Some((Op::Cld, Mode::Implied))
    } else if b == CLI {
        Some((Op::Cli, Mode::Implied))
    } else if b == CLV {
        Some((Op::Clv, Mode::Implied))
    } else if b == SEC {
        Some((Op::Sec, Mode::Implied))
    } else if b == SED {
        Some((Op::Sed, Mode::Implied))
    } else if b == SEI {
        Some((Op::Sei, Mode::Implied))
    } else if b == BRK {
        Some((Op::Brk, Mode::Implied))
    } else if b == NOP {
        Some((Op::Nop, Mode::Implied))
    } else if b == RTI {
        Some((Op::Rti, Mode::Implied))
    } else {
        None
    }
}

} // verus!
