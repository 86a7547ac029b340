//! Instruction decode: the closed table mapping each documented opcode
//! byte -- and the known unofficial no-op bytes, which decode to a
//! safe no-op with their real byte length and cycle cost -- to its
//! mnemonic, addressing mode and base cycle cost. Bytes outside the
//! table decode to `None`; the interpreter surfaces that as an
//! internal fault rather than guessing a behavior.

use vstd::prelude::*;

verus! {

#[derive(Clone, Copy, PartialEq, Eq, Structural, Debug)]
pub enum Mnemonic {
    Adc, And, Asl, Bcc, Bcs, Beq, Bit, Bmi, Bne, Bpl, Brk, Bvc, Bvs,
    Clc, Cld, Cli, Clv, Cmp, Cpx, Cpy, Dec, Dex, Dey, Eor, Inc, Inx,
    Iny, Jmp, Jsr, Lda, Ldx, Ldy, Lsr, Nop, Ora, Pha, Php, Pla, Plp,
    Rol, Ror, Rti, Rts, Sbc, Sec, Sed, Sei, Sta, Stx, Sty, Tax, Tay,
    Tsx, Txa, Txs, Tya,
}

#[derive(Clone, Copy, PartialEq, Eq, Structural, Debug)]
pub enum AddrMode {
    Imp,
    Acc,
    Imm,
    Zp,
    Zpx,
    Zpy,
    Abs,
    Abx,
    Aby,
    Izx,
    Izy,
    Ind,
    Rel,
}

/// What the decode table yields for one opcode byte.
#[derive(Clone, Copy, PartialEq, Eq, Structural, Debug)]
pub struct InstrInfo {
    pub mnem: Mnemonic,
    pub mode: AddrMode,
    pub cycles: u8,
}

/// The decode table as a mathematical function of the opcode byte.
pub open spec fn spec_decode(op: u8) -> Option<InstrInfo> {
    match op {
        0x00u8 => Some(InstrInfo { mnem: Mnemonic::Brk, mode: AddrMode::Imp, cycles: 7 }),
        0x01u8 => Some(InstrInfo { mnem: Mnemonic::Ora, mode: AddrMode::Izx, cycles: 6 }),
        0x05u8 => Some(InstrInfo { mnem: Mnemonic::Ora, mode: AddrMode::Zp, cycles: 3 }),
        0x06u8 => Some(InstrInfo { mnem: Mnemonic::Asl, mode: AddrMode::Zp, cycles: 5 }),
        0x08u8 => Some(InstrInfo { mnem: Mnemonic::Php, mode: AddrMode::Imp, cycles: 3 }),
        0x09u8 => Some(InstrInfo { mnem: Mnemonic::Ora, mode: AddrMode::Imm, cycles: 2 }),
        0x0Au8 => Some(InstrInfo { mnem: Mnemonic::Asl, mode: AddrMode::Acc, cycles: 2 }),
        0x0Du8 => Some(InstrInfo { mnem: Mnemonic::Ora, mode: AddrMode::Abs, cycles: 4 }),
        0x0Eu8 => Some(InstrInfo { mnem: Mnemonic::Asl, mode: AddrMode::Abs, cycles: 6 }),
        0x10u8 => Some(InstrInfo { mnem: Mnemonic::Bpl, mode: AddrMode::Rel, cycles: 2 }),
        0x11u8 => Some(InstrInfo { mnem: Mnemonic::Ora, mode: AddrMode::Izy, cycles: 5 }),
        0x15u8 => Some(InstrInfo { mnem: Mnemonic::Ora, mode: AddrMode::Zpx, cycles: 4 }),
        0x16u8 => Some(InstrInfo { mnem: Mnemonic::Asl, mode: AddrMode::Zpx, cycles: 6 }),
        0x18u8 => Some(InstrInfo { mnem: Mnemonic::Clc, mode: AddrMode::Imp, cycles: 2 }),
        0x19u8 => Some(InstrInfo { mnem: Mnemonic::Ora, mode: AddrMode::Aby, cycles: 4 }),
        0x1Du8 => Some(InstrInfo { mnem: Mnemonic::Ora, mode: AddrMode::Abx, cycles: 4 }),
        0x1Eu8 => Some(InstrInfo { mnem: Mnemonic::Asl, mode: AddrMode::Abx, cycles: 7 }),
        0x20u8 => Some(InstrInfo { mnem: Mnemonic::Jsr, mode: AddrMode::Abs, cycles: 6 }),
        0x21u8 => Some(InstrInfo { mnem: Mnemonic::And, mode: AddrMode::Izx, cycles: 6 }),
        0x24u8 => Some(InstrInfo { mnem: Mnemonic::Bit, mode: AddrMode::Zp, cycles: 3 }),
        0x25u8 => Some(InstrInfo { mnem: Mnemonic::And, mode: AddrMode::Zp, cycles: 3 }),
        0x26u8 => Some(InstrInfo { mnem: Mnemonic::Rol, mode: AddrMode::Zp, cycles: 5 }),
        0x28u8 => Some(InstrInfo { mnem: Mnemonic::Plp, mode: AddrMode::Imp, cycles: 4 }),
        0x29u8 => Some(InstrInfo { mnem: Mnemonic::And, mode: AddrMode::Imm, cycles: 2 }),
        0x2Au8 => Some(InstrInfo { mnem: Mnemonic::Rol, mode: AddrMode::Acc, cycles: 2 }),
        0x2Cu8 => Some(InstrInfo { mnem: Mnemonic::Bit, mode: AddrMode::Abs, cycles: 4 }),
        0x2Du8 => Some(InstrInfo { mnem: Mnemonic::And, mode: AddrMode::Abs, cycles: 4 }),
        0x2Eu8 => Some(InstrInfo { mnem: Mnemonic::Rol, mode: AddrMode::Abs, cycles: 6 }),
        0x30u8 => Some(InstrInfo { mnem: Mnemonic::Bmi, mode: AddrMode::Rel, cycles: 2 }),
        0x31u8 => Some(InstrInfo { mnem: Mnemonic::And, mode: AddrMode::Izy, cycles: 5 }),
        0x35u8 => Some(InstrInfo { mnem: Mnemonic::And, mode: AddrMode::Zpx, cycles: 4 }),
        0x36u8 => Some(InstrInfo { mnem: Mnemonic::Rol, mode: AddrMode::Zpx, cycles: 6 }),
        0x38u8 => Some(InstrInfo { mnem: Mnemonic::Sec, mode: AddrMode::Imp, cycles: 2 }),
        0x39u8 => Some(InstrInfo { mnem: Mnemonic::And, mode: AddrMode::Aby, cycles: 4 }),
        0x3Du8 => Some(InstrInfo { mnem: Mnemonic::And, mode: AddrMode::Abx, cycles: 4 }),
        0x3Eu8 => Some(InstrInfo { mnem: Mnemonic::Rol, mode: AddrMode::Abx, cycles: 7 }),
        0x40u8 => Some(InstrInfo { mnem: Mnemonic::Rti, mode: AddrMode::Imp, cycles: 6 }),
        0x41u8 => Some(InstrInfo { mnem: Mnemonic::Eor, mode: AddrMode::Izx, cycles: 6 }),
        0x45u8 => Some(InstrInfo { mnem: Mnemonic::Eor, mode: AddrMode::Zp, cycles: 3 }),
        0x46u8 => Some(InstrInfo { mnem: Mnemonic::Lsr, mode: AddrMode::Zp, cycles: 5 }),
        0x48u8 => Some(InstrInfo { mnem: Mnemonic::Pha, mode: AddrMode::Imp, cycles: 3 }),
        0x49u8 => Some(InstrInfo { mnem: Mnemonic::Eor, mode: AddrMode::Imm, cycles: 2 }),
        0x4Au8 => Some(InstrInfo { mnem: Mnemonic::Lsr, mode: AddrMode::Acc, cycles: 2 }),
        0x4Cu8 => Some(InstrInfo { mnem: Mnemonic::Jmp, mode: AddrMode::Abs, cycles: 3 }),
        0x4Du8 => Some(InstrInfo { mnem: Mnemonic::Eor, mode: AddrMode::Abs, cycles: 4 }),
        0x4Eu8 => Some(InstrInfo { mnem: Mnemonic::Lsr, mode: AddrMode::Abs, cycles: 6 }),
        0x50u8 => Some(InstrInfo { mnem: Mnemonic::Bvc, mode: AddrMode::Rel, cycles: 2 }),
        0x51u8 => Some(InstrInfo { mnem: Mnemonic::Eor, mode: AddrMode::Izy, cycles: 5 }),
        0x55u8 => Some(InstrInfo { mnem: Mnemonic::Eor, mode: AddrMode::Zpx, cycles: 4 }),
        0x56u8 => Some(InstrInfo { mnem: Mnemonic::Lsr, mode: AddrMode::Zpx, cycles: 6 }),
        0x58u8 => Some(InstrInfo { mnem: Mnemonic::Cli, mode: AddrMode::Imp, cycles: 2 }),
        0x59u8 => Some(InstrInfo { mnem: Mnemonic::Eor, mode: AddrMode::Aby, cycles: 4 }),
        0x5Du8 => Some(InstrInfo { mnem: Mnemonic::Eor, mode: AddrMode::Abx, cycles: 4 }),
        0x5Eu8 => Some(InstrInfo { mnem: Mnemonic::Lsr, mode: AddrMode::Abx, cycles: 7 }),
        0x60u8 => Some(InstrInfo { mnem: Mnemonic::Rts, mode: AddrMode::Imp, cycles: 6 }),
        0x61u8 => Some(InstrInfo { mnem: Mnemonic::Adc, mode: AddrMode::Izx, cycles: 6 }),
        0x65u8 => Some(InstrInfo { mnem: Mnemonic::Adc, mode: AddrMode::Zp, cycles: 3 }),
        0x66u8 => Some(InstrInfo { mnem: Mnemonic::Ror, mode: AddrMode::Zp, cycles: 5 }),
        0x68u8 => Some(InstrInfo { mnem: Mnemonic::Pla, mode: AddrMode::Imp, cycles: 4 }),
        0x69u8 => Some(InstrInfo { mnem: Mnemonic::Adc, mode: AddrMode::Imm, cycles: 2 }),
        0x6Au8 => Some(InstrInfo { mnem: Mnemonic::Ror, mode: AddrMode::Acc, cycles: 2 }),
        0x6Cu8 => Some(InstrInfo { mnem: Mnemonic::Jmp, mode: AddrMode::Ind, cycles: 5 }),
        0x6Du8 => Some(InstrInfo { mnem: Mnemonic::Adc, mode: AddrMode::Abs, cycles: 4 }),
        0x6Eu8 => Some(InstrInfo { mnem: Mnemonic::Ror, mode: AddrMode::Abs, cycles: 6 }),
        0x70u8 => Some(InstrInfo { mnem: Mnemonic::Bvs, mode: AddrMode::Rel, cycles: 2 }),
        0x71u8 => Some(InstrInfo { mnem: Mnemonic::Adc, mode: AddrMode::Izy, cycles: 5 }),
        0x75u8 => Some(InstrInfo { mnem: Mnemonic::Adc, mode: AddrMode::Zpx, cycles: 4 }),
        0x76u8 => Some(InstrInfo { mnem: Mnemonic::Ror, mode: AddrMode::Zpx, cycles: 6 }),
        0x78u8 => Some(InstrInfo { mnem: Mnemonic::Sei, mode: AddrMode::Imp, cycles: 2 }),
        0x79u8 => Some(InstrInfo { mnem: Mnemonic::Adc, mode: AddrMode::Aby, cycles: 4 }),
        0x7Du8 => Some(InstrInfo { mnem: Mnemonic::Adc, mode: AddrMode::Abx, cycles: 4 }),
        0x7Eu8 => Some(InstrInfo { mnem: Mnemonic::Ror, mode: AddrMode::Abx, cycles: 7 }),
        0x81u8 => Some(InstrInfo { mnem: Mnemonic::Sta, mode: AddrMode::Izx, cycles: 6 }),
        0x84u8 => Some(InstrInfo { mnem: Mnemonic::Sty, mode: AddrMode::Zp, cycles: 3 }),
        0x85u8 => Some(InstrInfo { mnem: Mnemonic::Sta, mode: AddrMode::Zp, cycles: 3 }),
        0x86u8 => Some(InstrInfo { mnem: Mnemonic::Stx, mode: AddrMode::Zp, cycles: 3 }),
        0x88u8 => Some(InstrInfo { mnem: Mnemonic::Dey, mode: AddrMode::Imp, cycles: 2 }),
        0x8Au8 => Some(InstrInfo { mnem: Mnemonic::Txa, mode: AddrMode::Imp, cycles: 2 }),
        0x8Cu8 => Some(InstrInfo { mnem: Mnemonic::Sty, mode: AddrMode::Abs, cycles: 4 }),
        0x8Du8 => Some(InstrInfo { mnem: Mnemonic::Sta, mode: AddrMode::Abs, cycles: 4 }),
        0x8Eu8 => Some(InstrInfo { mnem: Mnemonic::Stx, mode: AddrMode::Abs, cycles: 4 }),
        0x90u8 => Some(InstrInfo { mnem: Mnemonic::Bcc, mode: AddrMode::Rel, cycles: 2 }),
        0x91u8 => Some(InstrInfo { mnem: Mnemonic::Sta, mode: AddrMode::Izy, cycles: 6 }),
        0x94u8 => Some(InstrInfo { mnem: Mnemonic::Sty, mode: AddrMode::Zpx, cycles: 4 }),
        0x95u8 => Some(InstrInfo { mnem: Mnemonic::Sta, mode: AddrMode::Zpx, cycles: 4 }),
        0x96u8 => Some(InstrInfo { mnem: Mnemonic::Stx, mode: AddrMode::Zpy, cycles: 4 }),
        0x98u8 => Some(InstrInfo { mnem: Mnemonic::Tya, mode: AddrMode::Imp, cycles: 2 }),
        0x99u8 => Some(InstrInfo { mnem: Mnemonic::Sta, mode: AddrMode::Aby, cycles: 5 }),
        0x9Au8 => Some(InstrInfo { mnem: Mnemonic::Txs, mode: AddrMode::Imp, cycles: 2 }),
        0x9Du8 => Some(InstrInfo { mnem: Mnemonic::Sta, mode: AddrMode::Abx, cycles: 5 }),
        0xA0u8 => Some(InstrInfo { mnem: Mnemonic::Ldy, mode: AddrMode::Imm, cycles: 2 }),
        0xA1u8 => Some(InstrInfo { mnem: Mnemonic::Lda, mode: AddrMode::Izx, cycles: 6 }),
        0xA2u8 => Some(InstrInfo { mnem: Mnemonic::Ldx, mode: AddrMode::Imm, cycles: 2 }),
        0xA4u8 => Some(InstrInfo { mnem: Mnemonic::Ldy, mode: AddrMode::Zp, cycles: 3 }),
        0xA5u8 => Some(InstrInfo { mnem: Mnemonic::Lda, mode: AddrMode::Zp, cycles: 3 }),
        0xA6u8 => Some(InstrInfo { mnem: Mnemonic::Ldx, mode: AddrMode::Zp, cycles: 3 }),
        0xA8u8 => Some(InstrInfo { mnem: Mnemonic::Tay, mode: AddrMode::Imp, cycles: 2 }),
        0xA9u8 => Some(InstrInfo { mnem: Mnemonic::Lda, mode: AddrMode::Imm, cycles: 2 }),
        0xAAu8 => Some(InstrInfo { mnem: Mnemonic::Tax, mode: AddrMode::Imp, cycles: 2 }),
        0xACu8 => Some(InstrInfo { mnem: Mnemonic::Ldy, mode: AddrMode::Abs, cycles: 4 }),
        0xADu8 => Some(InstrInfo { mnem: Mnemonic::Lda, mode: AddrMode::Abs, cycles: 4 }),
        0xAEu8 => Some(InstrInfo { mnem: Mnemonic::Ldx, mode: AddrMode::Abs, cycles: 4 }),
        0xB0u8 => Some(InstrInfo { mnem: Mnemonic::Bcs, mode: AddrMode::Rel, cycles: 2 }),
        0xB1u8 => Some(InstrInfo { mnem: Mnemonic::Lda, mode: AddrMode::Izy, cycles: 5 }),
        0xB4u8 => Some(InstrInfo { mnem: Mnemonic::Ldy, mode: AddrMode::Zpx, cycles: 4 }),
        0xB5u8 => Some(InstrInfo { mnem: Mnemonic::Lda, mode: AddrMode::Zpx, cycles: 4 }),
        0xB6u8 => Some(InstrInfo { mnem: Mnemonic::Ldx, mode: AddrMode::Zpy, cycles: 4 }),
        0xB8u8 => Some(InstrInfo { mnem: Mnemonic::Clv, mode: AddrMode::Imp, cycles: 2 }),
        0xB9u8 => Some(InstrInfo { mnem: Mnemonic::Lda, mode: AddrMode::Aby, cycles: 4 }),
        0xBAu8 => Some(InstrInfo { mnem: Mnemonic::Tsx, mode: AddrMode::Imp, cycles: 2 }),
        0xBCu8 => Some(InstrInfo { mnem: Mnemonic::Ldy, mode: AddrMode::Abx, cycles: 4 }),
        0xBDu8 => Some(InstrInfo { mnem: Mnemonic::Lda, mode: AddrMode::Abx, cycles: 4 }),
        0xBEu8 => Some(InstrInfo { mnem: Mnemonic::Ldx, mode: AddrMode::Aby, cycles: 4 }),
        0xC0u8 => Some(InstrInfo { mnem: Mnemonic::Cpy, mode: AddrMode::Imm, cycles: 2 }),
        0xC1u8 => Some(InstrInfo { mnem: Mnemonic::Cmp, mode: AddrMode::Izx, cycles: 6 }),
        0xC4u8 => Some(InstrInfo { mnem: Mnemonic::Cpy, mode: AddrMode::Zp, cycles: 3 }),
        0xC5u8 => Some(InstrInfo { mnem: Mnemonic::Cmp, mode: AddrMode::Zp, cycles: 3 }),
        0xC6u8 => Some(InstrInfo { mnem: Mnemonic::Dec, mode: AddrMode::Zp, cycles: 5 }),
        0xC8u8 => Some(InstrInfo { mnem: Mnemonic::Iny, mode: AddrMode::Imp, cycles: 2 }),
        0xC9u8 => Some(InstrInfo { mnem: Mnemonic::Cmp, mode: AddrMode::Imm, cycles: 2 }),
        0xCAu8 => Some(InstrInfo { mnem: Mnemonic::Dex, mode: AddrMode::Imp, cycles: 2 }),
        0xCCu8 => Some(InstrInfo { mnem: Mnemonic::Cpy, mode: AddrMode::Abs, cycles: 4 }),
        0xCDu8 => Some(InstrInfo { mnem: Mnemonic::Cmp, mode: AddrMode::Abs, cycles: 4 }),
        0xCEu8 => Some(InstrInfo { mnem: Mnemonic::Dec, mode: AddrMode::Abs, cycles: 6 }),
        0xD0u8 => Some(InstrInfo { mnem: Mnemonic::Bne, mode: AddrMode::Rel, cycles: 2 }),
        0xD1u8 => Some(InstrInfo { mnem: Mnemonic::Cmp, mode: AddrMode::Izy, cycles: 5 }),
        0xD5u8 => Some(InstrInfo { mnem: Mnemonic::Cmp, mode: AddrMode::Zpx, cycles: 4 }),
        0xD6u8 => Some(InstrInfo { mnem: Mnemonic::Dec, mode: AddrMode::Zpx, cycles: 6 }),
        0xD8u8 => Some(InstrInfo { mnem: Mnemonic::Cld, mode: AddrMode::Imp, cycles: 2 }),
        0xD9u8 => Some(InstrInfo { mnem: Mnemonic::Cmp, mode: AddrMode::Aby, cycles: 4 }),
        0xDDu8 => Some(InstrInfo { mnem: Mnemonic::Cmp, mode: AddrMode::Abx, cycles: 4 }),
        0xDEu8 => Some(InstrInfo { mnem: Mnemonic::Dec, mode: AddrMode::Abx, cycles: 7 }),
        0xE0u8 => Some(InstrInfo { mnem: Mnemonic::Cpx, mode: AddrMode::Imm, cycles: 2 }),
        0xE1u8 => Some(InstrInfo { mnem: Mnemonic::Sbc, mode: AddrMode::Izx, cycles: 6 }),
        0xE4u8 => Some(InstrInfo { mnem: Mnemonic::Cpx, mode: AddrMode::Zp, cycles: 3 }),
        0xE5u8 => Some(InstrInfo { mnem: Mnemonic::Sbc, mode: AddrMode::Zp, cycles: 3 }),
        0xE6u8 => Some(InstrInfo { mnem: Mnemonic::Inc, mode: AddrMode::Zp, cycles: 5 }),
        0xE8u8 => Some(InstrInfo { mnem: Mnemonic::Inx, mode: AddrMode::Imp, cycles: 2 }),
        0xE9u8 => Some(InstrInfo { mnem: Mnemonic::Sbc, mode: AddrMode::Imm, cycles: 2 }),
        0xEAu8 => Some(InstrInfo { mnem: Mnemonic::Nop, mode: AddrMode::Imp, cycles: 2 }),
        0xECu8 => Some(InstrInfo { mnem: Mnemonic::Cpx, mode: AddrMode::Abs, cycles: 4 }),
        0xEDu8 => Some(InstrInfo { mnem: Mnemonic::Sbc, mode: AddrMode::Abs, cycles: 4 }),
        0xEEu8 => Some(InstrInfo { mnem: Mnemonic::Inc, mode: AddrMode::Abs, cycles: 6 }),
        0xF0u8 => Some(InstrInfo { mnem: Mnemonic::Beq, mode: AddrMode::Rel, cycles: 2 }),
        0xF1u8 => Some(InstrInfo { mnem: Mnemonic::Sbc, mode: AddrMode::Izy, cycles: 5 }),
        0xF5u8 => Some(InstrInfo { mnem: Mnemonic::Sbc, mode: AddrMode::Zpx, cycles: 4 }),
        0xF6u8 => Some(InstrInfo { mnem: Mnemonic::Inc, mode: AddrMode::Zpx, cycles: 6 }),
        0xF8u8 => Some(InstrInfo { mnem: Mnemonic::Sed, mode: AddrMode::Imp, cycles: 2 }),
        0xF9u8 => Some(InstrInfo { mnem: Mnemonic::Sbc, mode: AddrMode::Aby, cycles: 4 }),
        0xFDu8 => Some(InstrInfo { mnem: Mnemonic::Sbc, mode: AddrMode::Abx, cycles: 4 }),
        0xFEu8 => Some(InstrInfo { mnem: Mnemonic::Inc, mode: AddrMode::Abx, cycles: 7 }),
        0x04u8 => Some(InstrInfo { mnem: Mnemonic::Nop, mode: AddrMode::Zp, cycles: 3 }),
        0x0Cu8 => Some(InstrInfo { mnem: Mnemonic::Nop, mode: AddrMode::Abs, cycles: 4 }),
        0x14u8 => Some(InstrInfo { mnem: Mnemonic::Nop, mode: AddrMode::Zpx, cycles: 4 }),
        0x1Au8 => Some(InstrInfo { mnem: Mnemonic::Nop, mode: AddrMode::Imp, cycles: 2 }),
        0x1Cu8 => Some(InstrInfo { mnem: Mnemonic::Nop, mode: AddrMode::Abx, cycles: 4 }),
        0x34u8 => Some(InstrInfo { mnem: Mnemonic::Nop, mode: AddrMode::Zpx, cycles: 4 }),
        0x3Au8 => Some(InstrInfo { mnem: Mnemonic::Nop, mode: AddrMode::Imp, cycles: 2 }),
        0x3Cu8 => Some(InstrInfo { mnem: Mnemonic::Nop, mode: AddrMode::Abx, cycles: 4 }),
        0x44u8 => Some(InstrInfo { mnem: Mnemonic::Nop, mode: AddrMode::Zp, cycles: 3 }),
        0x54u8 => Some(InstrInfo { mnem: Mnemonic::Nop, mode: AddrMode::Zpx, cycles: 4 }),
        0x5Au8 => Some(InstrInfo { mnem: Mnemonic::Nop, mode: AddrMode::Imp, cycles: 2 }),
        0x5Cu8 => Some(InstrInfo { mnem: Mnemonic::Nop, mode: AddrMode::Abx, cycles: 4 }),
        0x64u8 => Some(InstrInfo { mnem: Mnemonic::Nop, mode: AddrMode::Zp, cycles: 3 }),
        0x74u8 => Some(InstrInfo { mnem: Mnemonic::Nop, mode: AddrMode::Zpx, cycles: 4 }),
        0x7Au8 => Some(InstrInfo { mnem: Mnemonic::Nop, mode: AddrMode::Imp, cycles: 2 }),
        0x7Cu8 => Some(InstrInfo { mnem: Mnemonic::Nop, mode: AddrMode::Abx, cycles: 4 }),
        0x80u8 => Some(InstrInfo { mnem: Mnemonic::Nop, mode: AddrMode::Imm, cycles: 2 }),
        0x82u8 => Some(InstrInfo { mnem: Mnemonic::Nop, mode: AddrMode::Imm, cycles: 2 }),
        0x89u8 => Some(InstrInfo { mnem: Mnemonic::Nop, mode: AddrMode::Imm, cycles: 2 }),
        0xC2u8 => Some(InstrInfo { mnem: Mnemonic::Nop, mode: AddrMode::Imm, cycles: 2 }),
        0xD4u8 => Some(InstrInfo { mnem: Mnemonic::Nop, mode: AddrMode::Zpx, cycles: 4 }),
        0xDAu8 => Some(InstrInfo { mnem: Mnemonic::Nop, mode: AddrMode::Imp, cycles: 2 }),
        0xDCu8 => Some(InstrInfo { mnem: Mnemonic::Nop, mode: AddrMode::Abx, cycles: 4 }),
        0xE2u8 => Some(InstrInfo { mnem: Mnemonic::Nop, mode: AddrMode::Imm, cycles: 2 }),
        0xF4u8 => Some(InstrInfo { mnem: Mnemonic::Nop, mode: AddrMode::Zpx, cycles: 4 }),
        0xFAu8 => Some(InstrInfo { mnem: Mnemonic::Nop, mode: AddrMode::Imp, cycles: 2 }),
        0xFCu8 => Some(InstrInfo { mnem: Mnemonic::Nop, mode: AddrMode::Abx, cycles: 4 }),
        _ => None,
    }
}

/// Decode one opcode byte. The result is exactly the table entry, so
/// decoding is deterministic: it depends on the byte alone.
pub fn decode(op: u8) -> (r: Option<InstrInfo>)
    ensures
        r == spec_decode(op),
{
    match op {
        0x00u8 => Some(InstrInfo { mnem: Mnemonic::Brk, mode: AddrMode::Imp, cycles: 7 }),
        0x01u8 => Some(InstrInfo { mnem: Mnemonic::Ora, mode: AddrMode::Izx, cycles: 6 }),
        0x05u8 => Some(InstrInfo { mnem: Mnemonic::Ora, mode: AddrMode::Zp, cycles: 3 }),
        0x06u8 => Some(InstrInfo { mnem: Mnemonic::Asl, mode: AddrMode::Zp, cycles: 5 }),
        0x08u8 => Some(InstrInfo { mnem: Mnemonic::Php, mode: AddrMode::Imp, cycles: 3 }),
        0x09u8 => Some(InstrInfo { mnem: Mnemonic::Ora, mode: AddrMode::Imm, cycles: 2 }),
        0x0Au8 => Some(InstrInfo { mnem: Mnemonic::Asl, mode: AddrMode::Acc, cycles: 2 }),
        0x0Du8 => Some(InstrInfo { mnem: Mnemonic::Ora, mode: AddrMode::Abs, cycles: 4 }),
        0x0Eu8 => Some(InstrInfo { mnem: Mnemonic::Asl, mode: AddrMode::Abs, cycles: 6 }),
        0x10u8 => Some(InstrInfo { mnem: Mnemonic::Bpl, mode: AddrMode::Rel, cycles: 2 }),
        0x11u8 => Some(InstrInfo { mnem: Mnemonic::Ora, mode: AddrMode::Izy, cycles: 5 }),
        0x15u8 => Some(InstrInfo { mnem: Mnemonic::Ora, mode: AddrMode::Zpx, cycles: 4 }),
        0x16u8 => Some(InstrInfo { mnem: Mnemonic::Asl, mode: AddrMode::Zpx, cycles: 6 }),
        0x18u8 => Some(InstrInfo { mnem: Mnemonic::Clc, mode: AddrMode::Imp, cycles: 2 }),
        0x19u8 => Some(InstrInfo { mnem: Mnemonic::Ora, mode: AddrMode::Aby, cycles: 4 }),
        0x1Du8 => Some(InstrInfo { mnem: Mnemonic::Ora, mode: AddrMode::Abx, cycles: 4 }),
        0x1Eu8 => Some(InstrInfo { mnem: Mnemonic::Asl, mode: AddrMode::Abx, cycles: 7 }),
        0x20u8 => Some(InstrInfo { mnem: Mnemonic::Jsr, mode: AddrMode::Abs, cycles: 6 }),
        0x21u8 => Some(InstrInfo { mnem: Mnemonic::And, mode: AddrMode::Izx, cycles: 6 }),
        0x24u8 => Some(InstrInfo { mnem: Mnemonic::Bit, mode: AddrMode::Zp, cycles: 3 }),
        0x25u8 => Some(InstrInfo { mnem: Mnemonic::And, mode: AddrMode::Zp, cycles: 3 }),
        0x26u8 => Some(InstrInfo { mnem: Mnemonic::Rol, mode: AddrMode::Zp, cycles: 5 }),
        0x28u8 => Some(InstrInfo { mnem: Mnemonic::Plp, mode: AddrMode::Imp, cycles: 4 }),
        0x29u8 => Some(InstrInfo { mnem: Mnemonic::And, mode: AddrMode::Imm, cycles: 2 }),
        0x2Au8 => Some(InstrInfo { mnem: Mnemonic::Rol, mode: AddrMode::Acc, cycles: 2 }),
        0x2Cu8 => Some(InstrInfo { mnem: Mnemonic::Bit, mode: AddrMode::Abs, cycles: 4 }),
        0x2Du8 => Some(InstrInfo { mnem: Mnemonic::And, mode: AddrMode::Abs, cycles: 4 }),
        0x2Eu8 => Some(InstrInfo { mnem: Mnemonic::Rol, mode: AddrMode::Abs, cycles: 6 }),
        0x30u8 => Some(InstrInfo { mnem: Mnemonic::Bmi, mode: AddrMode::Rel, cycles: 2 }),
        0x31u8 => Some(InstrInfo { mnem: Mnemonic::And, mode: AddrMode::Izy, cycles: 5 }),
        0x35u8 => Some(InstrInfo { mnem: Mnemonic::And, mode: AddrMode::Zpx, cycles: 4 }),
        0x36u8 => Some(InstrInfo { mnem: Mnemonic::Rol, mode: AddrMode::Zpx, cycles: 6 }),
        0x38u8 => Some(InstrInfo { mnem: Mnemonic::Sec, mode: AddrMode::Imp, cycles: 2 }),
        0x39u8 => Some(InstrInfo { mnem: Mnemonic::And, mode: AddrMode::Aby, cycles: 4 }),
        0x3Du8 => Some(InstrInfo { mnem: Mnemonic::And, mode: AddrMode::Abx, cycles: 4 }),
        0x3Eu8 => Some(InstrInfo { mnem: Mnemonic::Rol, mode: AddrMode::Abx, cycles: 7 }),
        0x40u8 => Some(InstrInfo { mnem: Mnemonic::Rti, mode: AddrMode::Imp, cycles: 6 }),
        0x41u8 => Some(InstrInfo { mnem: Mnemonic::Eor, mode: AddrMode::Izx, cycles: 6 }),
        0x45u8 => Some(InstrInfo { mnem: Mnemonic::Eor, mode: AddrMode::Zp, cycles: 3 }),
        0x46u8 => Some(InstrInfo { mnem: Mnemonic::Lsr, mode: AddrMode::Zp, cycles: 5 }),
        0x48u8 => Some(InstrInfo { mnem: Mnemonic::Pha, mode: AddrMode::Imp, cycles: 3 }),
        0x49u8 => Some(InstrInfo { mnem: Mnemonic::Eor, mode: AddrMode::Imm, cycles: 2 }),
        0x4Au8 => Some(InstrInfo { mnem: Mnemonic::Lsr, mode: AddrMode::Acc, cycles: 2 }),
        0x4Cu8 => Some(InstrInfo { mnem: Mnemonic::Jmp, mode: AddrMode::Abs, cycles: 3 }),
        0x4Du8 => Some(InstrInfo { mnem: Mnemonic::Eor, mode: AddrMode::Abs, cycles: 4 }),
        0x4Eu8 => Some(InstrInfo { mnem: Mnemonic::Lsr, mode: AddrMode::Abs, cycles: 6 }),
        0x50u8 => Some(InstrInfo { mnem: Mnemonic::Bvc, mode: AddrMode::Rel, cycles: 2 }),
        0x51u8 => Some(InstrInfo { mnem: Mnemonic::Eor, mode: AddrMode::Izy, cycles: 5 }),
        0x55u8 => Some(InstrInfo { mnem: Mnemonic::Eor, mode: AddrMode::Zpx, cycles: 4 }),
        0x56u8 => Some(InstrInfo { mnem: Mnemonic::Lsr, mode: AddrMode::Zpx, cycles: 6 }),
        0x58u8 => Some(InstrInfo { mnem: Mnemonic::Cli, mode: AddrMode::Imp, cycles: 2 }),
        0x59u8 => Some(InstrInfo { mnem: Mnemonic::Eor, mode: AddrMode::Aby, cycles: 4 }),
        0x5Du8 => Some(InstrInfo { mnem: Mnemonic::Eor, mode: AddrMode::Abx, cycles: 4 }),
        0x5Eu8 => Some(InstrInfo { mnem: Mnemonic::Lsr, mode: AddrMode::Abx, cycles: 7 }),
        0x60u8 => Some(InstrInfo { mnem: Mnemonic::Rts, mode: AddrMode::Imp, cycles: 6 }),
        0x61u8 => Some(InstrInfo { mnem: Mnemonic::Adc, mode: AddrMode::Izx, cycles: 6 }),
        0x65u8 => Some(InstrInfo { mnem: Mnemonic::Adc, mode: AddrMode::Zp, cycles: 3 }),
        0x66u8 => Some(InstrInfo { mnem: Mnemonic::Ror, mode: AddrMode::Zp, cycles: 5 }),
        0x68u8 => Some(InstrInfo { mnem: Mnemonic::Pla, mode: AddrMode::Imp, cycles: 4 }),
        0x69u8 => Some(InstrInfo { mnem: Mnemonic::Adc, mode: AddrMode::Imm, cycles: 2 }),
        0x6Au8 => Some(InstrInfo { mnem: Mnemonic::Ror, mode: AddrMode::Acc, cycles: 2 }),
        0x6Cu8 => Some(InstrInfo { mnem: Mnemonic::Jmp, mode: AddrMode::Ind, cycles: 5 }),
        0x6Du8 => Some(InstrInfo { mnem: Mnemonic::Adc, mode: AddrMode::Abs, cycles: 4 }),
        0x6Eu8 => Some(InstrInfo { mnem: Mnemonic::Ror, mode: AddrMode::Abs, cycles: 6 }),
        0x70u8 => Some(InstrInfo { mnem: Mnemonic::Bvs, mode: AddrMode::Rel, cycles: 2 }),
        0x71u8 => Some(InstrInfo { mnem: Mnemonic::Adc, mode: AddrMode::Izy, cycles: 5 }),
        0x75u8 => Some(InstrInfo { mnem: Mnemonic::Adc, mode: AddrMode::Zpx, cycles: 4 }),
        0x76u8 => Some(InstrInfo { mnem: Mnemonic::Ror, mode: AddrMode::Zpx, cycles: 6 }),
        0x78u8 => Some(InstrInfo { mnem: Mnemonic::Sei, mode: AddrMode::Imp, cycles: 2 }),
        0x79u8 => Some(InstrInfo { mnem: Mnemonic::Adc, mode: AddrMode::Aby, cycles: 4 }),
        0x7Du8 => Some(InstrInfo { mnem: Mnemonic::Adc, mode: AddrMode::Abx, cycles: 4 }),
        0x7Eu8 => Some(InstrInfo { mnem: Mnemonic::Ror, mode: AddrMode::Abx, cycles: 7 }),
        0x81u8 => Some(InstrInfo { mnem: Mnemonic::Sta, mode: AddrMode::Izx, cycles: 6 }),
        0x84u8 => Some(InstrInfo { mnem: Mnemonic::Sty, mode: AddrMode::Zp, cycles: 3 }),
        0x85u8 => Some(InstrInfo { mnem: Mnemonic::Sta, mode: AddrMode::Zp, cycles: 3 }),
        0x86u8 => Some(InstrInfo { mnem: Mnemonic::Stx, mode: AddrMode::Zp, cycles: 3 }),
        0x88u8 => Some(InstrInfo { mnem: Mnemonic::Dey, mode: AddrMode::Imp, cycles: 2 }),
        0x8Au8 => Some(InstrInfo { mnem: Mnemonic::Txa, mode: AddrMode::Imp, cycles: 2 }),
        0x8Cu8 => Some(InstrInfo { mnem: Mnemonic::Sty, mode: AddrMode::Abs, cycles: 4 }),
        0x8Du8 => Some(InstrInfo { mnem: Mnemonic::Sta, mode: AddrMode::Abs, cycles: 4 }),
        0x8Eu8 => Some(InstrInfo { mnem: Mnemonic::Stx, mode: AddrMode::Abs, cycles: 4 }),
        0x90u8 => Some(InstrInfo { mnem: Mnemonic::Bcc, mode: AddrMode::Rel, cycles: 2 }),
        0x91u8 => Some(InstrInfo { mnem: Mnemonic::Sta, mode: AddrMode::Izy, cycles: 6 }),
        0x94u8 => Some(InstrInfo { mnem: Mnemonic::Sty, mode: AddrMode::Zpx, cycles: 4 }),
        0x95u8 => Some(InstrInfo { mnem: Mnemonic::Sta, mode: AddrMode::Zpx, cycles: 4 }),
        0x96u8 => Some(InstrInfo { mnem: Mnemonic::Stx, mode: AddrMode::Zpy, cycles: 4 }),
        0x98u8 => Some(InstrInfo { mnem: Mnemonic::Tya, mode: AddrMode::Imp, cycles: 2 }),
        0x99u8 => Some(InstrInfo { mnem: Mnemonic::Sta, mode: AddrMode::Aby, cycles: 5 }),
        0x9Au8 => Some(InstrInfo { mnem: Mnemonic::Txs, mode: AddrMode::Imp, cycles: 2 }),
        0x9Du8 => Some(InstrInfo { mnem: Mnemonic::Sta, mode: AddrMode::Abx, cycles: 5 }),
        0xA0u8 => Some(InstrInfo { mnem: Mnemonic::Ldy, mode: AddrMode::Imm, cycles: 2 }),
        0xA1u8 => Some(InstrInfo { mnem: Mnemonic::Lda, mode: AddrMode::Izx, cycles: 6 }),
        0xA2u8 => Some(InstrInfo { mnem: Mnemonic::Ldx, mode: AddrMode::Imm, cycles: 2 }),
        0xA4u8 => Some(InstrInfo { mnem: Mnemonic::Ldy, mode: AddrMode::Zp, cycles: 3 }),
        0xA5u8 => Some(InstrInfo { mnem: Mnemonic::Lda, mode: AddrMode::Zp, cycles: 3 }),
        0xA6u8 => Some(InstrInfo { mnem: Mnemonic::Ldx, mode: AddrMode::Zp, cycles: 3 }),
        0xA8u8 => Some(InstrInfo { mnem: Mnemonic::Tay, mode: AddrMode::Imp, cycles: 2 }),
        0xA9u8 => Some(InstrInfo { mnem: Mnemonic::Lda, mode: AddrMode::Imm, cycles: 2 }),
        0xAAu8 => Some(InstrInfo { mnem: Mnemonic::Tax, mode: AddrMode::Imp, cycles: 2 }),
        0xACu8 => Some(InstrInfo { mnem: Mnemonic::Ldy, mode: AddrMode::Abs, cycles: 4 }),
        0xADu8 => Some(InstrInfo { mnem: Mnemonic::Lda, mode: AddrMode::Abs, cycles: 4 }),
        0xAEu8 => Some(InstrInfo { mnem: Mnemonic::Ldx, mode: AddrMode::Abs, cycles: 4 }),
        0xB0u8 => Some(InstrInfo { mnem: Mnemonic::Bcs, mode: AddrMode::Rel, cycles: 2 }),
        0xB1u8 => Some(InstrInfo { mnem: Mnemonic::Lda, mode: AddrMode::Izy, cycles: 5 }),
        0xB4u8 => Some(InstrInfo { mnem: Mnemonic::Ldy, mode: AddrMode::Zpx, cycles: 4 }),
        0xB5u8 => Some(InstrInfo { mnem: Mnemonic::Lda, mode: AddrMode::Zpx, cycles: 4 }),
        0xB6u8 => Some(InstrInfo { mnem: Mnemonic::Ldx, mode: AddrMode::Zpy, cycles: 4 }),
        0xB8u8 => Some(InstrInfo { mnem: Mnemonic::Clv, mode: AddrMode::Imp, cycles: 2 }),
        0xB9u8 => Some(InstrInfo { mnem: Mnemonic::Lda, mode: AddrMode::Aby, cycles: 4 }),
        0xBAu8 => Some(InstrInfo { mnem: Mnemonic::Tsx, mode: AddrMode::Imp, cycles: 2 }),
        0xBCu8 => Some(InstrInfo { mnem: Mnemonic::Ldy, mode: AddrMode::Abx, cycles: 4 }),
        0xBDu8 => Some(InstrInfo { mnem: Mnemonic::Lda, mode: AddrMode::Abx, cycles: 4 }),
        0xBEu8 => Some(InstrInfo { mnem: Mnemonic::Ldx, mode: AddrMode::Aby, cycles: 4 }),
        0xC0u8 => Some(InstrInfo { mnem: Mnemonic::Cpy, mode: AddrMode::Imm, cycles: 2 }),
        0xC1u8 => Some(InstrInfo { mnem: Mnemonic::Cmp, mode: AddrMode::Izx, cycles: 6 }),
        0xC4u8 => Some(InstrInfo { mnem: Mnemonic::Cpy, mode: AddrMode::Zp, cycles: 3 }),
        0xC5u8 => Some(InstrInfo { mnem: Mnemonic::Cmp, mode: AddrMode::Zp, cycles: 3 }),
        0xC6u8 => Some(InstrInfo { mnem: Mnemonic::Dec, mode: AddrMode::Zp, cycles: 5 }),
        0xC8u8 => Some(InstrInfo { mnem: Mnemonic::Iny, mode: AddrMode::Imp, cycles: 2 }),
        0xC9u8 => Some(InstrInfo { mnem: Mnemonic::Cmp, mode: AddrMode::Imm, cycles: 2 }),
        0xCAu8 => Some(InstrInfo { mnem: Mnemonic::Dex, mode: AddrMode::Imp, cycles: 2 }),
        0xCCu8 => Some(InstrInfo { mnem: Mnemonic::Cpy, mode: AddrMode::Abs, cycles: 4 }),
        0xCDu8 => Some(InstrInfo { mnem: Mnemonic::Cmp, mode: AddrMode::Abs, cycles: 4 }),
        0xCEu8 => Some(InstrInfo { mnem: Mnemonic::Dec, mode: AddrMode::Abs, cycles: 6 }),
        0xD0u8 => Some(InstrInfo { mnem: Mnemonic::Bne, mode: AddrMode::Rel, cycles: 2 }),
        0xD1u8 => Some(InstrInfo { mnem: Mnemonic::Cmp, mode: AddrMode::Izy, cycles: 5 }),
        0xD5u8 => Some(InstrInfo { mnem: Mnemonic::Cmp, mode: AddrMode::Zpx, cycles: 4 }),
        0xD6u8 => Some(InstrInfo { mnem: Mnemonic::Dec, mode: AddrMode::Zpx, cycles: 6 }),
        0xD8u8 => Some(InstrInfo { mnem: Mnemonic::Cld, mode: AddrMode::Imp, cycles: 2 }),
        0xD9u8 => Some(InstrInfo { mnem: Mnemonic::Cmp, mode: AddrMode::Aby, cycles: 4 }),
        0xDDu8 => Some(InstrInfo { mnem: Mnemonic::Cmp, mode: AddrMode::Abx, cycles: 4 }),
        0xDEu8 => Some(InstrInfo { mnem: Mnemonic::Dec, mode: AddrMode::Abx, cycles: 7 }),
        0xE0u8 => Some(InstrInfo { mnem: Mnemonic::Cpx, mode: AddrMode::Imm, cycles: 2 }),
        0xE1u8 => Some(InstrInfo { mnem: Mnemonic::Sbc, mode: AddrMode::Izx, cycles: 6 }),
        0xE4u8 => Some(InstrInfo { mnem: Mnemonic::Cpx, mode: AddrMode::Zp, cycles: 3 }),
        0xE5u8 => Some(InstrInfo { mnem: Mnemonic::Sbc, mode: AddrMode::Zp, cycles: 3 }),
        0xE6u8 => Some(InstrInfo { mnem: Mnemonic::Inc, mode: AddrMode::Zp, cycles: 5 }),
        0xE8u8 => Some(InstrInfo { mnem: Mnemonic::Inx, mode: AddrMode::Imp, cycles: 2 }),
        0xE9u8 => Some(InstrInfo { mnem: Mnemonic::Sbc, mode: AddrMode::Imm, cycles: 2 }),
        0xEAu8 => Some(InstrInfo { mnem: Mnemonic::Nop, mode: AddrMode::Imp, cycles: 2 }),
        0xECu8 => Some(InstrInfo { mnem: Mnemonic::Cpx, mode: AddrMode::Abs, cycles: 4 }),
        0xEDu8 => Some(InstrInfo { mnem: Mnemonic::Sbc, mode: AddrMode::Abs, cycles: 4 }),
        0xEEu8 => Some(InstrInfo { mnem: Mnemonic::Inc, mode: AddrMode::Abs, cycles: 6 }),
        0xF0u8 => Some(InstrInfo { mnem: Mnemonic::Beq, mode: AddrMode::Rel, cycles: 2 }),
        0xF1u8 => Some(InstrInfo { mnem: Mnemonic::Sbc, mode: AddrMode::Izy, cycles: 5 }),
        0xF5u8 => Some(InstrInfo { mnem: Mnemonic::Sbc, mode: AddrMode::Zpx, cycles: 4 }),
        0xF6u8 => Some(InstrInfo { mnem: Mnemonic::Inc, mode: AddrMode::Zpx, cycles: 6 }),
        0xF8u8 => Some(InstrInfo { mnem: Mnemonic::Sed, mode: AddrMode::Imp, cycles: 2 }),
        0xF9u8 => Some(InstrInfo { mnem: Mnemonic::Sbc, mode: AddrMode::Aby, cycles: 4 }),
        0xFDu8 => Some(InstrInfo { mnem: Mnemonic::Sbc, mode: AddrMode::Abx, cycles: 4 }),
        0xFEu8 => Some(InstrInfo { mnem: Mnemonic::Inc, mode: AddrMode::Abx, cycles: 7 }),
        0x04u8 => Some(InstrInfo { mnem: Mnemonic::Nop, mode: AddrMode::Zp, cycles: 3 }),
        0x0Cu8 => Some(InstrInfo { mnem: Mnemonic::Nop, mode: AddrMode::Abs, cycles: 4 }),
        0x14u8 => Some(InstrInfo { mnem: Mnemonic::Nop, mode: AddrMode::Zpx, cycles: 4 }),
        0x1Au8 => Some(InstrInfo { mnem: Mnemonic::Nop, mode: AddrMode::Imp, cycles: 2 }),
        0x1Cu8 => Some(InstrInfo { mnem: Mnemonic::Nop, mode: AddrMode::Abx, cycles: 4 }),
        0x34u8 => Some(InstrInfo { mnem: Mnemonic::Nop, mode: AddrMode::Zpx, cycles: 4 }),
        0x3Au8 => Some(InstrInfo { mnem: Mnemonic::Nop, mode: AddrMode::Imp, cycles: 2 }),
        0x3Cu8 => Some(InstrInfo { mnem: Mnemonic::Nop, mode: AddrMode::Abx, cycles: 4 }),
        0x44u8 => Some(InstrInfo { mnem: Mnemonic::Nop, mode: AddrMode::Zp, cycles: 3 }),
        0x54u8 => Some(InstrInfo { mnem: Mnemonic::Nop, mode: AddrMode::Zpx, cycles: 4 }),
        0x5Au8 => Some(InstrInfo { mnem: Mnemonic::Nop, mode: AddrMode::Imp, cycles: 2 }),
        0x5Cu8 => Some(InstrInfo { mnem: Mnemonic::Nop, mode: AddrMode::Abx, cycles: 4 }),
        0x64u8 => Some(InstrInfo { mnem: Mnemonic::Nop, mode: AddrMode::Zp, cycles: 3 }),
        0x74u8 => Some(InstrInfo { mnem: Mnemonic::Nop, mode: AddrMode::Zpx, cycles: 4 }),
        0x7Au8 => Some(InstrInfo { mnem: Mnemonic::Nop, mode: AddrMode::Imp, cycles: 2 }),
        0x7Cu8 => Some(InstrInfo { mnem: Mnemonic::Nop, mode: AddrMode::Abx, cycles: 4 }),
        0x80u8 => Some(InstrInfo { mnem: Mnemonic::Nop, mode: AddrMode::Imm, cycles: 2 }),
        0x82u8 => Some(InstrInfo { mnem: Mnemonic::Nop, mode: AddrMode::Imm, cycles: 2 }),
        0x89u8 => Some(InstrInfo { mnem: Mnemonic::Nop, mode: AddrMode::Imm, cycles: 2 }),
        0xC2u8 => Some(InstrInfo { mnem: Mnemonic::Nop, mode: AddrMode::Imm, cycles: 2 }),
        0xD4u8 => Some(InstrInfo { mnem: Mnemonic::Nop, mode: AddrMode::Zpx, cycles: 4 }),
        0xDAu8 => Some(InstrInfo { mnem: Mnemonic::Nop, mode: AddrMode::Imp, cycles: 2 }),
        0xDCu8 => Some(InstrInfo { mnem: Mnemonic::Nop, mode: AddrMode::Abx, cycles: 4 }),
        0xE2u8 => Some(InstrInfo { mnem: Mnemonic::Nop, mode: AddrMode::Imm, cycles: 2 }),
        0xF4u8 => Some(InstrInfo { mnem: Mnemonic::Nop, mode: AddrMode::Zpx, cycles: 4 }),
        0xFAu8 => Some(InstrInfo { mnem: Mnemonic::Nop, mode: AddrMode::Imp, cycles: 2 }),
        0xFCu8 => Some(InstrInfo { mnem: Mnemonic::Nop, mode: AddrMode::Abx, cycles: 4 }),
        _ => None,
    }
}

/// How many operand bytes follow the opcode byte in each mode.
pub open spec fn spec_operand_len(mode: AddrMode) -> int {
    match mode {
        AddrMode::Imp => 0,
        AddrMode::Acc => 0,
        AddrMode::Imm => 1,
        AddrMode::Zp => 1,
        AddrMode::Zpx => 1,
        AddrMode::Zpy => 1,
        AddrMode::Abs => 2,
        AddrMode::Abx => 2,
        AddrMode::Aby => 2,
        AddrMode::Izx => 1,
        AddrMode::Izy => 1,
        AddrMode::Ind => 2,
        AddrMode::Rel => 1,
    }
}

/// Decoding the same opcode byte twice yields the same addressing mode
/// and base cycle cost: decode is pure, a function of the byte alone.
pub proof fn lemma_decode_deterministic(op: u8, a: Option<InstrInfo>, b: Option<InstrInfo>)
    requires
        a == spec_decode(op),
        b == spec_decode(op),
    ensures
        a == b,
{
}


/// Mode shapes the table guarantees per mnemonic: enough for the
/// interpreter to resolve each instruction's operand.
pub open spec fn spec_instr_wf(i: InstrInfo) -> bool {
    match i.mnem {
        Mnemonic::Lda | Mnemonic::Ldx | Mnemonic::Ldy | Mnemonic::Adc | Mnemonic::Sbc
            | Mnemonic::Cmp | Mnemonic::Cpx | Mnemonic::Cpy | Mnemonic::And | Mnemonic::Ora
            | Mnemonic::Eor | Mnemonic::Bit => !(i.mode is Imp) && !(i.mode is Rel) && !(
        i.mode is Ind),
        Mnemonic::Nop => !(i.mode is Rel) && !(i.mode is Ind),
        Mnemonic::Sta | Mnemonic::Stx | Mnemonic::Sty | Mnemonic::Inc | Mnemonic::Dec => !(
        i.mode is Imp) && !(i.mode is Rel) && !(i.mode is Ind) && !(i.mode is Imm) && !(
        i.mode is Acc),
        Mnemonic::Asl | Mnemonic::Lsr | Mnemonic::Rol | Mnemonic::Ror => !(i.mode is Imp) && !(
        i.mode is Rel) && !(i.mode is Ind) && !(i.mode is Imm),
        Mnemonic::Jmp => i.mode is Abs || i.mode is Ind,
        _ => true,
    }
}

/// Every entry of the decode table satisfies the mode-shape
/// guarantee.
#[verifier::rlimit(100)]
pub proof fn lemma_decode_wf(op: u8)
    ensures
        spec_decode(op) is Some ==> spec_instr_wf(spec_decode(op)->0),
{
}


} // verus!
