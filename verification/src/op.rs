//! The 6502 instruction model: every one of the 256 byte values corresponds
//! to exactly one instruction variant carrying its typed operand.
//!
//! The model exposes the instruction length, the official/unofficial split,
//! read/write/branch/flow predicates, the abstract post-execution program
//! counter behaviour, and the byte-level encoding and decoding that are
//! proved to be mutually inverse.

use vstd::prelude::*;
use vstd::arithmetic::div_mod::lemma_fundamental_div_mod;

use crate::address::{Address, ZpAddress};

verus! {

/// A CPU instruction together with its operand.
#[derive(Clone, Copy, Debug, PartialEq, Eq, Structural)]
pub enum Op {
    // 0x00
    Brk,
    OraIndX(ZpAddress),
    Kil02,
    SloIndX(ZpAddress),
    NopZp04(ZpAddress),
    OraZp(ZpAddress),
    AslZp(ZpAddress),
    SloZp(ZpAddress),
    Php,
    OraImm(u8),
    AslAcc,
    Anc0B(u8),
    NopAbs(Address),
    OraAbs(Address),
    AslAbs(Address),
    SloAbs(Address),
    // 0x10
    Bpl(i8),
    OraIndY(ZpAddress),
    Kil12,
    SloIndY(ZpAddress),
    NopZpX14(ZpAddress),
    OraZpX(ZpAddress),
    AslZpX(ZpAddress),
    SloZpX(ZpAddress),
    Clc,
    OraAbsY(Address),
    Nop1A,
    SloAbsY(Address),
    NopAbsX1C(Address),
    OraAbsX(Address),
    AslAbsX(Address),
    SloAbsX(Address),
    // 0x20
    Jsr(Address),
    AndIndX(ZpAddress),
    Kil22,
    RlaIndX(ZpAddress),
    BitZp(ZpAddress),
    AndZp(ZpAddress),
    RolZp(ZpAddress),
    RlaZp(ZpAddress),
    Plp,
    AndImm(u8),
    RolAcc,
    Anc2B(u8),
    BitAbs(Address),
    AndAbs(Address),
    RolAbs(Address),
    RlaAbs(Address),
    // 0x30
    Bmi(i8),
    AndIndY(ZpAddress),
    Kil32,
    RlaIndY(ZpAddress),
    NopZpX34(ZpAddress),
    AndZpX(ZpAddress),
    RolZpX(ZpAddress),
    RlaZpX(ZpAddress),
    Sec,
    AndAbsY(Address),
    Nop3A,
    RlaAbsY(Address),
    NopAbsX3C(Address),
    AndAbsX(Address),
    RolAbsX(Address),
    RlaAbsX(Address),
    // 0x40
    Rti,
    EorIndX(ZpAddress),
    Kil42,
    SreIndX(ZpAddress),
    NopZp44(ZpAddress),
    EorZp(ZpAddress),
    LsrZp(ZpAddress),
    SreZp(ZpAddress),
    Pha,
    EorImm(u8),
    LsrAcc,
    Alr(u8),
    JmpAbs(Address),
    EorAbs(Address),
    LsrAbs(Address),
    SreAbs(Address),
    // 0x50
    Bvc(i8),
    EorIndY(ZpAddress),
    Kil52,
    SreIndY(ZpAddress),
    NopZpX54(ZpAddress),
    EorZpX(ZpAddress),
    LsrZpX(ZpAddress),
    SreZpX(ZpAddress),
    Cli,
    EorAbsY(Address),
    Nop5A,
    SreAbsY(Address),
    NopAbsX5C(Address),
    EorAbsX(Address),
    LsrAbsX(Address),
    SreAbsX(Address),
    // 0x60
    Rts,
    AdcIndX(ZpAddress),
    Kil62,
    RraIndX(ZpAddress),
    NopZp64(ZpAddress),
    AdcZp(ZpAddress),
    RorZp(ZpAddress),
    RraZp(ZpAddress),
    Pla,
    AdcImm(u8),
    RorAcc,
    Arr(u8),
    JmpInd(Address),
    AdcAbs(Address),
    RorAbs(Address),
    RraAbs(Address),
    // 0x70
    Bvs(i8),
    AdcIndY(ZpAddress),
    Kil72,
    RraIndY(ZpAddress),
    NopZpX74(ZpAddress),
    AdcZpX(ZpAddress),
    RorZpX(ZpAddress),
    RraZpX(ZpAddress),
    Sei,
    AdcAbsY(Address),
    Nop7A,
    RraAbsY(Address),
    NopAbsX7C(Address),
    AdcAbsX(Address),
    RorAbsX(Address),
    RraAbsX(Address),
    // 0x80
    NopImm80(u8),
    StaIndX(ZpAddress),
    NopImm82(u8),
    SaxIndX(ZpAddress),
    StyZp(ZpAddress),
    StaZp(ZpAddress),
    StxZp(ZpAddress),
    SaxZp(ZpAddress),
    Dey,
    NopImm89(u8),
    Txa,
    Xaa(u8),
    StyAbs(Address),
    StaAbs(Address),
    StxAbs(Address),
    SaxAbs(Address),
    // 0x90
    Bcc(i8),
    StaIndY(ZpAddress),
    Kil92,
    AhxIndY(ZpAddress),
    StyZpX(ZpAddress),
    StaZpX(ZpAddress),
    StxZpY(ZpAddress),
    SaxZpY(ZpAddress),
    Tya,
    StaAbsY(Address),
    Txs,
    Tas(Address),
    Shy(Address),
    StaAbsX(Address),
    Shx(Address),
    AhxAbsY(Address),
    // 0xA0
    LdyImm(u8),
    LdaIndX(ZpAddress),
    LdxImm(u8),
    LaxIndX(ZpAddress),
    LdyZp(ZpAddress),
    LdaZp(ZpAddress),
    LdxZp(ZpAddress),
    LaxZp(ZpAddress),
    Tay,
    LdaImm(u8),
    Tax,
    LaxImm(u8),
    LdyAbs(Address),
    LdaAbs(Address),
    LdxAbs(Address),
    LaxAbs(Address),
    // 0xB0
    Bcs(i8),
    LdaIndY(ZpAddress),
    KilB2,
    LaxIndY(ZpAddress),
    LdyZpX(ZpAddress),
    LdaZpX(ZpAddress),
    LdxZpY(ZpAddress),
    LaxZpY(ZpAddress),
    Clv,
    LdaAbsY(Address),
    Tsx,
    Las(Address),
    LdyAbsX(Address),
    LdaAbsX(Address),
    LdxAbsY(Address),
    LaxAbsY(Address),
    // 0xC0
    CpyImm(u8),
    CmpIndX(ZpAddress),
    NopImmC2(u8),
    DcpIndX(ZpAddress),
    CpyZp(ZpAddress),
    CmpZp(ZpAddress),
    DecZp(ZpAddress),
    DcpZp(ZpAddress),
    Iny,
    CmpImm(u8),
    Dex,
    Axs(u8),
    CpyAbs(Address),
    CmpAbs(Address),
    DecAbs(Address),
    DcpAbs(Address),
    // 0xD0
    Bne(i8),
    CmpIndY(ZpAddress),
    KilD2,
    DcpIndY(ZpAddress),
    NopZpXD4(ZpAddress),
    CmpZpX(ZpAddress),
    DecZpX(ZpAddress),
    DcpZpX(ZpAddress),
    Cld,
    CmpAbsY(Address),
    NopDA,
    DcpAbsY(Address),
    NopAbsXDC(Address),
    CmpAbsX(Address),
    DecAbsX(Address),
    DcpAbsX(Address),
    // 0xE0
    CpxImm(u8),
    SbcIndX(ZpAddress),
    NopImmE2(u8),
    IscIndX(ZpAddress),
    CpxZp(ZpAddress),
    SbcZp(ZpAddress),
    IncZp(ZpAddress),
    IscZp(ZpAddress),
    Inx,
    SbcImmE9(u8),
    NopEA,
    SbcImmEB(u8),
    CpxAbs(Address),
    SbcAbs(Address),
    IncAbs(Address),
    IscAbs(Address),
    // 0xF0
    Beq(i8),
    SbcIndY(ZpAddress),
    KilF2,
    IscIndY(ZpAddress),
    NopZpXF4(ZpAddress),
    SbcZpX(ZpAddress),
    IncZpX(ZpAddress),
    IscZpX(ZpAddress),
    Sed,
    SbcAbsY(Address),
    NopFA,
    IscAbsY(Address),
    NopAbsXFC(Address),
    SbcAbsX(Address),
    IncAbsX(Address),
    IscAbsX(Address),
}

impl Op {
    /// The opcode byte of the instruction.
    pub open spec fn spec_opcode(self) -> u8 {
        match self {
            Op::Brk => 0x00,
            Op::OraIndX(_) => 0x01,
            Op::Kil02 => 0x02,
            Op::SloIndX(_) => 0x03,
            Op::NopZp04(_) => 0x04,
            Op::OraZp(_) => 0x05,
            Op::AslZp(_) => 0x06,
            Op::SloZp(_) => 0x07,
            Op::Php => 0x08,
            Op::OraImm(_) => 0x09,
            Op::AslAcc => 0x0A,
            Op::Anc0B(_) => 0x0B,
            Op::NopAbs(_) => 0x0C,
            Op::OraAbs(_) => 0x0D,
            Op::AslAbs(_) => 0x0E,
            Op::SloAbs(_) => 0x0F,
            Op::Bpl(_) => 0x10,
            Op::OraIndY(_) => 0x11,
            Op::Kil12 => 0x12,
            Op::SloIndY(_) => 0x13,
            Op::NopZpX14(_) => 0x14,
            Op::OraZpX(_) => 0x15,
            Op::AslZpX(_) => 0x16,
            Op::SloZpX(_) => 0x17,
            Op::Clc => 0x18,
            Op::OraAbsY(_) => 0x19,
            Op::Nop1A => 0x1A,
            Op::SloAbsY(_) => 0x1B,
            Op::NopAbsX1C(_) => 0x1C,
            Op::OraAbsX(_) => 0x1D,
            Op::AslAbsX(_) => 0x1E,
            Op::SloAbsX(_) => 0x1F,
            Op::Jsr(_) => 0x20,
            Op::AndIndX(_) => 0x21,
            Op::Kil22 => 0x22,
            Op::RlaIndX(_) => 0x23,
            Op::BitZp(_) => 0x24,
            Op::AndZp(_) => 0x25,
            Op::RolZp(_) => 0x26,
            Op::RlaZp(_) => 0x27,
            Op::Plp => 0x28,
            Op::AndImm(_) => 0x29,
            Op::RolAcc => 0x2A,
            Op::Anc2B(_) => 0x2B,
            Op::BitAbs(_) => 0x2C,
            Op::AndAbs(_) => 0x2D,
            Op::RolAbs(_) => 0x2E,
            Op::RlaAbs(_) => 0x2F,
            Op::Bmi(_) => 0x30,
            Op::AndIndY(_) => 0x31,
            Op::Kil32 => 0x32,
            Op::RlaIndY(_) => 0x33,
            Op::NopZpX34(_) => 0x34,
            Op::AndZpX(_) => 0x35,
            Op::RolZpX(_) => 0x36,
            Op::RlaZpX(_) => 0x37,
            Op::Sec => 0x38,
            Op::AndAbsY(_) => 0x39,
            Op::Nop3A => 0x3A,
            Op::RlaAbsY(_) => 0x3B,
            Op::NopAbsX3C(_) => 0x3C,
            Op::AndAbsX(_) => 0x3D,
            Op::RolAbsX(_) => 0x3E,
            Op::RlaAbsX(_) => 0x3F,
            Op::Rti => 0x40,
            Op::EorIndX(_) => 0x41,
            Op::Kil42 => 0x42,
            Op::SreIndX(_) => 0x43,
            Op::NopZp44(_) => 0x44,
            Op::EorZp(_) => 0x45,
            Op::LsrZp(_) => 0x46,
            Op::SreZp(_) => 0x47,
            Op::Pha => 0x48,
            Op::EorImm(_) => 0x49,
            Op::LsrAcc => 0x4A,
            Op::Alr(_) => 0x4B,
            Op::JmpAbs(_) => 0x4C,
            Op::EorAbs(_) => 0x4D,
            Op::LsrAbs(_) => 0x4E,
            Op::SreAbs(_) => 0x4F,
            Op::Bvc(_) => 0x50,
            Op::EorIndY(_) => 0x51,
            Op::Kil52 => 0x52,
            Op::SreIndY(_) => 0x53,
            Op::NopZpX54(_) => 0x54,
            Op::EorZpX(_) => 0x55,
            Op::LsrZpX(_) => 0x56,
            Op::SreZpX(_) => 0x57,
            Op::Cli => 0x58,
            Op::EorAbsY(_) => 0x59,
            Op::Nop5A => 0x5A,
            Op::SreAbsY(_) => 0x5B,
            Op::NopAbsX5C(_) => 0x5C,
            Op::EorAbsX(_) => 0x5D,
            Op::LsrAbsX(_) => 0x5E,
            Op::SreAbsX(_) => 0x5F,
            Op::Rts => 0x60,
            Op::AdcIndX(_) => 0x61,
            Op::Kil62 => 0x62,
            Op::RraIndX(_) => 0x63,
            Op::NopZp64(_) => 0x64,
            Op::AdcZp(_) => 0x65,
            Op::RorZp(_) => 0x66,
            Op::RraZp(_) => 0x67,
            Op::Pla => 0x68,
            Op::AdcImm(_) => 0x69,
            Op::RorAcc => 0x6A,
            Op::Arr(_) => 0x6B,
            Op::JmpInd(_) => 0x6C,
            Op::AdcAbs(_) => 0x6D,
            Op::RorAbs(_) => 0x6E,
            Op::RraAbs(_) => 0x6F,
            Op::Bvs(_) => 0x70,
            Op::AdcIndY(_) => 0x71,
            Op::Kil72 => 0x72,
            Op::RraIndY(_) => 0x73,
            Op::NopZpX74(_) => 0x74,
            Op::AdcZpX(_) => 0x75,
            Op::RorZpX(_) => 0x76,
            Op::RraZpX(_) => 0x77,
            Op::Sei => 0x78,
            Op::AdcAbsY(_) => 0x79,
            Op::Nop7A => 0x7A,
            Op::RraAbsY(_) => 0x7B,
            Op::NopAbsX7C(_) => 0x7C,
            Op::AdcAbsX(_) => 0x7D,
            Op::RorAbsX(_) => 0x7E,
            Op::RraAbsX(_) => 0x7F,
            Op::NopImm80(_) => 0x80,
            Op::StaIndX(_) => 0x81,
            Op::NopImm82(_) => 0x82,
            Op::SaxIndX(_) => 0x83,
            Op::StyZp(_) => 0x84,
            Op::StaZp(_) => 0x85,
            Op::StxZp(_) => 0x86,
            Op::SaxZp(_) => 0x87,
            Op::Dey => 0x88,
            Op::NopImm89(_) => 0x89,
            Op::Txa => 0x8A,
            Op::Xaa(_) => 0x8B,
            Op::StyAbs(_) => 0x8C,
            Op::StaAbs(_) => 0x8D,
            Op::StxAbs(_) => 0x8E,
            Op::SaxAbs(_) => 0x8F,
            Op::Bcc(_) => 0x90,
            Op::StaIndY(_) => 0x91,
            Op::Kil92 => 0x92,
            Op::AhxIndY(_) => 0x93,
            Op::StyZpX(_) => 0x94,
            Op::StaZpX(_) => 0x95,
            Op::StxZpY(_) => 0x96,
            Op::SaxZpY(_) => 0x97,
            Op::Tya => 0x98,
            Op::StaAbsY(_) => 0x99,
            Op::Txs => 0x9A,
            Op::Tas(_) => 0x9B,
            Op::Shy(_) => 0x9C,
            Op::StaAbsX(_) => 0x9D,
            Op::Shx(_) => 0x9E,
            Op::AhxAbsY(_) => 0x9F,
            Op::LdyImm(_) => 0xA0,
            Op::LdaIndX(_) => 0xA1,
            Op::LdxImm(_) => 0xA2,
            Op::LaxIndX(_) => 0xA3,
            Op::LdyZp(_) => 0xA4,
            Op::LdaZp(_) => 0xA5,
            Op::LdxZp(_) => 0xA6,
            Op::LaxZp(_) => 0xA7,
            Op::Tay => 0xA8,
            Op::LdaImm(_) => 0xA9,
            Op::Tax => 0xAA,
            Op::LaxImm(_) => 0xAB,
            Op::LdyAbs(_) => 0xAC,
            Op::LdaAbs(_) => 0xAD,
            Op::LdxAbs(_) => 0xAE,
            Op::LaxAbs(_) => 0xAF,
            Op::Bcs(_) => 0xB0,
            Op::LdaIndY(_) => 0xB1,
            Op::KilB2 => 0xB2,
            Op::LaxIndY(_) => 0xB3,
            Op::LdyZpX(_) => 0xB4,
            Op::LdaZpX(_) => 0xB5,
            Op::LdxZpY(_) => 0xB6,
            Op::LaxZpY(_) => 0xB7,
            Op::Clv => 0xB8,
            Op::LdaAbsY(_) => 0xB9,
            Op::Tsx => 0xBA,
            Op::Las(_) => 0xBB,
            Op::LdyAbsX(_) => 0xBC,
            Op::LdaAbsX(_) => 0xBD,
            Op::LdxAbsY(_) => 0xBE,
            Op::LaxAbsY(_) => 0xBF,
            Op::CpyImm(_) => 0xC0,
            Op::CmpIndX(_) => 0xC1,
            Op::NopImmC2(_) => 0xC2,
            Op::DcpIndX(_) => 0xC3,
            Op::CpyZp(_) => 0xC4,
            Op::CmpZp(_) => 0xC5,
            Op::DecZp(_) => 0xC6,
            Op::DcpZp(_) => 0xC7,
            Op::Iny => 0xC8,
            Op::CmpImm(_) => 0xC9,
            Op::Dex => 0xCA,
            Op::Axs(_) => 0xCB,
            Op::CpyAbs(_) => 0xCC,
            Op::CmpAbs(_) => 0xCD,
            Op::DecAbs(_) => 0xCE,
            Op::DcpAbs(_) => 0xCF,
            Op::Bne(_) => 0xD0,
            Op::CmpIndY(_) => 0xD1,
            Op::KilD2 => 0xD2,
            Op::DcpIndY(_) => 0xD3,
            Op::NopZpXD4(_) => 0xD4,
            Op::CmpZpX(_) => 0xD5,
            Op::DecZpX(_) => 0xD6,
            Op::DcpZpX(_) => 0xD7,
            Op::Cld => 0xD8,
            Op::CmpAbsY(_) => 0xD9,
            Op::NopDA => 0xDA,
            Op::DcpAbsY(_) => 0xDB,
            Op::NopAbsXDC(_) => 0xDC,
            Op::CmpAbsX(_) => 0xDD,
            Op::DecAbsX(_) => 0xDE,
            Op::DcpAbsX(_) => 0xDF,
            Op::CpxImm(_) => 0xE0,
            Op::SbcIndX(_) => 0xE1,
            Op::NopImmE2(_) => 0xE2,
            Op::IscIndX(_) => 0xE3,
            Op::CpxZp(_) => 0xE4,
            Op::SbcZp(_) => 0xE5,
            Op::IncZp(_) => 0xE6,
            Op::IscZp(_) => 0xE7,
            Op::Inx => 0xE8,
            Op::SbcImmE9(_) => 0xE9,
            Op::NopEA => 0xEA,
            Op::SbcImmEB(_) => 0xEB,
            Op::CpxAbs(_) => 0xEC,
            Op::SbcAbs(_) => 0xED,
            Op::IncAbs(_) => 0xEE,
            Op::IscAbs(_) => 0xEF,
            Op::Beq(_) => 0xF0,
            Op::SbcIndY(_) => 0xF1,
            Op::KilF2 => 0xF2,
            Op::IscIndY(_) => 0xF3,
            Op::NopZpXF4(_) => 0xF4,
            Op::SbcZpX(_) => 0xF5,
            Op::IncZpX(_) => 0xF6,
            Op::IscZpX(_) => 0xF7,
            Op::Sed => 0xF8,
            Op::SbcAbsY(_) => 0xF9,
            Op::NopFA => 0xFA,
            Op::IscAbsY(_) => 0xFB,
            Op::NopAbsXFC(_) => 0xFC,
            Op::SbcAbsX(_) => 0xFD,
            Op::IncAbsX(_) => 0xFE,
            Op::IscAbsX(_) => 0xFF,
        }
    }

    /// Returns the opcode.
    pub fn opcode(self) -> (r: Opcode)
        ensures
            r.get() == self.spec_opcode(),
    {
        match self {
            Op::Brk => Opcode::new(0x00),
            Op::OraIndX(_) => Opcode::new(0x01),
            Op::Kil02 => Opcode::new(0x02),
            Op::SloIndX(_) => Opcode::new(0x03),
            Op::NopZp04(_) => Opcode::new(0x04),
            Op::OraZp(_) => Opcode::new(0x05),
            Op::AslZp(_) => Opcode::new(0x06),
            Op::SloZp(_) => Opcode::new(0x07),
            Op::Php => Opcode::new(0x08),
            Op::OraImm(_) => Opcode::new(0x09),
            Op::AslAcc => Opcode::new(0x0A),
            Op::Anc0B(_) => Opcode::new(0x0B),
            Op::NopAbs(_) => Opcode::new(0x0C),
            Op::OraAbs(_) => Opcode::new(0x0D),
            Op::AslAbs(_) => Opcode::new(0x0E),
            Op::SloAbs(_) => Opcode::new(0x0F),
            Op::Bpl(_) => Opcode::new(0x10),
            Op::OraIndY(_) => Opcode::new(0x11),
            Op::Kil12 => Opcode::new(0x12),
            Op::SloIndY(_) => Opcode::new(0x13),
            Op::NopZpX14(_) => Opcode::new(0x14),
            Op::OraZpX(_) => Opcode::new(0x15),
            Op::AslZpX(_) => Opcode::new(0x16),
            Op::SloZpX(_) => Opcode::new(0x17),
            Op::Clc => Opcode::new(0x18),
            Op::OraAbsY(_) => Opcode::new(0x19),
            Op::Nop1A => Opcode::new(0x1A),
            Op::SloAbsY(_) => Opcode::new(0x1B),
            Op::NopAbsX1C(_) => Opcode::new(0x1C),
            Op::OraAbsX(_) => Opcode::new(0x1D),
            Op::AslAbsX(_) => Opcode::new(0x1E),
            Op::SloAbsX(_) => Opcode::new(0x1F),
            Op::Jsr(_) => Opcode::new(0x20),
            Op::AndIndX(_) => Opcode::new(0x21),
            Op::Kil22 => Opcode::new(0x22),
            Op::RlaIndX(_) => Opcode::new(0x23),
            Op::BitZp(_) => Opcode::new(0x24),
            Op::AndZp(_) => Opcode::new(0x25),
            Op::RolZp(_) => Opcode::new(0x26),
            Op::RlaZp(_) => Opcode::new(0x27),
            Op::Plp => Opcode::new(0x28),
            Op::AndImm(_) => Opcode::new(0x29),
            Op::RolAcc => Opcode::new(0x2A),
            Op::Anc2B(_) => Opcode::new(0x2B),
            Op::BitAbs(_) => Opcode::new(0x2C),
            Op::AndAbs(_) => Opcode::new(0x2D),
            Op::RolAbs(_) => Opcode::new(0x2E),
            Op::RlaAbs(_) => Opcode::new(0x2F),
            Op::Bmi(_) => Opcode::new(0x30),
            Op::AndIndY(_) => Opcode::new(0x31),
            Op::Kil32 => Opcode::new(0x32),
            Op::RlaIndY(_) => Opcode::new(0x33),
            Op::NopZpX34(_) => Opcode::new(0x34),
            Op::AndZpX(_) => Opcode::new(0x35),
            Op::RolZpX(_) => Opcode::new(0x36),
            Op::RlaZpX(_) => Opcode::new(0x37),
            Op::Sec => Opcode::new(0x38),
            Op::AndAbsY(_) => Opcode::new(0x39),
            Op::Nop3A => Opcode::new(0x3A),
            Op::RlaAbsY(_) => Opcode::new(0x3B),
            Op::NopAbsX3C(_) => Opcode::new(0x3C),
            Op::AndAbsX(_) => Opcode::new(0x3D),
            Op::RolAbsX(_) => Opcode::new(0x3E),
            Op::RlaAbsX(_) => Opcode::new(0x3F),
            Op::Rti => Opcode::new(0x40),
            Op::EorIndX(_) => Opcode::new(0x41),
            Op::Kil42 => Opcode::new(0x42),
            Op::SreIndX(_) => Opcode::new(0x43),
            Op::NopZp44(_) => Opcode::new(0x44),
            Op::EorZp(_) => Opcode::new(0x45),
            Op::LsrZp(_) => Opcode::new(0x46),
            Op::SreZp(_) => Opcode::new(0x47),
            Op::Pha => Opcode::new(0x48),
            Op::EorImm(_) => Opcode::new(0x49),
            Op::LsrAcc => Opcode::new(0x4A),
            Op::Alr(_) => Opcode::new(0x4B),
            Op::JmpAbs(_) => Opcode::new(0x4C),
            Op::EorAbs(_) => Opcode::new(0x4D),
            Op::LsrAbs(_) => Opcode::new(0x4E),
            Op::SreAbs(_) => Opcode::new(0x4F),
            Op::Bvc(_) => Opcode::new(0x50),
            Op::EorIndY(_) => Opcode::new(0x51),
            Op::Kil52 => Opcode::new(0x52),
            Op::SreIndY(_) => Opcode::new(0x53),
            Op::NopZpX54(_) => Opcode::new(0x54),
            Op::EorZpX(_) => Opcode::new(0x55),
            Op::LsrZpX(_) => Opcode::new(0x56),
            Op::SreZpX(_) => Opcode::new(0x57),
            Op::Cli => Opcode::new(0x58),
            Op::EorAbsY(_) => Opcode::new(0x59),
            Op::Nop5A => Opcode::new(0x5A),
            Op::SreAbsY(_) => Opcode::new(0x5B),
            Op::NopAbsX5C(_) => Opcode::new(0x5C),
            Op::EorAbsX(_) => Opcode::new(0x5D),
            Op::LsrAbsX(_) => Opcode::new(0x5E),
            Op::SreAbsX(_) => Opcode::new(0x5F),
            Op::Rts => Opcode::new(0x60),
            Op::AdcIndX(_) => Opcode::new(0x61),
            Op::Kil62 => Opcode::new(0x62),
            Op::RraIndX(_) => Opcode::new(0x63),
            Op::NopZp64(_) => Opcode::new(0x64),
            Op::AdcZp(_) => Opcode::new(0x65),
            Op::RorZp(_) => Opcode::new(0x66),
            Op::RraZp(_) => Opcode::new(0x67),
            Op::Pla => Opcode::new(0x68),
            Op::AdcImm(_) => Opcode::new(0x69),
            Op::RorAcc => Opcode::new(0x6A),
            Op::Arr(_) => Opcode::new(0x6B),
            Op::JmpInd(_) => Opcode::new(0x6C),
            Op::AdcAbs(_) => Opcode::new(0x6D),
            Op::RorAbs(_) => Opcode::new(0x6E),
            Op::RraAbs(_) => Opcode::new(0x6F),
            Op::Bvs(_) => Opcode::new(0x70),
            Op::AdcIndY(_) => Opcode::new(0x71),
            Op::Kil72 => Opcode::new(0x72),
            Op::RraIndY(_) => Opcode::new(0x73),
            Op::NopZpX74(_) => Opcode::new(0x74),
            Op::AdcZpX(_) => Opcode::new(0x75),
            Op::RorZpX(_) => Opcode::new(0x76),
            Op::RraZpX(_) => Opcode::new(0x77),
            Op::Sei => Opcode::new(0x78),
            Op::AdcAbsY(_) => Opcode::new(0x79),
            Op::Nop7A => Opcode::new(0x7A),
            Op::RraAbsY(_) => Opcode::new(0x7B),
            Op::NopAbsX7C(_) => Opcode::new(0x7C),
            Op::AdcAbsX(_) => Opcode::new(0x7D),
            Op::RorAbsX(_) => Opcode::new(0x7E),
            Op::RraAbsX(_) => Opcode::new(0x7F),
            Op::NopImm80(_) => Opcode::new(0x80),
            Op::StaIndX(_) => Opcode::new(0x81),
            Op::NopImm82(_) => Opcode::new(0x82),
            Op::SaxIndX(_) => Opcode::new(0x83),
            Op::StyZp(_) => Opcode::new(0x84),
            Op::StaZp(_) => Opcode::new(0x85),
            Op::StxZp(_) => Opcode::new(0x86),
            Op::SaxZp(_) => Opcode::new(0x87),
            Op::Dey => Opcode::new(0x88),
            Op::NopImm89(_) => Opcode::new(0x89),
            Op::Txa => Opcode::new(0x8A),
            Op::Xaa(_) => Opcode::new(0x8B),
            Op::StyAbs(_) => Opcode::new(0x8C),
            Op::StaAbs(_) => Opcode::new(0x8D),
            Op::StxAbs(_) => Opcode::new(0x8E),
            Op::SaxAbs(_) => Opcode::new(0x8F),
            Op::Bcc(_) => Opcode::new(0x90),
            Op::StaIndY(_) => Opcode::new(0x91),
            Op::Kil92 => Opcode::new(0x92),
            Op::AhxIndY(_) => Opcode::new(0x93),
            Op::StyZpX(_) => Opcode::new(0x94),
            Op::StaZpX(_) => Opcode::new(0x95),
            Op::StxZpY(_) => Opcode::new(0x96),
            Op::SaxZpY(_) => Opcode::new(0x97),
            Op::Tya => Opcode::new(0x98),
            Op::StaAbsY(_) => Opcode::new(0x99),
            Op::Txs => Opcode::new(0x9A),
            Op::Tas(_) => Opcode::new(0x9B),
            Op::Shy(_) => Opcode::new(0x9C),
            Op::StaAbsX(_) => Opcode::new(0x9D),
            Op::Shx(_) => Opcode::new(0x9E),
            Op::AhxAbsY(_) => Opcode::new(0x9F),
            Op::LdyImm(_) => Opcode::new(0xA0),
            Op::LdaIndX(_) => Opcode::new(0xA1),
            Op::LdxImm(_) => Opcode::new(0xA2),
            Op::LaxIndX(_) => Opcode::new(0xA3),
            Op::LdyZp(_) => Opcode::new(0xA4),
            Op::LdaZp(_) => Opcode::new(0xA5),
            Op::LdxZp(_) => Opcode::new(0xA6),
            Op::LaxZp(_) => Opcode::new(0xA7),
            Op::Tay => Opcode::new(0xA8),
            Op::LdaImm(_) => Opcode::new(0xA9),
            Op::Tax => Opcode::new(0xAA),
            Op::LaxImm(_) => Opcode::new(0xAB),
            Op::LdyAbs(_) => Opcode::new(0xAC),
            Op::LdaAbs(_) => Opcode::new(0xAD),
            Op::LdxAbs(_) => Opcode::new(0xAE),
            Op::LaxAbs(_) => Opcode::new(0xAF),
            Op::Bcs(_) => Opcode::new(0xB0),
            Op::LdaIndY(_) => Opcode::new(0xB1),
            Op::KilB2 => Opcode::new(0xB2),
            Op::LaxIndY(_) => Opcode::new(0xB3),
            Op::LdyZpX(_) => Opcode::new(0xB4),
            Op::LdaZpX(_) => Opcode::new(0xB5),
            Op::LdxZpY(_) => Opcode::new(0xB6),
            Op::LaxZpY(_) => Opcode::new(0xB7),
            Op::Clv => Opcode::new(0xB8),
            Op::LdaAbsY(_) => Opcode::new(0xB9),
            Op::Tsx => Opcode::new(0xBA),
            Op::Las(_) => Opcode::new(0xBB),
            Op::LdyAbsX(_) => Opcode::new(0xBC),
            Op::LdaAbsX(_) => Opcode::new(0xBD),
            Op::LdxAbsY(_) => Opcode::new(0xBE),
            Op::LaxAbsY(_) => Opcode::new(0xBF),
            Op::CpyImm(_) => Opcode::new(0xC0),
            Op::CmpIndX(_) => Opcode::new(0xC1),
            Op::NopImmC2(_) => Opcode::new(0xC2),
            Op::DcpIndX(_) => Opcode::new(0xC3),
            Op::CpyZp(_) => Opcode::new(0xC4),
            Op::CmpZp(_) => Opcode::new(0xC5),
            Op::DecZp(_) => Opcode::new(0xC6),
            Op::DcpZp(_) => Opcode::new(0xC7),
            Op::Iny => Opcode::new(0xC8),
            Op::CmpImm(_) => Opcode::new(0xC9),
            Op::Dex => Opcode::new(0xCA),
            Op::Axs(_) => Opcode::new(0xCB),
            Op::CpyAbs(_) => Opcode::new(0xCC),
            Op::CmpAbs(_) => Opcode::new(0xCD),
            Op::DecAbs(_) => Opcode::new(0xCE),
            Op::DcpAbs(_) => Opcode::new(0xCF),
            Op::Bne(_) => Opcode::new(0xD0),
            Op::CmpIndY(_) => Opcode::new(0xD1),
            Op::KilD2 => Opcode::new(0xD2),
            Op::DcpIndY(_) => Opcode::new(0xD3),
            Op::NopZpXD4(_) => Opcode::new(0xD4),
            Op::CmpZpX(_) => Opcode::new(0xD5),
            Op::DecZpX(_) => Opcode::new(0xD6),
            Op::DcpZpX(_) => Opcode::new(0xD7),
            Op::Cld => Opcode::new(0xD8),
            Op::CmpAbsY(_) => Opcode::new(0xD9),
            Op::NopDA => Opcode::new(0xDA),
            Op::DcpAbsY(_) => Opcode::new(0xDB),
            Op::NopAbsXDC(_) => Opcode::new(0xDC),
            Op::CmpAbsX(_) => Opcode::new(0xDD),
            Op::DecAbsX(_) => Opcode::new(0xDE),
            Op::DcpAbsX(_) => Opcode::new(0xDF),
            Op::CpxImm(_) => Opcode::new(0xE0),
            Op::SbcIndX(_) => Opcode::new(0xE1),
            Op::NopImmE2(_) => Opcode::new(0xE2),
            Op::IscIndX(_) => Opcode::new(0xE3),
            Op::CpxZp(_) => Opcode::new(0xE4),
            Op::SbcZp(_) => Opcode::new(0xE5),
            Op::IncZp(_) => Opcode::new(0xE6),
            Op::IscZp(_) => Opcode::new(0xE7),
            Op::Inx => Opcode::new(0xE8),
            Op::SbcImmE9(_) => Opcode::new(0xE9),
            Op::NopEA => Opcode::new(0xEA),
            Op::SbcImmEB(_) => Opcode::new(0xEB),
            Op::CpxAbs(_) => Opcode::new(0xEC),
            Op::SbcAbs(_) => Opcode::new(0xED),
            Op::IncAbs(_) => Opcode::new(0xEE),
            Op::IscAbs(_) => Opcode::new(0xEF),
            Op::Beq(_) => Opcode::new(0xF0),
            Op::SbcIndY(_) => Opcode::new(0xF1),
            Op::KilF2 => Opcode::new(0xF2),
            Op::IscIndY(_) => Opcode::new(0xF3),
            Op::NopZpXF4(_) => Opcode::new(0xF4),
            Op::SbcZpX(_) => Opcode::new(0xF5),
            Op::IncZpX(_) => Opcode::new(0xF6),
            Op::IscZpX(_) => Opcode::new(0xF7),
            Op::Sed => Opcode::new(0xF8),
            Op::SbcAbsY(_) => Opcode::new(0xF9),
            Op::NopFA => Opcode::new(0xFA),
            Op::IscAbsY(_) => Opcode::new(0xFB),
            Op::NopAbsXFC(_) => Opcode::new(0xFC),
            Op::SbcAbsX(_) => Opcode::new(0xFD),
            Op::IncAbsX(_) => Opcode::new(0xFE),
            Op::IscAbsX(_) => Opcode::new(0xFF),
        }
    }

    /// The operand of the instruction.
    pub open spec fn spec_operand(self) -> Operand {
        match self {
            Op::Brk => Operand::Imp,
            Op::OraIndX(x) => Operand::IndX(x),
            Op::Kil02 => Operand::Imp,
            Op::SloIndX(x) => Operand::IndX(x),
            Op::NopZp04(x) => Operand::Zp(x),
            Op::OraZp(x) => Operand::Zp(x),
            Op::AslZp(x) => Operand::Zp(x),
            Op::SloZp(x) => Operand::Zp(x),
            Op::Php => Operand::Imp,
            Op::OraImm(x) => Operand::Imm(x),
            Op::AslAcc => Operand::Acc,
            Op::Anc0B(x) => Operand::Imm(x),
            Op::NopAbs(x) => Operand::Abs(x),
            Op::OraAbs(x) => Operand::Abs(x),
            Op::AslAbs(x) => Operand::Abs(x),
            Op::SloAbs(x) => Operand::Abs(x),
            Op::Bpl(x) => Operand::Rel(x),
            Op::OraIndY(x) => Operand::IndY(x),
            Op::Kil12 => Operand::Imp,
            Op::SloIndY(x) => Operand::IndY(x),
            Op::NopZpX14(x) => Operand::ZpX(x),
            Op::OraZpX(x) => Operand::ZpX(x),
            Op::AslZpX(x) => Operand::ZpX(x),
            Op::SloZpX(x) => Operand::ZpX(x),
            Op::Clc => Operand::Imp,
            Op::OraAbsY(x) => Operand::AbsY(x),
            Op::Nop1A => Operand::Imp,
            Op::SloAbsY(x) => Operand::AbsY(x),
            Op::NopAbsX1C(x) => Operand::AbsX(x),
            Op::OraAbsX(x) => Operand::AbsX(x),
            Op::AslAbsX(x) => Operand::AbsX(x),
            Op::SloAbsX(x) => Operand::AbsX(x),
            Op::Jsr(x) => Operand::Abs(x),
            Op::AndIndX(x) => Operand::IndX(x),
            Op::Kil22 => Operand::Imp,
            Op::RlaIndX(x) => Operand::IndX(x),
            Op::BitZp(x) => Operand::Zp(x),
            Op::AndZp(x) => Operand::Zp(x),
            Op::RolZp(x) => Operand::Zp(x),
            Op::RlaZp(x) => Operand::Zp(x),
            Op::Plp => Operand::Imp,
            Op::AndImm(x) => Operand::Imm(x),
            Op::RolAcc => Operand::Acc,
            Op::Anc2B(x) => Operand::Imm(x),
            Op::BitAbs(x) => Operand::Abs(x),
            Op::AndAbs(x) => Operand::Abs(x),
            Op::RolAbs(x) => Operand::Abs(x),
            Op::RlaAbs(x) => Operand::Abs(x),
            Op::Bmi(x) => Operand::Rel(x),
            Op::AndIndY(x) => Operand::IndY(x),
            Op::Kil32 => Operand::Imp,
            Op::RlaIndY(x) => Operand::IndY(x),
            Op::NopZpX34(x) => Operand::ZpX(x),
            Op::AndZpX(x) => Operand::ZpX(x),
            Op::RolZpX(x) => Operand::ZpX(x),
            Op::RlaZpX(x) => Operand::ZpX(x),
            Op::Sec => Operand::Imp,
            Op::AndAbsY(x) => Operand::AbsY(x),
            Op::Nop3A => Operand::Imp,
            Op::RlaAbsY(x) => Operand::AbsY(x),
            Op::NopAbsX3C(x) => Operand::AbsX(x),
            Op::AndAbsX(x) => Operand::AbsX(x),
            Op::RolAbsX(x) => Operand::AbsX(x),
            Op::RlaAbsX(x) => Operand::AbsX(x),
            Op::Rti => Operand::Imp,
            Op::EorIndX(x) => Operand::IndX(x),
            Op::Kil42 => Operand::Imp,
            Op::SreIndX(x) => Operand::IndX(x),
            Op::NopZp44(x) => Operand::Zp(x),
            Op::EorZp(x) => Operand::Zp(x),
            Op::LsrZp(x) => Operand::Zp(x),
            Op::SreZp(x) => Operand::Zp(x),
            Op::Pha => Operand::Imp,
            Op::EorImm(x) => Operand::Imm(x),
            Op::LsrAcc => Operand::Acc,
            Op::Alr(x) => Operand::Imm(x),
            Op::JmpAbs(x) => Operand::Abs(x),
            Op::EorAbs(x) => Operand::Abs(x),
            Op::LsrAbs(x) => Operand::Abs(x),
            Op::SreAbs(x) => Operand::Abs(x),
            Op::Bvc(x) => Operand::Rel(x),
            Op::EorIndY(x) => Operand::IndY(x),
            Op::Kil52 => Operand::Imp,
            Op::SreIndY(x) => Operand::IndY(x),
            Op::NopZpX54(x) => Operand::ZpX(x),
            Op::EorZpX(x) => Operand::ZpX(x),
            Op::LsrZpX(x) => Operand::ZpX(x),
            Op::SreZpX(x) => Operand::ZpX(x),
            Op::Cli => Operand::Imp,
            Op::EorAbsY(x) => Operand::AbsY(x),
            Op::Nop5A => Operand::Imp,
            Op::SreAbsY(x) => Operand::AbsY(x),
            Op::NopAbsX5C(x) => Operand::AbsX(x),
            Op::EorAbsX(x) => Operand::AbsX(x),
            Op::LsrAbsX(x) => Operand::AbsX(x),
            Op::SreAbsX(x) => Operand::AbsX(x),
            Op::Rts => Operand::Imp,
            Op::AdcIndX(x) => Operand::IndX(x),
            Op::Kil62 => Operand::Imp,
            Op::RraIndX(x) => Operand::IndX(x),
            Op::NopZp64(x) => Operand::Zp(x),
            Op::AdcZp(x) => Operand::Zp(x),
            Op::RorZp(x) => Operand::Zp(x),
            Op::RraZp(x) => Operand::Zp(x),
            Op::Pla => Operand::Imp,
            Op::AdcImm(x) => Operand::Imm(x),
            Op::RorAcc => Operand::Acc,
            Op::Arr(x) => Operand::Imm(x),
            Op::JmpInd(x) => Operand::Ind(x),
            Op::AdcAbs(x) => Operand::Abs(x),
            Op::RorAbs(x) => Operand::Abs(x),
            Op::RraAbs(x) => Operand::Abs(x),
            Op::Bvs(x) => Operand::Rel(x),
            Op::AdcIndY(x) => Operand::IndY(x),
            Op::Kil72 => Operand::Imp,
            Op::RraIndY(x) => Operand::IndY(x),
            Op::NopZpX74(x) => Operand::ZpX(x),
            Op::AdcZpX(x) => Operand::ZpX(x),
            Op::RorZpX(x) => Operand::ZpX(x),
            Op::RraZpX(x) => Operand::ZpX(x),
            Op::Sei => Operand::Imp,
            Op::AdcAbsY(x) => Operand::AbsY(x),
            Op::Nop7A => Operand::Imp,
            Op::RraAbsY(x) => Operand::AbsY(x),
            Op::NopAbsX7C(x) => Operand::AbsX(x),
            Op::AdcAbsX(x) => Operand::AbsX(x),
            Op::RorAbsX(x) => Operand::AbsX(x),
            Op::RraAbsX(x) => Operand::AbsX(x),
            Op::NopImm80(x) => Operand::Imm(x),
            Op::StaIndX(x) => Operand::IndX(x),
            Op::NopImm82(x) => Operand::Imm(x),
            Op::SaxIndX(x) => Operand::IndX(x),
            Op::StyZp(x) => Operand::Zp(x),
            Op::StaZp(x) => Operand::Zp(x),
            Op::StxZp(x) => Operand::Zp(x),
            Op::SaxZp(x) => Operand::Zp(x),
            Op::Dey => Operand::Imp,
            Op::NopImm89(x) => Operand::Imm(x),
            Op::Txa => Operand::Imp,
            Op::Xaa(x) => Operand::Imm(x),
            Op::StyAbs(x) => Operand::Abs(x),
            Op::StaAbs(x) => Operand::Abs(x),
            Op::StxAbs(x) => Operand::Abs(x),
            Op::SaxAbs(x) => Operand::Abs(x),
            Op::Bcc(x) => Operand::Rel(x),
            Op::StaIndY(x) => Operand::IndY(x),
            Op::Kil92 => Operand::Imp,
            Op::AhxIndY(x) => Operand::IndY(x),
            Op::StyZpX(x) => Operand::ZpX(x),
            Op::StaZpX(x) => Operand::ZpX(x),
            Op::StxZpY(x) => Operand::ZpY(x),
            Op::SaxZpY(x) => Operand::ZpY(x),
            Op::Tya => Operand::Imp,
            Op::StaAbsY(x) => Operand::AbsY(x),
            Op::Txs => Operand::Imp,
            Op::Tas(x) => Operand::AbsY(x),
            Op::Shy(x) => Operand::AbsX(x),
            Op::StaAbsX(x) => Operand::AbsX(x),
            Op::Shx(x) => Operand::AbsY(x),
            Op::AhxAbsY(x) => Operand::AbsY(x),
            Op::LdyImm(x) => Operand::Imm(x),
            Op::LdaIndX(x) => Operand::IndX(x),
            Op::LdxImm(x) => Operand::Imm(x),
            Op::LaxIndX(x) => Operand::IndX(x),
            Op::LdyZp(x) => Operand::Zp(x),
            Op::LdaZp(x) => Operand::Zp(x),
            Op::LdxZp(x) => Operand::Zp(x),
            Op::LaxZp(x) => Operand::Zp(x),
            Op::Tay => Operand::Imp,
            Op::LdaImm(x) => Operand::Imm(x),
            Op::Tax => Operand::Imp,
            Op::LaxImm(x) => Operand::Imm(x),
            Op::LdyAbs(x) => Operand::Abs(x),
            Op::LdaAbs(x) => Operand::Abs(x),
            Op::LdxAbs(x) => Operand::Abs(x),
            Op::LaxAbs(x) => Operand::Abs(x),
            Op::Bcs(x) => Operand::Rel(x),
            Op::LdaIndY(x) => Operand::IndY(x),
            Op::KilB2 => Operand::Imp,
            Op::LaxIndY(x) => Operand::IndY(x),
            Op::LdyZpX(x) => Operand::ZpX(x),
            Op::LdaZpX(x) => Operand::ZpX(x),
            Op::LdxZpY(x) => Operand::ZpY(x),
            Op::LaxZpY(x) => Operand::ZpY(x),
            Op::Clv => Operand::Imp,
            Op::LdaAbsY(x) => Operand::AbsY(x),
            Op::Tsx => Operand::Imp,
            Op::Las(x) => Operand::AbsY(x),
            Op::LdyAbsX(x) => Operand::AbsX(x),
            Op::LdaAbsX(x) => Operand::AbsX(x),
            Op::LdxAbsY(x) => Operand::AbsY(x),
            Op::LaxAbsY(x) => Operand::AbsY(x),
            Op::CpyImm(x) => Operand::Imm(x),
            Op::CmpIndX(x) => Operand::IndX(x),
            Op::NopImmC2(x) => Operand::Imm(x),
            Op::DcpIndX(x) => Operand::IndX(x),
            Op::CpyZp(x) => Operand::Zp(x),
            Op::CmpZp(x) => Operand::Zp(x),
            Op::DecZp(x) => Operand::Zp(x),
            Op::DcpZp(x) => Operand::Zp(x),
            Op::Iny => Operand::Imp,
            Op::CmpImm(x) => Operand::Imm(x),
            Op::Dex => Operand::Imp,
            Op::Axs(x) => Operand::Imm(x),
            Op::CpyAbs(x) => Operand::Abs(x),
            Op::CmpAbs(x) => Operand::Abs(x),
            Op::DecAbs(x) => Operand::Abs(x),
            Op::DcpAbs(x) => Operand::Abs(x),
            Op::Bne(x) => Operand::Rel(x),
            Op::CmpIndY(x) => Operand::IndY(x),
            Op::KilD2 => Operand::Imp,
            Op::DcpIndY(x) => Operand::IndY(x),
            Op::NopZpXD4(x) => Operand::ZpX(x),
            Op::CmpZpX(x) => Operand::ZpX(x),
            Op::DecZpX(x) => Operand::ZpX(x),
            Op::DcpZpX(x) => Operand::ZpX(x),
            Op::Cld => Operand::Imp,
            Op::CmpAbsY(x) => Operand::AbsY(x),
            Op::NopDA => Operand::Imp,
            Op::DcpAbsY(x) => Operand::AbsY(x),
            Op::NopAbsXDC(x) => Operand::AbsX(x),
            Op::CmpAbsX(x) => Operand::AbsX(x),
            Op::DecAbsX(x) => Operand::AbsX(x),
            Op::DcpAbsX(x) => Operand::AbsX(x),
            Op::CpxImm(x) => Operand::Imm(x),
            Op::SbcIndX(x) => Operand::IndX(x),
            Op::NopImmE2(x) => Operand::Imm(x),
            Op::IscIndX(x) => Operand::IndX(x),
            Op::CpxZp(x) => Operand::Zp(x),
            Op::SbcZp(x) => Operand::Zp(x),
            Op::IncZp(x) => Operand::Zp(x),
            Op::IscZp(x) => Operand::Zp(x),
            Op::Inx => Operand::Imp,
            Op::SbcImmE9(x) => Operand::Imm(x),
            Op::NopEA => Operand::Imp,
            Op::SbcImmEB(x) => Operand::Imm(x),
            Op::CpxAbs(x) => Operand::Abs(x),
            Op::SbcAbs(x) => Operand::Abs(x),
            Op::IncAbs(x) => Operand::Abs(x),
            Op::IscAbs(x) => Operand::Abs(x),
            Op::Beq(x) => Operand::Rel(x),
            Op::SbcIndY(x) => Operand::IndY(x),
            Op::KilF2 => Operand::Imp,
            Op::IscIndY(x) => Operand::IndY(x),
            Op::NopZpXF4(x) => Operand::ZpX(x),
            Op::SbcZpX(x) => Operand::ZpX(x),
            Op::IncZpX(x) => Operand::ZpX(x),
            Op::IscZpX(x) => Operand::ZpX(x),
            Op::Sed => Operand::Imp,
            Op::SbcAbsY(x) => Operand::AbsY(x),
            Op::NopFA => Operand::Imp,
            Op::IscAbsY(x) => Operand::AbsY(x),
            Op::NopAbsXFC(x) => Operand::AbsX(x),
            Op::SbcAbsX(x) => Operand::AbsX(x),
            Op::IncAbsX(x) => Operand::AbsX(x),
            Op::IscAbsX(x) => Operand::AbsX(x),
        }
    }

    /// Returns the operand.
    pub fn operand(self) -> (r: Operand)
        ensures
            r == self.spec_operand(),
    {
        match self {
            Op::Brk => Operand::Imp,
            Op::OraIndX(x) => Operand::IndX(x),
            Op::Kil02 => Operand::Imp,
            Op::SloIndX(x) => Operand::IndX(x),
            Op::NopZp04(x) => Operand::Zp(x),
            Op::OraZp(x) => Operand::Zp(x),
            Op::AslZp(x) => Operand::Zp(x),
            Op::SloZp(x) => Operand::Zp(x),
            Op::Php => Operand::Imp,
            Op::OraImm(x) => Operand::Imm(x),
            Op::AslAcc => Operand::Acc,
            Op::Anc0B(x) => Operand::Imm(x),
            Op::NopAbs(x) => Operand::Abs(x),
            Op::OraAbs(x) => Operand::Abs(x),
            Op::AslAbs(x) => Operand::Abs(x),
            Op::SloAbs(x) => Operand::Abs(x),
            Op::Bpl(x) => Operand::Rel(x),
            Op::OraIndY(x) => Operand::IndY(x),
            Op::Kil12 => Operand::Imp,
            Op::SloIndY(x) => Operand::IndY(x),
            Op::NopZpX14(x) => Operand::ZpX(x),
            Op::OraZpX(x) => Operand::ZpX(x),
            Op::AslZpX(x) => Operand::ZpX(x),
            Op::SloZpX(x) => Operand::ZpX(x),
            Op::Clc => Operand::Imp,
            Op::OraAbsY(x) => Operand::AbsY(x),
            Op::Nop1A => Operand::Imp,
            Op::SloAbsY(x) => Operand::AbsY(x),
            Op::NopAbsX1C(x) => Operand::AbsX(x),
            Op::OraAbsX(x) => Operand::AbsX(x),
            Op::AslAbsX(x) => Operand::AbsX(x),
            Op::SloAbsX(x) => Operand::AbsX(x),
            Op::Jsr(x) => Operand::Abs(x),
            Op::AndIndX(x) => Operand::IndX(x),
            Op::Kil22 => Operand::Imp,
            Op::RlaIndX(x) => Operand::IndX(x),
            Op::BitZp(x) => Operand::Zp(x),
            Op::AndZp(x) => Operand::Zp(x),
            Op::RolZp(x) => Operand::Zp(x),
            Op::RlaZp(x) => Operand::Zp(x),
            Op::Plp => Operand::Imp,
            Op::AndImm(x) => Operand::Imm(x),
            Op::RolAcc => Operand::Acc,
            Op::Anc2B(x) => Operand::Imm(x),
            Op::BitAbs(x) => Operand::Abs(x),
            Op::AndAbs(x) => Operand::Abs(x),
            Op::RolAbs(x) => Operand::Abs(x),
            Op::RlaAbs(x) => Operand::Abs(x),
            Op::Bmi(x) => Operand::Rel(x),
            Op::AndIndY(x) => Operand::IndY(x),
            Op::Kil32 => Operand::Imp,
            Op::RlaIndY(x) => Operand::IndY(x),
            Op::NopZpX34(x) => Operand::ZpX(x),
            Op::AndZpX(x) => Operand::ZpX(x),
            Op::RolZpX(x) => Operand::ZpX(x),
            Op::RlaZpX(x) => Operand::ZpX(x),
            Op::Sec => Operand::Imp,
            Op::AndAbsY(x) => Operand::AbsY(x),
            Op::Nop3A => Operand::Imp,
            Op::RlaAbsY(x) => Operand::AbsY(x),
            Op::NopAbsX3C(x) => Operand::AbsX(x),
            Op::AndAbsX(x) => Operand::AbsX(x),
            Op::RolAbsX(x) => Operand::AbsX(x),
            Op::RlaAbsX(x) => Operand::AbsX(x),
            Op::Rti => Operand::Imp,
            Op::EorIndX(x) => Operand::IndX(x),
            Op::Kil42 => Operand::Imp,
            Op::SreIndX(x) => Operand::IndX(x),
            Op::NopZp44(x) => Operand::Zp(x),
            Op::EorZp(x) => Operand::Zp(x),
            Op::LsrZp(x) => Operand::Zp(x),
            Op::SreZp(x) => Operand::Zp(x),
            Op::Pha => Operand::Imp,
            Op::EorImm(x) => Operand::Imm(x),
            Op::LsrAcc => Operand::Acc,
            Op::Alr(x) => Operand::Imm(x),
            Op::JmpAbs(x) => Operand::Abs(x),
            Op::EorAbs(x) => Operand::Abs(x),
            Op::LsrAbs(x) => Operand::Abs(x),
            Op::SreAbs(x) => Operand::Abs(x),
            Op::Bvc(x) => Operand::Rel(x),
            Op::EorIndY(x) => Operand::IndY(x),
            Op::Kil52 => Operand::Imp,
            Op::SreIndY(x) => Operand::IndY(x),
            Op::NopZpX54(x) => Operand::ZpX(x),
            Op::EorZpX(x) => Operand::ZpX(x),
            Op::LsrZpX(x) => Operand::ZpX(x),
            Op::SreZpX(x) => Operand::ZpX(x),
            Op::Cli => Operand::Imp,
            Op::EorAbsY(x) => Operand::AbsY(x),
            Op::Nop5A => Operand::Imp,
            Op::SreAbsY(x) => Operand::AbsY(x),
            Op::NopAbsX5C(x) => Operand::AbsX(x),
            Op::EorAbsX(x) => Operand::AbsX(x),
            Op::LsrAbsX(x) => Operand::AbsX(x),
            Op::SreAbsX(x) => Operand::AbsX(x),
            Op::Rts => Operand::Imp,
            Op::AdcIndX(x) => Operand::IndX(x),
            Op::Kil62 => Operand::Imp,
            Op::RraIndX(x) => Operand::IndX(x),
            Op::NopZp64(x) => Operand::Zp(x),
            Op::AdcZp(x) => Operand::Zp(x),
            Op::RorZp(x) => Operand::Zp(x),
            Op::RraZp(x) => Operand::Zp(x),
            Op::Pla => Operand::Imp,
            Op::AdcImm(x) => Operand::Imm(x),
            Op::RorAcc => Operand::Acc,
            Op::Arr(x) => Operand::Imm(x),
            Op::JmpInd(x) => Operand::Ind(x),
            Op::AdcAbs(x) => Operand::Abs(x),
            Op::RorAbs(x) => Operand::Abs(x),
            Op::RraAbs(x) => Operand::Abs(x),
            Op::Bvs(x) => Operand::Rel(x),
            Op::AdcIndY(x) => Operand::IndY(x),
            Op::Kil72 => Operand::Imp,
            Op::RraIndY(x) => Operand::IndY(x),
            Op::NopZpX74(x) => Operand::ZpX(x),
            Op::AdcZpX(x) => Operand::ZpX(x),
            Op::RorZpX(x) => Operand::ZpX(x),
            Op::RraZpX(x) => Operand::ZpX(x),
            Op::Sei => Operand::Imp,
            Op::AdcAbsY(x) => Operand::AbsY(x),
            Op::Nop7A => Operand::Imp,
            Op::RraAbsY(x) => Operand::AbsY(x),
            Op::NopAbsX7C(x) => Operand::AbsX(x),
            Op::AdcAbsX(x) => Operand::AbsX(x),
            Op::RorAbsX(x) => Operand::AbsX(x),
            Op::RraAbsX(x) => Operand::AbsX(x),
            Op::NopImm80(x) => Operand::Imm(x),
            Op::StaIndX(x) => Operand::IndX(x),
            Op::NopImm82(x) => Operand::Imm(x),
            Op::SaxIndX(x) => Operand::IndX(x),
            Op::StyZp(x) => Operand::Zp(x),
            Op::StaZp(x) => Operand::Zp(x),
            Op::StxZp(x) => Operand::Zp(x),
            Op::SaxZp(x) => Operand::Zp(x),
            Op::Dey => Operand::Imp,
            Op::NopImm89(x) => Operand::Imm(x),
            Op::Txa => Operand::Imp,
            Op::Xaa(x) => Operand::Imm(x),
            Op::StyAbs(x) => Operand::Abs(x),
            Op::StaAbs(x) => Operand::Abs(x),
            Op::StxAbs(x) => Operand::Abs(x),
            Op::SaxAbs(x) => Operand::Abs(x),
            Op::Bcc(x) => Operand::Rel(x),
            Op::StaIndY(x) => Operand::IndY(x),
            Op::Kil92 => Operand::Imp,
            Op::AhxIndY(x) => Operand::IndY(x),
            Op::StyZpX(x) => Operand::ZpX(x),
            Op::StaZpX(x) => Operand::ZpX(x),
            Op::StxZpY(x) => Operand::ZpY(x),
            Op::SaxZpY(x) => Operand::ZpY(x),
            Op::Tya => Operand::Imp,
            Op::StaAbsY(x) => Operand::AbsY(x),
            Op::Txs => Operand::Imp,
            Op::Tas(x) => Operand::AbsY(x),
            Op::Shy(x) => Operand::AbsX(x),
            Op::StaAbsX(x) => Operand::AbsX(x),
            Op::Shx(x) => Operand::AbsY(x),
            Op::AhxAbsY(x) => Operand::AbsY(x),
            Op::LdyImm(x) => Operand::Imm(x),
            Op::LdaIndX(x) => Operand::IndX(x),
            Op::LdxImm(x) => Operand::Imm(x),
            Op::LaxIndX(x) => Operand::IndX(x),
            Op::LdyZp(x) => Operand::Zp(x),
            Op::LdaZp(x) => Operand::Zp(x),
            Op::LdxZp(x) => Operand::Zp(x),
            Op::LaxZp(x) => Operand::Zp(x),
            Op::Tay => Operand::Imp,
            Op::LdaImm(x) => Operand::Imm(x),
            Op::Tax => Operand::Imp,
            Op::LaxImm(x) => Operand::Imm(x),
            Op::LdyAbs(x) => Operand::Abs(x),
            Op::LdaAbs(x) => Operand::Abs(x),
            Op::LdxAbs(x) => Operand::Abs(x),
            Op::LaxAbs(x) => Operand::Abs(x),
            Op::Bcs(x) => Operand::Rel(x),
            Op::LdaIndY(x) => Operand::IndY(x),
            Op::KilB2 => Operand::Imp,
            Op::LaxIndY(x) => Operand::IndY(x),
            Op::LdyZpX(x) => Operand::ZpX(x),
            Op::LdaZpX(x) => Operand::ZpX(x),
            Op::LdxZpY(x) => Operand::ZpY(x),
            Op::LaxZpY(x) => Operand::ZpY(x),
            Op::Clv => Operand::Imp,
            Op::LdaAbsY(x) => Operand::AbsY(x),
            Op::Tsx => Operand::Imp,
            Op::Las(x) => Operand::AbsY(x),
            Op::LdyAbsX(x) => Operand::AbsX(x),
            Op::LdaAbsX(x) => Operand::AbsX(x),
            Op::LdxAbsY(x) => Operand::AbsY(x),
            Op::LaxAbsY(x) => Operand::AbsY(x),
            Op::CpyImm(x) => Operand::Imm(x),
            Op::CmpIndX(x) => Operand::IndX(x),
            Op::NopImmC2(x) => Operand::Imm(x),
            Op::DcpIndX(x) => Operand::IndX(x),
            Op::CpyZp(x) => Operand::Zp(x),
            Op::CmpZp(x) => Operand::Zp(x),
            Op::DecZp(x) => Operand::Zp(x),
            Op::DcpZp(x) => Operand::Zp(x),
            Op::Iny => Operand::Imp,
            Op::CmpImm(x) => Operand::Imm(x),
            Op::Dex => Operand::Imp,
            Op::Axs(x) => Operand::Imm(x),
            Op::CpyAbs(x) => Operand::Abs(x),
            Op::CmpAbs(x) => Operand::Abs(x),
            Op::DecAbs(x) => Operand::Abs(x),
            Op::DcpAbs(x) => Operand::Abs(x),
            Op::Bne(x) => Operand::Rel(x),
            Op::CmpIndY(x) => Operand::IndY(x),
            Op::KilD2 => Operand::Imp,
            Op::DcpIndY(x) => Operand::IndY(x),
            Op::NopZpXD4(x) => Operand::ZpX(x),
            Op::CmpZpX(x) => Operand::ZpX(x),
            Op::DecZpX(x) => Operand::ZpX(x),
            Op::DcpZpX(x) => Operand::ZpX(x),
            Op::Cld => Operand::Imp,
            Op::CmpAbsY(x) => Operand::AbsY(x),
            Op::NopDA => Operand::Imp,
            Op::DcpAbsY(x) => Operand::AbsY(x),
            Op::NopAbsXDC(x) => Operand::AbsX(x),
            Op::CmpAbsX(x) => Operand::AbsX(x),
            Op::DecAbsX(x) => Operand::AbsX(x),
            Op::DcpAbsX(x) => Operand::AbsX(x),
            Op::CpxImm(x) => Operand::Imm(x),
            Op::SbcIndX(x) => Operand::IndX(x),
            Op::NopImmE2(x) => Operand::Imm(x),
            Op::IscIndX(x) => Operand::IndX(x),
            Op::CpxZp(x) => Operand::Zp(x),
            Op::SbcZp(x) => Operand::Zp(x),
            Op::IncZp(x) => Operand::Zp(x),
            Op::IscZp(x) => Operand::Zp(x),
            Op::Inx => Operand::Imp,
            Op::SbcImmE9(x) => Operand::Imm(x),
            Op::NopEA => Operand::Imp,
            Op::SbcImmEB(x) => Operand::Imm(x),
            Op::CpxAbs(x) => Operand::Abs(x),
            Op::SbcAbs(x) => Operand::Abs(x),
            Op::IncAbs(x) => Operand::Abs(x),
            Op::IscAbs(x) => Operand::Abs(x),
            Op::Beq(x) => Operand::Rel(x),
            Op::SbcIndY(x) => Operand::IndY(x),
            Op::KilF2 => Operand::Imp,
            Op::IscIndY(x) => Operand::IndY(x),
            Op::NopZpXF4(x) => Operand::ZpX(x),
            Op::SbcZpX(x) => Operand::ZpX(x),
            Op::IncZpX(x) => Operand::ZpX(x),
            Op::IscZpX(x) => Operand::ZpX(x),
            Op::Sed => Operand::Imp,
            Op::SbcAbsY(x) => Operand::AbsY(x),
            Op::NopFA => Operand::Imp,
            Op::IscAbsY(x) => Operand::AbsY(x),
            Op::NopAbsXFC(x) => Operand::AbsX(x),
            Op::SbcAbsX(x) => Operand::AbsX(x),
            Op::IncAbsX(x) => Operand::AbsX(x),
            Op::IscAbsX(x) => Operand::AbsX(x),
        }
    }

    pub open spec fn spec_len(self) -> int {
        Opcode::spec_op_len(self.spec_opcode())
    }

    /// The length of the whole instruction in bytes (1 to 3).
    pub fn len(self) -> (r: usize)
        ensures
            r == self.spec_len(),
            1 <= r <= 3,
    {
        self.opcode().op_len()
    }

    /// Whether the instruction is an official one.
    pub fn is_official(self) -> (r: bool)
        ensures
            r == Opcode::spec_is_official(self.spec_opcode()),
    {
        self.opcode().is_official()
    }

    /// Whether the instruction reads from its effective operand address.
    /// Instruction fetch and indirect-pointer fetch do not count; operands
    /// without an effective address (implied, accumulator, immediate,
    /// relative) never read.
    pub fn is_read(self) -> (r: bool)
        ensures
            r == Opcode::spec_is_read(self.spec_opcode()),
    {
        self.opcode().is_read()
    }

    /// Whether the instruction writes to its effective operand address.
    /// Operands without an effective address never write.
    pub fn is_write(self) -> (r: bool)
        ensures
            r == Opcode::spec_is_write(self.spec_opcode()),
    {
        self.opcode().is_write()
    }

    /// Whether the instruction is one of the eight conditional branches.
    pub fn is_branch(self) -> (r: bool)
        ensures
            r == Opcode::spec_is_branch(self.spec_opcode()),
    {
        self.opcode().is_branch()
    }

    /// Whether the instruction is one of the processor-jam opcodes.
    pub fn is_kil(self) -> (r: bool)
        ensures
            r == Opcode::spec_is_kil(self.spec_opcode()),
    {
        self.opcode().is_kil()
    }

    /// Whether the instruction is a control-flow instruction: brk, jsr, rti,
    /// jmp abs, rts, jmp ind, every branch, every kil.
    pub fn is_flow(self) -> (r: bool)
        ensures
            r == Opcode::spec_is_flow(self.spec_opcode()),
    {
        self.opcode().is_flow()
    }

    pub open spec fn spec_is_bitop_imm(self) -> bool {
        match self {
            Op::OraImm(_) | Op::Anc0B(_) | Op::AndImm(_) | Op::Anc2B(_) | Op::EorImm(_)
                | Op::Alr(_) | Op::Arr(_) | Op::Xaa(_) => true,
            _ => false,
        }
    }

    /// Whether the instruction is a bit operation with an immediate operand.
    #[verifier::when_used_as_spec(spec_is_bitop_imm)]
    pub fn is_bitop_imm(self) -> (r: bool)
        ensures
            r == self.is_bitop_imm(),
    {
        matches!(
            self,
            Op::OraImm(_) | Op::Anc0B(_) | Op::AndImm(_) | Op::Anc2B(_) | Op::EorImm(_)
                | Op::Alr(_) | Op::Arr(_) | Op::Xaa(_)
        )
    }

    pub open spec fn spec_match_branch(self) -> Option<i8> {
        match self {
            Op::Bpl(rel) | Op::Bmi(rel) | Op::Bvc(rel) | Op::Bvs(rel) | Op::Bcc(rel)
                | Op::Bcs(rel) | Op::Bne(rel) | Op::Beq(rel) => Some(rel),
            _ => None,
        }
    }

    /// The branch offset, for branch instructions.
    #[verifier::when_used_as_spec(spec_match_branch)]
    pub fn match_branch(self) -> (r: Option<i8>)
        ensures
            r == self.match_branch(),
    {
        match self {
            Op::Bpl(rel) | Op::Bmi(rel) | Op::Bvc(rel) | Op::Bvs(rel) | Op::Bcc(rel)
                | Op::Bcs(rel) | Op::Bne(rel) | Op::Beq(rel) => Some(rel),
            _ => None,
        }
    }

    pub open spec fn spec_succ(self) -> OpSucc {
        match self {
            Op::Bpl(rel) | Op::Bmi(rel) | Op::Bvc(rel) | Op::Bvs(rel) | Op::Bcc(rel)
                | Op::Bcs(rel) | Op::Bne(rel) | Op::Beq(rel) => OpSucc::Branch(rel),
            Op::Brk => OpSucc::Brk,
            Op::Jsr(abs) => OpSucc::Jsr(abs),
            Op::Rti => OpSucc::Rti,
            Op::Rts => OpSucc::Rts,
            Op::JmpAbs(abs) => OpSucc::JmpAbs(abs),
            Op::JmpInd(abs) => OpSucc::JmpInd(abs),
            _ => if Opcode::spec_is_kil(self.spec_opcode()) {
                OpSucc::Kil
            } else {
                OpSucc::Normal(self.spec_len() as usize)
            },
        }
    }

    /// The abstract behaviour of the program counter after this instruction.
    pub fn succ(self) -> (r: OpSucc)
        ensures
            r == self.spec_succ(),
    {
        match self.match_branch() {
            Some(rel) => OpSucc::Branch(rel),
            None => match self {
                Op::Brk => OpSucc::Brk,
                Op::Jsr(abs) => OpSucc::Jsr(abs),
                Op::Rti => OpSucc::Rti,
                Op::Rts => OpSucc::Rts,
                Op::JmpAbs(abs) => OpSucc::JmpAbs(abs),
                Op::JmpInd(abs) => OpSucc::JmpInd(abs),
                _ => if self.is_kil() {
                    OpSucc::Kil
                } else {
                    OpSucc::Normal(self.len())
                },
            },
        }
    }

    /// The machine-code encoding: the opcode byte followed by the operand
    /// bytes in little-endian order.
    pub open spec fn spec_encode(self) -> Seq<u8> {
        seq![self.spec_opcode()] + self.spec_operand().spec_bytes()
    }

    /// Serialises the instruction to machine code.
    pub fn to_bytes(self) -> (r: Vec<u8>)
        ensures
            r@ == self.spec_encode(),
            1 <= r@.len() <= 3,
    {
        let mut v: Vec<u8> = Vec::new();
        v.push(self.opcode().get());
        let ob = self.operand().to_bytes();
        let mut i: usize = 0;
        while i < ob.len()
            invariant
                i <= ob@.len(),
                v@ == seq![self.spec_opcode()] + ob@.subrange(0, i as int),
                ob@ == self.spec_operand().spec_bytes(),
            decreases ob@.len() - i,
        {
            v.push(ob[i]);
            proof {
                assert(v@ =~= seq![self.spec_opcode()] + ob@.subrange(0, i + 1));
            }
            i = i + 1;
        }
        proof {
            assert(ob@.subrange(0, ob@.len() as int) =~= ob@);
            assert(v@ =~= self.spec_encode());
            assert(self.spec_operand().spec_len() == ob@.len());
        }
        v
    }

    /// The instruction decoded from a byte string whose length equals the
    /// instruction length of its leading opcode byte.
    pub open spec fn spec_fetch(s: Seq<u8>) -> Op {
        match s[0] {
            0x00 => Op::Brk,
            0x01 => Op::OraIndX(ZpAddress(s[1])),
            0x02 => Op::Kil02,
            0x03 => Op::SloIndX(ZpAddress(s[1])),
            0x04 => Op::NopZp04(ZpAddress(s[1])),
            0x05 => Op::OraZp(ZpAddress(s[1])),
            0x06 => Op::AslZp(ZpAddress(s[1])),
            0x07 => Op::SloZp(ZpAddress(s[1])),
            0x08 => Op::Php,
            0x09 => Op::OraImm(s[1]),
            0x0A => Op::AslAcc,
            0x0B => Op::Anc0B(s[1]),
            0x0C => Op::NopAbs(Address((s[1] + 0x100 * s[2]) as u16)),
            0x0D => Op::OraAbs(Address((s[1] + 0x100 * s[2]) as u16)),
            0x0E => Op::AslAbs(Address((s[1] + 0x100 * s[2]) as u16)),
            0x0F => Op::SloAbs(Address((s[1] + 0x100 * s[2]) as u16)),
            0x10 => Op::Bpl(s[1] as i8),
            0x11 => Op::OraIndY(ZpAddress(s[1])),
            0x12 => Op::Kil12,
            0x13 => Op::SloIndY(ZpAddress(s[1])),
            0x14 => Op::NopZpX14(ZpAddress(s[1])),
            0x15 => Op::OraZpX(ZpAddress(s[1])),
            0x16 => Op::AslZpX(ZpAddress(s[1])),
            0x17 => Op::SloZpX(ZpAddress(s[1])),
            0x18 => Op::Clc,
            0x19 => Op::OraAbsY(Address((s[1] + 0x100 * s[2]) as u16)),
            0x1A => Op::Nop1A,
            0x1B => Op::SloAbsY(Address((s[1] + 0x100 * s[2]) as u16)),
            0x1C => Op::NopAbsX1C(Address((s[1] + 0x100 * s[2]) as u16)),
            0x1D => Op::OraAbsX(Address((s[1] + 0x100 * s[2]) as u16)),
            0x1E => Op::AslAbsX(Address((s[1] + 0x100 * s[2]) as u16)),
            0x1F => Op::SloAbsX(Address((s[1] + 0x100 * s[2]) as u16)),
            0x20 => Op::Jsr(Address((s[1] + 0x100 * s[2]) as u16)),
            0x21 => Op::AndIndX(ZpAddress(s[1])),
            0x22 => Op::Kil22,
            0x23 => Op::RlaIndX(ZpAddress(s[1])),
            0x24 => Op::BitZp(ZpAddress(s[1])),
            0x25 => Op::AndZp(ZpAddress(s[1])),
            0x26 => Op::RolZp(ZpAddress(s[1])),
            0x27 => Op::RlaZp(ZpAddress(s[1])),
            0x28 => Op::Plp,
            0x29 => Op::AndImm(s[1]),
            0x2A => Op::RolAcc,
            0x2B => Op::Anc2B(s[1]),
            0x2C => Op::BitAbs(Address((s[1] + 0x100 * s[2]) as u16)),
            0x2D => Op::AndAbs(Address((s[1] + 0x100 * s[2]) as u16)),
            0x2E => Op::RolAbs(Address((s[1] + 0x100 * s[2]) as u16)),
            0x2F => Op::RlaAbs(Address((s[1] + 0x100 * s[2]) as u16)),
            0x30 => Op::Bmi(s[1] as i8),
            0x31 => Op::AndIndY(ZpAddress(s[1])),
            0x32 => Op::Kil32,
            0x33 => Op::RlaIndY(ZpAddress(s[1])),
            0x34 => Op::NopZpX34(ZpAddress(s[1])),
            0x35 => Op::AndZpX(ZpAddress(s[1])),
            0x36 => Op::RolZpX(ZpAddress(s[1])),
            0x37 => Op::RlaZpX(ZpAddress(s[1])),
            0x38 => Op::Sec,
            0x39 => Op::AndAbsY(Address((s[1] + 0x100 * s[2]) as u16)),
            0x3A => Op::Nop3A,
            0x3B => Op::RlaAbsY(Address((s[1] + 0x100 * s[2]) as u16)),
            0x3C => Op::NopAbsX3C(Address((s[1] + 0x100 * s[2]) as u16)),
            0x3D => Op::AndAbsX(Address((s[1] + 0x100 * s[2]) as u16)),
            0x3E => Op::RolAbsX(Address((s[1] + 0x100 * s[2]) as u16)),
            0x3F => Op::RlaAbsX(Address((s[1] + 0x100 * s[2]) as u16)),
            0x40 => Op::Rti,
            0x41 => Op::EorIndX(ZpAddress(s[1])),
            0x42 => Op::Kil42,
            0x43 => Op::SreIndX(ZpAddress(s[1])),
            0x44 => Op::NopZp44(ZpAddress(s[1])),
            0x45 => Op::EorZp(ZpAddress(s[1])),
            0x46 => Op::LsrZp(ZpAddress(s[1])),
            0x47 => Op::SreZp(ZpAddress(s[1])),
            0x48 => Op::Pha,
            0x49 => Op::EorImm(s[1]),
            0x4A => Op::LsrAcc,
            0x4B => Op::Alr(s[1]),
            0x4C => Op::JmpAbs(Address((s[1] + 0x100 * s[2]) as u16)),
            0x4D => Op::EorAbs(Address((s[1] + 0x100 * s[2]) as u16)),
            0x4E => Op::LsrAbs(Address((s[1] + 0x100 * s[2]) as u16)),
            0x4F => Op::SreAbs(Address((s[1] + 0x100 * s[2]) as u16)),
            0x50 => Op::Bvc(s[1] as i8),
            0x51 => Op::EorIndY(ZpAddress(s[1])),
            0x52 => Op::Kil52,
            0x53 => Op::SreIndY(ZpAddress(s[1])),
            0x54 => Op::NopZpX54(ZpAddress(s[1])),
            0x55 => Op::EorZpX(ZpAddress(s[1])),
            0x56 => Op::LsrZpX(ZpAddress(s[1])),
            0x57 => Op::SreZpX(ZpAddress(s[1])),
            0x58 => Op::Cli,
            0x59 => Op::EorAbsY(Address((s[1] + 0x100 * s[2]) as u16)),
            0x5A => Op::Nop5A,
            0x5B => Op::SreAbsY(Address((s[1] + 0x100 * s[2]) as u16)),
            0x5C => Op::NopAbsX5C(Address((s[1] + 0x100 * s[2]) as u16)),
            0x5D => Op::EorAbsX(Address((s[1] + 0x100 * s[2]) as u16)),
            0x5E => Op::LsrAbsX(Address((s[1] + 0x100 * s[2]) as u16)),
            0x5F => Op::SreAbsX(Address((s[1] + 0x100 * s[2]) as u16)),
            0x60 => Op::Rts,
            0x61 => Op::AdcIndX(ZpAddress(s[1])),
            0x62 => Op::Kil62,
            0x63 => Op::RraIndX(ZpAddress(s[1])),
            0x64 => Op::NopZp64(ZpAddress(s[1])),
            0x65 => Op::AdcZp(ZpAddress(s[1])),
            0x66 => Op::RorZp(ZpAddress(s[1])),
            0x67 => Op::RraZp(ZpAddress(s[1])),
            0x68 => Op::Pla,
            0x69 => Op::AdcImm(s[1]),
            0x6A => Op::RorAcc,
            0x6B => Op::Arr(s[1]),
            0x6C => Op::JmpInd(Address((s[1] + 0x100 * s[2]) as u16)),
            0x6D => Op::AdcAbs(Address((s[1] + 0x100 * s[2]) as u16)),
            0x6E => Op::RorAbs(Address((s[1] + 0x100 * s[2]) as u16)),
            0x6F => Op::RraAbs(Address((s[1] + 0x100 * s[2]) as u16)),
            0x70 => Op::Bvs(s[1] as i8),
            0x71 => Op::AdcIndY(ZpAddress(s[1])),
            0x72 => Op::Kil72,
            0x73 => Op::RraIndY(ZpAddress(s[1])),
            0x74 => Op::NopZpX74(ZpAddress(s[1])),
            0x75 => Op::AdcZpX(ZpAddress(s[1])),
            0x76 => Op::RorZpX(ZpAddress(s[1])),
            0x77 => Op::RraZpX(ZpAddress(s[1])),
            0x78 => Op::Sei,
            0x79 => Op::AdcAbsY(Address((s[1] + 0x100 * s[2]) as u16)),
            0x7A => Op::Nop7A,
            0x7B => Op::RraAbsY(Address((s[1] + 0x100 * s[2]) as u16)),
            0x7C => Op::NopAbsX7C(Address((s[1] + 0x100 * s[2]) as u16)),
            0x7D => Op::AdcAbsX(Address((s[1] + 0x100 * s[2]) as u16)),
            0x7E => Op::RorAbsX(Address((s[1] + 0x100 * s[2]) as u16)),
            0x7F => Op::RraAbsX(Address((s[1] + 0x100 * s[2]) as u16)),
            0x80 => Op::NopImm80(s[1]),
            0x81 => Op::StaIndX(ZpAddress(s[1])),
            0x82 => Op::NopImm82(s[1]),
            0x83 => Op::SaxIndX(ZpAddress(s[1])),
            0x84 => Op::StyZp(ZpAddress(s[1])),
            0x85 => Op::StaZp(ZpAddress(s[1])),
            0x86 => Op::StxZp(ZpAddress(s[1])),
            0x87 => Op::SaxZp(ZpAddress(s[1])),
            0x88 => Op::Dey,
            0x89 => Op::NopImm89(s[1]),
            0x8A => Op::Txa,
            0x8B => Op::Xaa(s[1]),
            0x8C => Op::StyAbs(Address((s[1] + 0x100 * s[2]) as u16)),
            0x8D => Op::StaAbs(Address((s[1] + 0x100 * s[2]) as u16)),
            0x8E => Op::StxAbs(Address((s[1] + 0x100 * s[2]) as u16)),
            0x8F => Op::SaxAbs(Address((s[1] + 0x100 * s[2]) as u16)),
            0x90 => Op::Bcc(s[1] as i8),
            0x91 => Op::StaIndY(ZpAddress(s[1])),
            0x92 => Op::Kil92,
            0x93 => Op::AhxIndY(ZpAddress(s[1])),
            0x94 => Op::StyZpX(ZpAddress(s[1])),
            0x95 => Op::StaZpX(ZpAddress(s[1])),
            0x96 => Op::StxZpY(ZpAddress(s[1])),
            0x97 => Op::SaxZpY(ZpAddress(s[1])),
            0x98 => Op::Tya,
            0x99 => Op::StaAbsY(Address((s[1] + 0x100 * s[2]) as u16)),
            0x9A => Op::Txs,
            0x9B => Op::Tas(Address((s[1] + 0x100 * s[2]) as u16)),
            0x9C => Op::Shy(Address((s[1] + 0x100 * s[2]) as u16)),
            0x9D => Op::StaAbsX(Address((s[1] + 0x100 * s[2]) as u16)),
            0x9E => Op::Shx(Address((s[1] + 0x100 * s[2]) as u16)),
            0x9F => Op::AhxAbsY(Address((s[1] + 0x100 * s[2]) as u16)),
            0xA0 => Op::LdyImm(s[1]),
            0xA1 => Op::LdaIndX(ZpAddress(s[1])),
            0xA2 => Op::LdxImm(s[1]),
            0xA3 => Op::LaxIndX(ZpAddress(s[1])),
            0xA4 => Op::LdyZp(ZpAddress(s[1])),
            0xA5 => Op::LdaZp(ZpAddress(s[1])),
            0xA6 => Op::LdxZp(ZpAddress(s[1])),
            0xA7 => Op::LaxZp(ZpAddress(s[1])),
            0xA8 => Op::Tay,
            0xA9 => Op::LdaImm(s[1]),
            0xAA => Op::Tax,
            0xAB => Op::LaxImm(s[1]),
            0xAC => Op::LdyAbs(Address((s[1] + 0x100 * s[2]) as u16)),
            0xAD => Op::LdaAbs(Address((s[1] + 0x100 * s[2]) as u16)),
            0xAE => Op::LdxAbs(Address((s[1] + 0x100 * s[2]) as u16)),
            0xAF => Op::LaxAbs(Address((s[1] + 0x100 * s[2]) as u16)),
            0xB0 => Op::Bcs(s[1] as i8),
            0xB1 => Op::LdaIndY(ZpAddress(s[1])),
            0xB2 => Op::KilB2,
            0xB3 => Op::LaxIndY(ZpAddress(s[1])),
            0xB4 => Op::LdyZpX(ZpAddress(s[1])),
            0xB5 => Op::LdaZpX(ZpAddress(s[1])),
            0xB6 => Op::LdxZpY(ZpAddress(s[1])),
            0xB7 => Op::LaxZpY(ZpAddress(s[1])),
            0xB8 => Op::Clv,
            0xB9 => Op::LdaAbsY(Address((s[1] + 0x100 * s[2]) as u16)),
            0xBA => Op::Tsx,
            0xBB => Op::Las(Address((s[1] + 0x100 * s[2]) as u16)),
            0xBC => Op::LdyAbsX(Address((s[1] + 0x100 * s[2]) as u16)),
            0xBD => Op::LdaAbsX(Address((s[1] + 0x100 * s[2]) as u16)),
            0xBE => Op::LdxAbsY(Address((s[1] + 0x100 * s[2]) as u16)),
            0xBF => Op::LaxAbsY(Address((s[1] + 0x100 * s[2]) as u16)),
            0xC0 => Op::CpyImm(s[1]),
            0xC1 => Op::CmpIndX(ZpAddress(s[1])),
            0xC2 => Op::NopImmC2(s[1]),
            0xC3 => Op::DcpIndX(ZpAddress(s[1])),
            0xC4 => Op::CpyZp(ZpAddress(s[1])),
            0xC5 => Op::CmpZp(ZpAddress(s[1])),
            0xC6 => Op::DecZp(ZpAddress(s[1])),
            0xC7 => Op::DcpZp(ZpAddress(s[1])),
            0xC8 => Op::Iny,
            0xC9 => Op::CmpImm(s[1]),
            0xCA => Op::Dex,
            0xCB => Op::Axs(s[1]),
            0xCC => Op::CpyAbs(Address((s[1] + 0x100 * s[2]) as u16)),
            0xCD => Op::CmpAbs(Address((s[1] + 0x100 * s[2]) as u16)),
            0xCE => Op::DecAbs(Address((s[1] + 0x100 * s[2]) as u16)),
            0xCF => Op::DcpAbs(Address((s[1] + 0x100 * s[2]) as u16)),
            0xD0 => Op::Bne(s[1] as i8),
            0xD1 => Op::CmpIndY(ZpAddress(s[1])),
            0xD2 => Op::KilD2,
            0xD3 => Op::DcpIndY(ZpAddress(s[1])),
            0xD4 => Op::NopZpXD4(ZpAddress(s[1])),
            0xD5 => Op::CmpZpX(ZpAddress(s[1])),
            0xD6 => Op::DecZpX(ZpAddress(s[1])),
            0xD7 => Op::DcpZpX(ZpAddress(s[1])),
            0xD8 => Op::Cld,
            0xD9 => Op::CmpAbsY(Address((s[1] + 0x100 * s[2]) as u16)),
            0xDA => Op::NopDA,
            0xDB => Op::DcpAbsY(Address((s[1] + 0x100 * s[2]) as u16)),
            0xDC => Op::NopAbsXDC(Address((s[1] + 0x100 * s[2]) as u16)),
            0xDD => Op::CmpAbsX(Address((s[1] + 0x100 * s[2]) as u16)),
            0xDE => Op::DecAbsX(Address((s[1] + 0x100 * s[2]) as u16)),
            0xDF => Op::DcpAbsX(Address((s[1] + 0x100 * s[2]) as u16)),
            0xE0 => Op::CpxImm(s[1]),
            0xE1 => Op::SbcIndX(ZpAddress(s[1])),
            0xE2 => Op::NopImmE2(s[1]),
            0xE3 => Op::IscIndX(ZpAddress(s[1])),
            0xE4 => Op::CpxZp(ZpAddress(s[1])),
            0xE5 => Op::SbcZp(ZpAddress(s[1])),
            0xE6 => Op::IncZp(ZpAddress(s[1])),
            0xE7 => Op::IscZp(ZpAddress(s[1])),
            0xE8 => Op::Inx,
            0xE9 => Op::SbcImmE9(s[1]),
            0xEA => Op::NopEA,
            0xEB => Op::SbcImmEB(s[1]),
            0xEC => Op::CpxAbs(Address((s[1] + 0x100 * s[2]) as u16)),
            0xED => Op::SbcAbs(Address((s[1] + 0x100 * s[2]) as u16)),
            0xEE => Op::IncAbs(Address((s[1] + 0x100 * s[2]) as u16)),
            0xEF => Op::IscAbs(Address((s[1] + 0x100 * s[2]) as u16)),
            0xF0 => Op::Beq(s[1] as i8),
            0xF1 => Op::SbcIndY(ZpAddress(s[1])),
            0xF2 => Op::KilF2,
            0xF3 => Op::IscIndY(ZpAddress(s[1])),
            0xF4 => Op::NopZpXF4(ZpAddress(s[1])),
            0xF5 => Op::SbcZpX(ZpAddress(s[1])),
            0xF6 => Op::IncZpX(ZpAddress(s[1])),
            0xF7 => Op::IscZpX(ZpAddress(s[1])),
            0xF8 => Op::Sed,
            0xF9 => Op::SbcAbsY(Address((s[1] + 0x100 * s[2]) as u16)),
            0xFA => Op::NopFA,
            0xFB => Op::IscAbsY(Address((s[1] + 0x100 * s[2]) as u16)),
            0xFC => Op::NopAbsXFC(Address((s[1] + 0x100 * s[2]) as u16)),
            0xFD => Op::SbcAbsX(Address((s[1] + 0x100 * s[2]) as u16)),
            0xFE => Op::IncAbsX(Address((s[1] + 0x100 * s[2]) as u16)),
            _ => Op::IscAbsX(Address((s[1] + 0x100 * s[2]) as u16)),
        }
    }

    /// Decodes one instruction from machine code. The buffer must hold the
    /// instruction exactly: its length must equal the instruction length
    /// determined by the leading opcode byte.
    pub fn fetch(buf: &[u8]) -> (r: Op)
        requires
            buf@.len() == Opcode::spec_op_len(buf@[0]),
        ensures
            r == Op::spec_fetch(buf@),
    {
        let b: u8 = buf[0];
        match b {
            0x00 => Op::Brk,
            0x01 => Op::OraIndX(ZpAddress::new(buf[1])),
            0x02 => Op::Kil02,
            0x03 => Op::SloIndX(ZpAddress::new(buf[1])),
            0x04 => Op::NopZp04(ZpAddress::new(buf[1])),
            0x05 => Op::OraZp(ZpAddress::new(buf[1])),
            0x06 => Op::AslZp(ZpAddress::new(buf[1])),
            0x07 => Op::SloZp(ZpAddress::new(buf[1])),
            0x08 => Op::Php,
            0x09 => Op::OraImm(buf[1]),
            0x0A => Op::AslAcc,
            0x0B => Op::Anc0B(buf[1]),
            0x0C => Op::NopAbs(Address::from_le_bytes([buf[1], buf[2]])),
            0x0D => Op::OraAbs(Address::from_le_bytes([buf[1], buf[2]])),
            0x0E => Op::AslAbs(Address::from_le_bytes([buf[1], buf[2]])),
            0x0F => Op::SloAbs(Address::from_le_bytes([buf[1], buf[2]])),
            0x10 => Op::Bpl(#[verifier::truncate] (buf[1] as i8)),
            0x11 => Op::OraIndY(ZpAddress::new(buf[1])),
            0x12 => Op::Kil12,
            0x13 => Op::SloIndY(ZpAddress::new(buf[1])),
            0x14 => Op::NopZpX14(ZpAddress::new(buf[1])),
            0x15 => Op::OraZpX(ZpAddress::new(buf[1])),
            0x16 => Op::AslZpX(ZpAddress::new(buf[1])),
            0x17 => Op::SloZpX(ZpAddress::new(buf[1])),
            0x18 => Op::Clc,
            0x19 => Op::OraAbsY(Address::from_le_bytes([buf[1], buf[2]])),
            0x1A => Op::Nop1A,
            0x1B => Op::SloAbsY(Address::from_le_bytes([buf[1], buf[2]])),
            0x1C => Op::NopAbsX1C(Address::from_le_bytes([buf[1], buf[2]])),
            0x1D => Op::OraAbsX(Address::from_le_bytes([buf[1], buf[2]])),
            0x1E => Op::AslAbsX(Address::from_le_bytes([buf[1], buf[2]])),
            0x1F => Op::SloAbsX(Address::from_le_bytes([buf[1], buf[2]])),
            0x20 => Op::Jsr(Address::from_le_bytes([buf[1], buf[2]])),
            0x21 => Op::AndIndX(ZpAddress::new(buf[1])),
            0x22 => Op::Kil22,
            0x23 => Op::RlaIndX(ZpAddress::new(buf[1])),
            0x24 => Op::BitZp(ZpAddress::new(buf[1])),
            0x25 => Op::AndZp(ZpAddress::new(buf[1])),
            0x26 => Op::RolZp(ZpAddress::new(buf[1])),
            0x27 => Op::RlaZp(ZpAddress::new(buf[1])),
            0x28 => Op::Plp,
            0x29 => Op::AndImm(buf[1]),
            0x2A => Op::RolAcc,
            0x2B => Op::Anc2B(buf[1]),
            0x2C => Op::BitAbs(Address::from_le_bytes([buf[1], buf[2]])),
            0x2D => Op::AndAbs(Address::from_le_bytes([buf[1], buf[2]])),
            0x2E => Op::RolAbs(Address::from_le_bytes([buf[1], buf[2]])),
            0x2F => Op::RlaAbs(Address::from_le_bytes([buf[1], buf[2]])),
            0x30 => Op::Bmi(#[verifier::truncate] (buf[1] as i8)),
            0x31 => Op::AndIndY(ZpAddress::new(buf[1])),
            0x32 => Op::Kil32,
            0x33 => Op::RlaIndY(ZpAddress::new(buf[1])),
            0x34 => Op::NopZpX34(ZpAddress::new(buf[1])),
            0x35 => Op::AndZpX(ZpAddress::new(buf[1])),
            0x36 => Op::RolZpX(ZpAddress::new(buf[1])),
            0x37 => Op::RlaZpX(ZpAddress::new(buf[1])),
            0x38 => Op::Sec,
            0x39 => Op::AndAbsY(Address::from_le_bytes([buf[1], buf[2]])),
            0x3A => Op::Nop3A,
            0x3B => Op::RlaAbsY(Address::from_le_bytes([buf[1], buf[2]])),
            0x3C => Op::NopAbsX3C(Address::from_le_bytes([buf[1], buf[2]])),
            0x3D => Op::AndAbsX(Address::from_le_bytes([buf[1], buf[2]])),
            0x3E => Op::RolAbsX(Address::from_le_bytes([buf[1], buf[2]])),
            0x3F => Op::RlaAbsX(Address::from_le_bytes([buf[1], buf[2]])),
            0x40 => Op::Rti,
            0x41 => Op::EorIndX(ZpAddress::new(buf[1])),
            0x42 => Op::Kil42,
            0x43 => Op::SreIndX(ZpAddress::new(buf[1])),
            0x44 => Op::NopZp44(ZpAddress::new(buf[1])),
            0x45 => Op::EorZp(ZpAddress::new(buf[1])),
            0x46 => Op::LsrZp(ZpAddress::new(buf[1])),
            0x47 => Op::SreZp(ZpAddress::new(buf[1])),
            0x48 => Op::Pha,
            0x49 => Op::EorImm(buf[1]),
            0x4A => Op::LsrAcc,
            0x4B => Op::Alr(buf[1]),
            0x4C => Op::JmpAbs(Address::from_le_bytes([buf[1], buf[2]])),
            0x4D => Op::EorAbs(Address::from_le_bytes([buf[1], buf[2]])),
            0x4E => Op::LsrAbs(Address::from_le_bytes([buf[1], buf[2]])),
            0x4F => Op::SreAbs(Address::from_le_bytes([buf[1], buf[2]])),
            0x50 => Op::Bvc(#[verifier::truncate] (buf[1] as i8)),
            0x51 => Op::EorIndY(ZpAddress::new(buf[1])),
            0x52 => Op::Kil52,
            0x53 => Op::SreIndY(ZpAddress::new(buf[1])),
            0x54 => Op::NopZpX54(ZpAddress::new(buf[1])),
            0x55 => Op::EorZpX(ZpAddress::new(buf[1])),
            0x56 => Op::LsrZpX(ZpAddress::new(buf[1])),
            0x57 => Op::SreZpX(ZpAddress::new(buf[1])),
            0x58 => Op::Cli,
            0x59 => Op::EorAbsY(Address::from_le_bytes([buf[1], buf[2]])),
            0x5A => Op::Nop5A,
            0x5B => Op::SreAbsY(Address::from_le_bytes([buf[1], buf[2]])),
            0x5C => Op::NopAbsX5C(Address::from_le_bytes([buf[1], buf[2]])),
            0x5D => Op::EorAbsX(Address::from_le_bytes([buf[1], buf[2]])),
            0x5E => Op::LsrAbsX(Address::from_le_bytes([buf[1], buf[2]])),
            0x5F => Op::SreAbsX(Address::from_le_bytes([buf[1], buf[2]])),
            0x60 => Op::Rts,
            0x61 => Op::AdcIndX(ZpAddress::new(buf[1])),
            0x62 => Op::Kil62,
            0x63 => Op::RraIndX(ZpAddress::new(buf[1])),
            0x64 => Op::NopZp64(ZpAddress::new(buf[1])),
            0x65 => Op::AdcZp(ZpAddress::new(buf[1])),
            0x66 => Op::RorZp(ZpAddress::new(buf[1])),
            0x67 => Op::RraZp(ZpAddress::new(buf[1])),
            0x68 => Op::Pla,
            0x69 => Op::AdcImm(buf[1]),
            0x6A => Op::RorAcc,
            0x6B => Op::Arr(buf[1]),
            0x6C => Op::JmpInd(Address::from_le_bytes([buf[1], buf[2]])),
            0x6D => Op::AdcAbs(Address::from_le_bytes([buf[1], buf[2]])),
            0x6E => Op::RorAbs(Address::from_le_bytes([buf[1], buf[2]])),
            0x6F => Op::RraAbs(Address::from_le_bytes([buf[1], buf[2]])),
            0x70 => Op::Bvs(#[verifier::truncate] (buf[1] as i8)),
            0x71 => Op::AdcIndY(ZpAddress::new(buf[1])),
            0x72 => Op::Kil72,
            0x73 => Op::RraIndY(ZpAddress::new(buf[1])),
            0x74 => Op::NopZpX74(ZpAddress::new(buf[1])),
            0x75 => Op::AdcZpX(ZpAddress::new(buf[1])),
            0x76 => Op::RorZpX(ZpAddress::new(buf[1])),
            0x77 => Op::RraZpX(ZpAddress::new(buf[1])),
            0x78 => Op::Sei,
            0x79 => Op::AdcAbsY(Address::from_le_bytes([buf[1], buf[2]])),
            0x7A => Op::Nop7A,
            0x7B => Op::RraAbsY(Address::from_le_bytes([buf[1], buf[2]])),
            0x7C => Op::NopAbsX7C(Address::from_le_bytes([buf[1], buf[2]])),
            0x7D => Op::AdcAbsX(Address::from_le_bytes([buf[1], buf[2]])),
            0x7E => Op::RorAbsX(Address::from_le_bytes([buf[1], buf[2]])),
            0x7F => Op::RraAbsX(Address::from_le_bytes([buf[1], buf[2]])),
            0x80 => Op::NopImm80(buf[1]),
            0x81 => Op::StaIndX(ZpAddress::new(buf[1])),
            0x82 => Op::NopImm82(buf[1]),
            0x83 => Op::SaxIndX(ZpAddress::new(buf[1])),
            0x84 => Op::StyZp(ZpAddress::new(buf[1])),
            0x85 => Op::StaZp(ZpAddress::new(buf[1])),
            0x86 => Op::StxZp(ZpAddress::new(buf[1])),
            0x87 => Op::SaxZp(ZpAddress::new(buf[1])),
            0x88 => Op::Dey,
            0x89 => Op::NopImm89(buf[1]),
            0x8A => Op::Txa,
            0x8B => Op::Xaa(buf[1]),
            0x8C => Op::StyAbs(Address::from_le_bytes([buf[1], buf[2]])),
            0x8D => Op::StaAbs(Address::from_le_bytes([buf[1], buf[2]])),
            0x8E => Op::StxAbs(Address::from_le_bytes([buf[1], buf[2]])),
            0x8F => Op::SaxAbs(Address::from_le_bytes([buf[1], buf[2]])),
            0x90 => Op::Bcc(#[verifier::truncate] (buf[1] as i8)),
            0x91 => Op::StaIndY(ZpAddress::new(buf[1])),
            0x92 => Op::Kil92,
            0x93 => Op::AhxIndY(ZpAddress::new(buf[1])),
            0x94 => Op::StyZpX(ZpAddress::new(buf[1])),
            0x95 => Op::StaZpX(ZpAddress::new(buf[1])),
            0x96 => Op::StxZpY(ZpAddress::new(buf[1])),
            0x97 => Op::SaxZpY(ZpAddress::new(buf[1])),
            0x98 => Op::Tya,
            0x99 => Op::StaAbsY(Address::from_le_bytes([buf[1], buf[2]])),
            0x9A => Op::Txs,
            0x9B => Op::Tas(Address::from_le_bytes([buf[1], buf[2]])),
            0x9C => Op::Shy(Address::from_le_bytes([buf[1], buf[2]])),
            0x9D => Op::StaAbsX(Address::from_le_bytes([buf[1], buf[2]])),
            0x9E => Op::Shx(Address::from_le_bytes([buf[1], buf[2]])),
            0x9F => Op::AhxAbsY(Address::from_le_bytes([buf[1], buf[2]])),
            0xA0 => Op::LdyImm(buf[1]),
            0xA1 => Op::LdaIndX(ZpAddress::new(buf[1])),
            0xA2 => Op::LdxImm(buf[1]),
            0xA3 => Op::LaxIndX(ZpAddress::new(buf[1])),
            0xA4 => Op::LdyZp(ZpAddress::new(buf[1])),
            0xA5 => Op::LdaZp(ZpAddress::new(buf[1])),
            0xA6 => Op::LdxZp(ZpAddress::new(buf[1])),
            0xA7 => Op::LaxZp(ZpAddress::new(buf[1])),
            0xA8 => Op::Tay,
            0xA9 => Op::LdaImm(buf[1]),
            0xAA => Op::Tax,
            0xAB => Op::LaxImm(buf[1]),
            0xAC => Op::LdyAbs(Address::from_le_bytes([buf[1], buf[2]])),
            0xAD => Op::LdaAbs(Address::from_le_bytes([buf[1], buf[2]])),
            0xAE => Op::LdxAbs(Address::from_le_bytes([buf[1], buf[2]])),
            0xAF => Op::LaxAbs(Address::from_le_bytes([buf[1], buf[2]])),
            0xB0 => Op::Bcs(#[verifier::truncate] (buf[1] as i8)),
            0xB1 => Op::LdaIndY(ZpAddress::new(buf[1])),
            0xB2 => Op::KilB2,
            0xB3 => Op::LaxIndY(ZpAddress::new(buf[1])),
            0xB4 => Op::LdyZpX(ZpAddress::new(buf[1])),
            0xB5 => Op::LdaZpX(ZpAddress::new(buf[1])),
            0xB6 => Op::LdxZpY(ZpAddress::new(buf[1])),
            0xB7 => Op::LaxZpY(ZpAddress::new(buf[1])),
            0xB8 => Op::Clv,
            0xB9 => Op::LdaAbsY(Address::from_le_bytes([buf[1], buf[2]])),
            0xBA => Op::Tsx,
            0xBB => Op::Las(Address::from_le_bytes([buf[1], buf[2]])),
            0xBC => Op::LdyAbsX(Address::from_le_bytes([buf[1], buf[2]])),
            0xBD => Op::LdaAbsX(Address::from_le_bytes([buf[1], buf[2]])),
            0xBE => Op::LdxAbsY(Address::from_le_bytes([buf[1], buf[2]])),
            0xBF => Op::LaxAbsY(Address::from_le_bytes([buf[1], buf[2]])),
            0xC0 => Op::CpyImm(buf[1]),
            0xC1 => Op::CmpIndX(ZpAddress::new(buf[1])),
            0xC2 => Op::NopImmC2(buf[1]),
            0xC3 => Op::DcpIndX(ZpAddress::new(buf[1])),
            0xC4 => Op::CpyZp(ZpAddress::new(buf[1])),
            0xC5 => Op::CmpZp(ZpAddress::new(buf[1])),
            0xC6 => Op::DecZp(ZpAddress::new(buf[1])),
            0xC7 => Op::DcpZp(ZpAddress::new(buf[1])),
            0xC8 => Op::Iny,
            0xC9 => Op::CmpImm(buf[1]),
            0xCA => Op::Dex,
            0xCB => Op::Axs(buf[1]),
            0xCC => Op::CpyAbs(Address::from_le_bytes([buf[1], buf[2]])),
            0xCD => Op::CmpAbs(Address::from_le_bytes([buf[1], buf[2]])),
            0xCE => Op::DecAbs(Address::from_le_bytes([buf[1], buf[2]])),
            0xCF => Op::DcpAbs(Address::from_le_bytes([buf[1], buf[2]])),
            0xD0 => Op::Bne(#[verifier::truncate] (buf[1] as i8)),
            0xD1 => Op::CmpIndY(ZpAddress::new(buf[1])),
            0xD2 => Op::KilD2,
            0xD3 => Op::DcpIndY(ZpAddress::new(buf[1])),
            0xD4 => Op::NopZpXD4(ZpAddress::new(buf[1])),
            0xD5 => Op::CmpZpX(ZpAddress::new(buf[1])),
            0xD6 => Op::DecZpX(ZpAddress::new(buf[1])),
            0xD7 => Op::DcpZpX(ZpAddress::new(buf[1])),
            0xD8 => Op::Cld,
            0xD9 => Op::CmpAbsY(Address::from_le_bytes([buf[1], buf[2]])),
            0xDA => Op::NopDA,
            0xDB => Op::DcpAbsY(Address::from_le_bytes([buf[1], buf[2]])),
            0xDC => Op::NopAbsXDC(Address::from_le_bytes([buf[1], buf[2]])),
            0xDD => Op::CmpAbsX(Address::from_le_bytes([buf[1], buf[2]])),
            0xDE => Op::DecAbsX(Address::from_le_bytes([buf[1], buf[2]])),
            0xDF => Op::DcpAbsX(Address::from_le_bytes([buf[1], buf[2]])),
            0xE0 => Op::CpxImm(buf[1]),
            0xE1 => Op::SbcIndX(ZpAddress::new(buf[1])),
            0xE2 => Op::NopImmE2(buf[1]),
            0xE3 => Op::IscIndX(ZpAddress::new(buf[1])),
            0xE4 => Op::CpxZp(ZpAddress::new(buf[1])),
            0xE5 => Op::SbcZp(ZpAddress::new(buf[1])),
            0xE6 => Op::IncZp(ZpAddress::new(buf[1])),
            0xE7 => Op::IscZp(ZpAddress::new(buf[1])),
            0xE8 => Op::Inx,
            0xE9 => Op::SbcImmE9(buf[1]),
            0xEA => Op::NopEA,
            0xEB => Op::SbcImmEB(buf[1]),
            0xEC => Op::CpxAbs(Address::from_le_bytes([buf[1], buf[2]])),
            0xED => Op::SbcAbs(Address::from_le_bytes([buf[1], buf[2]])),
            0xEE => Op::IncAbs(Address::from_le_bytes([buf[1], buf[2]])),
            0xEF => Op::IscAbs(Address::from_le_bytes([buf[1], buf[2]])),
            0xF0 => Op::Beq(#[verifier::truncate] (buf[1] as i8)),
            0xF1 => Op::SbcIndY(ZpAddress::new(buf[1])),
            0xF2 => Op::KilF2,
            0xF3 => Op::IscIndY(ZpAddress::new(buf[1])),
            0xF4 => Op::NopZpXF4(ZpAddress::new(buf[1])),
            0xF5 => Op::SbcZpX(ZpAddress::new(buf[1])),
            0xF6 => Op::IncZpX(ZpAddress::new(buf[1])),
            0xF7 => Op::IscZpX(ZpAddress::new(buf[1])),
            0xF8 => Op::Sed,
            0xF9 => Op::SbcAbsY(Address::from_le_bytes([buf[1], buf[2]])),
            0xFA => Op::NopFA,
            0xFB => Op::IscAbsY(Address::from_le_bytes([buf[1], buf[2]])),
            0xFC => Op::NopAbsXFC(Address::from_le_bytes([buf[1], buf[2]])),
            0xFD => Op::SbcAbsX(Address::from_le_bytes([buf[1], buf[2]])),
            0xFE => Op::IncAbsX(Address::from_le_bytes([buf[1], buf[2]])),
            _ => Op::IscAbsX(Address::from_le_bytes([buf[1], buf[2]])),
        }
    }
}

/// The opcode byte of a CPU instruction.
#[derive(Clone, Copy, Debug, PartialEq, Eq, Structural)]
pub struct Opcode(pub u8);

impl Opcode {
    pub open spec fn spec_get(self) -> u8 {
        self.0
    }

    pub fn new(inner: u8) -> (r: Self)
        ensures
            r.get() == inner,
    {
        Opcode(inner)
    }

    #[verifier::when_used_as_spec(spec_get)]
    pub fn get(self) -> (r: u8)
        ensures
            r == self.get(),
    {
        self.0
    }

    pub open spec fn spec_operand_len(b: u8) -> int {
        match b {
            0x00 | 0x02 | 0x08 | 0x0A | 0x12 | 0x18 | 0x1A | 0x22 | 0x28 | 0x2A | 0x32 | 0x38 |
            0x3A | 0x40 | 0x42 | 0x48 | 0x4A | 0x52 | 0x58 | 0x5A | 0x60 | 0x62 | 0x68 | 0x6A |
            0x72 | 0x78 | 0x7A | 0x88 | 0x8A | 0x92 | 0x98 | 0x9A | 0xA8 | 0xAA | 0xB2 | 0xB8 |
            0xBA | 0xC8 | 0xCA | 0xD2 | 0xD8 | 0xDA | 0xE8 | 0xEA | 0xF2 | 0xF8 | 0xFA => 0,
            0x01 | 0x03 | 0x04 | 0x05 | 0x06 | 0x07 | 0x09 | 0x0B | 0x10 | 0x11 | 0x13 | 0x14 |
            0x15 | 0x16 | 0x17 | 0x21 | 0x23 | 0x24 | 0x25 | 0x26 | 0x27 | 0x29 | 0x2B | 0x30 |
            0x31 | 0x33 | 0x34 | 0x35 | 0x36 | 0x37 | 0x41 | 0x43 | 0x44 | 0x45 | 0x46 | 0x47 |
            0x49 | 0x4B | 0x50 | 0x51 | 0x53 | 0x54 | 0x55 | 0x56 | 0x57 | 0x61 | 0x63 | 0x64 |
            0x65 | 0x66 | 0x67 | 0x69 | 0x6B | 0x70 | 0x71 | 0x73 | 0x74 | 0x75 | 0x76 | 0x77 |
            0x80 | 0x81 | 0x82 | 0x83 | 0x84 | 0x85 | 0x86 | 0x87 | 0x89 | 0x8B | 0x90 | 0x91 |
            0x93 | 0x94 | 0x95 | 0x96 | 0x97 | 0xA0 | 0xA1 | 0xA2 | 0xA3 | 0xA4 | 0xA5 | 0xA6 |
            0xA7 | 0xA9 | 0xAB | 0xB0 | 0xB1 | 0xB3 | 0xB4 | 0xB5 | 0xB6 | 0xB7 | 0xC0 | 0xC1 |
            0xC2 | 0xC3 | 0xC4 | 0xC5 | 0xC6 | 0xC7 | 0xC9 | 0xCB | 0xD0 | 0xD1 | 0xD3 | 0xD4 |
            0xD5 | 0xD6 | 0xD7 | 0xE0 | 0xE1 | 0xE2 | 0xE3 | 0xE4 | 0xE5 | 0xE6 | 0xE7 | 0xE9 |
            0xEB | 0xF0 | 0xF1 | 0xF3 | 0xF4 | 0xF5 | 0xF6 | 0xF7 => 1,
            _ => 2,
        }
    }

    /// The number of operand bytes of this opcode (0 to 2).
    pub fn operand_len(self) -> (r: usize)
        ensures
            r == Opcode::spec_operand_len(self.get()),
            r <= 2,
    {
        match self.0 {
            0x00 | 0x02 | 0x08 | 0x0A | 0x12 | 0x18 | 0x1A | 0x22 | 0x28 | 0x2A | 0x32 | 0x38 |
            0x3A | 0x40 | 0x42 | 0x48 | 0x4A | 0x52 | 0x58 | 0x5A | 0x60 | 0x62 | 0x68 | 0x6A |
            0x72 | 0x78 | 0x7A | 0x88 | 0x8A | 0x92 | 0x98 | 0x9A | 0xA8 | 0xAA | 0xB2 | 0xB8 |
            0xBA | 0xC8 | 0xCA | 0xD2 | 0xD8 | 0xDA | 0xE8 | 0xEA | 0xF2 | 0xF8 | 0xFA => 0,
            0x01 | 0x03 | 0x04 | 0x05 | 0x06 | 0x07 | 0x09 | 0x0B | 0x10 | 0x11 | 0x13 | 0x14 |
            0x15 | 0x16 | 0x17 | 0x21 | 0x23 | 0x24 | 0x25 | 0x26 | 0x27 | 0x29 | 0x2B | 0x30 |
            0x31 | 0x33 | 0x34 | 0x35 | 0x36 | 0x37 | 0x41 | 0x43 | 0x44 | 0x45 | 0x46 | 0x47 |
            0x49 | 0x4B | 0x50 | 0x51 | 0x53 | 0x54 | 0x55 | 0x56 | 0x57 | 0x61 | 0x63 | 0x64 |
            0x65 | 0x66 | 0x67 | 0x69 | 0x6B | 0x70 | 0x71 | 0x73 | 0x74 | 0x75 | 0x76 | 0x77 |
            0x80 | 0x81 | 0x82 | 0x83 | 0x84 | 0x85 | 0x86 | 0x87 | 0x89 | 0x8B | 0x90 | 0x91 |
            0x93 | 0x94 | 0x95 | 0x96 | 0x97 | 0xA0 | 0xA1 | 0xA2 | 0xA3 | 0xA4 | 0xA5 | 0xA6 |
            0xA7 | 0xA9 | 0xAB | 0xB0 | 0xB1 | 0xB3 | 0xB4 | 0xB5 | 0xB6 | 0xB7 | 0xC0 | 0xC1 |
            0xC2 | 0xC3 | 0xC4 | 0xC5 | 0xC6 | 0xC7 | 0xC9 | 0xCB | 0xD0 | 0xD1 | 0xD3 | 0xD4 |
            0xD5 | 0xD6 | 0xD7 | 0xE0 | 0xE1 | 0xE2 | 0xE3 | 0xE4 | 0xE5 | 0xE6 | 0xE7 | 0xE9 |
            0xEB | 0xF0 | 0xF1 | 0xF3 | 0xF4 | 0xF5 | 0xF6 | 0xF7 => 1,
            _ => 2,
        }
    }

    pub open spec fn spec_op_len(b: u8) -> int {
        1 + Opcode::spec_op_len_operand(b)
    }

    pub open spec fn spec_op_len_operand(b: u8) -> int {
        Opcode::spec_operand_len(b)
    }

    /// The length of the whole instruction in bytes (1 to 3).
    pub fn op_len(self) -> (r: usize)
        ensures
            r == Opcode::spec_op_len(self.get()),
            1 <= r <= 3,
    {
        1 + self.operand_len()
    }

    pub open spec fn spec_is_official(b: u8) -> bool {
        match b {
            0x00 | 0x01 | 0x05 | 0x06 | 0x08 | 0x09 | 0x0A | 0x0D | 0x0E | 0x10 | 0x11 | 0x15 |
            0x16 | 0x18 | 0x19 | 0x1D | 0x1E | 0x20 | 0x21 | 0x24 | 0x25 | 0x26 | 0x28 | 0x29 |
            0x2A | 0x2C | 0x2D | 0x2E | 0x30 | 0x31 | 0x35 | 0x36 | 0x38 | 0x39 | 0x3D | 0x3E |
            0x40 | 0x41 | 0x45 | 0x46 | 0x48 | 0x49 | 0x4A | 0x4C | 0x4D | 0x4E | 0x50 | 0x51 |
            0x55 | 0x56 | 0x58 | 0x59 | 0x5D | 0x5E | 0x60 | 0x61 | 0x65 | 0x66 | 0x68 | 0x69 |
            0x6A | 0x6C | 0x6D | 0x6E | 0x70 | 0x71 | 0x75 | 0x76 | 0x78 | 0x79 | 0x7D | 0x7E |
            0x81 | 0x84 | 0x85 | 0x86 | 0x88 | 0x8A | 0x8C | 0x8D | 0x8E | 0x90 | 0x91 | 0x94 |
            0x95 | 0x96 | 0x98 | 0x99 | 0x9A | 0x9D | 0xA0 | 0xA1 | 0xA2 | 0xA4 | 0xA5 | 0xA6 |
            0xA8 | 0xA9 | 0xAA | 0xAC | 0xAD | 0xAE | 0xB0 | 0xB1 | 0xB4 | 0xB5 | 0xB6 | 0xB8 |
            0xB9 | 0xBA | 0xBC | 0xBD | 0xBE | 0xC0 | 0xC1 | 0xC4 | 0xC5 | 0xC6 | 0xC8 | 0xC9 |
            0xCA | 0xCC | 0xCD | 0xCE | 0xD0 | 0xD1 | 0xD5 | 0xD6 | 0xD8 | 0xD9 | 0xDD | 0xDE |
            0xE0 | 0xE1 | 0xE4 | 0xE5 | 0xE6 | 0xE8 | 0xE9 | 0xEA | 0xEC | 0xED | 0xEE | 0xF0 |
            0xF1 | 0xF5 | 0xF6 | 0xF8 | 0xF9 | 0xFD | 0xFE => true,
            _ => false,
        }
    }

    /// Whether the opcode is an official one.
    pub fn is_official(self) -> (r: bool)
        ensures
            r == Opcode::spec_is_official(self.get()),
    {
        match self.0 {
            0x00 | 0x01 | 0x05 | 0x06 | 0x08 | 0x09 | 0x0A | 0x0D | 0x0E | 0x10 | 0x11 | 0x15 |
            0x16 | 0x18 | 0x19 | 0x1D | 0x1E | 0x20 | 0x21 | 0x24 | 0x25 | 0x26 | 0x28 | 0x29 |
            0x2A | 0x2C | 0x2D | 0x2E | 0x30 | 0x31 | 0x35 | 0x36 | 0x38 | 0x39 | 0x3D | 0x3E |
            0x40 | 0x41 | 0x45 | 0x46 | 0x48 | 0x49 | 0x4A | 0x4C | 0x4D | 0x4E | 0x50 | 0x51 |
            0x55 | 0x56 | 0x58 | 0x59 | 0x5D | 0x5E | 0x60 | 0x61 | 0x65 | 0x66 | 0x68 | 0x69 |
            0x6A | 0x6C | 0x6D | 0x6E | 0x70 | 0x71 | 0x75 | 0x76 | 0x78 | 0x79 | 0x7D | 0x7E |
            0x81 | 0x84 | 0x85 | 0x86 | 0x88 | 0x8A | 0x8C | 0x8D | 0x8E | 0x90 | 0x91 | 0x94 |
            0x95 | 0x96 | 0x98 | 0x99 | 0x9A | 0x9D | 0xA0 | 0xA1 | 0xA2 | 0xA4 | 0xA5 | 0xA6 |
            0xA8 | 0xA9 | 0xAA | 0xAC | 0xAD | 0xAE | 0xB0 | 0xB1 | 0xB4 | 0xB5 | 0xB6 | 0xB8 |
            0xB9 | 0xBA | 0xBC | 0xBD | 0xBE | 0xC0 | 0xC1 | 0xC4 | 0xC5 | 0xC6 | 0xC8 | 0xC9 |
            0xCA | 0xCC | 0xCD | 0xCE | 0xD0 | 0xD1 | 0xD5 | 0xD6 | 0xD8 | 0xD9 | 0xDD | 0xDE |
            0xE0 | 0xE1 | 0xE4 | 0xE5 | 0xE6 | 0xE8 | 0xE9 | 0xEA | 0xEC | 0xED | 0xEE | 0xF0 |
            0xF1 | 0xF5 | 0xF6 | 0xF8 | 0xF9 | 0xFD | 0xFE => true,
            _ => false,
        }
    }

    pub open spec fn spec_is_read(b: u8) -> bool {
        match b {
            0x01 | 0x03 | 0x04 | 0x05 | 0x06 | 0x07 | 0x0C | 0x0D | 0x0E | 0x0F | 0x11 | 0x13 |
            0x14 | 0x15 | 0x16 | 0x17 | 0x19 | 0x1B | 0x1C | 0x1D | 0x1E | 0x1F | 0x21 | 0x23 |
            0x24 | 0x25 | 0x26 | 0x27 | 0x2C | 0x2D | 0x2E | 0x2F | 0x31 | 0x33 | 0x34 | 0x35 |
            0x36 | 0x37 | 0x39 | 0x3B | 0x3C | 0x3D | 0x3E | 0x3F | 0x41 | 0x43 | 0x44 | 0x45 |
            0x46 | 0x47 | 0x4D | 0x4E | 0x4F | 0x51 | 0x53 | 0x54 | 0x55 | 0x56 | 0x57 | 0x59 |
            0x5B | 0x5C | 0x5D | 0x5E | 0x5F | 0x61 | 0x63 | 0x64 | 0x65 | 0x66 | 0x67 | 0x6D |
            0x6E | 0x6F | 0x71 | 0x73 | 0x74 | 0x75 | 0x76 | 0x77 | 0x79 | 0x7B | 0x7C | 0x7D |
            0x7E | 0x7F | 0xA1 | 0xA3 | 0xA4 | 0xA5 | 0xA6 | 0xA7 | 0xAC | 0xAD | 0xAE | 0xAF |
            0xB1 | 0xB3 | 0xB4 | 0xB5 | 0xB6 | 0xB7 | 0xB9 | 0xBB | 0xBC | 0xBD | 0xBE | 0xBF |
            0xC1 | 0xC3 | 0xC4 | 0xC5 | 0xC6 | 0xC7 | 0xCC | 0xCD | 0xCE | 0xCF | 0xD1 | 0xD3 |
            0xD4 | 0xD5 | 0xD6 | 0xD7 | 0xD9 | 0xDB | 0xDC | 0xDD | 0xDE | 0xDF | 0xE1 | 0xE3 |
            0xE4 | 0xE5 | 0xE6 | 0xE7 | 0xEC | 0xED | 0xEE | 0xEF | 0xF1 | 0xF3 | 0xF4 | 0xF5 |
            0xF6 | 0xF7 | 0xF9 | 0xFB | 0xFC | 0xFD | 0xFE | 0xFF => true,
            _ => false,
        }
    }

    /// Whether the instruction reads from its effective operand address.
    pub fn is_read(self) -> (r: bool)
        ensures
            r == Opcode::spec_is_read(self.get()),
    {
        match self.0 {
            0x01 | 0x03 | 0x04 | 0x05 | 0x06 | 0x07 | 0x0C | 0x0D | 0x0E | 0x0F | 0x11 | 0x13 |
            0x14 | 0x15 | 0x16 | 0x17 | 0x19 | 0x1B | 0x1C | 0x1D | 0x1E | 0x1F | 0x21 | 0x23 |
            0x24 | 0x25 | 0x26 | 0x27 | 0x2C | 0x2D | 0x2E | 0x2F | 0x31 | 0x33 | 0x34 | 0x35 |
            0x36 | 0x37 | 0x39 | 0x3B | 0x3C | 0x3D | 0x3E | 0x3F | 0x41 | 0x43 | 0x44 | 0x45 |
            0x46 | 0x47 | 0x4D | 0x4E | 0x4F | 0x51 | 0x53 | 0x54 | 0x55 | 0x56 | 0x57 | 0x59 |
            0x5B | 0x5C | 0x5D | 0x5E | 0x5F | 0x61 | 0x63 | 0x64 | 0x65 | 0x66 | 0x67 | 0x6D |
            0x6E | 0x6F | 0x71 | 0x73 | 0x74 | 0x75 | 0x76 | 0x77 | 0x79 | 0x7B | 0x7C | 0x7D |
            0x7E | 0x7F | 0xA1 | 0xA3 | 0xA4 | 0xA5 | 0xA6 | 0xA7 | 0xAC | 0xAD | 0xAE | 0xAF |
            0xB1 | 0xB3 | 0xB4 | 0xB5 | 0xB6 | 0xB7 | 0xB9 | 0xBB | 0xBC | 0xBD | 0xBE | 0xBF |
            0xC1 | 0xC3 | 0xC4 | 0xC5 | 0xC6 | 0xC7 | 0xCC | 0xCD | 0xCE | 0xCF | 0xD1 | 0xD3 |
            0xD4 | 0xD5 | 0xD6 | 0xD7 | 0xD9 | 0xDB | 0xDC | 0xDD | 0xDE | 0xDF | 0xE1 | 0xE3 |
            0xE4 | 0xE5 | 0xE6 | 0xE7 | 0xEC | 0xED | 0xEE | 0xEF | 0xF1 | 0xF3 | 0xF4 | 0xF5 |
            0xF6 | 0xF7 | 0xF9 | 0xFB | 0xFC | 0xFD | 0xFE | 0xFF => true,
            _ => false,
        }
    }

    pub open spec fn spec_is_write(b: u8) -> bool {
        match b {
            0x03 | 0x06 | 0x07 | 0x0E | 0x0F | 0x13 | 0x16 | 0x17 | 0x1B | 0x1E | 0x1F | 0x23 |
            0x26 | 0x27 | 0x2E | 0x2F | 0x33 | 0x36 | 0x37 | 0x3B | 0x3E | 0x3F | 0x43 | 0x46 |
            0x47 | 0x4E | 0x4F | 0x53 | 0x56 | 0x57 | 0x5B | 0x5E | 0x5F | 0x63 | 0x66 | 0x67 |
            0x6E | 0x6F | 0x73 | 0x76 | 0x77 | 0x7B | 0x7E | 0x7F | 0x81 | 0x83 | 0x84 | 0x85 |
            0x86 | 0x87 | 0x8C | 0x8D | 0x8E | 0x8F | 0x91 | 0x93 | 0x94 | 0x95 | 0x96 | 0x97 |
            0x99 | 0x9B | 0x9C | 0x9D | 0x9E | 0x9F | 0xC3 | 0xC6 | 0xC7 | 0xCE | 0xCF | 0xD3 |
            0xD6 | 0xD7 | 0xDB | 0xDE | 0xDF | 0xE3 | 0xE6 | 0xE7 | 0xEE | 0xEF | 0xF3 | 0xF6 |
            0xF7 | 0xFB | 0xFE | 0xFF => true,
            _ => false,
        }
    }

    /// Whether the instruction writes to its effective operand address.
    pub fn is_write(self) -> (r: bool)
        ensures
            r == Opcode::spec_is_write(self.get()),
    {
        match self.0 {
            0x03 | 0x06 | 0x07 | 0x0E | 0x0F | 0x13 | 0x16 | 0x17 | 0x1B | 0x1E | 0x1F | 0x23 |
            0x26 | 0x27 | 0x2E | 0x2F | 0x33 | 0x36 | 0x37 | 0x3B | 0x3E | 0x3F | 0x43 | 0x46 |
            0x47 | 0x4E | 0x4F | 0x53 | 0x56 | 0x57 | 0x5B | 0x5E | 0x5F | 0x63 | 0x66 | 0x67 |
            0x6E | 0x6F | 0x73 | 0x76 | 0x77 | 0x7B | 0x7E | 0x7F | 0x81 | 0x83 | 0x84 | 0x85 |
            0x86 | 0x87 | 0x8C | 0x8D | 0x8E | 0x8F | 0x91 | 0x93 | 0x94 | 0x95 | 0x96 | 0x97 |
            0x99 | 0x9B | 0x9C | 0x9D | 0x9E | 0x9F | 0xC3 | 0xC6 | 0xC7 | 0xCE | 0xCF | 0xD3 |
            0xD6 | 0xD7 | 0xDB | 0xDE | 0xDF | 0xE3 | 0xE6 | 0xE7 | 0xEE | 0xEF | 0xF3 | 0xF6 |
            0xF7 | 0xFB | 0xFE | 0xFF => true,
            _ => false,
        }
    }

    pub open spec fn spec_is_branch(b: u8) -> bool {
        match b {
            0x10 | 0x30 | 0x50 | 0x70 | 0x90 | 0xB0 | 0xD0 | 0xF0 => true,
            _ => false,
        }
    }

    /// Whether the opcode is one of the eight conditional branches.
    pub fn is_branch(self) -> (r: bool)
        ensures
            r == Opcode::spec_is_branch(self.get()),
    {
        match self.0 {
            0x10 | 0x30 | 0x50 | 0x70 | 0x90 | 0xB0 | 0xD0 | 0xF0 => true,
            _ => false,
        }
    }

    pub open spec fn spec_is_kil(b: u8) -> bool {
        match b {
            0x02 | 0x12 | 0x22 | 0x32 | 0x42 | 0x52 | 0x62 | 0x72 | 0x92 | 0xB2 | 0xD2 | 0xF2 => true,
            _ => false,
        }
    }

    /// Whether the opcode is one of the twelve processor-jam opcodes.
    pub fn is_kil(self) -> (r: bool)
        ensures
            r == Opcode::spec_is_kil(self.get()),
    {
        match self.0 {
            0x02 | 0x12 | 0x22 | 0x32 | 0x42 | 0x52 | 0x62 | 0x72 | 0x92 | 0xB2 | 0xD2 | 0xF2 => true,
            _ => false,
        }
    }

    pub open spec fn spec_is_flow(b: u8) -> bool {
        b == 0x00 || b == 0x20 || b == 0x40 || b == 0x4C || b == 0x60 || b == 0x6C
            || Opcode::spec_is_branch(b) || Opcode::spec_is_kil(b)
    }

    /// Whether the opcode is a control-flow instruction: brk, jsr, rti,
    /// jmp abs, rts, jmp ind, every branch, every kil.
    pub fn is_flow(self) -> (r: bool)
        ensures
            r == Opcode::spec_is_flow(self.get()),
    {
        self.0 == 0x00 || self.0 == 0x20 || self.0 == 0x40 || self.0 == 0x4C || self.0 == 0x60
            || self.0 == 0x6C || self.is_branch() || self.is_kil()
    }

    /// The assembler mnemonic of the opcode: always three characters.
    pub fn mnemonic(self) -> (r: &'static str)
        ensures
            r@.len() == 3,
    {
        match self.0 {
            0x00 => {
                proof {
                    reveal_strlit("brk");
                }
                "brk"
            },
            0x01 | 0x05 | 0x09 | 0x0D | 0x11 | 0x15 | 0x19 | 0x1D => {
                proof {
                    reveal_strlit("ora");
                }
                "ora"
            },
            0x02 | 0x12 | 0x22 | 0x32 | 0x42 | 0x52 | 0x62 | 0x72 | 0x92 | 0xB2 | 0xD2 | 0xF2 => {
                proof {
                    reveal_strlit("kil");
                }
                "kil"
            },
            0x03 | 0x07 | 0x0F | 0x13 | 0x17 | 0x1B | 0x1F => {
                proof {
                    reveal_strlit("slo");
                }
                "slo"
            },
            0x04 | 0x0C | 0x14 | 0x1A | 0x1C | 0x34 | 0x3A | 0x3C | 0x44 | 0x54 | 0x5A | 0x5C |
            0x64 | 0x74 | 0x7A | 0x7C | 0x80 | 0x82 | 0x89 | 0xC2 | 0xD4 | 0xDA | 0xDC | 0xE2 |
            0xEA | 0xF4 | 0xFA | 0xFC => {
                proof {
                    reveal_strlit("nop");
                }
                "nop"
            },
            0x06 | 0x0A | 0x0E | 0x16 | 0x1E => {
                proof {
                    reveal_strlit("asl");
                }
                "asl"
            },
            0x08 => {
                proof {
                    reveal_strlit("php");
                }
                "php"
            },
            0x0B | 0x2B => {
                proof {
                    reveal_strlit("anc");
                }
                "anc"
            },
            0x10 => {
                proof {
                    reveal_strlit("bpl");
                }
                "bpl"
            },
            0x18 => {
                proof {
                    reveal_strlit("clc");
                }
                "clc"
            },
            0x20 => {
                proof {
                    reveal_strlit("jsr");
                }
                "jsr"
            },
            0x21 | 0x25 | 0x29 | 0x2D | 0x31 | 0x35 | 0x39 | 0x3D => {
                proof {
                    reveal_strlit("and");
                }
                "and"
            },
            0x23 | 0x27 | 0x2F | 0x33 | 0x37 | 0x3B | 0x3F => {
                proof {
                    reveal_strlit("rla");
                }
                "rla"
            },
            0x24 | 0x2C => {
                proof {
                    reveal_strlit("bit");
                }
                "bit"
            },
            0x26 | 0x2A | 0x2E | 0x36 | 0x3E => {
                proof {
                    reveal_strlit("rol");
                }
                "rol"
            },
            0x28 => {
                proof {
                    reveal_strlit("plp");
                }
                "plp"
            },
            0x30 => {
                proof {
                    reveal_strlit("bmi");
                }
                "bmi"
            },
            0x38 => {
                proof {
                    reveal_strlit("sec");
                }
                "sec"
            },
            0x40 => {
                proof {
                    reveal_strlit("rti");
                }
                "rti"
            },
            0x41 | 0x45 | 0x49 | 0x4D | 0x51 | 0x55 | 0x59 | 0x5D => {
                proof {
                    reveal_strlit("eor");
                }
                "eor"
            },
            0x43 | 0x47 | 0x4F | 0x53 | 0x57 | 0x5B | 0x5F => {
                proof {
                    reveal_strlit("sre");
                }
                "sre"
            },
            0x46 | 0x4A | 0x4E | 0x56 | 0x5E => {
                proof {
                    reveal_strlit("lsr");
                }
                "lsr"
            },
            0x48 => {
                proof {
                    reveal_strlit("pha");
                }
                "pha"
            },
            0x4B => {
                proof {
                    reveal_strlit("alr");
                }
                "alr"
            },
            0x4C | 0x6C => {
                proof {
                    reveal_strlit("jmp");
                }
                "jmp"
            },
            0x50 => {
                proof {
                    reveal_strlit("bvc");
                }
                "bvc"
            },
            0x58 => {
                proof {
                    reveal_strlit("cli");
                }
                "cli"
            },
            0x60 => {
                proof {
                    reveal_strlit("rts");
                }
                "rts"
            },
            0x61 | 0x65 | 0x69 | 0x6D | 0x71 | 0x75 | 0x79 | 0x7D => {
                proof {
                    reveal_strlit("adc");
                }
                "adc"
            },
            0x63 | 0x67 | 0x6F | 0x73 | 0x77 | 0x7B | 0x7F => {
                proof {
                    reveal_strlit("rra");
                }
                "rra"
            },
            0x66 | 0x6A | 0x6E | 0x76 | 0x7E => {
                proof {
                    reveal_strlit("ror");
                }
                "ror"
            },
            0x68 => {
                proof {
                    reveal_strlit("pla");
                }
                "pla"
            },
            0x6B => {
                proof {
                    reveal_strlit("arr");
                }
                "arr"
            },
            0x70 => {
                proof {
                    reveal_strlit("bvs");
                }
                "bvs"
            },
            0x78 => {
                proof {
                    reveal_strlit("sei");
                }
                "sei"
            },
            0x81 | 0x85 | 0x8D | 0x91 | 0x95 | 0x99 | 0x9D => {
                proof {
                    reveal_strlit("sta");
                }
                "sta"
            },
            0x83 | 0x87 | 0x8F | 0x97 => {
                proof {
                    reveal_strlit("sax");
                }
                "sax"
            },
            0x84 | 0x8C | 0x94 => {
                proof {
                    reveal_strlit("sty");
                }
                "sty"
            },
            0x86 | 0x8E | 0x96 => {
                proof {
                    reveal_strlit("stx");
                }
                "stx"
            },
            0x88 => {
                proof {
                    reveal_strlit("dey");
                }
                "dey"
            },
            0x8A => {
                proof {
                    reveal_strlit("txa");
                }
                "txa"
            },
            0x8B => {
                proof {
                    reveal_strlit("xaa");
                }
                "xaa"
            },
            0x90 => {
                proof {
                    reveal_strlit("bcc");
                }
                "bcc"
            },
            0x93 | 0x9F => {
                proof {
                    reveal_strlit("ahx");
                }
                "ahx"
            },
            0x98 => {
                proof {
                    reveal_strlit("tya");
                }
                "tya"
            },
            0x9A => {
                proof {
                    reveal_strlit("txs");
                }
                "txs"
            },
            0x9B => {
                proof {
                    reveal_strlit("tas");
                }
                "tas"
            },
            0x9C => {
                proof {
                    reveal_strlit("shy");
                }
                "shy"
            },
            0x9E => {
                proof {
                    reveal_strlit("shx");
                }
                "shx"
            },
            0xA0 | 0xA4 | 0xAC | 0xB4 | 0xBC => {
                proof {
                    reveal_strlit("ldy");
                }
                "ldy"
            },
            0xA1 | 0xA5 | 0xA9 | 0xAD | 0xB1 | 0xB5 | 0xB9 | 0xBD => {
                proof {
                    reveal_strlit("lda");
                }
                "lda"
            },
            0xA2 | 0xA6 | 0xAE | 0xB6 | 0xBE => {
                proof {
                    reveal_strlit("ldx");
                }
                "ldx"
            },
            0xA3 | 0xA7 | 0xAB | 0xAF | 0xB3 | 0xB7 | 0xBF => {
                proof {
                    reveal_strlit("lax");
                }
                "lax"
            },
            0xA8 => {
                proof {
                    reveal_strlit("tay");
                }
                "tay"
            },
            0xAA => {
                proof {
                    reveal_strlit("tax");
                }
                "tax"
            },
            0xB0 => {
                proof {
                    reveal_strlit("bcs");
                }
                "bcs"
            },
            0xB8 => {
                proof {
                    reveal_strlit("clv");
                }
                "clv"
            },
            0xBA => {
                proof {
                    reveal_strlit("tsx");
                }
                "tsx"
            },
            0xBB => {
                proof {
                    reveal_strlit("las");
                }
                "las"
            },
            0xC0 | 0xC4 | 0xCC => {
                proof {
                    reveal_strlit("cpy");
                }
                "cpy"
            },
            0xC1 | 0xC5 | 0xC9 | 0xCD | 0xD1 | 0xD5 | 0xD9 | 0xDD => {
                proof {
                    reveal_strlit("cmp");
                }
                "cmp"
            },
            0xC3 | 0xC7 | 0xCF | 0xD3 | 0xD7 | 0xDB | 0xDF => {
                proof {
                    reveal_strlit("dcp");
                }
                "dcp"
            },
            0xC6 | 0xCE | 0xD6 | 0xDE => {
                proof {
                    reveal_strlit("dec");
                }
                "dec"
            },
            0xC8 => {
                proof {
                    reveal_strlit("iny");
                }
                "iny"
            },
            0xCA => {
                proof {
                    reveal_strlit("dex");
                }
                "dex"
            },
            0xCB => {
                proof {
                    reveal_strlit("axs");
                }
                "axs"
            },
            0xD0 => {
                proof {
                    reveal_strlit("bne");
                }
                "bne"
            },
            0xD8 => {
                proof {
                    reveal_strlit("cld");
                }
                "cld"
            },
            0xE0 | 0xE4 | 0xEC => {
                proof {
                    reveal_strlit("cpx");
                }
                "cpx"
            },
            0xE1 | 0xE5 | 0xE9 | 0xEB | 0xED | 0xF1 | 0xF5 | 0xF9 | 0xFD => {
                proof {
                    reveal_strlit("sbc");
                }
                "sbc"
            },
            0xE3 | 0xE7 | 0xEF | 0xF3 | 0xF7 | 0xFB | 0xFF => {
                proof {
                    reveal_strlit("isc");
                }
                "isc"
            },
            0xE6 | 0xEE | 0xF6 | 0xFE => {
                proof {
                    reveal_strlit("inc");
                }
                "inc"
            },
            0xE8 => {
                proof {
                    reveal_strlit("inx");
                }
                "inx"
            },
            0xF0 => {
                proof {
                    reveal_strlit("beq");
                }
                "beq"
            },
            _ => {
                proof {
                    reveal_strlit("sed");
                }
                "sed"
            },
        }
    }
}

/// The operand of a CPU instruction.
#[derive(Clone, Copy, Debug, PartialEq, Eq, Structural)]
pub enum Operand {
    Imp,
    Acc,
    Imm(u8),
    Zp(ZpAddress),
    ZpX(ZpAddress),
    ZpY(ZpAddress),
    Abs(Address),
    AbsX(Address),
    AbsY(Address),
    Ind(Address),
    IndX(ZpAddress),
    IndY(ZpAddress),
    Rel(i8),
}

impl Operand {
    pub open spec fn spec_len(self) -> int {
        match self {
            Operand::Imp | Operand::Acc => 0,
            Operand::Abs(_) | Operand::AbsX(_) | Operand::AbsY(_) | Operand::Ind(_) => 2,
            _ => 1,
        }
    }

    /// The number of operand bytes (0 to 2).
    pub fn len(self) -> (r: usize)
        ensures
            r == self.spec_len(),
            r <= 2,
    {
        match self {
            Operand::Imp | Operand::Acc => 0,
            Operand::Abs(_) | Operand::AbsX(_) | Operand::AbsY(_) | Operand::Ind(_) => 2,
            _ => 1,
        }
    }

    /// Whether the operand occupies no bytes.
    pub fn is_empty(self) -> (r: bool)
        ensures
            r == (self.spec_len() == 0),
    {
        self.len() == 0
    }

    /// The operand bytes in little-endian order.
    pub open spec fn spec_bytes(self) -> Seq<u8> {
        match self {
            Operand::Imp | Operand::Acc => Seq::empty(),
            Operand::Imm(imm) => seq![imm],
            Operand::Zp(zp) | Operand::ZpX(zp) | Operand::ZpY(zp) | Operand::IndX(zp)
                | Operand::IndY(zp) => seq![zp.get()],
            Operand::Abs(abs) | Operand::AbsX(abs) | Operand::AbsY(abs) | Operand::Ind(abs) => seq![
                (abs.get() % 0x100) as u8,
                (abs.get() / 0x100) as u8,
            ],
            Operand::Rel(rel) => seq![rel as u8],
        }
    }

    /// Serialises the operand to its little-endian bytes.
    pub fn to_bytes(self) -> (r: Vec<u8>)
        ensures
            r@ == self.spec_bytes(),
            r@.len() == self.spec_len(),
    {
        let mut v: Vec<u8> = Vec::new();
        match self {
            Operand::Imp | Operand::Acc => {},
            Operand::Imm(imm) => {
                v.push(imm);
            },
            Operand::Zp(zp) | Operand::ZpX(zp) | Operand::ZpY(zp) | Operand::IndX(zp)
                | Operand::IndY(zp) => {
                let b = zp.to_le_bytes();
                v.push(b[0]);
            },
            Operand::Abs(abs) | Operand::AbsX(abs) | Operand::AbsY(abs) | Operand::Ind(abs) => {
                let b = abs.to_le_bytes();
                v.push(b[0]);
                v.push(b[1]);
            },
            Operand::Rel(rel) => {
                v.push(#[verifier::truncate] (rel as u8));
            },
        }
        proof {
            assert(v@ =~= self.spec_bytes());
        }
        v
    }
}

/// The abstract behaviour of the program counter after an instruction.
#[derive(Clone, Copy, Debug, PartialEq, Eq, Structural)]
pub enum OpSucc {
    /// A non-control-flow instruction; holds the instruction length.
    Normal(usize),
    /// The brk instruction.
    Brk,
    /// Any kil instruction.
    Kil,
    /// Any branch instruction; holds the branch offset.
    Branch(i8),
    /// The jsr instruction; holds the destination address.
    Jsr(Address),
    /// The rti instruction.
    Rti,
    /// The rts instruction.
    Rts,
    /// The absolute jmp instruction; holds the destination address.
    JmpAbs(Address),
    /// The indirect jmp instruction; holds the pointer address.
    JmpInd(Address),
}

/// Splitting a 16-bit value into its little-endian bytes and recombining
/// them is the identity, in both directions.
proof fn lemma_le_split_join(v: u16)
    ensures
        (v % 0x100) + 0x100 * (v / 0x100) == v,
        v / 0x100 <= 0xFF,
{
    lemma_fundamental_div_mod(v as int, 0x100);
}

/// Recombining two bytes little-endian and splitting the result again
/// yields the original bytes.
proof fn lemma_le_join_split(lo: u8, hi: u8)
    ensures
        ((lo + 0x100 * hi) as u16) % 0x100 == lo,
        ((lo + 0x100 * hi) as u16) / 0x100 == hi,
{
    let v = (lo + 0x100 * hi) as u16;
    lemma_fundamental_div_mod(v as int, 0x100);
}

/// Reinterpreting a signed byte as unsigned and back is the identity.
proof fn lemma_rel_round_i8(x: i8)
    ensures
        ((x as u8) as i8) == x,
{
    assert(((x as u8) as i8) == x) by (bit_vector);
}

/// Reinterpreting an unsigned byte as signed and back is the identity.
proof fn lemma_rel_round_u8(y: u8)
    ensures
        ((y as i8) as u8) == y,
{
    assert(((y as i8) as u8) == y) by (bit_vector);
}

/// Decoding the encoding of any instruction yields the instruction back.
#[verifier::rlimit(100)]
pub proof fn lemma_fetch_of_encode(op: Op)
    ensures
        Op::spec_fetch(op.spec_encode()) == op,
{
    match op {
        Op::Brk => {
            assert(Op::spec_fetch(op.spec_encode()) == op);
        },
        Op::OraIndX(x) => {
            assert(Op::spec_fetch(op.spec_encode()) == op);
        },
        Op::Kil02 => {
            assert(Op::spec_fetch(op.spec_encode()) == op);
        },
        Op::SloIndX(x) => {
            assert(Op::spec_fetch(op.spec_encode()) == op);
        },
        Op::NopZp04(x) => {
            assert(Op::spec_fetch(op.spec_encode()) == op);
        },
        Op::OraZp(x) => {
            assert(Op::spec_fetch(op.spec_encode()) == op);
        },
        Op::AslZp(x) => {
            assert(Op::spec_fetch(op.spec_encode()) == op);
        },
        Op::SloZp(x) => {
            assert(Op::spec_fetch(op.spec_encode()) == op);
        },
        Op::Php => {
            assert(Op::spec_fetch(op.spec_encode()) == op);
        },
        Op::OraImm(x) => {
            assert(Op::spec_fetch(op.spec_encode()) == op);
        },
        Op::AslAcc => {
            assert(Op::spec_fetch(op.spec_encode()) == op);
        },
        Op::Anc0B(x) => {
            assert(Op::spec_fetch(op.spec_encode()) == op);
        },
        Op::NopAbs(x) => {
            lemma_le_split_join(x.get());
            assert(Op::spec_fetch(op.spec_encode()) == op);
        },
        Op::OraAbs(x) => {
            lemma_le_split_join(x.get());
            assert(Op::spec_fetch(op.spec_encode()) == op);
        },
        Op::AslAbs(x) => {
            lemma_le_split_join(x.get());
            assert(Op::spec_fetch(op.spec_encode()) == op);
        },
        Op::SloAbs(x) => {
            lemma_le_split_join(x.get());
            assert(Op::spec_fetch(op.spec_encode()) == op);
        },
        Op::Bpl(x) => {
            lemma_rel_round_i8(x);
            assert(Op::spec_fetch(op.spec_encode()) == op);
        },
        Op::OraIndY(x) => {
            assert(Op::spec_fetch(op.spec_encode()) == op);
        },
        Op::Kil12 => {
            assert(Op::spec_fetch(op.spec_encode()) == op);
        },
        Op::SloIndY(x) => {
            assert(Op::spec_fetch(op.spec_encode()) == op);
        },
        Op::NopZpX14(x) => {
            assert(Op::spec_fetch(op.spec_encode()) == op);
        },
        Op::OraZpX(x) => {
            assert(Op::spec_fetch(op.spec_encode()) == op);
        },
        Op::AslZpX(x) => {
            assert(Op::spec_fetch(op.spec_encode()) == op);
        },
        Op::SloZpX(x) => {
            assert(Op::spec_fetch(op.spec_encode()) == op);
        },
        Op::Clc => {
            assert(Op::spec_fetch(op.spec_encode()) == op);
        },
        Op::OraAbsY(x) => {
            lemma_le_split_join(x.get());
            assert(Op::spec_fetch(op.spec_encode()) == op);
        },
        Op::Nop1A => {
            assert(Op::spec_fetch(op.spec_encode()) == op);
        },
        Op::SloAbsY(x) => {
            lemma_le_split_join(x.get());
            assert(Op::spec_fetch(op.spec_encode()) == op);
        },
        Op::NopAbsX1C(x) => {
            lemma_le_split_join(x.get());
            assert(Op::spec_fetch(op.spec_encode()) == op);
        },
        Op::OraAbsX(x) => {
            lemma_le_split_join(x.get());
            assert(Op::spec_fetch(op.spec_encode()) == op);
        },
        Op::AslAbsX(x) => {
            lemma_le_split_join(x.get());
            assert(Op::spec_fetch(op.spec_encode()) == op);
        },
        Op::SloAbsX(x) => {
            lemma_le_split_join(x.get());
            assert(Op::spec_fetch(op.spec_encode()) == op);
        },
        Op::Jsr(x) => {
            lemma_le_split_join(x.get());
            assert(Op::spec_fetch(op.spec_encode()) == op);
        },
        Op::AndIndX(x) => {
            assert(Op::spec_fetch(op.spec_encode()) == op);
        },
        Op::Kil22 => {
            assert(Op::spec_fetch(op.spec_encode()) == op);
        },
        Op::RlaIndX(x) => {
            assert(Op::spec_fetch(op.spec_encode()) == op);
        },
        Op::BitZp(x) => {
            assert(Op::spec_fetch(op.spec_encode()) == op);
        },
        Op::AndZp(x) => {
            assert(Op::spec_fetch(op.spec_encode()) == op);
        },
        Op::RolZp(x) => {
            assert(Op::spec_fetch(op.spec_encode()) == op);
        },
        Op::RlaZp(x) => {
            assert(Op::spec_fetch(op.spec_encode()) == op);
        },
        Op::Plp => {
            assert(Op::spec_fetch(op.spec_encode()) == op);
        },
        Op::AndImm(x) => {
            assert(Op::spec_fetch(op.spec_encode()) == op);
        },
        Op::RolAcc => {
            assert(Op::spec_fetch(op.spec_encode()) == op);
        },
        Op::Anc2B(x) => {
            assert(Op::spec_fetch(op.spec_encode()) == op);
        },
        Op::BitAbs(x) => {
            lemma_le_split_join(x.get());
            assert(Op::spec_fetch(op.spec_encode()) == op);
        },
        Op::AndAbs(x) => {
            lemma_le_split_join(x.get());
            assert(Op::spec_fetch(op.spec_encode()) == op);
        },
        Op::RolAbs(x) => {
            lemma_le_split_join(x.get());
            assert(Op::spec_fetch(op.spec_encode()) == op);
        },
        Op::RlaAbs(x) => {
            lemma_le_split_join(x.get());
            assert(Op::spec_fetch(op.spec_encode()) == op);
        },
        Op::Bmi(x) => {
            lemma_rel_round_i8(x);
            assert(Op::spec_fetch(op.spec_encode()) == op);
        },
        Op::AndIndY(x) => {
            assert(Op::spec_fetch(op.spec_encode()) == op);
        },
        Op::Kil32 => {
            assert(Op::spec_fetch(op.spec_encode()) == op);
        },
        Op::RlaIndY(x) => {
            assert(Op::spec_fetch(op.spec_encode()) == op);
        },
        Op::NopZpX34(x) => {
            assert(Op::spec_fetch(op.spec_encode()) == op);
        },
        Op::AndZpX(x) => {
            assert(Op::spec_fetch(op.spec_encode()) == op);
        },
        Op::RolZpX(x) => {
            assert(Op::spec_fetch(op.spec_encode()) == op);
        },
        Op::RlaZpX(x) => {
            assert(Op::spec_fetch(op.spec_encode()) == op);
        },
        Op::Sec => {
            assert(Op::spec_fetch(op.spec_encode()) == op);
        },
        Op::AndAbsY(x) => {
            lemma_le_split_join(x.get());
            assert(Op::spec_fetch(op.spec_encode()) == op);
        },
        Op::Nop3A => {
            assert(Op::spec_fetch(op.spec_encode()) == op);
        },
        Op::RlaAbsY(x) => {
            lemma_le_split_join(x.get());
            assert(Op::spec_fetch(op.spec_encode()) == op);
        },
        Op::NopAbsX3C(x) => {
            lemma_le_split_join(x.get());
            assert(Op::spec_fetch(op.spec_encode()) == op);
        },
        Op::AndAbsX(x) => {
            lemma_le_split_join(x.get());
            assert(Op::spec_fetch(op.spec_encode()) == op);
        },
        Op::RolAbsX(x) => {
            lemma_le_split_join(x.get());
            assert(Op::spec_fetch(op.spec_encode()) == op);
        },
        Op::RlaAbsX(x) => {
            lemma_le_split_join(x.get());
            assert(Op::spec_fetch(op.spec_encode()) == op);
        },
        Op::Rti => {
            assert(Op::spec_fetch(op.spec_encode()) == op);
        },
        Op::EorIndX(x) => {
            assert(Op::spec_fetch(op.spec_encode()) == op);
        },
        Op::Kil42 => {
            assert(Op::spec_fetch(op.spec_encode()) == op);
        },
        Op::SreIndX(x) => {
            assert(Op::spec_fetch(op.spec_encode()) == op);
        },
        Op::NopZp44(x) => {
            assert(Op::spec_fetch(op.spec_encode()) == op);
        },
        Op::EorZp(x) => {
            assert(Op::spec_fetch(op.spec_encode()) == op);
        },
        Op::LsrZp(x) => {
            assert(Op::spec_fetch(op.spec_encode()) == op);
        },
        Op::SreZp(x) => {
            assert(Op::spec_fetch(op.spec_encode()) == op);
        },
        Op::Pha => {
            assert(Op::spec_fetch(op.spec_encode()) == op);
        },
        Op::EorImm(x) => {
            assert(Op::spec_fetch(op.spec_encode()) == op);
        },
        Op::LsrAcc => {
            assert(Op::spec_fetch(op.spec_encode()) == op);
        },
        Op::Alr(x) => {
            assert(Op::spec_fetch(op.spec_encode()) == op);
        },
        Op::JmpAbs(x) => {
            lemma_le_split_join(x.get());
            assert(Op::spec_fetch(op.spec_encode()) == op);
        },
        Op::EorAbs(x) => {
            lemma_le_split_join(x.get());
            assert(Op::spec_fetch(op.spec_encode()) == op);
        },
        Op::LsrAbs(x) => {
            lemma_le_split_join(x.get());
            assert(Op::spec_fetch(op.spec_encode()) == op);
        },
        Op::SreAbs(x) => {
            lemma_le_split_join(x.get());
            assert(Op::spec_fetch(op.spec_encode()) == op);
        },
        Op::Bvc(x) => {
            lemma_rel_round_i8(x);
            assert(Op::spec_fetch(op.spec_encode()) == op);
        },
        Op::EorIndY(x) => {
            assert(Op::spec_fetch(op.spec_encode()) == op);
        },
        Op::Kil52 => {
            assert(Op::spec_fetch(op.spec_encode()) == op);
        },
        Op::SreIndY(x) => {
            assert(Op::spec_fetch(op.spec_encode()) == op);
        },
        Op::NopZpX54(x) => {
            assert(Op::spec_fetch(op.spec_encode()) == op);
        },
        Op::EorZpX(x) => {
            assert(Op::spec_fetch(op.spec_encode()) == op);
        },
        Op::LsrZpX(x) => {
            assert(Op::spec_fetch(op.spec_encode()) == op);
        },
        Op::SreZpX(x) => {
            assert(Op::spec_fetch(op.spec_encode()) == op);
        },
        Op::Cli => {
            assert(Op::spec_fetch(op.spec_encode()) == op);
        },
        Op::EorAbsY(x) => {
            lemma_le_split_join(x.get());
            assert(Op::spec_fetch(op.spec_encode()) == op);
        },
        Op::Nop5A => {
            assert(Op::spec_fetch(op.spec_encode()) == op);
        },
        Op::SreAbsY(x) => {
            lemma_le_split_join(x.get());
            assert(Op::spec_fetch(op.spec_encode()) == op);
        },
        Op::NopAbsX5C(x) => {
            lemma_le_split_join(x.get());
            assert(Op::spec_fetch(op.spec_encode()) == op);
        },
        Op::EorAbsX(x) => {
            lemma_le_split_join(x.get());
            assert(Op::spec_fetch(op.spec_encode()) == op);
        },
        Op::LsrAbsX(x) => {
            lemma_le_split_join(x.get());
            assert(Op::spec_fetch(op.spec_encode()) == op);
        },
        Op::SreAbsX(x) => {
            lemma_le_split_join(x.get());
            assert(Op::spec_fetch(op.spec_encode()) == op);
        },
        Op::Rts => {
            assert(Op::spec_fetch(op.spec_encode()) == op);
        },
        Op::AdcIndX(x) => {
            assert(Op::spec_fetch(op.spec_encode()) == op);
        },
        Op::Kil62 => {
            assert(Op::spec_fetch(op.spec_encode()) == op);
        },
        Op::RraIndX(x) => {
            assert(Op::spec_fetch(op.spec_encode()) == op);
        },
        Op::NopZp64(x) => {
            assert(Op::spec_fetch(op.spec_encode()) == op);
        },
        Op::AdcZp(x) => {
            assert(Op::spec_fetch(op.spec_encode()) == op);
        },
        Op::RorZp(x) => {
            assert(Op::spec_fetch(op.spec_encode()) == op);
        },
        Op::RraZp(x) => {
            assert(Op::spec_fetch(op.spec_encode()) == op);
        },
        Op::Pla => {
            assert(Op::spec_fetch(op.spec_encode()) == op);
        },
        Op::AdcImm(x) => {
            assert(Op::spec_fetch(op.spec_encode()) == op);
        },
        Op::RorAcc => {
            assert(Op::spec_fetch(op.spec_encode()) == op);
        },
        Op::Arr(x) => {
            assert(Op::spec_fetch(op.spec_encode()) == op);
        },
        Op::JmpInd(x) => {
            lemma_le_split_join(x.get());
            assert(Op::spec_fetch(op.spec_encode()) == op);
        },
        Op::AdcAbs(x) => {
            lemma_le_split_join(x.get());
            assert(Op::spec_fetch(op.spec_encode()) == op);
        },
        Op::RorAbs(x) => {
            lemma_le_split_join(x.get());
            assert(Op::spec_fetch(op.spec_encode()) == op);
        },
        Op::RraAbs(x) => {
            lemma_le_split_join(x.get());
            assert(Op::spec_fetch(op.spec_encode()) == op);
        },
        Op::Bvs(x) => {
            lemma_rel_round_i8(x);
            assert(Op::spec_fetch(op.spec_encode()) == op);
        },
        Op::AdcIndY(x) => {
            assert(Op::spec_fetch(op.spec_encode()) == op);
        },
        Op::Kil72 => {
            assert(Op::spec_fetch(op.spec_encode()) == op);
        },
        Op::RraIndY(x) => {
            assert(Op::spec_fetch(op.spec_encode()) == op);
        },
        Op::NopZpX74(x) => {
            assert(Op::spec_fetch(op.spec_encode()) == op);
        },
        Op::AdcZpX(x) => {
            assert(Op::spec_fetch(op.spec_encode()) == op);
        },
        Op::RorZpX(x) => {
            assert(Op::spec_fetch(op.spec_encode()) == op);
        },
        Op::RraZpX(x) => {
            assert(Op::spec_fetch(op.spec_encode()) == op);
        },
        Op::Sei => {
            assert(Op::spec_fetch(op.spec_encode()) == op);
        },
        Op::AdcAbsY(x) => {
            lemma_le_split_join(x.get());
            assert(Op::spec_fetch(op.spec_encode()) == op);
        },
        Op::Nop7A => {
            assert(Op::spec_fetch(op.spec_encode()) == op);
        },
        Op::RraAbsY(x) => {
            lemma_le_split_join(x.get());
            assert(Op::spec_fetch(op.spec_encode()) == op);
        },
        Op::NopAbsX7C(x) => {
            lemma_le_split_join(x.get());
            assert(Op::spec_fetch(op.spec_encode()) == op);
        },
        Op::AdcAbsX(x) => {
            lemma_le_split_join(x.get());
            assert(Op::spec_fetch(op.spec_encode()) == op);
        },
        Op::RorAbsX(x) => {
            lemma_le_split_join(x.get());
            assert(Op::spec_fetch(op.spec_encode()) == op);
        },
        Op::RraAbsX(x) => {
            lemma_le_split_join(x.get());
            assert(Op::spec_fetch(op.spec_encode()) == op);
        },
        Op::NopImm80(x) => {
            assert(Op::spec_fetch(op.spec_encode()) == op);
        },
        Op::StaIndX(x) => {
            assert(Op::spec_fetch(op.spec_encode()) == op);
        },
        Op::NopImm82(x) => {
            assert(Op::spec_fetch(op.spec_encode()) == op);
        },
        Op::SaxIndX(x) => {
            assert(Op::spec_fetch(op.spec_encode()) == op);
        },
        Op::StyZp(x) => {
            assert(Op::spec_fetch(op.spec_encode()) == op);
        },
        Op::StaZp(x) => {
            assert(Op::spec_fetch(op.spec_encode()) == op);
        },
        Op::StxZp(x) => {
            assert(Op::spec_fetch(op.spec_encode()) == op);
        },
        Op::SaxZp(x) => {
            assert(Op::spec_fetch(op.spec_encode()) == op);
        },
        Op::Dey => {
            assert(Op::spec_fetch(op.spec_encode()) == op);
        },
        Op::NopImm89(x) => {
            assert(Op::spec_fetch(op.spec_encode()) == op);
        },
        Op::Txa => {
            assert(Op::spec_fetch(op.spec_encode()) == op);
        },
        Op::Xaa(x) => {
            assert(Op::spec_fetch(op.spec_encode()) == op);
        },
        Op::StyAbs(x) => {
            lemma_le_split_join(x.get());
            assert(Op::spec_fetch(op.spec_encode()) == op);
        },
        Op::StaAbs(x) => {
            lemma_le_split_join(x.get());
            assert(Op::spec_fetch(op.spec_encode()) == op);
        },
        Op::StxAbs(x) => {
            lemma_le_split_join(x.get());
            assert(Op::spec_fetch(op.spec_encode()) == op);
        },
        Op::SaxAbs(x) => {
            lemma_le_split_join(x.get());
            assert(Op::spec_fetch(op.spec_encode()) == op);
        },
        Op::Bcc(x) => {
            lemma_rel_round_i8(x);
            assert(Op::spec_fetch(op.spec_encode()) == op);
        },
        Op::StaIndY(x) => {
            assert(Op::spec_fetch(op.spec_encode()) == op);
        },
        Op::Kil92 => {
            assert(Op::spec_fetch(op.spec_encode()) == op);
        },
        Op::AhxIndY(x) => {
            assert(Op::spec_fetch(op.spec_encode()) == op);
        },
        Op::StyZpX(x) => {
            assert(Op::spec_fetch(op.spec_encode()) == op);
        },
        Op::StaZpX(x) => {
            assert(Op::spec_fetch(op.spec_encode()) == op);
        },
        Op::StxZpY(x) => {
            assert(Op::spec_fetch(op.spec_encode()) == op);
        },
        Op::SaxZpY(x) => {
            assert(Op::spec_fetch(op.spec_encode()) == op);
        },
        Op::Tya => {
            assert(Op::spec_fetch(op.spec_encode()) == op);
        },
        Op::StaAbsY(x) => {
            lemma_le_split_join(x.get());
            assert(Op::spec_fetch(op.spec_encode()) == op);
        },
        Op::Txs => {
            assert(Op::spec_fetch(op.spec_encode()) == op);
        },
        Op::Tas(x) => {
            lemma_le_split_join(x.get());
            assert(Op::spec_fetch(op.spec_encode()) == op);
        },
        Op::Shy(x) => {
            lemma_le_split_join(x.get());
            assert(Op::spec_fetch(op.spec_encode()) == op);
        },
        Op::StaAbsX(x) => {
            lemma_le_split_join(x.get());
            assert(Op::spec_fetch(op.spec_encode()) == op);
        },
        Op::Shx(x) => {
            lemma_le_split_join(x.get());
            assert(Op::spec_fetch(op.spec_encode()) == op);
        },
        Op::AhxAbsY(x) => {
            lemma_le_split_join(x.get());
            assert(Op::spec_fetch(op.spec_encode()) == op);
        },
        Op::LdyImm(x) => {
            assert(Op::spec_fetch(op.spec_encode()) == op);
        },
        Op::LdaIndX(x) => {
            assert(Op::spec_fetch(op.spec_encode()) == op);
        },
        Op::LdxImm(x) => {
            assert(Op::spec_fetch(op.spec_encode()) == op);
        },
        Op::LaxIndX(x) => {
            assert(Op::spec_fetch(op.spec_encode()) == op);
        },
        Op::LdyZp(x) => {
            assert(Op::spec_fetch(op.spec_encode()) == op);
        },
        Op::LdaZp(x) => {
            assert(Op::spec_fetch(op.spec_encode()) == op);
        },
        Op::LdxZp(x) => {
            assert(Op::spec_fetch(op.spec_encode()) == op);
        },
        Op::LaxZp(x) => {
            assert(Op::spec_fetch(op.spec_encode()) == op);
        },
        Op::Tay => {
            assert(Op::spec_fetch(op.spec_encode()) == op);
        },
        Op::LdaImm(x) => {
            assert(Op::spec_fetch(op.spec_encode()) == op);
        },
        Op::Tax => {
            assert(Op::spec_fetch(op.spec_encode()) == op);
        },
        Op::LaxImm(x) => {
            assert(Op::spec_fetch(op.spec_encode()) == op);
        },
        Op::LdyAbs(x) => {
            lemma_le_split_join(x.get());
            assert(Op::spec_fetch(op.spec_encode()) == op);
        },
        Op::LdaAbs(x) => {
            lemma_le_split_join(x.get());
            assert(Op::spec_fetch(op.spec_encode()) == op);
        },
        Op::LdxAbs(x) => {
            lemma_le_split_join(x.get());
            assert(Op::spec_fetch(op.spec_encode()) == op);
        },
        Op::LaxAbs(x) => {
            lemma_le_split_join(x.get());
            assert(Op::spec_fetch(op.spec_encode()) == op);
        },
        Op::Bcs(x) => {
            lemma_rel_round_i8(x);
            assert(Op::spec_fetch(op.spec_encode()) == op);
        },
        Op::LdaIndY(x) => {
            assert(Op::spec_fetch(op.spec_encode()) == op);
        },
        Op::KilB2 => {
            assert(Op::spec_fetch(op.spec_encode()) == op);
        },
        Op::LaxIndY(x) => {
            assert(Op::spec_fetch(op.spec_encode()) == op);
        },
        Op::LdyZpX(x) => {
            assert(Op::spec_fetch(op.spec_encode()) == op);
        },
        Op::LdaZpX(x) => {
            assert(Op::spec_fetch(op.spec_encode()) == op);
        },
        Op::LdxZpY(x) => {
            assert(Op::spec_fetch(op.spec_encode()) == op);
        },
        Op::LaxZpY(x) => {
            assert(Op::spec_fetch(op.spec_encode()) == op);
        },
        Op::Clv => {
            assert(Op::spec_fetch(op.spec_encode()) == op);
        },
        Op::LdaAbsY(x) => {
            lemma_le_split_join(x.get());
            assert(Op::spec_fetch(op.spec_encode()) == op);
        },
        Op::Tsx => {
            assert(Op::spec_fetch(op.spec_encode()) == op);
        },
        Op::Las(x) => {
            lemma_le_split_join(x.get());
            assert(Op::spec_fetch(op.spec_encode()) == op);
        },
        Op::LdyAbsX(x) => {
            lemma_le_split_join(x.get());
            assert(Op::spec_fetch(op.spec_encode()) == op);
        },
        Op::LdaAbsX(x) => {
            lemma_le_split_join(x.get());
            assert(Op::spec_fetch(op.spec_encode()) == op);
        },
        Op::LdxAbsY(x) => {
            lemma_le_split_join(x.get());
            assert(Op::spec_fetch(op.spec_encode()) == op);
        },
        Op::LaxAbsY(x) => {
            lemma_le_split_join(x.get());
            assert(Op::spec_fetch(op.spec_encode()) == op);
        },
        Op::CpyImm(x) => {
            assert(Op::spec_fetch(op.spec_encode()) == op);
        },
        Op::CmpIndX(x) => {
            assert(Op::spec_fetch(op.spec_encode()) == op);
        },
        Op::NopImmC2(x) => {
            assert(Op::spec_fetch(op.spec_encode()) == op);
        },
        Op::DcpIndX(x) => {
            assert(Op::spec_fetch(op.spec_encode()) == op);
        },
        Op::CpyZp(x) => {
            assert(Op::spec_fetch(op.spec_encode()) == op);
        },
        Op::CmpZp(x) => {
            assert(Op::spec_fetch(op.spec_encode()) == op);
        },
        Op::DecZp(x) => {
            assert(Op::spec_fetch(op.spec_encode()) == op);
        },
        Op::DcpZp(x) => {
            assert(Op::spec_fetch(op.spec_encode()) == op);
        },
        Op::Iny => {
            assert(Op::spec_fetch(op.spec_encode()) == op);
        },
        Op::CmpImm(x) => {
            assert(Op::spec_fetch(op.spec_encode()) == op);
        },
        Op::Dex => {
            assert(Op::spec_fetch(op.spec_encode()) == op);
        },
        Op::Axs(x) => {
            assert(Op::spec_fetch(op.spec_encode()) == op);
        },
        Op::CpyAbs(x) => {
            lemma_le_split_join(x.get());
            assert(Op::spec_fetch(op.spec_encode()) == op);
        },
        Op::CmpAbs(x) => {
            lemma_le_split_join(x.get());
            assert(Op::spec_fetch(op.spec_encode()) == op);
        },
        Op::DecAbs(x) => {
            lemma_le_split_join(x.get());
            assert(Op::spec_fetch(op.spec_encode()) == op);
        },
        Op::DcpAbs(x) => {
            lemma_le_split_join(x.get());
            assert(Op::spec_fetch(op.spec_encode()) == op);
        },
        Op::Bne(x) => {
            lemma_rel_round_i8(x);
            assert(Op::spec_fetch(op.spec_encode()) == op);
        },
        Op::CmpIndY(x) => {
            assert(Op::spec_fetch(op.spec_encode()) == op);
        },
        Op::KilD2 => {
            assert(Op::spec_fetch(op.spec_encode()) == op);
        },
        Op::DcpIndY(x) => {
            assert(Op::spec_fetch(op.spec_encode()) == op);
        },
        Op::NopZpXD4(x) => {
            assert(Op::spec_fetch(op.spec_encode()) == op);
        },
        Op::CmpZpX(x) => {
            assert(Op::spec_fetch(op.spec_encode()) == op);
        },
        Op::DecZpX(x) => {
            assert(Op::spec_fetch(op.spec_encode()) == op);
        },
        Op::DcpZpX(x) => {
            assert(Op::spec_fetch(op.spec_encode()) == op);
        },
        Op::Cld => {
            assert(Op::spec_fetch(op.spec_encode()) == op);
        },
        Op::CmpAbsY(x) => {
            lemma_le_split_join(x.get());
            assert(Op::spec_fetch(op.spec_encode()) == op);
        },
        Op::NopDA => {
            assert(Op::spec_fetch(op.spec_encode()) == op);
        },
        Op::DcpAbsY(x) => {
            lemma_le_split_join(x.get());
            assert(Op::spec_fetch(op.spec_encode()) == op);
        },
        Op::NopAbsXDC(x) => {
            lemma_le_split_join(x.get());
            assert(Op::spec_fetch(op.spec_encode()) == op);
        },
        Op::CmpAbsX(x) => {
            lemma_le_split_join(x.get());
            assert(Op::spec_fetch(op.spec_encode()) == op);
        },
        Op::DecAbsX(x) => {
            lemma_le_split_join(x.get());
            assert(Op::spec_fetch(op.spec_encode()) == op);
        },
        Op::DcpAbsX(x) => {
            lemma_le_split_join(x.get());
            assert(Op::spec_fetch(op.spec_encode()) == op);
        },
        Op::CpxImm(x) => {
            assert(Op::spec_fetch(op.spec_encode()) == op);
        },
        Op::SbcIndX(x) => {
            assert(Op::spec_fetch(op.spec_encode()) == op);
        },
        Op::NopImmE2(x) => {
            assert(Op::spec_fetch(op.spec_encode()) == op);
        },
        Op::IscIndX(x) => {
            assert(Op::spec_fetch(op.spec_encode()) == op);
        },
        Op::CpxZp(x) => {
            assert(Op::spec_fetch(op.spec_encode()) == op);
        },
        Op::SbcZp(x) => {
            assert(Op::spec_fetch(op.spec_encode()) == op);
        },
        Op::IncZp(x) => {
            assert(Op::spec_fetch(op.spec_encode()) == op);
        },
        Op::IscZp(x) => {
            assert(Op::spec_fetch(op.spec_encode()) == op);
        },
        Op::Inx => {
            assert(Op::spec_fetch(op.spec_encode()) == op);
        },
        Op::SbcImmE9(x) => {
            assert(Op::spec_fetch(op.spec_encode()) == op);
        },
        Op::NopEA => {
            assert(Op::spec_fetch(op.spec_encode()) == op);
        },
        Op::SbcImmEB(x) => {
            assert(Op::spec_fetch(op.spec_encode()) == op);
        },
        Op::CpxAbs(x) => {
            lemma_le_split_join(x.get());
            assert(Op::spec_fetch(op.spec_encode()) == op);
        },
        Op::SbcAbs(x) => {
            lemma_le_split_join(x.get());
            assert(Op::spec_fetch(op.spec_encode()) == op);
        },
        Op::IncAbs(x) => {
            lemma_le_split_join(x.get());
            assert(Op::spec_fetch(op.spec_encode()) == op);
        },
        Op::IscAbs(x) => {
            lemma_le_split_join(x.get());
            assert(Op::spec_fetch(op.spec_encode()) == op);
        },
        Op::Beq(x) => {
            lemma_rel_round_i8(x);
            assert(Op::spec_fetch(op.spec_encode()) == op);
        },
        Op::SbcIndY(x) => {
            assert(Op::spec_fetch(op.spec_encode()) == op);
        },
        Op::KilF2 => {
            assert(Op::spec_fetch(op.spec_encode()) == op);
        },
        Op::IscIndY(x) => {
            assert(Op::spec_fetch(op.spec_encode()) == op);
        },
        Op::NopZpXF4(x) => {
            assert(Op::spec_fetch(op.spec_encode()) == op);
        },
        Op::SbcZpX(x) => {
            assert(Op::spec_fetch(op.spec_encode()) == op);
        },
        Op::IncZpX(x) => {
            assert(Op::spec_fetch(op.spec_encode()) == op);
        },
        Op::IscZpX(x) => {
            assert(Op::spec_fetch(op.spec_encode()) == op);
        },
        Op::Sed => {
            assert(Op::spec_fetch(op.spec_encode()) == op);
        },
        Op::SbcAbsY(x) => {
            lemma_le_split_join(x.get());
            assert(Op::spec_fetch(op.spec_encode()) == op);
        },
        Op::NopFA => {
            assert(Op::spec_fetch(op.spec_encode()) == op);
        },
        Op::IscAbsY(x) => {
            lemma_le_split_join(x.get());
            assert(Op::spec_fetch(op.spec_encode()) == op);
        },
        Op::NopAbsXFC(x) => {
            lemma_le_split_join(x.get());
            assert(Op::spec_fetch(op.spec_encode()) == op);
        },
        Op::SbcAbsX(x) => {
            lemma_le_split_join(x.get());
            assert(Op::spec_fetch(op.spec_encode()) == op);
        },
        Op::IncAbsX(x) => {
            lemma_le_split_join(x.get());
            assert(Op::spec_fetch(op.spec_encode()) == op);
        },
        Op::IscAbsX(x) => {
            lemma_le_split_join(x.get());
            assert(Op::spec_fetch(op.spec_encode()) == op);
        },
    }
}

/// Re-encoding the instruction decoded from a well-formed byte string
/// reproduces the original bytes.
#[verifier::rlimit(100)]
pub proof fn lemma_encode_of_fetch(s: Seq<u8>)
    requires
        s.len() == Opcode::spec_op_len(s[0]),
    ensures
        Op::spec_fetch(s).spec_encode() == s,
{
    let b = s[0];
    if b == 0x00 {
        assert(Op::spec_fetch(s).spec_encode() =~= s);
    } else if b == 0x01 {
        assert(Op::spec_fetch(s).spec_encode() =~= s);
    } else if b == 0x02 {
        assert(Op::spec_fetch(s).spec_encode() =~= s);
    } else if b == 0x03 {
        assert(Op::spec_fetch(s).spec_encode() =~= s);
    } else if b == 0x04 {
        assert(Op::spec_fetch(s).spec_encode() =~= s);
    } else if b == 0x05 {
        assert(Op::spec_fetch(s).spec_encode() =~= s);
    } else if b == 0x06 {
        assert(Op::spec_fetch(s).spec_encode() =~= s);
    } else if b == 0x07 {
        assert(Op::spec_fetch(s).spec_encode() =~= s);
    } else if b == 0x08 {
        assert(Op::spec_fetch(s).spec_encode() =~= s);
    } else if b == 0x09 {
        assert(Op::spec_fetch(s).spec_encode() =~= s);
    } else if b == 0x0A {
        assert(Op::spec_fetch(s).spec_encode() =~= s);
    } else if b == 0x0B {
        assert(Op::spec_fetch(s).spec_encode() =~= s);
    } else if b == 0x0C {
        lemma_le_join_split(s[1], s[2]);
        assert(Op::spec_fetch(s).spec_encode() =~= s);
    } else if b == 0x0D {
        lemma_le_join_split(s[1], s[2]);
        assert(Op::spec_fetch(s).spec_encode() =~= s);
    } else if b == 0x0E {
        lemma_le_join_split(s[1], s[2]);
        assert(Op::spec_fetch(s).spec_encode() =~= s);
    } else if b == 0x0F {
        lemma_le_join_split(s[1], s[2]);
        assert(Op::spec_fetch(s).spec_encode() =~= s);
    } else if b == 0x10 {
        lemma_rel_round_u8(s[1]);
        assert(Op::spec_fetch(s).spec_encode() =~= s);
    } else if b == 0x11 {
        assert(Op::spec_fetch(s).spec_encode() =~= s);
    } else if b == 0x12 {
        assert(Op::spec_fetch(s).spec_encode() =~= s);
    } else if b == 0x13 {
        assert(Op::spec_fetch(s).spec_encode() =~= s);
    } else if b == 0x14 {
        assert(Op::spec_fetch(s).spec_encode() =~= s);
    } else if b == 0x15 {
        assert(Op::spec_fetch(s).spec_encode() =~= s);
    } else if b == 0x16 {
        assert(Op::spec_fetch(s).spec_encode() =~= s);
    } else if b == 0x17 {
        assert(Op::spec_fetch(s).spec_encode() =~= s);
    } else if b == 0x18 {
        assert(Op::spec_fetch(s).spec_encode() =~= s);
    } else if b == 0x19 {
        lemma_le_join_split(s[1], s[2]);
        assert(Op::spec_fetch(s).spec_encode() =~= s);
    } else if b == 0x1A {
        assert(Op::spec_fetch(s).spec_encode() =~= s);
    } else if b == 0x1B {
        lemma_le_join_split(s[1], s[2]);
        assert(Op::spec_fetch(s).spec_encode() =~= s);
    } else if b == 0x1C {
        lemma_le_join_split(s[1], s[2]);
        assert(Op::spec_fetch(s).spec_encode() =~= s);
    } else if b == 0x1D {
        lemma_le_join_split(s[1], s[2]);
        assert(Op::spec_fetch(s).spec_encode() =~= s);
    } else if b == 0x1E {
        lemma_le_join_split(s[1], s[2]);
        assert(Op::spec_fetch(s).spec_encode() =~= s);
    } else if b == 0x1F {
        lemma_le_join_split(s[1], s[2]);
        assert(Op::spec_fetch(s).spec_encode() =~= s);
    } else if b == 0x20 {
        lemma_le_join_split(s[1], s[2]);
        assert(Op::spec_fetch(s).spec_encode() =~= s);
    } else if b == 0x21 {
        assert(Op::spec_fetch(s).spec_encode() =~= s);
    } else if b == 0x22 {
        assert(Op::spec_fetch(s).spec_encode() =~= s);
    } else if b == 0x23 {
        assert(Op::spec_fetch(s).spec_encode() =~= s);
    } else if b == 0x24 {
        assert(Op::spec_fetch(s).spec_encode() =~= s);
    } else if b == 0x25 {
        assert(Op::spec_fetch(s).spec_encode() =~= s);
    } else if b == 0x26 {
        assert(Op::spec_fetch(s).spec_encode() =~= s);
    } else if b == 0x27 {
        assert(Op::spec_fetch(s).spec_encode() =~= s);
    } else if b == 0x28 {
        assert(Op::spec_fetch(s).spec_encode() =~= s);
    } else if b == 0x29 {
        assert(Op::spec_fetch(s).spec_encode() =~= s);
    } else if b == 0x2A {
        assert(Op::spec_fetch(s).spec_encode() =~= s);
    } else if b == 0x2B {
        assert(Op::spec_fetch(s).spec_encode() =~= s);
    } else if b == 0x2C {
        lemma_le_join_split(s[1], s[2]);
        assert(Op::spec_fetch(s).spec_encode() =~= s);
    } else if b == 0x2D {
        lemma_le_join_split(s[1], s[2]);
        assert(Op::spec_fetch(s).spec_encode() =~= s);
    } else if b == 0x2E {
        lemma_le_join_split(s[1], s[2]);
        assert(Op::spec_fetch(s).spec_encode() =~= s);
    } else if b == 0x2F {
        lemma_le_join_split(s[1], s[2]);
        assert(Op::spec_fetch(s).spec_encode() =~= s);
    } else if b == 0x30 {
        lemma_rel_round_u8(s[1]);
        assert(Op::spec_fetch(s).spec_encode() =~= s);
    } else if b == 0x31 {
        assert(Op::spec_fetch(s).spec_encode() =~= s);
    } else if b == 0x32 {
        assert(Op::spec_fetch(s).spec_encode() =~= s);
    } else if b == 0x33 {
        assert(Op::spec_fetch(s).spec_encode() =~= s);
    } else if b == 0x34 {
        assert(Op::spec_fetch(s).spec_encode() =~= s);
    } else if b == 0x35 {
        assert(Op::spec_fetch(s).spec_encode() =~= s);
    } else if b == 0x36 {
        assert(Op::spec_fetch(s).spec_encode() =~= s);
    } else if b == 0x37 {
        assert(Op::spec_fetch(s).spec_encode() =~= s);
    } else if b == 0x38 {
        assert(Op::spec_fetch(s).spec_encode() =~= s);
    } else if b == 0x39 {
        lemma_le_join_split(s[1], s[2]);
        assert(Op::spec_fetch(s).spec_encode() =~= s);
    } else if b == 0x3A {
        assert(Op::spec_fetch(s).spec_encode() =~= s);
    } else if b == 0x3B {
        lemma_le_join_split(s[1], s[2]);
        assert(Op::spec_fetch(s).spec_encode() =~= s);
    } else if b == 0x3C {
        lemma_le_join_split(s[1], s[2]);
        assert(Op::spec_fetch(s).spec_encode() =~= s);
    } else if b == 0x3D {
        lemma_le_join_split(s[1], s[2]);
        assert(Op::spec_fetch(s).spec_encode() =~= s);
    } else if b == 0x3E {
        lemma_le_join_split(s[1], s[2]);
        assert(Op::spec_fetch(s).spec_encode() =~= s);
    } else if b == 0x3F {
        lemma_le_join_split(s[1], s[2]);
        assert(Op::spec_fetch(s).spec_encode() =~= s);
    } else if b == 0x40 {
        assert(Op::spec_fetch(s).spec_encode() =~= s);
    } else if b == 0x41 {
        assert(Op::spec_fetch(s).spec_encode() =~= s);
    } else if b == 0x42 {
        assert(Op::spec_fetch(s).spec_encode() =~= s);
    } else if b == 0x43 {
        assert(Op::spec_fetch(s).spec_encode() =~= s);
    } else if b == 0x44 {
        assert(Op::spec_fetch(s).spec_encode() =~= s);
    } else if b == 0x45 {
        assert(Op::spec_fetch(s).spec_encode() =~= s);
    } else if b == 0x46 {
        assert(Op::spec_fetch(s).spec_encode() =~= s);
    } else if b == 0x47 {
        assert(Op::spec_fetch(s).spec_encode() =~= s);
    } else if b == 0x48 {
        assert(Op::spec_fetch(s).spec_encode() =~= s);
    } else if b == 0x49 {
        assert(Op::spec_fetch(s).spec_encode() =~= s);
    } else if b == 0x4A {
        assert(Op::spec_fetch(s).spec_encode() =~= s);
    } else if b == 0x4B {
        assert(Op::spec_fetch(s).spec_encode() =~= s);
    } else if b == 0x4C {
        lemma_le_join_split(s[1], s[2]);
        assert(Op::spec_fetch(s).spec_encode() =~= s);
    } else if b == 0x4D {
        lemma_le_join_split(s[1], s[2]);
        assert(Op::spec_fetch(s).spec_encode() =~= s);
    } else if b == 0x4E {
        lemma_le_join_split(s[1], s[2]);
        assert(Op::spec_fetch(s).spec_encode() =~= s);
    } else if b == 0x4F {
        lemma_le_join_split(s[1], s[2]);
        assert(Op::spec_fetch(s).spec_encode() =~= s);
    } else if b == 0x50 {
        lemma_rel_round_u8(s[1]);
        assert(Op::spec_fetch(s).spec_encode() =~= s);
    } else if b == 0x51 {
        assert(Op::spec_fetch(s).spec_encode() =~= s);
    } else if b == 0x52 {
        assert(Op::spec_fetch(s).spec_encode() =~= s);
    } else if b == 0x53 {
        assert(Op::spec_fetch(s).spec_encode() =~= s);
    } else if b == 0x54 {
        assert(Op::spec_fetch(s).spec_encode() =~= s);
    } else if b == 0x55 {
        assert(Op::spec_fetch(s).spec_encode() =~= s);
    } else if b == 0x56 {
        assert(Op::spec_fetch(s).spec_encode() =~= s);
    } else if b == 0x57 {
        assert(Op::spec_fetch(s).spec_encode() =~= s);
    } else if b == 0x58 {
        assert(Op::spec_fetch(s).spec_encode() =~= s);
    } else if b == 0x59 {
        lemma_le_join_split(s[1], s[2]);
        assert(Op::spec_fetch(s).spec_encode() =~= s);
    } else if b == 0x5A {
        assert(Op::spec_fetch(s).spec_encode() =~= s);
    } else if b == 0x5B {
        lemma_le_join_split(s[1], s[2]);
        assert(Op::spec_fetch(s).spec_encode() =~= s);
    } else if b == 0x5C {
        lemma_le_join_split(s[1], s[2]);
        assert(Op::spec_fetch(s).spec_encode() =~= s);
    } else if b == 0x5D {
        lemma_le_join_split(s[1], s[2]);
        assert(Op::spec_fetch(s).spec_encode() =~= s);
    } else if b == 0x5E {
        lemma_le_join_split(s[1], s[2]);
        assert(Op::spec_fetch(s).spec_encode() =~= s);
    } else if b == 0x5F {
        lemma_le_join_split(s[1], s[2]);
        assert(Op::spec_fetch(s).spec_encode() =~= s);
    } else if b == 0x60 {
        assert(Op::spec_fetch(s).spec_encode() =~= s);
    } else if b == 0x61 {
        assert(Op::spec_fetch(s).spec_encode() =~= s);
    } else if b == 0x62 {
        assert(Op::spec_fetch(s).spec_encode() =~= s);
    } else if b == 0x63 {
        assert(Op::spec_fetch(s).spec_encode() =~= s);
    } else if b == 0x64 {
        assert(Op::spec_fetch(s).spec_encode() =~= s);
    } else if b == 0x65 {
        assert(Op::spec_fetch(s).spec_encode() =~= s);
    } else if b == 0x66 {
        assert(Op::spec_fetch(s).spec_encode() =~= s);
    } else if b == 0x67 {
        assert(Op::spec_fetch(s).spec_encode() =~= s);
    } else if b == 0x68 {
        assert(Op::spec_fetch(s).spec_encode() =~= s);
    } else if b == 0x69 {
        assert(Op::spec_fetch(s).spec_encode() =~= s);
    } else if b == 0x6A {
        assert(Op::spec_fetch(s).spec_encode() =~= s);
    } else if b == 0x6B {
        assert(Op::spec_fetch(s).spec_encode() =~= s);
    } else if b == 0x6C {
        lemma_le_join_split(s[1], s[2]);
        assert(Op::spec_fetch(s).spec_encode() =~= s);
    } else if b == 0x6D {
        lemma_le_join_split(s[1], s[2]);
        assert(Op::spec_fetch(s).spec_encode() =~= s);
    } else if b == 0x6E {
        lemma_le_join_split(s[1], s[2]);
        assert(Op::spec_fetch(s).spec_encode() =~= s);
    } else if b == 0x6F {
        lemma_le_join_split(s[1], s[2]);
        assert(Op::spec_fetch(s).spec_encode() =~= s);
    } else if b == 0x70 {
        lemma_rel_round_u8(s[1]);
        assert(Op::spec_fetch(s).spec_encode() =~= s);
    } else if b == 0x71 {
        assert(Op::spec_fetch(s).spec_encode() =~= s);
    } else if b == 0x72 {
        assert(Op::spec_fetch(s).spec_encode() =~= s);
    } else if b == 0x73 {
        assert(Op::spec_fetch(s).spec_encode() =~= s);
    } else if b == 0x74 {
        assert(Op::spec_fetch(s).spec_encode() =~= s);
    } else if b == 0x75 {
        assert(Op::spec_fetch(s).spec_encode() =~= s);
    } else if b == 0x76 {
        assert(Op::spec_fetch(s).spec_encode() =~= s);
    } else if b == 0x77 {
        assert(Op::spec_fetch(s).spec_encode() =~= s);
    } else if b == 0x78 {
        assert(Op::spec_fetch(s).spec_encode() =~= s);
    } else if b == 0x79 {
        lemma_le_join_split(s[1], s[2]);
        assert(Op::spec_fetch(s).spec_encode() =~= s);
    } else if b == 0x7A {
        assert(Op::spec_fetch(s).spec_encode() =~= s);
    } else if b == 0x7B {
        lemma_le_join_split(s[1], s[2]);
        assert(Op::spec_fetch(s).spec_encode() =~= s);
    } else if b == 0x7C {
        lemma_le_join_split(s[1], s[2]);
        assert(Op::spec_fetch(s).spec_encode() =~= s);
    } else if b == 0x7D {
        lemma_le_join_split(s[1], s[2]);
        assert(Op::spec_fetch(s).spec_encode() =~= s);
    } else if b == 0x7E {
        lemma_le_join_split(s[1], s[2]);
        assert(Op::spec_fetch(s).spec_encode() =~= s);
    } else if b == 0x7F {
        lemma_le_join_split(s[1], s[2]);
        assert(Op::spec_fetch(s).spec_encode() =~= s);
    } else if b == 0x80 {
        assert(Op::spec_fetch(s).spec_encode() =~= s);
    } else if b == 0x81 {
        assert(Op::spec_fetch(s).spec_encode() =~= s);
    } else if b == 0x82 {
        assert(Op::spec_fetch(s).spec_encode() =~= s);
    } else if b == 0x83 {
        assert(Op::spec_fetch(s).spec_encode() =~= s);
    } else if b == 0x84 {
        assert(Op::spec_fetch(s).spec_encode() =~= s);
    } else if b == 0x85 {
        assert(Op::spec_fetch(s).spec_encode() =~= s);
    } else if b == 0x86 {
        assert(Op::spec_fetch(s).spec_encode() =~= s);
    } else if b == 0x87 {
        assert(Op::spec_fetch(s).spec_encode() =~= s);
    } else if b == 0x88 {
        assert(Op::spec_fetch(s).spec_encode() =~= s);
    } else if b == 0x89 {
        assert(Op::spec_fetch(s).spec_encode() =~= s);
    } else if b == 0x8A {
        assert(Op::spec_fetch(s).spec_encode() =~= s);
    } else if b == 0x8B {
        assert(Op::spec_fetch(s).spec_encode() =~= s);
    } else if b == 0x8C {
        lemma_le_join_split(s[1], s[2]);
        assert(Op::spec_fetch(s).spec_encode() =~= s);
    } else if b == 0x8D {
        lemma_le_join_split(s[1], s[2]);
        assert(Op::spec_fetch(s).spec_encode() =~= s);
    } else if b == 0x8E {
        lemma_le_join_split(s[1], s[2]);
        assert(Op::spec_fetch(s).spec_encode() =~= s);
    } else if b == 0x8F {
        lemma_le_join_split(s[1], s[2]);
        assert(Op::spec_fetch(s).spec_encode() =~= s);
    } else if b == 0x90 {
        lemma_rel_round_u8(s[1]);
        assert(Op::spec_fetch(s).spec_encode() =~= s);
    } else if b == 0x91 {
        assert(Op::spec_fetch(s).spec_encode() =~= s);
    } else if b == 0x92 {
        assert(Op::spec_fetch(s).spec_encode() =~= s);
    } else if b == 0x93 {
        assert(Op::spec_fetch(s).spec_encode() =~= s);
    } else if b == 0x94 {
        assert(Op::spec_fetch(s).spec_encode() =~= s);
    } else if b == 0x95 {
        assert(Op::spec_fetch(s).spec_encode() =~= s);
    } else if b == 0x96 {
        assert(Op::spec_fetch(s).spec_encode() =~= s);
    } else if b == 0x97 {
        assert(Op::spec_fetch(s).spec_encode() =~= s);
    } else if b == 0x98 {
        assert(Op::spec_fetch(s).spec_encode() =~= s);
    } else if b == 0x99 {
        lemma_le_join_split(s[1], s[2]);
        assert(Op::spec_fetch(s).spec_encode() =~= s);
    } else if b == 0x9A {
        assert(Op::spec_fetch(s).spec_encode() =~= s);
    } else if b == 0x9B {
        lemma_le_join_split(s[1], s[2]);
        assert(Op::spec_fetch(s).spec_encode() =~= s);
    } else if b == 0x9C {
        lemma_le_join_split(s[1], s[2]);
        assert(Op::spec_fetch(s).spec_encode() =~= s);
    } else if b == 0x9D {
        lemma_le_join_split(s[1], s[2]);
        assert(Op::spec_fetch(s).spec_encode() =~= s);
    } else if b == 0x9E {
        lemma_le_join_split(s[1], s[2]);
        assert(Op::spec_fetch(s).spec_encode() =~= s);
    } else if b == 0x9F {
        lemma_le_join_split(s[1], s[2]);
        assert(Op::spec_fetch(s).spec_encode() =~= s);
    } else if b == 0xA0 {
        assert(Op::spec_fetch(s).spec_encode() =~= s);
    } else if b == 0xA1 {
        assert(Op::spec_fetch(s).spec_encode() =~= s);
    } else if b == 0xA2 {
        assert(Op::spec_fetch(s).spec_encode() =~= s);
    } else if b == 0xA3 {
        assert(Op::spec_fetch(s).spec_encode() =~= s);
    } else if b == 0xA4 {
        assert(Op::spec_fetch(s).spec_encode() =~= s);
    } else if b == 0xA5 {
        assert(Op::spec_fetch(s).spec_encode() =~= s);
    } else if b == 0xA6 {
        assert(Op::spec_fetch(s).spec_encode() =~= s);
    } else if b == 0xA7 {
        assert(Op::spec_fetch(s).spec_encode() =~= s);
    } else if b == 0xA8 {
        assert(Op::spec_fetch(s).spec_encode() =~= s);
    } else if b == 0xA9 {
        assert(Op::spec_fetch(s).spec_encode() =~= s);
    } else if b == 0xAA {
        assert(Op::spec_fetch(s).spec_encode() =~= s);
    } else if b == 0xAB {
        assert(Op::spec_fetch(s).spec_encode() =~= s);
    } else if b == 0xAC {
        lemma_le_join_split(s[1], s[2]);
        assert(Op::spec_fetch(s).spec_encode() =~= s);
    } else if b == 0xAD {
        lemma_le_join_split(s[1], s[2]);
        assert(Op::spec_fetch(s).spec_encode() =~= s);
    } else if b == 0xAE {
        lemma_le_join_split(s[1], s[2]);
        assert(Op::spec_fetch(s).spec_encode() =~= s);
    } else if b == 0xAF {
        lemma_le_join_split(s[1], s[2]);
        assert(Op::spec_fetch(s).spec_encode() =~= s);
    } else if b == 0xB0 {
        lemma_rel_round_u8(s[1]);
        assert(Op::spec_fetch(s).spec_encode() =~= s);
    } else if b == 0xB1 {
        assert(Op::spec_fetch(s).spec_encode() =~= s);
    } else if b == 0xB2 {
        assert(Op::spec_fetch(s).spec_encode() =~= s);
    } else if b == 0xB3 {
        assert(Op::spec_fetch(s).spec_encode() =~= s);
    } else if b == 0xB4 {
        assert(Op::spec_fetch(s).spec_encode() =~= s);
    } else if b == 0xB5 {
        assert(Op::spec_fetch(s).spec_encode() =~= s);
    } else if b == 0xB6 {
        assert(Op::spec_fetch(s).spec_encode() =~= s);
    } else if b == 0xB7 {
        assert(Op::spec_fetch(s).spec_encode() =~= s);
    } else if b == 0xB8 {
        assert(Op::spec_fetch(s).spec_encode() =~= s);
    } else if b == 0xB9 {
        lemma_le_join_split(s[1], s[2]);
        assert(Op::spec_fetch(s).spec_encode() =~= s);
    } else if b == 0xBA {
        assert(Op::spec_fetch(s).spec_encode() =~= s);
    } else if b == 0xBB {
        lemma_le_join_split(s[1], s[2]);
        assert(Op::spec_fetch(s).spec_encode() =~= s);
    } else if b == 0xBC {
        lemma_le_join_split(s[1], s[2]);
        assert(Op::spec_fetch(s).spec_encode() =~= s);
    } else if b == 0xBD {
        lemma_le_join_split(s[1], s[2]);
        assert(Op::spec_fetch(s).spec_encode() =~= s);
    } else if b == 0xBE {
        lemma_le_join_split(s[1], s[2]);
        assert(Op::spec_fetch(s).spec_encode() =~= s);
    } else if b == 0xBF {
        lemma_le_join_split(s[1], s[2]);
        assert(Op::spec_fetch(s).spec_encode() =~= s);
    } else if b == 0xC0 {
        assert(Op::spec_fetch(s).spec_encode() =~= s);
    } else if b == 0xC1 {
        assert(Op::spec_fetch(s).spec_encode() =~= s);
    } else if b == 0xC2 {
        assert(Op::spec_fetch(s).spec_encode() =~= s);
    } else if b == 0xC3 {
        assert(Op::spec_fetch(s).spec_encode() =~= s);
    } else if b == 0xC4 {
        assert(Op::spec_fetch(s).spec_encode() =~= s);
    } else if b == 0xC5 {
        assert(Op::spec_fetch(s).spec_encode() =~= s);
    } else if b == 0xC6 {
        assert(Op::spec_fetch(s).spec_encode() =~= s);
    } else if b == 0xC7 {
        assert(Op::spec_fetch(s).spec_encode() =~= s);
    } else if b == 0xC8 {
        assert(Op::spec_fetch(s).spec_encode() =~= s);
    } else if b == 0xC9 {
        assert(Op::spec_fetch(s).spec_encode() =~= s);
    } else if b == 0xCA {
        assert(Op::spec_fetch(s).spec_encode() =~= s);
    } else if b == 0xCB {
        assert(Op::spec_fetch(s).spec_encode() =~= s);
    } else if b == 0xCC {
        lemma_le_join_split(s[1], s[2]);
        assert(Op::spec_fetch(s).spec_encode() =~= s);
    } else if b == 0xCD {
        lemma_le_join_split(s[1], s[2]);
        assert(Op::spec_fetch(s).spec_encode() =~= s);
    } else if b == 0xCE {
        lemma_le_join_split(s[1], s[2]);
        assert(Op::spec_fetch(s).spec_encode() =~= s);
    } else if b == 0xCF {
        lemma_le_join_split(s[1], s[2]);
        assert(Op::spec_fetch(s).spec_encode() =~= s);
    } else if b == 0xD0 {
        lemma_rel_round_u8(s[1]);
        assert(Op::spec_fetch(s).spec_encode() =~= s);
    } else if b == 0xD1 {
        assert(Op::spec_fetch(s).spec_encode() =~= s);
    } else if b == 0xD2 {
        assert(Op::spec_fetch(s).spec_encode() =~= s);
    } else if b == 0xD3 {
        assert(Op::spec_fetch(s).spec_encode() =~= s);
    } else if b == 0xD4 {
        assert(Op::spec_fetch(s).spec_encode() =~= s);
    } else if b == 0xD5 {
        assert(Op::spec_fetch(s).spec_encode() =~= s);
    } else if b == 0xD6 {
        assert(Op::spec_fetch(s).spec_encode() =~= s);
    } else if b == 0xD7 {
        assert(Op::spec_fetch(s).spec_encode() =~= s);
    } else if b == 0xD8 {
        assert(Op::spec_fetch(s).spec_encode() =~= s);
    } else if b == 0xD9 {
        lemma_le_join_split(s[1], s[2]);
        assert(Op::spec_fetch(s).spec_encode() =~= s);
    } else if b == 0xDA {
        assert(Op::spec_fetch(s).spec_encode() =~= s);
    } else if b == 0xDB {
        lemma_le_join_split(s[1], s[2]);
        assert(Op::spec_fetch(s).spec_encode() =~= s);
    } else if b == 0xDC {
        lemma_le_join_split(s[1], s[2]);
        assert(Op::spec_fetch(s).spec_encode() =~= s);
    } else if b == 0xDD {
        lemma_le_join_split(s[1], s[2]);
        assert(Op::spec_fetch(s).spec_encode() =~= s);
    } else if b == 0xDE {
        lemma_le_join_split(s[1], s[2]);
        assert(Op::spec_fetch(s).spec_encode() =~= s);
    } else if b == 0xDF {
        lemma_le_join_split(s[1], s[2]);
        assert(Op::spec_fetch(s).spec_encode() =~= s);
    } else if b == 0xE0 {
        assert(Op::spec_fetch(s).spec_encode() =~= s);
    } else if b == 0xE1 {
        assert(Op::spec_fetch(s).spec_encode() =~= s);
    } else if b == 0xE2 {
        assert(Op::spec_fetch(s).spec_encode() =~= s);
    } else if b == 0xE3 {
        assert(Op::spec_fetch(s).spec_encode() =~= s);
    } else if b == 0xE4 {
        assert(Op::spec_fetch(s).spec_encode() =~= s);
    } else if b == 0xE5 {
        assert(Op::spec_fetch(s).spec_encode() =~= s);
    } else if b == 0xE6 {
        assert(Op::spec_fetch(s).spec_encode() =~= s);
    } else if b == 0xE7 {
        assert(Op::spec_fetch(s).spec_encode() =~= s);
    } else if b == 0xE8 {
        assert(Op::spec_fetch(s).spec_encode() =~= s);
    } else if b == 0xE9 {
        assert(Op::spec_fetch(s).spec_encode() =~= s);
    } else if b == 0xEA {
        assert(Op::spec_fetch(s).spec_encode() =~= s);
    } else if b == 0xEB {
        assert(Op::spec_fetch(s).spec_encode() =~= s);
    } else if b == 0xEC {
        lemma_le_join_split(s[1], s[2]);
        assert(Op::spec_fetch(s).spec_encode() =~= s);
    } else if b == 0xED {
        lemma_le_join_split(s[1], s[2]);
        assert(Op::spec_fetch(s).spec_encode() =~= s);
    } else if b == 0xEE {
        lemma_le_join_split(s[1], s[2]);
        assert(Op::spec_fetch(s).spec_encode() =~= s);
    } else if b == 0xEF {
        lemma_le_join_split(s[1], s[2]);
        assert(Op::spec_fetch(s).spec_encode() =~= s);
    } else if b == 0xF0 {
        lemma_rel_round_u8(s[1]);
        assert(Op::spec_fetch(s).spec_encode() =~= s);
    } else if b == 0xF1 {
        assert(Op::spec_fetch(s).spec_encode() =~= s);
    } else if b == 0xF2 {
        assert(Op::spec_fetch(s).spec_encode() =~= s);
    } else if b == 0xF3 {
        assert(Op::spec_fetch(s).spec_encode() =~= s);
    } else if b == 0xF4 {
        assert(Op::spec_fetch(s).spec_encode() =~= s);
    } else if b == 0xF5 {
        assert(Op::spec_fetch(s).spec_encode() =~= s);
    } else if b == 0xF6 {
        assert(Op::spec_fetch(s).spec_encode() =~= s);
    } else if b == 0xF7 {
        assert(Op::spec_fetch(s).spec_encode() =~= s);
    } else if b == 0xF8 {
        assert(Op::spec_fetch(s).spec_encode() =~= s);
    } else if b == 0xF9 {
        lemma_le_join_split(s[1], s[2]);
        assert(Op::spec_fetch(s).spec_encode() =~= s);
    } else if b == 0xFA {
        assert(Op::spec_fetch(s).spec_encode() =~= s);
    } else if b == 0xFB {
        lemma_le_join_split(s[1], s[2]);
        assert(Op::spec_fetch(s).spec_encode() =~= s);
    } else if b == 0xFC {
        lemma_le_join_split(s[1], s[2]);
        assert(Op::spec_fetch(s).spec_encode() =~= s);
    } else if b == 0xFD {
        lemma_le_join_split(s[1], s[2]);
        assert(Op::spec_fetch(s).spec_encode() =~= s);
    } else if b == 0xFE {
        lemma_le_join_split(s[1], s[2]);
        assert(Op::spec_fetch(s).spec_encode() =~= s);
    } else if b == 0xFF {
        lemma_le_join_split(s[1], s[2]);
        assert(Op::spec_fetch(s).spec_encode() =~= s);
    } else {
        assert(false);
    }
}

} // verus!
