//! Opcode decoding and the per-cycle dispatcher.
//!
//! The opcode byte values are architecturally fixed; `opcode_of_byte` is the
//! authoritative decode table, and every byte outside it maps to
//! `Unimplemented`. `instr_of_opcode` classifies each opcode into its
//! mnemonic and addressing mode, which the dispatcher uses to route a cycle
//! to the matching template.

use vstd::prelude::*;

use crate::cpu::cells_after;
use crate::cpu::cycle_matches;
use crate::cpu::pc_advanced;
use crate::cpu::Cpu;
use crate::cpu::CycleResult;
use crate::cpu::CycleSpec;
use crate::cpu::fetch_from_pc;
use crate::instructions::ImpliedOp;
use crate::instructions::IndexRegister;
use crate::instructions::ReadOp;
use crate::instructions::StoreOp;
use crate::memory::BusOp;
use crate::memory::MemoryBus;
use crate::templates::implied;
use crate::templates::implied_spec;
use crate::templates::read;
use crate::templates::store;

verus! {

/// Every opcode the core recognizes, one variant per (mnemonic, addressing
/// mode) pair, plus the sentinel for unrecognized bytes.
#[derive(Clone, Copy, PartialEq, Eq, Structural, Debug)]
pub enum OpCode {
    AdcImmediate,
    AdcZeroPage,
    AdcZeroPageX,
    AdcAbsolute,
    AdcAbsoluteX,
    AdcAbsoluteY,
    AdcIndirectX,
    AdcIndirectY,
    AndImmediate,
    AndZeroPage,
    AndZeroPageX,
    AndAbsolute,
    AndAbsoluteX,
    AndAbsoluteY,
    AndIndirectX,
    AndIndirectY,
    BitZeroPage,
    BitAbsolute,
    Clc,
    Cld,
    Cli,
    Clv,
    CmpImmediate,
    CmpZeroPage,
    CmpZeroPageX,
    CmpAbsolute,
    CmpAbsoluteX,
    CmpAbsoluteY,
    CmpIndirectX,
    CmpIndirectY,
    Dex,
    Dey,
    EorImmediate,
    EorZeroPage,
    EorZeroPageX,
    EorAbsolute,
    EorAbsoluteX,
    EorAbsoluteY,
    EorIndirectX,
    EorIndirectY,
    Inx,
    Iny,
    LdaImmediate,
    LdaZeroPage,
    LdaZeroPageX,
    LdaAbsolute,
    LdaAbsoluteX,
    LdaAbsoluteY,
    LdaIndirectX,
    LdaIndirectY,
    LdxImmediate,
    LdxZeroPage,
    LdxZeroPageY,
    LdxAbsolute,
    LdxAbsoluteY,
    LdyImmediate,
    LdyZeroPage,
    LdyZeroPageX,
    LdyAbsolute,
    LdyAbsoluteX,
    Nop,
    OraImmediate,
    OraZeroPage,
    OraZeroPageX,
    OraAbsolute,
    OraAbsoluteX,
    OraAbsoluteY,
    OraIndirectX,
    OraIndirectY,
    SbcImmediate,
    SbcZeroPage,
    SbcZeroPageX,
    SbcAbsolute,
    SbcAbsoluteX,
    SbcAbsoluteY,
    SbcIndirectX,
    SbcIndirectY,
    Sec,
    Sed,
    Sei,
    StaZeroPage,
    StaZeroPageX,
    StaAbsolute,
    StaAbsoluteX,
    StaAbsoluteY,
    StaIndirectX,
    StaIndirectY,
    StxZeroPage,
    StxZeroPageY,
    StxAbsolute,
    StyZeroPage,
    StyZeroPageX,
    StyAbsolute,
    Tax,
    Tay,
    Tsx,
    Txa,
    Txs,
    Tya,
    Unimplemented,
}

/// An addressing mode of a read- or store-family instruction.
#[derive(Clone, Copy, PartialEq, Eq, Structural, Debug)]
pub enum Mode {
    Immediate,
    ZeroPage,
    ZeroPageX,
    ZeroPageY,
    Absolute,
    AbsoluteX,
    AbsoluteY,
    IndirectX,
    IndirectY,
}

/// An opcode classified by what it does: read an operand and apply an
/// operation, store a register, run a one-byte instruction, or nothing the
/// core implements.
#[derive(Clone, Copy, PartialEq, Eq, Structural, Debug)]
pub enum Instr {
    Read(ReadOp, Mode),
    Store(StoreOp, Mode),
    Implied(ImpliedOp),
    Illegal,
}

/// The decode table: the opcode named by a byte. Bytes outside the table
/// decode to `Unimplemented`.
#[verifier::opaque]
pub open spec fn opcode_of_byte(b: u8) -> OpCode {
    if b == 0x69 {
        OpCode::AdcImmediate
    } else if b == 0x65 {
        OpCode::AdcZeroPage
    } else if b == 0x75 {
        OpCode::AdcZeroPageX
    } else if b == 0x6D {
        OpCode::AdcAbsolute
    } else if b == 0x7D {
        OpCode::AdcAbsoluteX
    } else if b == 0x79 {
        OpCode::AdcAbsoluteY
    } else if b == 0x61 {
        OpCode::AdcIndirectX
    } else if b == 0x71 {
        OpCode::AdcIndirectY
    } else if b == 0x29 {
        OpCode::AndImmediate
    } else if b == 0x25 {
        OpCode::AndZeroPage
    } else if b == 0x35 {
        OpCode::AndZeroPageX
    } else if b == 0x2D {
        OpCode::AndAbsolute
    } else if b == 0x3D {
        OpCode::AndAbsoluteX
    } else if b == 0x39 {
        OpCode::AndAbsoluteY
    } else if b == 0x21 {
        OpCode::AndIndirectX
    } else if b == 0x31 {
        OpCode::AndIndirectY
    } else if b == 0x24 {
        OpCode::BitZeroPage
    } else if b == 0x2C {
        OpCode::BitAbsolute
    } else if b == 0x18 {
        OpCode::Clc
    } else if b == 0xD8 {
        OpCode::Cld
    } else if b == 0x58 {
        OpCode::Cli
    } else if b == 0xB8 {
        OpCode::Clv
    } else if b == 0xC9 {
        OpCode::CmpImmediate
    } else if b == 0xC5 {
        OpCode::CmpZeroPage
    } else if b == 0xD5 {
        OpCode::CmpZeroPageX
    } else if b == 0xCD {
        OpCode::CmpAbsolute
    } else if b == 0xDD {
        OpCode::CmpAbsoluteX
    } else if b == 0xD9 {
        OpCode::CmpAbsoluteY
    } else if b == 0xC1 {
        OpCode::CmpIndirectX
    } else if b == 0xD1 {
        OpCode::CmpIndirectY
    } else if b == 0xCA {
        OpCode::Dex
    } else if b == 0x88 {
        OpCode::Dey
    } else if b == 0x49 {
        OpCode::EorImmediate
    } else if b == 0x45 {
        OpCode::EorZeroPage
    } else if b == 0x55 {
        OpCode::EorZeroPageX
    } else if b == 0x4D {
        OpCode::EorAbsolute
    } else if b == 0x5D {
        OpCode::EorAbsoluteX
    } else if b == 0x59 {
        OpCode::EorAbsoluteY
    } else if b == 0x41 {
        OpCode::EorIndirectX
    } else if b == 0x51 {
        OpCode::EorIndirectY
    } else if b == 0xE8 {
        OpCode::Inx
    } else if b == 0xC8 {
        OpCode::Iny
    } else if b == 0xA9 {
        OpCode::LdaImmediate
    } else if b == 0xA5 {
        OpCode::LdaZeroPage
    } else if b == 0xB5 {
        OpCode::LdaZeroPageX
    } else if b == 0xAD {
        OpCode::LdaAbsolute
    } else if b == 0xBD {
        OpCode::LdaAbsoluteX
    } else if b == 0xB9 {
        OpCode::LdaAbsoluteY
    } else if b == 0xA1 {
        OpCode::LdaIndirectX
    } else if b == 0xB1 {
        OpCode::LdaIndirectY
    } else if b == 0xA2 {
        OpCode::LdxImmediate
    } else if b == 0xA6 {
        OpCode::LdxZeroPage
    } else if b == 0xB6 {
        OpCode::LdxZeroPageY
    } else if b == 0xAE {
        OpCode::LdxAbsolute
    } else if b == 0xBE {
        OpCode::LdxAbsoluteY
    } else if b == 0xA0 {
        OpCode::LdyImmediate
    } else if b == 0xA4 {
        OpCode::LdyZeroPage
    } else if b == 0xB4 {
        OpCode::LdyZeroPageX
    } else if b == 0xAC {
        OpCode::LdyAbsolute
    } else if b == 0xBC {
        OpCode::LdyAbsoluteX
    } else if b == 0xEA {
        OpCode::Nop
    } else if b == 0x09 {
        OpCode::OraImmediate
    } else if b == 0x05 {
        OpCode::OraZeroPage
    } else if b == 0x15 {
        OpCode::OraZeroPageX
    } else if b == 0x0D {
        OpCode::OraAbsolute
    } else if b == 0x1D {
        OpCode::OraAbsoluteX
    } else if b == 0x19 {
        OpCode::OraAbsoluteY
    } else if b == 0x01 {
        OpCode::OraIndirectX
    } else if b == 0x11 {
        OpCode::OraIndirectY
    } else if b == 0xE9 {
        OpCode::SbcImmediate
    } else if b == 0xE5 {
        OpCode::SbcZeroPage
    } else if b == 0xF5 {
        OpCode::SbcZeroPageX
    } else if b == 0xED {
        OpCode::SbcAbsolute
    } else if b == 0xFD {
        OpCode::SbcAbsoluteX
    } else if b == 0xF9 {
        OpCode::SbcAbsoluteY
    } else if b == 0xE1 {
        OpCode::SbcIndirectX
    } else if b == 0xF1 {
        OpCode::SbcIndirectY
    } else if b == 0x38 {
        OpCode::Sec
    } else if b == 0xF8 {
        OpCode::Sed
    } else if b == 0x78 {
        OpCode::Sei
    } else if b == 0x85 {
        OpCode::StaZeroPage
    } else if b == 0x95 {
        OpCode::StaZeroPageX
    } else if b == 0x8D {
        OpCode::StaAbsolute
    } else if b == 0x9D {
        OpCode::StaAbsoluteX
    } else if b == 0x99 {
        OpCode::StaAbsoluteY
    } else if b == 0x81 {
        OpCode::StaIndirectX
    } else if b == 0x91 {
        OpCode::StaIndirectY
    } else if b == 0x86 {
        OpCode::StxZeroPage
    } else if b == 0x96 {
        OpCode::StxZeroPageY
    } else if b == 0x8E {
        OpCode::StxAbsolute
    } else if b == 0x84 {
        OpCode::StyZeroPage
    } else if b == 0x94 {
        OpCode::StyZeroPageX
    } else if b == 0x8C {
        OpCode::StyAbsolute
    } else if b == 0xAA {
        OpCode::Tax
    } else if b == 0xA8 {
        OpCode::Tay
    } else if b == 0xBA {
        OpCode::Tsx
    } else if b == 0x8A {
        OpCode::Txa
    } else if b == 0x9A {
        OpCode::Txs
    } else if b == 0x98 {
        OpCode::Tya
    } else {
        OpCode::Unimplemented
    }
}

/// Decode a byte, exactly as `opcode_of_byte` says.
pub fn opcode_from_byte(b: u8) -> (r: OpCode)
    ensures
        r == opcode_of_byte(b),
{
    proof {
        reveal(crate::dispatch::opcode_of_byte);
    }
    match b {
        0x69 => OpCode::AdcImmediate,
        0x65 => OpCode::AdcZeroPage,
        0x75 => OpCode::AdcZeroPageX,
        0x6D => OpCode::AdcAbsolute,
        0x7D => OpCode::AdcAbsoluteX,
        0x79 => OpCode::AdcAbsoluteY,
        0x61 => OpCode::AdcIndirectX,
        0x71 => OpCode::AdcIndirectY,
        0x29 => OpCode::AndImmediate,
        0x25 => OpCode::AndZeroPage,
        0x35 => OpCode::AndZeroPageX,
        0x2D => OpCode::AndAbsolute,
        0x3D => OpCode::AndAbsoluteX,
        0x39 => OpCode::AndAbsoluteY,
        0x21 => OpCode::AndIndirectX,
        0x31 => OpCode::AndIndirectY,
        0x24 => OpCode::BitZeroPage,
        0x2C => OpCode::BitAbsolute,
        0x18 => OpCode::Clc,
        0xD8 => OpCode::Cld,
        0x58 => OpCode::Cli,
        0xB8 => OpCode::Clv,
        0xC9 => OpCode::CmpImmediate,
        0xC5 => OpCode::CmpZeroPage,
        0xD5 => OpCode::CmpZeroPageX,
        0xCD => OpCode::CmpAbsolute,
        0xDD => OpCode::CmpAbsoluteX,
        0xD9 => OpCode::CmpAbsoluteY,
        0xC1 => OpCode::CmpIndirectX,
        0xD1 => OpCode::CmpIndirectY,
        0xCA => OpCode::Dex,
        0x88 => OpCode::Dey,
        0x49 => OpCode::EorImmediate,
        0x45 => OpCode::EorZeroPage,
        0x55 => OpCode::EorZeroPageX,
        0x4D => OpCode::EorAbsolute,
        0x5D => OpCode::EorAbsoluteX,
        0x59 => OpCode::EorAbsoluteY,
        0x41 => OpCode::EorIndirectX,
        0x51 => OpCode::EorIndirectY,
        0xE8 => OpCode::Inx,
        0xC8 => OpCode::Iny,
        0xA9 => OpCode::LdaImmediate,
        0xA5 => OpCode::LdaZeroPage,
        0xB5 => OpCode::LdaZeroPageX,
        0xAD => OpCode::LdaAbsolute,
        0xBD => OpCode::LdaAbsoluteX,
        0xB9 => OpCode::LdaAbsoluteY,
        0xA1 => OpCode::LdaIndirectX,
        0xB1 => OpCode::LdaIndirectY,
        0xA2 => OpCode::LdxImmediate,
        0xA6 => OpCode::LdxZeroPage,
        0xB6 => OpCode::LdxZeroPageY,
        0xAE => OpCode::LdxAbsolute,
        0xBE => OpCode::LdxAbsoluteY,
        0xA0 => OpCode::LdyImmediate,
        0xA4 => OpCode::LdyZeroPage,
        0xB4 => OpCode::LdyZeroPageX,
        0xAC => OpCode::LdyAbsolute,
        0xBC => OpCode::LdyAbsoluteX,
        0xEA => OpCode::Nop,
        0x09 => OpCode::OraImmediate,
        0x05 => OpCode::OraZeroPage,
        0x15 => OpCode::OraZeroPageX,
        0x0D => OpCode::OraAbsolute,
        0x1D => OpCode::OraAbsoluteX,
        0x19 => OpCode::OraAbsoluteY,
        0x01 => OpCode::OraIndirectX,
        0x11 => OpCode::OraIndirectY,
        0xE9 => OpCode::SbcImmediate,
        0xE5 => OpCode::SbcZeroPage,
        0xF5 => OpCode::SbcZeroPageX,
        0xED => OpCode::SbcAbsolute,
        0xFD => OpCode::SbcAbsoluteX,
        0xF9 => OpCode::SbcAbsoluteY,
        0xE1 => OpCode::SbcIndirectX,
        0xF1 => OpCode::SbcIndirectY,
        0x38 => OpCode::Sec,
        0xF8 => OpCode::Sed,
        0x78 => OpCode::Sei,
        0x85 => OpCode::StaZeroPage,
        0x95 => OpCode::StaZeroPageX,
        0x8D => OpCode::StaAbsolute,
        0x9D => OpCode::StaAbsoluteX,
        0x99 => OpCode::StaAbsoluteY,
        0x81 => OpCode::StaIndirectX,
        0x91 => OpCode::StaIndirectY,
        0x86 => OpCode::StxZeroPage,
        0x96 => OpCode::StxZeroPageY,
        0x8E => OpCode::StxAbsolute,
        0x84 => OpCode::StyZeroPage,
        0x94 => OpCode::StyZeroPageX,
        0x8C => OpCode::StyAbsolute,
        0xAA => OpCode::Tax,
        0xA8 => OpCode::Tay,
        0xBA => OpCode::Tsx,
        0x8A => OpCode::Txa,
        0x9A => OpCode::Txs,
        0x98 => OpCode::Tya,
        _ => OpCode::Unimplemented,
    }
}

/// The byte value of an opcode; the sentinel answers 0x00.
#[verifier::opaque]
pub open spec fn byte_of_opcode(op: OpCode) -> u8 {
    match op {
        OpCode::AdcImmediate => 0x69,
        OpCode::AdcZeroPage => 0x65,
        OpCode::AdcZeroPageX => 0x75,
        OpCode::AdcAbsolute => 0x6D,
        OpCode::AdcAbsoluteX => 0x7D,
        OpCode::AdcAbsoluteY => 0x79,
        OpCode::AdcIndirectX => 0x61,
        OpCode::AdcIndirectY => 0x71,
        OpCode::AndImmediate => 0x29,
        OpCode::AndZeroPage => 0x25,
        OpCode::AndZeroPageX => 0x35,
        OpCode::AndAbsolute => 0x2D,
        OpCode::AndAbsoluteX => 0x3D,
        OpCode::AndAbsoluteY => 0x39,
        OpCode::AndIndirectX => 0x21,
        OpCode::AndIndirectY => 0x31,
        OpCode::BitZeroPage => 0x24,
        OpCode::BitAbsolute => 0x2C,
        OpCode::Clc => 0x18,
        OpCode::Cld => 0xD8,
        OpCode::Cli => 0x58,
        OpCode::Clv => 0xB8,
        OpCode::CmpImmediate => 0xC9,
        OpCode::CmpZeroPage => 0xC5,
        OpCode::CmpZeroPageX => 0xD5,
        OpCode::CmpAbsolute => 0xCD,
        OpCode::CmpAbsoluteX => 0xDD,
        OpCode::CmpAbsoluteY => 0xD9,
        OpCode::CmpIndirectX => 0xC1,
        OpCode::CmpIndirectY => 0xD1,
        OpCode::Dex => 0xCA,
        OpCode::Dey => 0x88,
        OpCode::EorImmediate => 0x49,
        OpCode::EorZeroPage => 0x45,
        OpCode::EorZeroPageX => 0x55,
        OpCode::EorAbsolute => 0x4D,
        OpCode::EorAbsoluteX => 0x5D,
        OpCode::EorAbsoluteY => 0x59,
        OpCode::EorIndirectX => 0x41,
        OpCode::EorIndirectY => 0x51,
        OpCode::Inx => 0xE8,
        OpCode::Iny => 0xC8,
        OpCode::LdaImmediate => 0xA9,
        OpCode::LdaZeroPage => 0xA5,
        OpCode::LdaZeroPageX => 0xB5,
        OpCode::LdaAbsolute => 0xAD,
        OpCode::LdaAbsoluteX => 0xBD,
        OpCode::LdaAbsoluteY => 0xB9,
        OpCode::LdaIndirectX => 0xA1,
        OpCode::LdaIndirectY => 0xB1,
        OpCode::LdxImmediate => 0xA2,
        OpCode::LdxZeroPage => 0xA6,
        OpCode::LdxZeroPageY => 0xB6,
        OpCode::LdxAbsolute => 0xAE,
        OpCode::LdxAbsoluteY => 0xBE,
        OpCode::LdyImmediate => 0xA0,
        OpCode::LdyZeroPage => 0xA4,
        OpCode::LdyZeroPageX => 0xB4,
        OpCode::LdyAbsolute => 0xAC,
        OpCode::LdyAbsoluteX => 0xBC,
        OpCode::Nop => 0xEA,
        OpCode::OraImmediate => 0x09,
        OpCode::OraZeroPage => 0x05,
        OpCode::OraZeroPageX => 0x15,
        OpCode::OraAbsolute => 0x0D,
        OpCode::OraAbsoluteX => 0x1D,
        OpCode::OraAbsoluteY => 0x19,
        OpCode::OraIndirectX => 0x01,
        OpCode::OraIndirectY => 0x11,
        OpCode::SbcImmediate => 0xE9,
        OpCode::SbcZeroPage => 0xE5,
        OpCode::SbcZeroPageX => 0xF5,
        OpCode::SbcAbsolute => 0xED,
        OpCode::SbcAbsoluteX => 0xFD,
        OpCode::SbcAbsoluteY => 0xF9,
        OpCode::SbcIndirectX => 0xE1,
        OpCode::SbcIndirectY => 0xF1,
        OpCode::Sec => 0x38,
        OpCode::Sed => 0xF8,
        OpCode::Sei => 0x78,
        OpCode::StaZeroPage => 0x85,
        OpCode::StaZeroPageX => 0x95,
        OpCode::StaAbsolute => 0x8D,
        OpCode::StaAbsoluteX => 0x9D,
        OpCode::StaAbsoluteY => 0x99,
        OpCode::StaIndirectX => 0x81,
        OpCode::StaIndirectY => 0x91,
        OpCode::StxZeroPage => 0x86,
        OpCode::StxZeroPageY => 0x96,
        OpCode::StxAbsolute => 0x8E,
        OpCode::StyZeroPage => 0x84,
        OpCode::StyZeroPageX => 0x94,
        OpCode::StyAbsolute => 0x8C,
        OpCode::Tax => 0xAA,
        OpCode::Tay => 0xA8,
        OpCode::Tsx => 0xBA,
        OpCode::Txa => 0x8A,
        OpCode::Txs => 0x9A,
        OpCode::Tya => 0x98,
        OpCode::Unimplemented => 0x00,
    }
}

/// Encode an opcode, exactly as `byte_of_opcode` says.
pub fn opcode_to_byte(op: OpCode) -> (r: u8)
    ensures
        r == byte_of_opcode(op),
{
    proof {
        reveal(crate::dispatch::byte_of_opcode);
    }
    match op {
        OpCode::AdcImmediate => 0x69,
        OpCode::AdcZeroPage => 0x65,
        OpCode::AdcZeroPageX => 0x75,
        OpCode::AdcAbsolute => 0x6D,
        OpCode::AdcAbsoluteX => 0x7D,
        OpCode::AdcAbsoluteY => 0x79,
        OpCode::AdcIndirectX => 0x61,
        OpCode::AdcIndirectY => 0x71,
        OpCode::AndImmediate => 0x29,
        OpCode::AndZeroPage => 0x25,
        OpCode::AndZeroPageX => 0x35,
        OpCode::AndAbsolute => 0x2D,
        OpCode::AndAbsoluteX => 0x3D,
        OpCode::AndAbsoluteY => 0x39,
        OpCode::AndIndirectX => 0x21,
        OpCode::AndIndirectY => 0x31,
        OpCode::BitZeroPage => 0x24,
        OpCode::BitAbsolute => 0x2C,
        OpCode::Clc => 0x18,
        OpCode::Cld => 0xD8,
        OpCode::Cli => 0x58,
        OpCode::Clv => 0xB8,
        OpCode::CmpImmediate => 0xC9,
        OpCode::CmpZeroPage => 0xC5,
        OpCode::CmpZeroPageX => 0xD5,
        OpCode::CmpAbsolute => 0xCD,
        OpCode::CmpAbsoluteX => 0xDD,
        OpCode::CmpAbsoluteY => 0xD9,
        OpCode::CmpIndirectX => 0xC1,
        OpCode::CmpIndirectY => 0xD1,
        OpCode::Dex => 0xCA,
        OpCode::Dey => 0x88,
        OpCode::EorImmediate => 0x49,
        OpCode::EorZeroPage => 0x45,
        OpCode::EorZeroPageX => 0x55,
        OpCode::EorAbsolute => 0x4D,
        OpCode::EorAbsoluteX => 0x5D,
        OpCode::EorAbsoluteY => 0x59,
        OpCode::EorIndirectX => 0x41,
        OpCode::EorIndirectY => 0x51,
        OpCode::Inx => 0xE8,
        OpCode::Iny => 0xC8,
        OpCode::LdaImmediate => 0xA9,
        OpCode::LdaZeroPage => 0xA5,
        OpCode::LdaZeroPageX => 0xB5,
        OpCode::LdaAbsolute => 0xAD,
        OpCode::LdaAbsoluteX => 0xBD,
        OpCode::LdaAbsoluteY => 0xB9,
        OpCode::LdaIndirectX => 0xA1,
        OpCode::LdaIndirectY => 0xB1,
        OpCode::LdxImmediate => 0xA2,
        OpCode::LdxZeroPage => 0xA6,
        OpCode::LdxZeroPageY => 0xB6,
        OpCode::LdxAbsolute => 0xAE,
        OpCode::LdxAbsoluteY => 0xBE,
        OpCode::LdyImmediate => 0xA0,
        OpCode::LdyZeroPage => 0xA4,
        OpCode::LdyZeroPageX => 0xB4,
        OpCode::LdyAbsolute => 0xAC,
        OpCode::LdyAbsoluteX => 0xBC,
        OpCode::Nop => 0xEA,
        OpCode::OraImmediate => 0x09,
        OpCode::OraZeroPage => 0x05,
        OpCode::OraZeroPageX => 0x15,
        OpCode::OraAbsolute => 0x0D,
        OpCode::OraAbsoluteX => 0x1D,
        OpCode::OraAbsoluteY => 0x19,
        OpCode::OraIndirectX => 0x01,
        OpCode::OraIndirectY => 0x11,
        OpCode::SbcImmediate => 0xE9,
        OpCode::SbcZeroPage => 0xE5,
        OpCode::SbcZeroPageX => 0xF5,
        OpCode::SbcAbsolute => 0xED,
        OpCode::SbcAbsoluteX => 0xFD,
        OpCode::SbcAbsoluteY => 0xF9,
        OpCode::SbcIndirectX => 0xE1,
        OpCode::SbcIndirectY => 0xF1,
        OpCode::Sec => 0x38,
        OpCode::Sed => 0xF8,
        OpCode::Sei => 0x78,
        OpCode::StaZeroPage => 0x85,
        OpCode::StaZeroPageX => 0x95,
        OpCode::StaAbsolute => 0x8D,
        OpCode::StaAbsoluteX => 0x9D,
        OpCode::StaAbsoluteY => 0x99,
        OpCode::StaIndirectX => 0x81,
        OpCode::StaIndirectY => 0x91,
        OpCode::StxZeroPage => 0x86,
        OpCode::StxZeroPageY => 0x96,
        OpCode::StxAbsolute => 0x8E,
        OpCode::StyZeroPage => 0x84,
        OpCode::StyZeroPageX => 0x94,
        OpCode::StyAbsolute => 0x8C,
        OpCode::Tax => 0xAA,
        OpCode::Tay => 0xA8,
        OpCode::Tsx => 0xBA,
        OpCode::Txa => 0x8A,
        OpCode::Txs => 0x9A,
        OpCode::Tya => 0x98,
        OpCode::Unimplemented => 0x00,
    }
}

/// What each opcode does and in which addressing mode.
#[verifier::opaque]
pub open spec fn instr_of_opcode(op: OpCode) -> Instr {
    match op {
        OpCode::AdcImmediate => Instr::Read(ReadOp::Adc, Mode::Immediate),
        OpCode::AdcZeroPage => Instr::Read(ReadOp::Adc, Mode::ZeroPage),
        OpCode::AdcZeroPageX => Instr::Read(ReadOp::Adc, Mode::ZeroPageX),
        OpCode::AdcAbsolute => Instr::Read(ReadOp::Adc, Mode::Absolute),
        OpCode::AdcAbsoluteX => Instr::Read(ReadOp::Adc, Mode::AbsoluteX),
        OpCode::AdcAbsoluteY => Instr::Read(ReadOp::Adc, Mode::AbsoluteY),
        OpCode::AdcIndirectX => Instr::Read(ReadOp::Adc, Mode::IndirectX),
        OpCode::AdcIndirectY => Instr::Read(ReadOp::Adc, Mode::IndirectY),
        OpCode::AndImmediate => Instr::Read(ReadOp::And, Mode::Immediate),
        OpCode::AndZeroPage => Instr::Read(ReadOp::And, Mode::ZeroPage),
        OpCode::AndZeroPageX => Instr::Read(ReadOp::And, Mode::ZeroPageX),
        OpCode::AndAbsolute => Instr::Read(ReadOp::And, Mode::Absolute),
        OpCode::AndAbsoluteX => Instr::Read(ReadOp::And, Mode::AbsoluteX),
        OpCode::AndAbsoluteY => Instr::Read(ReadOp::And, Mode::AbsoluteY),
        OpCode::AndIndirectX => Instr::Read(ReadOp::And, Mode::IndirectX),
        OpCode::AndIndirectY => Instr::Read(ReadOp::And, Mode::IndirectY),
        OpCode::BitZeroPage => Instr::Read(ReadOp::Bit, Mode::ZeroPage),
        OpCode::BitAbsolute => Instr::Read(ReadOp::Bit, Mode::Absolute),
        OpCode::Clc => Instr::Implied(ImpliedOp::Clc),
        OpCode::Cld => Instr::Implied(ImpliedOp::Cld),
        OpCode::Cli => Instr::Implied(ImpliedOp::Cli),
        OpCode::Clv => Instr::Implied(ImpliedOp::Clv),
        OpCode::CmpImmediate => Instr::Read(ReadOp::Cmp, Mode::Immediate),
        OpCode::CmpZeroPage => Instr::Read(ReadOp::Cmp, Mode::ZeroPage),
        OpCode::CmpZeroPageX => Instr::Read(ReadOp::Cmp, Mode::ZeroPageX),
        OpCode::CmpAbsolute => Instr::Read(ReadOp::Cmp, Mode::Absolute),
        OpCode::CmpAbsoluteX => Instr::Read(ReadOp::Cmp, Mode::AbsoluteX),
        OpCode::CmpAbsoluteY => Instr::Read(ReadOp::Cmp, Mode::AbsoluteY),
        OpCode::CmpIndirectX => Instr::Read(ReadOp::Cmp, Mode::IndirectX),
        OpCode::CmpIndirectY => Instr::Read(ReadOp::Cmp, Mode::IndirectY),
        OpCode::Dex => Instr::Implied(ImpliedOp::Dex),
        OpCode::Dey => Instr::Implied(ImpliedOp::Dey),
        OpCode::EorImmediate => Instr::Read(ReadOp::Eor, Mode::Immediate),
        OpCode::EorZeroPage => Instr::Read(ReadOp::Eor, Mode::ZeroPage),
        OpCode::EorZeroPageX => Instr::Read(ReadOp::Eor, Mode::ZeroPageX),
        OpCode::EorAbsolute => Instr::Read(ReadOp::Eor, Mode::Absolute),
        OpCode::EorAbsoluteX => Instr::Read(ReadOp::Eor, Mode::AbsoluteX),
        OpCode::EorAbsoluteY => Instr::Read(ReadOp::Eor, Mode::AbsoluteY),
        OpCode::EorIndirectX => Instr::Read(ReadOp::Eor, Mode::IndirectX),
        OpCode::EorIndirectY => Instr::Read(ReadOp::Eor, Mode::IndirectY),
        OpCode::Inx => Instr::Implied(ImpliedOp::Inx),
        OpCode::Iny => Instr::Implied(ImpliedOp::Iny),
        OpCode::LdaImmediate => Instr::Read(ReadOp::Lda, Mode::Immediate),
        OpCode::LdaZeroPage => Instr::Read(ReadOp::Lda, Mode::ZeroPage),
        OpCode::LdaZeroPageX => Instr::Read(ReadOp::Lda, Mode::ZeroPageX),
        OpCode::LdaAbsolute => Instr::Read(ReadOp::Lda, Mode::Absolute),
        OpCode::LdaAbsoluteX => Instr::Read(ReadOp::Lda, Mode::AbsoluteX),
        OpCode::LdaAbsoluteY => Instr::Read(ReadOp::Lda, Mode::AbsoluteY),
        OpCode::LdaIndirectX => Instr::Read(ReadOp::Lda, Mode::IndirectX),
        OpCode::LdaIndirectY => Instr::Read(ReadOp::Lda, Mode::IndirectY),
        OpCode::LdxImmediate => Instr::Read(ReadOp::Ldx, Mode::Immediate),
        OpCode::LdxZeroPage => Instr::Read(ReadOp::Ldx, Mode::ZeroPage),
        OpCode::LdxZeroPageY => Instr::Read(ReadOp::Ldx, Mode::ZeroPageY),
        OpCode::LdxAbsolute => Instr::Read(ReadOp::Ldx, Mode::Absolute),
        OpCode::LdxAbsoluteY => Instr::Read(ReadOp::Ldx, Mode::AbsoluteY),
        OpCode::LdyImmediate => Instr::Read(ReadOp::Ldy, Mode::Immediate),
        OpCode::LdyZeroPage => Instr::Read(ReadOp::Ldy, Mode::ZeroPage),
        OpCode::LdyZeroPageX => Instr::Read(ReadOp::Ldy, Mode::ZeroPageX),
        OpCode::LdyAbsolute => Instr::Read(ReadOp::Ldy, Mode::Absolute),
        OpCode::LdyAbsoluteX => Instr::Read(ReadOp::Ldy, Mode::AbsoluteX),
        OpCode::Nop => Instr::Implied(ImpliedOp::Nop),
        OpCode::OraImmediate => Instr::Read(ReadOp::Ora, Mode::Immediate),
        OpCode::OraZeroPage => Instr::Read(ReadOp::Ora, Mode::ZeroPage),
        OpCode::OraZeroPageX => Instr::Read(ReadOp::Ora, Mode::ZeroPageX),
        OpCode::OraAbsolute => Instr::Read(ReadOp::Ora, Mode::Absolute),
        OpCode::OraAbsoluteX => Instr::Read(ReadOp::Ora, Mode::AbsoluteX),
        OpCode::OraAbsoluteY => Instr::Read(ReadOp::Ora, Mode::AbsoluteY),
        OpCode::OraIndirectX => Instr::Read(ReadOp::Ora, Mode::IndirectX),
        OpCode::OraIndirectY => Instr::Read(ReadOp::Ora, Mode::IndirectY),
        OpCode::SbcImmediate => Instr::Read(ReadOp::Sbc, Mode::Immediate),
        OpCode::SbcZeroPage => Instr::Read(ReadOp::Sbc, Mode::ZeroPage),
        OpCode::SbcZeroPageX => Instr::Read(ReadOp::Sbc, Mode::ZeroPageX),
        OpCode::SbcAbsolute => Instr::Read(ReadOp::Sbc, Mode::Absolute),
        OpCode::SbcAbsoluteX => Instr::Read(ReadOp::Sbc, Mode::AbsoluteX),
        OpCode::SbcAbsoluteY => Instr::Read(ReadOp::Sbc, Mode::AbsoluteY),
        OpCode::SbcIndirectX => Instr::Read(ReadOp::Sbc, Mode::IndirectX),
        OpCode::SbcIndirectY => Instr::Read(ReadOp::Sbc, Mode::IndirectY),
        OpCode::Sec => Instr::Implied(ImpliedOp::Sec),
        OpCode::Sed => Instr::Implied(ImpliedOp::Sed),
        OpCode::Sei => Instr::Implied(ImpliedOp::Sei),
        OpCode::StaZeroPage => Instr::Store(StoreOp::Sta, Mode::ZeroPage),
        OpCode::StaZeroPageX => Instr::Store(StoreOp::Sta, Mode::ZeroPageX),
        OpCode::StaAbsolute => Instr::Store(StoreOp::Sta, Mode::Absolute),
        OpCode::StaAbsoluteX => Instr::Store(StoreOp::Sta, Mode::AbsoluteX),
        OpCode::StaAbsoluteY => Instr::Store(StoreOp::Sta, Mode::AbsoluteY),
        OpCode::StaIndirectX => Instr::Store(StoreOp::Sta, Mode::IndirectX),
        OpCode::StaIndirectY => Instr::Store(StoreOp::Sta, Mode::IndirectY),
        OpCode::StxZeroPage => Instr::Store(StoreOp::Stx, Mode::ZeroPage),
        OpCode::StxZeroPageY => Instr::Store(StoreOp::Stx, Mode::ZeroPageY),
        OpCode::StxAbsolute => Instr::Store(StoreOp::Stx, Mode::Absolute),
        OpCode::StyZeroPage => Instr::Store(StoreOp::Sty, Mode::ZeroPage),
        OpCode::StyZeroPageX => Instr::Store(StoreOp::Sty, Mode::ZeroPageX),
        OpCode::StyAbsolute => Instr::Store(StoreOp::Sty, Mode::Absolute),
        OpCode::Tax => Instr::Implied(ImpliedOp::Tax),
        OpCode::Tay => Instr::Implied(ImpliedOp::Tay),
        OpCode::Tsx => Instr::Implied(ImpliedOp::Tsx),
        OpCode::Txa => Instr::Implied(ImpliedOp::Txa),
        OpCode::Txs => Instr::Implied(ImpliedOp::Txs),
        OpCode::Tya => Instr::Implied(ImpliedOp::Tya),
        OpCode::Unimplemented => Instr::Illegal,
    }
}

/// Classify an opcode, exactly as `instr_of_opcode` says.
pub fn instr_for_opcode(op: OpCode) -> (r: Instr)
    ensures
        r == instr_of_opcode(op),
{
    proof {
        reveal(crate::dispatch::instr_of_opcode);
    }
    match op {
        OpCode::AdcImmediate => Instr::Read(ReadOp::Adc, Mode::Immediate),
        OpCode::AdcZeroPage => Instr::Read(ReadOp::Adc, Mode::ZeroPage),
        OpCode::AdcZeroPageX => Instr::Read(ReadOp::Adc, Mode::ZeroPageX),
        OpCode::AdcAbsolute => Instr::Read(ReadOp::Adc, Mode::Absolute),
        OpCode::AdcAbsoluteX => Instr::Read(ReadOp::Adc, Mode::AbsoluteX),
        OpCode::AdcAbsoluteY => Instr::Read(ReadOp::Adc, Mode::AbsoluteY),
        OpCode::AdcIndirectX => Instr::Read(ReadOp::Adc, Mode::IndirectX),
        OpCode::AdcIndirectY => Instr::Read(ReadOp::Adc, Mode::IndirectY),
        OpCode::AndImmediate => Instr::Read(ReadOp::And, Mode::Immediate),
        OpCode::AndZeroPage => Instr::Read(ReadOp::And, Mode::ZeroPage),
        OpCode::AndZeroPageX => Instr::Read(ReadOp::And, Mode::ZeroPageX),
        OpCode::AndAbsolute => Instr::Read(ReadOp::And, Mode::Absolute),
        OpCode::AndAbsoluteX => Instr::Read(ReadOp::And, Mode::AbsoluteX),
        OpCode::AndAbsoluteY => Instr::Read(ReadOp::And, Mode::AbsoluteY),
        OpCode::AndIndirectX => Instr::Read(ReadOp::And, Mode::IndirectX),
        OpCode::AndIndirectY => Instr::Read(ReadOp::And, Mode::IndirectY),
        OpCode::BitZeroPage => Instr::Read(ReadOp::Bit, Mode::ZeroPage),
        OpCode::BitAbsolute => Instr::Read(ReadOp::Bit, Mode::Absolute),
        OpCode::Clc => Instr::Implied(ImpliedOp::Clc),
        OpCode::Cld => Instr::Implied(ImpliedOp::Cld),
        OpCode::Cli => Instr::Implied(ImpliedOp::Cli),
        OpCode::Clv => Instr::Implied(ImpliedOp::Clv),
        OpCode::CmpImmediate => Instr::Read(ReadOp::Cmp, Mode::Immediate),
        OpCode::CmpZeroPage => Instr::Read(ReadOp::Cmp, Mode::ZeroPage),
        OpCode::CmpZeroPageX => Instr::Read(ReadOp::Cmp, Mode::ZeroPageX),
        OpCode::CmpAbsolute => Instr::Read(ReadOp::Cmp, Mode::Absolute),
        OpCode::CmpAbsoluteX => Instr::Read(ReadOp::Cmp, Mode::AbsoluteX),
        OpCode::CmpAbsoluteY => Instr::Read(ReadOp::Cmp, Mode::AbsoluteY),
        OpCode::CmpIndirectX => Instr::Read(ReadOp::Cmp, Mode::IndirectX),
        OpCode::CmpIndirectY => Instr::Read(ReadOp::Cmp, Mode::IndirectY),
        OpCode::Dex => Instr::Implied(ImpliedOp::Dex),
        OpCode::Dey => Instr::Implied(ImpliedOp::Dey),
        OpCode::EorImmediate => Instr::Read(ReadOp::Eor, Mode::Immediate),
        OpCode::EorZeroPage => Instr::Read(ReadOp::Eor, Mode::ZeroPage),
        OpCode::EorZeroPageX => Instr::Read(ReadOp::Eor, Mode::ZeroPageX),
        OpCode::EorAbsolute => Instr::Read(ReadOp::Eor, Mode::Absolute),
        OpCode::EorAbsoluteX => Instr::Read(ReadOp::Eor, Mode::AbsoluteX),
        OpCode::EorAbsoluteY => Instr::Read(ReadOp::Eor, Mode::AbsoluteY),
        OpCode::EorIndirectX => Instr::Read(ReadOp::Eor, Mode::IndirectX),
        OpCode::EorIndirectY => Instr::Read(ReadOp::Eor, Mode::IndirectY),
        OpCode::Inx => Instr::Implied(ImpliedOp::Inx),
        OpCode::Iny => Instr::Implied(ImpliedOp::Iny),
        OpCode::LdaImmediate => Instr::Read(ReadOp::Lda, Mode::Immediate),
        OpCode::LdaZeroPage => Instr::Read(ReadOp::Lda, Mode::ZeroPage),
        OpCode::LdaZeroPageX => Instr::Read(ReadOp::Lda, Mode::ZeroPageX),
        OpCode::LdaAbsolute => Instr::Read(ReadOp::Lda, Mode::Absolute),
        OpCode::LdaAbsoluteX => Instr::Read(ReadOp::Lda, Mode::AbsoluteX),
        OpCode::LdaAbsoluteY => Instr::Read(ReadOp::Lda, Mode::AbsoluteY),
        OpCode::LdaIndirectX => Instr::Read(ReadOp::Lda, Mode::IndirectX),
        OpCode::LdaIndirectY => Instr::Read(ReadOp::Lda, Mode::IndirectY),
        OpCode::LdxImmediate => Instr::Read(ReadOp::Ldx, Mode::Immediate),
        OpCode::LdxZeroPage => Instr::Read(ReadOp::Ldx, Mode::ZeroPage),
        OpCode::LdxZeroPageY => Instr::Read(ReadOp::Ldx, Mode::ZeroPageY),
        OpCode::LdxAbsolute => Instr::Read(ReadOp::Ldx, Mode::Absolute),
        OpCode::LdxAbsoluteY => Instr::Read(ReadOp::Ldx, Mode::AbsoluteY),
        OpCode::LdyImmediate => Instr::Read(ReadOp::Ldy, Mode::Immediate),
        OpCode::LdyZeroPage => Instr::Read(ReadOp::Ldy, Mode::ZeroPage),
        OpCode::LdyZeroPageX => Instr::Read(ReadOp::Ldy, Mode::ZeroPageX),
        OpCode::LdyAbsolute => Instr::Read(ReadOp::Ldy, Mode::Absolute),
        OpCode::LdyAbsoluteX => Instr::Read(ReadOp::Ldy, Mode::AbsoluteX),
        OpCode::Nop => Instr::Implied(ImpliedOp::Nop),
        OpCode::OraImmediate => Instr::Read(ReadOp::Ora, Mode::Immediate),
        OpCode::OraZeroPage => Instr::Read(ReadOp::Ora, Mode::ZeroPage),
        OpCode::OraZeroPageX => Instr::Read(ReadOp::Ora, Mode::ZeroPageX),
        OpCode::OraAbsolute => Instr::Read(ReadOp::Ora, Mode::Absolute),
        OpCode::OraAbsoluteX => Instr::Read(ReadOp::Ora, Mode::AbsoluteX),
        OpCode::OraAbsoluteY => Instr::Read(ReadOp::Ora, Mode::AbsoluteY),
        OpCode::OraIndirectX => Instr::Read(ReadOp::Ora, Mode::IndirectX),
        OpCode::OraIndirectY => Instr::Read(ReadOp::Ora, Mode::IndirectY),
        OpCode::SbcImmediate => Instr::Read(ReadOp::Sbc, Mode::Immediate),
        OpCode::SbcZeroPage => Instr::Read(ReadOp::Sbc, Mode::ZeroPage),
        OpCode::SbcZeroPageX => Instr::Read(ReadOp::Sbc, Mode::ZeroPageX),
        OpCode::SbcAbsolute => Instr::Read(ReadOp::Sbc, Mode::Absolute),
        OpCode::SbcAbsoluteX => Instr::Read(ReadOp::Sbc, Mode::AbsoluteX),
        OpCode::SbcAbsoluteY => Instr::Read(ReadOp::Sbc, Mode::AbsoluteY),
        OpCode::SbcIndirectX => Instr::Read(ReadOp::Sbc, Mode::IndirectX),
        OpCode::SbcIndirectY => Instr::Read(ReadOp::Sbc, Mode::IndirectY),
        OpCode::Sec => Instr::Implied(ImpliedOp::Sec),
        OpCode::Sed => Instr::Implied(ImpliedOp::Sed),
        OpCode::Sei => Instr::Implied(ImpliedOp::Sei),
        OpCode::StaZeroPage => Instr::Store(StoreOp::Sta, Mode::ZeroPage),
        OpCode::StaZeroPageX => Instr::Store(StoreOp::Sta, Mode::ZeroPageX),
        OpCode::StaAbsolute => Instr::Store(StoreOp::Sta, Mode::Absolute),
        OpCode::StaAbsoluteX => Instr::Store(StoreOp::Sta, Mode::AbsoluteX),
        OpCode::StaAbsoluteY => Instr::Store(StoreOp::Sta, Mode::AbsoluteY),
        OpCode::StaIndirectX => Instr::Store(StoreOp::Sta, Mode::IndirectX),
        OpCode::StaIndirectY => Instr::Store(StoreOp::Sta, Mode::IndirectY),
        OpCode::StxZeroPage => Instr::Store(StoreOp::Stx, Mode::ZeroPage),
        OpCode::StxZeroPageY => Instr::Store(StoreOp::Stx, Mode::ZeroPageY),
        OpCode::StxAbsolute => Instr::Store(StoreOp::Stx, Mode::Absolute),
        OpCode::StyZeroPage => Instr::Store(StoreOp::Sty, Mode::ZeroPage),
        OpCode::StyZeroPageX => Instr::Store(StoreOp::Sty, Mode::ZeroPageX),
        OpCode::StyAbsolute => Instr::Store(StoreOp::Sty, Mode::Absolute),
        OpCode::Tax => Instr::Implied(ImpliedOp::Tax),
        OpCode::Tay => Instr::Implied(ImpliedOp::Tay),
        OpCode::Tsx => Instr::Implied(ImpliedOp::Tsx),
        OpCode::Txa => Instr::Implied(ImpliedOp::Txa),
        OpCode::Txs => Instr::Implied(ImpliedOp::Txs),
        OpCode::Tya => Instr::Implied(ImpliedOp::Tya),
        OpCode::Unimplemented => Instr::Illegal,
    }
}


/// The highest `current_cycle` value each addressing mode's templates accept:
/// one less than the instruction's worst-case cycle count.
pub open spec fn mode_last_cycle(m: Mode) -> u8 {
    match m {
        Mode::Immediate => 1u8,
        Mode::ZeroPage => 2u8,
        Mode::ZeroPageX => 3u8,
        Mode::ZeroPageY => 3u8,
        Mode::Absolute => 3u8,
        Mode::AbsoluteX => 4u8,
        Mode::AbsoluteY => 4u8,
        Mode::IndirectX => 5u8,
        Mode::IndirectY => 5u8,
    }
}

/// The highest `current_cycle` value an instruction's handler accepts.
pub open spec fn last_cycle(i: Instr) -> u8 {
    match i {
        Instr::Read(_op, m) => mode_last_cycle(m),
        Instr::Store(_op, m) => mode_last_cycle(m),
        Instr::Implied(_op) => 1u8,
        Instr::Illegal => 0u8,
    }
}

/// The instruction shapes the decode table actually produces: reads in any
/// mode, stores in every mode but immediate, and the one-byte instructions.
pub open spec fn executable_instr(i: Instr) -> bool {
    match i {
        Instr::Read(_op, _m) => true,
        Instr::Store(_op, m) => !(m is Immediate),
        Instr::Implied(_op) => true,
        Instr::Illegal => false,
    }
}

/// A CPU state the dispatcher accepts: at the opcode fetch, or
/// mid-instruction with a recognized opcode and a cycle within its
/// handler's range. A cycle outside the range would be a programmer error
/// (the hardware has no such state), and an unrecognized opcode is fatal to
/// the core: callers must check `current_opcode` after the fetch cycle.
pub open spec fn dispatch_ready(cpu: Cpu) -> bool {
    ||| cpu.current_cycle == 0
    ||| {
        let i = instr_of_opcode(cpu.current_opcode);
        &&& executable_instr(i)
        &&& 1 <= cpu.current_cycle <= last_cycle(i)
    }
}

/// Every opcode but the sentinel decodes to an instruction the dispatcher
/// can run, and the sentinel to none.
pub proof fn lemma_decode_executable(op: OpCode)
    ensures
        executable_instr(instr_of_opcode(op)) == (op != OpCode::Unimplemented),
{
    reveal(crate::dispatch::instr_of_opcode);
}

/// The exact effect of one dispatcher call: on cycle 0 the opcode fetch
/// (read at `PC`, advance `PC`, decode into `current_opcode`), on later
/// cycles one cycle of the decoded instruction's template. The cycle counter
/// itself is the caller's to update.
#[verifier::opaque]
pub open spec fn cycle_spec(cpu: Cpu, cells: Seq<u8>) -> CycleSpec {
    if cpu.current_cycle == 0 {
        let b = cells[cpu.program_counter as int];
        CycleSpec {
            cpu: Cpu { current_opcode: opcode_of_byte(b), ..pc_advanced(cpu) },
            bus: BusOp::Read(cpu.program_counter, b),
            done: false,
        }
    } else {
        match instr_of_opcode(cpu.current_opcode) {
            Instr::Read(op, mode) => match mode {
                Mode::Immediate => read::immediate_spec(cpu, cells, op),
                Mode::ZeroPage => read::zeropage_spec(cpu, cells, op),
                Mode::ZeroPageX => read::zeropage_indexed_spec(
                    cpu,
                    cells,
                    IndexRegister::X,
                    op,
                ),
                Mode::ZeroPageY => read::zeropage_indexed_spec(
                    cpu,
                    cells,
                    IndexRegister::Y,
                    op,
                ),
                Mode::Absolute => read::absolute_spec(cpu, cells, op),
                Mode::AbsoluteX => read::absolute_indexed_spec(
                    cpu,
                    cells,
                    IndexRegister::X,
                    op,
                ),
                Mode::AbsoluteY => read::absolute_indexed_spec(
                    cpu,
                    cells,
                    IndexRegister::Y,
                    op,
                ),
                Mode::IndirectX => read::indirect_x_spec(cpu, cells, op),
                Mode::IndirectY => read::indirect_y_spec(cpu, cells, op),
            },
            Instr::Store(op, mode) => match mode {
                Mode::Immediate => arbitrary(),
                Mode::ZeroPage => store::zeropage_spec(cpu, cells, op),
                Mode::ZeroPageX => store::zeropage_indexed_spec(
                    cpu,
                    cells,
                    IndexRegister::X,
                    op,
                ),
                Mode::ZeroPageY => store::zeropage_indexed_spec(
                    cpu,
                    cells,
                    IndexRegister::Y,
                    op,
                ),
                Mode::Absolute => store::absolute_spec(cpu, cells, op),
                Mode::AbsoluteX => store::absolute_indexed_spec(
                    cpu,
                    cells,
                    IndexRegister::X,
                    op,
                ),
                Mode::AbsoluteY => store::absolute_indexed_spec(
                    cpu,
                    cells,
                    IndexRegister::Y,
                    op,
                ),
                Mode::IndirectX => store::indirect_x_spec(cpu, cells, op),
                Mode::IndirectY => store::indirect_y_spec(cpu, cells, op),
            },
            Instr::Implied(op) => implied_spec(cpu, cells, op),
            Instr::Illegal => arbitrary(),
        }
    }
}

/// The per-cycle dispatcher. Cycle 0 fetches and decodes the opcode; every
/// later cycle runs one cycle of the decoded instruction, performing exactly
/// one bus transaction, as `cycle_spec` describes. Returns `Break` when the
/// instruction is complete. The cycle counter is left untouched: the caller
/// increments it on `Continue` and resets it on `Break` (see `step_cycle`).
#[verifier::rlimit(60)]
pub fn dispatch_current_opcode(cpu: &mut Cpu, memory: &mut MemoryBus) -> (r: CycleResult)
    requires
        old(memory).wf(),
        dispatch_ready(*old(cpu)),
    ensures
        final(memory).wf(),
        cycle_matches(
            *old(cpu),
            *old(memory),
            *final(cpu),
            *final(memory),
            r,
            cycle_spec(*old(cpu), old(memory).contents()),
        ),
        final(cpu).current_cycle == old(cpu).current_cycle,
{
    proof {
        reveal(cycle_spec);
    }
    if cpu.current_cycle == 0 {
        let byte = fetch_from_pc(cpu, memory);
        cpu.current_opcode = opcode_from_byte(byte);
        return CycleResult::Continue;
    }
    match instr_for_opcode(cpu.current_opcode) {
        Instr::Read(op, mode) => match mode {
            Mode::Immediate => read::immediate(cpu, memory, op),
            Mode::ZeroPage => read::zeropage(cpu, memory, op),
            Mode::ZeroPageX => read::zeropage_x(cpu, memory, op),
            Mode::ZeroPageY => read::zeropage_y(cpu, memory, op),
            Mode::Absolute => read::absolute(cpu, memory, op),
            Mode::AbsoluteX => read::absolute_x(cpu, memory, op),
            Mode::AbsoluteY => read::absolute_y(cpu, memory, op),
            Mode::IndirectX => read::indirect_x(cpu, memory, op),
            Mode::IndirectY => read::indirect_y(cpu, memory, op),
        },
        Instr::Store(op, mode) => match mode {
            Mode::Immediate => {
                // the decode table never pairs a store with immediate mode
                proof {
                    assert(false);
                }
                CycleResult::Break
            },
            Mode::ZeroPage => store::zeropage(cpu, memory, op),
            Mode::ZeroPageX => store::zeropage_x(cpu, memory, op),
            Mode::ZeroPageY => store::zeropage_y(cpu, memory, op),
            Mode::Absolute => store::absolute(cpu, memory, op),
            Mode::AbsoluteX => store::absolute_x(cpu, memory, op),
            Mode::AbsoluteY => store::absolute_y(cpu, memory, op),
            Mode::IndirectX => store::indirect_x(cpu, memory, op),
            Mode::IndirectY => store::indirect_y(cpu, memory, op),
        },
        Instr::Implied(op) => implied(cpu, memory, op),
        Instr::Illegal => {
            // excluded by `dispatch_ready`: past cycle 0 the opcode is recognized
            proof {
                assert(false);
            }
            CycleResult::Break
        },
    }
}

impl Cpu {
    /// Advance the machine by one bus cycle: dispatch, then update the cycle
    /// counter — reset to 0 when the instruction completed, incremented
    /// otherwise. After each complete instruction `current_cycle` is 0.
    pub fn step_cycle(&mut self, memory: &mut MemoryBus) -> (r: CycleResult)
        requires
            old(memory).wf(),
            dispatch_ready(*old(self)),
        ensures
            final(memory).wf(),
            ({
                let s = cycle_spec(*old(self), old(memory).contents());
                &&& *final(self) == (Cpu {
                    current_cycle: if s.done {
                        0u8
                    } else {
                        (old(self).current_cycle + 1) as u8
                    },
                    ..s.cpu
                })
                &&& final(memory).contents() == cells_after(old(memory).contents(), s.bus)
                &&& final(memory).trace() == old(memory).trace().push(s.bus)
                &&& (r is Break) == s.done
            }),
            r is Break ==> final(self).current_cycle == 0,
    {
        let r = dispatch_current_opcode(self, memory);
        match r {
            CycleResult::Break => {
                self.current_cycle = 0;
            },
            CycleResult::Continue => {
                self.current_cycle = self.current_cycle + 1;
            },
        }
        r
    }
}

} // verus!
