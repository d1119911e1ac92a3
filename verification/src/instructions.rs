//! The instruction-encoding model: the closed mnemonic and addressing-mode
//! sets, the encoded length of each mode, the keyword table, and the opcode
//! table mapping each legal (mnemonic, addressing mode) pair to its byte.
//!
//! The opcode table is static reference data, built once and consulted by
//! both passes; it is the single authority on what the target CPU encodes.

use vstd::prelude::*;

use crate::errors::error;
use crate::errors::Error;
use crate::errors::ErrorCode;

verus! {

/// The operand-encoding shape of an instruction. `Implied` doubles for
/// accumulator addressing. `Unknown` is the unclassified fallback for an
/// operand that matches no shape; its failure surfaces in pass 2 as a
/// missing opcode or a missing symbol.
#[derive(PartialEq, Eq, Structural, Hash, Copy, Clone, Debug)]
pub enum AddressMode {
    Absolute,
    AbsoluteX,
    AbsoluteY,
    Immediate,
    Implied,
    Indirect,
    IndirectX,
    IndirectY,
    Relative,
    Zeropage,
    ZeropageX,
    ZeropageY,
    Unknown,
}

/// The fixed keyword set of the target instruction family.
#[derive(PartialEq, Eq, Structural, Hash, Copy, Clone, Debug)]
pub enum Mnemonic {
    ADC,
    AND,
    ASL,
    BBR0,
    BBR1,
    BBR2,
    BBR3,
    BBR4,
    BBR5,
    BBR6,
    BBR7,
    BBS0,
    BBS1,
    BBS2,
    BBS3,
    BBS4,
    BBS5,
    BBS6,
    BBS7,
    BCC,
    BCS,
    BEQ,
    BIT,
    BMI,
    BNE,
    BPL,
    BRA,
    BRK,
    BVC,
    BVS,
    CLC,
    CLD,
    CLI,
    CLV,
    CMP,
    CPX,
    CPY,
    DEC,
    DEX,
    DEY,
    EOR,
    INC,
    INX,
    INY,
    JMP,
    JSR,
    LDA,
    LDX,
    LDY,
    LSR,
    NOP,
    ORA,
    PHA,
    PHP,
    PHX,
    PHY,
    PLA,
    PLP,
    PLX,
    PLY,
    RMB0,
    RMB1,
    RMB2,
    RMB3,
    RMB4,
    RMB5,
    RMB6,
    RMB7,
    ROL,
    ROR,
    RTI,
    RTS,
    SBC,
    SEC,
    SED,
    SEI,
    SMB0,
    SMB1,
    SMB2,
    SMB3,
    SMB4,
    SMB5,
    SMB6,
    SMB7,
    STA,
    STP,
    STX,
    STY,
    STZ,
    TAX,
    TAY,
    TRB,
    TSB,
    TSX,
    TXA,
    TXS,
    TYA,
    WAI,
}

/// One legal encoding: the pair an opcode lookup is keyed by.
#[derive(PartialEq, Eq, Structural, Hash, Copy, Clone, Debug)]
pub struct InstructionKey {
    pub mnemonic: Mnemonic,
    pub address_mode: AddressMode,
}

type Opcode = u8;

/// One row of the opcode table.
#[derive(PartialEq, Eq, Structural, Copy, Clone, Debug)]
pub struct InstructionEntry {
    pub key: InstructionKey,
    pub opcode: Opcode,
}
/// Encoded length in bytes of an instruction with the given mode: the
/// opcode byte plus the operand bytes the mode reserves. The unclassified
/// mode reserves no operand bytes; pass 2 refuses it before emission.
pub open spec fn spec_address_mode_length(address_mode: AddressMode) -> u16 {
    match address_mode {
        AddressMode::Absolute => 3,
        AddressMode::AbsoluteX => 3,
        AddressMode::AbsoluteY => 3,
        AddressMode::Immediate => 2,
        AddressMode::Implied => 1,
        AddressMode::Indirect => 3,
        AddressMode::IndirectX => 2,
        AddressMode::IndirectY => 2,
        AddressMode::Relative => 2,
        AddressMode::Zeropage => 2,
        AddressMode::ZeropageX => 2,
        AddressMode::ZeropageY => 2,
        AddressMode::Unknown => 1,
    }
}

/// Returns the length in bytes of an instruction with the given mode.
pub fn address_mode_length(address_mode: AddressMode) -> (r: u16)
    ensures
        r == spec_address_mode_length(address_mode),
        1 <= r <= 3,
{
    match address_mode {
        AddressMode::Absolute => 3,
        AddressMode::AbsoluteX => 3,
        AddressMode::AbsoluteY => 3,
        AddressMode::Immediate => 2,
        AddressMode::Implied => 1,
        AddressMode::Indirect => 3,
        AddressMode::IndirectX => 2,
        AddressMode::IndirectY => 2,
        AddressMode::Relative => 2,
        AddressMode::Zeropage => 2,
        AddressMode::ZeropageX => 2,
        AddressMode::ZeropageY => 2,
        AddressMode::Unknown => 1,
    }
}

/// Table rows for mnemonics `ADC` through `ASL`.
pub open spec fn spec_rows_adc_asl() -> Seq<InstructionEntry> {
    seq![
        InstructionEntry { key: InstructionKey { mnemonic: Mnemonic::ADC, address_mode: AddressMode::Immediate }, opcode: 0x69 },
        InstructionEntry { key: InstructionKey { mnemonic: Mnemonic::ADC, address_mode: AddressMode::Immediate }, opcode: 0x69 },
        InstructionEntry { key: InstructionKey { mnemonic: Mnemonic::ADC, address_mode: AddressMode::Zeropage }, opcode: 0x65 },
        InstructionEntry { key: InstructionKey { mnemonic: Mnemonic::ADC, address_mode: AddressMode::ZeropageX }, opcode: 0x75 },
        InstructionEntry { key: InstructionKey { mnemonic: Mnemonic::ADC, address_mode: AddressMode::Absolute }, opcode: 0x6d },
        InstructionEntry { key: InstructionKey { mnemonic: Mnemonic::ADC, address_mode: AddressMode::AbsoluteX }, opcode: 0x7d },
        InstructionEntry { key: InstructionKey { mnemonic: Mnemonic::ADC, address_mode: AddressMode::AbsoluteY }, opcode: 0x79 },
        InstructionEntry { key: InstructionKey { mnemonic: Mnemonic::ADC, address_mode: AddressMode::IndirectX }, opcode: 0x61 },
        InstructionEntry { key: InstructionKey { mnemonic: Mnemonic::ADC, address_mode: AddressMode::IndirectY }, opcode: 0x71 },
        InstructionEntry { key: InstructionKey { mnemonic: Mnemonic::AND, address_mode: AddressMode::Immediate }, opcode: 0x29 },
        InstructionEntry { key: InstructionKey { mnemonic: Mnemonic::AND, address_mode: AddressMode::Zeropage }, opcode: 0x25 },
        InstructionEntry { key: InstructionKey { mnemonic: Mnemonic::AND, address_mode: AddressMode::ZeropageX }, opcode: 0x35 },
        InstructionEntry { key: InstructionKey { mnemonic: Mnemonic::AND, address_mode: AddressMode::Absolute }, opcode: 0x2d },
        InstructionEntry { key: InstructionKey { mnemonic: Mnemonic::AND, address_mode: AddressMode::AbsoluteX }, opcode: 0x3d },
        InstructionEntry { key: InstructionKey { mnemonic: Mnemonic::AND, address_mode: AddressMode::AbsoluteY }, opcode: 0x39 },
        InstructionEntry { key: InstructionKey { mnemonic: Mnemonic::AND, address_mode: AddressMode::IndirectX }, opcode: 0x21 },
        InstructionEntry { key: InstructionKey { mnemonic: Mnemonic::AND, address_mode: AddressMode::IndirectY }, opcode: 0x31 },
        InstructionEntry { key: InstructionKey { mnemonic: Mnemonic::ASL, address_mode: AddressMode::Implied }, opcode: 0x0a },
        InstructionEntry { key: InstructionKey { mnemonic: Mnemonic::ASL, address_mode: AddressMode::Zeropage }, opcode: 0x06 },
        InstructionEntry { key: InstructionKey { mnemonic: Mnemonic::ASL, address_mode: AddressMode::ZeropageX }, opcode: 0x16 },
        InstructionEntry { key: InstructionKey { mnemonic: Mnemonic::ASL, address_mode: AddressMode::Absolute }, opcode: 0x0e },
        InstructionEntry { key: InstructionKey { mnemonic: Mnemonic::ASL, address_mode: AddressMode::AbsoluteX }, opcode: 0x1e },
    ]
}

/// Table rows for mnemonics `BBR0` through `BVS`.
pub open spec fn spec_rows_bbr0_bvs() -> Seq<InstructionEntry> {
    seq![
        InstructionEntry { key: InstructionKey { mnemonic: Mnemonic::BBR0, address_mode: AddressMode::Relative }, opcode: 0x0f },
        InstructionEntry { key: InstructionKey { mnemonic: Mnemonic::BBR1, address_mode: AddressMode::Relative }, opcode: 0x1f },
        InstructionEntry { key: InstructionKey { mnemonic: Mnemonic::BBR2, address_mode: AddressMode::Relative }, opcode: 0x2f },
        InstructionEntry { key: InstructionKey { mnemonic: Mnemonic::BBR3, address_mode: AddressMode::Relative }, opcode: 0x3f },
        InstructionEntry { key: InstructionKey { mnemonic: Mnemonic::BBR4, address_mode: AddressMode::Relative }, opcode: 0x4f },
        InstructionEntry { key: InstructionKey { mnemonic: Mnemonic::BBR5, address_mode: AddressMode::Relative }, opcode: 0x5f },
        InstructionEntry { key: InstructionKey { mnemonic: Mnemonic::BBR6, address_mode: AddressMode::Relative }, opcode: 0x6f },
        InstructionEntry { key: InstructionKey { mnemonic: Mnemonic::BBR7, address_mode: AddressMode::Relative }, opcode: 0x7f },
        InstructionEntry { key: InstructionKey { mnemonic: Mnemonic::BBS0, address_mode: AddressMode::Relative }, opcode: 0x8f },
        InstructionEntry { key: InstructionKey { mnemonic: Mnemonic::BBS1, address_mode: AddressMode::Relative }, opcode: 0x9f },
        InstructionEntry { key: InstructionKey { mnemonic: Mnemonic::BBS2, address_mode: AddressMode::Relative }, opcode: 0xaf },
        InstructionEntry { key: InstructionKey { mnemonic: Mnemonic::BBS3, address_mode: AddressMode::Relative }, opcode: 0xbf },
        InstructionEntry { key: InstructionKey { mnemonic: Mnemonic::BBS4, address_mode: AddressMode::Relative }, opcode: 0xcf },
        InstructionEntry { key: InstructionKey { mnemonic: Mnemonic::BBS5, address_mode: AddressMode::Relative }, opcode: 0xdf },
        InstructionEntry { key: InstructionKey { mnemonic: Mnemonic::BBS6, address_mode: AddressMode::Relative }, opcode: 0xef },
        InstructionEntry { key: InstructionKey { mnemonic: Mnemonic::BBS7, address_mode: AddressMode::Relative }, opcode: 0xff },
        InstructionEntry { key: InstructionKey { mnemonic: Mnemonic::BCC, address_mode: AddressMode::Relative }, opcode: 0x90 },
        InstructionEntry { key: InstructionKey { mnemonic: Mnemonic::BCS, address_mode: AddressMode::Relative }, opcode: 0xb0 },
        InstructionEntry { key: InstructionKey { mnemonic: Mnemonic::BEQ, address_mode: AddressMode::Relative }, opcode: 0xf0 },
        InstructionEntry { key: InstructionKey { mnemonic: Mnemonic::BIT, address_mode: AddressMode::Absolute }, opcode: 0x2c },
        InstructionEntry { key: InstructionKey { mnemonic: Mnemonic::BIT, address_mode: AddressMode::Zeropage }, opcode: 0x24 },
        InstructionEntry { key: InstructionKey { mnemonic: Mnemonic::BMI, address_mode: AddressMode::Relative }, opcode: 0x30 },
        InstructionEntry { key: InstructionKey { mnemonic: Mnemonic::BNE, address_mode: AddressMode::Relative }, opcode: 0xd0 },
        InstructionEntry { key: InstructionKey { mnemonic: Mnemonic::BPL, address_mode: AddressMode::Relative }, opcode: 0x10 },
        InstructionEntry { key: InstructionKey { mnemonic: Mnemonic::BRA, address_mode: AddressMode::Relative }, opcode: 0x80 },
        InstructionEntry { key: InstructionKey { mnemonic: Mnemonic::BRK, address_mode: AddressMode::Implied }, opcode: 0x00 },
        InstructionEntry { key: InstructionKey { mnemonic: Mnemonic::BVC, address_mode: AddressMode::Relative }, opcode: 0x50 },
        InstructionEntry { key: InstructionKey { mnemonic: Mnemonic::BVS, address_mode: AddressMode::Relative }, opcode: 0x70 },
    ]
}

/// Table rows for mnemonics `CLC` through `CPY`.
pub open spec fn spec_rows_clc_cpy() -> Seq<InstructionEntry> {
    seq![
        InstructionEntry { key: InstructionKey { mnemonic: Mnemonic::CLC, address_mode: AddressMode::Implied }, opcode: 0x18 },
        InstructionEntry { key: InstructionKey { mnemonic: Mnemonic::CLD, address_mode: AddressMode::Implied }, opcode: 0xd8 },
        InstructionEntry { key: InstructionKey { mnemonic: Mnemonic::CLI, address_mode: AddressMode::Implied }, opcode: 0x58 },
        InstructionEntry { key: InstructionKey { mnemonic: Mnemonic::CLV, address_mode: AddressMode::Implied }, opcode: 0xb8 },
        InstructionEntry { key: InstructionKey { mnemonic: Mnemonic::CMP, address_mode: AddressMode::Immediate }, opcode: 0xc9 },
        InstructionEntry { key: InstructionKey { mnemonic: Mnemonic::CMP, address_mode: AddressMode::Zeropage }, opcode: 0xc5 },
        InstructionEntry { key: InstructionKey { mnemonic: Mnemonic::CMP, address_mode: AddressMode::ZeropageX }, opcode: 0xd5 },
        InstructionEntry { key: InstructionKey { mnemonic: Mnemonic::CMP, address_mode: AddressMode::Absolute }, opcode: 0xcd },
        InstructionEntry { key: InstructionKey { mnemonic: Mnemonic::CMP, address_mode: AddressMode::AbsoluteX }, opcode: 0xdd },
        InstructionEntry { key: InstructionKey { mnemonic: Mnemonic::CMP, address_mode: AddressMode::AbsoluteY }, opcode: 0xd9 },
        InstructionEntry { key: InstructionKey { mnemonic: Mnemonic::CMP, address_mode: AddressMode::IndirectX }, opcode: 0xc1 },
        InstructionEntry { key: InstructionKey { mnemonic: Mnemonic::CMP, address_mode: AddressMode::IndirectY }, opcode: 0xd1 },
        InstructionEntry { key: InstructionKey { mnemonic: Mnemonic::CPX, address_mode: AddressMode::Implied }, opcode: 0xe0 },
        InstructionEntry { key: InstructionKey { mnemonic: Mnemonic::CPX, address_mode: AddressMode::Zeropage }, opcode: 0xe4 },
        InstructionEntry { key: InstructionKey { mnemonic: Mnemonic::CPX, address_mode: AddressMode::Absolute }, opcode: 0xec },
        InstructionEntry { key: InstructionKey { mnemonic: Mnemonic::CPY, address_mode: AddressMode::Implied }, opcode: 0xc0 },
        InstructionEntry { key: InstructionKey { mnemonic: Mnemonic::CPY, address_mode: AddressMode::Zeropage }, opcode: 0xc4 },
        InstructionEntry { key: InstructionKey { mnemonic: Mnemonic::CPY, address_mode: AddressMode::Absolute }, opcode: 0xcc },
    ]
}

/// Table rows for mnemonics `DEC` through `INY`.
pub open spec fn spec_rows_dec_iny() -> Seq<InstructionEntry> {
    seq![
        InstructionEntry { key: InstructionKey { mnemonic: Mnemonic::DEC, address_mode: AddressMode::Zeropage }, opcode: 0xc6 },
        InstructionEntry { key: InstructionKey { mnemonic: Mnemonic::DEC, address_mode: AddressMode::ZeropageX }, opcode: 0xd6 },
        InstructionEntry { key: InstructionKey { mnemonic: Mnemonic::DEC, address_mode: AddressMode::Absolute }, opcode: 0xce },
        InstructionEntry { key: InstructionKey { mnemonic: Mnemonic::DEC, address_mode: AddressMode::AbsoluteX }, opcode: 0xde },
        InstructionEntry { key: InstructionKey { mnemonic: Mnemonic::DEX, address_mode: AddressMode::Implied }, opcode: 0xca },
        InstructionEntry { key: InstructionKey { mnemonic: Mnemonic::DEY, address_mode: AddressMode::Implied }, opcode: 0x88 },
        InstructionEntry { key: InstructionKey { mnemonic: Mnemonic::EOR, address_mode: AddressMode::Immediate }, opcode: 0x49 },
        InstructionEntry { key: InstructionKey { mnemonic: Mnemonic::EOR, address_mode: AddressMode::Zeropage }, opcode: 0x45 },
        InstructionEntry { key: InstructionKey { mnemonic: Mnemonic::EOR, address_mode: AddressMode::ZeropageX }, opcode: 0x45 },
        InstructionEntry { key: InstructionKey { mnemonic: Mnemonic::EOR, address_mode: AddressMode::Absolute }, opcode: 0x4d },
        InstructionEntry { key: InstructionKey { mnemonic: Mnemonic::EOR, address_mode: AddressMode::AbsoluteX }, opcode: 0x5d },
        InstructionEntry { key: InstructionKey { mnemonic: Mnemonic::EOR, address_mode: AddressMode::AbsoluteY }, opcode: 0x59 },
        InstructionEntry { key: InstructionKey { mnemonic: Mnemonic::EOR, address_mode: AddressMode::IndirectX }, opcode: 0x41 },
        InstructionEntry { key: InstructionKey { mnemonic: Mnemonic::EOR, address_mode: AddressMode::IndirectY }, opcode: 0x51 },
        InstructionEntry { key: InstructionKey { mnemonic: Mnemonic::INC, address_mode: AddressMode::Implied }, opcode: 0x1a },
        InstructionEntry { key: InstructionKey { mnemonic: Mnemonic::INC, address_mode: AddressMode::Zeropage }, opcode: 0xe6 },
        InstructionEntry { key: InstructionKey { mnemonic: Mnemonic::INC, address_mode: AddressMode::ZeropageX }, opcode: 0xf6 },
        InstructionEntry { key: InstructionKey { mnemonic: Mnemonic::INC, address_mode: AddressMode::Absolute }, opcode: 0xee },
        InstructionEntry { key: InstructionKey { mnemonic: Mnemonic::INC, address_mode: AddressMode::AbsoluteX }, opcode: 0xfe },
        InstructionEntry { key: InstructionKey { mnemonic: Mnemonic::INX, address_mode: AddressMode::Implied }, opcode: 0xe8 },
        InstructionEntry { key: InstructionKey { mnemonic: Mnemonic::INY, address_mode: AddressMode::Implied }, opcode: 0xc8 },
    ]
}

/// Table rows for mnemonics `JMP` through `LSR`.
pub open spec fn spec_rows_jmp_lsr() -> Seq<InstructionEntry> {
    seq![
        InstructionEntry { key: InstructionKey { mnemonic: Mnemonic::JMP, address_mode: AddressMode::Absolute }, opcode: 0x4c },
        InstructionEntry { key: InstructionKey { mnemonic: Mnemonic::JMP, address_mode: AddressMode::Indirect }, opcode: 0x6c },
        InstructionEntry { key: InstructionKey { mnemonic: Mnemonic::JSR, address_mode: AddressMode::Absolute }, opcode: 0x20 },
        InstructionEntry { key: InstructionKey { mnemonic: Mnemonic::LDA, address_mode: AddressMode::Immediate }, opcode: 0xa9 },
        InstructionEntry { key: InstructionKey { mnemonic: Mnemonic::LDA, address_mode: AddressMode::Zeropage }, opcode: 0xa5 },
        InstructionEntry { key: InstructionKey { mnemonic: Mnemonic::LDA, address_mode: AddressMode::ZeropageX }, opcode: 0xb5 },
        InstructionEntry { key: InstructionKey { mnemonic: Mnemonic::LDA, address_mode: AddressMode::Absolute }, opcode: 0xad },
        InstructionEntry { key: InstructionKey { mnemonic: Mnemonic::LDA, address_mode: AddressMode::AbsoluteX }, opcode: 0xbd },
        InstructionEntry { key: InstructionKey { mnemonic: Mnemonic::LDA, address_mode: AddressMode::AbsoluteY }, opcode: 0xb9 },
        InstructionEntry { key: InstructionKey { mnemonic: Mnemonic::LDA, address_mode: AddressMode::IndirectX }, opcode: 0xa1 },
        InstructionEntry { key: InstructionKey { mnemonic: Mnemonic::LDA, address_mode: AddressMode::IndirectY }, opcode: 0xb1 },
        InstructionEntry { key: InstructionKey { mnemonic: Mnemonic::LDX, address_mode: AddressMode::Immediate }, opcode: 0xa2 },
        InstructionEntry { key: InstructionKey { mnemonic: Mnemonic::LDX, address_mode: AddressMode::Zeropage }, opcode: 0xa6 },
        InstructionEntry { key: InstructionKey { mnemonic: Mnemonic::LDX, address_mode: AddressMode::ZeropageX }, opcode: 0xb6 },
        InstructionEntry { key: InstructionKey { mnemonic: Mnemonic::LDX, address_mode: AddressMode::Absolute }, opcode: 0xae },
        InstructionEntry { key: InstructionKey { mnemonic: Mnemonic::LDX, address_mode: AddressMode::AbsoluteX }, opcode: 0xbe },
        InstructionEntry { key: InstructionKey { mnemonic: Mnemonic::LDY, address_mode: AddressMode::Immediate }, opcode: 0xa0 },
        InstructionEntry { key: InstructionKey { mnemonic: Mnemonic::LDY, address_mode: AddressMode::Zeropage }, opcode: 0xa4 },
        InstructionEntry { key: InstructionKey { mnemonic: Mnemonic::LDY, address_mode: AddressMode::ZeropageX }, opcode: 0xb4 },
        InstructionEntry { key: InstructionKey { mnemonic: Mnemonic::LDY, address_mode: AddressMode::Absolute }, opcode: 0xac },
        InstructionEntry { key: InstructionKey { mnemonic: Mnemonic::LDY, address_mode: AddressMode::AbsoluteX }, opcode: 0xbc },
        InstructionEntry { key: InstructionKey { mnemonic: Mnemonic::LSR, address_mode: AddressMode::Immediate }, opcode: 0x4a },
        InstructionEntry { key: InstructionKey { mnemonic: Mnemonic::LSR, address_mode: AddressMode::Zeropage }, opcode: 0x46 },
        InstructionEntry { key: InstructionKey { mnemonic: Mnemonic::LSR, address_mode: AddressMode::ZeropageX }, opcode: 0x56 },
        InstructionEntry { key: InstructionKey { mnemonic: Mnemonic::LSR, address_mode: AddressMode::Absolute }, opcode: 0x4e },
        InstructionEntry { key: InstructionKey { mnemonic: Mnemonic::LSR, address_mode: AddressMode::AbsoluteX }, opcode: 0x5e },
    ]
}

/// Table rows for mnemonics `NOP` through `ROL`.
pub open spec fn spec_rows_nop_rol() -> Seq<InstructionEntry> {
    seq![
        InstructionEntry { key: InstructionKey { mnemonic: Mnemonic::NOP, address_mode: AddressMode::Implied }, opcode: 0xea },
        InstructionEntry { key: InstructionKey { mnemonic: Mnemonic::ORA, address_mode: AddressMode::Immediate }, opcode: 0x09 },
        InstructionEntry { key: InstructionKey { mnemonic: Mnemonic::ORA, address_mode: AddressMode::Zeropage }, opcode: 0x05 },
        InstructionEntry { key: InstructionKey { mnemonic: Mnemonic::ORA, address_mode: AddressMode::ZeropageX }, opcode: 0x15 },
        InstructionEntry { key: InstructionKey { mnemonic: Mnemonic::ORA, address_mode: AddressMode::Absolute }, opcode: 0x0d },
        InstructionEntry { key: InstructionKey { mnemonic: Mnemonic::ORA, address_mode: AddressMode::AbsoluteX }, opcode: 0x1d },
        InstructionEntry { key: InstructionKey { mnemonic: Mnemonic::ORA, address_mode: AddressMode::AbsoluteY }, opcode: 0x19 },
        InstructionEntry { key: InstructionKey { mnemonic: Mnemonic::ORA, address_mode: AddressMode::IndirectX }, opcode: 0x01 },
        InstructionEntry { key: InstructionKey { mnemonic: Mnemonic::ORA, address_mode: AddressMode::IndirectY }, opcode: 0x11 },
        InstructionEntry { key: InstructionKey { mnemonic: Mnemonic::PHA, address_mode: AddressMode::Implied }, opcode: 0x48 },
        InstructionEntry { key: InstructionKey { mnemonic: Mnemonic::PHP, address_mode: AddressMode::Implied }, opcode: 0x08 },
        InstructionEntry { key: InstructionKey { mnemonic: Mnemonic::PHX, address_mode: AddressMode::Implied }, opcode: 0xda },
        InstructionEntry { key: InstructionKey { mnemonic: Mnemonic::PHY, address_mode: AddressMode::Implied }, opcode: 0x5a },
        InstructionEntry { key: InstructionKey { mnemonic: Mnemonic::PLA, address_mode: AddressMode::Implied }, opcode: 0x68 },
        InstructionEntry { key: InstructionKey { mnemonic: Mnemonic::PLP, address_mode: AddressMode::Implied }, opcode: 0x28 },
        InstructionEntry { key: InstructionKey { mnemonic: Mnemonic::PLX, address_mode: AddressMode::Relative }, opcode: 0xfa },
        InstructionEntry { key: InstructionKey { mnemonic: Mnemonic::PLY, address_mode: AddressMode::Relative }, opcode: 0x7a },
        InstructionEntry { key: InstructionKey { mnemonic: Mnemonic::RMB0, address_mode: AddressMode::Zeropage }, opcode: 0x07 },
        InstructionEntry { key: InstructionKey { mnemonic: Mnemonic::RMB1, address_mode: AddressMode::Zeropage }, opcode: 0x17 },
        InstructionEntry { key: InstructionKey { mnemonic: Mnemonic::RMB2, address_mode: AddressMode::Zeropage }, opcode: 0x27 },
        InstructionEntry { key: InstructionKey { mnemonic: Mnemonic::RMB3, address_mode: AddressMode::Zeropage }, opcode: 0x37 },
        InstructionEntry { key: InstructionKey { mnemonic: Mnemonic::RMB4, address_mode: AddressMode::Zeropage }, opcode: 0x47 },
        InstructionEntry { key: InstructionKey { mnemonic: Mnemonic::RMB5, address_mode: AddressMode::Zeropage }, opcode: 0x57 },
        InstructionEntry { key: InstructionKey { mnemonic: Mnemonic::RMB6, address_mode: AddressMode::Zeropage }, opcode: 0x67 },
        InstructionEntry { key: InstructionKey { mnemonic: Mnemonic::RMB7, address_mode: AddressMode::Zeropage }, opcode: 0x77 },
        InstructionEntry { key: InstructionKey { mnemonic: Mnemonic::ROL, address_mode: AddressMode::Implied }, opcode: 0x2a },
        InstructionEntry { key: InstructionKey { mnemonic: Mnemonic::ROL, address_mode: AddressMode::Zeropage }, opcode: 0x26 },
        InstructionEntry { key: InstructionKey { mnemonic: Mnemonic::ROL, address_mode: AddressMode::ZeropageX }, opcode: 0x36 },
    ]
}

/// Table rows for mnemonics `ROL` through `SMB7`.
pub open spec fn spec_rows_rol_smb7() -> Seq<InstructionEntry> {
    seq![
        InstructionEntry { key: InstructionKey { mnemonic: Mnemonic::ROL, address_mode: AddressMode::Absolute }, opcode: 0x2e },
        InstructionEntry { key: InstructionKey { mnemonic: Mnemonic::ROL, address_mode: AddressMode::AbsoluteX }, opcode: 0x3e },
        InstructionEntry { key: InstructionKey { mnemonic: Mnemonic::ROR, address_mode: AddressMode::Implied }, opcode: 0x6a },
        InstructionEntry { key: InstructionKey { mnemonic: Mnemonic::ROR, address_mode: AddressMode::Zeropage }, opcode: 0x66 },
        InstructionEntry { key: InstructionKey { mnemonic: Mnemonic::ROR, address_mode: AddressMode::ZeropageX }, opcode: 0x76 },
        InstructionEntry { key: InstructionKey { mnemonic: Mnemonic::ROR, address_mode: AddressMode::Absolute }, opcode: 0x6e },
        InstructionEntry { key: InstructionKey { mnemonic: Mnemonic::ROR, address_mode: AddressMode::AbsoluteX }, opcode: 0x7e },
        InstructionEntry { key: InstructionKey { mnemonic: Mnemonic::RTI, address_mode: AddressMode::Implied }, opcode: 0x40 },
        InstructionEntry { key: InstructionKey { mnemonic: Mnemonic::RTS, address_mode: AddressMode::Implied }, opcode: 0x60 },
        InstructionEntry { key: InstructionKey { mnemonic: Mnemonic::SBC, address_mode: AddressMode::Immediate }, opcode: 0xe9 },
        InstructionEntry { key: InstructionKey { mnemonic: Mnemonic::SBC, address_mode: AddressMode::Zeropage }, opcode: 0xe5 },
        InstructionEntry { key: InstructionKey { mnemonic: Mnemonic::SBC, address_mode: AddressMode::ZeropageX }, opcode: 0xf5 },
        InstructionEntry { key: InstructionKey { mnemonic: Mnemonic::SBC, address_mode: AddressMode::Absolute }, opcode: 0xed },
        InstructionEntry { key: InstructionKey { mnemonic: Mnemonic::SBC, address_mode: AddressMode::AbsoluteX }, opcode: 0xfd },
        InstructionEntry { key: InstructionKey { mnemonic: Mnemonic::SBC, address_mode: AddressMode::AbsoluteY }, opcode: 0xf9 },
        InstructionEntry { key: InstructionKey { mnemonic: Mnemonic::SBC, address_mode: AddressMode::IndirectX }, opcode: 0xe1 },
        InstructionEntry { key: InstructionKey { mnemonic: Mnemonic::SBC, address_mode: AddressMode::IndirectY }, opcode: 0xf1 },
        InstructionEntry { key: InstructionKey { mnemonic: Mnemonic::SEC, address_mode: AddressMode::Implied }, opcode: 0x38 },
        InstructionEntry { key: InstructionKey { mnemonic: Mnemonic::SED, address_mode: AddressMode::Implied }, opcode: 0xf8 },
        InstructionEntry { key: InstructionKey { mnemonic: Mnemonic::SEI, address_mode: AddressMode::Implied }, opcode: 0x78 },
        InstructionEntry { key: InstructionKey { mnemonic: Mnemonic::SMB0, address_mode: AddressMode::Zeropage }, opcode: 0x87 },
        InstructionEntry { key: InstructionKey { mnemonic: Mnemonic::SMB1, address_mode: AddressMode::Zeropage }, opcode: 0x97 },
        InstructionEntry { key: InstructionKey { mnemonic: Mnemonic::SMB2, address_mode: AddressMode::Zeropage }, opcode: 0xa7 },
        InstructionEntry { key: InstructionKey { mnemonic: Mnemonic::SMB3, address_mode: AddressMode::Zeropage }, opcode: 0xb7 },
        InstructionEntry { key: InstructionKey { mnemonic: Mnemonic::SMB4, address_mode: AddressMode::Zeropage }, opcode: 0xc7 },
        InstructionEntry { key: InstructionKey { mnemonic: Mnemonic::SMB5, address_mode: AddressMode::Zeropage }, opcode: 0xd7 },
        InstructionEntry { key: InstructionKey { mnemonic: Mnemonic::SMB6, address_mode: AddressMode::Zeropage }, opcode: 0xe7 },
        InstructionEntry { key: InstructionKey { mnemonic: Mnemonic::SMB7, address_mode: AddressMode::Zeropage }, opcode: 0xf7 },
    ]
}

/// Table rows for mnemonics `STA` through `WAI`.
pub open spec fn spec_rows_sta_wai() -> Seq<InstructionEntry> {
    seq![
        InstructionEntry { key: InstructionKey { mnemonic: Mnemonic::STA, address_mode: AddressMode::Zeropage }, opcode: 0x85 },
        InstructionEntry { key: InstructionKey { mnemonic: Mnemonic::STA, address_mode: AddressMode::ZeropageX }, opcode: 0x95 },
        InstructionEntry { key: InstructionKey { mnemonic: Mnemonic::STA, address_mode: AddressMode::Absolute }, opcode: 0x8d },
        InstructionEntry { key: InstructionKey { mnemonic: Mnemonic::STA, address_mode: AddressMode::AbsoluteX }, opcode: 0x9d },
        InstructionEntry { key: InstructionKey { mnemonic: Mnemonic::STA, address_mode: AddressMode::AbsoluteY }, opcode: 0x99 },
        InstructionEntry { key: InstructionKey { mnemonic: Mnemonic::STA, address_mode: AddressMode::IndirectX }, opcode: 0x81 },
        InstructionEntry { key: InstructionKey { mnemonic: Mnemonic::STA, address_mode: AddressMode::IndirectY }, opcode: 0x91 },
        InstructionEntry { key: InstructionKey { mnemonic: Mnemonic::STP, address_mode: AddressMode::Implied }, opcode: 0xdb },
        InstructionEntry { key: InstructionKey { mnemonic: Mnemonic::STX, address_mode: AddressMode::Zeropage }, opcode: 0x85 },
        InstructionEntry { key: InstructionKey { mnemonic: Mnemonic::STX, address_mode: AddressMode::ZeropageY }, opcode: 0x95 },
        InstructionEntry { key: InstructionKey { mnemonic: Mnemonic::STX, address_mode: AddressMode::Absolute }, opcode: 0x8d },
        InstructionEntry { key: InstructionKey { mnemonic: Mnemonic::STY, address_mode: AddressMode::Zeropage }, opcode: 0x85 },
        InstructionEntry { key: InstructionKey { mnemonic: Mnemonic::STY, address_mode: AddressMode::ZeropageX }, opcode: 0x95 },
        InstructionEntry { key: InstructionKey { mnemonic: Mnemonic::STY, address_mode: AddressMode::Absolute }, opcode: 0x8d },
        InstructionEntry { key: InstructionKey { mnemonic: Mnemonic::STZ, address_mode: AddressMode::Zeropage }, opcode: 0x64 },
        InstructionEntry { key: InstructionKey { mnemonic: Mnemonic::STZ, address_mode: AddressMode::ZeropageX }, opcode: 0x94 },
        InstructionEntry { key: InstructionKey { mnemonic: Mnemonic::STZ, address_mode: AddressMode::Absolute }, opcode: 0x9c },
        InstructionEntry { key: InstructionKey { mnemonic: Mnemonic::TAX, address_mode: AddressMode::Implied }, opcode: 0xaa },
        InstructionEntry { key: InstructionKey { mnemonic: Mnemonic::TAY, address_mode: AddressMode::Implied }, opcode: 0xa8 },
        InstructionEntry { key: InstructionKey { mnemonic: Mnemonic::TRB, address_mode: AddressMode::Absolute }, opcode: 0x1c },
        InstructionEntry { key: InstructionKey { mnemonic: Mnemonic::TRB, address_mode: AddressMode::Zeropage }, opcode: 0x14 },
        InstructionEntry { key: InstructionKey { mnemonic: Mnemonic::TSB, address_mode: AddressMode::Absolute }, opcode: 0x0c },
        InstructionEntry { key: InstructionKey { mnemonic: Mnemonic::TSB, address_mode: AddressMode::Zeropage }, opcode: 0x04 },
        InstructionEntry { key: InstructionKey { mnemonic: Mnemonic::TSX, address_mode: AddressMode::Implied }, opcode: 0xba },
        InstructionEntry { key: InstructionKey { mnemonic: Mnemonic::TXA, address_mode: AddressMode::Implied }, opcode: 0x8a },
        InstructionEntry { key: InstructionKey { mnemonic: Mnemonic::TXS, address_mode: AddressMode::Implied }, opcode: 0x9a },
        InstructionEntry { key: InstructionKey { mnemonic: Mnemonic::TYA, address_mode: AddressMode::Implied }, opcode: 0x98 },
        InstructionEntry { key: InstructionKey { mnemonic: Mnemonic::WAI, address_mode: AddressMode::Relative }, opcode: 0xcb },
    ]
}

/// The opcode table as reference data: one row per legal encoding, in the
/// order the table is built.
pub open spec fn spec_instruction_table() -> Seq<InstructionEntry> {
    spec_rows_adc_asl() + spec_rows_bbr0_bvs() + spec_rows_clc_cpy() + spec_rows_dec_iny() + spec_rows_jmp_lsr() + spec_rows_nop_rol() + spec_rows_rol_smb7() + spec_rows_sta_wai()
}

/// First-match lookup of a key in a table.
pub open spec fn spec_lookup(t: Seq<InstructionEntry>, key: InstructionKey) -> Option<Opcode>
    decreases t.len(),
{
    if t.len() == 0 {
        None
    } else if t[0].key == key {
        Some(t[0].opcode)
    } else {
        spec_lookup(t.drop_first(), key)
    }
}

/// The opcode the reference table gives a (mnemonic, mode) pair.
pub open spec fn spec_opcode(mnemonic: Mnemonic, address_mode: AddressMode) -> Option<Opcode> {
    spec_lookup(spec_instruction_table(), InstructionKey { mnemonic, address_mode })
}

/// The instruction set as pass 2 consults it.
pub struct InstructionMap {
    pub entries: Vec<InstructionEntry>,
}

impl View for InstructionMap {
    type V = Seq<InstructionEntry>;

    open spec fn view(&self) -> Seq<InstructionEntry> {
        self.entries@
    }
}

proof fn lemma_lookup_skip(t: Seq<InstructionEntry>, key: InstructionKey, i: int)
    requires
        0 <= i <= t.len(),
        forall|k: int| 0 <= k < i ==> t[k].key != key,
    ensures
        spec_lookup(t, key) == spec_lookup(t.skip(i), key),
    decreases i,
{
    if i == 0 {
        assert(t.skip(0) =~= t);
    } else {
        lemma_lookup_skip(t.drop_first(), key, i - 1);
        assert(t.drop_first().skip(i - 1) =~= t.skip(i));
    }
}

impl InstructionMap {
    /// Looks the pair up, returning its opcode byte or a miss.
    pub fn get(&self, key: &InstructionKey) -> (r: Option<Opcode>)
        ensures
            r == spec_lookup(self@, *key),
    {
        let n = self.entries.len();
        let mut i: usize = 0;
        while i < n
            invariant
                0 <= i <= n,
                n == self.entries@.len(),
                forall|k: int| 0 <= k < i ==> self.entries@[k].key != *key,
            decreases n - i,
        {
            let e = self.entries[i];
            if e.key == *key {
                proof {
                    lemma_lookup_skip(self.entries@, *key, i as int);
                    assert(self.entries@.skip(i as int)[0] == self.entries@[i as int]);
                }
                return Some(e.opcode);
            }
            i += 1;
        }
        proof {
            lemma_lookup_skip(self.entries@, *key, n as int);
            assert(self.entries@.skip(n as int) =~= Seq::<InstructionEntry>::empty());
        }
        None
    }
}

fn table_rows_adc_asl(v: &mut Vec<InstructionEntry>)
    ensures
        final(v)@ == old(v)@ + spec_rows_adc_asl(),
{
    v.push(InstructionEntry { key: InstructionKey { mnemonic: Mnemonic::ADC, address_mode: AddressMode::Immediate }, opcode: 0x69 });
    v.push(InstructionEntry { key: InstructionKey { mnemonic: Mnemonic::ADC, address_mode: AddressMode::Immediate }, opcode: 0x69 });
    v.push(InstructionEntry { key: InstructionKey { mnemonic: Mnemonic::ADC, address_mode: AddressMode::Zeropage }, opcode: 0x65 });
    v.push(InstructionEntry { key: InstructionKey { mnemonic: Mnemonic::ADC, address_mode: AddressMode::ZeropageX }, opcode: 0x75 });
    v.push(InstructionEntry { key: InstructionKey { mnemonic: Mnemonic::ADC, address_mode: AddressMode::Absolute }, opcode: 0x6d });
    v.push(InstructionEntry { key: InstructionKey { mnemonic: Mnemonic::ADC, address_mode: AddressMode::AbsoluteX }, opcode: 0x7d });
    v.push(InstructionEntry { key: InstructionKey { mnemonic: Mnemonic::ADC, address_mode: AddressMode::AbsoluteY }, opcode: 0x79 });
    v.push(InstructionEntry { key: InstructionKey { mnemonic: Mnemonic::ADC, address_mode: AddressMode::IndirectX }, opcode: 0x61 });
    v.push(InstructionEntry { key: InstructionKey { mnemonic: Mnemonic::ADC, address_mode: AddressMode::IndirectY }, opcode: 0x71 });
    v.push(InstructionEntry { key: InstructionKey { mnemonic: Mnemonic::AND, address_mode: AddressMode::Immediate }, opcode: 0x29 });
    v.push(InstructionEntry { key: InstructionKey { mnemonic: Mnemonic::AND, address_mode: AddressMode::Zeropage }, opcode: 0x25 });
    v.push(InstructionEntry { key: InstructionKey { mnemonic: Mnemonic::AND, address_mode: AddressMode::ZeropageX }, opcode: 0x35 });
    v.push(InstructionEntry { key: InstructionKey { mnemonic: Mnemonic::AND, address_mode: AddressMode::Absolute }, opcode: 0x2d });
    v.push(InstructionEntry { key: InstructionKey { mnemonic: Mnemonic::AND, address_mode: AddressMode::AbsoluteX }, opcode: 0x3d });
    v.push(InstructionEntry { key: InstructionKey { mnemonic: Mnemonic::AND, address_mode: AddressMode::AbsoluteY }, opcode: 0x39 });
    v.push(InstructionEntry { key: InstructionKey { mnemonic: Mnemonic::AND, address_mode: AddressMode::IndirectX }, opcode: 0x21 });
    v.push(InstructionEntry { key: InstructionKey { mnemonic: Mnemonic::AND, address_mode: AddressMode::IndirectY }, opcode: 0x31 });
    v.push(InstructionEntry { key: InstructionKey { mnemonic: Mnemonic::ASL, address_mode: AddressMode::Implied }, opcode: 0x0a });
    v.push(InstructionEntry { key: InstructionKey { mnemonic: Mnemonic::ASL, address_mode: AddressMode::Zeropage }, opcode: 0x06 });
    v.push(InstructionEntry { key: InstructionKey { mnemonic: Mnemonic::ASL, address_mode: AddressMode::ZeropageX }, opcode: 0x16 });
    v.push(InstructionEntry { key: InstructionKey { mnemonic: Mnemonic::ASL, address_mode: AddressMode::Absolute }, opcode: 0x0e });
    v.push(InstructionEntry { key: InstructionKey { mnemonic: Mnemonic::ASL, address_mode: AddressMode::AbsoluteX }, opcode: 0x1e });
    proof {
        assert(v@ =~= old(v)@ + spec_rows_adc_asl());
    }
}

fn table_rows_bbr0_bvs(v: &mut Vec<InstructionEntry>)
    ensures
        final(v)@ == old(v)@ + spec_rows_bbr0_bvs(),
{
    v.push(InstructionEntry { key: InstructionKey { mnemonic: Mnemonic::BBR0, address_mode: AddressMode::Relative }, opcode: 0x0f });
    v.push(InstructionEntry { key: InstructionKey { mnemonic: Mnemonic::BBR1, address_mode: AddressMode::Relative }, opcode: 0x1f });
    v.push(InstructionEntry { key: InstructionKey { mnemonic: Mnemonic::BBR2, address_mode: AddressMode::Relative }, opcode: 0x2f });
    v.push(InstructionEntry { key: InstructionKey { mnemonic: Mnemonic::BBR3, address_mode: AddressMode::Relative }, opcode: 0x3f });
    v.push(InstructionEntry { key: InstructionKey { mnemonic: Mnemonic::BBR4, address_mode: AddressMode::Relative }, opcode: 0x4f });
    v.push(InstructionEntry { key: InstructionKey { mnemonic: Mnemonic::BBR5, address_mode: AddressMode::Relative }, opcode: 0x5f });
    v.push(InstructionEntry { key: InstructionKey { mnemonic: Mnemonic::BBR6, address_mode: AddressMode::Relative }, opcode: 0x6f });
    v.push(InstructionEntry { key: InstructionKey { mnemonic: Mnemonic::BBR7, address_mode: AddressMode::Relative }, opcode: 0x7f });
    v.push(InstructionEntry { key: InstructionKey { mnemonic: Mnemonic::BBS0, address_mode: AddressMode::Relative }, opcode: 0x8f });
    v.push(InstructionEntry { key: InstructionKey { mnemonic: Mnemonic::BBS1, address_mode: AddressMode::Relative }, opcode: 0x9f });
    v.push(InstructionEntry { key: InstructionKey { mnemonic: Mnemonic::BBS2, address_mode: AddressMode::Relative }, opcode: 0xaf });
    v.push(InstructionEntry { key: InstructionKey { mnemonic: Mnemonic::BBS3, address_mode: AddressMode::Relative }, opcode: 0xbf });
    v.push(InstructionEntry { key: InstructionKey { mnemonic: Mnemonic::BBS4, address_mode: AddressMode::Relative }, opcode: 0xcf });
    v.push(InstructionEntry { key: InstructionKey { mnemonic: Mnemonic::BBS5, address_mode: AddressMode::Relative }, opcode: 0xdf });
    v.push(InstructionEntry { key: InstructionKey { mnemonic: Mnemonic::BBS6, address_mode: AddressMode::Relative }, opcode: 0xef });
    v.push(InstructionEntry { key: InstructionKey { mnemonic: Mnemonic::BBS7, address_mode: AddressMode::Relative }, opcode: 0xff });
    v.push(InstructionEntry { key: InstructionKey { mnemonic: Mnemonic::BCC, address_mode: AddressMode::Relative }, opcode: 0x90 });
    v.push(InstructionEntry { key: InstructionKey { mnemonic: Mnemonic::BCS, address_mode: AddressMode::Relative }, opcode: 0xb0 });
    v.push(InstructionEntry { key: InstructionKey { mnemonic: Mnemonic::BEQ, address_mode: AddressMode::Relative }, opcode: 0xf0 });
    v.push(InstructionEntry { key: InstructionKey { mnemonic: Mnemonic::BIT, address_mode: AddressMode::Absolute }, opcode: 0x2c });
    v.push(InstructionEntry { key: InstructionKey { mnemonic: Mnemonic::BIT, address_mode: AddressMode::Zeropage }, opcode: 0x24 });
    v.push(InstructionEntry { key: InstructionKey { mnemonic: Mnemonic::BMI, address_mode: AddressMode::Relative }, opcode: 0x30 });
    v.push(InstructionEntry { key: InstructionKey { mnemonic: Mnemonic::BNE, address_mode: AddressMode::Relative }, opcode: 0xd0 });
    v.push(InstructionEntry { key: InstructionKey { mnemonic: Mnemonic::BPL, address_mode: AddressMode::Relative }, opcode: 0x10 });
    v.push(InstructionEntry { key: InstructionKey { mnemonic: Mnemonic::BRA, address_mode: AddressMode::Relative }, opcode: 0x80 });
    v.push(InstructionEntry { key: InstructionKey { mnemonic: Mnemonic::BRK, address_mode: AddressMode::Implied }, opcode: 0x00 });
    v.push(InstructionEntry { key: InstructionKey { mnemonic: Mnemonic::BVC, address_mode: AddressMode::Relative }, opcode: 0x50 });
    v.push(InstructionEntry { key: InstructionKey { mnemonic: Mnemonic::BVS, address_mode: AddressMode::Relative }, opcode: 0x70 });
    proof {
        assert(v@ =~= old(v)@ + spec_rows_bbr0_bvs());
    }
}

fn table_rows_clc_cpy(v: &mut Vec<InstructionEntry>)
    ensures
        final(v)@ == old(v)@ + spec_rows_clc_cpy(),
{
    v.push(InstructionEntry { key: InstructionKey { mnemonic: Mnemonic::CLC, address_mode: AddressMode::Implied }, opcode: 0x18 });
    v.push(InstructionEntry { key: InstructionKey { mnemonic: Mnemonic::CLD, address_mode: AddressMode::Implied }, opcode: 0xd8 });
    v.push(InstructionEntry { key: InstructionKey { mnemonic: Mnemonic::CLI, address_mode: AddressMode::Implied }, opcode: 0x58 });
    v.push(InstructionEntry { key: InstructionKey { mnemonic: Mnemonic::CLV, address_mode: AddressMode::Implied }, opcode: 0xb8 });
    v.push(InstructionEntry { key: InstructionKey { mnemonic: Mnemonic::CMP, address_mode: AddressMode::Immediate }, opcode: 0xc9 });
    v.push(InstructionEntry { key: InstructionKey { mnemonic: Mnemonic::CMP, address_mode: AddressMode::Zeropage }, opcode: 0xc5 });
    v.push(InstructionEntry { key: InstructionKey { mnemonic: Mnemonic::CMP, address_mode: AddressMode::ZeropageX }, opcode: 0xd5 });
    v.push(InstructionEntry { key: InstructionKey { mnemonic: Mnemonic::CMP, address_mode: AddressMode::Absolute }, opcode: 0xcd });
    v.push(InstructionEntry { key: InstructionKey { mnemonic: Mnemonic::CMP, address_mode: AddressMode::AbsoluteX }, opcode: 0xdd });
    v.push(InstructionEntry { key: InstructionKey { mnemonic: Mnemonic::CMP, address_mode: AddressMode::AbsoluteY }, opcode: 0xd9 });
    v.push(InstructionEntry { key: InstructionKey { mnemonic: Mnemonic::CMP, address_mode: AddressMode::IndirectX }, opcode: 0xc1 });
    v.push(InstructionEntry { key: InstructionKey { mnemonic: Mnemonic::CMP, address_mode: AddressMode::IndirectY }, opcode: 0xd1 });
    v.push(InstructionEntry { key: InstructionKey { mnemonic: Mnemonic::CPX, address_mode: AddressMode::Implied }, opcode: 0xe0 });
    v.push(InstructionEntry { key: InstructionKey { mnemonic: Mnemonic::CPX, address_mode: AddressMode::Zeropage }, opcode: 0xe4 });
    v.push(InstructionEntry { key: InstructionKey { mnemonic: Mnemonic::CPX, address_mode: AddressMode::Absolute }, opcode: 0xec });
    v.push(InstructionEntry { key: InstructionKey { mnemonic: Mnemonic::CPY, address_mode: AddressMode::Implied }, opcode: 0xc0 });
    v.push(InstructionEntry { key: InstructionKey { mnemonic: Mnemonic::CPY, address_mode: AddressMode::Zeropage }, opcode: 0xc4 });
    v.push(InstructionEntry { key: InstructionKey { mnemonic: Mnemonic::CPY, address_mode: AddressMode::Absolute }, opcode: 0xcc });
    proof {
        assert(v@ =~= old(v)@ + spec_rows_clc_cpy());
    }
}

fn table_rows_dec_iny(v: &mut Vec<InstructionEntry>)
    ensures
        final(v)@ == old(v)@ + spec_rows_dec_iny(),
{
    v.push(InstructionEntry { key: InstructionKey { mnemonic: Mnemonic::DEC, address_mode: AddressMode::Zeropage }, opcode: 0xc6 });
    v.push(InstructionEntry { key: InstructionKey { mnemonic: Mnemonic::DEC, address_mode: AddressMode::ZeropageX }, opcode: 0xd6 });
    v.push(InstructionEntry { key: InstructionKey { mnemonic: Mnemonic::DEC, address_mode: AddressMode::Absolute }, opcode: 0xce });
    v.push(InstructionEntry { key: InstructionKey { mnemonic: Mnemonic::DEC, address_mode: AddressMode::AbsoluteX }, opcode: 0xde });
    v.push(InstructionEntry { key: InstructionKey { mnemonic: Mnemonic::DEX, address_mode: AddressMode::Implied }, opcode: 0xca });
    v.push(InstructionEntry { key: InstructionKey { mnemonic: Mnemonic::DEY, address_mode: AddressMode::Implied }, opcode: 0x88 });
    v.push(InstructionEntry { key: InstructionKey { mnemonic: Mnemonic::EOR, address_mode: AddressMode::Immediate }, opcode: 0x49 });
    v.push(InstructionEntry { key: InstructionKey { mnemonic: Mnemonic::EOR, address_mode: AddressMode::Zeropage }, opcode: 0x45 });
    v.push(InstructionEntry { key: InstructionKey { mnemonic: Mnemonic::EOR, address_mode: AddressMode::ZeropageX }, opcode: 0x45 });
    v.push(InstructionEntry { key: InstructionKey { mnemonic: Mnemonic::EOR, address_mode: AddressMode::Absolute }, opcode: 0x4d });
    v.push(InstructionEntry { key: InstructionKey { mnemonic: Mnemonic::EOR, address_mode: AddressMode::AbsoluteX }, opcode: 0x5d });
    v.push(InstructionEntry { key: InstructionKey { mnemonic: Mnemonic::EOR, address_mode: AddressMode::AbsoluteY }, opcode: 0x59 });
    v.push(InstructionEntry { key: InstructionKey { mnemonic: Mnemonic::EOR, address_mode: AddressMode::IndirectX }, opcode: 0x41 });
    v.push(InstructionEntry { key: InstructionKey { mnemonic: Mnemonic::EOR, address_mode: AddressMode::IndirectY }, opcode: 0x51 });
    v.push(InstructionEntry { key: InstructionKey { mnemonic: Mnemonic::INC, address_mode: AddressMode::Implied }, opcode: 0x1a });
    v.push(InstructionEntry { key: InstructionKey { mnemonic: Mnemonic::INC, address_mode: AddressMode::Zeropage }, opcode: 0xe6 });
    v.push(InstructionEntry { key: InstructionKey { mnemonic: Mnemonic::INC, address_mode: AddressMode::ZeropageX }, opcode: 0xf6 });
    v.push(InstructionEntry { key: InstructionKey { mnemonic: Mnemonic::INC, address_mode: AddressMode::Absolute }, opcode: 0xee });
    v.push(InstructionEntry { key: InstructionKey { mnemonic: Mnemonic::INC, address_mode: AddressMode::AbsoluteX }, opcode: 0xfe });
    v.push(InstructionEntry { key: InstructionKey { mnemonic: Mnemonic::INX, address_mode: AddressMode::Implied }, opcode: 0xe8 });
    v.push(InstructionEntry { key: InstructionKey { mnemonic: Mnemonic::INY, address_mode: AddressMode::Implied }, opcode: 0xc8 });
    proof {
        assert(v@ =~= old(v)@ + spec_rows_dec_iny());
    }
}

fn table_rows_jmp_lsr(v: &mut Vec<InstructionEntry>)
    ensures
        final(v)@ == old(v)@ + spec_rows_jmp_lsr(),
{
    v.push(InstructionEntry { key: InstructionKey { mnemonic: Mnemonic::JMP, address_mode: AddressMode::Absolute }, opcode: 0x4c });
    v.push(InstructionEntry { key: InstructionKey { mnemonic: Mnemonic::JMP, address_mode: AddressMode::Indirect }, opcode: 0x6c });
    v.push(InstructionEntry { key: InstructionKey { mnemonic: Mnemonic::JSR, address_mode: AddressMode::Absolute }, opcode: 0x20 });
    v.push(InstructionEntry { key: InstructionKey { mnemonic: Mnemonic::LDA, address_mode: AddressMode::Immediate }, opcode: 0xa9 });
    v.push(InstructionEntry { key: InstructionKey { mnemonic: Mnemonic::LDA, address_mode: AddressMode::Zeropage }, opcode: 0xa5 });
    v.push(InstructionEntry { key: InstructionKey { mnemonic: Mnemonic::LDA, address_mode: AddressMode::ZeropageX }, opcode: 0xb5 });
    v.push(InstructionEntry { key: InstructionKey { mnemonic: Mnemonic::LDA, address_mode: AddressMode::Absolute }, opcode: 0xad });
    v.push(InstructionEntry { key: InstructionKey { mnemonic: Mnemonic::LDA, address_mode: AddressMode::AbsoluteX }, opcode: 0xbd });
    v.push(InstructionEntry { key: InstructionKey { mnemonic: Mnemonic::LDA, address_mode: AddressMode::AbsoluteY }, opcode: 0xb9 });
    v.push(InstructionEntry { key: InstructionKey { mnemonic: Mnemonic::LDA, address_mode: AddressMode::IndirectX }, opcode: 0xa1 });
    v.push(InstructionEntry { key: InstructionKey { mnemonic: Mnemonic::LDA, address_mode: AddressMode::IndirectY }, opcode: 0xb1 });
    v.push(InstructionEntry { key: InstructionKey { mnemonic: Mnemonic::LDX, address_mode: AddressMode::Immediate }, opcode: 0xa2 });
    v.push(InstructionEntry { key: InstructionKey { mnemonic: Mnemonic::LDX, address_mode: AddressMode::Zeropage }, opcode: 0xa6 });
    v.push(InstructionEntry { key: InstructionKey { mnemonic: Mnemonic::LDX, address_mode: AddressMode::ZeropageX }, opcode: 0xb6 });
    v.push(InstructionEntry { key: InstructionKey { mnemonic: Mnemonic::LDX, address_mode: AddressMode::Absolute }, opcode: 0xae });
    v.push(InstructionEntry { key: InstructionKey { mnemonic: Mnemonic::LDX, address_mode: AddressMode::AbsoluteX }, opcode: 0xbe });
    v.push(InstructionEntry { key: InstructionKey { mnemonic: Mnemonic::LDY, address_mode: AddressMode::Immediate }, opcode: 0xa0 });
    v.push(InstructionEntry { key: InstructionKey { mnemonic: Mnemonic::LDY, address_mode: AddressMode::Zeropage }, opcode: 0xa4 });
    v.push(InstructionEntry { key: InstructionKey { mnemonic: Mnemonic::LDY, address_mode: AddressMode::ZeropageX }, opcode: 0xb4 });
    v.push(InstructionEntry { key: InstructionKey { mnemonic: Mnemonic::LDY, address_mode: AddressMode::Absolute }, opcode: 0xac });
    v.push(InstructionEntry { key: InstructionKey { mnemonic: Mnemonic::LDY, address_mode: AddressMode::AbsoluteX }, opcode: 0xbc });
    v.push(InstructionEntry { key: InstructionKey { mnemonic: Mnemonic::LSR, address_mode: AddressMode::Immediate }, opcode: 0x4a });
    v.push(InstructionEntry { key: InstructionKey { mnemonic: Mnemonic::LSR, address_mode: AddressMode::Zeropage }, opcode: 0x46 });
    v.push(InstructionEntry { key: InstructionKey { mnemonic: Mnemonic::LSR, address_mode: AddressMode::ZeropageX }, opcode: 0x56 });
    v.push(InstructionEntry { key: InstructionKey { mnemonic: Mnemonic::LSR, address_mode: AddressMode::Absolute }, opcode: 0x4e });
    v.push(InstructionEntry { key: InstructionKey { mnemonic: Mnemonic::LSR, address_mode: AddressMode::AbsoluteX }, opcode: 0x5e });
    proof {
        assert(v@ =~= old(v)@ + spec_rows_jmp_lsr());
    }
}

fn table_rows_nop_rol(v: &mut Vec<InstructionEntry>)
    ensures
        final(v)@ == old(v)@ + spec_rows_nop_rol(),
{
    v.push(InstructionEntry { key: InstructionKey { mnemonic: Mnemonic::NOP, address_mode: AddressMode::Implied }, opcode: 0xea });
    v.push(InstructionEntry { key: InstructionKey { mnemonic: Mnemonic::ORA, address_mode: AddressMode::Immediate }, opcode: 0x09 });
    v.push(InstructionEntry { key: InstructionKey { mnemonic: Mnemonic::ORA, address_mode: AddressMode::Zeropage }, opcode: 0x05 });
    v.push(InstructionEntry { key: InstructionKey { mnemonic: Mnemonic::ORA, address_mode: AddressMode::ZeropageX }, opcode: 0x15 });
    v.push(InstructionEntry { key: InstructionKey { mnemonic: Mnemonic::ORA, address_mode: AddressMode::Absolute }, opcode: 0x0d });
    v.push(InstructionEntry { key: InstructionKey { mnemonic: Mnemonic::ORA, address_mode: AddressMode::AbsoluteX }, opcode: 0x1d });
    v.push(InstructionEntry { key: InstructionKey { mnemonic: Mnemonic::ORA, address_mode: AddressMode::AbsoluteY }, opcode: 0x19 });
    v.push(InstructionEntry { key: InstructionKey { mnemonic: Mnemonic::ORA, address_mode: AddressMode::IndirectX }, opcode: 0x01 });
    v.push(InstructionEntry { key: InstructionKey { mnemonic: Mnemonic::ORA, address_mode: AddressMode::IndirectY }, opcode: 0x11 });
    v.push(InstructionEntry { key: InstructionKey { mnemonic: Mnemonic::PHA, address_mode: AddressMode::Implied }, opcode: 0x48 });
    v.push(InstructionEntry { key: InstructionKey { mnemonic: Mnemonic::PHP, address_mode: AddressMode::Implied }, opcode: 0x08 });
    v.push(InstructionEntry { key: InstructionKey { mnemonic: Mnemonic::PHX, address_mode: AddressMode::Implied }, opcode: 0xda });
    v.push(InstructionEntry { key: InstructionKey { mnemonic: Mnemonic::PHY, address_mode: AddressMode::Implied }, opcode: 0x5a });
    v.push(InstructionEntry { key: InstructionKey { mnemonic: Mnemonic::PLA, address_mode: AddressMode::Implied }, opcode: 0x68 });
    v.push(InstructionEntry { key: InstructionKey { mnemonic: Mnemonic::PLP, address_mode: AddressMode::Implied }, opcode: 0x28 });
    v.push(InstructionEntry { key: InstructionKey { mnemonic: Mnemonic::PLX, address_mode: AddressMode::Relative }, opcode: 0xfa });
    v.push(InstructionEntry { key: InstructionKey { mnemonic: Mnemonic::PLY, address_mode: AddressMode::Relative }, opcode: 0x7a });
    v.push(InstructionEntry { key: InstructionKey { mnemonic: Mnemonic::RMB0, address_mode: AddressMode::Zeropage }, opcode: 0x07 });
    v.push(InstructionEntry { key: InstructionKey { mnemonic: Mnemonic::RMB1, address_mode: AddressMode::Zeropage }, opcode: 0x17 });
    v.push(InstructionEntry { key: InstructionKey { mnemonic: Mnemonic::RMB2, address_mode: AddressMode::Zeropage }, opcode: 0x27 });
    v.push(InstructionEntry { key: InstructionKey { mnemonic: Mnemonic::RMB3, address_mode: AddressMode::Zeropage }, opcode: 0x37 });
    v.push(InstructionEntry { key: InstructionKey { mnemonic: Mnemonic::RMB4, address_mode: AddressMode::Zeropage }, opcode: 0x47 });
    v.push(InstructionEntry { key: InstructionKey { mnemonic: Mnemonic::RMB5, address_mode: AddressMode::Zeropage }, opcode: 0x57 });
    v.push(InstructionEntry { key: InstructionKey { mnemonic: Mnemonic::RMB6, address_mode: AddressMode::Zeropage }, opcode: 0x67 });
    v.push(InstructionEntry { key: InstructionKey { mnemonic: Mnemonic::RMB7, address_mode: AddressMode::Zeropage }, opcode: 0x77 });
    v.push(InstructionEntry { key: InstructionKey { mnemonic: Mnemonic::ROL, address_mode: AddressMode::Implied }, opcode: 0x2a });
    v.push(InstructionEntry { key: InstructionKey { mnemonic: Mnemonic::ROL, address_mode: AddressMode::Zeropage }, opcode: 0x26 });
    v.push(InstructionEntry { key: InstructionKey { mnemonic: Mnemonic::ROL, address_mode: AddressMode::ZeropageX }, opcode: 0x36 });
    proof {
        assert(v@ =~= old(v)@ + spec_rows_nop_rol());
    }
}

fn table_rows_rol_smb7(v: &mut Vec<InstructionEntry>)
    ensures
        final(v)@ == old(v)@ + spec_rows_rol_smb7(),
{
    v.push(InstructionEntry { key: InstructionKey { mnemonic: Mnemonic::ROL, address_mode: AddressMode::Absolute }, opcode: 0x2e });
    v.push(InstructionEntry { key: InstructionKey { mnemonic: Mnemonic::ROL, address_mode: AddressMode::AbsoluteX }, opcode: 0x3e });
    v.push(InstructionEntry { key: InstructionKey { mnemonic: Mnemonic::ROR, address_mode: AddressMode::Implied }, opcode: 0x6a });
    v.push(InstructionEntry { key: InstructionKey { mnemonic: Mnemonic::ROR, address_mode: AddressMode::Zeropage }, opcode: 0x66 });
    v.push(InstructionEntry { key: InstructionKey { mnemonic: Mnemonic::ROR, address_mode: AddressMode::ZeropageX }, opcode: 0x76 });
    v.push(InstructionEntry { key: InstructionKey { mnemonic: Mnemonic::ROR, address_mode: AddressMode::Absolute }, opcode: 0x6e });
    v.push(InstructionEntry { key: InstructionKey { mnemonic: Mnemonic::ROR, address_mode: AddressMode::AbsoluteX }, opcode: 0x7e });
    v.push(InstructionEntry { key: InstructionKey { mnemonic: Mnemonic::RTI, address_mode: AddressMode::Implied }, opcode: 0x40 });
    v.push(InstructionEntry { key: InstructionKey { mnemonic: Mnemonic::RTS, address_mode: AddressMode::Implied }, opcode: 0x60 });
    v.push(InstructionEntry { key: InstructionKey { mnemonic: Mnemonic::SBC, address_mode: AddressMode::Immediate }, opcode: 0xe9 });
    v.push(InstructionEntry { key: InstructionKey { mnemonic: Mnemonic::SBC, address_mode: AddressMode::Zeropage }, opcode: 0xe5 });
    v.push(InstructionEntry { key: InstructionKey { mnemonic: Mnemonic::SBC, address_mode: AddressMode::ZeropageX }, opcode: 0xf5 });
    v.push(InstructionEntry { key: InstructionKey { mnemonic: Mnemonic::SBC, address_mode: AddressMode::Absolute }, opcode: 0xed });
    v.push(InstructionEntry { key: InstructionKey { mnemonic: Mnemonic::SBC, address_mode: AddressMode::AbsoluteX }, opcode: 0xfd });
    v.push(InstructionEntry { key: InstructionKey { mnemonic: Mnemonic::SBC, address_mode: AddressMode::AbsoluteY }, opcode: 0xf9 });
    v.push(InstructionEntry { key: InstructionKey { mnemonic: Mnemonic::SBC, address_mode: AddressMode::IndirectX }, opcode: 0xe1 });
    v.push(InstructionEntry { key: InstructionKey { mnemonic: Mnemonic::SBC, address_mode: AddressMode::IndirectY }, opcode: 0xf1 });
    v.push(InstructionEntry { key: InstructionKey { mnemonic: Mnemonic::SEC, address_mode: AddressMode::Implied }, opcode: 0x38 });
    v.push(InstructionEntry { key: InstructionKey { mnemonic: Mnemonic::SED, address_mode: AddressMode::Implied }, opcode: 0xf8 });
    v.push(InstructionEntry { key: InstructionKey { mnemonic: Mnemonic::SEI, address_mode: AddressMode::Implied }, opcode: 0x78 });
    v.push(InstructionEntry { key: InstructionKey { mnemonic: Mnemonic::SMB0, address_mode: AddressMode::Zeropage }, opcode: 0x87 });
    v.push(InstructionEntry { key: InstructionKey { mnemonic: Mnemonic::SMB1, address_mode: AddressMode::Zeropage }, opcode: 0x97 });
    v.push(InstructionEntry { key: InstructionKey { mnemonic: Mnemonic::SMB2, address_mode: AddressMode::Zeropage }, opcode: 0xa7 });
    v.push(InstructionEntry { key: InstructionKey { mnemonic: Mnemonic::SMB3, address_mode: AddressMode::Zeropage }, opcode: 0xb7 });
    v.push(InstructionEntry { key: InstructionKey { mnemonic: Mnemonic::SMB4, address_mode: AddressMode::Zeropage }, opcode: 0xc7 });
    v.push(InstructionEntry { key: InstructionKey { mnemonic: Mnemonic::SMB5, address_mode: AddressMode::Zeropage }, opcode: 0xd7 });
    v.push(InstructionEntry { key: InstructionKey { mnemonic: Mnemonic::SMB6, address_mode: AddressMode::Zeropage }, opcode: 0xe7 });
    v.push(InstructionEntry { key: InstructionKey { mnemonic: Mnemonic::SMB7, address_mode: AddressMode::Zeropage }, opcode: 0xf7 });
    proof {
        assert(v@ =~= old(v)@ + spec_rows_rol_smb7());
    }
}

fn table_rows_sta_wai(v: &mut Vec<InstructionEntry>)
    ensures
        final(v)@ == old(v)@ + spec_rows_sta_wai(),
{
    v.push(InstructionEntry { key: InstructionKey { mnemonic: Mnemonic::STA, address_mode: AddressMode::Zeropage }, opcode: 0x85 });
    v.push(InstructionEntry { key: InstructionKey { mnemonic: Mnemonic::STA, address_mode: AddressMode::ZeropageX }, opcode: 0x95 });
    v.push(InstructionEntry { key: InstructionKey { mnemonic: Mnemonic::STA, address_mode: AddressMode::Absolute }, opcode: 0x8d });
    v.push(InstructionEntry { key: InstructionKey { mnemonic: Mnemonic::STA, address_mode: AddressMode::AbsoluteX }, opcode: 0x9d });
    v.push(InstructionEntry { key: InstructionKey { mnemonic: Mnemonic::STA, address_mode: AddressMode::AbsoluteY }, opcode: 0x99 });
    v.push(InstructionEntry { key: InstructionKey { mnemonic: Mnemonic::STA, address_mode: AddressMode::IndirectX }, opcode: 0x81 });
    v.push(InstructionEntry { key: InstructionKey { mnemonic: Mnemonic::STA, address_mode: AddressMode::IndirectY }, opcode: 0x91 });
    v.push(InstructionEntry { key: InstructionKey { mnemonic: Mnemonic::STP, address_mode: AddressMode::Implied }, opcode: 0xdb });
    v.push(InstructionEntry { key: InstructionKey { mnemonic: Mnemonic::STX, address_mode: AddressMode::Zeropage }, opcode: 0x85 });
    v.push(InstructionEntry { key: InstructionKey { mnemonic: Mnemonic::STX, address_mode: AddressMode::ZeropageY }, opcode: 0x95 });
    v.push(InstructionEntry { key: InstructionKey { mnemonic: Mnemonic::STX, address_mode: AddressMode::Absolute }, opcode: 0x8d });
    v.push(InstructionEntry { key: InstructionKey { mnemonic: Mnemonic::STY, address_mode: AddressMode::Zeropage }, opcode: 0x85 });
    v.push(InstructionEntry { key: InstructionKey { mnemonic: Mnemonic::STY, address_mode: AddressMode::ZeropageX }, opcode: 0x95 });
    v.push(InstructionEntry { key: InstructionKey { mnemonic: Mnemonic::STY, address_mode: AddressMode::Absolute }, opcode: 0x8d });
    v.push(InstructionEntry { key: InstructionKey { mnemonic: Mnemonic::STZ, address_mode: AddressMode::Zeropage }, opcode: 0x64 });
    v.push(InstructionEntry { key: InstructionKey { mnemonic: Mnemonic::STZ, address_mode: AddressMode::ZeropageX }, opcode: 0x94 });
    v.push(InstructionEntry { key: InstructionKey { mnemonic: Mnemonic::STZ, address_mode: AddressMode::Absolute }, opcode: 0x9c });
    v.push(InstructionEntry { key: InstructionKey { mnemonic: Mnemonic::TAX, address_mode: AddressMode::Implied }, opcode: 0xaa });
    v.push(InstructionEntry { key: InstructionKey { mnemonic: Mnemonic::TAY, address_mode: AddressMode::Implied }, opcode: 0xa8 });
    v.push(InstructionEntry { key: InstructionKey { mnemonic: Mnemonic::TRB, address_mode: AddressMode::Absolute }, opcode: 0x1c });
    v.push(InstructionEntry { key: InstructionKey { mnemonic: Mnemonic::TRB, address_mode: AddressMode::Zeropage }, opcode: 0x14 });
    v.push(InstructionEntry { key: InstructionKey { mnemonic: Mnemonic::TSB, address_mode: AddressMode::Absolute }, opcode: 0x0c });
    v.push(InstructionEntry { key: InstructionKey { mnemonic: Mnemonic::TSB, address_mode: AddressMode::Zeropage }, opcode: 0x04 });
    v.push(InstructionEntry { key: InstructionKey { mnemonic: Mnemonic::TSX, address_mode: AddressMode::Implied }, opcode: 0xba });
    v.push(InstructionEntry { key: InstructionKey { mnemonic: Mnemonic::TXA, address_mode: AddressMode::Implied }, opcode: 0x8a });
    v.push(InstructionEntry { key: InstructionKey { mnemonic: Mnemonic::TXS, address_mode: AddressMode::Implied }, opcode: 0x9a });
    v.push(InstructionEntry { key: InstructionKey { mnemonic: Mnemonic::TYA, address_mode: AddressMode::Implied }, opcode: 0x98 });
    v.push(InstructionEntry { key: InstructionKey { mnemonic: Mnemonic::WAI, address_mode: AddressMode::Relative }, opcode: 0xcb });
    proof {
        assert(v@ =~= old(v)@ + spec_rows_sta_wai());
    }
}

/// Builds the full instruction set, one row per legal encoding.
pub fn generate_instruction_set() -> (r: InstructionMap)
    ensures
        r@ == spec_instruction_table(),
{
    let mut v: Vec<InstructionEntry> = Vec::new();
    table_rows_adc_asl(&mut v);
    table_rows_bbr0_bvs(&mut v);
    table_rows_clc_cpy(&mut v);
    table_rows_dec_iny(&mut v);
    table_rows_jmp_lsr(&mut v);
    table_rows_nop_rol(&mut v);
    table_rows_rol_smb7(&mut v);
    table_rows_sta_wai(&mut v);
    proof {
        assert(v@ =~= spec_instruction_table());
    }
    InstructionMap { entries: v }
}
/// An operand value as pass 1 records it: a literal byte or word, a not
/// yet resolved symbol name, or nothing.
#[derive(PartialEq, Eq, Debug)]
pub enum Value {
    String(Vec<u8>),
    U8(u8),
    U16(u16),
    Null,
}

/// Mathematical image of an operand value.
pub enum ValueSpec {
    Name(Seq<u8>),
    U8(u8),
    U16(u16),
    Null,
}

impl View for Value {
    type V = ValueSpec;

    open spec fn view(&self) -> ValueSpec {
        match self {
            Value::String(name) => ValueSpec::Name(name@),
            Value::U8(v) => ValueSpec::U8(*v),
            Value::U16(v) => ValueSpec::U16(*v),
            Value::Null => ValueSpec::Null,
        }
    }
}

/// The mnemonic a three-byte lowercase keyword names.
pub open spec fn spec_mnemonic3(a: u8, b: u8, c: u8) -> Option<Mnemonic> {
    if a == 0x61 && b == 0x64 && c == 0x63 {  // adc
        Some(Mnemonic::ADC)
    } else if a == 0x61 && b == 0x6e && c == 0x64 {  // and
        Some(Mnemonic::AND)
    } else if a == 0x61 && b == 0x73 && c == 0x6c {  // asl
        Some(Mnemonic::ASL)
    } else if a == 0x62 && b == 0x63 && c == 0x63 {  // bcc
        Some(Mnemonic::BCC)
    } else if a == 0x62 && b == 0x63 && c == 0x73 {  // bcs
        Some(Mnemonic::BCS)
    } else if a == 0x62 && b == 0x65 && c == 0x71 {  // beq
        Some(Mnemonic::BEQ)
    } else if a == 0x62 && b == 0x69 && c == 0x74 {  // bit
        Some(Mnemonic::BIT)
    } else if a == 0x62 && b == 0x6d && c == 0x69 {  // bmi
        Some(Mnemonic::BMI)
    } else if a == 0x62 && b == 0x6e && c == 0x65 {  // bne
        Some(Mnemonic::BNE)
    } else if a == 0x62 && b == 0x70 && c == 0x6c {  // bpl
        Some(Mnemonic::BPL)
    } else if a == 0x62 && b == 0x72 && c == 0x61 {  // bra
        Some(Mnemonic::BRA)
    } else if a == 0x62 && b == 0x72 && c == 0x6b {  // brk
        Some(Mnemonic::BRK)
    } else if a == 0x62 && b == 0x76 && c == 0x63 {  // bvc
        Some(Mnemonic::BVC)
    } else if a == 0x62 && b == 0x76 && c == 0x73 {  // bvs
        Some(Mnemonic::BVS)
    } else if a == 0x63 && b == 0x6c && c == 0x63 {  // clc
        Some(Mnemonic::CLC)
    } else if a == 0x63 && b == 0x6c && c == 0x64 {  // cld
        Some(Mnemonic::CLD)
    } else if a == 0x63 && b == 0x6c && c == 0x69 {  // cli
        Some(Mnemonic::CLI)
    } else if a == 0x63 && b == 0x6c && c == 0x76 {  // clv
        Some(Mnemonic::CLV)
    } else if a == 0x63 && b == 0x6d && c == 0x70 {  // cmp
        Some(Mnemonic::CMP)
    } else if a == 0x63 && b == 0x70 && c == 0x78 {  // cpx
        Some(Mnemonic::CPX)
    } else if a == 0x63 && b == 0x70 && c == 0x79 {  // cpy
        Some(Mnemonic::CPY)
    } else if a == 0x64 && b == 0x65 && c == 0x63 {  // dec
        Some(Mnemonic::DEC)
    } else if a == 0x64 && b == 0x65 && c == 0x78 {  // dex
        Some(Mnemonic::DEX)
    } else if a == 0x64 && b == 0x65 && c == 0x79 {  // dey
        Some(Mnemonic::DEY)
    } else if a == 0x65 && b == 0x6f && c == 0x72 {  // eor
        Some(Mnemonic::EOR)
    } else if a == 0x69 && b == 0x6e && c == 0x63 {  // inc
        Some(Mnemonic::INC)
    } else if a == 0x69 && b == 0x6e && c == 0x78 {  // inx
        Some(Mnemonic::INX)
    } else if a == 0x69 && b == 0x6e && c == 0x79 {  // iny
        Some(Mnemonic::INY)
    } else if a == 0x6a && b == 0x6d && c == 0x70 {  // jmp
        Some(Mnemonic::JMP)
    } else if a == 0x6a && b == 0x73 && c == 0x72 {  // jsr
        Some(Mnemonic::JSR)
    } else if a == 0x6c && b == 0x64 && c == 0x61 {  // lda
        Some(Mnemonic::LDA)
    } else if a == 0x6c && b == 0x64 && c == 0x78 {  // ldx
        Some(Mnemonic::LDX)
    } else if a == 0x6c && b == 0x64 && c == 0x79 {  // ldy
        Some(Mnemonic::LDY)
    } else if a == 0x6c && b == 0x73 && c == 0x72 {  // lsr
        Some(Mnemonic::LSR)
    } else if a == 0x6e && b == 0x6f && c == 0x70 {  // nop
        Some(Mnemonic::NOP)
    } else if a == 0x6f && b == 0x72 && c == 0x61 {  // ora
        Some(Mnemonic::ORA)
    } else if a == 0x70 && b == 0x68 && c == 0x61 {  // pha
        Some(Mnemonic::PHA)
    } else if a == 0x70 && b == 0x68 && c == 0x70 {  // php
        Some(Mnemonic::PHP)
    } else if a == 0x70 && b == 0x68 && c == 0x78 {  // phx
        Some(Mnemonic::PHX)
    } else if a == 0x70 && b == 0x68 && c == 0x79 {  // phy
        Some(Mnemonic::PHY)
    } else if a == 0x70 && b == 0x6c && c == 0x61 {  // pla
        Some(Mnemonic::PLA)
    } else if a == 0x70 && b == 0x6c && c == 0x70 {  // plp
        Some(Mnemonic::PLP)
    } else if a == 0x70 && b == 0x6c && c == 0x78 {  // plx
        Some(Mnemonic::PLX)
    } else if a == 0x70 && b == 0x6c && c == 0x79 {  // ply
        Some(Mnemonic::PLY)
    } else if a == 0x72 && b == 0x6f && c == 0x6c {  // rol
        Some(Mnemonic::ROL)
    } else if a == 0x72 && b == 0x6f && c == 0x72 {  // ror
        Some(Mnemonic::ROR)
    } else if a == 0x72 && b == 0x74 && c == 0x69 {  // rti
        Some(Mnemonic::RTI)
    } else if a == 0x72 && b == 0x74 && c == 0x73 {  // rts
        Some(Mnemonic::RTS)
    } else if a == 0x73 && b == 0x62 && c == 0x63 {  // sbc
        Some(Mnemonic::SBC)
    } else if a == 0x73 && b == 0x65 && c == 0x63 {  // sec
        Some(Mnemonic::SEC)
    } else if a == 0x73 && b == 0x65 && c == 0x64 {  // sed
        Some(Mnemonic::SED)
    } else if a == 0x73 && b == 0x65 && c == 0x69 {  // sei
        Some(Mnemonic::SEI)
    } else if a == 0x73 && b == 0x74 && c == 0x61 {  // sta
        Some(Mnemonic::STA)
    } else if a == 0x73 && b == 0x74 && c == 0x70 {  // stp
        Some(Mnemonic::STP)
    } else if a == 0x73 && b == 0x74 && c == 0x78 {  // stx
        Some(Mnemonic::STX)
    } else if a == 0x73 && b == 0x74 && c == 0x79 {  // sty
        Some(Mnemonic::STY)
    } else if a == 0x73 && b == 0x74 && c == 0x7a {  // stz
        Some(Mnemonic::STZ)
    } else if a == 0x74 && b == 0x61 && c == 0x78 {  // tax
        Some(Mnemonic::TAX)
    } else if a == 0x74 && b == 0x61 && c == 0x79 {  // tay
        Some(Mnemonic::TAY)
    } else if a == 0x74 && b == 0x72 && c == 0x62 {  // trb
        Some(Mnemonic::TRB)
    } else if a == 0x74 && b == 0x73 && c == 0x62 {  // tsb
        Some(Mnemonic::TSB)
    } else if a == 0x74 && b == 0x73 && c == 0x78 {  // tsx
        Some(Mnemonic::TSX)
    } else if a == 0x74 && b == 0x78 && c == 0x61 {  // txa
        Some(Mnemonic::TXA)
    } else if a == 0x74 && b == 0x78 && c == 0x73 {  // txs
        Some(Mnemonic::TXS)
    } else if a == 0x74 && b == 0x79 && c == 0x61 {  // tya
        Some(Mnemonic::TYA)
    } else if a == 0x77 && b == 0x61 && c == 0x69 {  // wai
        Some(Mnemonic::WAI)
    } else {
        None
    }
}

/// The mnemonic a four-byte lowercase keyword names.
pub open spec fn spec_mnemonic4(a: u8, b: u8, c: u8, d: u8) -> Option<Mnemonic> {
    if a == 0x62 && b == 0x62 && c == 0x72 && d == 0x30 {  // bbr0
        Some(Mnemonic::BBR0)
    } else if a == 0x62 && b == 0x62 && c == 0x72 && d == 0x31 {  // bbr1
        Some(Mnemonic::BBR1)
    } else if a == 0x62 && b == 0x62 && c == 0x72 && d == 0x32 {  // bbr2
        Some(Mnemonic::BBR2)
    } else if a == 0x62 && b == 0x62 && c == 0x72 && d == 0x33 {  // bbr3
        Some(Mnemonic::BBR3)
    } else if a == 0x62 && b == 0x62 && c == 0x72 && d == 0x34 {  // bbr4
        Some(Mnemonic::BBR4)
    } else if a == 0x62 && b == 0x62 && c == 0x72 && d == 0x35 {  // bbr5
        Some(Mnemonic::BBR5)
    } else if a == 0x62 && b == 0x62 && c == 0x72 && d == 0x36 {  // bbr6
        Some(Mnemonic::BBR6)
    } else if a == 0x62 && b == 0x62 && c == 0x72 && d == 0x37 {  // bbr7
        Some(Mnemonic::BBR7)
    } else if a == 0x62 && b == 0x62 && c == 0x73 && d == 0x30 {  // bbs0
        Some(Mnemonic::BBS0)
    } else if a == 0x62 && b == 0x62 && c == 0x73 && d == 0x31 {  // bbs1
        Some(Mnemonic::BBS1)
    } else if a == 0x62 && b == 0x62 && c == 0x73 && d == 0x32 {  // bbs2
        Some(Mnemonic::BBS2)
    } else if a == 0x62 && b == 0x62 && c == 0x73 && d == 0x33 {  // bbs3
        Some(Mnemonic::BBS3)
    } else if a == 0x62 && b == 0x62 && c == 0x73 && d == 0x34 {  // bbs4
        Some(Mnemonic::BBS4)
    } else if a == 0x62 && b == 0x62 && c == 0x73 && d == 0x35 {  // bbs5
        Some(Mnemonic::BBS5)
    } else if a == 0x62 && b == 0x62 && c == 0x73 && d == 0x36 {  // bbs6
        Some(Mnemonic::BBS6)
    } else if a == 0x62 && b == 0x62 && c == 0x73 && d == 0x37 {  // bbs7
        Some(Mnemonic::BBS7)
    } else if a == 0x72 && b == 0x6d && c == 0x62 && d == 0x30 {  // rmb0
        Some(Mnemonic::RMB0)
    } else if a == 0x72 && b == 0x6d && c == 0x62 && d == 0x31 {  // rmb1
        Some(Mnemonic::RMB1)
    } else if a == 0x72 && b == 0x6d && c == 0x62 && d == 0x32 {  // rmb2
        Some(Mnemonic::RMB2)
    } else if a == 0x72 && b == 0x6d && c == 0x62 && d == 0x33 {  // rmb3
        Some(Mnemonic::RMB3)
    } else if a == 0x72 && b == 0x6d && c == 0x62 && d == 0x34 {  // rmb4
        Some(Mnemonic::RMB4)
    } else if a == 0x72 && b == 0x6d && c == 0x62 && d == 0x35 {  // rmb5
        Some(Mnemonic::RMB5)
    } else if a == 0x72 && b == 0x6d && c == 0x62 && d == 0x36 {  // rmb6
        Some(Mnemonic::RMB6)
    } else if a == 0x72 && b == 0x6d && c == 0x62 && d == 0x37 {  // rmb7
        Some(Mnemonic::RMB7)
    } else if a == 0x73 && b == 0x6d && c == 0x62 && d == 0x30 {  // smb0
        Some(Mnemonic::SMB0)
    } else if a == 0x73 && b == 0x6d && c == 0x62 && d == 0x31 {  // smb1
        Some(Mnemonic::SMB1)
    } else if a == 0x73 && b == 0x6d && c == 0x62 && d == 0x32 {  // smb2
        Some(Mnemonic::SMB2)
    } else if a == 0x73 && b == 0x6d && c == 0x62 && d == 0x33 {  // smb3
        Some(Mnemonic::SMB3)
    } else if a == 0x73 && b == 0x6d && c == 0x62 && d == 0x34 {  // smb4
        Some(Mnemonic::SMB4)
    } else if a == 0x73 && b == 0x6d && c == 0x62 && d == 0x35 {  // smb5
        Some(Mnemonic::SMB5)
    } else if a == 0x73 && b == 0x6d && c == 0x62 && d == 0x36 {  // smb6
        Some(Mnemonic::SMB6)
    } else if a == 0x73 && b == 0x6d && c == 0x62 && d == 0x37 {  // smb7
        Some(Mnemonic::SMB7)
    } else {
        None
    }
}

/// The mnemonic a lowercase keyword names, a miss for any other text.
pub open spec fn spec_mnemonic(s: Seq<u8>) -> Option<Mnemonic> {
    if s.len() == 3 {
        spec_mnemonic3(s[0], s[1], s[2])
    } else if s.len() == 4 {
        spec_mnemonic4(s[0], s[1], s[2], s[3])
    } else {
        None
    }
}

fn mnemonic3(a: u8, b: u8, c: u8) -> (r: Option<Mnemonic>)
    ensures
        r == spec_mnemonic3(a, b, c),
{
    if a == 0x61 && b == 0x64 && c == 0x63 {  // adc
        Some(Mnemonic::ADC)
    } else if a == 0x61 && b == 0x6e && c == 0x64 {  // and
        Some(Mnemonic::AND)
    } else if a == 0x61 && b == 0x73 && c == 0x6c {  // asl
        Some(Mnemonic::ASL)
    } else if a == 0x62 && b == 0x63 && c == 0x63 {  // bcc
        Some(Mnemonic::BCC)
    } else if a == 0x62 && b == 0x63 && c == 0x73 {  // bcs
        Some(Mnemonic::BCS)
    } else if a == 0x62 && b == 0x65 && c == 0x71 {  // beq
        Some(Mnemonic::BEQ)
    } else if a == 0x62 && b == 0x69 && c == 0x74 {  // bit
        Some(Mnemonic::BIT)
    } else if a == 0x62 && b == 0x6d && c == 0x69 {  // bmi
        Some(Mnemonic::BMI)
    } else if a == 0x62 && b == 0x6e && c == 0x65 {  // bne
        Some(Mnemonic::BNE)
    } else if a == 0x62 && b == 0x70 && c == 0x6c {  // bpl
        Some(Mnemonic::BPL)
    } else if a == 0x62 && b == 0x72 && c == 0x61 {  // bra
        Some(Mnemonic::BRA)
    } else if a == 0x62 && b == 0x72 && c == 0x6b {  // brk
        Some(Mnemonic::BRK)
    } else if a == 0x62 && b == 0x76 && c == 0x63 {  // bvc
        Some(Mnemonic::BVC)
    } else if a == 0x62 && b == 0x76 && c == 0x73 {  // bvs
        Some(Mnemonic::BVS)
    } else if a == 0x63 && b == 0x6c && c == 0x63 {  // clc
        Some(Mnemonic::CLC)
    } else if a == 0x63 && b == 0x6c && c == 0x64 {  // cld
        Some(Mnemonic::CLD)
    } else if a == 0x63 && b == 0x6c && c == 0x69 {  // cli
        Some(Mnemonic::CLI)
    } else if a == 0x63 && b == 0x6c && c == 0x76 {  // clv
        Some(Mnemonic::CLV)
    } else if a == 0x63 && b == 0x6d && c == 0x70 {  // cmp
        Some(Mnemonic::CMP)
    } else if a == 0x63 && b == 0x70 && c == 0x78 {  // cpx
        Some(Mnemonic::CPX)
    } else if a == 0x63 && b == 0x70 && c == 0x79 {  // cpy
        Some(Mnemonic::CPY)
    } else if a == 0x64 && b == 0x65 && c == 0x63 {  // dec
        Some(Mnemonic::DEC)
    } else if a == 0x64 && b == 0x65 && c == 0x78 {  // dex
        Some(Mnemonic::DEX)
    } else if a == 0x64 && b == 0x65 && c == 0x79 {  // dey
        Some(Mnemonic::DEY)
    } else if a == 0x65 && b == 0x6f && c == 0x72 {  // eor
        Some(Mnemonic::EOR)
    } else if a == 0x69 && b == 0x6e && c == 0x63 {  // inc
        Some(Mnemonic::INC)
    } else if a == 0x69 && b == 0x6e && c == 0x78 {  // inx
        Some(Mnemonic::INX)
    } else if a == 0x69 && b == 0x6e && c == 0x79 {  // iny
        Some(Mnemonic::INY)
    } else if a == 0x6a && b == 0x6d && c == 0x70 {  // jmp
        Some(Mnemonic::JMP)
    } else if a == 0x6a && b == 0x73 && c == 0x72 {  // jsr
        Some(Mnemonic::JSR)
    } else if a == 0x6c && b == 0x64 && c == 0x61 {  // lda
        Some(Mnemonic::LDA)
    } else if a == 0x6c && b == 0x64 && c == 0x78 {  // ldx
        Some(Mnemonic::LDX)
    } else if a == 0x6c && b == 0x64 && c == 0x79 {  // ldy
        Some(Mnemonic::LDY)
    } else if a == 0x6c && b == 0x73 && c == 0x72 {  // lsr
        Some(Mnemonic::LSR)
    } else if a == 0x6e && b == 0x6f && c == 0x70 {  // nop
        Some(Mnemonic::NOP)
    } else if a == 0x6f && b == 0x72 && c == 0x61 {  // ora
        Some(Mnemonic::ORA)
    } else if a == 0x70 && b == 0x68 && c == 0x61 {  // pha
        Some(Mnemonic::PHA)
    } else if a == 0x70 && b == 0x68 && c == 0x70 {  // php
        Some(Mnemonic::PHP)
    } else if a == 0x70 && b == 0x68 && c == 0x78 {  // phx
        Some(Mnemonic::PHX)
    } else if a == 0x70 && b == 0x68 && c == 0x79 {  // phy
        Some(Mnemonic::PHY)
    } else if a == 0x70 && b == 0x6c && c == 0x61 {  // pla
        Some(Mnemonic::PLA)
    } else if a == 0x70 && b == 0x6c && c == 0x70 {  // plp
        Some(Mnemonic::PLP)
    } else if a == 0x70 && b == 0x6c && c == 0x78 {  // plx
        Some(Mnemonic::PLX)
    } else if a == 0x70 && b == 0x6c && c == 0x79 {  // ply
        Some(Mnemonic::PLY)
    } else if a == 0x72 && b == 0x6f && c == 0x6c {  // rol
        Some(Mnemonic::ROL)
    } else if a == 0x72 && b == 0x6f && c == 0x72 {  // ror
        Some(Mnemonic::ROR)
    } else if a == 0x72 && b == 0x74 && c == 0x69 {  // rti
        Some(Mnemonic::RTI)
    } else if a == 0x72 && b == 0x74 && c == 0x73 {  // rts
        Some(Mnemonic::RTS)
    } else if a == 0x73 && b == 0x62 && c == 0x63 {  // sbc
        Some(Mnemonic::SBC)
    } else if a == 0x73 && b == 0x65 && c == 0x63 {  // sec
        Some(Mnemonic::SEC)
    } else if a == 0x73 && b == 0x65 && c == 0x64 {  // sed
        Some(Mnemonic::SED)
    } else if a == 0x73 && b == 0x65 && c == 0x69 {  // sei
        Some(Mnemonic::SEI)
    } else if a == 0x73 && b == 0x74 && c == 0x61 {  // sta
        Some(Mnemonic::STA)
    } else if a == 0x73 && b == 0x74 && c == 0x70 {  // stp
        Some(Mnemonic::STP)
    } else if a == 0x73 && b == 0x74 && c == 0x78 {  // stx
        Some(Mnemonic::STX)
    } else if a == 0x73 && b == 0x74 && c == 0x79 {  // sty
        Some(Mnemonic::STY)
    } else if a == 0x73 && b == 0x74 && c == 0x7a {  // stz
        Some(Mnemonic::STZ)
    } else if a == 0x74 && b == 0x61 && c == 0x78 {  // tax
        Some(Mnemonic::TAX)
    } else if a == 0x74 && b == 0x61 && c == 0x79 {  // tay
        Some(Mnemonic::TAY)
    } else if a == 0x74 && b == 0x72 && c == 0x62 {  // trb
        Some(Mnemonic::TRB)
    } else if a == 0x74 && b == 0x73 && c == 0x62 {  // tsb
        Some(Mnemonic::TSB)
    } else if a == 0x74 && b == 0x73 && c == 0x78 {  // tsx
        Some(Mnemonic::TSX)
    } else if a == 0x74 && b == 0x78 && c == 0x61 {  // txa
        Some(Mnemonic::TXA)
    } else if a == 0x74 && b == 0x78 && c == 0x73 {  // txs
        Some(Mnemonic::TXS)
    } else if a == 0x74 && b == 0x79 && c == 0x61 {  // tya
        Some(Mnemonic::TYA)
    } else if a == 0x77 && b == 0x61 && c == 0x69 {  // wai
        Some(Mnemonic::WAI)
    } else {
        None
    }
}

fn mnemonic4(a: u8, b: u8, c: u8, d: u8) -> (r: Option<Mnemonic>)
    ensures
        r == spec_mnemonic4(a, b, c, d),
{
    if a == 0x62 && b == 0x62 && c == 0x72 && d == 0x30 {  // bbr0
        Some(Mnemonic::BBR0)
    } else if a == 0x62 && b == 0x62 && c == 0x72 && d == 0x31 {  // bbr1
        Some(Mnemonic::BBR1)
    } else if a == 0x62 && b == 0x62 && c == 0x72 && d == 0x32 {  // bbr2
        Some(Mnemonic::BBR2)
    } else if a == 0x62 && b == 0x62 && c == 0x72 && d == 0x33 {  // bbr3
        Some(Mnemonic::BBR3)
    } else if a == 0x62 && b == 0x62 && c == 0x72 && d == 0x34 {  // bbr4
        Some(Mnemonic::BBR4)
    } else if a == 0x62 && b == 0x62 && c == 0x72 && d == 0x35 {  // bbr5
        Some(Mnemonic::BBR5)
    } else if a == 0x62 && b == 0x62 && c == 0x72 && d == 0x36 {  // bbr6
        Some(Mnemonic::BBR6)
    } else if a == 0x62 && b == 0x62 && c == 0x72 && d == 0x37 {  // bbr7
        Some(Mnemonic::BBR7)
    } else if a == 0x62 && b == 0x62 && c == 0x73 && d == 0x30 {  // bbs0
        Some(Mnemonic::BBS0)
    } else if a == 0x62 && b == 0x62 && c == 0x73 && d == 0x31 {  // bbs1
        Some(Mnemonic::BBS1)
    } else if a == 0x62 && b == 0x62 && c == 0x73 && d == 0x32 {  // bbs2
        Some(Mnemonic::BBS2)
    } else if a == 0x62 && b == 0x62 && c == 0x73 && d == 0x33 {  // bbs3
        Some(Mnemonic::BBS3)
    } else if a == 0x62 && b == 0x62 && c == 0x73 && d == 0x34 {  // bbs4
        Some(Mnemonic::BBS4)
    } else if a == 0x62 && b == 0x62 && c == 0x73 && d == 0x35 {  // bbs5
        Some(Mnemonic::BBS5)
    } else if a == 0x62 && b == 0x62 && c == 0x73 && d == 0x36 {  // bbs6
        Some(Mnemonic::BBS6)
    } else if a == 0x62 && b == 0x62 && c == 0x73 && d == 0x37 {  // bbs7
        Some(Mnemonic::BBS7)
    } else if a == 0x72 && b == 0x6d && c == 0x62 && d == 0x30 {  // rmb0
        Some(Mnemonic::RMB0)
    } else if a == 0x72 && b == 0x6d && c == 0x62 && d == 0x31 {  // rmb1
        Some(Mnemonic::RMB1)
    } else if a == 0x72 && b == 0x6d && c == 0x62 && d == 0x32 {  // rmb2
        Some(Mnemonic::RMB2)
    } else if a == 0x72 && b == 0x6d && c == 0x62 && d == 0x33 {  // rmb3
        Some(Mnemonic::RMB3)
    } else if a == 0x72 && b == 0x6d && c == 0x62 && d == 0x34 {  // rmb4
        Some(Mnemonic::RMB4)
    } else if a == 0x72 && b == 0x6d && c == 0x62 && d == 0x35 {  // rmb5
        Some(Mnemonic::RMB5)
    } else if a == 0x72 && b == 0x6d && c == 0x62 && d == 0x36 {  // rmb6
        Some(Mnemonic::RMB6)
    } else if a == 0x72 && b == 0x6d && c == 0x62 && d == 0x37 {  // rmb7
        Some(Mnemonic::RMB7)
    } else if a == 0x73 && b == 0x6d && c == 0x62 && d == 0x30 {  // smb0
        Some(Mnemonic::SMB0)
    } else if a == 0x73 && b == 0x6d && c == 0x62 && d == 0x31 {  // smb1
        Some(Mnemonic::SMB1)
    } else if a == 0x73 && b == 0x6d && c == 0x62 && d == 0x32 {  // smb2
        Some(Mnemonic::SMB2)
    } else if a == 0x73 && b == 0x6d && c == 0x62 && d == 0x33 {  // smb3
        Some(Mnemonic::SMB3)
    } else if a == 0x73 && b == 0x6d && c == 0x62 && d == 0x34 {  // smb4
        Some(Mnemonic::SMB4)
    } else if a == 0x73 && b == 0x6d && c == 0x62 && d == 0x35 {  // smb5
        Some(Mnemonic::SMB5)
    } else if a == 0x73 && b == 0x6d && c == 0x62 && d == 0x36 {  // smb6
        Some(Mnemonic::SMB6)
    } else if a == 0x73 && b == 0x6d && c == 0x62 && d == 0x37 {  // smb7
        Some(Mnemonic::SMB7)
    } else {
        None
    }
}

/// Resolves a lowercase keyword to its mnemonic; any text outside the
/// fixed keyword set is an `UnknownInstruction` error.
pub fn str_to_mnemonic(instruction: &[u8]) -> (r: Result<Mnemonic, Error>)
    ensures
        (match spec_mnemonic(instruction@) {
            Some(m) => r == Ok::<Mnemonic, Error>(m),
            None => r is Err && (r matches Err(e) ==> e.0 == ErrorCode::UnknownInstruction),
        }),
{
    let n = instruction.len();
    if n == 3 {
        match mnemonic3(instruction[0], instruction[1], instruction[2]) {
            Some(m) => {
                return Ok(m);
            },
            None => {},
        }
    } else if n == 4 {
        match mnemonic4(instruction[0], instruction[1], instruction[2], instruction[3]) {
            Some(m) => {
                return Ok(m);
            },
            None => {},
        }
    }
    Err(error(ErrorCode::UnknownInstruction, "Unknown instruction".to_owned()))
}

} // verus!