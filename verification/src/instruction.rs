//! The decode table, the addressing-mode resolver, the execution engine and
//! the interrupt controller.
//!
//! `convert` is the decode table: a pure, total function from each of the 256
//! opcode byte values to a (base cycle count, mnemonic, addressing mode)
//! triple. Byte values with no official or unofficial meaning decode to a
//! one-cycle no-op, so execution never stalls on an unmapped encoding.

use vstd::prelude::*;

use crate::cpu::flag_set;
use crate::cpu::lemma_flag_ops_keep_bit5;
use crate::cpu::pop_spec;
use crate::cpu::push_spec;
use crate::cpu::set_flag;
use crate::cpu::sp_dec;
use crate::cpu::sp_inc;
use crate::cpu::stack_addr;
use crate::cpu::Cpu;
use crate::cpu::FLAG_B;
use crate::cpu::FLAG_C;
use crate::cpu::FLAG_D;
use crate::cpu::FLAG_I;
use crate::cpu::FLAG_N;
use crate::cpu::FLAG_U;
use crate::cpu::FLAG_V;
use crate::cpu::FLAG_Z;
use crate::machine::bus_read;
use crate::machine::bus_write;
use crate::machine::lemma_wram_write_read;
use crate::machine::MachView;
use crate::machine::Machine;
use vstd::arithmetic::div_mod::lemma_add_mod_noop;
use vstd::arithmetic::div_mod::lemma_fundamental_div_mod;
use vstd::arithmetic::div_mod::lemma_mod_add_multiples_vanish;

verus! {

#[derive(Debug)]
pub enum Opcode {
    // transfer
    LDA,
    LDX,
    LDY,
    STA,
    STX,
    STY,
    TAX,
    TAY,
    TSX,
    TXA,
    TXS,
    TYA,
    // calculate
    ADC,
    AND,
    ASL,
    BIT,
    CMP,
    CPX,
    CPY,
    DEC,
    DEX,
    DEY,
    EOR,
    INC,
    INX,
    INY,
    LSR,
    ORA,
    ROL,
    ROR,
    SBC,
    // stack
    PHA,
    PHP,
    PLA,
    PLP,
    // jump
    JMP,
    JSR,
    RTS,
    RTI,
    // branch
    BCC,
    BCS,
    BEQ,
    BMI,
    BNE,
    BPL,
    BVC,
    BVS,
    // flag
    CLC,
    CLD,
    CLI,
    CLV,
    SEC,
    SED,
    SEI,
    // other
    BRK,
    NOP,
    // unofficial read-modify-write combinations
    DCP,
    ISC,
    RLA,
    RRA,
    SLO,
    SRE,
    // unofficial immediate and load/store combinations
    ALR,
    ANC,
    ARR,
    AXS,
    LAX,
    SAX,
    SKB,
    IGN,
}

#[derive(Debug, Copy, Clone, PartialEq)]
pub enum Addressing {
    Implied,
    Accumulator,
    Immediate,
    Zeropage,
    ZeropageX,
    ZeropageY,
    Relative,
    Absolute,
    AbsoluteX,
    AbsoluteY,
    Indirect,
    IndirectX,
    IndirectY,
}

#[derive(Debug)]
pub enum Interrupt {
    RESET,
    NMI,
    IRQ,
    BRK,
}

/// A decoded instruction: base cycle count, mnemonic, addressing mode.
#[derive(Debug)]
pub struct Instruction(pub u8, pub Opcode, pub Addressing);

/// The decode table as a mathematical function: every opcode byte maps to
/// exactly one (base cycle count, mnemonic, addressing mode) triple.
pub open spec fn spec_decode(code: u8) -> Instruction {
    match code {
        // LDA
        0xa9 => Instruction(2, Opcode::LDA, Addressing::Immediate),
        0xa5 => Instruction(3, Opcode::LDA, Addressing::Zeropage),
        0xb5 => Instruction(4, Opcode::LDA, Addressing::ZeropageX),
        0xad => Instruction(4, Opcode::LDA, Addressing::Absolute),
        0xbd => Instruction(4, Opcode::LDA, Addressing::AbsoluteX),
        0xb9 => Instruction(4, Opcode::LDA, Addressing::AbsoluteY),
        0xa1 => Instruction(6, Opcode::LDA, Addressing::IndirectX),
        0xb1 => Instruction(5, Opcode::LDA, Addressing::IndirectY),
        // LDX
        0xa2 => Instruction(2, Opcode::LDX, Addressing::Immediate),
        0xa6 => Instruction(3, Opcode::LDX, Addressing::Zeropage),
        0xb6 => Instruction(4, Opcode::LDX, Addressing::ZeropageY),
        0xae => Instruction(4, Opcode::LDX, Addressing::Absolute),
        0xbe => Instruction(4, Opcode::LDX, Addressing::AbsoluteY),
        // LDY
        0xa0 => Instruction(2, Opcode::LDY, Addressing::Immediate),
        0xa4 => Instruction(3, Opcode::LDY, Addressing::Zeropage),
        0xb4 => Instruction(4, Opcode::LDY, Addressing::ZeropageX),
        0xac => Instruction(4, Opcode::LDY, Addressing::Absolute),
        0xbc => Instruction(4, Opcode::LDY, Addressing::AbsoluteX),
        // STA
        0x85 => Instruction(3, Opcode::STA, Addressing::Zeropage),
        0x95 => Instruction(4, Opcode::STA, Addressing::ZeropageX),
        0x8d => Instruction(4, Opcode::STA, Addressing::Absolute),
        0x9d => Instruction(5, Opcode::STA, Addressing::AbsoluteX),
        0x99 => Instruction(5, Opcode::STA, Addressing::AbsoluteY),
        0x81 => Instruction(6, Opcode::STA, Addressing::IndirectX),
        0x91 => Instruction(6, Opcode::STA, Addressing::IndirectY),
        // STX
        0x86 => Instruction(3, Opcode::STX, Addressing::Zeropage),
        0x96 => Instruction(4, Opcode::STX, Addressing::ZeropageY),
        0x8e => Instruction(4, Opcode::STX, Addressing::Absolute),
        // STY
        0x84 => Instruction(3, Opcode::STY, Addressing::Zeropage),
        0x94 => Instruction(4, Opcode::STY, Addressing::ZeropageX),
        0x8c => Instruction(4, Opcode::STY, Addressing::Absolute),
        // TAX, TAY, TSX, TXA, TXS, TYA
        0xaa => Instruction(2, Opcode::TAX, Addressing::Implied),
        0xa8 => Instruction(2, Opcode::TAY, Addressing::Implied),
        0xba => Instruction(2, Opcode::TSX, Addressing::Implied),
        0x8a => Instruction(2, Opcode::TXA, Addressing::Implied),
        0x9a => Instruction(2, Opcode::TXS, Addressing::Implied),
        0x98 => Instruction(2, Opcode::TYA, Addressing::Implied),
        // ADC
        0x69 => Instruction(2, Opcode::ADC, Addressing::Immediate),
        0x65 => Instruction(3, Opcode::ADC, Addressing::Zeropage),
        0x75 => Instruction(4, Opcode::ADC, Addressing::ZeropageX),
        0x6d => Instruction(4, Opcode::ADC, Addressing::Absolute),
        0x7d => Instruction(4, Opcode::ADC, Addressing::AbsoluteX),
        0x79 => Instruction(4, Opcode::ADC, Addressing::AbsoluteY),
        0x61 => Instruction(6, Opcode::ADC, Addressing::IndirectX),
        0x71 => Instruction(5, Opcode::ADC, Addressing::IndirectY),
        // AND
        0x29 => Instruction(2, Opcode::AND, Addressing::Immediate),
        0x25 => Instruction(3, Opcode::AND, Addressing::Zeropage),
        0x35 => Instruction(4, Opcode::AND, Addressing::ZeropageX),
        0x2d => Instruction(4, Opcode::AND, Addressing::Absolute),
        0x3d => Instruction(4, Opcode::AND, Addressing::AbsoluteX),
        0x39 => Instruction(4, Opcode::AND, Addressing::AbsoluteY),
        0x21 => Instruction(6, Opcode::AND, Addressing::IndirectX),
        0x31 => Instruction(5, Opcode::AND, Addressing::IndirectY),
        // ASL
        0x0a => Instruction(2, Opcode::ASL, Addressing::Accumulator),
        0x06 => Instruction(5, Opcode::ASL, Addressing::Zeropage),
        0x16 => Instruction(6, Opcode::ASL, Addressing::ZeropageX),
        0x0e => Instruction(6, Opcode::ASL, Addressing::Absolute),
        0x1e => Instruction(7, Opcode::ASL, Addressing::AbsoluteX),
        // BIT
        0x24 => Instruction(3, Opcode::BIT, Addressing::Zeropage),
        0x2c => Instruction(4, Opcode::BIT, Addressing::Absolute),
        // CMP
        0xc9 => Instruction(2, Opcode::CMP, Addressing::Immediate),
        0xc5 => Instruction(3, Opcode::CMP, Addressing::Zeropage),
        0xd5 => Instruction(4, Opcode::CMP, Addressing::ZeropageX),
        0xcd => Instruction(4, Opcode::CMP, Addressing::Absolute),
        0xdd => Instruction(4, Opcode::CMP, Addressing::AbsoluteX),
        0xd9 => Instruction(4, Opcode::CMP, Addressing::AbsoluteY),
        0xc1 => Instruction(6, Opcode::CMP, Addressing::IndirectX),
        0xd1 => Instruction(5, Opcode::CMP, Addressing::IndirectY),
        // CPX
        0xe0 => Instruction(2, Opcode::CPX, Addressing::Immediate),
        0xe4 => Instruction(3, Opcode::CPX, Addressing::Zeropage),
        0xec => Instruction(4, Opcode::CPX, Addressing::Absolute),
        // CPY
        0xc0 => Instruction(2, Opcode::CPY, Addressing::Immediate),
        0xc4 => Instruction(3, Opcode::CPY, Addressing::Zeropage),
        0xcc => Instruction(4, Opcode::CPY, Addressing::Absolute),
        // DEC
        0xc6 => Instruction(5, Opcode::DEC, Addressing::Zeropage),
        0xd6 => Instruction(6, Opcode::DEC, Addressing::ZeropageX),
        0xce => Instruction(6, Opcode::DEC, Addressing::Absolute),
        0xde => Instruction(7, Opcode::DEC, Addressing::AbsoluteX),
        // DEX, DEY
        0xca => Instruction(2, Opcode::DEX, Addressing::Implied),
        0x88 => Instruction(2, Opcode::DEY, Addressing::Implied),
        // EOR
        0x49 => Instruction(2, Opcode::EOR, Addressing::Immediate),
        0x45 => Instruction(3, Opcode::EOR, Addressing::Zeropage),
        0x55 => Instruction(4, Opcode::EOR, Addressing::ZeropageX),
        0x4d => Instruction(4, Opcode::EOR, Addressing::Absolute),
        0x5d => Instruction(4, Opcode::EOR, Addressing::AbsoluteX),
        0x59 => Instruction(4, Opcode::EOR, Addressing::AbsoluteY),
        0x41 => Instruction(6, Opcode::EOR, Addressing::IndirectX),
        0x51 => Instruction(5, Opcode::EOR, Addressing::IndirectY),
        // INC
        0xe6 => Instruction(5, Opcode::INC, Addressing::Zeropage),
        0xf6 => Instruction(6, Opcode::INC, Addressing::ZeropageX),
        0xee => Instruction(6, Opcode::INC, Addressing::Absolute),
        0xfe => Instruction(7, Opcode::INC, Addressing::AbsoluteX),
        // INX, INY
        0xe8 => Instruction(2, Opcode::INX, Addressing::Implied),
        0xc8 => Instruction(2, Opcode::INY, Addressing::Implied),
        // LSR
        0x4a => Instruction(2, Opcode::LSR, Addressing::Accumulator),
        0x46 => Instruction(5, Opcode::LSR, Addressing::Zeropage),
        0x56 => Instruction(6, Opcode::LSR, Addressing::ZeropageX),
        0x4e => Instruction(6, Opcode::LSR, Addressing::Absolute),
        0x5e => Instruction(7, Opcode::LSR, Addressing::AbsoluteX),
        // ORA
        0x09 => Instruction(2, Opcode::ORA, Addressing::Immediate),
        0x05 => Instruction(3, Opcode::ORA, Addressing::Zeropage),
        0x15 => Instruction(4, Opcode::ORA, Addressing::ZeropageX),
        0x0d => Instruction(4, Opcode::ORA, Addressing::Absolute),
        0x1d => Instruction(4, Opcode::ORA, Addressing::AbsoluteX),
        0x19 => Instruction(4, Opcode::ORA, Addressing::AbsoluteY),
        0x01 => Instruction(6, Opcode::ORA, Addressing::IndirectX),
        0x11 => Instruction(5, Opcode::ORA, Addressing::IndirectY),
        // ROL
        0x2a => Instruction(2, Opcode::ROL, Addressing::Accumulator),
        0x26 => Instruction(5, Opcode::ROL, Addressing::Zeropage),
        0x36 => Instruction(6, Opcode::ROL, Addressing::ZeropageX),
        0x2e => Instruction(6, Opcode::ROL, Addressing::Absolute),
        0x3e => Instruction(7, Opcode::ROL, Addressing::AbsoluteX),
        // ROR
        0x6a => Instruction(2, Opcode::ROR, Addressing::Accumulator),
        0x66 => Instruction(5, Opcode::ROR, Addressing::Zeropage),
        0x76 => Instruction(6, Opcode::ROR, Addressing::ZeropageX),
        0x6e => Instruction(6, Opcode::ROR, Addressing::Absolute),
        0x7e => Instruction(7, Opcode::ROR, Addressing::AbsoluteX),
        // SBC
        0xe9 => Instruction(2, Opcode::SBC, Addressing::Immediate),
        0xe5 => Instruction(3, Opcode::SBC, Addressing::Zeropage),
        0xf5 => Instruction(4, Opcode::SBC, Addressing::ZeropageX),
        0xed => Instruction(4, Opcode::SBC, Addressing::Absolute),
        0xfd => Instruction(4, Opcode::SBC, Addressing::AbsoluteX),
        0xf9 => Instruction(4, Opcode::SBC, Addressing::AbsoluteY),
        0xe1 => Instruction(6, Opcode::SBC, Addressing::IndirectX),
        0xf1 => Instruction(5, Opcode::SBC, Addressing::IndirectY),
        // PHA, PHP, PLA, PLP
        0x48 => Instruction(3, Opcode::PHA, Addressing::Implied),
        0x08 => Instruction(3, Opcode::PHP, Addressing::Implied),
        0x68 => Instruction(4, Opcode::PLA, Addressing::Implied),
        0x28 => Instruction(4, Opcode::PLP, Addressing::Implied),
        // JMP
        0x4c => Instruction(3, Opcode::JMP, Addressing::Absolute),
        0x6c => Instruction(5, Opcode::JMP, Addressing::Indirect),
        // JSR, RTS, RTI
        0x20 => Instruction(6, Opcode::JSR, Addressing::Absolute),
        0x60 => Instruction(6, Opcode::RTS, Addressing::Implied),
        0x40 => Instruction(6, Opcode::RTI, Addressing::Implied),
        // BCC, BCS, BEQ, BMI, BNE, BPL, BVC, BVS
        0x90 => Instruction(2, Opcode::BCC, Addressing::Relative),
        0xb0 => Instruction(2, Opcode::BCS, Addressing::Relative),
        0xf0 => Instruction(2, Opcode::BEQ, Addressing::Relative),
        0x30 => Instruction(2, Opcode::BMI, Addressing::Relative),
        0xd0 => Instruction(2, Opcode::BNE, Addressing::Relative),
        0x10 => Instruction(2, Opcode::BPL, Addressing::Relative),
        0x50 => Instruction(2, Opcode::BVC, Addressing::Relative),
        0x70 => Instruction(2, Opcode::BVS, Addressing::Relative),
        // CLC, CLD, CLI, CLV, SEC, SED, SEI
        0x18 => Instruction(2, Opcode::CLC, Addressing::Implied),
        0xd8 => Instruction(2, Opcode::CLD, Addressing::Implied),
        0x58 => Instruction(2, Opcode::CLI, Addressing::Implied),
        0xb8 => Instruction(2, Opcode::CLV, Addressing::Implied),
        0x38 => Instruction(2, Opcode::SEC, Addressing::Implied),
        0xf8 => Instruction(2, Opcode::SED, Addressing::Implied),
        0x78 => Instruction(2, Opcode::SEI, Addressing::Implied),
        // BRK
        0x00 => Instruction(7, Opcode::BRK, Addressing::Implied),
        // NOP
        0x1a => Instruction(2, Opcode::NOP, Addressing::Implied),
        0x3a => Instruction(2, Opcode::NOP, Addressing::Implied),
        0x5a => Instruction(2, Opcode::NOP, Addressing::Implied),
        0x7a => Instruction(2, Opcode::NOP, Addressing::Implied),
        0xda => Instruction(2, Opcode::NOP, Addressing::Implied),
        0xea => Instruction(2, Opcode::NOP, Addressing::Implied),
        0xfa => Instruction(2, Opcode::NOP, Addressing::Implied),
        // SKB
        0x80 => Instruction(2, Opcode::SKB, Addressing::Immediate),
        0x82 => Instruction(2, Opcode::SKB, Addressing::Immediate),
        0x89 => Instruction(2, Opcode::SKB, Addressing::Immediate),
        0xc2 => Instruction(2, Opcode::SKB, Addressing::Immediate),
        0xe2 => Instruction(2, Opcode::SKB, Addressing::Immediate),
        // DCP
        0xc3 => Instruction(8, Opcode::DCP, Addressing::IndirectX),
        0xc7 => Instruction(5, Opcode::DCP, Addressing::Zeropage),
        0xcf => Instruction(6, Opcode::DCP, Addressing::Absolute),
        0xd3 => Instruction(8, Opcode::DCP, Addressing::IndirectY),
        0xd7 => Instruction(6, Opcode::DCP, Addressing::ZeropageX),
        0xdb => Instruction(7, Opcode::DCP, Addressing::AbsoluteY),
        0xdf => Instruction(7, Opcode::DCP, Addressing::AbsoluteX),
        // ISC
        0xe3 => Instruction(8, Opcode::ISC, Addressing::IndirectX),
        0xe7 => Instruction(5, Opcode::ISC, Addressing::Zeropage),
        0xef => Instruction(6, Opcode::ISC, Addressing::Absolute),
        0xf3 => Instruction(8, Opcode::ISC, Addressing::IndirectY),
        0xf7 => Instruction(6, Opcode::ISC, Addressing::ZeropageX),
        0xfb => Instruction(7, Opcode::ISC, Addressing::AbsoluteY),
        0xff => Instruction(7, Opcode::ISC, Addressing::AbsoluteX),
        // RLA
        0x23 => Instruction(8, Opcode::RLA, Addressing::IndirectX),
        0x27 => Instruction(5, Opcode::RLA, Addressing::Zeropage),
        0x2f => Instruction(6, Opcode::RLA, Addressing::Absolute),
        0x33 => Instruction(8, Opcode::RLA, Addressing::IndirectY),
        0x37 => Instruction(6, Opcode::RLA, Addressing::ZeropageX),
        0x3b => Instruction(7, Opcode::RLA, Addressing::AbsoluteY),
        0x3f => Instruction(7, Opcode::RLA, Addressing::AbsoluteX),
        // RRA
        0x63 => Instruction(8, Opcode::RRA, Addressing::IndirectX),
        0x67 => Instruction(5, Opcode::RRA, Addressing::Zeropage),
        0x6f => Instruction(6, Opcode::RRA, Addressing::Absolute),
        0x73 => Instruction(8, Opcode::RRA, Addressing::IndirectY),
        0x77 => Instruction(6, Opcode::RRA, Addressing::ZeropageX),
        0x7b => Instruction(7, Opcode::RRA, Addressing::AbsoluteY),
        0x7f => Instruction(7, Opcode::RRA, Addressing::AbsoluteX),
        // SLO
        0x03 => Instruction(8, Opcode::SLO, Addressing::IndirectX),
        0x07 => Instruction(5, Opcode::SLO, Addressing::Zeropage),
        0x0f => Instruction(6, Opcode::SLO, Addressing::Absolute),
        0x13 => Instruction(8, Opcode::SLO, Addressing::IndirectY),
        0x17 => Instruction(6, Opcode::SLO, Addressing::ZeropageX),
        0x1b => Instruction(7, Opcode::SLO, Addressing::AbsoluteY),
        0x1f => Instruction(7, Opcode::SLO, Addressing::AbsoluteX),
        // SRE
        0x43 => Instruction(8, Opcode::SRE, Addressing::IndirectX),
        0x47 => Instruction(5, Opcode::SRE, Addressing::Zeropage),
        0x4f => Instruction(6, Opcode::SRE, Addressing::Absolute),
        0x53 => Instruction(8, Opcode::SRE, Addressing::IndirectY),
        0x57 => Instruction(6, Opcode::SRE, Addressing::ZeropageX),
        0x5f => Instruction(7, Opcode::SRE, Addressing::AbsoluteX),
        0x5b => Instruction(7, Opcode::SRE, Addressing::AbsoluteY),
        // ALR, ANC, ARR, AXS
        0x4b => Instruction(2, Opcode::ALR, Addressing::Immediate),
        0x0b => Instruction(2, Opcode::ANC, Addressing::Immediate),
        0x6b => Instruction(2, Opcode::ARR, Addressing::Immediate),
        0xcb => Instruction(2, Opcode::AXS, Addressing::Immediate),
        // LAX
        0xa3 => Instruction(6, Opcode::LAX, Addressing::IndirectX),
        0xa7 => Instruction(3, Opcode::LAX, Addressing::Zeropage),
        0xaf => Instruction(4, Opcode::LAX, Addressing::Absolute),
        0xb3 => Instruction(5, Opcode::LAX, Addressing::IndirectY),
        0xb7 => Instruction(4, Opcode::LAX, Addressing::ZeropageY),
        0xbf => Instruction(4, Opcode::LAX, Addressing::AbsoluteY),
        // SAX
        0x83 => Instruction(6, Opcode::SAX, Addressing::IndirectX),
        0x87 => Instruction(3, Opcode::SAX, Addressing::Zeropage),
        0x8f => Instruction(4, Opcode::SAX, Addressing::Absolute),
        0x97 => Instruction(4, Opcode::SAX, Addressing::ZeropageY),
        // IGN
        0x0c => Instruction(4, Opcode::IGN, Addressing::Absolute),
        0x1c => Instruction(4, Opcode::IGN, Addressing::AbsoluteX),
        0x3c => Instruction(4, Opcode::IGN, Addressing::AbsoluteX),
        0x5c => Instruction(4, Opcode::IGN, Addressing::AbsoluteX),
        0x7c => Instruction(4, Opcode::IGN, Addressing::AbsoluteX),
        0xdc => Instruction(4, Opcode::IGN, Addressing::AbsoluteX),
        0xfc => Instruction(4, Opcode::IGN, Addressing::AbsoluteX),
        0x04 => Instruction(3, Opcode::IGN, Addressing::Zeropage),
        0x44 => Instruction(3, Opcode::IGN, Addressing::Zeropage),
        0x64 => Instruction(3, Opcode::IGN, Addressing::Zeropage),
        0x14 => Instruction(4, Opcode::IGN, Addressing::ZeropageX),
        0x34 => Instruction(4, Opcode::IGN, Addressing::ZeropageX),
        0x54 => Instruction(4, Opcode::IGN, Addressing::ZeropageX),
        0x74 => Instruction(4, Opcode::IGN, Addressing::ZeropageX),
        0xd4 => Instruction(4, Opcode::IGN, Addressing::ZeropageX),
        0xf4 => Instruction(4, Opcode::IGN, Addressing::ZeropageX),
        // every byte value with no official or unofficial meaning
        _ => Instruction(1, Opcode::NOP, Addressing::Implied),
    }
}

impl Cpu {
    /// The decode table: total over all 256 opcode byte values, pure and
    /// deterministic, returning the base cycle count, the mnemonic and the
    /// addressing mode.
    pub fn convert(self, code: u8) -> (r: Instruction)
        ensures
            r == spec_decode(code),
    {
        match code {
            0xa9 => Instruction(2, Opcode::LDA, Addressing::Immediate),
            0xa5 => Instruction(3, Opcode::LDA, Addressing::Zeropage),
            0xb5 => Instruction(4, Opcode::LDA, Addressing::ZeropageX),
            0xad => Instruction(4, Opcode::LDA, Addressing::Absolute),
            0xbd => Instruction(4, Opcode::LDA, Addressing::AbsoluteX),
            0xb9 => Instruction(4, Opcode::LDA, Addressing::AbsoluteY),
            0xa1 => Instruction(6, Opcode::LDA, Addressing::IndirectX),
            0xb1 => Instruction(5, Opcode::LDA, Addressing::IndirectY),
            0xa2 => Instruction(2, Opcode::LDX, Addressing::Immediate),
            0xa6 => Instruction(3, Opcode::LDX, Addressing::Zeropage),
            0xb6 => Instruction(4, Opcode::LDX, Addressing::ZeropageY),
            0xae => Instruction(4, Opcode::LDX, Addressing::Absolute),
            0xbe => Instruction(4, Opcode::LDX, Addressing::AbsoluteY),
            0xa0 => Instruction(2, Opcode::LDY, Addressing::Immediate),
            0xa4 => Instruction(3, Opcode::LDY, Addressing::Zeropage),
            0xb4 => Instruction(4, Opcode::LDY, Addressing::ZeropageX),
            0xac => Instruction(4, Opcode::LDY, Addressing::Absolute),
            0xbc => Instruction(4, Opcode::LDY, Addressing::AbsoluteX),
            0x85 => Instruction(3, Opcode::STA, Addressing::Zeropage),
            0x95 => Instruction(4, Opcode::STA, Addressing::ZeropageX),
            0x8d => Instruction(4, Opcode::STA, Addressing::Absolute),
            0x9d => Instruction(5, Opcode::STA, Addressing::AbsoluteX),
            0x99 => Instruction(5, Opcode::STA, Addressing::AbsoluteY),
            0x81 => Instruction(6, Opcode::STA, Addressing::IndirectX),
            0x91 => Instruction(6, Opcode::STA, Addressing::IndirectY),
            0x86 => Instruction(3, Opcode::STX, Addressing::Zeropage),
            0x96 => Instruction(4, Opcode::STX, Addressing::ZeropageY),
            0x8e => Instruction(4, Opcode::STX, Addressing::Absolute),
            0x84 => Instruction(3, Opcode::STY, Addressing::Zeropage),
            0x94 => Instruction(4, Opcode::STY, Addressing::ZeropageX),
            0x8c => Instruction(4, Opcode::STY, Addressing::Absolute),
            0xaa => Instruction(2, Opcode::TAX, Addressing::Implied),
            0xa8 => Instruction(2, Opcode::TAY, Addressing::Implied),
            0xba => Instruction(2, Opcode::TSX, Addressing::Implied),
            0x8a => Instruction(2, Opcode::TXA, Addressing::Implied),
            0x9a => Instruction(2, Opcode::TXS, Addressing::Implied),
            0x98 => Instruction(2, Opcode::TYA, Addressing::Implied),
            0x69 => Instruction(2, Opcode::ADC, Addressing::Immediate),
            0x65 => Instruction(3, Opcode::ADC, Addressing::Zeropage),
            0x75 => Instruction(4, Opcode::ADC, Addressing::ZeropageX),
            0x6d => Instruction(4, Opcode::ADC, Addressing::Absolute),
            0x7d => Instruction(4, Opcode::ADC, Addressing::AbsoluteX),
            0x79 => Instruction(4, Opcode::ADC, Addressing::AbsoluteY),
            0x61 => Instruction(6, Opcode::ADC, Addressing::IndirectX),
            0x71 => Instruction(5, Opcode::ADC, Addressing::IndirectY),
            0x29 => Instruction(2, Opcode::AND, Addressing::Immediate),
            0x25 => Instruction(3, Opcode::AND, Addressing::Zeropage),
            0x35 => Instruction(4, Opcode::AND, Addressing::ZeropageX),
            0x2d => Instruction(4, Opcode::AND, Addressing::Absolute),
            0x3d => Instruction(4, Opcode::AND, Addressing::AbsoluteX),
            0x39 => Instruction(4, Opcode::AND, Addressing::AbsoluteY),
            0x21 => Instruction(6, Opcode::AND, Addressing::IndirectX),
            0x31 => Instruction(5, Opcode::AND, Addressing::IndirectY),
            0x0a => Instruction(2, Opcode::ASL, Addressing::Accumulator),
            0x06 => Instruction(5, Opcode::ASL, Addressing::Zeropage),
            0x16 => Instruction(6, Opcode::ASL, Addressing::ZeropageX),
            0x0e => Instruction(6, Opcode::ASL, Addressing::Absolute),
            0x1e => Instruction(7, Opcode::ASL, Addressing::AbsoluteX),
            0x24 => Instruction(3, Opcode::BIT, Addressing::Zeropage),
            0x2c => Instruction(4, Opcode::BIT, Addressing::Absolute),
            0xc9 => Instruction(2, Opcode::CMP, Addressing::Immediate),
            0xc5 => Instruction(3, Opcode::CMP, Addressing::Zeropage),
            0xd5 => Instruction(4, Opcode::CMP, Addressing::ZeropageX),
            0xcd => Instruction(4, Opcode::CMP, Addressing::Absolute),
            0xdd => Instruction(4, Opcode::CMP, Addressing::AbsoluteX),
            0xd9 => Instruction(4, Opcode::CMP, Addressing::AbsoluteY),
            0xc1 => Instruction(6, Opcode::CMP, Addressing::IndirectX),
            0xd1 => Instruction(5, Opcode::CMP, Addressing::IndirectY),
            0xe0 => Instruction(2, Opcode::CPX, Addressing::Immediate),
            0xe4 => Instruction(3, Opcode::CPX, Addressing::Zeropage),
            0xec => Instruction(4, Opcode::CPX, Addressing::Absolute),
            0xc0 => Instruction(2, Opcode::CPY, Addressing::Immediate),
            0xc4 => Instruction(3, Opcode::CPY, Addressing::Zeropage),
            0xcc => Instruction(4, Opcode::CPY, Addressing::Absolute),
            0xc6 => Instruction(5, Opcode::DEC, Addressing::Zeropage),
            0xd6 => Instruction(6, Opcode::DEC, Addressing::ZeropageX),
            0xce => Instruction(6, Opcode::DEC, Addressing::Absolute),
            0xde => Instruction(7, Opcode::DEC, Addressing::AbsoluteX),
            0xca => Instruction(2, Opcode::DEX, Addressing::Implied),
            0x88 => Instruction(2, Opcode::DEY, Addressing::Implied),
            0x49 => Instruction(2, Opcode::EOR, Addressing::Immediate),
            0x45 => Instruction(3, Opcode::EOR, Addressing::Zeropage),
            0x55 => Instruction(4, Opcode::EOR, Addressing::ZeropageX),
            0x4d => Instruction(4, Opcode::EOR, Addressing::Absolute),
            0x5d => Instruction(4, Opcode::EOR, Addressing::AbsoluteX),
            0x59 => Instruction(4, Opcode::EOR, Addressing::AbsoluteY),
            0x41 => Instruction(6, Opcode::EOR, Addressing::IndirectX),
            0x51 => Instruction(5, Opcode::EOR, Addressing::IndirectY),
            0xe6 => Instruction(5, Opcode::INC, Addressing::Zeropage),
            0xf6 => Instruction(6, Opcode::INC, Addressing::ZeropageX),
            0xee => Instruction(6, Opcode::INC, Addressing::Absolute),
            0xfe => Instruction(7, Opcode::INC, Addressing::AbsoluteX),
            0xe8 => Instruction(2, Opcode::INX, Addressing::Implied),
            0xc8 => Instruction(2, Opcode::INY, Addressing::Implied),
            0x4a => Instruction(2, Opcode::LSR, Addressing::Accumulator),
            0x46 => Instruction(5, Opcode::LSR, Addressing::Zeropage),
            0x56 => Instruction(6, Opcode::LSR, Addressing::ZeropageX),
            0x4e => Instruction(6, Opcode::LSR, Addressing::Absolute),
            0x5e => Instruction(7, Opcode::LSR, Addressing::AbsoluteX),
            0x09 => Instruction(2, Opcode::ORA, Addressing::Immediate),
            0x05 => Instruction(3, Opcode::ORA, Addressing::Zeropage),
            0x15 => Instruction(4, Opcode::ORA, Addressing::ZeropageX),
            0x0d => Instruction(4, Opcode::ORA, Addressing::Absolute),
            0x1d => Instruction(4, Opcode::ORA, Addressing::AbsoluteX),
            0x19 => Instruction(4, Opcode::ORA, Addressing::AbsoluteY),
            0x01 => Instruction(6, Opcode::ORA, Addressing::IndirectX),
            0x11 => Instruction(5, Opcode::ORA, Addressing::IndirectY),
            0x2a => Instruction(2, Opcode::ROL, Addressing::Accumulator),
            0x26 => Instruction(5, Opcode::ROL, Addressing::Zeropage),
            0x36 => Instruction(6, Opcode::ROL, Addressing::ZeropageX),
            0x2e => Instruction(6, Opcode::ROL, Addressing::Absolute),
            0x3e => Instruction(7, Opcode::ROL, Addressing::AbsoluteX),
            0x6a => Instruction(2, Opcode::ROR, Addressing::Accumulator),
            0x66 => Instruction(5, Opcode::ROR, Addressing::Zeropage),
            0x76 => Instruction(6, Opcode::ROR, Addressing::ZeropageX),
            0x6e => Instruction(6, Opcode::ROR, Addressing::Absolute),
            0x7e => Instruction(7, Opcode::ROR, Addressing::AbsoluteX),
            0xe9 => Instruction(2, Opcode::SBC, Addressing::Immediate),
            0xe5 => Instruction(3, Opcode::SBC, Addressing::Zeropage),
            0xf5 => Instruction(4, Opcode::SBC, Addressing::ZeropageX),
            0xed => Instruction(4, Opcode::SBC, Addressing::Absolute),
            0xfd => Instruction(4, Opcode::SBC, Addressing::AbsoluteX),
            0xf9 => Instruction(4, Opcode::SBC, Addressing::AbsoluteY),
            0xe1 => Instruction(6, Opcode::SBC, Addressing::IndirectX),
            0xf1 => Instruction(5, Opcode::SBC, Addressing::IndirectY),
            0x48 => Instruction(3, Opcode::PHA, Addressing::Implied),
            0x08 => Instruction(3, Opcode::PHP, Addressing::Implied),
            0x68 => Instruction(4, Opcode::PLA, Addressing::Implied),
            0x28 => Instruction(4, Opcode::PLP, Addressing::Implied),
            0x4c => Instruction(3, Opcode::JMP, Addressing::Absolute),
            0x6c => Instruction(5, Opcode::JMP, Addressing::Indirect),
            0x20 => Instruction(6, Opcode::JSR, Addressing::Absolute),
            0x60 => Instruction(6, Opcode::RTS, Addressing::Implied),
            0x40 => Instruction(6, Opcode::RTI, Addressing::Implied),
            0x90 => Instruction(2, Opcode::BCC, Addressing::Relative),
            0xb0 => Instruction(2, Opcode::BCS, Addressing::Relative),
            0xf0 => Instruction(2, Opcode::BEQ, Addressing::Relative),
            0x30 => Instruction(2, Opcode::BMI, Addressing::Relative),
            0xd0 => Instruction(2, Opcode::BNE, Addressing::Relative),
            0x10 => Instruction(2, Opcode::BPL, Addressing::Relative),
            0x50 => Instruction(2, Opcode::BVC, Addressing::Relative),
            0x70 => Instruction(2, Opcode::BVS, Addressing::Relative),
            0x18 => Instruction(2, Opcode::CLC, Addressing::Implied),
            0xd8 => Instruction(2, Opcode::CLD, Addressing::Implied),
            0x58 => Instruction(2, Opcode::CLI, Addressing::Implied),
            0xb8 => Instruction(2, Opcode::CLV, Addressing::Implied),
            0x38 => Instruction(2, Opcode::SEC, Addressing::Implied),
            0xf8 => Instruction(2, Opcode::SED, Addressing::Implied),
            0x78 => Instruction(2, Opcode::SEI, Addressing::Implied),
            0x00 => Instruction(7, Opcode::BRK, Addressing::Implied),
            0x1a => Instruction(2, Opcode::NOP, Addressing::Implied),
            0x3a => Instruction(2, Opcode::NOP, Addressing::Implied),
            0x5a => Instruction(2, Opcode::NOP, Addressing::Implied),
            0x7a => Instruction(2, Opcode::NOP, Addressing::Implied),
            0xda => Instruction(2, Opcode::NOP, Addressing::Implied),
            0xea => Instruction(2, Opcode::NOP, Addressing::Implied),
            0xfa => Instruction(2, Opcode::NOP, Addressing::Implied),
            0x80 => Instruction(2, Opcode::SKB, Addressing::Immediate),
            0x82 => Instruction(2, Opcode::SKB, Addressing::Immediate),
            0x89 => Instruction(2, Opcode::SKB, Addressing::Immediate),
            0xc2 => Instruction(2, Opcode::SKB, Addressing::Immediate),
            0xe2 => Instruction(2, Opcode::SKB, Addressing::Immediate),
            0xc3 => Instruction(8, Opcode::DCP, Addressing::IndirectX),
            0xc7 => Instruction(5, Opcode::DCP, Addressing::Zeropage),
            0xcf => Instruction(6, Opcode::DCP, Addressing::Absolute),
            0xd3 => Instruction(8, Opcode::DCP, Addressing::IndirectY),
            0xd7 => Instruction(6, Opcode::DCP, Addressing::ZeropageX),
            0xdb => Instruction(7, Opcode::DCP, Addressing::AbsoluteY),
            0xdf => Instruction(7, Opcode::DCP, Addressing::AbsoluteX),
            0xe3 => Instruction(8, Opcode::ISC, Addressing::IndirectX),
            0xe7 => Instruction(5, Opcode::ISC, Addressing::Zeropage),
            0xef => Instruction(6, Opcode::ISC, Addressing::Absolute),
            0xf3 => Instruction(8, Opcode::ISC, Addressing::IndirectY),
            0xf7 => Instruction(6, Opcode::ISC, Addressing::ZeropageX),
            0xfb => Instruction(7, Opcode::ISC, Addressing::AbsoluteY),
            0xff => Instruction(7, Opcode::ISC, Addressing::AbsoluteX),
            0x23 => Instruction(8, Opcode::RLA, Addressing::IndirectX),
            0x27 => Instruction(5, Opcode::RLA, Addressing::Zeropage),
            0x2f => Instruction(6, Opcode::RLA, Addressing::Absolute),
            0x33 => Instruction(8, Opcode::RLA, Addressing::IndirectY),
            0x37 => Instruction(6, Opcode::RLA, Addressing::ZeropageX),
            0x3b => Instruction(7, Opcode::RLA, Addressing::AbsoluteY),
            0x3f => Instruction(7, Opcode::RLA, Addressing::AbsoluteX),
            0x63 => Instruction(8, Opcode::RRA, Addressing::IndirectX),
            0x67 => Instruction(5, Opcode::RRA, Addressing::Zeropage),
            0x6f => Instruction(6, Opcode::RRA, Addressing::Absolute),
            0x73 => Instruction(8, Opcode::RRA, Addressing::IndirectY),
            0x77 => Instruction(6, Opcode::RRA, Addressing::ZeropageX),
            0x7b => Instruction(7, Opcode::RRA, Addressing::AbsoluteY),
            0x7f => Instruction(7, Opcode::RRA, Addressing::AbsoluteX),
            0x03 => Instruction(8, Opcode::SLO, Addressing::IndirectX),
            0x07 => Instruction(5, Opcode::SLO, Addressing::Zeropage),
            0x0f => Instruction(6, Opcode::SLO, Addressing::Absolute),
            0x13 => Instruction(8, Opcode::SLO, Addressing::IndirectY),
            0x17 => Instruction(6, Opcode::SLO, Addressing::ZeropageX),
            0x1b => Instruction(7, Opcode::SLO, Addressing::AbsoluteY),
            0x1f => Instruction(7, Opcode::SLO, Addressing::AbsoluteX),
            0x43 => Instruction(8, Opcode::SRE, Addressing::IndirectX),
            0x47 => Instruction(5, Opcode::SRE, Addressing::Zeropage),
            0x4f => Instruction(6, Opcode::SRE, Addressing::Absolute),
            0x53 => Instruction(8, Opcode::SRE, Addressing::IndirectY),
            0x57 => Instruction(6, Opcode::SRE, Addressing::ZeropageX),
            0x5f => Instruction(7, Opcode::SRE, Addressing::AbsoluteX),
            0x5b => Instruction(7, Opcode::SRE, Addressing::AbsoluteY),
            0x4b => Instruction(2, Opcode::ALR, Addressing::Immediate),
            0x0b => Instruction(2, Opcode::ANC, Addressing::Immediate),
            0x6b => Instruction(2, Opcode::ARR, Addressing::Immediate),
            0xcb => Instruction(2, Opcode::AXS, Addressing::Immediate),
            0xa3 => Instruction(6, Opcode::LAX, Addressing::IndirectX),
            0xa7 => Instruction(3, Opcode::LAX, Addressing::Zeropage),
            0xaf => Instruction(4, Opcode::LAX, Addressing::Absolute),
            0xb3 => Instruction(5, Opcode::LAX, Addressing::IndirectY),
            0xb7 => Instruction(4, Opcode::LAX, Addressing::ZeropageY),
            0xbf => Instruction(4, Opcode::LAX, Addressing::AbsoluteY),
            0x83 => Instruction(6, Opcode::SAX, Addressing::IndirectX),
            0x87 => Instruction(3, Opcode::SAX, Addressing::Zeropage),
            0x8f => Instruction(4, Opcode::SAX, Addressing::Absolute),
            0x97 => Instruction(4, Opcode::SAX, Addressing::ZeropageY),
            0x0c => Instruction(4, Opcode::IGN, Addressing::Absolute),
            0x1c => Instruction(4, Opcode::IGN, Addressing::AbsoluteX),
            0x3c => Instruction(4, Opcode::IGN, Addressing::AbsoluteX),
            0x5c => Instruction(4, Opcode::IGN, Addressing::AbsoluteX),
            0x7c => Instruction(4, Opcode::IGN, Addressing::AbsoluteX),
            0xdc => Instruction(4, Opcode::IGN, Addressing::AbsoluteX),
            0xfc => Instruction(4, Opcode::IGN, Addressing::AbsoluteX),
            0x04 => Instruction(3, Opcode::IGN, Addressing::Zeropage),
            0x44 => Instruction(3, Opcode::IGN, Addressing::Zeropage),
            0x64 => Instruction(3, Opcode::IGN, Addressing::Zeropage),
            0x14 => Instruction(4, Opcode::IGN, Addressing::ZeropageX),
            0x34 => Instruction(4, Opcode::IGN, Addressing::ZeropageX),
            0x54 => Instruction(4, Opcode::IGN, Addressing::ZeropageX),
            0x74 => Instruction(4, Opcode::IGN, Addressing::ZeropageX),
            0xd4 => Instruction(4, Opcode::IGN, Addressing::ZeropageX),
            0xf4 => Instruction(4, Opcode::IGN, Addressing::ZeropageX),
            _ => Instruction(1, Opcode::NOP, Addressing::Implied),
        }
    }
}

/// Every opcode byte decodes to a base cycle count between one and eight.
pub proof fn lemma_decode_cycle_bounds(code: u8)
    ensures
        1 <= spec_decode(code).0 <= 8,
{
}

/// A 16-bit value `x` steps past, with wraparound.
pub open spec fn spec_wrap16(x: int) -> u16 {
    (x % 0x10000) as u16
}

/// The 16-bit word with low byte `lo` and high byte `hi`.
pub open spec fn spec_word(lo: u8, hi: u8) -> u16 {
    (hi as int * 256 + lo as int) as u16
}

/// The 256-byte page an address lies in.
pub open spec fn page(a: u16) -> int {
    a as int / 256
}

/// What resolving an addressing mode yields, with the program counter
/// standing at the first operand byte: the program counter moved past the
/// operand bytes, the effective address if the mode names one, the operand
/// value, and whether an indexed or relative access crossed a page boundary.
pub ghost struct Operand {
    pub pc2: u16,
    pub addr: Option<u16>,
    pub value: u8,
    pub crossed: bool,
}

/// The addressing-mode resolver as a mathematical function. No mode can
/// fail: every computation wraps modulo 256 or 65536.
pub open spec fn operand_spec(cpu: Cpu, m: MachView, mode: Addressing) -> Operand {
    match mode {
        Addressing::Implied => Operand { pc2: cpu.pc, addr: None, value: 0, crossed: false },
        Addressing::Accumulator => Operand {
            pc2: cpu.pc,
            addr: None,
            value: cpu.a,
            crossed: false,
        },
        Addressing::Immediate => Operand {
            pc2: spec_wrap16(cpu.pc + 1),
            addr: None,
            value: bus_read(m, cpu.pc),
            crossed: false,
        },
        Addressing::Zeropage => {
            let ea = bus_read(m, cpu.pc) as u16;
            Operand {
                pc2: spec_wrap16(cpu.pc + 1),
                addr: Some(ea),
                value: bus_read(m, ea),
                crossed: false,
            }
        },
        Addressing::ZeropageX => {
            let ea = (((bus_read(m, cpu.pc) + cpu.x) % 256) as u16);
            Operand {
                pc2: spec_wrap16(cpu.pc + 1),
                addr: Some(ea),
                value: bus_read(m, ea),
                crossed: false,
            }
        },
        Addressing::ZeropageY => {
            let ea = (((bus_read(m, cpu.pc) + cpu.y) % 256) as u16);
            Operand {
                pc2: spec_wrap16(cpu.pc + 1),
                addr: Some(ea),
                value: bus_read(m, ea),
                crossed: false,
            }
        },
        Addressing::Relative => {
            let d = bus_read(m, cpu.pc);
            let pc2 = spec_wrap16(cpu.pc + 1);
            let t = spec_wrap16(pc2 + d + if d >= 0x80 { 0xFF00int } else { 0int });
            Operand { pc2, addr: Some(t), value: 0, crossed: page(t) != page(pc2) }
        },
        Addressing::Absolute => {
            let ea = spec_word(bus_read(m, cpu.pc), bus_read(m, spec_wrap16(cpu.pc + 1)));
            Operand {
                pc2: spec_wrap16(cpu.pc + 2),
                addr: Some(ea),
                value: bus_read(m, ea),
                crossed: false,
            }
        },
        Addressing::AbsoluteX => {
            let base = spec_word(bus_read(m, cpu.pc), bus_read(m, spec_wrap16(cpu.pc + 1)));
            let ea = spec_wrap16(base + cpu.x);
            Operand {
                pc2: spec_wrap16(cpu.pc + 2),
                addr: Some(ea),
                value: bus_read(m, ea),
                crossed: page(ea) != page(base),
            }
        },
        Addressing::AbsoluteY => {
            let base = spec_word(bus_read(m, cpu.pc), bus_read(m, spec_wrap16(cpu.pc + 1)));
            let ea = spec_wrap16(base + cpu.y);
            Operand {
                pc2: spec_wrap16(cpu.pc + 2),
                addr: Some(ea),
                value: bus_read(m, ea),
                crossed: page(ea) != page(base),
            }
        },
        Addressing::Indirect => {
            let ptr = spec_word(bus_read(m, cpu.pc), bus_read(m, spec_wrap16(cpu.pc + 1)));
            // the documented hardware quirk: the pointer's high byte is
            // fetched without carrying into the pointer's own page
            let next = ((ptr as int / 256) * 256 + (ptr as int % 256 + 1) % 256) as u16;
            let ea = spec_word(bus_read(m, ptr), bus_read(m, next));
            Operand {
                pc2: spec_wrap16(cpu.pc + 2),
                addr: Some(ea),
                value: bus_read(m, ea),
                crossed: false,
            }
        },
        Addressing::IndirectX => {
            let z = (bus_read(m, cpu.pc) + cpu.x) % 256;
            let ea = spec_word(bus_read(m, z as u16), bus_read(m, ((z + 1) % 256) as u16));
            Operand {
                pc2: spec_wrap16(cpu.pc + 1),
                addr: Some(ea),
                value: bus_read(m, ea),
                crossed: false,
            }
        },
        Addressing::IndirectY => {
            let z = bus_read(m, cpu.pc);
            let base = spec_word(bus_read(m, z as u16), bus_read(m, ((z + 1) % 256) as u16));
            let ea = spec_wrap16(base + cpu.y);
            Operand {
                pc2: spec_wrap16(cpu.pc + 1),
                addr: Some(ea),
                value: bus_read(m, ea),
                crossed: page(ea) != page(base),
            }
        },
    }
}

/// The operand value an addressing mode hands the engine: the accumulator in
/// accumulator mode, the byte at the resolved effective address where one
/// exists, and zero where none does.
pub open spec fn operand_value(cpu: Cpu, m: MachView, mode: Addressing, addr: Option<u16>) -> u8 {
    match mode {
        Addressing::Accumulator => cpu.a,
        _ => match addr {
            Some(a) => bus_read(m, a),
            None => 0,
        },
    }
}

/// Adds `k` to a 16-bit value with wraparound.
pub fn wrap16_add(pc: u16, k: u16) -> (r: u16)
    ensures
        r == spec_wrap16(pc + k),
{
    ((pc as u32 + k as u32) % 0x10000) as u16
}

impl Cpu {
    /// Reads the operand value for a resolved addressing mode: the
    /// accumulator itself in accumulator mode, the byte at the effective
    /// address for every mode that names one.
    pub fn fetch_data(self, machine: &Machine, addr_mode: Addressing, addr: Option<u16>) -> (r:
        u8)
        requires
            machine.wf(),
        ensures
            r == operand_value(self, machine@, addr_mode, addr),
    {
        match addr_mode {
            Addressing::Accumulator => self.a,
            _ => match addr {
                Some(a) => machine.read(a as usize),
                None => 0,
            },
        }
    }

    /// The addressing-mode resolver: advances the program counter past the
    /// operand bytes the mode consumes and produces the effective address (if
    /// the mode names one), the operand value, and whether the access crossed
    /// a page boundary.
    pub fn fetch_operand(&mut self, machine: &Machine, addr_mode: Addressing) -> (r: (
        Option<u16>,
        u8,
        bool,
    ))
        requires
            machine.wf(),
        ensures
            ({
                let oi = operand_spec(*old(self), machine@, addr_mode);
                &&& *final(self) == (Cpu { pc: oi.pc2, ..*old(self) })
                &&& r.0 == oi.addr
                &&& r.1 == oi.value
                &&& r.2 == oi.crossed
            }),
    {
        match addr_mode {
            Addressing::Implied => (None, 0, false),
            Addressing::Accumulator => (None, self.a, false),
            Addressing::Immediate => {
                let v = machine.read(self.pc as usize);
                self.pc = wrap16_add(self.pc, 1);
                (None, v, false)
            },
            Addressing::Zeropage => {
                let ea = machine.read(self.pc as usize) as u16;
                self.pc = wrap16_add(self.pc, 1);
                let v = self.fetch_data(machine, addr_mode, Some(ea));
                (Some(ea), v, false)
            },
            Addressing::ZeropageX => {
                let b = machine.read(self.pc as usize);
                self.pc = wrap16_add(self.pc, 1);
                let ea = (b as u16 + self.x as u16) % 256;
                let v = self.fetch_data(machine, addr_mode, Some(ea));
                (Some(ea), v, false)
            },
            Addressing::ZeropageY => {
                let b = machine.read(self.pc as usize);
                self.pc = wrap16_add(self.pc, 1);
                let ea = (b as u16 + self.y as u16) % 256;
                let v = self.fetch_data(machine, addr_mode, Some(ea));
                (Some(ea), v, false)
            },
            Addressing::Relative => {
                let d = machine.read(self.pc as usize);
                self.pc = wrap16_add(self.pc, 1);
                let off: u32 = if d >= 0x80 {
                    d as u32 + 0xFF00
                } else {
                    d as u32
                };
                let t = ((self.pc as u32 + off) % 0x10000) as u16;
                (Some(t), 0, t / 256 != self.pc / 256)
            },
            Addressing::Absolute => {
                let lo = machine.read(self.pc as usize);
                let hi = machine.read(wrap16_add(self.pc, 1) as usize);
                self.pc = wrap16_add(self.pc, 2);
                let ea = hi as u16 * 256 + lo as u16;
                let v = self.fetch_data(machine, addr_mode, Some(ea));
                (Some(ea), v, false)
            },
            Addressing::AbsoluteX => {
                let lo = machine.read(self.pc as usize);
                let hi = machine.read(wrap16_add(self.pc, 1) as usize);
                self.pc = wrap16_add(self.pc, 2);
                let base = hi as u16 * 256 + lo as u16;
                let ea = wrap16_add(base, self.x as u16);
                let v = self.fetch_data(machine, addr_mode, Some(ea));
                (Some(ea), v, ea / 256 != base / 256)
            },
            Addressing::AbsoluteY => {
                let lo = machine.read(self.pc as usize);
                let hi = machine.read(wrap16_add(self.pc, 1) as usize);
                self.pc = wrap16_add(self.pc, 2);
                let base = hi as u16 * 256 + lo as u16;
                let ea = wrap16_add(base, self.y as u16);
                let v = self.fetch_data(machine, addr_mode, Some(ea));
                (Some(ea), v, ea / 256 != base / 256)
            },
            Addressing::Indirect => {
                let lo = machine.read(self.pc as usize);
                let hi = machine.read(wrap16_add(self.pc, 1) as usize);
                self.pc = wrap16_add(self.pc, 2);
                let ptr = hi as u16 * 256 + lo as u16;
                let next = (ptr / 256) * 256 + (ptr % 256 + 1) % 256;
                let plo = machine.read(ptr as usize);
                let phi = machine.read(next as usize);
                let ea = phi as u16 * 256 + plo as u16;
                let v = self.fetch_data(machine, addr_mode, Some(ea));
                (Some(ea), v, false)
            },
            Addressing::IndirectX => {
                let b = machine.read(self.pc as usize);
                self.pc = wrap16_add(self.pc, 1);
                let z = (b as u16 + self.x as u16) % 256;
                let lo = machine.read(z as usize);
                let hi = machine.read(((z + 1) % 256) as usize);
                let ea = hi as u16 * 256 + lo as u16;
                let v = self.fetch_data(machine, addr_mode, Some(ea));
                (Some(ea), v, false)
            },
            Addressing::IndirectY => {
                let z = machine.read(self.pc as usize);
                self.pc = wrap16_add(self.pc, 1);
                let lo = machine.read(z as usize);
                let hi = machine.read(((z as u16 + 1) % 256) as usize);
                let base = hi as u16 * 256 + lo as u16;
                let ea = wrap16_add(base, self.y as u16);
                let v = self.fetch_data(machine, addr_mode, Some(ea));
                (Some(ea), v, ea / 256 != base / 256)
            },
        }
    }
}

/// The status byte with Zero set from `r == 0` and Negative from `r`'s high
/// bit.
pub open spec fn upd_zn(p: u8, r: u8) -> u8 {
    set_flag(set_flag(p, FLAG_Z, r == 0), FLAG_N, r >= 0x80)
}

/// The Carry flag as the third summand of an addition.
pub open spec fn carry_in(p: u8) -> int {
    if flag_set(p, FLAG_C) {
        1
    } else {
        0
    }
}

/// Add with carry: the sum modulo 256, Carry from the ninth bit, Overflow
/// when the operands' signs agree but differ from the result's sign, and
/// Zero/Negative from the result. Returns the new accumulator and status.
pub open spec fn adc_out(a: u8, v: u8, p: u8) -> (u8, u8) {
    let sum = a + v + carry_in(p);
    let r = (sum % 256) as u8;
    let p1 = set_flag(p, FLAG_C, sum > 255);
    let p2 = set_flag(p1, FLAG_V, ((a >= 0x80) == (v >= 0x80)) && ((r >= 0x80) != (a >= 0x80)));
    (r, upd_zn(p2, r))
}

/// Subtract with carry: add with carry of the operand's one's complement, so
/// a cleared Carry signals a borrow.
pub open spec fn sbc_out(a: u8, v: u8, p: u8) -> (u8, u8) {
    adc_out(a, (255 - v) as u8, p)
}

/// Compare: the register minus the operand without storing the result; Carry
/// when the register is at least the operand (unsigned), Zero when equal,
/// Negative from the subtraction's sign bit. Returns the new status.
pub open spec fn cmp_out(reg: u8, v: u8, p: u8) -> u8 {
    let r = (((reg + 256) - v) % 256) as u8;
    upd_zn(set_flag(p, FLAG_C, reg >= v), r)
}

/// Arithmetic shift left: Carry receives the bit shifted out.
pub open spec fn asl_out(v: u8, p: u8) -> (u8, u8) {
    let r = ((v * 2) % 256) as u8;
    (r, upd_zn(set_flag(p, FLAG_C, v >= 0x80), r))
}

/// Logical shift right: Carry receives the bit shifted out.
pub open spec fn lsr_out(v: u8, p: u8) -> (u8, u8) {
    let r = v / 2;
    (r, upd_zn(set_flag(p, FLAG_C, v % 2 == 1), r))
}

/// Rotate left: the old Carry fills the vacated low bit.
pub open spec fn rol_out(v: u8, p: u8) -> (u8, u8) {
    let r = ((v * 2 + carry_in(p)) % 256) as u8;
    (r, upd_zn(set_flag(p, FLAG_C, v >= 0x80), r))
}

/// Rotate right: the old Carry fills the vacated high bit.
pub open spec fn ror_out(v: u8, p: u8) -> (u8, u8) {
    let r = (v / 2 + carry_in(p) * 128) as u8;
    (r, upd_zn(set_flag(p, FLAG_C, v % 2 == 1), r))
}

/// Bit test: Negative and Overflow copy the operand's two high bits, Zero
/// from the accumulator masked with the operand.
pub open spec fn bit_out(a: u8, v: u8, p: u8) -> u8 {
    set_flag(set_flag(set_flag(p, FLAG_N, v >= 0x80), FLAG_V, (v / 64) % 2 == 1), FLAG_Z, a & v == 0)
}

impl Cpu {
    /// Sets Zero and Negative from a result byte.
    fn set_zn(&mut self, r: u8)
        ensures
            *final(self) == (Cpu { p: upd_zn(old(self).p, r), ..*old(self) }),
            final(self).p & 0x20 == old(self).p & 0x20,
    {
        self.set_z_flag(r == 0);
        self.set_n_flag(r >= 0x80);
    }

    /// Add with carry against the accumulator.
    fn alu_adc(&mut self, v: u8)
        ensures
            *final(self) == (Cpu {
                a: adc_out(old(self).a, v, old(self).p).0,
                p: adc_out(old(self).a, v, old(self).p).1,
                ..*old(self)
            }),
            final(self).p & 0x20 == old(self).p & 0x20,
    {
        let a = self.a;
        let c: u16 = if self.read_c_flag() != 0 {
            1
        } else {
            0
        };
        let sum: u16 = a as u16 + v as u16 + c;
        let r = (sum % 256) as u8;
        self.set_c_flag(sum > 255);
        self.set_v_flag(((a >= 0x80) == (v >= 0x80)) && ((r >= 0x80) != (a >= 0x80)));
        self.set_zn(r);
        self.a = r;
    }

    /// Subtract with carry: add with carry of the one's complement.
    fn alu_sbc(&mut self, v: u8)
        ensures
            *final(self) == (Cpu {
                a: sbc_out(old(self).a, v, old(self).p).0,
                p: sbc_out(old(self).a, v, old(self).p).1,
                ..*old(self)
            }),
            final(self).p & 0x20 == old(self).p & 0x20,
    {
        self.alu_adc(255 - v);
    }

    /// Compare a register byte against the operand.
    fn alu_cmp(&mut self, reg: u8, v: u8)
        ensures
            *final(self) == (Cpu { p: cmp_out(reg, v, old(self).p), ..*old(self) }),
            final(self).p & 0x20 == old(self).p & 0x20,
    {
        let r = ((reg as u16 + 256 - v as u16) % 256) as u8;
        self.set_c_flag(reg >= v);
        self.set_zn(r);
    }

    /// Takes a conditional branch: on a taken branch the program counter
    /// moves to the resolved target and the instruction costs one extra
    /// cycle, plus one more if the branch crossed a page boundary.
    fn do_branch(&mut self, addr: Option<u16>, crossed: bool, cond: bool) -> (r: u8)
        ensures
            *final(self) == (if cond {
                Cpu {
                    pc: (match addr {
                        Some(a) => a,
                        None => 0,
                    }),
                    ..*old(self)
                }
            } else {
                *old(self)
            }),
            r == (if cond {
                1 + (if crossed {
                    1int
                } else {
                    0int
                })
            } else {
                0int
            }),
    {
        if cond {
            self.pc = match addr {
                Some(a) => a,
                None => 0,
            };
            if crossed {
                2
            } else {
                1
            }
        } else {
            0
        }
    }
}

/// The memory after a write-back to the effective address, where the
/// addressing mode named one.
pub open spec fn write_back(m: MachView, addr: Option<u16>, val: u8) -> MachView {
    match addr {
        Some(a) => bus_write(m, a, val),
        None => m,
    }
}

/// Writes a byte back to the effective address, where the addressing mode
/// named one.
fn write_addr(machine: &mut Machine, addr: Option<u16>, val: u8)
    requires
        old(machine).wf(),
    ensures
        final(machine).wf(),
        final(machine)@ == write_back(old(machine)@, addr, val),
{
    match addr {
        Some(a) => machine.write(a as usize, val),
        None => {},
    }
}

/// The fixed address pair a pending interrupt fetches its new program
/// counter from.
pub open spec fn vector_base(inst: Interrupt) -> u16 {
    match inst {
        Interrupt::RESET => 0xFFFC,
        Interrupt::NMI => 0xFFFA,
        Interrupt::IRQ => 0xFFFE,
        Interrupt::BRK => 0xFFFE,
    }
}

/// The 16-bit vector read little-endian from the address pair at `at`.
pub open spec fn vector_spec(m: MachView, at: u16) -> u16 {
    spec_word(bus_read(m, at), bus_read(m, spec_wrap16(at + 1)))
}

/// The push/vector-fetch routine shared by the stack-using interrupts: the
/// program counter's high byte, its low byte, then the status byte go onto
/// the stack, InterruptDisable is set, and the program counter reloads from
/// the vector at `at`.
pub open spec fn service_spec(cpu: Cpu, m: MachView, at: u16) -> (Cpu, MachView) {
    let (c1, m1) = push_spec(cpu, m, (cpu.pc / 256) as u8);
    let (c2, m2) = push_spec(c1, m1, (cpu.pc % 256) as u8);
    let (c3, m3) = push_spec(c2, m2, cpu.p);
    (Cpu { p: c3.p | FLAG_I, pc: vector_spec(m3, at), ..c3 }, m3)
}

/// The interrupt controller as a mathematical function. RESET sets
/// InterruptDisable and reloads the program counter from its vector without
/// touching the stack. NMI clears Break and runs the shared push/vector
/// routine unconditionally. IRQ and BRK only proceed while InterruptDisable
/// is clear; IRQ clears Break, BRK sets it and first advances the program
/// counter past its padding byte.
pub open spec fn interrupt_spec(cpu: Cpu, m: MachView, inst: Interrupt) -> (Cpu, MachView) {
    let at = vector_base(inst);
    match inst {
        Interrupt::RESET => (Cpu { p: cpu.p | FLAG_I, pc: vector_spec(m, at), ..cpu }, m),
        Interrupt::NMI => service_spec(Cpu { p: cpu.p & !FLAG_B, ..cpu }, m, at),
        Interrupt::IRQ => {
            if cpu.p & FLAG_I != 0 {
                (cpu, m)
            } else {
                service_spec(Cpu { p: cpu.p & !FLAG_B, ..cpu }, m, at)
            }
        },
        Interrupt::BRK => {
            if cpu.p & FLAG_I != 0 {
                (cpu, m)
            } else {
                service_spec(Cpu { p: cpu.p | FLAG_B, pc: spec_wrap16(cpu.pc + 1), ..cpu }, m, at)
            }
        },
    }
}

/// Reads the little-endian vector at the address pair starting at `at`.
fn fetch_vector(machine: &Machine, at: u16) -> (r: u16)
    requires
        machine.wf(),
    ensures
        r == vector_spec(machine@, at),
{
    let lo = machine.read(at as usize);
    let hi = machine.read(wrap16_add(at, 1) as usize);
    hi as u16 * 256 + lo as u16
}

impl Cpu {
    /// The shared interrupt entry: pushes the program counter and status,
    /// sets InterruptDisable and reloads the program counter from the vector.
    fn service(&mut self, machine: &mut Machine, at: u16)
        requires
            old(machine).wf(),
        ensures
            final(machine).wf(),
            (*final(self), final(machine)@) == service_spec(*old(self), old(machine)@, at),
            final(self).p & 0x20 == old(self).p & 0x20,
    {
        let pc = self.pc;
        self.push_stack(machine, (pc / 256) as u8);
        self.push_stack(machine, (pc % 256) as u8);
        let p = self.p;
        self.push_stack(machine, p);
        self.set_i_flag(true);
        self.pc = fetch_vector(machine, at);
    }

    /// The interrupt controller: sequences RESET, NMI, IRQ and BRK, with the
    /// status, program-counter and stack effects of `interrupt_spec`.
    pub fn interrupt(&mut self, machine: &mut Machine, inst: Interrupt)
        requires
            old(machine).wf(),
        ensures
            final(machine).wf(),
            (*final(self), final(machine)@) == interrupt_spec(
                *old(self),
                old(machine)@,
                inst,
            ),
            final(self).p & 0x20 == old(self).p & 0x20,
    {
        proof {
            lemma_flag_ops_keep_bit5(self.p);
        }
        match inst {
            Interrupt::RESET => {
                self.set_i_flag(true);
                self.pc = fetch_vector(machine, 0xFFFC);
            },
            Interrupt::NMI => {
                self.set_b_flag(false);
                self.service(machine, 0xFFFA);
            },
            Interrupt::IRQ => {
                if self.read_i_flag() == 0 {
                    self.set_b_flag(false);
                    self.service(machine, 0xFFFE);
                }
            },
            Interrupt::BRK => {
                if self.read_i_flag() == 0 {
                    self.set_b_flag(true);
                    self.pc = wrap16_add(self.pc, 1);
                    self.service(machine, 0xFFFE);
                }
            },
        }
    }
}

/// The resolved effective address, for the mnemonics whose addressing mode
/// always names one.
pub open spec fn ea_of(oi: Operand) -> u16 {
    match oi.addr {
        Some(a) => a,
        None => 0,
    }
}

/// What one mnemonic does, with the operand already resolved: the register
/// file and memory afterwards, and the extra cycles a taken branch costs.
pub ghost struct OpOut {
    pub cpu: Cpu,
    pub mem: MachView,
    pub extra: int,
}

/// A conditional branch: when taken, the program counter moves to the
/// resolved target at a cost of one extra cycle, plus one more if the branch
/// crossed a page boundary; when not taken, nothing changes.
pub open spec fn branch_spec(cpu: Cpu, m: MachView, oi: Operand, taken: bool) -> OpOut {
    if taken {
        OpOut {
            cpu: Cpu { pc: ea_of(oi), ..cpu },
            mem: m,
            extra: 1 + if oi.crossed {
                1int
            } else {
                0int
            },
        }
    } else {
        OpOut { cpu, mem: m, extra: 0 }
    }
}

/// The execution engine's semantics, one arm per mnemonic. `cpu` already has
/// its program counter moved past the opcode and operand bytes; `oi` is the
/// resolved operand against the pre-instruction memory `m`.
pub open spec fn op_spec(op: Opcode, mode: Addressing, oi: Operand, cpu: Cpu, m: MachView) -> OpOut {
    match op {
        Opcode::LDA => OpOut {
            cpu: Cpu { a: oi.value, p: upd_zn(cpu.p, oi.value), ..cpu },
            mem: m,
            extra: 0,
        },
        Opcode::LDX => OpOut {
            cpu: Cpu { x: oi.value, p: upd_zn(cpu.p, oi.value), ..cpu },
            mem: m,
            extra: 0,
        },
        Opcode::LDY => OpOut {
            cpu: Cpu { y: oi.value, p: upd_zn(cpu.p, oi.value), ..cpu },
            mem: m,
            extra: 0,
        },
        Opcode::STA => OpOut { cpu, mem: write_back(m, oi.addr, cpu.a), extra: 0 },
        Opcode::STX => OpOut { cpu, mem: write_back(m, oi.addr, cpu.x), extra: 0 },
        Opcode::STY => OpOut { cpu, mem: write_back(m, oi.addr, cpu.y), extra: 0 },
        Opcode::TAX => OpOut {
            cpu: Cpu { x: cpu.a, p: upd_zn(cpu.p, cpu.a), ..cpu },
            mem: m,
            extra: 0,
        },
        Opcode::TAY => OpOut {
            cpu: Cpu { y: cpu.a, p: upd_zn(cpu.p, cpu.a), ..cpu },
            mem: m,
            extra: 0,
        },
        Opcode::TSX => OpOut {
            cpu: Cpu { x: cpu.sp, p: upd_zn(cpu.p, cpu.sp), ..cpu },
            mem: m,
            extra: 0,
        },
        Opcode::TXA => OpOut {
            cpu: Cpu { a: cpu.x, p: upd_zn(cpu.p, cpu.x), ..cpu },
            mem: m,
            extra: 0,
        },
        Opcode::TXS => OpOut { cpu: Cpu { sp: cpu.x, ..cpu }, mem: m, extra: 0 },
        Opcode::TYA => OpOut {
            cpu: Cpu { a: cpu.y, p: upd_zn(cpu.p, cpu.y), ..cpu },
            mem: m,
            extra: 0,
        },
        Opcode::ADC => {
            let (a, p) = adc_out(cpu.a, oi.value, cpu.p);
            OpOut { cpu: Cpu { a, p, ..cpu }, mem: m, extra: 0 }
        },
        Opcode::SBC => {
            let (a, p) = sbc_out(cpu.a, oi.value, cpu.p);
            OpOut { cpu: Cpu { a, p, ..cpu }, mem: m, extra: 0 }
        },
        Opcode::AND => {
            let r = cpu.a & oi.value;
            OpOut { cpu: Cpu { a: r, p: upd_zn(cpu.p, r), ..cpu }, mem: m, extra: 0 }
        },
        Opcode::ORA => {
            let r = cpu.a | oi.value;
            OpOut { cpu: Cpu { a: r, p: upd_zn(cpu.p, r), ..cpu }, mem: m, extra: 0 }
        },
        Opcode::EOR => {
            let r = cpu.a ^ oi.value;
            OpOut { cpu: Cpu { a: r, p: upd_zn(cpu.p, r), ..cpu }, mem: m, extra: 0 }
        },
        Opcode::ASL => {
            let (r, p) = asl_out(oi.value, cpu.p);
            match mode {
                Addressing::Accumulator => OpOut { cpu: Cpu { a: r, p, ..cpu }, mem: m, extra: 0 },
                _ => OpOut { cpu: Cpu { p, ..cpu }, mem: write_back(m, oi.addr, r), extra: 0 },
            }
        },
        Opcode::LSR => {
            let (r, p) = lsr_out(oi.value, cpu.p);
            match mode {
                Addressing::Accumulator => OpOut { cpu: Cpu { a: r, p, ..cpu }, mem: m, extra: 0 },
                _ => OpOut { cpu: Cpu { p, ..cpu }, mem: write_back(m, oi.addr, r), extra: 0 },
            }
        },
        Opcode::ROL => {
            let (r, p) = rol_out(oi.value, cpu.p);
            match mode {
                Addressing::Accumulator => OpOut { cpu: Cpu { a: r, p, ..cpu }, mem: m, extra: 0 },
                _ => OpOut { cpu: Cpu { p, ..cpu }, mem: write_back(m, oi.addr, r), extra: 0 },
            }
        },
        Opcode::ROR => {
            let (r, p) = ror_out(oi.value, cpu.p);
            match mode {
                Addressing::Accumulator => OpOut { cpu: Cpu { a: r, p, ..cpu }, mem: m, extra: 0 },
                _ => OpOut { cpu: Cpu { p, ..cpu }, mem: write_back(m, oi.addr, r), extra: 0 },
            }
        },
        Opcode::BIT => OpOut {
            cpu: Cpu { p: bit_out(cpu.a, oi.value, cpu.p), ..cpu },
            mem: m,
            extra: 0,
        },
        Opcode::CMP => OpOut {
            cpu: Cpu { p: cmp_out(cpu.a, oi.value, cpu.p), ..cpu },
            mem: m,
            extra: 0,
        },
        Opcode::CPX => OpOut {
            cpu: Cpu { p: cmp_out(cpu.x, oi.value, cpu.p), ..cpu },
            mem: m,
            extra: 0,
        },
        Opcode::CPY => OpOut {
            cpu: Cpu { p: cmp_out(cpu.y, oi.value, cpu.p), ..cpu },
            mem: m,
            extra: 0,
        },
        Opcode::INC => {
            let r = ((oi.value + 1) % 256) as u8;
            OpOut {
                cpu: Cpu { p: upd_zn(cpu.p, r), ..cpu },
                mem: write_back(m, oi.addr, r),
                extra: 0,
            }
        },
        Opcode::DEC => {
            let r = ((oi.value + 255) % 256) as u8;
            OpOut {
                cpu: Cpu { p: upd_zn(cpu.p, r), ..cpu },
                mem: write_back(m, oi.addr, r),
                extra: 0,
            }
        },
        Opcode::INX => {
            let r = ((cpu.x + 1) % 256) as u8;
            OpOut { cpu: Cpu { x: r, p: upd_zn(cpu.p, r), ..cpu }, mem: m, extra: 0 }
        },
        Opcode::INY => {
            let r = ((cpu.y + 1) % 256) as u8;
            OpOut { cpu: Cpu { y: r, p: upd_zn(cpu.p, r), ..cpu }, mem: m, extra: 0 }
        },
        Opcode::DEX => {
            let r = ((cpu.x + 255) % 256) as u8;
            OpOut { cpu: Cpu { x: r, p: upd_zn(cpu.p, r), ..cpu }, mem: m, extra: 0 }
        },
        Opcode::DEY => {
            let r = ((cpu.y + 255) % 256) as u8;
            OpOut { cpu: Cpu { y: r, p: upd_zn(cpu.p, r), ..cpu }, mem: m, extra: 0 }
        },
        Opcode::PHA => {
            let (c, mm) = push_spec(cpu, m, cpu.a);
            OpOut { cpu: c, mem: mm, extra: 0 }
        },
        Opcode::PHP => {
            let (c, mm) = push_spec(cpu, m, cpu.p);
            OpOut { cpu: c, mem: mm, extra: 0 }
        },
        Opcode::PLA => {
            let (c, v) = pop_spec(cpu, m);
            OpOut { cpu: Cpu { a: v, p: upd_zn(c.p, v), ..c }, mem: m, extra: 0 }
        },
        Opcode::PLP => {
            let (c, v) = pop_spec(cpu, m);
            OpOut { cpu: Cpu { p: v | FLAG_U, ..c }, mem: m, extra: 0 }
        },
        Opcode::JMP => OpOut { cpu: Cpu { pc: ea_of(oi), ..cpu }, mem: m, extra: 0 },
        Opcode::JSR => {
            let ret = spec_wrap16(cpu.pc + 0xFFFF);
            let (c1, m1) = push_spec(cpu, m, (ret / 256) as u8);
            let (c2, m2) = push_spec(c1, m1, (ret % 256) as u8);
            OpOut { cpu: Cpu { pc: ea_of(oi), ..c2 }, mem: m2, extra: 0 }
        },
        Opcode::RTS => {
            let (c1, lo) = pop_spec(cpu, m);
            let (c2, hi) = pop_spec(c1, m);
            OpOut { cpu: Cpu { pc: spec_wrap16(hi * 256 + lo + 1), ..c2 }, mem: m, extra: 0 }
        },
        Opcode::RTI => {
            let (c1, s) = pop_spec(cpu, m);
            let (c2, lo) = pop_spec(c1, m);
            let (c3, hi) = pop_spec(c2, m);
            OpOut { cpu: Cpu { p: s | FLAG_U, pc: spec_word(lo, hi), ..c3 }, mem: m, extra: 0 }
        },
        Opcode::BCC => branch_spec(cpu, m, oi, !flag_set(cpu.p, FLAG_C)),
        Opcode::BCS => branch_spec(cpu, m, oi, flag_set(cpu.p, FLAG_C)),
        Opcode::BEQ => branch_spec(cpu, m, oi, flag_set(cpu.p, FLAG_Z)),
        Opcode::BNE => branch_spec(cpu, m, oi, !flag_set(cpu.p, FLAG_Z)),
        Opcode::BMI => branch_spec(cpu, m, oi, flag_set(cpu.p, FLAG_N)),
        Opcode::BPL => branch_spec(cpu, m, oi, !flag_set(cpu.p, FLAG_N)),
        Opcode::BVC => branch_spec(cpu, m, oi, !flag_set(cpu.p, FLAG_V)),
        Opcode::BVS => branch_spec(cpu, m, oi, flag_set(cpu.p, FLAG_V)),
        Opcode::CLC => OpOut {
            cpu: Cpu { p: set_flag(cpu.p, FLAG_C, false), ..cpu },
            mem: m,
            extra: 0,
        },
        Opcode::CLD => OpOut {
            cpu: Cpu { p: set_flag(cpu.p, FLAG_D, false), ..cpu },
            mem: m,
            extra: 0,
        },
        Opcode::CLI => OpOut {
            cpu: Cpu { p: set_flag(cpu.p, FLAG_I, false), ..cpu },
            mem: m,
            extra: 0,
        },
        Opcode::CLV => OpOut {
            cpu: Cpu { p: set_flag(cpu.p, FLAG_V, false), ..cpu },
            mem: m,
            extra: 0,
        },
        Opcode::SEC => OpOut {
            cpu: Cpu { p: set_flag(cpu.p, FLAG_C, true), ..cpu },
            mem: m,
            extra: 0,
        },
        Opcode::SED => OpOut {
            cpu: Cpu { p: set_flag(cpu.p, FLAG_D, true), ..cpu },
            mem: m,
            extra: 0,
        },
        Opcode::SEI => OpOut {
            cpu: Cpu { p: set_flag(cpu.p, FLAG_I, true), ..cpu },
            mem: m,
            extra: 0,
        },
        Opcode::BRK => {
            let (c, mm) = interrupt_spec(cpu, m, Interrupt::BRK);
            OpOut { cpu: c, mem: mm, extra: 0 }
        },
        Opcode::NOP => OpOut { cpu, mem: m, extra: 0 },
        Opcode::DCP => {
            let r = ((oi.value + 255) % 256) as u8;
            OpOut {
                cpu: Cpu { p: cmp_out(cpu.a, r, cpu.p), ..cpu },
                mem: write_back(m, oi.addr, r),
                extra: 0,
            }
        },
        Opcode::ISC => {
            let r = ((oi.value + 1) % 256) as u8;
            let (a, p) = sbc_out(cpu.a, r, cpu.p);
            OpOut { cpu: Cpu { a, p, ..cpu }, mem: write_back(m, oi.addr, r), extra: 0 }
        },
        Opcode::RLA => {
            let (r, p1) = rol_out(oi.value, cpu.p);
            let a = cpu.a & r;
            OpOut {
                cpu: Cpu { a, p: upd_zn(p1, a), ..cpu },
                mem: write_back(m, oi.addr, r),
                extra: 0,
            }
        },
        Opcode::RRA => {
            let (r, p1) = ror_out(oi.value, cpu.p);
            let (a, p2) = adc_out(cpu.a, r, p1);
            OpOut { cpu: Cpu { a, p: p2, ..cpu }, mem: write_back(m, oi.addr, r), extra: 0 }
        },
        Opcode::SLO => {
            let (r, p1) = asl_out(oi.value, cpu.p);
            let a = cpu.a | r;
            OpOut {
                cpu: Cpu { a, p: upd_zn(p1, a), ..cpu },
                mem: write_back(m, oi.addr, r),
                extra: 0,
            }
        },
        Opcode::SRE => {
            let (r, p1) = lsr_out(oi.value, cpu.p);
            let a = cpu.a ^ r;
            OpOut {
                cpu: Cpu { a, p: upd_zn(p1, a), ..cpu },
                mem: write_back(m, oi.addr, r),
                extra: 0,
            }
        },
        Opcode::ALR => {
            let t = cpu.a & oi.value;
            let (r, p) = lsr_out(t, cpu.p);
            OpOut { cpu: Cpu { a: r, p, ..cpu }, mem: m, extra: 0 }
        },
        Opcode::ANC => {
            let t = cpu.a & oi.value;
            OpOut {
                cpu: Cpu { a: t, p: set_flag(upd_zn(cpu.p, t), FLAG_C, t >= 0x80), ..cpu },
                mem: m,
                extra: 0,
            }
        },
        Opcode::ARR => {
            let t = cpu.a & oi.value;
            let (r, p) = ror_out(t, cpu.p);
            OpOut { cpu: Cpu { a: r, p, ..cpu }, mem: m, extra: 0 }
        },
        Opcode::AXS => {
            let t = cpu.a & cpu.x;
            let r = (((t + 256) - oi.value) % 256) as u8;
            OpOut {
                cpu: Cpu { x: r, p: cmp_out(t, oi.value, cpu.p), ..cpu },
                mem: m,
                extra: 0,
            }
        },
        Opcode::LAX => OpOut {
            cpu: Cpu { a: oi.value, x: oi.value, p: upd_zn(cpu.p, oi.value), ..cpu },
            mem: m,
            extra: 0,
        },
        Opcode::SAX => OpOut { cpu, mem: write_back(m, oi.addr, cpu.a & cpu.x), extra: 0 },
        Opcode::SKB => OpOut { cpu, mem: m, extra: 0 },
        Opcode::IGN => OpOut { cpu, mem: m, extra: 0 },
    }
}

/// The mnemonics that only read their operand: crossing a page boundary
/// during their indexed access costs one extra cycle. Writes and
/// read-modify-write operations always pay their full indexed cost.
pub open spec fn page_penalty(op: Opcode) -> bool {
    match op {
        Opcode::LDA => true,
        Opcode::LDX => true,
        Opcode::LDY => true,
        Opcode::ADC => true,
        Opcode::SBC => true,
        Opcode::AND => true,
        Opcode::ORA => true,
        Opcode::EOR => true,
        Opcode::CMP => true,
        Opcode::LAX => true,
        Opcode::IGN => true,
        _ => false,
    }
}

/// One full instruction: the register file and memory afterwards, and the
/// elapsed cycle count.
pub ghost struct Step {
    pub cpu: Cpu,
    pub mem: MachView,
    pub cycles: int,
}

/// One fetch-decode-execute step as a mathematical function: fetch the byte
/// at the program counter, decode it, move past the opcode, resolve the
/// addressing mode, run the mnemonic, and charge the decode table's base
/// cycle count plus any page-cross and branch-taken penalties.
#[verifier::opaque]
pub open spec fn step_spec(cpu0: Cpu, m0: MachView) -> Step {
    let inst = spec_decode(bus_read(m0, cpu0.pc));
    let cpu1 = Cpu { pc: spec_wrap16(cpu0.pc + 1), ..cpu0 };
    let oi = operand_spec(cpu1, m0, inst.2);
    let cpu2 = Cpu { pc: oi.pc2, ..cpu1 };
    let out = op_spec(inst.1, inst.2, oi, cpu2, m0);
    Step {
        cpu: out.cpu,
        mem: out.mem,
        cycles: inst.0 + (if oi.crossed && page_penalty(inst.1) {
            1int
        } else {
            0int
        }) + out.extra,
    }
}

/// Whether a mnemonic pays the page-cross penalty on an indexed read.
fn is_page_penalty(op: &Opcode) -> (r: bool)
    ensures
        r == page_penalty(*op),
{
    match op {
        Opcode::LDA => true,
        Opcode::LDX => true,
        Opcode::LDY => true,
        Opcode::ADC => true,
        Opcode::SBC => true,
        Opcode::AND => true,
        Opcode::ORA => true,
        Opcode::EOR => true,
        Opcode::CMP => true,
        Opcode::LAX => true,
        Opcode::IGN => true,
        _ => false,
    }
}

impl Cpu {
    /// The execution engine: fetches the byte at the program counter over the
    /// bus, decodes it, resolves the addressing mode, performs the mnemonic's
    /// semantics against the register file and the bus, and returns the
    /// elapsed cycle count. Every opcode byte, the unmapped ones included,
    /// has defined behavior; bit 5 of the status byte stays set.
    pub fn exec(&mut self, machine: &mut Machine) -> (r: u8)
        requires
            old(self).wf(),
            old(machine).wf(),
        ensures
            final(self).wf(),
            final(machine).wf(),
            ({
                let s = step_spec(*old(self), old(machine)@);
                &&& *final(self) == s.cpu
                &&& final(machine)@ == s.mem
                &&& r as int == s.cycles
            }),
    {
        let code = machine.read(self.pc as usize);
        proof {
            reveal(step_spec);
            lemma_decode_cycle_bounds(code);
        }
        let Instruction(cycle, opcode, addr_mode) = self.convert(code);
        self.pc = wrap16_add(self.pc, 1);
        let (addr, value, crossed) = self.fetch_operand(machine, addr_mode);
        let penalty: u8 = if crossed && is_page_penalty(&opcode) {
            1
        } else {
            0
        };
        let extra: u8 = match opcode {
            Opcode::LDA => {
                self.a = value;
                self.set_zn(value);
                0
            },
            Opcode::LDX => {
                self.x = value;
                self.set_zn(value);
                0
            },
            Opcode::LDY => {
                self.y = value;
                self.set_zn(value);
                0
            },
            Opcode::STA => {
                write_addr(machine, addr, self.a);
                0
            },
            Opcode::STX => {
                write_addr(machine, addr, self.x);
                0
            },
            Opcode::STY => {
                write_addr(machine, addr, self.y);
                0
            },
            Opcode::TAX => {
                let v = self.a;
                self.x = v;
                self.set_zn(v);
                0
            },
            Opcode::TAY => {
                let v = self.a;
                self.y = v;
                self.set_zn(v);
                0
            },
            Opcode::TSX => {
                let v = self.sp;
                self.x = v;
                self.set_zn(v);
                0
            },
            Opcode::TXA => {
                let v = self.x;
                self.a = v;
                self.set_zn(v);
                0
            },
            Opcode::TXS => {
                self.sp = self.x;
                0
            },
            Opcode::TYA => {
                let v = self.y;
                self.a = v;
                self.set_zn(v);
                0
            },
            Opcode::ADC => {
                self.alu_adc(value);
                0
            },
            Opcode::SBC => {
                self.alu_sbc(value);
                0
            },
            Opcode::AND => {
                let r = self.a & value;
                self.a = r;
                self.set_zn(r);
                0
            },
            Opcode::ORA => {
                let r = self.a | value;
                self.a = r;
                self.set_zn(r);
                0
            },
            Opcode::EOR => {
                let r = self.a ^ value;
                self.a = r;
                self.set_zn(r);
                0
            },
            Opcode::ASL => {
                let r = ((value as u16 * 2) % 256) as u8;
                self.set_c_flag(value >= 0x80);
                self.set_zn(r);
                match addr_mode {
                    Addressing::Accumulator => self.a = r,
                    _ => write_addr(machine, addr, r),
                }
                0
            },
            Opcode::LSR => {
                let r = value / 2;
                self.set_c_flag(value % 2 == 1);
                self.set_zn(r);
                match addr_mode {
                    Addressing::Accumulator => self.a = r,
                    _ => write_addr(machine, addr, r),
                }
                0
            },
            Opcode::ROL => {
                let c: u16 = if self.read_c_flag() != 0 {
                    1
                } else {
                    0
                };
                let r = ((value as u16 * 2 + c) % 256) as u8;
                self.set_c_flag(value >= 0x80);
                self.set_zn(r);
                match addr_mode {
                    Addressing::Accumulator => self.a = r,
                    _ => write_addr(machine, addr, r),
                }
                0
            },
            Opcode::ROR => {
                let c: u8 = if self.read_c_flag() != 0 {
                    1
                } else {
                    0
                };
                let r = value / 2 + c * 128;
                self.set_c_flag(value % 2 == 1);
                self.set_zn(r);
                match addr_mode {
                    Addressing::Accumulator => self.a = r,
                    _ => write_addr(machine, addr, r),
                }
                0
            },
            Opcode::BIT => {
                self.set_n_flag(value >= 0x80);
                self.set_v_flag((value / 64) % 2 == 1);
                self.set_z_flag(self.a & value == 0);
                0
            },
            Opcode::CMP => {
                let reg = self.a;
                self.alu_cmp(reg, value);
                0
            },
            Opcode::CPX => {
                let reg = self.x;
                self.alu_cmp(reg, value);
                0
            },
            Opcode::CPY => {
                let reg = self.y;
                self.alu_cmp(reg, value);
                0
            },
            Opcode::INC => {
                let r = ((value as u16 + 1) % 256) as u8;
                write_addr(machine, addr, r);
                self.set_zn(r);
                0
            },
            Opcode::DEC => {
                let r = ((value as u16 + 255) % 256) as u8;
                write_addr(machine, addr, r);
                self.set_zn(r);
                0
            },
            Opcode::INX => {
                let r = ((self.x as u16 + 1) % 256) as u8;
                self.x = r;
                self.set_zn(r);
                0
            },
            Opcode::INY => {
                let r = ((self.y as u16 + 1) % 256) as u8;
                self.y = r;
                self.set_zn(r);
                0
            },
            Opcode::DEX => {
                let r = ((self.x as u16 + 255) % 256) as u8;
                self.x = r;
                self.set_zn(r);
                0
            },
            Opcode::DEY => {
                let r = ((self.y as u16 + 255) % 256) as u8;
                self.y = r;
                self.set_zn(r);
                0
            },
            Opcode::PHA => {
                let v = self.a;
                self.push_stack(machine, v);
                0
            },
            Opcode::PHP => {
                let v = self.p;
                self.push_stack(machine, v);
                0
            },
            Opcode::PLA => {
                let v = self.pop_stack(machine);
                self.a = v;
                self.set_zn(v);
                0
            },
            Opcode::PLP => {
                let v = self.pop_stack(machine);
                proof {
                    lemma_flag_ops_keep_bit5(v);
                }
                self.p = v | FLAG_U;
                0
            },
            Opcode::JMP => {
                self.pc = match addr {
                    Some(a) => a,
                    None => 0,
                };
                0
            },
            Opcode::JSR => {
                let ret = wrap16_add(self.pc, 0xFFFF);
                self.push_stack(machine, (ret / 256) as u8);
                self.push_stack(machine, (ret % 256) as u8);
                self.pc = match addr {
                    Some(a) => a,
                    None => 0,
                };
                0
            },
            Opcode::RTS => {
                let lo = self.pop_stack(machine);
                let hi = self.pop_stack(machine);
                self.pc = ((hi as u32 * 256 + lo as u32 + 1) % 0x10000) as u16;
                0
            },
            Opcode::RTI => {
                let s = self.pop_stack(machine);
                let lo = self.pop_stack(machine);
                let hi = self.pop_stack(machine);
                proof {
                    lemma_flag_ops_keep_bit5(s);
                }
                self.p = s | FLAG_U;
                self.pc = hi as u16 * 256 + lo as u16;
                0
            },
            Opcode::BCC => {
                let cond = self.read_c_flag() == 0;
                self.do_branch(addr, crossed, cond)
            },
            Opcode::BCS => {
                let cond = self.read_c_flag() != 0;
                self.do_branch(addr, crossed, cond)
            },
            Opcode::BEQ => {
                let cond = self.read_z_flag() != 0;
                self.do_branch(addr, crossed, cond)
            },
            Opcode::BNE => {
                let cond = self.read_z_flag() == 0;
                self.do_branch(addr, crossed, cond)
            },
            Opcode::BMI => {
                let cond = self.read_n_flag() != 0;
                self.do_branch(addr, crossed, cond)
            },
            Opcode::BPL => {
                let cond = self.read_n_flag() == 0;
                self.do_branch(addr, crossed, cond)
            },
            Opcode::BVC => {
                let cond = self.read_v_flag() == 0;
                self.do_branch(addr, crossed, cond)
            },
            Opcode::BVS => {
                let cond = self.read_v_flag() != 0;
                self.do_branch(addr, crossed, cond)
            },
            Opcode::CLC => {
                self.set_c_flag(false);
                0
            },
            Opcode::CLD => {
                self.set_d_flag(false);
                0
            },
            Opcode::CLI => {
                self.set_i_flag(false);
                0
            },
            Opcode::CLV => {
                self.set_v_flag(false);
                0
            },
            Opcode::SEC => {
                self.set_c_flag(true);
                0
            },
            Opcode::SED => {
                self.set_d_flag(true);
                0
            },
            Opcode::SEI => {
                self.set_i_flag(true);
                0
            },
            Opcode::BRK => {
                self.interrupt(machine, Interrupt::BRK);
                0
            },
            Opcode::NOP => { 0 },
            Opcode::DCP => {
                let r = ((value as u16 + 255) % 256) as u8;
                write_addr(machine, addr, r);
                let reg = self.a;
                self.alu_cmp(reg, r);
                0
            },
            Opcode::ISC => {
                let r = ((value as u16 + 1) % 256) as u8;
                write_addr(machine, addr, r);
                self.alu_sbc(r);
                0
            },
            Opcode::RLA => {
                let c: u16 = if self.read_c_flag() != 0 {
                    1
                } else {
                    0
                };
                let r = ((value as u16 * 2 + c) % 256) as u8;
                self.set_c_flag(value >= 0x80);
                self.set_zn(r);
                let a = self.a & r;
                self.a = a;
                self.set_zn(a);
                write_addr(machine, addr, r);
                0
            },
            Opcode::RRA => {
                let c: u8 = if self.read_c_flag() != 0 {
                    1
                } else {
                    0
                };
                let r = value / 2 + c * 128;
                self.set_c_flag(value % 2 == 1);
                self.set_zn(r);
                self.alu_adc(r);
                write_addr(machine, addr, r);
                0
            },
            Opcode::SLO => {
                let r = ((value as u16 * 2) % 256) as u8;
                self.set_c_flag(value >= 0x80);
                self.set_zn(r);
                let a = self.a | r;
                self.a = a;
                self.set_zn(a);
                write_addr(machine, addr, r);
                0
            },
            Opcode::SRE => {
                let r = value / 2;
                self.set_c_flag(value % 2 == 1);
                self.set_zn(r);
                let a = self.a ^ r;
                self.a = a;
                self.set_zn(a);
                write_addr(machine, addr, r);
                0
            },
            Opcode::ALR => {
                let t = self.a & value;
                let r = t / 2;
                self.set_c_flag(t % 2 == 1);
                self.set_zn(r);
                self.a = r;
                0
            },
            Opcode::ANC => {
                let t = self.a & value;
                self.set_zn(t);
                self.set_c_flag(t >= 0x80);
                self.a = t;
                0
            },
            Opcode::ARR => {
                let t = self.a & value;
                let c: u8 = if self.read_c_flag() != 0 {
                    1
                } else {
                    0
                };
                let r = t / 2 + c * 128;
                self.set_c_flag(t % 2 == 1);
                self.set_zn(r);
                self.a = r;
                0
            },
            Opcode::AXS => {
                let t = self.a & self.x;
                self.alu_cmp(t, value);
                self.x = ((t as u16 + 256 - value as u16) % 256) as u8;
                0
            },
            Opcode::LAX => {
                self.a = value;
                self.x = value;
                self.set_zn(value);
                0
            },
            Opcode::SAX => {
                write_addr(machine, addr, self.a & self.x);
                0
            },
            Opcode::SKB => { 0 },
            Opcode::IGN => { 0 },
        };
        cycle + penalty + extra
    }
}

/// Branch timing: a taken branch (here a BEQ, opcode `0xF0`, with the Zero
/// flag set) costs its base cycle count plus one, and plus two when the
/// branch target lies on another page than the instruction that follows the
/// branch.
pub proof fn lemma_branch_taken_timing(cpu: Cpu, m: MachView)
    requires
        bus_read(m, cpu.pc) == 0xf0,
        flag_set(cpu.p, FLAG_Z),
    ensures
        ({
            let inst = spec_decode(bus_read(m, cpu.pc));
            let cpu1 = Cpu { pc: spec_wrap16(cpu.pc + 1), ..cpu };
            let oi = operand_spec(cpu1, m, inst.2);
            step_spec(cpu, m).cycles == inst.0 + (if oi.crossed {
                2int
            } else {
                1int
            })
        }),
{
    reveal(step_spec);
}

/// A branch that is not taken costs exactly its base cycle count: a BEQ with
/// the Zero flag clear changes nothing but the program counter's move past
/// the instruction.
pub proof fn lemma_branch_not_taken_timing(cpu: Cpu, m: MachView)
    requires
        bus_read(m, cpu.pc) == 0xf0,
        !flag_set(cpu.p, FLAG_Z),
    ensures
        step_spec(cpu, m).cycles == spec_decode(bus_read(m, cpu.pc)).0,
        step_spec(cpu, m).mem == m,
{
    reveal(step_spec);
}

/// One JSR step in closed form: the return address — the JSR's own address
/// plus two, the address of its last operand byte — goes onto the stack high
/// byte then low byte, the stack pointer drops twice, and the instruction
/// costs its six base cycles.
pub proof fn lemma_jsr_step(cpu: Cpu, m: MachView)
    requires
        m.wf(),
        bus_read(m, cpu.pc) == 0x20,
    ensures
        ({
            let s1 = step_spec(cpu, m);
            let ret = spec_wrap16(cpu.pc + 2);
            let m1 = bus_write(m, stack_addr(cpu.sp), (ret / 256) as u8);
            let m2 = bus_write(m1, stack_addr(sp_dec(cpu.sp)), (ret % 256) as u8);
            &&& s1.cpu.sp == sp_dec(sp_dec(cpu.sp))
            &&& s1.mem == m2
            &&& s1.cycles == 6
        }),
{
    reveal(step_spec);
    let n = 0x10000int;
    lemma_add_mod_noop(cpu.pc + 1, 2, n);
    lemma_add_mod_noop(cpu.pc + 3, 0xFFFF, n);
    lemma_mod_add_multiples_vanish(cpu.pc + 2, n);
    assert(spec_wrap16(spec_wrap16(spec_wrap16(cpu.pc + 1) + 2) + 0xFFFF) == spec_wrap16(
        cpu.pc + 2,
    ));
}

/// One RTS step in closed form: the stack pointer climbs twice, and the
/// program counter becomes the popped word — low byte first — plus one.
pub proof fn lemma_rts_step(cpu: Cpu, m: MachView)
    requires
        m.wf(),
        bus_read(m, cpu.pc) == 0x60,
    ensures
        ({
            let s = step_spec(cpu, m);
            let lo = bus_read(m, stack_addr(sp_inc(cpu.sp)));
            let hi = bus_read(m, stack_addr(sp_inc(sp_inc(cpu.sp))));
            &&& s.cpu.sp == sp_inc(sp_inc(cpu.sp))
            &&& s.cpu.pc == spec_wrap16(hi * 256 + lo + 1)
            &&& s.mem == m
        }),
{
    reveal(step_spec);
}

/// The JSR/RTS round trip: a JSR (opcode `0x20`) at `cpu.pc`, followed by the
/// RTS (opcode `0x60`) it lands on, leaves the program counter three past the
/// JSR — its opcode plus two operand bytes — and the stack pointer exactly
/// where it was before the call.
#[verifier::rlimit(100)]
#[verifier::spinoff_prover]
pub proof fn lemma_jsr_rts_round_trip(cpu: Cpu, m: MachView)
    requires
        m.wf(),
        bus_read(m, cpu.pc) == 0x20,
        ({
            let s1 = step_spec(cpu, m);
            bus_read(s1.mem, s1.cpu.pc) == 0x60
        }),
    ensures
        ({
            let s1 = step_spec(cpu, m);
            let s2 = step_spec(s1.cpu, s1.mem);
            s2.cpu.pc == spec_wrap16(cpu.pc + 3) && s2.cpu.sp == cpu.sp
        }),
{
    lemma_jsr_step(cpu, m);
    let s1 = step_spec(cpu, m);
    let ret = spec_wrap16(cpu.pc + 2);
    let hi = (ret / 256) as u8;
    let lo = (ret % 256) as u8;
    let a_hi = stack_addr(cpu.sp);
    let a_lo = stack_addr(sp_dec(cpu.sp));
    let m1 = bus_write(m, a_hi, hi);
    let m2 = bus_write(m1, a_lo, lo);
    // the pushed bytes read back unchanged: the two stack cells differ
    assert(a_hi as int % 0x800 != a_lo as int % 0x800);
    lemma_wram_write_read(m, a_hi, a_hi, hi);
    lemma_wram_write_read(m1, a_lo, a_hi, lo);
    assert(bus_read(m2, a_lo) == lo);
    assert(bus_read(m2, a_hi) == hi);
    // the RTS pops them in order and restores the stack pointer
    lemma_rts_step(s1.cpu, s1.mem);
    let s2 = step_spec(s1.cpu, s1.mem);
    assert(sp_inc(s1.cpu.sp) == sp_dec(cpu.sp));
    assert(sp_inc(sp_inc(s1.cpu.sp)) == cpu.sp);
    assert(s2.cpu.sp == cpu.sp);
    assert(s2.cpu.pc == spec_wrap16(hi * 256 + lo + 1));
    // the popped word, plus one, is three past the JSR's own address
    lemma_fundamental_div_mod(ret as int, 256);
    assert(hi as int * 256 + lo as int == ret as int);
    lemma_add_mod_noop(cpu.pc + 2, 1, 0x10000int);
    assert(spec_wrap16(ret + 1) == spec_wrap16(cpu.pc + 3));
}

} // verus!
