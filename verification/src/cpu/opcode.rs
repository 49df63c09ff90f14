use vstd::prelude::*;

pub use super::addr::AddressingMode;
use super::addr::{addresses_memory, mode_len};
use super::{CPU, CpuState};

verus! {

broadcast use super::lemma_operand_in_frame;

/// A decoded opcode byte: the instruction, its mnemonic, its length in bytes, its base
/// cycle count and its addressing mode.
#[derive(Copy, Clone, Debug, PartialEq, Eq)]
pub struct OpCode {
    pub byte: u8,
    pub instruction: Instruction,
    pub mnemonic: &'static str,
    pub len: u8,
    pub cycles: usize,
    pub mode: AddressingMode,
}

/// The 6502 instructions, official and unofficial, that the 256 opcode bytes decode to.
#[derive(Copy, Clone, Debug, PartialEq, Eq, Structural)]
#[allow(non_camel_case_types, clippy::upper_case_acronyms)]
pub enum Instruction {
    /// Load Accumulator
    LDA,
    /// Load X register
    LDX,
    /// Load Y register
    LDY,
    /// Store Accumulator
    STA,
    /// Store X register
    STX,
    /// Store Y register
    STY,
    /// Transfer Accumulator to X
    TAX,
    /// Transfer Accumulator to Y
    TAY,
    /// Transfer X to Accumulator
    TXA,
    /// Transfer Y to Accumulator
    TYA,
    /// Transfer Stack Pointer to X
    TSX,
    /// Transfer X to Stack Pointer
    TXS,
    /// Push Accumulator on Stack
    PHA,
    /// Push Processor Status on Stack
    PHP,
    /// Pull Accumulator from Stack
    PLA,
    /// Pull Processor Status from Stack
    PLP,
    /// Logical AND
    AND,
    /// Exclusive OR
    EOR,
    /// Logical Inclusive OR
    ORA,
    /// Bit Test
    BIT,
    /// Add with Carry
    ADC,
    /// Subtract with Carry
    SBC,
    /// Compare Accumulator
    CMP,
    /// Compare X register
    CPX,
    /// Compare Y register
    CPY,
    /// Increment a memory location
    INC,
    /// Increment the X register
    INX,
    /// Increment the Y register
    INY,
    /// Decrement a memory location
    DEC,
    /// Decrement the X register
    DEX,
    /// Decrement the Y register
    DEY,
    /// Arithmetic Shift Left
    ASL,
    /// Logical Shift Right
    LSR,
    /// Rotate Left
    ROL,
    /// Rotate Right
    ROR,
    /// Jump to another location
    JMP,
    /// Jump to subroutine
    JSR,
    /// Return from subroutine
    RTS,
    /// Branch if Carry flag clear
    BCC,
    /// Branch if Carry flag set
    BCS,
    /// Branch if Zero flag set
    BEQ,
    /// Branch if Negative flag set
    BMI,
    /// Branch if Zero flag clear
    BNE,
    /// Branch if Negative flag clear
    BPL,
    /// Branch if Overflow flag clear
    BVC,
    /// Branch if Overflow flag set
    BVS,
    /// Clear Carry flag
    CLC,
    /// Clear Decimal Mode flag
    CLD,
    /// Clear Interrupt Disable flag
    CLI,
    /// Clear Overflow flag
    CLV,
    /// Set Carry flag
    SEC,
    /// Set Decimal Mode flag
    SED,
    /// Set Interrupt Disable flag
    SEI,
    /// Force an Interrupt
    BRK,
    /// No Operation
    NOP,
    /// Return from Interrupt
    RTI,
    /// No Operation
    NOP_ALT,
    /// Equivalent to `ASL value` then `ORA value`
    SLO,
    /// Equivalent to `ROL value` then `AND value`
    RLA,
    /// Equivalent to `LSR value` then `EOR value`
    SRE,
    /// Equivalent to `ROR value` then `ADC value`
    RRA,
    /// Stores `A & X` into `{adr}`
    SAX,
    /// Shortcut for `LDA value` then `TAX`
    LAX,
    /// Equivalent to `DEC value` then `CMP value`
    DCP,
    /// Equivalent to `INC value` then `SBC value`
    ISC,
    /// Does `AND #i` then copies `N` to `C`
    ANC,
    /// Equivalent to `AND #i` then `LSR A`
    ALR,
    /// Similar to `AND #i`, but `C` is `bit 6` and `V` is `bit 6 XOR bit 5`
    ARR,
    /// Unpredictable behavior - https://www.nesdev.org/wiki/Visual6502wiki/6502_Opcode_8B_(XAA,_ANE) \
    /// ***WARNING:*** Highly Unstable
    XAA,
    /// Sets `X` to `A & X - #{imm}`
    AXS,
    /// Equivalent to `SBC #i` then `NOP`
    SBC_NOP,
    /// An incorrectly-implemented version of `SAX value` \
    /// **WARNING:** Unstable in certain situations
    AHX,
    /// An incorrectly-implemented version of `STY a,X` \
    /// **WARNING:** Unstable in certain situations
    SHY,
    /// An incorrectly-implemented version of `STX a,Y` \
    /// **WARNING:** Unstable in certain situations
    SHX,
    /// Stores `A & X` into `S` then `AHX a,Y` \
    /// **WARNING:** Unstable in certain situations
    TAS,
    /// Stores `{adr} & S` into `A`, `X`, and `S`
    LAS,
    /// Traps the CPU indefinitely with $FF on the bus, requires a reset to fix
    KIL,
}

/// The instruction, base cycle count and addressing mode of each opcode byte.
#[verifier::opaque]
pub open spec fn opcode_entry(byte: u8) -> (Instruction, usize, AddressingMode) {
    match byte {
        0x00 => (Instruction::BRK, 7, AddressingMode::Implicit),
        0x01 => (Instruction::ORA, 6, AddressingMode::Indirect_X),
        0x02 => (Instruction::KIL, 0, AddressingMode::Implicit),
        0x03 => (Instruction::SLO, 8, AddressingMode::Indirect_X),
        0x04 => (Instruction::NOP_ALT, 3, AddressingMode::ZeroPage),
        0x05 => (Instruction::ORA, 3, AddressingMode::ZeroPage),
        0x06 => (Instruction::ASL, 5, AddressingMode::ZeroPage),
        0x07 => (Instruction::SLO, 5, AddressingMode::ZeroPage),
        0x08 => (Instruction::PHP, 3, AddressingMode::Implicit),
        0x09 => (Instruction::ORA, 2, AddressingMode::Immediate),
        0x0A => (Instruction::ASL, 2, AddressingMode::Accumulator),
        0x0B => (Instruction::ANC, 2, AddressingMode::Immediate),
        0x0C => (Instruction::NOP_ALT, 4, AddressingMode::Absolute),
        0x0D => (Instruction::ORA, 4, AddressingMode::Absolute),
        0x0E => (Instruction::ASL, 6, AddressingMode::Absolute),
        0x0F => (Instruction::SLO, 6, AddressingMode::Absolute),
        0x10 => (Instruction::BPL, 2, AddressingMode::Relative),
        0x11 => (Instruction::ORA, 5, AddressingMode::Indirect_Y),
        0x12 => (Instruction::KIL, 0, AddressingMode::Implicit),
        0x13 => (Instruction::SLO, 8, AddressingMode::Indirect_Y),
        0x14 => (Instruction::NOP_ALT, 4, AddressingMode::ZeroPage_X),
        0x15 => (Instruction::ORA, 4, AddressingMode::ZeroPage_X),
        0x16 => (Instruction::ASL, 6, AddressingMode::ZeroPage_X),
        0x17 => (Instruction::SLO, 6, AddressingMode::ZeroPage_X),
        0x18 => (Instruction::CLC, 2, AddressingMode::Implicit),
        0x19 => (Instruction::ORA, 4, AddressingMode::Absolute_Y),
        0x1A => (Instruction::NOP_ALT, 2, AddressingMode::Implicit),
        0x1B => (Instruction::SLO, 7, AddressingMode::Absolute_Y),
        0x1C => (Instruction::NOP_ALT, 4, AddressingMode::Absolute_X),
        0x1D => (Instruction::ORA, 4, AddressingMode::Absolute_X),
        0x1E => (Instruction::ASL, 7, AddressingMode::Absolute_X),
        0x1F => (Instruction::SLO, 7, AddressingMode::Absolute_X),
        0x20 => (Instruction::JSR, 6, AddressingMode::Absolute),
        0x21 => (Instruction::AND, 6, AddressingMode::Indirect_X),
        0x22 => (Instruction::KIL, 0, AddressingMode::Implicit),
        0x23 => (Instruction::RLA, 8, AddressingMode::Indirect_X),
        0x24 => (Instruction::BIT, 3, AddressingMode::ZeroPage),
        0x25 => (Instruction::AND, 3, AddressingMode::ZeroPage),
        0x26 => (Instruction::ROL, 5, AddressingMode::ZeroPage),
        0x27 => (Instruction::RLA, 5, AddressingMode::ZeroPage),
        0x28 => (Instruction::PLP, 4, AddressingMode::Implicit),
        0x29 => (Instruction::AND, 2, AddressingMode::Immediate),
        0x2A => (Instruction::ROL, 2, AddressingMode::Accumulator),
        0x2B => (Instruction::ANC, 2, AddressingMode::Immediate),
        0x2C => (Instruction::BIT, 4, AddressingMode::Absolute),
        0x2D => (Instruction::AND, 4, AddressingMode::Absolute),
        0x2E => (Instruction::ROL, 6, AddressingMode::Absolute),
        0x2F => (Instruction::RLA, 6, AddressingMode::Absolute),
        0x30 => (Instruction::BMI, 2, AddressingMode::Relative),
        0x31 => (Instruction::AND, 5, AddressingMode::Indirect_Y),
        0x32 => (Instruction::KIL, 0, AddressingMode::Implicit),
        0x33 => (Instruction::RLA, 8, AddressingMode::Indirect_Y),
        0x34 => (Instruction::NOP_ALT, 4, AddressingMode::ZeroPage_X),
        0x35 => (Instruction::AND, 4, AddressingMode::ZeroPage_X),
        0x36 => (Instruction::ROL, 6, AddressingMode::ZeroPage_X),
        0x37 => (Instruction::RLA, 6, AddressingMode::ZeroPage_X),
        0x38 => (Instruction::SEC, 2, AddressingMode::Implicit),
        0x39 => (Instruction::AND, 4, AddressingMode::Absolute_Y),
        0x3A => (Instruction::NOP_ALT, 2, AddressingMode::Implicit),
        0x3B => (Instruction::RLA, 7, AddressingMode::Absolute_Y),
        0x3C => (Instruction::NOP_ALT, 4, AddressingMode::Absolute_X),
        0x3D => (Instruction::AND, 4, AddressingMode::Absolute_X),
        0x3E => (Instruction::ROL, 7, AddressingMode::Absolute_X),
        0x3F => (Instruction::RLA, 7, AddressingMode::Absolute_X),
        0x40 => (Instruction::RTI, 6, AddressingMode::Implicit),
        0x41 => (Instruction::EOR, 6, AddressingMode::Indirect_X),
        0x42 => (Instruction::KIL, 0, AddressingMode::Implicit),
        0x43 => (Instruction::SRE, 8, AddressingMode::Indirect_X),
        0x44 => (Instruction::NOP_ALT, 3, AddressingMode::ZeroPage),
        0x45 => (Instruction::EOR, 3, AddressingMode::ZeroPage),
        0x46 => (Instruction::LSR, 5, AddressingMode::ZeroPage),
        0x47 => (Instruction::SRE, 5, AddressingMode::ZeroPage),
        0x48 => (Instruction::PHA, 3, AddressingMode::Implicit),
        0x49 => (Instruction::EOR, 2, AddressingMode::Immediate),
        0x4A => (Instruction::LSR, 2, AddressingMode::Accumulator),
        0x4B => (Instruction::ALR, 2, AddressingMode::Immediate),
        0x4C => (Instruction::JMP, 3, AddressingMode::Absolute),
        0x4D => (Instruction::EOR, 4, AddressingMode::Absolute),
        0x4E => (Instruction::LSR, 6, AddressingMode::Absolute),
        0x4F => (Instruction::SRE, 6, AddressingMode::Absolute),
        0x50 => (Instruction::BVC, 2, AddressingMode::Relative),
        0x51 => (Instruction::EOR, 5, AddressingMode::Indirect_Y),
        0x52 => (Instruction::KIL, 0, AddressingMode::Implicit),
        0x53 => (Instruction::SRE, 8, AddressingMode::Indirect_Y),
        0x54 => (Instruction::NOP_ALT, 4, AddressingMode::ZeroPage_X),
        0x55 => (Instruction::EOR, 4, AddressingMode::ZeroPage_X),
        0x56 => (Instruction::LSR, 6, AddressingMode::ZeroPage_X),
        0x57 => (Instruction::SRE, 6, AddressingMode::ZeroPage_X),
        0x58 => (Instruction::CLI, 2, AddressingMode::Implicit),
        0x59 => (Instruction::EOR, 4, AddressingMode::Absolute_Y),
        0x5A => (Instruction::NOP_ALT, 2, AddressingMode::Implicit),
        0x5B => (Instruction::SRE, 7, AddressingMode::Absolute_Y),
        0x5C => (Instruction::NOP_ALT, 4, AddressingMode::Absolute_X),
        0x5D => (Instruction::EOR, 4, AddressingMode::Absolute_X),
        0x5E => (Instruction::LSR, 7, AddressingMode::Absolute_X),
        0x5F => (Instruction::SRE, 7, AddressingMode::Absolute_X),
        0x60 => (Instruction::RTS, 6, AddressingMode::Implicit),
        0x61 => (Instruction::ADC, 6, AddressingMode::Indirect_X),
        0x62 => (Instruction::KIL, 0, AddressingMode::Implicit),
        0x63 => (Instruction::RRA, 8, AddressingMode::Indirect_X),
        0x64 => (Instruction::NOP_ALT, 3, AddressingMode::ZeroPage),
        0x65 => (Instruction::ADC, 3, AddressingMode::ZeroPage),
        0x66 => (Instruction::ROR, 5, AddressingMode::ZeroPage),
        0x67 => (Instruction::RRA, 5, AddressingMode::ZeroPage),
        0x68 => (Instruction::PLA, 4, AddressingMode::Implicit),
        0x69 => (Instruction::ADC, 2, AddressingMode::Immediate),
        0x6A => (Instruction::ROR, 2, AddressingMode::Accumulator),
        0x6B => (Instruction::ARR, 2, AddressingMode::Immediate),
        0x6C => (Instruction::JMP, 5, AddressingMode::Indirect),
        0x6D => (Instruction::ADC, 4, AddressingMode::Absolute),
        0x6E => (Instruction::ROR, 6, AddressingMode::Absolute),
        0x6F => (Instruction::RRA, 6, AddressingMode::Absolute),
        0x70 => (Instruction::BVS, 2, AddressingMode::Relative),
        0x71 => (Instruction::ADC, 5, AddressingMode::Indirect_Y),
        0x72 => (Instruction::KIL, 0, AddressingMode::Implicit),
        0x73 => (Instruction::RRA, 8, AddressingMode::Indirect_Y),
        0x74 => (Instruction::NOP_ALT, 4, AddressingMode::ZeroPage_X),
        0x75 => (Instruction::ADC, 4, AddressingMode::ZeroPage_X),
        0x76 => (Instruction::ROR, 6, AddressingMode::ZeroPage_X),
        0x77 => (Instruction::RRA, 6, AddressingMode::ZeroPage_X),
        0x78 => (Instruction::SEI, 2, AddressingMode::Implicit),
        0x79 => (Instruction::ADC, 4, AddressingMode::Absolute_Y),
        0x7A => (Instruction::NOP_ALT, 2, AddressingMode::Implicit),
        0x7B => (Instruction::RRA, 7, AddressingMode::Absolute_Y),
        0x7C => (Instruction::NOP_ALT, 4, AddressingMode::Absolute_X),
        0x7D => (Instruction::ADC, 4, AddressingMode::Absolute_X),
        0x7E => (Instruction::ROR, 7, AddressingMode::Absolute_X),
        0x7F => (Instruction::RRA, 7, AddressingMode::Absolute_X),
        0x80 => (Instruction::NOP_ALT, 2, AddressingMode::Immediate),
        0x81 => (Instruction::STA, 6, AddressingMode::Indirect_X),
        0x82 => (Instruction::NOP_ALT, 2, AddressingMode::Immediate),
        0x83 => (Instruction::SAX, 6, AddressingMode::Indirect_X),
        0x84 => (Instruction::STY, 3, AddressingMode::ZeroPage),
        0x85 => (Instruction::STA, 3, AddressingMode::ZeroPage),
        0x86 => (Instruction::STX, 3, AddressingMode::ZeroPage),
        0x87 => (Instruction::SAX, 3, AddressingMode::ZeroPage),
        0x88 => (Instruction::DEY, 2, AddressingMode::Implicit),
        0x89 => (Instruction::NOP_ALT, 2, AddressingMode::Immediate),
        0x8A => (Instruction::TXA, 2, AddressingMode::Implicit),
        0x8B => (Instruction::XAA, 2, AddressingMode::Immediate),
        0x8C => (Instruction::STY, 4, AddressingMode::Absolute),
        0x8D => (Instruction::STA, 4, AddressingMode::Absolute),
        0x8E => (Instruction::STX, 4, AddressingMode::Absolute),
        0x8F => (Instruction::SAX, 4, AddressingMode::Absolute),
        0x90 => (Instruction::BCC, 2, AddressingMode::Relative),
        0x91 => (Instruction::STA, 6, AddressingMode::Indirect_Y),
        0x92 => (Instruction::KIL, 0, AddressingMode::Implicit),
        0x93 => (Instruction::AHX, 6, AddressingMode::Indirect_Y),
        0x94 => (Instruction::STY, 4, AddressingMode::ZeroPage_X),
        0x95 => (Instruction::STA, 4, AddressingMode::ZeroPage_X),
        0x96 => (Instruction::STX, 4, AddressingMode::ZeroPage_Y),
        0x97 => (Instruction::SAX, 4, AddressingMode::ZeroPage_Y),
        0x98 => (Instruction::TYA, 2, AddressingMode::Implicit),
        0x99 => (Instruction::STA, 5, AddressingMode::Absolute_Y),
        0x9A => (Instruction::TXS, 2, AddressingMode::Implicit),
        0x9B => (Instruction::TAS, 5, AddressingMode::Absolute_Y),
        0x9C => (Instruction::SHY, 5, AddressingMode::Absolute_X),
        0x9D => (Instruction::STA, 5, AddressingMode::Absolute_X),
        0x9E => (Instruction::SHX, 5, AddressingMode::Absolute_Y),
        0x9F => (Instruction::AHX, 5, AddressingMode::Absolute_Y),
        0xA0 => (Instruction::LDY, 2, AddressingMode::Immediate),
        0xA1 => (Instruction::LDA, 6, AddressingMode::Indirect_X),
        0xA2 => (Instruction::LDX, 2, AddressingMode::Immediate),
        0xA3 => (Instruction::LAX, 6, AddressingMode::Indirect_X),
        0xA4 => (Instruction::LDY, 3, AddressingMode::ZeroPage),
        0xA5 => (Instruction::LDA, 3, AddressingMode::ZeroPage),
        0xA6 => (Instruction::LDX, 3, AddressingMode::ZeroPage),
        0xA7 => (Instruction::LAX, 3, AddressingMode::ZeroPage),
        0xA8 => (Instruction::TAY, 2, AddressingMode::Implicit),
        0xA9 => (Instruction::LDA, 2, AddressingMode::Immediate),
        0xAA => (Instruction::TAX, 2, AddressingMode::Implicit),
        0xAB => (Instruction::LAX, 2, AddressingMode::Immediate),
        0xAC => (Instruction::LDY, 4, AddressingMode::Absolute),
        0xAD => (Instruction::LDA, 4, AddressingMode::Absolute),
        0xAE => (Instruction::LDX, 4, AddressingMode::Absolute),
        0xAF => (Instruction::LAX, 4, AddressingMode::Absolute),
        0xB0 => (Instruction::BCS, 2, AddressingMode::Relative),
        0xB1 => (Instruction::LDA, 5, AddressingMode::Indirect_Y),
        0xB2 => (Instruction::KIL, 0, AddressingMode::Implicit),
        0xB3 => (Instruction::LAX, 5, AddressingMode::Indirect_Y),
        0xB4 => (Instruction::LDY, 4, AddressingMode::ZeroPage_X),
        0xB5 => (Instruction::LDA, 4, AddressingMode::ZeroPage_X),
        0xB6 => (Instruction::LDX, 4, AddressingMode::ZeroPage_Y),
        0xB7 => (Instruction::LAX, 4, AddressingMode::ZeroPage_Y),
        0xB8 => (Instruction::CLV, 2, AddressingMode::Implicit),
        0xB9 => (Instruction::LDA, 4, AddressingMode::Absolute_Y),
        0xBA => (Instruction::TSX, 2, AddressingMode::Implicit),
        0xBB => (Instruction::LAS, 4, AddressingMode::Absolute_Y),
        0xBC => (Instruction::LDY, 4, AddressingMode::Absolute_X),
        0xBD => (Instruction::LDA, 4, AddressingMode::Absolute_X),
        0xBE => (Instruction::LDX, 4, AddressingMode::Absolute_Y),
        0xBF => (Instruction::LAX, 4, AddressingMode::Absolute_Y),
        0xC0 => (Instruction::CPY, 2, AddressingMode::Immediate),
        0xC1 => (Instruction::CMP, 6, AddressingMode::Indirect_X),
        0xC2 => (Instruction::NOP_ALT, 2, AddressingMode::Immediate),
        0xC3 => (Instruction::DCP, 8, AddressingMode::Indirect_X),
        0xC4 => (Instruction::CPY, 3, AddressingMode::ZeroPage),
        0xC5 => (Instruction::CMP, 3, AddressingMode::ZeroPage),
        0xC6 => (Instruction::DEC, 5, AddressingMode::ZeroPage),
        0xC7 => (Instruction::DCP, 5, AddressingMode::ZeroPage),
        0xC8 => (Instruction::INY, 2, AddressingMode::Implicit),
        0xC9 => (Instruction::CMP, 2, AddressingMode::Immediate),
        0xCA => (Instruction::DEX, 2, AddressingMode::Implicit),
        0xCB => (Instruction::AXS, 2, AddressingMode::Immediate),
        0xCC => (Instruction::CPY, 4, AddressingMode::Absolute),
        0xCD => (Instruction::CMP, 4, AddressingMode::Absolute),
        0xCE => (Instruction::DEC, 6, AddressingMode::Absolute),
        0xCF => (Instruction::DCP, 6, AddressingMode::Absolute),
        0xD0 => (Instruction::BNE, 2, AddressingMode::Relative),
        0xD1 => (Instruction::CMP, 5, AddressingMode::Indirect_Y),
        0xD2 => (Instruction::KIL, 0, AddressingMode::Implicit),
        0xD3 => (Instruction::DCP, 8, AddressingMode::Indirect_Y),
        0xD4 => (Instruction::NOP_ALT, 4, AddressingMode::ZeroPage_X),
        0xD5 => (Instruction::CMP, 4, AddressingMode::ZeroPage_X),
        0xD6 => (Instruction::DEC, 6, AddressingMode::ZeroPage_X),
        0xD7 => (Instruction::DCP, 6, AddressingMode::ZeroPage_X),
        0xD8 => (Instruction::CLD, 2, AddressingMode::Implicit),
        0xD9 => (Instruction::CMP, 4, AddressingMode::Absolute_Y),
        0xDA => (Instruction::NOP_ALT, 2, AddressingMode::Implicit),
        0xDB => (Instruction::DCP, 7, AddressingMode::Absolute_Y),
        0xDC => (Instruction::NOP_ALT, 4, AddressingMode::Absolute_X),
        0xDD => (Instruction::CMP, 4, AddressingMode::Absolute_X),
        0xDE => (Instruction::DEC, 7, AddressingMode::Absolute_X),
        0xDF => (Instruction::DCP, 7, AddressingMode::Absolute_X),
        0xE0 => (Instruction::CPX, 2, AddressingMode::Immediate),
        0xE1 => (Instruction::SBC, 6, AddressingMode::Indirect_X),
        0xE2 => (Instruction::NOP_ALT, 2, AddressingMode::Immediate),
        0xE3 => (Instruction::ISC, 8, AddressingMode::Indirect_X),
        0xE4 => (Instruction::CPX, 3, AddressingMode::ZeroPage),
        0xE5 => (Instruction::SBC, 3, AddressingMode::ZeroPage),
        0xE6 => (Instruction::INC, 5, AddressingMode::ZeroPage),
        0xE7 => (Instruction::ISC, 5, AddressingMode::ZeroPage),
        0xE8 => (Instruction::INX, 2, AddressingMode::Implicit),
        0xE9 => (Instruction::SBC, 2, AddressingMode::Immediate),
        0xEA => (Instruction::NOP, 2, AddressingMode::Implicit),
        0xEB => (Instruction::SBC_NOP, 2, AddressingMode::Immediate),
        0xEC => (Instruction::CPX, 4, AddressingMode::Absolute),
        0xED => (Instruction::SBC, 4, AddressingMode::Absolute),
        0xEE => (Instruction::INC, 6, AddressingMode::Absolute),
        0xEF => (Instruction::ISC, 6, AddressingMode::Absolute),
        0xF0 => (Instruction::BEQ, 2, AddressingMode::Relative),
        0xF1 => (Instruction::SBC, 5, AddressingMode::Indirect_Y),
        0xF2 => (Instruction::KIL, 0, AddressingMode::Implicit),
        0xF3 => (Instruction::ISC, 8, AddressingMode::Indirect_Y),
        0xF4 => (Instruction::NOP_ALT, 4, AddressingMode::ZeroPage_X),
        0xF5 => (Instruction::SBC, 4, AddressingMode::ZeroPage_X),
        0xF6 => (Instruction::INC, 6, AddressingMode::ZeroPage_X),
        0xF7 => (Instruction::ISC, 6, AddressingMode::ZeroPage_X),
        0xF8 => (Instruction::SED, 2, AddressingMode::Implicit),
        0xF9 => (Instruction::SBC, 4, AddressingMode::Absolute_Y),
        0xFA => (Instruction::NOP_ALT, 2, AddressingMode::Implicit),
        0xFB => (Instruction::ISC, 7, AddressingMode::Absolute_Y),
        0xFC => (Instruction::NOP_ALT, 4, AddressingMode::Absolute_X),
        0xFD => (Instruction::SBC, 4, AddressingMode::Absolute_X),
        0xFE => (Instruction::INC, 7, AddressingMode::Absolute_X),
        _ => (Instruction::ISC, 7, AddressingMode::Absolute_X),
    }
}

/// The instruction, base cycle count and addressing mode of an opcode byte.
fn lookup_entry(byte: u8) -> (entry: (Instruction, usize, AddressingMode))
    ensures
        entry == opcode_entry(byte),
{
    reveal(opcode_entry);
    match byte {
        0x00 => (Instruction::BRK, 7, AddressingMode::Implicit),
        0x01 => (Instruction::ORA, 6, AddressingMode::Indirect_X),
        0x02 => (Instruction::KIL, 0, AddressingMode::Implicit),
        0x03 => (Instruction::SLO, 8, AddressingMode::Indirect_X),
        0x04 => (Instruction::NOP_ALT, 3, AddressingMode::ZeroPage),
        0x05 => (Instruction::ORA, 3, AddressingMode::ZeroPage),
        0x06 => (Instruction::ASL, 5, AddressingMode::ZeroPage),
        0x07 => (Instruction::SLO, 5, AddressingMode::ZeroPage),
        0x08 => (Instruction::PHP, 3, AddressingMode::Implicit),
        0x09 => (Instruction::ORA, 2, AddressingMode::Immediate),
        0x0A => (Instruction::ASL, 2, AddressingMode::Accumulator),
        0x0B => (Instruction::ANC, 2, AddressingMode::Immediate),
        0x0C => (Instruction::NOP_ALT, 4, AddressingMode::Absolute),
        0x0D => (Instruction::ORA, 4, AddressingMode::Absolute),
        0x0E => (Instruction::ASL, 6, AddressingMode::Absolute),
        0x0F => (Instruction::SLO, 6, AddressingMode::Absolute),
        0x10 => (Instruction::BPL, 2, AddressingMode::Relative),
        0x11 => (Instruction::ORA, 5, AddressingMode::Indirect_Y),
        0x12 => (Instruction::KIL, 0, AddressingMode::Implicit),
        0x13 => (Instruction::SLO, 8, AddressingMode::Indirect_Y),
        0x14 => (Instruction::NOP_ALT, 4, AddressingMode::ZeroPage_X),
        0x15 => (Instruction::ORA, 4, AddressingMode::ZeroPage_X),
        0x16 => (Instruction::ASL, 6, AddressingMode::ZeroPage_X),
        0x17 => (Instruction::SLO, 6, AddressingMode::ZeroPage_X),
        0x18 => (Instruction::CLC, 2, AddressingMode::Implicit),
        0x19 => (Instruction::ORA, 4, AddressingMode::Absolute_Y),
        0x1A => (Instruction::NOP_ALT, 2, AddressingMode::Implicit),
        0x1B => (Instruction::SLO, 7, AddressingMode::Absolute_Y),
        0x1C => (Instruction::NOP_ALT, 4, AddressingMode::Absolute_X),
        0x1D => (Instruction::ORA, 4, AddressingMode::Absolute_X),
        0x1E => (Instruction::ASL, 7, AddressingMode::Absolute_X),
        0x1F => (Instruction::SLO, 7, AddressingMode::Absolute_X),
        0x20 => (Instruction::JSR, 6, AddressingMode::Absolute),
        0x21 => (Instruction::AND, 6, AddressingMode::Indirect_X),
        0x22 => (Instruction::KIL, 0, AddressingMode::Implicit),
        0x23 => (Instruction::RLA, 8, AddressingMode::Indirect_X),
        0x24 => (Instruction::BIT, 3, AddressingMode::ZeroPage),
        0x25 => (Instruction::AND, 3, AddressingMode::ZeroPage),
        0x26 => (Instruction::ROL, 5, AddressingMode::ZeroPage),
        0x27 => (Instruction::RLA, 5, AddressingMode::ZeroPage),
        0x28 => (Instruction::PLP, 4, AddressingMode::Implicit),
        0x29 => (Instruction::AND, 2, AddressingMode::Immediate),
        0x2A => (Instruction::ROL, 2, AddressingMode::Accumulator),
        0x2B => (Instruction::ANC, 2, AddressingMode::Immediate),
        0x2C => (Instruction::BIT, 4, AddressingMode::Absolute),
        0x2D => (Instruction::AND, 4, AddressingMode::Absolute),
        0x2E => (Instruction::ROL, 6, AddressingMode::Absolute),
        0x2F => (Instruction::RLA, 6, AddressingMode::Absolute),
        0x30 => (Instruction::BMI, 2, AddressingMode::Relative),
        0x31 => (Instruction::AND, 5, AddressingMode::Indirect_Y),
        0x32 => (Instruction::KIL, 0, AddressingMode::Implicit),
        0x33 => (Instruction::RLA, 8, AddressingMode::Indirect_Y),
        0x34 => (Instruction::NOP_ALT, 4, AddressingMode::ZeroPage_X),
        0x35 => (Instruction::AND, 4, AddressingMode::ZeroPage_X),
        0x36 => (Instruction::ROL, 6, AddressingMode::ZeroPage_X),
        0x37 => (Instruction::RLA, 6, AddressingMode::ZeroPage_X),
        0x38 => (Instruction::SEC, 2, AddressingMode::Implicit),
        0x39 => (Instruction::AND, 4, AddressingMode::Absolute_Y),
        0x3A => (Instruction::NOP_ALT, 2, AddressingMode::Implicit),
        0x3B => (Instruction::RLA, 7, AddressingMode::Absolute_Y),
        0x3C => (Instruction::NOP_ALT, 4, AddressingMode::Absolute_X),
        0x3D => (Instruction::AND, 4, AddressingMode::Absolute_X),
        0x3E => (Instruction::ROL, 7, AddressingMode::Absolute_X),
        0x3F => (Instruction::RLA, 7, AddressingMode::Absolute_X),
        0x40 => (Instruction::RTI, 6, AddressingMode::Implicit),
        0x41 => (Instruction::EOR, 6, AddressingMode::Indirect_X),
        0x42 => (Instruction::KIL, 0, AddressingMode::Implicit),
        0x43 => (Instruction::SRE, 8, AddressingMode::Indirect_X),
        0x44 => (Instruction::NOP_ALT, 3, AddressingMode::ZeroPage),
        0x45 => (Instruction::EOR, 3, AddressingMode::ZeroPage),
        0x46 => (Instruction::LSR, 5, AddressingMode::ZeroPage),
        0x47 => (Instruction::SRE, 5, AddressingMode::ZeroPage),
        0x48 => (Instruction::PHA, 3, AddressingMode::Implicit),
        0x49 => (Instruction::EOR, 2, AddressingMode::Immediate),
        0x4A => (Instruction::LSR, 2, AddressingMode::Accumulator),
        0x4B => (Instruction::ALR, 2, AddressingMode::Immediate),
        0x4C => (Instruction::JMP, 3, AddressingMode::Absolute),
        0x4D => (Instruction::EOR, 4, AddressingMode::Absolute),
        0x4E => (Instruction::LSR, 6, AddressingMode::Absolute),
        0x4F => (Instruction::SRE, 6, AddressingMode::Absolute),
        0x50 => (Instruction::BVC, 2, AddressingMode::Relative),
        0x51 => (Instruction::EOR, 5, AddressingMode::Indirect_Y),
        0x52 => (Instruction::KIL, 0, AddressingMode::Implicit),
        0x53 => (Instruction::SRE, 8, AddressingMode::Indirect_Y),
        0x54 => (Instruction::NOP_ALT, 4, AddressingMode::ZeroPage_X),
        0x55 => (Instruction::EOR, 4, AddressingMode::ZeroPage_X),
        0x56 => (Instruction::LSR, 6, AddressingMode::ZeroPage_X),
        0x57 => (Instruction::SRE, 6, AddressingMode::ZeroPage_X),
        0x58 => (Instruction::CLI, 2, AddressingMode::Implicit),
        0x59 => (Instruction::EOR, 4, AddressingMode::Absolute_Y),
        0x5A => (Instruction::NOP_ALT, 2, AddressingMode::Implicit),
        0x5B => (Instruction::SRE, 7, AddressingMode::Absolute_Y),
        0x5C => (Instruction::NOP_ALT, 4, AddressingMode::Absolute_X),
        0x5D => (Instruction::EOR, 4, AddressingMode::Absolute_X),
        0x5E => (Instruction::LSR, 7, AddressingMode::Absolute_X),
        0x5F => (Instruction::SRE, 7, AddressingMode::Absolute_X),
        0x60 => (Instruction::RTS, 6, AddressingMode::Implicit),
        0x61 => (Instruction::ADC, 6, AddressingMode::Indirect_X),
        0x62 => (Instruction::KIL, 0, AddressingMode::Implicit),
        0x63 => (Instruction::RRA, 8, AddressingMode::Indirect_X),
        0x64 => (Instruction::NOP_ALT, 3, AddressingMode::ZeroPage),
        0x65 => (Instruction::ADC, 3, AddressingMode::ZeroPage),
        0x66 => (Instruction::ROR, 5, AddressingMode::ZeroPage),
        0x67 => (Instruction::RRA, 5, AddressingMode::ZeroPage),
        0x68 => (Instruction::PLA, 4, AddressingMode::Implicit),
        0x69 => (Instruction::ADC, 2, AddressingMode::Immediate),
        0x6A => (Instruction::ROR, 2, AddressingMode::Accumulator),
        0x6B => (Instruction::ARR, 2, AddressingMode::Immediate),
        0x6C => (Instruction::JMP, 5, AddressingMode::Indirect),
        0x6D => (Instruction::ADC, 4, AddressingMode::Absolute),
        0x6E => (Instruction::ROR, 6, AddressingMode::Absolute),
        0x6F => (Instruction::RRA, 6, AddressingMode::Absolute),
        0x70 => (Instruction::BVS, 2, AddressingMode::Relative),
        0x71 => (Instruction::ADC, 5, AddressingMode::Indirect_Y),
        0x72 => (Instruction::KIL, 0, AddressingMode::Implicit),
        0x73 => (Instruction::RRA, 8, AddressingMode::Indirect_Y),
        0x74 => (Instruction::NOP_ALT, 4, AddressingMode::ZeroPage_X),
        0x75 => (Instruction::ADC, 4, AddressingMode::ZeroPage_X),
        0x76 => (Instruction::ROR, 6, AddressingMode::ZeroPage_X),
        0x77 => (Instruction::RRA, 6, AddressingMode::ZeroPage_X),
        0x78 => (Instruction::SEI, 2, AddressingMode::Implicit),
        0x79 => (Instruction::ADC, 4, AddressingMode::Absolute_Y),
        0x7A => (Instruction::NOP_ALT, 2, AddressingMode::Implicit),
        0x7B => (Instruction::RRA, 7, AddressingMode::Absolute_Y),
        0x7C => (Instruction::NOP_ALT, 4, AddressingMode::Absolute_X),
        0x7D => (Instruction::ADC, 4, AddressingMode::Absolute_X),
        0x7E => (Instruction::ROR, 7, AddressingMode::Absolute_X),
        0x7F => (Instruction::RRA, 7, AddressingMode::Absolute_X),
        0x80 => (Instruction::NOP_ALT, 2, AddressingMode::Immediate),
        0x81 => (Instruction::STA, 6, AddressingMode::Indirect_X),
        0x82 => (Instruction::NOP_ALT, 2, AddressingMode::Immediate),
        0x83 => (Instruction::SAX, 6, AddressingMode::Indirect_X),
        0x84 => (Instruction::STY, 3, AddressingMode::ZeroPage),
        0x85 => (Instruction::STA, 3, AddressingMode::ZeroPage),
        0x86 => (Instruction::STX, 3, AddressingMode::ZeroPage),
        0x87 => (Instruction::SAX, 3, AddressingMode::ZeroPage),
        0x88 => (Instruction::DEY, 2, AddressingMode::Implicit),
        0x89 => (Instruction::NOP_ALT, 2, AddressingMode::Immediate),
        0x8A => (Instruction::TXA, 2, AddressingMode::Implicit),
        0x8B => (Instruction::XAA, 2, AddressingMode::Immediate),
        0x8C => (Instruction::STY, 4, AddressingMode::Absolute),
        0x8D => (Instruction::STA, 4, AddressingMode::Absolute),
        0x8E => (Instruction::STX, 4, AddressingMode::Absolute),
        0x8F => (Instruction::SAX, 4, AddressingMode::Absolute),
        0x90 => (Instruction::BCC, 2, AddressingMode::Relative),
        0x91 => (Instruction::STA, 6, AddressingMode::Indirect_Y),
        0x92 => (Instruction::KIL, 0, AddressingMode::Implicit),
        0x93 => (Instruction::AHX, 6, AddressingMode::Indirect_Y),
        0x94 => (Instruction::STY, 4, AddressingMode::ZeroPage_X),
        0x95 => (Instruction::STA, 4, AddressingMode::ZeroPage_X),
        0x96 => (Instruction::STX, 4, AddressingMode::ZeroPage_Y),
        0x97 => (Instruction::SAX, 4, AddressingMode::ZeroPage_Y),
        0x98 => (Instruction::TYA, 2, AddressingMode::Implicit),
        0x99 => (Instruction::STA, 5, AddressingMode::Absolute_Y),
        0x9A => (Instruction::TXS, 2, AddressingMode::Implicit),
        0x9B => (Instruction::TAS, 5, AddressingMode::Absolute_Y),
        0x9C => (Instruction::SHY, 5, AddressingMode::Absolute_X),
        0x9D => (Instruction::STA, 5, AddressingMode::Absolute_X),
        0x9E => (Instruction::SHX, 5, AddressingMode::Absolute_Y),
        0x9F => (Instruction::AHX, 5, AddressingMode::Absolute_Y),
        0xA0 => (Instruction::LDY, 2, AddressingMode::Immediate),
        0xA1 => (Instruction::LDA, 6, AddressingMode::Indirect_X),
        0xA2 => (Instruction::LDX, 2, AddressingMode::Immediate),
        0xA3 => (Instruction::LAX, 6, AddressingMode::Indirect_X),
        0xA4 => (Instruction::LDY, 3, AddressingMode::ZeroPage),
        0xA5 => (Instruction::LDA, 3, AddressingMode::ZeroPage),
        0xA6 => (Instruction::LDX, 3, AddressingMode::ZeroPage),
        0xA7 => (Instruction::LAX, 3, AddressingMode::ZeroPage),
        0xA8 => (Instruction::TAY, 2, AddressingMode::Implicit),
        0xA9 => (Instruction::LDA, 2, AddressingMode::Immediate),
        0xAA => (Instruction::TAX, 2, AddressingMode::Implicit),
        0xAB => (Instruction::LAX, 2, AddressingMode::Immediate),
        0xAC => (Instruction::LDY, 4, AddressingMode::Absolute),
        0xAD => (Instruction::LDA, 4, AddressingMode::Absolute),
        0xAE => (Instruction::LDX, 4, AddressingMode::Absolute),
        0xAF => (Instruction::LAX, 4, AddressingMode::Absolute),
        0xB0 => (Instruction::BCS, 2, AddressingMode::Relative),
        0xB1 => (Instruction::LDA, 5, AddressingMode::Indirect_Y),
        0xB2 => (Instruction::KIL, 0, AddressingMode::Implicit),
        0xB3 => (Instruction::LAX, 5, AddressingMode::Indirect_Y),
        0xB4 => (Instruction::LDY, 4, AddressingMode::ZeroPage_X),
        0xB5 => (Instruction::LDA, 4, AddressingMode::ZeroPage_X),
        0xB6 => (Instruction::LDX, 4, AddressingMode::ZeroPage_Y),
        0xB7 => (Instruction::LAX, 4, AddressingMode::ZeroPage_Y),
        0xB8 => (Instruction::CLV, 2, AddressingMode::Implicit),
        0xB9 => (Instruction::LDA, 4, AddressingMode::Absolute_Y),
        0xBA => (Instruction::TSX, 2, AddressingMode::Implicit),
        0xBB => (Instruction::LAS, 4, AddressingMode::Absolute_Y),
        0xBC => (Instruction::LDY, 4, AddressingMode::Absolute_X),
        0xBD => (Instruction::LDA, 4, AddressingMode::Absolute_X),
        0xBE => (Instruction::LDX, 4, AddressingMode::Absolute_Y),
        0xBF => (Instruction::LAX, 4, AddressingMode::Absolute_Y),
        0xC0 => (Instruction::CPY, 2, AddressingMode::Immediate),
        0xC1 => (Instruction::CMP, 6, AddressingMode::Indirect_X),
        0xC2 => (Instruction::NOP_ALT, 2, AddressingMode::Immediate),
        0xC3 => (Instruction::DCP, 8, AddressingMode::Indirect_X),
        0xC4 => (Instruction::CPY, 3, AddressingMode::ZeroPage),
        0xC5 => (Instruction::CMP, 3, AddressingMode::ZeroPage),
        0xC6 => (Instruction::DEC, 5, AddressingMode::ZeroPage),
        0xC7 => (Instruction::DCP, 5, AddressingMode::ZeroPage),
        0xC8 => (Instruction::INY, 2, AddressingMode::Implicit),
        0xC9 => (Instruction::CMP, 2, AddressingMode::Immediate),
        0xCA => (Instruction::DEX, 2, AddressingMode::Implicit),
        0xCB => (Instruction::AXS, 2, AddressingMode::Immediate),
        0xCC => (Instruction::CPY, 4, AddressingMode::Absolute),
        0xCD => (Instruction::CMP, 4, AddressingMode::Absolute),
        0xCE => (Instruction::DEC, 6, AddressingMode::Absolute),
        0xCF => (Instruction::DCP, 6, AddressingMode::Absolute),
        0xD0 => (Instruction::BNE, 2, AddressingMode::Relative),
        0xD1 => (Instruction::CMP, 5, AddressingMode::Indirect_Y),
        0xD2 => (Instruction::KIL, 0, AddressingMode::Implicit),
        0xD3 => (Instruction::DCP, 8, AddressingMode::Indirect_Y),
        0xD4 => (Instruction::NOP_ALT, 4, AddressingMode::ZeroPage_X),
        0xD5 => (Instruction::CMP, 4, AddressingMode::ZeroPage_X),
        0xD6 => (Instruction::DEC, 6, AddressingMode::ZeroPage_X),
        0xD7 => (Instruction::DCP, 6, AddressingMode::ZeroPage_X),
        0xD8 => (Instruction::CLD, 2, AddressingMode::Implicit),
        0xD9 => (Instruction::CMP, 4, AddressingMode::Absolute_Y),
        0xDA => (Instruction::NOP_ALT, 2, AddressingMode::Implicit),
        0xDB => (Instruction::DCP, 7, AddressingMode::Absolute_Y),
        0xDC => (Instruction::NOP_ALT, 4, AddressingMode::Absolute_X),
        0xDD => (Instruction::CMP, 4, AddressingMode::Absolute_X),
        0xDE => (Instruction::DEC, 7, AddressingMode::Absolute_X),
        0xDF => (Instruction::DCP, 7, AddressingMode::Absolute_X),
        0xE0 => (Instruction::CPX, 2, AddressingMode::Immediate),
        0xE1 => (Instruction::SBC, 6, AddressingMode::Indirect_X),
        0xE2 => (Instruction::NOP_ALT, 2, AddressingMode::Immediate),
        0xE3 => (Instruction::ISC, 8, AddressingMode::Indirect_X),
        0xE4 => (Instruction::CPX, 3, AddressingMode::ZeroPage),
        0xE5 => (Instruction::SBC, 3, AddressingMode::ZeroPage),
        0xE6 => (Instruction::INC, 5, AddressingMode::ZeroPage),
        0xE7 => (Instruction::ISC, 5, AddressingMode::ZeroPage),
        0xE8 => (Instruction::INX, 2, AddressingMode::Implicit),
        0xE9 => (Instruction::SBC, 2, AddressingMode::Immediate),
        0xEA => (Instruction::NOP, 2, AddressingMode::Implicit),
        0xEB => (Instruction::SBC_NOP, 2, AddressingMode::Immediate),
        0xEC => (Instruction::CPX, 4, AddressingMode::Absolute),
        0xED => (Instruction::SBC, 4, AddressingMode::Absolute),
        0xEE => (Instruction::INC, 6, AddressingMode::Absolute),
        0xEF => (Instruction::ISC, 6, AddressingMode::Absolute),
        0xF0 => (Instruction::BEQ, 2, AddressingMode::Relative),
        0xF1 => (Instruction::SBC, 5, AddressingMode::Indirect_Y),
        0xF2 => (Instruction::KIL, 0, AddressingMode::Implicit),
        0xF3 => (Instruction::ISC, 8, AddressingMode::Indirect_Y),
        0xF4 => (Instruction::NOP_ALT, 4, AddressingMode::ZeroPage_X),
        0xF5 => (Instruction::SBC, 4, AddressingMode::ZeroPage_X),
        0xF6 => (Instruction::INC, 6, AddressingMode::ZeroPage_X),
        0xF7 => (Instruction::ISC, 6, AddressingMode::ZeroPage_X),
        0xF8 => (Instruction::SED, 2, AddressingMode::Implicit),
        0xF9 => (Instruction::SBC, 4, AddressingMode::Absolute_Y),
        0xFA => (Instruction::NOP_ALT, 2, AddressingMode::Implicit),
        0xFB => (Instruction::ISC, 7, AddressingMode::Absolute_Y),
        0xFC => (Instruction::NOP_ALT, 4, AddressingMode::Absolute_X),
        0xFD => (Instruction::SBC, 4, AddressingMode::Absolute_X),
        0xFE => (Instruction::INC, 7, AddressingMode::Absolute_X),
        0xFF => (Instruction::ISC, 7, AddressingMode::Absolute_X),
    }
}

impl Instruction {
    pub open spec fn spec_mnemonic(self) -> &'static str {
        match self {
            Instruction::LDA => "LDA",
            Instruction::LDX => "LDX",
            Instruction::LDY => "LDY",
            Instruction::STA => "STA",
            Instruction::STX => "STX",
            Instruction::STY => "STY",
            Instruction::TAX => "TAX",
            Instruction::TAY => "TAY",
            Instruction::TXA => "TXA",
            Instruction::TYA => "TYA",
            Instruction::TSX => "TSX",
            Instruction::TXS => "TXS",
            Instruction::PHA => "PHA",
            Instruction::PHP => "PHP",
            Instruction::PLA => "PLA",
            Instruction::PLP => "PLP",
            Instruction::AND => "AND",
            Instruction::EOR => "EOR",
            Instruction::ORA => "ORA",
            Instruction::BIT => "BIT",
            Instruction::ADC => "ADC",
            Instruction::SBC => "SBC",
            Instruction::CMP => "CMP",
            Instruction::CPX => "CPX",
            Instruction::CPY => "CPY",
            Instruction::INC => "INC",
            Instruction::INX => "INX",
            Instruction::INY => "INY",
            Instruction::DEC => "DEC",
            Instruction::DEX => "DEX",
            Instruction::DEY => "DEY",
            Instruction::ASL => "ASL",
            Instruction::LSR => "LSR",
            Instruction::ROL => "ROL",
            Instruction::ROR => "ROR",
            Instruction::JMP => "JMP",
            Instruction::JSR => "JSR",
            Instruction::RTS => "RTS",
            Instruction::BCC => "BCC",
            Instruction::BCS => "BCS",
            Instruction::BEQ => "BEQ",
            Instruction::BMI => "BMI",
            Instruction::BNE => "BNE",
            Instruction::BPL => "BPL",
            Instruction::BVC => "BVC",
            Instruction::BVS => "BVS",
            Instruction::CLC => "CLC",
            Instruction::CLD => "CLD",
            Instruction::CLI => "CLI",
            Instruction::CLV => "CLV",
            Instruction::SEC => "SEC",
            Instruction::SED => "SED",
            Instruction::SEI => "SEI",
            Instruction::BRK => "BRK",
            Instruction::NOP => "NOP",
            Instruction::RTI => "RTI",
            Instruction::NOP_ALT => "NOP",
            Instruction::SLO => "SLO",
            Instruction::RLA => "RLA",
            Instruction::SRE => "SRE",
            Instruction::RRA => "RRA",
            Instruction::SAX => "SAX",
            Instruction::LAX => "LAX",
            Instruction::DCP => "DCP",
            Instruction::ISC => "ISC",
            Instruction::ANC => "ANC",
            Instruction::ALR => "ALR",
            Instruction::ARR => "ARR",
            Instruction::XAA => "XAA",
            Instruction::AXS => "AXS",
            Instruction::SBC_NOP => "SBC",
            Instruction::AHX => "AHX",
            Instruction::SHY => "SHY",
            Instruction::SHX => "SHX",
            Instruction::TAS => "TAS",
            Instruction::LAS => "LAS",
            Instruction::KIL => "KIL",
        }
    }

    /// The assembler mnemonic (unofficial variants share the mnemonic of the official one).
    pub fn mnemonic(&self) -> (m: &'static str)
        ensures
            m == self.spec_mnemonic(),
    {
        match self {
            Instruction::LDA => "LDA",
            Instruction::LDX => "LDX",
            Instruction::LDY => "LDY",
            Instruction::STA => "STA",
            Instruction::STX => "STX",
            Instruction::STY => "STY",
            Instruction::TAX => "TAX",
            Instruction::TAY => "TAY",
            Instruction::TXA => "TXA",
            Instruction::TYA => "TYA",
            Instruction::TSX => "TSX",
            Instruction::TXS => "TXS",
            Instruction::PHA => "PHA",
            Instruction::PHP => "PHP",
            Instruction::PLA => "PLA",
            Instruction::PLP => "PLP",
            Instruction::AND => "AND",
            Instruction::EOR => "EOR",
            Instruction::ORA => "ORA",
            Instruction::BIT => "BIT",
            Instruction::ADC => "ADC",
            Instruction::SBC => "SBC",
            Instruction::CMP => "CMP",
            Instruction::CPX => "CPX",
            Instruction::CPY => "CPY",
            Instruction::INC => "INC",
            Instruction::INX => "INX",
            Instruction::INY => "INY",
            Instruction::DEC => "DEC",
            Instruction::DEX => "DEX",
            Instruction::DEY => "DEY",
            Instruction::ASL => "ASL",
            Instruction::LSR => "LSR",
            Instruction::ROL => "ROL",
            Instruction::ROR => "ROR",
            Instruction::JMP => "JMP",
            Instruction::JSR => "JSR",
            Instruction::RTS => "RTS",
            Instruction::BCC => "BCC",
            Instruction::BCS => "BCS",
            Instruction::BEQ => "BEQ",
            Instruction::BMI => "BMI",
            Instruction::BNE => "BNE",
            Instruction::BPL => "BPL",
            Instruction::BVC => "BVC",
            Instruction::BVS => "BVS",
            Instruction::CLC => "CLC",
            Instruction::CLD => "CLD",
            Instruction::CLI => "CLI",
            Instruction::CLV => "CLV",
            Instruction::SEC => "SEC",
            Instruction::SED => "SED",
            Instruction::SEI => "SEI",
            Instruction::BRK => "BRK",
            Instruction::NOP => "NOP",
            Instruction::RTI => "RTI",
            Instruction::NOP_ALT => "NOP",
            Instruction::SLO => "SLO",
            Instruction::RLA => "RLA",
            Instruction::SRE => "SRE",
            Instruction::RRA => "RRA",
            Instruction::SAX => "SAX",
            Instruction::LAX => "LAX",
            Instruction::DCP => "DCP",
            Instruction::ISC => "ISC",
            Instruction::ANC => "ANC",
            Instruction::ALR => "ALR",
            Instruction::ARR => "ARR",
            Instruction::XAA => "XAA",
            Instruction::AXS => "AXS",
            Instruction::SBC_NOP => "SBC",
            Instruction::AHX => "AHX",
            Instruction::SHY => "SHY",
            Instruction::SHX => "SHX",
            Instruction::TAS => "TAS",
            Instruction::LAS => "LAS",
            Instruction::KIL => "KIL",
        }
    }
}


/// The opcode an opcode byte decodes to.
pub open spec fn decoded(byte: u8) -> OpCode {
    let e: (Instruction, usize, AddressingMode) = opcode_entry(byte);
    OpCode {
        byte,
        instruction: e.0,
        mnemonic: e.0.spec_mnemonic(),
        len: mode_len(e.2),
        cycles: e.1,
        mode: e.2,
    }
}

impl OpCode {
    /// An opcode; its length follows from its addressing mode.
    pub fn new(
        byte: u8,
        instruction: Instruction,
        mnemonic: &'static str,
        cycles: usize,
        mode: AddressingMode,
    ) -> (op: Self)
        ensures
            op == (OpCode { byte, instruction, mnemonic, len: mode_len(mode), cycles, mode }),
    {
        let len: u8 = mode.bytes();
        OpCode { byte, instruction, mnemonic, len, cycles, mode }
    }

    /// The operand address of this instruction, whose operand bytes follow the program
    /// counter, and whether indexing crossed a page.
    pub fn get_operand_address(self, cpu: &mut CPU) -> (result: (u16, bool))
        requires
            old(cpu)@.operand(self).2.ok,
            old(cpu)@.bus.wf(),
        ensures
            ({
                let r: (u16, bool, CpuState) = old(cpu)@.operand(self);
                result == (r.0, r.1) && final(cpu)@ == r.2
            }),
            final(cpu)@.bus.wf(),
    {
        match self.mode {
            AddressingMode::Immediate => (cpu.program_counter, false),
            _ => {
                let pc: u16 = cpu.program_counter;
                self.get_absolute_address(cpu, pc)
            },
        }
    }

    /// The operand address for operand bytes at `addr`; the pointers of the indexed indirect
    /// modes wrap inside the zero page.
    pub fn get_absolute_address(self, cpu: &mut CPU, addr: u16) -> (result: (u16, bool))
        requires
            old(cpu)@.operand_in(self.mode, addr, true).2.ok,
            old(cpu)@.bus.wf(),
        ensures
            ({
                let r: (u16, bool, CpuState) = old(cpu)@.operand_in(self.mode, addr, true);
                result == (r.0, r.1) && final(cpu)@ == r.2
            }),
            final(cpu)@.bus.wf(),
    {
        cpu.absolute_address(self.mode, addr, true)
    }
}

/// Decodes an opcode byte; every byte decodes.
pub fn decode_opcode(opbyte: u8) -> (op: OpCode)
    ensures
        op == decoded(opbyte),
{
    let (instruction, cycles, mode): (Instruction, usize, AddressingMode) = lookup_entry(opbyte);
    OpCode::new(opbyte, instruction, instruction.mnemonic(), cycles, mode)
}

/// The opcode table looked up by byte; it has an entry for every byte.
pub fn lookup_opcode(opbyte: u8) -> (op: Option<OpCode>)
    ensures
        op == Some(decoded(opbyte)),
{
    Some(decode_opcode(opbyte))
}
} // verus!
