use vstd::prelude::*;
use crate::error::NesError;

verus! {

/// How an instruction finds its operand.
#[derive(Clone, Copy, Debug, PartialEq, Eq, Structural)]
pub enum AddressingMode {
    /// No operand.
    Implied,
    /// The accumulator.
    Accumulator,
    /// The byte after the opcode.
    Immediate,
    /// A zero-page address.
    Zeropage,
    /// A zero-page address plus X, within the zero page.
    ZeropageX,
    /// A zero-page address plus Y, within the zero page.
    ZeropageY,
    /// A 16-bit address.
    Absolute,
    /// A 16-bit address plus X.
    AbsoluteX,
    /// A 16-bit address plus Y.
    AbsoluteY,
    /// A signed offset from the next instruction.
    Relative,
    /// The 16-bit address stored at (zero-page operand + X).
    IndexedIndirect,
    /// The 16-bit address stored at the zero-page operand, plus Y.
    IndirectIndexed,
    /// The 16-bit address stored at a 16-bit address (JMP only).
    AbsoluteIndirect,
}

/// The 56 official 6502 mnemonics.
#[derive(Clone, Copy, Debug, PartialEq, Eq, Structural)]
pub enum OpCode {
    ADC,
    SBC,
    AND,
    ORA,
    EOR,
    ASL,
    LSR,
    ROL,
    ROR,
    BCC,
    BCS,
    BEQ,
    BNE,
    BVC,
    BVS,
    BPL,
    BMI,
    BIT,
    JMP,
    JSR,
    RTS,
    BRK,
    RTI,
    CMP,
    CPX,
    CPY,
    INC,
    DEC,
    INX,
    DEX,
    INY,
    DEY,
    CLC,
    SEC,
    CLI,
    SEI,
    CLD,
    SED,
    CLV,
    LDA,
    LDX,
    LDY,
    STA,
    STX,
    STY,
    TAX,
    TXA,
    TAY,
    TYA,
    TSX,
    TXS,
    PHA,
    PLA,
    PHP,
    PLP,
    NOP,
}

/// The events that divert the CPU to a vector.
#[derive(Clone, Copy, Debug, PartialEq, Eq, Structural)]
pub enum Interrupt {
    /// Non-maskable interrupt, vector $FFFA.
    NMI,
    /// Reset, vector $FFFC.
    RESET,
    /// Maskable interrupt request, vector $FFFE.
    IRQ,
    /// Software interrupt, vector $FFFE.
    BRK,
}

/// A decoded instruction: mnemonic, addressing mode and base cycle count.
#[derive(Clone, Copy, Debug, PartialEq, Eq, Structural)]
pub struct Instruction(pub OpCode, pub AddressingMode, pub u8);

/// The opcode table of the 6502: the instruction that each official opcode byte
/// encodes, with its base cycle count; `None` for the other 105 bytes.
pub open spec fn opcode_table(op: u8) -> Option<Instruction> {
    match op {
        0x00 => Some(Instruction(OpCode::BRK, AddressingMode::Implied, 7)),
        0x01 => Some(Instruction(OpCode::ORA, AddressingMode::IndexedIndirect, 6)),
        0x05 => Some(Instruction(OpCode::ORA, AddressingMode::Zeropage, 3)),
        0x06 => Some(Instruction(OpCode::ASL, AddressingMode::Zeropage, 5)),
        0x08 => Some(Instruction(OpCode::PHP, AddressingMode::Implied, 3)),
        0x09 => Some(Instruction(OpCode::ORA, AddressingMode::Immediate, 2)),
        0x0a => Some(Instruction(OpCode::ASL, AddressingMode::Accumulator, 2)),
        0x0d => Some(Instruction(OpCode::ORA, AddressingMode::Absolute, 4)),
        0x0e => Some(Instruction(OpCode::ASL, AddressingMode::Absolute, 6)),
        0x10 => Some(Instruction(OpCode::BPL, AddressingMode::Relative, 2)),
        0x11 => Some(Instruction(OpCode::ORA, AddressingMode::IndirectIndexed, 5)),
        0x15 => Some(Instruction(OpCode::ORA, AddressingMode::ZeropageX, 4)),
        0x16 => Some(Instruction(OpCode::ASL, AddressingMode::ZeropageX, 6)),
        0x18 => Some(Instruction(OpCode::CLC, AddressingMode::Implied, 2)),
        0x19 => Some(Instruction(OpCode::ORA, AddressingMode::AbsoluteY, 4)),
        0x1d => Some(Instruction(OpCode::ORA, AddressingMode::AbsoluteX, 4)),
        0x1e => Some(Instruction(OpCode::ASL, AddressingMode::AbsoluteX, 7)),
        0x20 => Some(Instruction(OpCode::JSR, AddressingMode::Absolute, 6)),
        0x21 => Some(Instruction(OpCode::AND, AddressingMode::IndexedIndirect, 6)),
        0x24 => Some(Instruction(OpCode::BIT, AddressingMode::Zeropage, 3)),
        0x25 => Some(Instruction(OpCode::AND, AddressingMode::Zeropage, 3)),
        0x26 => Some(Instruction(OpCode::ROL, AddressingMode::Zeropage, 5)),
        0x28 => Some(Instruction(OpCode::PLP, AddressingMode::Implied, 4)),
        0x29 => Some(Instruction(OpCode::AND, AddressingMode::Immediate, 2)),
        0x2a => Some(Instruction(OpCode::ROL, AddressingMode::Accumulator, 2)),
        0x2c => Some(Instruction(OpCode::BIT, AddressingMode::Absolute, 4)),
        0x2d => Some(Instruction(OpCode::AND, AddressingMode::Absolute, 4)),
        0x2e => Some(Instruction(OpCode::ROL, AddressingMode::Absolute, 6)),
        0x30 => Some(Instruction(OpCode::BMI, AddressingMode::Relative, 2)),
        0x31 => Some(Instruction(OpCode::AND, AddressingMode::IndirectIndexed, 5)),
        0x35 => Some(Instruction(OpCode::AND, AddressingMode::ZeropageX, 4)),
        0x36 => Some(Instruction(OpCode::ROL, AddressingMode::ZeropageX, 6)),
        0x38 => Some(Instruction(OpCode::SEC, AddressingMode::Implied, 2)),
        0x39 => Some(Instruction(OpCode::AND, AddressingMode::AbsoluteY, 4)),
        0x3d => Some(Instruction(OpCode::AND, AddressingMode::AbsoluteX, 4)),
        0x3e => Some(Instruction(OpCode::ROL, AddressingMode::AbsoluteX, 7)),
        0x40 => Some(Instruction(OpCode::RTI, AddressingMode::Implied, 6)),
        0x41 => Some(Instruction(OpCode::EOR, AddressingMode::IndexedIndirect, 6)),
        0x45 => Some(Instruction(OpCode::EOR, AddressingMode::Zeropage, 3)),
        0x46 => Some(Instruction(OpCode::LSR, AddressingMode::Zeropage, 5)),
        0x48 => Some(Instruction(OpCode::PHA, AddressingMode::Implied, 3)),
        0x49 => Some(Instruction(OpCode::EOR, AddressingMode::Immediate, 2)),
        0x4a => Some(Instruction(OpCode::LSR, AddressingMode::Accumulator, 2)),
        0x4c => Some(Instruction(OpCode::JMP, AddressingMode::Absolute, 3)),
        0x4d => Some(Instruction(OpCode::EOR, AddressingMode::Absolute, 4)),
        0x4e => Some(Instruction(OpCode::LSR, AddressingMode::Absolute, 6)),
        0x50 => Some(Instruction(OpCode::BVC, AddressingMode::Relative, 2)),
        0x51 => Some(Instruction(OpCode::EOR, AddressingMode::IndirectIndexed, 5)),
        0x55 => Some(Instruction(OpCode::EOR, AddressingMode::ZeropageX, 4)),
        0x56 => Some(Instruction(OpCode::LSR, AddressingMode::ZeropageX, 6)),
        0x58 => Some(Instruction(OpCode::CLI, AddressingMode::Implied, 2)),
        0x59 => Some(Instruction(OpCode::EOR, AddressingMode::AbsoluteY, 4)),
        0x5d => Some(Instruction(OpCode::EOR, AddressingMode::AbsoluteX, 4)),
        0x5e => Some(Instruction(OpCode::LSR, AddressingMode::AbsoluteX, 7)),
        0x60 => Some(Instruction(OpCode::RTS, AddressingMode::Implied, 6)),
        0x61 => Some(Instruction(OpCode::ADC, AddressingMode::IndexedIndirect, 6)),
        0x65 => Some(Instruction(OpCode::ADC, AddressingMode::Zeropage, 3)),
        0x66 => Some(Instruction(OpCode::ROR, AddressingMode::Zeropage, 5)),
        0x68 => Some(Instruction(OpCode::PLA, AddressingMode::Implied, 4)),
        0x69 => Some(Instruction(OpCode::ADC, AddressingMode::Immediate, 2)),
        0x6a => Some(Instruction(OpCode::ROR, AddressingMode::Accumulator, 2)),
        0x6c => Some(Instruction(OpCode::JMP, AddressingMode::AbsoluteIndirect, 5)),
        0x6d => Some(Instruction(OpCode::ADC, AddressingMode::Absolute, 4)),
        0x6e => Some(Instruction(OpCode::ROR, AddressingMode::Absolute, 6)),
        0x70 => Some(Instruction(OpCode::BVS, AddressingMode::Relative, 2)),
        0x71 => Some(Instruction(OpCode::ADC, AddressingMode::IndirectIndexed, 5)),
        0x75 => Some(Instruction(OpCode::ADC, AddressingMode::ZeropageX, 4)),
        0x76 => Some(Instruction(OpCode::ROR, AddressingMode::ZeropageX, 6)),
        0x78 => Some(Instruction(OpCode::SEI, AddressingMode::Implied, 2)),
        0x79 => Some(Instruction(OpCode::ADC, AddressingMode::AbsoluteY, 4)),
        0x7d => Some(Instruction(OpCode::ADC, AddressingMode::AbsoluteX, 4)),
        0x7e => Some(Instruction(OpCode::ROR, AddressingMode::AbsoluteX, 7)),
        0x81 => Some(Instruction(OpCode::STA, AddressingMode::IndexedIndirect, 6)),
        0x84 => Some(Instruction(OpCode::STY, AddressingMode::Zeropage, 3)),
        0x85 => Some(Instruction(OpCode::STA, AddressingMode::Zeropage, 3)),
        0x86 => Some(Instruction(OpCode::STX, AddressingMode::Zeropage, 3)),
        0x88 => Some(Instruction(OpCode::DEY, AddressingMode::Implied, 2)),
        0x8a => Some(Instruction(OpCode::TXA, AddressingMode::Implied, 2)),
        0x8c => Some(Instruction(OpCode::STY, AddressingMode::Absolute, 4)),
        0x8d => Some(Instruction(OpCode::STA, AddressingMode::Absolute, 4)),
        0x8e => Some(Instruction(OpCode::STX, AddressingMode::Absolute, 4)),
        0x90 => Some(Instruction(OpCode::BCC, AddressingMode::Relative, 2)),
        0x91 => Some(Instruction(OpCode::STA, AddressingMode::IndirectIndexed, 6)),
        0x94 => Some(Instruction(OpCode::STY, AddressingMode::ZeropageX, 4)),
        0x95 => Some(Instruction(OpCode::STA, AddressingMode::ZeropageX, 4)),
        0x96 => Some(Instruction(OpCode::STX, AddressingMode::ZeropageY, 4)),
        0x98 => Some(Instruction(OpCode::TYA, AddressingMode::Implied, 2)),
        0x99 => Some(Instruction(OpCode::STA, AddressingMode::AbsoluteY, 5)),
        0x9a => Some(Instruction(OpCode::TXS, AddressingMode::Implied, 2)),
        0x9d => Some(Instruction(OpCode::STA, AddressingMode::AbsoluteX, 5)),
        0xa0 => Some(Instruction(OpCode::LDY, AddressingMode::Immediate, 2)),
        0xa1 => Some(Instruction(OpCode::LDA, AddressingMode::IndexedIndirect, 6)),
        0xa2 => Some(Instruction(OpCode::LDX, AddressingMode::Immediate, 2)),
        0xa4 => Some(Instruction(OpCode::LDY, AddressingMode::Zeropage, 3)),
        0xa5 => Some(Instruction(OpCode::LDA, AddressingMode::Zeropage, 3)),
        0xa6 => Some(Instruction(OpCode::LDX, AddressingMode::Zeropage, 3)),
        0xa8 => Some(Instruction(OpCode::TAY, AddressingMode::Implied, 2)),
        0xa9 => Some(Instruction(OpCode::LDA, AddressingMode::Immediate, 2)),
        0xaa => Some(Instruction(OpCode::TAX, AddressingMode::Implied, 2)),
        0xac => Some(Instruction(OpCode::LDY, AddressingMode::Absolute, 4)),
        0xad => Some(Instruction(OpCode::LDA, AddressingMode::Absolute, 4)),
        0xae => Some(Instruction(OpCode::LDX, AddressingMode::Absolute, 4)),
        0xb0 => Some(Instruction(OpCode::BCS, AddressingMode::Relative, 2)),
        0xb1 => Some(Instruction(OpCode::LDA, AddressingMode::IndirectIndexed, 5)),
        0xb4 => Some(Instruction(OpCode::LDY, AddressingMode::ZeropageX, 4)),
        0xb5 => Some(Instruction(OpCode::LDA, AddressingMode::ZeropageX, 4)),
        0xb6 => Some(Instruction(OpCode::LDX, AddressingMode::ZeropageY, 4)),
        0xb8 => Some(Instruction(OpCode::CLV, AddressingMode::Implied, 2)),
        0xb9 => Some(Instruction(OpCode::LDA, AddressingMode::AbsoluteY, 4)),
        0xba => Some(Instruction(OpCode::TSX, AddressingMode::Implied, 2)),
        0xbc => Some(Instruction(OpCode::LDY, AddressingMode::AbsoluteX, 4)),
        0xbd => Some(Instruction(OpCode::LDA, AddressingMode::AbsoluteX, 4)),
        0xbe => Some(Instruction(OpCode::LDX, AddressingMode::AbsoluteY, 4)),
        0xc0 => Some(Instruction(OpCode::CPY, AddressingMode::Immediate, 2)),
        0xc1 => Some(Instruction(OpCode::CMP, AddressingMode::IndexedIndirect, 6)),
        0xc4 => Some(Instruction(OpCode::CPY, AddressingMode::Zeropage, 3)),
        0xc5 => Some(Instruction(OpCode::CMP, AddressingMode::Zeropage, 3)),
        0xc6 => Some(Instruction(OpCode::DEC, AddressingMode::Zeropage, 5)),
        0xc8 => Some(Instruction(OpCode::INY, AddressingMode::Implied, 2)),
        0xc9 => Some(Instruction(OpCode::CMP, AddressingMode::Immediate, 2)),
        0xca => Some(Instruction(OpCode::DEX, AddressingMode::Implied, 2)),
        0xcc => Some(Instruction(OpCode::CPY, AddressingMode::Absolute, 4)),
        0xcd => Some(Instruction(OpCode::CMP, AddressingMode::Absolute, 4)),
        0xce => Some(Instruction(OpCode::DEC, AddressingMode::Absolute, 6)),
        0xd0 => Some(Instruction(OpCode::BNE, AddressingMode::Relative, 2)),
        0xd1 => Some(Instruction(OpCode::CMP, AddressingMode::IndirectIndexed, 5)),
        0xd5 => Some(Instruction(OpCode::CMP, AddressingMode::ZeropageX, 4)),
        0xd6 => Some(Instruction(OpCode::DEC, AddressingMode::ZeropageX, 6)),
        0xd8 => Some(Instruction(OpCode::CLD, AddressingMode::Implied, 2)),
        0xd9 => Some(Instruction(OpCode::CMP, AddressingMode::AbsoluteY, 4)),
        0xdd => Some(Instruction(OpCode::CMP, AddressingMode::AbsoluteX, 4)),
        0xde => Some(Instruction(OpCode::DEC, AddressingMode::AbsoluteX, 7)),
        0xe0 => Some(Instruction(OpCode::CPX, AddressingMode::Immediate, 2)),
        0xe1 => Some(Instruction(OpCode::SBC, AddressingMode::IndexedIndirect, 6)),
        0xe4 => Some(Instruction(OpCode::CPX, AddressingMode::Zeropage, 3)),
        0xe5 => Some(Instruction(OpCode::SBC, AddressingMode::Zeropage, 3)),
        0xe6 => Some(Instruction(OpCode::INC, AddressingMode::Zeropage, 5)),
        0xe8 => Some(Instruction(OpCode::INX, AddressingMode::Implied, 2)),
        0xe9 => Some(Instruction(OpCode::SBC, AddressingMode::Immediate, 2)),
        0xea => Some(Instruction(OpCode::NOP, AddressingMode::Implied, 2)),
        0xec => Some(Instruction(OpCode::CPX, AddressingMode::Absolute, 4)),
        0xed => Some(Instruction(OpCode::SBC, AddressingMode::Absolute, 4)),
        0xee => Some(Instruction(OpCode::INC, AddressingMode::Absolute, 6)),
        0xf0 => Some(Instruction(OpCode::BEQ, AddressingMode::Relative, 2)),
        0xf1 => Some(Instruction(OpCode::SBC, AddressingMode::IndirectIndexed, 5)),
        0xf5 => Some(Instruction(OpCode::SBC, AddressingMode::ZeropageX, 4)),
        0xf6 => Some(Instruction(OpCode::INC, AddressingMode::ZeropageX, 6)),
        0xf8 => Some(Instruction(OpCode::SED, AddressingMode::Implied, 2)),
        0xf9 => Some(Instruction(OpCode::SBC, AddressingMode::AbsoluteY, 4)),
        0xfd => Some(Instruction(OpCode::SBC, AddressingMode::AbsoluteX, 4)),
        0xfe => Some(Instruction(OpCode::INC, AddressingMode::AbsoluteX, 7)),
        _ => None,
    }
}

/// Decodes an opcode byte; a byte that is not an official instruction is an
/// `IllegalOpcode` error.
pub fn decode_op(op: u8) -> (r: Result<Instruction, NesError>)
    ensures
        match opcode_table(op) {
            Some(i) => r == Ok::<Instruction, NesError>(i),
            None => r == Err::<Instruction, NesError>(NesError::IllegalOpcode(op)),
        },
{
    match op {
        0x00 => Ok(Instruction(OpCode::BRK, AddressingMode::Implied, 7)),
        0x01 => Ok(Instruction(OpCode::ORA, AddressingMode::IndexedIndirect, 6)),
        0x05 => Ok(Instruction(OpCode::ORA, AddressingMode::Zeropage, 3)),
        0x06 => Ok(Instruction(OpCode::ASL, AddressingMode::Zeropage, 5)),
        0x08 => Ok(Instruction(OpCode::PHP, AddressingMode::Implied, 3)),
        0x09 => Ok(Instruction(OpCode::ORA, AddressingMode::Immediate, 2)),
        0x0a => Ok(Instruction(OpCode::ASL, AddressingMode::Accumulator, 2)),
        0x0d => Ok(Instruction(OpCode::ORA, AddressingMode::Absolute, 4)),
        0x0e => Ok(Instruction(OpCode::ASL, AddressingMode::Absolute, 6)),
        0x10 => Ok(Instruction(OpCode::BPL, AddressingMode::Relative, 2)),
        0x11 => Ok(Instruction(OpCode::ORA, AddressingMode::IndirectIndexed, 5)),
        0x15 => Ok(Instruction(OpCode::ORA, AddressingMode::ZeropageX, 4)),
        0x16 => Ok(Instruction(OpCode::ASL, AddressingMode::ZeropageX, 6)),
        0x18 => Ok(Instruction(OpCode::CLC, AddressingMode::Implied, 2)),
        0x19 => Ok(Instruction(OpCode::ORA, AddressingMode::AbsoluteY, 4)),
        0x1d => Ok(Instruction(OpCode::ORA, AddressingMode::AbsoluteX, 4)),
        0x1e => Ok(Instruction(OpCode::ASL, AddressingMode::AbsoluteX, 7)),
        0x20 => Ok(Instruction(OpCode::JSR, AddressingMode::Absolute, 6)),
        0x21 => Ok(Instruction(OpCode::AND, AddressingMode::IndexedIndirect, 6)),
        0x24 => Ok(Instruction(OpCode::BIT, AddressingMode::Zeropage, 3)),
        0x25 => Ok(Instruction(OpCode::AND, AddressingMode::Zeropage, 3)),
        0x26 => Ok(Instruction(OpCode::ROL, AddressingMode::Zeropage, 5)),
        0x28 => Ok(Instruction(OpCode::PLP, AddressingMode::Implied, 4)),
        0x29 => Ok(Instruction(OpCode::AND, AddressingMode::Immediate, 2)),
        0x2a => Ok(Instruction(OpCode::ROL, AddressingMode::Accumulator, 2)),
        0x2c => Ok(Instruction(OpCode::BIT, AddressingMode::Absolute, 4)),
        0x2d => Ok(Instruction(OpCode::AND, AddressingMode::Absolute, 4)),
        0x2e => Ok(Instruction(OpCode::ROL, AddressingMode::Absolute, 6)),
        0x30 => Ok(Instruction(OpCode::BMI, AddressingMode::Relative, 2)),
        0x31 => Ok(Instruction(OpCode::AND, AddressingMode::IndirectIndexed, 5)),
        0x35 => Ok(Instruction(OpCode::AND, AddressingMode::ZeropageX, 4)),
        0x36 => Ok(Instruction(OpCode::ROL, AddressingMode::ZeropageX, 6)),
        0x38 => Ok(Instruction(OpCode::SEC, AddressingMode::Implied, 2)),
        0x39 => Ok(Instruction(OpCode::AND, AddressingMode::AbsoluteY, 4)),
        0x3d => Ok(Instruction(OpCode::AND, AddressingMode::AbsoluteX, 4)),
        0x3e => Ok(Instruction(OpCode::ROL, AddressingMode::AbsoluteX, 7)),
        0x40 => Ok(Instruction(OpCode::RTI, AddressingMode::Implied, 6)),
        0x41 => Ok(Instruction(OpCode::EOR, AddressingMode::IndexedIndirect, 6)),
        0x45 => Ok(Instruction(OpCode::EOR, AddressingMode::Zeropage, 3)),
        0x46 => Ok(Instruction(OpCode::LSR, AddressingMode::Zeropage, 5)),
        0x48 => Ok(Instruction(OpCode::PHA, AddressingMode::Implied, 3)),
        0x49 => Ok(Instruction(OpCode::EOR, AddressingMode::Immediate, 2)),
        0x4a => Ok(Instruction(OpCode::LSR, AddressingMode::Accumulator, 2)),
        0x4c => Ok(Instruction(OpCode::JMP, AddressingMode::Absolute, 3)),
        0x4d => Ok(Instruction(OpCode::EOR, AddressingMode::Absolute, 4)),
        0x4e => Ok(Instruction(OpCode::LSR, AddressingMode::Absolute, 6)),
        0x50 => Ok(Instruction(OpCode::BVC, AddressingMode::Relative, 2)),
        0x51 => Ok(Instruction(OpCode::EOR, AddressingMode::IndirectIndexed, 5)),
        0x55 => Ok(Instruction(OpCode::EOR, AddressingMode::ZeropageX, 4)),
        0x56 => Ok(Instruction(OpCode::LSR, AddressingMode::ZeropageX, 6)),
        0x58 => Ok(Instruction(OpCode::CLI, AddressingMode::Implied, 2)),
        0x59 => Ok(Instruction(OpCode::EOR, AddressingMode::AbsoluteY, 4)),
        0x5d => Ok(Instruction(OpCode::EOR, AddressingMode::AbsoluteX, 4)),
        0x5e => Ok(Instruction(OpCode::LSR, AddressingMode::AbsoluteX, 7)),
        0x60 => Ok(Instruction(OpCode::RTS, AddressingMode::Implied, 6)),
        0x61 => Ok(Instruction(OpCode::ADC, AddressingMode::IndexedIndirect, 6)),
        0x65 => Ok(Instruction(OpCode::ADC, AddressingMode::Zeropage, 3)),
        0x66 => Ok(Instruction(OpCode::ROR, AddressingMode::Zeropage, 5)),
        0x68 => Ok(Instruction(OpCode::PLA, AddressingMode::Implied, 4)),
        0x69 => Ok(Instruction(OpCode::ADC, AddressingMode::Immediate, 2)),
        0x6a => Ok(Instruction(OpCode::ROR, AddressingMode::Accumulator, 2)),
        0x6c => Ok(Instruction(OpCode::JMP, AddressingMode::AbsoluteIndirect, 5)),
        0x6d => Ok(Instruction(OpCode::ADC, AddressingMode::Absolute, 4)),
        0x6e => Ok(Instruction(OpCode::ROR, AddressingMode::Absolute, 6)),
        0x70 => Ok(Instruction(OpCode::BVS, AddressingMode::Relative, 2)),
        0x71 => Ok(Instruction(OpCode::ADC, AddressingMode::IndirectIndexed, 5)),
        0x75 => Ok(Instruction(OpCode::ADC, AddressingMode::ZeropageX, 4)),
        0x76 => Ok(Instruction(OpCode::ROR, AddressingMode::ZeropageX, 6)),
        0x78 => Ok(Instruction(OpCode::SEI, AddressingMode::Implied, 2)),
        0x79 => Ok(Instruction(OpCode::ADC, AddressingMode::AbsoluteY, 4)),
        0x7d => Ok(Instruction(OpCode::ADC, AddressingMode::AbsoluteX, 4)),
        0x7e => Ok(Instruction(OpCode::ROR, AddressingMode::AbsoluteX, 7)),
        0x81 => Ok(Instruction(OpCode::STA, AddressingMode::IndexedIndirect, 6)),
        0x84 => Ok(Instruction(OpCode::STY, AddressingMode::Zeropage, 3)),
        0x85 => Ok(Instruction(OpCode::STA, AddressingMode::Zeropage, 3)),
        0x86 => Ok(Instruction(OpCode::STX, AddressingMode::Zeropage, 3)),
        0x88 => Ok(Instruction(OpCode::DEY, AddressingMode::Implied, 2)),
        0x8a => Ok(Instruction(OpCode::TXA, AddressingMode::Implied, 2)),
        0x8c => Ok(Instruction(OpCode::STY, AddressingMode::Absolute, 4)),
        0x8d => Ok(Instruction(OpCode::STA, AddressingMode::Absolute, 4)),
        0x8e => Ok(Instruction(OpCode::STX, AddressingMode::Absolute, 4)),
        0x90 => Ok(Instruction(OpCode::BCC, AddressingMode::Relative, 2)),
        0x91 => Ok(Instruction(OpCode::STA, AddressingMode::IndirectIndexed, 6)),
        0x94 => Ok(Instruction(OpCode::STY, AddressingMode::ZeropageX, 4)),
        0x95 => Ok(Instruction(OpCode::STA, AddressingMode::ZeropageX, 4)),
        0x96 => Ok(Instruction(OpCode::STX, AddressingMode::ZeropageY, 4)),
        0x98 => Ok(Instruction(OpCode::TYA, AddressingMode::Implied, 2)),
        0x99 => Ok(Instruction(OpCode::STA, AddressingMode::AbsoluteY, 5)),
        0x9a => Ok(Instruction(OpCode::TXS, AddressingMode::Implied, 2)),
        0x9d => Ok(Instruction(OpCode::STA, AddressingMode::AbsoluteX, 5)),
        0xa0 => Ok(Instruction(OpCode::LDY, AddressingMode::Immediate, 2)),
        0xa1 => Ok(Instruction(OpCode::LDA, AddressingMode::IndexedIndirect, 6)),
        0xa2 => Ok(Instruction(OpCode::LDX, AddressingMode::Immediate, 2)),
        0xa4 => Ok(Instruction(OpCode::LDY, AddressingMode::Zeropage, 3)),
        0xa5 => Ok(Instruction(OpCode::LDA, AddressingMode::Zeropage, 3)),
        0xa6 => Ok(Instruction(OpCode::LDX, AddressingMode::Zeropage, 3)),
        0xa8 => Ok(Instruction(OpCode::TAY, AddressingMode::Implied, 2)),
        0xa9 => Ok(Instruction(OpCode::LDA, AddressingMode::Immediate, 2)),
        0xaa => Ok(Instruction(OpCode::TAX, AddressingMode::Implied, 2)),
        0xac => Ok(Instruction(OpCode::LDY, AddressingMode::Absolute, 4)),
        0xad => Ok(Instruction(OpCode::LDA, AddressingMode::Absolute, 4)),
        0xae => Ok(Instruction(OpCode::LDX, AddressingMode::Absolute, 4)),
        0xb0 => Ok(Instruction(OpCode::BCS, AddressingMode::Relative, 2)),
        0xb1 => Ok(Instruction(OpCode::LDA, AddressingMode::IndirectIndexed, 5)),
        0xb4 => Ok(Instruction(OpCode::LDY, AddressingMode::ZeropageX, 4)),
        0xb5 => Ok(Instruction(OpCode::LDA, AddressingMode::ZeropageX, 4)),
        0xb6 => Ok(Instruction(OpCode::LDX, AddressingMode::ZeropageY, 4)),
        0xb8 => Ok(Instruction(OpCode::CLV, AddressingMode::Implied, 2)),
        0xb9 => Ok(Instruction(OpCode::LDA, AddressingMode::AbsoluteY, 4)),
        0xba => Ok(Instruction(OpCode::TSX, AddressingMode::Implied, 2)),
        0xbc => Ok(Instruction(OpCode::LDY, AddressingMode::AbsoluteX, 4)),
        0xbd => Ok(Instruction(OpCode::LDA, AddressingMode::AbsoluteX, 4)),
        0xbe => Ok(Instruction(OpCode::LDX, AddressingMode::AbsoluteY, 4)),
        0xc0 => Ok(Instruction(OpCode::CPY, AddressingMode::Immediate, 2)),
        0xc1 => Ok(Instruction(OpCode::CMP, AddressingMode::IndexedIndirect, 6)),
        0xc4 => Ok(Instruction(OpCode::CPY, AddressingMode::Zeropage, 3)),
        0xc5 => Ok(Instruction(OpCode::CMP, AddressingMode::Zeropage, 3)),
        0xc6 => Ok(Instruction(OpCode::DEC, AddressingMode::Zeropage, 5)),
        0xc8 => Ok(Instruction(OpCode::INY, AddressingMode::Implied, 2)),
        0xc9 => Ok(Instruction(OpCode::CMP, AddressingMode::Immediate, 2)),
        0xca => Ok(Instruction(OpCode::DEX, AddressingMode::Implied, 2)),
        0xcc => Ok(Instruction(OpCode::CPY, AddressingMode::Absolute, 4)),
        0xcd => Ok(Instruction(OpCode::CMP, AddressingMode::Absolute, 4)),
        0xce => Ok(Instruction(OpCode::DEC, AddressingMode::Absolute, 6)),
        0xd0 => Ok(Instruction(OpCode::BNE, AddressingMode::Relative, 2)),
        0xd1 => Ok(Instruction(OpCode::CMP, AddressingMode::IndirectIndexed, 5)),
        0xd5 => Ok(Instruction(OpCode::CMP, AddressingMode::ZeropageX, 4)),
        0xd6 => Ok(Instruction(OpCode::DEC, AddressingMode::ZeropageX, 6)),
        0xd8 => Ok(Instruction(OpCode::CLD, AddressingMode::Implied, 2)),
        0xd9 => Ok(Instruction(OpCode::CMP, AddressingMode::AbsoluteY, 4)),
        0xdd => Ok(Instruction(OpCode::CMP, AddressingMode::AbsoluteX, 4)),
        0xde => Ok(Instruction(OpCode::DEC, AddressingMode::AbsoluteX, 7)),
        0xe0 => Ok(Instruction(OpCode::CPX, AddressingMode::Immediate, 2)),
        0xe1 => Ok(Instruction(OpCode::SBC, AddressingMode::IndexedIndirect, 6)),
        0xe4 => Ok(Instruction(OpCode::CPX, AddressingMode::Zeropage, 3)),
        0xe5 => Ok(Instruction(OpCode::SBC, AddressingMode::Zeropage, 3)),
        0xe6 => Ok(Instruction(OpCode::INC, AddressingMode::Zeropage, 5)),
        0xe8 => Ok(Instruction(OpCode::INX, AddressingMode::Implied, 2)),
        0xe9 => Ok(Instruction(OpCode::SBC, AddressingMode::Immediate, 2)),
        0xea => Ok(Instruction(OpCode::NOP, AddressingMode::Implied, 2)),
        0xec => Ok(Instruction(OpCode::CPX, AddressingMode::Absolute, 4)),
        0xed => Ok(Instruction(OpCode::SBC, AddressingMode::Absolute, 4)),
        0xee => Ok(Instruction(OpCode::INC, AddressingMode::Absolute, 6)),
        0xf0 => Ok(Instruction(OpCode::BEQ, AddressingMode::Relative, 2)),
        0xf1 => Ok(Instruction(OpCode::SBC, AddressingMode::IndirectIndexed, 5)),
        0xf5 => Ok(Instruction(OpCode::SBC, AddressingMode::ZeropageX, 4)),
        0xf6 => Ok(Instruction(OpCode::INC, AddressingMode::ZeropageX, 6)),
        0xf8 => Ok(Instruction(OpCode::SED, AddressingMode::Implied, 2)),
        0xf9 => Ok(Instruction(OpCode::SBC, AddressingMode::AbsoluteY, 4)),
        0xfd => Ok(Instruction(OpCode::SBC, AddressingMode::AbsoluteX, 4)),
        0xfe => Ok(Instruction(OpCode::INC, AddressingMode::AbsoluteX, 7)),
        _ => Err(NesError::IllegalOpcode(op)),
    }
}

} // verus!
