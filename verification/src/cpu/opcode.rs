use crate::error::UnknownOpCode;
use vstd::prelude::*;

verus! {

/// The operations of the 6502: the documented ones first, then, from `AAC`
/// on, the undocumented ones that behave reliably on stock hardware.
#[derive(Clone, Copy, PartialEq, Eq, Structural, Debug)]
pub enum OpCode {
    ADC,
    AND,
    ASL,
    BCC,
    BCS,
    BEQ,
    BIT,
    BMI,
    BNE,
    BPL,
    BRK,
    BVC,
    BVS,
    CLC,
    CLD,
    CLI,
    CLV,
    CMP,
    CPX,
    CPY,
    DEC,
    DEX,
    DEY,
    EOR,
    INC,
    INX,
    INY,
    JMP,
    JSR,
    LDA,
    LDX,
    LDY,
    LSR,
    NOP,
    ORA,
    PHA,
    PHP,
    PLA,
    PLP,
    ROL,
    ROR,
    RTI,
    RTS,
    SBC,
    SEC,
    SED,
    SEI,
    STA,
    STX,
    STY,
    TAX,
    TAY,
    TSX,
    TXA,
    TXS,
    TYA,
    AAC,
    SAX,
    ARR,
    ASR,
    ATX,
    AXA,
    AXS,
    DCP,
    DOP,
    ISB,
    KIL,
    LAR,
    LAX,
    RLA,
    RRA,
    SLO,
    SRE,
    SXA,
    SYA,
    TOP,
    XAA,
    XAS,
}

/// How an instruction finds its operand.
#[derive(Clone, Copy, PartialEq, Eq, Structural, Debug)]
pub enum AddressingMode {
    Absolute,
    AbsoluteX,
    AbsoluteY,
    Accumulator,
    Immediate,
    Implied,
    Indirect,
    IndexedIndirectX,
    IndirectIndexedY,
    Relative,
    ZeroPage,
    ZeroPageX,
    ZeroPageY,
}

/// One entry of the opcode table: what to do, how to find the operand and
/// the cycles that the instruction takes at least.
#[derive(Clone, Copy, PartialEq, Eq, Structural, Debug)]
pub struct Instruction {
    pub opcode: OpCode,
    pub mode: AddressingMode,
    pub cycles: u8,
}

/// No instruction of the table takes more base cycles than this.
pub const MAX_BASE_CYCLES: u8 = 8;

impl Instruction {
    /// What holds of every entry of the opcode table: the base cycles are
    /// within their limit, and an operation that works on an operand has a
    /// mode that names one.
    pub open spec fn wf(self) -> bool {
        &&& self.cycles <= MAX_BASE_CYCLES
        &&& self.opcode.takes_operand() ==> self.mode.has_address()
        &&& self.opcode.modifies_operand() ==> self.mode != AddressingMode::Implied
    }
}

impl AddressingMode {
    /// The number of operand bytes that follow the opcode byte.
    pub open spec fn spec_operand_bytes(self) -> u8 {
        match self {
            AddressingMode::Implied | AddressingMode::Accumulator => 0,
            AddressingMode::Absolute
            | AddressingMode::AbsoluteX
            | AddressingMode::AbsoluteY
            | AddressingMode::Indirect => 2,
            _ => 1,
        }
    }

    /// Whether the mode names a place in memory. The implied and the
    /// accumulator mode name none.
    pub open spec fn has_address(self) -> bool {
        self != AddressingMode::Implied && self != AddressingMode::Accumulator
    }

    pub fn operand_bytes(&self) -> (count: u8)
        ensures
            count == self.spec_operand_bytes(),
    {
        match self {
            AddressingMode::Absolute => 2,
            AddressingMode::AbsoluteX => 2,
            AddressingMode::AbsoluteY => 2,
            AddressingMode::Immediate => 1,
            AddressingMode::Indirect => 2,
            AddressingMode::IndexedIndirectX => 1,
            AddressingMode::IndirectIndexedY => 1,
            AddressingMode::Relative => 1,
            AddressingMode::ZeroPage => 1,
            AddressingMode::ZeroPageX => 1,
            AddressingMode::ZeroPageY => 1,
            _ => 0,
        }
    }
}

impl OpCode {
    /// Whether the operation reads its operand, stores to it, branches by
    /// it or jumps to it.
    pub open spec fn takes_operand(self) -> bool {
        match self {
            OpCode::ADC
            | OpCode::AND
            | OpCode::BIT
            | OpCode::CMP
            | OpCode::CPX
            | OpCode::CPY
            | OpCode::EOR
            | OpCode::LDA
            | OpCode::LDX
            | OpCode::LDY
            | OpCode::ORA
            | OpCode::SBC
            | OpCode::AAC
            | OpCode::ARR
            | OpCode::ASR
            | OpCode::ATX
            | OpCode::AXS
            | OpCode::LAR
            | OpCode::LAX
            | OpCode::STA
            | OpCode::STX
            | OpCode::STY
            | OpCode::SAX
            | OpCode::AXA
            | OpCode::SXA
            | OpCode::SYA
            | OpCode::XAS
            | OpCode::INC
            | OpCode::DEC
            | OpCode::SLO
            | OpCode::RLA
            | OpCode::SRE
            | OpCode::RRA
            | OpCode::DCP
            | OpCode::ISB
            | OpCode::BCC
            | OpCode::BCS
            | OpCode::BEQ
            | OpCode::BMI
            | OpCode::BNE
            | OpCode::BPL
            | OpCode::BVC
            | OpCode::BVS
            | OpCode::JMP
            | OpCode::JSR => true,
            _ => false,
        }
    }

    /// Whether the operation shifts or rotates its operand, which may be
    /// the accumulator.
    pub open spec fn modifies_operand(self) -> bool {
        self == OpCode::ASL || self == OpCode::LSR || self == OpCode::ROL || self == OpCode::ROR
    }

    /// Whether the operation is one of the undocumented ones.
    pub open spec fn is_undocumented(self) -> bool {
        match self {
            OpCode::AAC
            | OpCode::SAX
            | OpCode::ARR
            | OpCode::ASR
            | OpCode::ATX
            | OpCode::AXA
            | OpCode::AXS
            | OpCode::DCP
            | OpCode::DOP
            | OpCode::ISB
            | OpCode::KIL
            | OpCode::LAR
            | OpCode::LAX
            | OpCode::RLA
            | OpCode::RRA
            | OpCode::SLO
            | OpCode::SRE
            | OpCode::SXA
            | OpCode::SYA
            | OpCode::TOP
            | OpCode::XAA
            | OpCode::XAS => true,
            _ => false,
        }
    }

    pub fn undocumented(&self) -> (undocumented: bool)
        ensures
            undocumented == self.is_undocumented(),
    {
        match self {
            OpCode::AAC
            | OpCode::SAX
            | OpCode::ARR
            | OpCode::ASR
            | OpCode::ATX
            | OpCode::AXA
            | OpCode::AXS
            | OpCode::DCP
            | OpCode::DOP
            | OpCode::ISB
            | OpCode::KIL
            | OpCode::LAR
            | OpCode::LAX
            | OpCode::RLA
            | OpCode::RRA
            | OpCode::SLO
            | OpCode::SRE
            | OpCode::SXA
            | OpCode::SYA
            | OpCode::TOP
            | OpCode::XAA
            | OpCode::XAS => true,
            _ => false,
        }
    }
}

/// The table entry made of its three parts.
pub open spec fn entry(opcode: OpCode, mode: AddressingMode, cycles: u8) -> Option<Instruction> {
    Some(Instruction { opcode, mode, cycles })
}

/// The documented instructions by opcode byte, in the order of their
/// mnemonics.
pub open spec fn documented_entry(byte: u8) -> Option<Instruction> {
    match byte {
        0x69 => entry(OpCode::ADC, AddressingMode::Immediate, 2),
        0x65 => entry(OpCode::ADC, AddressingMode::ZeroPage, 3),
        0x75 => entry(OpCode::ADC, AddressingMode::ZeroPageX, 4),
        0x6D => entry(OpCode::ADC, AddressingMode::Absolute, 4),
        0x7D => entry(OpCode::ADC, AddressingMode::AbsoluteX, 4),
        0x79 => entry(OpCode::ADC, AddressingMode::AbsoluteY, 4),
        0x61 => entry(OpCode::ADC, AddressingMode::IndexedIndirectX, 6),
        0x71 => entry(OpCode::ADC, AddressingMode::IndirectIndexedY, 5),
        0x29 => entry(OpCode::AND, AddressingMode::Immediate, 2),
        0x25 => entry(OpCode::AND, AddressingMode::ZeroPage, 3),
        0x35 => entry(OpCode::AND, AddressingMode::ZeroPageX, 4),
        0x2D => entry(OpCode::AND, AddressingMode::Absolute, 4),
        0x3D => entry(OpCode::AND, AddressingMode::AbsoluteX, 4),
        0x39 => entry(OpCode::AND, AddressingMode::AbsoluteY, 4),
        0x21 => entry(OpCode::AND, AddressingMode::IndexedIndirectX, 6),
        0x31 => entry(OpCode::AND, AddressingMode::IndirectIndexedY, 5),
        0x0A => entry(OpCode::ASL, AddressingMode::Accumulator, 2),
        0x06 => entry(OpCode::ASL, AddressingMode::ZeroPage, 5),
        0x16 => entry(OpCode::ASL, AddressingMode::ZeroPageX, 6),
        0x0E => entry(OpCode::ASL, AddressingMode::Absolute, 6),
        0x1E => entry(OpCode::ASL, AddressingMode::AbsoluteX, 7),
        0x90 => entry(OpCode::BCC, AddressingMode::Relative, 2),
        0xB0 => entry(OpCode::BCS, AddressingMode::Relative, 2),
        0xF0 => entry(OpCode::BEQ, AddressingMode::Relative, 2),
        0x24 => entry(OpCode::BIT, AddressingMode::ZeroPage, 3),
        0x2C => entry(OpCode::BIT, AddressingMode::Absolute, 4),
        0x30 => entry(OpCode::BMI, AddressingMode::Relative, 2),
        0xD0 => entry(OpCode::BNE, AddressingMode::Relative, 2),
        0x10 => entry(OpCode::BPL, AddressingMode::Relative, 2),
        0x50 => entry(OpCode::BVC, AddressingMode::Relative, 2),
        0x70 => entry(OpCode::BVS, AddressingMode::Relative, 2),
        0x18 => entry(OpCode::CLC, AddressingMode::Implied, 2),
        0xD8 => entry(OpCode::CLD, AddressingMode::Implied, 2),
        0x58 => entry(OpCode::CLI, AddressingMode::Implied, 2),
        0xB8 => entry(OpCode::CLV, AddressingMode::Implied, 2),
        0x00 => entry(OpCode::BRK, AddressingMode::Implied, 7),
        0xC9 => entry(OpCode::CMP, AddressingMode::Immediate, 2),
        0xC5 => entry(OpCode::CMP, AddressingMode::ZeroPage, 3),
        0xD5 => entry(OpCode::CMP, AddressingMode::ZeroPageX, 4),
        0xCD => entry(OpCode::CMP, AddressingMode::Absolute, 4),
        0xDD => entry(OpCode::CMP, AddressingMode::AbsoluteX, 4),
        0xD9 => entry(OpCode::CMP, AddressingMode::AbsoluteY, 4),
        0xC1 => entry(OpCode::CMP, AddressingMode::IndexedIndirectX, 6),
        0xD1 => entry(OpCode::CMP, AddressingMode::IndirectIndexedY, 5),
        0xE0 => entry(OpCode::CPX, AddressingMode::Immediate, 2),
        0xE4 => entry(OpCode::CPX, AddressingMode::ZeroPage, 3),
        0xEC => entry(OpCode::CPX, AddressingMode::Absolute, 4),
        0xC0 => entry(OpCode::CPY, AddressingMode::Immediate, 2),
        0xC4 => entry(OpCode::CPY, AddressingMode::ZeroPage, 3),
        0xCC => entry(OpCode::CPY, AddressingMode::Absolute, 4),
        0xC6 => entry(OpCode::DEC, AddressingMode::ZeroPage, 5),
        0xD6 => entry(OpCode::DEC, AddressingMode::ZeroPageX, 6),
        0xCE => entry(OpCode::DEC, AddressingMode::Absolute, 6),
        0xDE => entry(OpCode::DEC, AddressingMode::AbsoluteX, 7),
        0xCA => entry(OpCode::DEX, AddressingMode::Implied, 2),
        0x88 => entry(OpCode::DEY, AddressingMode::Implied, 2),
        0x49 => entry(OpCode::EOR, AddressingMode::Immediate, 2),
        0x45 => entry(OpCode::EOR, AddressingMode::ZeroPage, 3),
        0x55 => entry(OpCode::EOR, AddressingMode::ZeroPageX, 4),
        0x4D => entry(OpCode::EOR, AddressingMode::Absolute, 4),
        0x5D => entry(OpCode::EOR, AddressingMode::AbsoluteX, 4),
        0x59 => entry(OpCode::EOR, AddressingMode::AbsoluteY, 4),
        0x41 => entry(OpCode::EOR, AddressingMode::IndexedIndirectX, 6),
        0x51 => entry(OpCode::EOR, AddressingMode::IndirectIndexedY, 5),
        0xE6 => entry(OpCode::INC, AddressingMode::ZeroPage, 5),
        0xF6 => entry(OpCode::INC, AddressingMode::ZeroPageX, 6),
        0xEE => entry(OpCode::INC, AddressingMode::Absolute, 6),
        0xFE => entry(OpCode::INC, AddressingMode::AbsoluteX, 7),
        0xE8 => entry(OpCode::INX, AddressingMode::Implied, 2),
        0xC8 => entry(OpCode::INY, AddressingMode::Implied, 2),
        0x4C => entry(OpCode::JMP, AddressingMode::Absolute, 3),
        0x6C => entry(OpCode::JMP, AddressingMode::Indirect, 5),
        0x20 => entry(OpCode::JSR, AddressingMode::Absolute, 6),
        0xA9 => entry(OpCode::LDA, AddressingMode::Immediate, 2),
        0xA5 => entry(OpCode::LDA, AddressingMode::ZeroPage, 3),
        0xB5 => entry(OpCode::LDA, AddressingMode::ZeroPageX, 4),
        0xAD => entry(OpCode::LDA, AddressingMode::Absolute, 4),
        0xBD => entry(OpCode::LDA, AddressingMode::AbsoluteX, 4),
        0xB9 => entry(OpCode::LDA, AddressingMode::AbsoluteY, 4),
        0xA1 => entry(OpCode::LDA, AddressingMode::IndexedIndirectX, 6),
        0xB1 => entry(OpCode::LDA, AddressingMode::IndirectIndexedY, 5),
        0xA2 => entry(OpCode::LDX, AddressingMode::Immediate, 2),
        0xA6 => entry(OpCode::LDX, AddressingMode::ZeroPage, 3),
        0xB6 => entry(OpCode::LDX, AddressingMode::ZeroPageY, 4),
        0xAE => entry(OpCode::LDX, AddressingMode::Absolute, 4),
        0xBE => entry(OpCode::LDX, AddressingMode::AbsoluteY, 4),
        0xA0 => entry(OpCode::LDY, AddressingMode::Immediate, 2),
        0xA4 => entry(OpCode::LDY, AddressingMode::ZeroPage, 3),
        0xB4 => entry(OpCode::LDY, AddressingMode::ZeroPageX, 4),
        0xAC => entry(OpCode::LDY, AddressingMode::Absolute, 4),
        0xBC => entry(OpCode::LDY, AddressingMode::AbsoluteX, 4),
        0x4A => entry(OpCode::LSR, AddressingMode::Accumulator, 2),
        0x46 => entry(OpCode::LSR, AddressingMode::ZeroPage, 5),
        0x56 => entry(OpCode::LSR, AddressingMode::ZeroPageX, 6),
        0x4E => entry(OpCode::LSR, AddressingMode::Absolute, 6),
        0x5E => entry(OpCode::LSR, AddressingMode::AbsoluteX, 7),
        0xEA => entry(OpCode::NOP, AddressingMode::Implied, 2),
        0x09 => entry(OpCode::ORA, AddressingMode::Immediate, 2),
        0x05 => entry(OpCode::ORA, AddressingMode::ZeroPage, 3),
        0x15 => entry(OpCode::ORA, AddressingMode::ZeroPageX, 4),
        0x0D => entry(OpCode::ORA, AddressingMode::Absolute, 4),
        0x1D => entry(OpCode::ORA, AddressingMode::AbsoluteX, 4),
        0x19 => entry(OpCode::ORA, AddressingMode::AbsoluteY, 4),
        0x01 => entry(OpCode::ORA, AddressingMode::IndexedIndirectX, 6),
        0x11 => entry(OpCode::ORA, AddressingMode::IndirectIndexedY, 5),
        0x48 => entry(OpCode::PHA, AddressingMode::Implied, 3),
        0x08 => entry(OpCode::PHP, AddressingMode::Implied, 3),
        0x68 => entry(OpCode::PLA, AddressingMode::Implied, 4),
        0x28 => entry(OpCode::PLP, AddressingMode::Implied, 4),
        0x2A => entry(OpCode::ROL, AddressingMode::Accumulator, 2),
        0x26 => entry(OpCode::ROL, AddressingMode::ZeroPage, 5),
        0x36 => entry(OpCode::ROL, AddressingMode::ZeroPageX, 6),
        0x2E => entry(OpCode::ROL, AddressingMode::Absolute, 6),
        0x3E => entry(OpCode::ROL, AddressingMode::AbsoluteX, 7),
        0x6A => entry(OpCode::ROR, AddressingMode::Accumulator, 2),
        0x66 => entry(OpCode::ROR, AddressingMode::ZeroPage, 5),
        0x76 => entry(OpCode::ROR, AddressingMode::ZeroPageX, 6),
        0x6E => entry(OpCode::ROR, AddressingMode::Absolute, 6),
        0x7E => entry(OpCode::ROR, AddressingMode::AbsoluteX, 7),
        0x40 => entry(OpCode::RTI, AddressingMode::Implied, 6),
        0x60 => entry(OpCode::RTS, AddressingMode::Implied, 6),
        0xE9 => entry(OpCode::SBC, AddressingMode::Immediate, 2),
        0xE5 => entry(OpCode::SBC, AddressingMode::ZeroPage, 3),
        0xF5 => entry(OpCode::SBC, AddressingMode::ZeroPageX, 4),
        0xED => entry(OpCode::SBC, AddressingMode::Absolute, 4),
        0xFD => entry(OpCode::SBC, AddressingMode::AbsoluteX, 4),
        0xF9 => entry(OpCode::SBC, AddressingMode::AbsoluteY, 4),
        0xE1 => entry(OpCode::SBC, AddressingMode::IndexedIndirectX, 6),
        0xF1 => entry(OpCode::SBC, AddressingMode::IndirectIndexedY, 5),
        0x38 => entry(OpCode::SEC, AddressingMode::Implied, 2),
        0xF8 => entry(OpCode::SED, AddressingMode::Implied, 2),
        0x78 => entry(OpCode::SEI, AddressingMode::Implied, 2),
        0x85 => entry(OpCode::STA, AddressingMode::ZeroPage, 3),
        0x95 => entry(OpCode::STA, AddressingMode::ZeroPageX, 4),
        0x8D => entry(OpCode::STA, AddressingMode::Absolute, 4),
        0x9D => entry(OpCode::STA, AddressingMode::AbsoluteX, 5),
        0x99 => entry(OpCode::STA, AddressingMode::AbsoluteY, 5),
        0x81 => entry(OpCode::STA, AddressingMode::IndexedIndirectX, 6),
        0x91 => entry(OpCode::STA, AddressingMode::IndirectIndexedY, 6),
        0x86 => entry(OpCode::STX, AddressingMode::ZeroPage, 3),
        0x96 => entry(OpCode::STX, AddressingMode::ZeroPageY, 4),
        0x8E => entry(OpCode::STX, AddressingMode::Absolute, 4),
        0x84 => entry(OpCode::STY, AddressingMode::ZeroPage, 3),
        0x94 => entry(OpCode::STY, AddressingMode::ZeroPageX, 4),
        0x8C => entry(OpCode::STY, AddressingMode::Absolute, 4),
        0xAA => entry(OpCode::TAX, AddressingMode::Implied, 2),
        0xA8 => entry(OpCode::TAY, AddressingMode::Implied, 2),
        0xBA => entry(OpCode::TSX, AddressingMode::Implied, 2),
        0x8A => entry(OpCode::TXA, AddressingMode::Implied, 2),
        0x9A => entry(OpCode::TXS, AddressingMode::Implied, 2),
        0x98 => entry(OpCode::TYA, AddressingMode::Implied, 2),
        _ => None,
    }
}

/// The undocumented instructions by opcode byte, in the order of their
/// mnemonics. The undocumented twins of NOP and SBC are among them.
pub open spec fn undocumented_entry(byte: u8) -> Option<Instruction> {
    match byte {
        0x1A => entry(OpCode::NOP, AddressingMode::Implied, 2),
        0x3A => entry(OpCode::NOP, AddressingMode::Implied, 2),
        0x5A => entry(OpCode::NOP, AddressingMode::Implied, 2),
        0x7A => entry(OpCode::NOP, AddressingMode::Implied, 2),
        0xDA => entry(OpCode::NOP, AddressingMode::Implied, 2),
        0xFA => entry(OpCode::NOP, AddressingMode::Implied, 2),
        0xEB => entry(OpCode::SBC, AddressingMode::Immediate, 2),
        0x0B => entry(OpCode::AAC, AddressingMode::Immediate, 2),
        0x2B => entry(OpCode::AAC, AddressingMode::Immediate, 2),
        0x87 => entry(OpCode::SAX, AddressingMode::ZeroPage, 3),
        0x97 => entry(OpCode::SAX, AddressingMode::ZeroPageY, 4),
        0x83 => entry(OpCode::SAX, AddressingMode::IndexedIndirectX, 6),
        0x8F => entry(OpCode::SAX, AddressingMode::Absolute, 4),
        0x6B => entry(OpCode::ARR, AddressingMode::Immediate, 2),
        0x4B => entry(OpCode::ASR, AddressingMode::Immediate, 2),
        0xAB => entry(OpCode::ATX, AddressingMode::Immediate, 2),
        0x9F => entry(OpCode::AXA, AddressingMode::AbsoluteY, 5),
        0x93 => entry(OpCode::AXA, AddressingMode::IndirectIndexedY, 6),
        0xCB => entry(OpCode::AXS, AddressingMode::Immediate, 2),
        0xC7 => entry(OpCode::DCP, AddressingMode::ZeroPage, 5),
        0xD7 => entry(OpCode::DCP, AddressingMode::ZeroPageX, 6),
        0xCF => entry(OpCode::DCP, AddressingMode::Absolute, 6),
        0xDF => entry(OpCode::DCP, AddressingMode::AbsoluteX, 7),
        0xDB => entry(OpCode::DCP, AddressingMode::AbsoluteY, 7),
        0xC3 => entry(OpCode::DCP, AddressingMode::IndexedIndirectX, 8),
        0xD3 => entry(OpCode::DCP, AddressingMode::IndirectIndexedY, 8),
        0x04 => entry(OpCode::DOP, AddressingMode::ZeroPage, 3),
        0x14 => entry(OpCode::DOP, AddressingMode::ZeroPageX, 4),
        0x34 => entry(OpCode::DOP, AddressingMode::ZeroPageX, 4),
        0x44 => entry(OpCode::DOP, AddressingMode::ZeroPage, 3),
        0x54 => entry(OpCode::DOP, AddressingMode::ZeroPageX, 4),
        0x64 => entry(OpCode::DOP, AddressingMode::ZeroPage, 3),
        0x74 => entry(OpCode::DOP, AddressingMode::ZeroPageX, 4),
        0x80 => entry(OpCode::DOP, AddressingMode::Immediate, 2),
        0x82 => entry(OpCode::DOP, AddressingMode::Immediate, 2),
        0x89 => entry(OpCode::DOP, AddressingMode::Immediate, 2),
        0xC2 => entry(OpCode::DOP, AddressingMode::Immediate, 2),
        0xD4 => entry(OpCode::DOP, AddressingMode::ZeroPageX, 4),
        0xE2 => entry(OpCode::DOP, AddressingMode::Immediate, 2),
        0xF4 => entry(OpCode::DOP, AddressingMode::ZeroPageX, 4),
        0xE7 => entry(OpCode::ISB, AddressingMode::ZeroPage, 5),
        0xF7 => entry(OpCode::ISB, AddressingMode::ZeroPageX, 6),
        0xEF => entry(OpCode::ISB, AddressingMode::Absolute, 6),
        0xFF => entry(OpCode::ISB, AddressingMode::AbsoluteX, 7),
        0xFB => entry(OpCode::ISB, AddressingMode::AbsoluteY, 7),
        0xE3 => entry(OpCode::ISB, AddressingMode::IndexedIndirectX, 8),
        0xF3 => entry(OpCode::ISB, AddressingMode::IndirectIndexedY, 8),
        0x02 => entry(OpCode::KIL, AddressingMode::Implied, 0),
        0x12 => entry(OpCode::KIL, AddressingMode::Implied, 0),
        0x22 => entry(OpCode::KIL, AddressingMode::Implied, 0),
        0x32 => entry(OpCode::KIL, AddressingMode::Implied, 0),
        0x42 => entry(OpCode::KIL, AddressingMode::Implied, 0),
        0x52 => entry(OpCode::KIL, AddressingMode::Implied, 0),
        0x62 => entry(OpCode::KIL, AddressingMode::Implied, 0),
        0x72 => entry(OpCode::KIL, AddressingMode::Implied, 0),
        0x92 => entry(OpCode::KIL, AddressingMode::Implied, 0),
        0xB2 => entry(OpCode::KIL, AddressingMode::Implied, 0),
        0xD2 => entry(OpCode::KIL, AddressingMode::Implied, 0),
        0xF2 => entry(OpCode::KIL, AddressingMode::Implied, 0),
        0xBB => entry(OpCode::LAR, AddressingMode::AbsoluteY, 4),
        0xA7 => entry(OpCode::LAX, AddressingMode::ZeroPage, 3),
        0xB7 => entry(OpCode::LAX, AddressingMode::ZeroPageY, 4),
        0xAF => entry(OpCode::LAX, AddressingMode::Absolute, 4),
        0xBF => entry(OpCode::LAX, AddressingMode::AbsoluteY, 4),
        0xA3 => entry(OpCode::LAX, AddressingMode::IndexedIndirectX, 6),
        0xB3 => entry(OpCode::LAX, AddressingMode::IndirectIndexedY, 5),
        0x27 => entry(OpCode::RLA, AddressingMode::ZeroPage, 5),
        0x37 => entry(OpCode::RLA, AddressingMode::ZeroPageX, 6),
        0x2F => entry(OpCode::RLA, AddressingMode::Absolute, 6),
        0x3F => entry(OpCode::RLA, AddressingMode::AbsoluteX, 7),
        0x3B => entry(OpCode::RLA, AddressingMode::AbsoluteY, 7),
        0x23 => entry(OpCode::RLA, AddressingMode::IndexedIndirectX, 8),
        0x33 => entry(OpCode::RLA, AddressingMode::IndirectIndexedY, 8),
        0x67 => entry(OpCode::RRA, AddressingMode::ZeroPage, 5),
        0x77 => entry(OpCode::RRA, AddressingMode::ZeroPageX, 6),
        0x6F => entry(OpCode::RRA, AddressingMode::Absolute, 6),
        0x7F => entry(OpCode::RRA, AddressingMode::AbsoluteX, 7),
        0x7B => entry(OpCode::RRA, AddressingMode::AbsoluteY, 7),
        0x63 => entry(OpCode::RRA, AddressingMode::IndexedIndirectX, 8),
        0x73 => entry(OpCode::RRA, AddressingMode::IndirectIndexedY, 8),
        0x07 => entry(OpCode::SLO, AddressingMode::ZeroPage, 5),
        0x17 => entry(OpCode::SLO, AddressingMode::ZeroPageX, 6),
        0x0F => entry(OpCode::SLO, AddressingMode::Absolute, 6),
        0x1F => entry(OpCode::SLO, AddressingMode::AbsoluteX, 7),
        0x1B => entry(OpCode::SLO, AddressingMode::AbsoluteY, 7),
        0x03 => entry(OpCode::SLO, AddressingMode::IndexedIndirectX, 8),
        0x13 => entry(OpCode::SLO, AddressingMode::IndirectIndexedY, 8),
        0x47 => entry(OpCode::SRE, AddressingMode::ZeroPage, 5),
        0x57 => entry(OpCode::SRE, AddressingMode::ZeroPageX, 6),
        0x4F => entry(OpCode::SRE, AddressingMode::Absolute, 6),
        0x5F => entry(OpCode::SRE, AddressingMode::AbsoluteX, 7),
        0x5B => entry(OpCode::SRE, AddressingMode::AbsoluteY, 7),
        0x43 => entry(OpCode::SRE, AddressingMode::IndexedIndirectX, 8),
        0x53 => entry(OpCode::SRE, AddressingMode::IndirectIndexedY, 8),
        0x9E => entry(OpCode::SXA, AddressingMode::AbsoluteY, 5),
        0x9C => entry(OpCode::SYA, AddressingMode::AbsoluteX, 5),
        0x0C => entry(OpCode::TOP, AddressingMode::Absolute, 4),
        0x1C => entry(OpCode::TOP, AddressingMode::AbsoluteX, 4),
        0x3C => entry(OpCode::TOP, AddressingMode::AbsoluteX, 4),
        0x5C => entry(OpCode::TOP, AddressingMode::AbsoluteX, 4),
        0x7C => entry(OpCode::TOP, AddressingMode::AbsoluteX, 4),
        0xDC => entry(OpCode::TOP, AddressingMode::AbsoluteX, 4),
        0xFC => entry(OpCode::TOP, AddressingMode::AbsoluteX, 4),
        0x8B => entry(OpCode::XAA, AddressingMode::Immediate, 2),
        0x9B => entry(OpCode::XAS, AddressingMode::AbsoluteY, 5),
        _ => None,
    }
}

/// The opcode table: the instruction that an opcode byte stands for.
#[verifier::opaque]
pub open spec fn opcode_table(byte: u8) -> Option<Instruction> {
    match documented_entry(byte) {
        Some(instruction) => Some(instruction),
        None => undocumented_entry(byte),
    }
}

/// Looks an opcode byte up in the table.
#[verifier::rlimit(50)]
pub fn lookup(byte: u8) -> (found: Option<Instruction>)
    ensures
        found == opcode_table(byte),
        match found {
            Some(instruction) => instruction.wf() && (instruction.opcode == OpCode::XAA ==> byte
                == 0x8B),
            None => true,
        },
{
    proof {
        reveal(opcode_table);
    }
    match byte {
        0x00 => Some(Instruction { opcode: OpCode::BRK, mode: AddressingMode::Implied, cycles: 7 }),
        0x01 => Some(Instruction { opcode: OpCode::ORA, mode: AddressingMode::IndexedIndirectX, cycles: 6 }),
        0x02 => Some(Instruction { opcode: OpCode::KIL, mode: AddressingMode::Implied, cycles: 0 }),
        0x03 => Some(Instruction { opcode: OpCode::SLO, mode: AddressingMode::IndexedIndirectX, cycles: 8 }),
        0x04 => Some(Instruction { opcode: OpCode::DOP, mode: AddressingMode::ZeroPage, cycles: 3 }),
        0x05 => Some(Instruction { opcode: OpCode::ORA, mode: AddressingMode::ZeroPage, cycles: 3 }),
        0x06 => Some(Instruction { opcode: OpCode::ASL, mode: AddressingMode::ZeroPage, cycles: 5 }),
        0x07 => Some(Instruction { opcode: OpCode::SLO, mode: AddressingMode::ZeroPage, cycles: 5 }),
        0x08 => Some(Instruction { opcode: OpCode::PHP, mode: AddressingMode::Implied, cycles: 3 }),
        0x09 => Some(Instruction { opcode: OpCode::ORA, mode: AddressingMode::Immediate, cycles: 2 }),
        0x0A => Some(Instruction { opcode: OpCode::ASL, mode: AddressingMode::Accumulator, cycles: 2 }),
        0x0B => Some(Instruction { opcode: OpCode::AAC, mode: AddressingMode::Immediate, cycles: 2 }),
        0x0C => Some(Instruction { opcode: OpCode::TOP, mode: AddressingMode::Absolute, cycles: 4 }),
        0x0D => Some(Instruction { opcode: OpCode::ORA, mode: AddressingMode::Absolute, cycles: 4 }),
        0x0E => Some(Instruction { opcode: OpCode::ASL, mode: AddressingMode::Absolute, cycles: 6 }),
        0x0F => Some(Instruction { opcode: OpCode::SLO, mode: AddressingMode::Absolute, cycles: 6 }),
        0x10 => Some(Instruction { opcode: OpCode::BPL, mode: AddressingMode::Relative, cycles: 2 }),
        0x11 => Some(Instruction { opcode: OpCode::ORA, mode: AddressingMode::IndirectIndexedY, cycles: 5 }),
        0x12 => Some(Instruction { opcode: OpCode::KIL, mode: AddressingMode::Implied, cycles: 0 }),
        0x13 => Some(Instruction { opcode: OpCode::SLO, mode: AddressingMode::IndirectIndexedY, cycles: 8 }),
        0x14 => Some(Instruction { opcode: OpCode::DOP, mode: AddressingMode::ZeroPageX, cycles: 4 }),
        0x15 => Some(Instruction { opcode: OpCode::ORA, mode: AddressingMode::ZeroPageX, cycles: 4 }),
        0x16 => Some(Instruction { opcode: OpCode::ASL, mode: AddressingMode::ZeroPageX, cycles: 6 }),
        0x17 => Some(Instruction { opcode: OpCode::SLO, mode: AddressingMode::ZeroPageX, cycles: 6 }),
        0x18 => Some(Instruction { opcode: OpCode::CLC, mode: AddressingMode::Implied, cycles: 2 }),
        0x19 => Some(Instruction { opcode: OpCode::ORA, mode: AddressingMode::AbsoluteY, cycles: 4 }),
        0x1A => Some(Instruction { opcode: OpCode::NOP, mode: AddressingMode::Implied, cycles: 2 }),
        0x1B => Some(Instruction { opcode: OpCode::SLO, mode: AddressingMode::AbsoluteY, cycles: 7 }),
        0x1C => Some(Instruction { opcode: OpCode::TOP, mode: AddressingMode::AbsoluteX, cycles: 4 }),
        0x1D => Some(Instruction { opcode: OpCode::ORA, mode: AddressingMode::AbsoluteX, cycles: 4 }),
        0x1E => Some(Instruction { opcode: OpCode::ASL, mode: AddressingMode::AbsoluteX, cycles: 7 }),
        0x1F => Some(Instruction { opcode: OpCode::SLO, mode: AddressingMode::AbsoluteX, cycles: 7 }),
        0x20 => Some(Instruction { opcode: OpCode::JSR, mode: AddressingMode::Absolute, cycles: 6 }),
        0x21 => Some(Instruction { opcode: OpCode::AND, mode: AddressingMode::IndexedIndirectX, cycles: 6 }),
        0x22 => Some(Instruction { opcode: OpCode::KIL, mode: AddressingMode::Implied, cycles: 0 }),
        0x23 => Some(Instruction { opcode: OpCode::RLA, mode: AddressingMode::IndexedIndirectX, cycles: 8 }),
        0x24 => Some(Instruction { opcode: OpCode::BIT, mode: AddressingMode::ZeroPage, cycles: 3 }),
        0x25 => Some(Instruction { opcode: OpCode::AND, mode: AddressingMode::ZeroPage, cycles: 3 }),
        0x26 => Some(Instruction { opcode: OpCode::ROL, mode: AddressingMode::ZeroPage, cycles: 5 }),
        0x27 => Some(Instruction { opcode: OpCode::RLA, mode: AddressingMode::ZeroPage, cycles: 5 }),
        0x28 => Some(Instruction { opcode: OpCode::PLP, mode: AddressingMode::Implied, cycles: 4 }),
        0x29 => Some(Instruction { opcode: OpCode::AND, mode: AddressingMode::Immediate, cycles: 2 }),
        0x2A => Some(Instruction { opcode: OpCode::ROL, mode: AddressingMode::Accumulator, cycles: 2 }),
        0x2B => Some(Instruction { opcode: OpCode::AAC, mode: AddressingMode::Immediate, cycles: 2 }),
        0x2C => Some(Instruction { opcode: OpCode::BIT, mode: AddressingMode::Absolute, cycles: 4 }),
        0x2D => Some(Instruction { opcode: OpCode::AND, mode: AddressingMode::Absolute, cycles: 4 }),
        0x2E => Some(Instruction { opcode: OpCode::ROL, mode: AddressingMode::Absolute, cycles: 6 }),
        0x2F => Some(Instruction { opcode: OpCode::RLA, mode: AddressingMode::Absolute, cycles: 6 }),
        0x30 => Some(Instruction { opcode: OpCode::BMI, mode: AddressingMode::Relative, cycles: 2 }),
        0x31 => Some(Instruction { opcode: OpCode::AND, mode: AddressingMode::IndirectIndexedY, cycles: 5 }),
        0x32 => Some(Instruction { opcode: OpCode::KIL, mode: AddressingMode::Implied, cycles: 0 }),
        0x33 => Some(Instruction { opcode: OpCode::RLA, mode: AddressingMode::IndirectIndexedY, cycles: 8 }),
        0x34 => Some(Instruction { opcode: OpCode::DOP, mode: AddressingMode::ZeroPageX, cycles: 4 }),
        0x35 => Some(Instruction { opcode: OpCode::AND, mode: AddressingMode::ZeroPageX, cycles: 4 }),
        0x36 => Some(Instruction { opcode: OpCode::ROL, mode: AddressingMode::ZeroPageX, cycles: 6 }),
        0x37 => Some(Instruction { opcode: OpCode::RLA, mode: AddressingMode::ZeroPageX, cycles: 6 }),
        0x38 => Some(Instruction { opcode: OpCode::SEC, mode: AddressingMode::Implied, cycles: 2 }),
        0x39 => Some(Instruction { opcode: OpCode::AND, mode: AddressingMode::AbsoluteY, cycles: 4 }),
        0x3A => Some(Instruction { opcode: OpCode::NOP, mode: AddressingMode::Implied, cycles: 2 }),
        0x3B => Some(Instruction { opcode: OpCode::RLA, mode: AddressingMode::AbsoluteY, cycles: 7 }),
        0x3C => Some(Instruction { opcode: OpCode::TOP, mode: AddressingMode::AbsoluteX, cycles: 4 }),
        0x3D => Some(Instruction { opcode: OpCode::AND, mode: AddressingMode::AbsoluteX, cycles: 4 }),
        0x3E => Some(Instruction { opcode: OpCode::ROL, mode: AddressingMode::AbsoluteX, cycles: 7 }),
        0x3F => Some(Instruction { opcode: OpCode::RLA, mode: AddressingMode::AbsoluteX, cycles: 7 }),
        0x40 => Some(Instruction { opcode: OpCode::RTI, mode: AddressingMode::Implied, cycles: 6 }),
        0x41 => Some(Instruction { opcode: OpCode::EOR, mode: AddressingMode::IndexedIndirectX, cycles: 6 }),
        0x42 => Some(Instruction { opcode: OpCode::KIL, mode: AddressingMode::Implied, cycles: 0 }),
        0x43 => Some(Instruction { opcode: OpCode::SRE, mode: AddressingMode::IndexedIndirectX, cycles: 8 }),
        0x44 => Some(Instruction { opcode: OpCode::DOP, mode: AddressingMode::ZeroPage, cycles: 3 }),
        0x45 => Some(Instruction { opcode: OpCode::EOR, mode: AddressingMode::ZeroPage, cycles: 3 }),
        0x46 => Some(Instruction { opcode: OpCode::LSR, mode: AddressingMode::ZeroPage, cycles: 5 }),
        0x47 => Some(Instruction { opcode: OpCode::SRE, mode: AddressingMode::ZeroPage, cycles: 5 }),
        0x48 => Some(Instruction { opcode: OpCode::PHA, mode: AddressingMode::Implied, cycles: 3 }),
        0x49 => Some(Instruction { opcode: OpCode::EOR, mode: AddressingMode::Immediate, cycles: 2 }),
        0x4A => Some(Instruction { opcode: OpCode::LSR, mode: AddressingMode::Accumulator, cycles: 2 }),
        0x4B => Some(Instruction { opcode: OpCode::ASR, mode: AddressingMode::Immediate, cycles: 2 }),
        0x4C => Some(Instruction { opcode: OpCode::JMP, mode: AddressingMode::Absolute, cycles: 3 }),
        0x4D => Some(Instruction { opcode: OpCode::EOR, mode: AddressingMode::Absolute, cycles: 4 }),
        0x4E => Some(Instruction { opcode: OpCode::LSR, mode: AddressingMode::Absolute, cycles: 6 }),
        0x4F => Some(Instruction { opcode: OpCode::SRE, mode: AddressingMode::Absolute, cycles: 6 }),
        0x50 => Some(Instruction { opcode: OpCode::BVC, mode: AddressingMode::Relative, cycles: 2 }),
        0x51 => Some(Instruction { opcode: OpCode::EOR, mode: AddressingMode::IndirectIndexedY, cycles: 5 }),
        0x52 => Some(Instruction { opcode: OpCode::KIL, mode: AddressingMode::Implied, cycles: 0 }),
        0x53 => Some(Instruction { opcode: OpCode::SRE, mode: AddressingMode::IndirectIndexedY, cycles: 8 }),
        0x54 => Some(Instruction { opcode: OpCode::DOP, mode: AddressingMode::ZeroPageX, cycles: 4 }),
        0x55 => Some(Instruction { opcode: OpCode::EOR, mode: AddressingMode::ZeroPageX, cycles: 4 }),
        0x56 => Some(Instruction { opcode: OpCode::LSR, mode: AddressingMode::ZeroPageX, cycles: 6 }),
        0x57 => Some(Instruction { opcode: OpCode::SRE, mode: AddressingMode::ZeroPageX, cycles: 6 }),
        0x58 => Some(Instruction { opcode: OpCode::CLI, mode: AddressingMode::Implied, cycles: 2 }),
        0x59 => Some(Instruction { opcode: OpCode::EOR, mode: AddressingMode::AbsoluteY, cycles: 4 }),
        0x5A => Some(Instruction { opcode: OpCode::NOP, mode: AddressingMode::Implied, cycles: 2 }),
        0x5B => Some(Instruction { opcode: OpCode::SRE, mode: AddressingMode::AbsoluteY, cycles: 7 }),
        0x5C => Some(Instruction { opcode: OpCode::TOP, mode: AddressingMode::AbsoluteX, cycles: 4 }),
        0x5D => Some(Instruction { opcode: OpCode::EOR, mode: AddressingMode::AbsoluteX, cycles: 4 }),
        0x5E => Some(Instruction { opcode: OpCode::LSR, mode: AddressingMode::AbsoluteX, cycles: 7 }),
        0x5F => Some(Instruction { opcode: OpCode::SRE, mode: AddressingMode::AbsoluteX, cycles: 7 }),
        0x60 => Some(Instruction { opcode: OpCode::RTS, mode: AddressingMode::Implied, cycles: 6 }),
        0x61 => Some(Instruction { opcode: OpCode::ADC, mode: AddressingMode::IndexedIndirectX, cycles: 6 }),
        0x62 => Some(Instruction { opcode: OpCode::KIL, mode: AddressingMode::Implied, cycles: 0 }),
        0x63 => Some(Instruction { opcode: OpCode::RRA, mode: AddressingMode::IndexedIndirectX, cycles: 8 }),
        0x64 => Some(Instruction { opcode: OpCode::DOP, mode: AddressingMode::ZeroPage, cycles: 3 }),
        0x65 => Some(Instruction { opcode: OpCode::ADC, mode: AddressingMode::ZeroPage, cycles: 3 }),
        0x66 => Some(Instruction { opcode: OpCode::ROR, mode: AddressingMode::ZeroPage, cycles: 5 }),
        0x67 => Some(Instruction { opcode: OpCode::RRA, mode: AddressingMode::ZeroPage, cycles: 5 }),
        0x68 => Some(Instruction { opcode: OpCode::PLA, mode: AddressingMode::Implied, cycles: 4 }),
        0x69 => Some(Instruction { opcode: OpCode::ADC, mode: AddressingMode::Immediate, cycles: 2 }),
        0x6A => Some(Instruction { opcode: OpCode::ROR, mode: AddressingMode::Accumulator, cycles: 2 }),
        0x6B => Some(Instruction { opcode: OpCode::ARR, mode: AddressingMode::Immediate, cycles: 2 }),
        0x6C => Some(Instruction { opcode: OpCode::JMP, mode: AddressingMode::Indirect, cycles: 5 }),
        0x6D => Some(Instruction { opcode: OpCode::ADC, mode: AddressingMode::Absolute, cycles: 4 }),
        0x6E => Some(Instruction { opcode: OpCode::ROR, mode: AddressingMode::Absolute, cycles: 6 }),
        0x6F => Some(Instruction { opcode: OpCode::RRA, mode: AddressingMode::Absolute, cycles: 6 }),
        0x70 => Some(Instruction { opcode: OpCode::BVS, mode: AddressingMode::Relative, cycles: 2 }),
        0x71 => Some(Instruction { opcode: OpCode::ADC, mode: AddressingMode::IndirectIndexedY, cycles: 5 }),
        0x72 => Some(Instruction { opcode: OpCode::KIL, mode: AddressingMode::Implied, cycles: 0 }),
        0x73 => Some(Instruction { opcode: OpCode::RRA, mode: AddressingMode::IndirectIndexedY, cycles: 8 }),
        0x74 => Some(Instruction { opcode: OpCode::DOP, mode: AddressingMode::ZeroPageX, cycles: 4 }),
        0x75 => Some(Instruction { opcode: OpCode::ADC, mode: AddressingMode::ZeroPageX, cycles: 4 }),
        0x76 => Some(Instruction { opcode: OpCode::ROR, mode: AddressingMode::ZeroPageX, cycles: 6 }),
        0x77 => Some(Instruction { opcode: OpCode::RRA, mode: AddressingMode::ZeroPageX, cycles: 6 }),
        0x78 => Some(Instruction { opcode: OpCode::SEI, mode: AddressingMode::Implied, cycles: 2 }),
        0x79 => Some(Instruction { opcode: OpCode::ADC, mode: AddressingMode::AbsoluteY, cycles: 4 }),
        0x7A => Some(Instruction { opcode: OpCode::NOP, mode: AddressingMode::Implied, cycles: 2 }),
        0x7B => Some(Instruction { opcode: OpCode::RRA, mode: AddressingMode::AbsoluteY, cycles: 7 }),
        0x7C => Some(Instruction { opcode: OpCode::TOP, mode: AddressingMode::AbsoluteX, cycles: 4 }),
        0x7D => Some(Instruction { opcode: OpCode::ADC, mode: AddressingMode::AbsoluteX, cycles: 4 }),
        0x7E => Some(Instruction { opcode: OpCode::ROR, mode: AddressingMode::AbsoluteX, cycles: 7 }),
        0x7F => Some(Instruction { opcode: OpCode::RRA, mode: AddressingMode::AbsoluteX, cycles: 7 }),
        0x80 => Some(Instruction { opcode: OpCode::DOP, mode: AddressingMode::Immediate, cycles: 2 }),
        0x81 => Some(Instruction { opcode: OpCode::STA, mode: AddressingMode::IndexedIndirectX, cycles: 6 }),
        0x82 => Some(Instruction { opcode: OpCode::DOP, mode: AddressingMode::Immediate, cycles: 2 }),
        0x83 => Some(Instruction { opcode: OpCode::SAX, mode: AddressingMode::IndexedIndirectX, cycles: 6 }),
        0x84 => Some(Instruction { opcode: OpCode::STY, mode: AddressingMode::ZeroPage, cycles: 3 }),
        0x85 => Some(Instruction { opcode: OpCode::STA, mode: AddressingMode::ZeroPage, cycles: 3 }),
        0x86 => Some(Instruction { opcode: OpCode::STX, mode: AddressingMode::ZeroPage, cycles: 3 }),
        0x87 => Some(Instruction { opcode: OpCode::SAX, mode: AddressingMode::ZeroPage, cycles: 3 }),
        0x88 => Some(Instruction { opcode: OpCode::DEY, mode: AddressingMode::Implied, cycles: 2 }),
        0x89 => Some(Instruction { opcode: OpCode::DOP, mode: AddressingMode::Immediate, cycles: 2 }),
        0x8A => Some(Instruction { opcode: OpCode::TXA, mode: AddressingMode::Implied, cycles: 2 }),
        0x8B => Some(Instruction { opcode: OpCode::XAA, mode: AddressingMode::Immediate, cycles: 2 }),
        0x8C => Some(Instruction { opcode: OpCode::STY, mode: AddressingMode::Absolute, cycles: 4 }),
        0x8D => Some(Instruction { opcode: OpCode::STA, mode: AddressingMode::Absolute, cycles: 4 }),
        0x8E => Some(Instruction { opcode: OpCode::STX, mode: AddressingMode::Absolute, cycles: 4 }),
        0x8F => Some(Instruction { opcode: OpCode::SAX, mode: AddressingMode::Absolute, cycles: 4 }),
        0x90 => Some(Instruction { opcode: OpCode::BCC, mode: AddressingMode::Relative, cycles: 2 }),
        0x91 => Some(Instruction { opcode: OpCode::STA, mode: AddressingMode::IndirectIndexedY, cycles: 6 }),
        0x92 => Some(Instruction { opcode: OpCode::KIL, mode: AddressingMode::Implied, cycles: 0 }),
        0x93 => Some(Instruction { opcode: OpCode::AXA, mode: AddressingMode::IndirectIndexedY, cycles: 6 }),
        0x94 => Some(Instruction { opcode: OpCode::STY, mode: AddressingMode::ZeroPageX, cycles: 4 }),
        0x95 => Some(Instruction { opcode: OpCode::STA, mode: AddressingMode::ZeroPageX, cycles: 4 }),
        0x96 => Some(Instruction { opcode: OpCode::STX, mode: AddressingMode::ZeroPageY, cycles: 4 }),
        0x97 => Some(Instruction { opcode: OpCode::SAX, mode: AddressingMode::ZeroPageY, cycles: 4 }),
        0x98 => Some(Instruction { opcode: OpCode::TYA, mode: AddressingMode::Implied, cycles: 2 }),
        0x99 => Some(Instruction { opcode: OpCode::STA, mode: AddressingMode::AbsoluteY, cycles: 5 }),
        0x9A => Some(Instruction { opcode: OpCode::TXS, mode: AddressingMode::Implied, cycles: 2 }),
        0x9B => Some(Instruction { opcode: OpCode::XAS, mode: AddressingMode::AbsoluteY, cycles: 5 }),
        0x9C => Some(Instruction { opcode: OpCode::SYA, mode: AddressingMode::AbsoluteX, cycles: 5 }),
        0x9D => Some(Instruction { opcode: OpCode::STA, mode: AddressingMode::AbsoluteX, cycles: 5 }),
        0x9E => Some(Instruction { opcode: OpCode::SXA, mode: AddressingMode::AbsoluteY, cycles: 5 }),
        0x9F => Some(Instruction { opcode: OpCode::AXA, mode: AddressingMode::AbsoluteY, cycles: 5 }),
        0xA0 => Some(Instruction { opcode: OpCode::LDY, mode: AddressingMode::Immediate, cycles: 2 }),
        0xA1 => Some(Instruction { opcode: OpCode::LDA, mode: AddressingMode::IndexedIndirectX, cycles: 6 }),
        0xA2 => Some(Instruction { opcode: OpCode::LDX, mode: AddressingMode::Immediate, cycles: 2 }),
        0xA3 => Some(Instruction { opcode: OpCode::LAX, mode: AddressingMode::IndexedIndirectX, cycles: 6 }),
        0xA4 => Some(Instruction { opcode: OpCode::LDY, mode: AddressingMode::ZeroPage, cycles: 3 }),
        0xA5 => Some(Instruction { opcode: OpCode::LDA, mode: AddressingMode::ZeroPage, cycles: 3 }),
        0xA6 => Some(Instruction { opcode: OpCode::LDX, mode: AddressingMode::ZeroPage, cycles: 3 }),
        0xA7 => Some(Instruction { opcode: OpCode::LAX, mode: AddressingMode::ZeroPage, cycles: 3 }),
        0xA8 => Some(Instruction { opcode: OpCode::TAY, mode: AddressingMode::Implied, cycles: 2 }),
        0xA9 => Some(Instruction { opcode: OpCode::LDA, mode: AddressingMode::Immediate, cycles: 2 }),
        0xAA => Some(Instruction { opcode: OpCode::TAX, mode: AddressingMode::Implied, cycles: 2 }),
        0xAB => Some(Instruction { opcode: OpCode::ATX, mode: AddressingMode::Immediate, cycles: 2 }),
        0xAC => Some(Instruction { opcode: OpCode::LDY, mode: AddressingMode::Absolute, cycles: 4 }),
        0xAD => Some(Instruction { opcode: OpCode::LDA, mode: AddressingMode::Absolute, cycles: 4 }),
        0xAE => Some(Instruction { opcode: OpCode::LDX, mode: AddressingMode::Absolute, cycles: 4 }),
        0xAF => Some(Instruction { opcode: OpCode::LAX, mode: AddressingMode::Absolute, cycles: 4 }),
        0xB0 => Some(Instruction { opcode: OpCode::BCS, mode: AddressingMode::Relative, cycles: 2 }),
        0xB1 => Some(Instruction { opcode: OpCode::LDA, mode: AddressingMode::IndirectIndexedY, cycles: 5 }),
        0xB2 => Some(Instruction { opcode: OpCode::KIL, mode: AddressingMode::Implied, cycles: 0 }),
        0xB3 => Some(Instruction { opcode: OpCode::LAX, mode: AddressingMode::IndirectIndexedY, cycles: 5 }),
        0xB4 => Some(Instruction { opcode: OpCode::LDY, mode: AddressingMode::ZeroPageX, cycles: 4 }),
        0xB5 => Some(Instruction { opcode: OpCode::LDA, mode: AddressingMode::ZeroPageX, cycles: 4 }),
        0xB6 => Some(Instruction { opcode: OpCode::LDX, mode: AddressingMode::ZeroPageY, cycles: 4 }),
        0xB7 => Some(Instruction { opcode: OpCode::LAX, mode: AddressingMode::ZeroPageY, cycles: 4 }),
        0xB8 => Some(Instruction { opcode: OpCode::CLV, mode: AddressingMode::Implied, cycles: 2 }),
        0xB9 => Some(Instruction { opcode: OpCode::LDA, mode: AddressingMode::AbsoluteY, cycles: 4 }),
        0xBA => Some(Instruction { opcode: OpCode::TSX, mode: AddressingMode::Implied, cycles: 2 }),
        0xBB => Some(Instruction { opcode: OpCode::LAR, mode: AddressingMode::AbsoluteY, cycles: 4 }),
        0xBC => Some(Instruction { opcode: OpCode::LDY, mode: AddressingMode::AbsoluteX, cycles: 4 }),
        0xBD => Some(Instruction { opcode: OpCode::LDA, mode: AddressingMode::AbsoluteX, cycles: 4 }),
        0xBE => Some(Instruction { opcode: OpCode::LDX, mode: AddressingMode::AbsoluteY, cycles: 4 }),
        0xBF => Some(Instruction { opcode: OpCode::LAX, mode: AddressingMode::AbsoluteY, cycles: 4 }),
        0xC0 => Some(Instruction { opcode: OpCode::CPY, mode: AddressingMode::Immediate, cycles: 2 }),
        0xC1 => Some(Instruction { opcode: OpCode::CMP, mode: AddressingMode::IndexedIndirectX, cycles: 6 }),
        0xC2 => Some(Instruction { opcode: OpCode::DOP, mode: AddressingMode::Immediate, cycles: 2 }),
        0xC3 => Some(Instruction { opcode: OpCode::DCP, mode: AddressingMode::IndexedIndirectX, cycles: 8 }),
        0xC4 => Some(Instruction { opcode: OpCode::CPY, mode: AddressingMode::ZeroPage, cycles: 3 }),
        0xC5 => Some(Instruction { opcode: OpCode::CMP, mode: AddressingMode::ZeroPage, cycles: 3 }),
        0xC6 => Some(Instruction { opcode: OpCode::DEC, mode: AddressingMode::ZeroPage, cycles: 5 }),
        0xC7 => Some(Instruction { opcode: OpCode::DCP, mode: AddressingMode::ZeroPage, cycles: 5 }),
        0xC8 => Some(Instruction { opcode: OpCode::INY, mode: AddressingMode::Implied, cycles: 2 }),
        0xC9 => Some(Instruction { opcode: OpCode::CMP, mode: AddressingMode::Immediate, cycles: 2 }),
        0xCA => Some(Instruction { opcode: OpCode::DEX, mode: AddressingMode::Implied, cycles: 2 }),
        0xCB => Some(Instruction { opcode: OpCode::AXS, mode: AddressingMode::Immediate, cycles: 2 }),
        0xCC => Some(Instruction { opcode: OpCode::CPY, mode: AddressingMode::Absolute, cycles: 4 }),
        0xCD => Some(Instruction { opcode: OpCode::CMP, mode: AddressingMode::Absolute, cycles: 4 }),
        0xCE => Some(Instruction { opcode: OpCode::DEC, mode: AddressingMode::Absolute, cycles: 6 }),
        0xCF => Some(Instruction { opcode: OpCode::DCP, mode: AddressingMode::Absolute, cycles: 6 }),
        0xD0 => Some(Instruction { opcode: OpCode::BNE, mode: AddressingMode::Relative, cycles: 2 }),
        0xD1 => Some(Instruction { opcode: OpCode::CMP, mode: AddressingMode::IndirectIndexedY, cycles: 5 }),
        0xD2 => Some(Instruction { opcode: OpCode::KIL, mode: AddressingMode::Implied, cycles: 0 }),
        0xD3 => Some(Instruction { opcode: OpCode::DCP, mode: AddressingMode::IndirectIndexedY, cycles: 8 }),
        0xD4 => Some(Instruction { opcode: OpCode::DOP, mode: AddressingMode::ZeroPageX, cycles: 4 }),
        0xD5 => Some(Instruction { opcode: OpCode::CMP, mode: AddressingMode::ZeroPageX, cycles: 4 }),
        0xD6 => Some(Instruction { opcode: OpCode::DEC, mode: AddressingMode::ZeroPageX, cycles: 6 }),
        0xD7 => Some(Instruction { opcode: OpCode::DCP, mode: AddressingMode::ZeroPageX, cycles: 6 }),
        0xD8 => Some(Instruction { opcode: OpCode::CLD, mode: AddressingMode::Implied, cycles: 2 }),
        0xD9 => Some(Instruction { opcode: OpCode::CMP, mode: AddressingMode::AbsoluteY, cycles: 4 }),
        0xDA => Some(Instruction { opcode: OpCode::NOP, mode: AddressingMode::Implied, cycles: 2 }),
        0xDB => Some(Instruction { opcode: OpCode::DCP, mode: AddressingMode::AbsoluteY, cycles: 7 }),
        0xDC => Some(Instruction { opcode: OpCode::TOP, mode: AddressingMode::AbsoluteX, cycles: 4 }),
        0xDD => Some(Instruction { opcode: OpCode::CMP, mode: AddressingMode::AbsoluteX, cycles: 4 }),
        0xDE => Some(Instruction { opcode: OpCode::DEC, mode: AddressingMode::AbsoluteX, cycles: 7 }),
        0xDF => Some(Instruction { opcode: OpCode::DCP, mode: AddressingMode::AbsoluteX, cycles: 7 }),
        0xE0 => Some(Instruction { opcode: OpCode::CPX, mode: AddressingMode::Immediate, cycles: 2 }),
        0xE1 => Some(Instruction { opcode: OpCode::SBC, mode: AddressingMode::IndexedIndirectX, cycles: 6 }),
        0xE2 => Some(Instruction { opcode: OpCode::DOP, mode: AddressingMode::Immediate, cycles: 2 }),
        0xE3 => Some(Instruction { opcode: OpCode::ISB, mode: AddressingMode::IndexedIndirectX, cycles: 8 }),
        0xE4 => Some(Instruction { opcode: OpCode::CPX, mode: AddressingMode::ZeroPage, cycles: 3 }),
        0xE5 => Some(Instruction { opcode: OpCode::SBC, mode: AddressingMode::ZeroPage, cycles: 3 }),
        0xE6 => Some(Instruction { opcode: OpCode::INC, mode: AddressingMode::ZeroPage, cycles: 5 }),
        0xE7 => Some(Instruction { opcode: OpCode::ISB, mode: AddressingMode::ZeroPage, cycles: 5 }),
        0xE8 => Some(Instruction { opcode: OpCode::INX, mode: AddressingMode::Implied, cycles: 2 }),
        0xE9 => Some(Instruction { opcode: OpCode::SBC, mode: AddressingMode::Immediate, cycles: 2 }),
        0xEA => Some(Instruction { opcode: OpCode::NOP, mode: AddressingMode::Implied, cycles: 2 }),
        0xEB => Some(Instruction { opcode: OpCode::SBC, mode: AddressingMode::Immediate, cycles: 2 }),
        0xEC => Some(Instruction { opcode: OpCode::CPX, mode: AddressingMode::Absolute, cycles: 4 }),
        0xED => Some(Instruction { opcode: OpCode::SBC, mode: AddressingMode::Absolute, cycles: 4 }),
        0xEE => Some(Instruction { opcode: OpCode::INC, mode: AddressingMode::Absolute, cycles: 6 }),
        0xEF => Some(Instruction { opcode: OpCode::ISB, mode: AddressingMode::Absolute, cycles: 6 }),
        0xF0 => Some(Instruction { opcode: OpCode::BEQ, mode: AddressingMode::Relative, cycles: 2 }),
        0xF1 => Some(Instruction { opcode: OpCode::SBC, mode: AddressingMode::IndirectIndexedY, cycles: 5 }),
        0xF2 => Some(Instruction { opcode: OpCode::KIL, mode: AddressingMode::Implied, cycles: 0 }),
        0xF3 => Some(Instruction { opcode: OpCode::ISB, mode: AddressingMode::IndirectIndexedY, cycles: 8 }),
        0xF4 => Some(Instruction { opcode: OpCode::DOP, mode: AddressingMode::ZeroPageX, cycles: 4 }),
        0xF5 => Some(Instruction { opcode: OpCode::SBC, mode: AddressingMode::ZeroPageX, cycles: 4 }),
        0xF6 => Some(Instruction { opcode: OpCode::INC, mode: AddressingMode::ZeroPageX, cycles: 6 }),
        0xF7 => Some(Instruction { opcode: OpCode::ISB, mode: AddressingMode::ZeroPageX, cycles: 6 }),
        0xF8 => Some(Instruction { opcode: OpCode::SED, mode: AddressingMode::Implied, cycles: 2 }),
        0xF9 => Some(Instruction { opcode: OpCode::SBC, mode: AddressingMode::AbsoluteY, cycles: 4 }),
        0xFA => Some(Instruction { opcode: OpCode::NOP, mode: AddressingMode::Implied, cycles: 2 }),
        0xFB => Some(Instruction { opcode: OpCode::ISB, mode: AddressingMode::AbsoluteY, cycles: 7 }),
        0xFC => Some(Instruction { opcode: OpCode::TOP, mode: AddressingMode::AbsoluteX, cycles: 4 }),
        0xFD => Some(Instruction { opcode: OpCode::SBC, mode: AddressingMode::AbsoluteX, cycles: 4 }),
        0xFE => Some(Instruction { opcode: OpCode::INC, mode: AddressingMode::AbsoluteX, cycles: 7 }),
        0xFF => Some(Instruction { opcode: OpCode::ISB, mode: AddressingMode::AbsoluteX, cycles: 7 }),
    }
}

/// Decodes an opcode byte: the entry of the table, or the byte as an
/// unknown opcode where the table holds none.
pub fn decode(byte: u8) -> (decoded: Result<Instruction, UnknownOpCode>)
    ensures
        match decoded {
            Ok(instruction) => opcode_table(byte) == Some(instruction),
            Err(unknown) => opcode_table(byte).is_none() && unknown == UnknownOpCode(byte),
        },
{
    match lookup(byte) {
        Some(instruction) => Ok(instruction),
        None => Err(UnknownOpCode(byte)),
    }
}

} // verus!
