//! The instruction set of the target CPU: mnemonics, addressing modes and encodings.
use crate::error::AssemblyError;
use vstd::prelude::*;

verus! {

/// An instruction of the 6502.
#[derive(Debug, Clone, Copy, PartialEq, Eq, Structural)]
pub enum Mnemonic {
    ADC,
    AND,
    ASL,
    BCC,
    BCS,
    BEQ,
    BIT,
    BMI,
    BNE,
    BPL,
    BRK,
    BVC,
    BVS,
    CLC,
    CLD,
    CLI,
    CLV,
    CMP,
    CPX,
    CPY,
    DEC,
    DEX,
    DEY,
    EOR,
    INC,
    INX,
    INY,
    JMP,
    JSR,
    LDA,
    LDX,
    LDY,
    LSR,
    NOP,
    ORA,
    PHA,
    PHP,
    PLA,
    PLP,
    ROL,
    ROR,
    RTI,
    RTS,
    SBC,
    SEC,
    SED,
    SEI,
    STA,
    STX,
    STY,
    TAX,
    TAY,
    TSX,
    TXA,
    TXS,
    TYA,
}

/// How an instruction finds its operand.
#[derive(Debug, Clone, Copy, PartialEq, Eq, Structural)]
pub enum AddressingMode {
    Immediate,
    ZeroPage,
    ZeroPageX,
    ZeroPageY,
    Absolute,
    AbsoluteX,
    AbsoluteY,
    Relative,
    Indirect,
    IndirectX,
    IndirectY,
    Implied,
    Accumulator,
}

pub type Mode = AddressingMode;

/// How a mnemonic is written.
pub open spec fn mnemonic_name(m: Mnemonic) -> Seq<char> {
    match m {
        Mnemonic::ADC => "ADC"@,
        Mnemonic::AND => "AND"@,
        Mnemonic::ASL => "ASL"@,
        Mnemonic::BCC => "BCC"@,
        Mnemonic::BCS => "BCS"@,
        Mnemonic::BEQ => "BEQ"@,
        Mnemonic::BIT => "BIT"@,
        Mnemonic::BMI => "BMI"@,
        Mnemonic::BNE => "BNE"@,
        Mnemonic::BPL => "BPL"@,
        Mnemonic::BRK => "BRK"@,
        Mnemonic::BVC => "BVC"@,
        Mnemonic::BVS => "BVS"@,
        Mnemonic::CLC => "CLC"@,
        Mnemonic::CLD => "CLD"@,
        Mnemonic::CLI => "CLI"@,
        Mnemonic::CLV => "CLV"@,
        Mnemonic::CMP => "CMP"@,
        Mnemonic::CPX => "CPX"@,
        Mnemonic::CPY => "CPY"@,
        Mnemonic::DEC => "DEC"@,
        Mnemonic::DEX => "DEX"@,
        Mnemonic::DEY => "DEY"@,
        Mnemonic::EOR => "EOR"@,
        Mnemonic::INC => "INC"@,
        Mnemonic::INX => "INX"@,
        Mnemonic::INY => "INY"@,
        Mnemonic::JMP => "JMP"@,
        Mnemonic::JSR => "JSR"@,
        Mnemonic::LDA => "LDA"@,
        Mnemonic::LDX => "LDX"@,
        Mnemonic::LDY => "LDY"@,
        Mnemonic::LSR => "LSR"@,
        Mnemonic::NOP => "NOP"@,
        Mnemonic::ORA => "ORA"@,
        Mnemonic::PHA => "PHA"@,
        Mnemonic::PHP => "PHP"@,
        Mnemonic::PLA => "PLA"@,
        Mnemonic::PLP => "PLP"@,
        Mnemonic::ROL => "ROL"@,
        Mnemonic::ROR => "ROR"@,
        Mnemonic::RTI => "RTI"@,
        Mnemonic::RTS => "RTS"@,
        Mnemonic::SBC => "SBC"@,
        Mnemonic::SEC => "SEC"@,
        Mnemonic::SED => "SED"@,
        Mnemonic::SEI => "SEI"@,
        Mnemonic::STA => "STA"@,
        Mnemonic::STX => "STX"@,
        Mnemonic::STY => "STY"@,
        Mnemonic::TAX => "TAX"@,
        Mnemonic::TAY => "TAY"@,
        Mnemonic::TSX => "TSX"@,
        Mnemonic::TXA => "TXA"@,
        Mnemonic::TXS => "TXS"@,
        Mnemonic::TYA => "TYA"@,
    }
}

/// The name of an addressing mode.
pub open spec fn mode_name(m: AddressingMode) -> Seq<char> {
    match m {
        AddressingMode::Immediate => "Immediate"@,
        AddressingMode::ZeroPage => "ZeroPage"@,
        AddressingMode::ZeroPageX => "ZeroPageX"@,
        AddressingMode::ZeroPageY => "ZeroPageY"@,
        AddressingMode::Absolute => "Absolute"@,
        AddressingMode::AbsoluteX => "AbsoluteX"@,
        AddressingMode::AbsoluteY => "AbsoluteY"@,
        AddressingMode::Relative => "Relative"@,
        AddressingMode::Indirect => "Indirect"@,
        AddressingMode::IndirectX => "IndirectX"@,
        AddressingMode::IndirectY => "IndirectY"@,
        AddressingMode::Implied => "Implied"@,
        AddressingMode::Accumulator => "Accumulator"@,
    }
}

impl Mnemonic {
    pub fn name(&self) -> (r: &'static str)
        ensures
            r@ == mnemonic_name(*self),
    {
        match self {
            Mnemonic::ADC => "ADC",
            Mnemonic::AND => "AND",
            Mnemonic::ASL => "ASL",
            Mnemonic::BCC => "BCC",
            Mnemonic::BCS => "BCS",
            Mnemonic::BEQ => "BEQ",
            Mnemonic::BIT => "BIT",
            Mnemonic::BMI => "BMI",
            Mnemonic::BNE => "BNE",
            Mnemonic::BPL => "BPL",
            Mnemonic::BRK => "BRK",
            Mnemonic::BVC => "BVC",
            Mnemonic::BVS => "BVS",
            Mnemonic::CLC => "CLC",
            Mnemonic::CLD => "CLD",
            Mnemonic::CLI => "CLI",
            Mnemonic::CLV => "CLV",
            Mnemonic::CMP => "CMP",
            Mnemonic::CPX => "CPX",
            Mnemonic::CPY => "CPY",
            Mnemonic::DEC => "DEC",
            Mnemonic::DEX => "DEX",
            Mnemonic::DEY => "DEY",
            Mnemonic::EOR => "EOR",
            Mnemonic::INC => "INC",
            Mnemonic::INX => "INX",
            Mnemonic::INY => "INY",
            Mnemonic::JMP => "JMP",
            Mnemonic::JSR => "JSR",
            Mnemonic::LDA => "LDA",
            Mnemonic::LDX => "LDX",
            Mnemonic::LDY => "LDY",
            Mnemonic::LSR => "LSR",
            Mnemonic::NOP => "NOP",
            Mnemonic::ORA => "ORA",
            Mnemonic::PHA => "PHA",
            Mnemonic::PHP => "PHP",
            Mnemonic::PLA => "PLA",
            Mnemonic::PLP => "PLP",
            Mnemonic::ROL => "ROL",
            Mnemonic::ROR => "ROR",
            Mnemonic::RTI => "RTI",
            Mnemonic::RTS => "RTS",
            Mnemonic::SBC => "SBC",
            Mnemonic::SEC => "SEC",
            Mnemonic::SED => "SED",
            Mnemonic::SEI => "SEI",
            Mnemonic::STA => "STA",
            Mnemonic::STX => "STX",
            Mnemonic::STY => "STY",
            Mnemonic::TAX => "TAX",
            Mnemonic::TAY => "TAY",
            Mnemonic::TSX => "TSX",
            Mnemonic::TXA => "TXA",
            Mnemonic::TXS => "TXS",
            Mnemonic::TYA => "TYA",
        }
    }
}

impl AddressingMode {
    pub fn name(&self) -> (r: &'static str)
        ensures
            r@ == mode_name(*self),
    {
        match self {
            AddressingMode::Immediate => "Immediate",
            AddressingMode::ZeroPage => "ZeroPage",
            AddressingMode::ZeroPageX => "ZeroPageX",
            AddressingMode::ZeroPageY => "ZeroPageY",
            AddressingMode::Absolute => "Absolute",
            AddressingMode::AbsoluteX => "AbsoluteX",
            AddressingMode::AbsoluteY => "AbsoluteY",
            AddressingMode::Relative => "Relative",
            AddressingMode::Indirect => "Indirect",
            AddressingMode::IndirectX => "IndirectX",
            AddressingMode::IndirectY => "IndirectY",
            AddressingMode::Implied => "Implied",
            AddressingMode::Accumulator => "Accumulator",
        }
    }
}


/// The number of bytes that an instruction in this mode occupies, opcode included.
pub open spec fn mode_length(mode: AddressingMode) -> u8 {
    match mode {
        AddressingMode::Immediate => 2,
        AddressingMode::ZeroPage => 2,
        AddressingMode::ZeroPageX => 2,
        AddressingMode::ZeroPageY => 2,
        AddressingMode::Absolute => 3,
        AddressingMode::AbsoluteX => 3,
        AddressingMode::AbsoluteY => 3,
        AddressingMode::Relative => 2,
        AddressingMode::Indirect => 3,
        AddressingMode::IndirectX => 2,
        AddressingMode::IndirectY => 2,
        AddressingMode::Implied => 1,
        AddressingMode::Accumulator => 1,
    }
}

impl AddressingMode {
    pub fn length(&self) -> (r: u8)
        ensures
            r == mode_length(*self),
            1 <= r <= 3,
    {
        match self {
            AddressingMode::Immediate => 2,
            AddressingMode::ZeroPage => 2,
            AddressingMode::ZeroPageX => 2,
            AddressingMode::ZeroPageY => 2,
            AddressingMode::Absolute => 3,
            AddressingMode::AbsoluteX => 3,
            AddressingMode::AbsoluteY => 3,
            AddressingMode::Relative => 2,
            AddressingMode::Indirect => 3,
            AddressingMode::IndirectX => 2,
            AddressingMode::IndirectY => 2,
            AddressingMode::Implied => 1,
            AddressingMode::Accumulator => 1,
        }
    }
}

/// The encoding byte of `mnemonic` in `mode`, or `None` where the CPU has no such instruction.
pub open spec fn opcode_spec(mnemonic: Mnemonic, mode: AddressingMode) -> Option<u8> {
    match (mnemonic, mode) {
        (Mnemonic::ADC, AddressingMode::Immediate) => Some(0x69),
        (Mnemonic::ADC, AddressingMode::ZeroPage) => Some(0x65),
        (Mnemonic::ADC, AddressingMode::ZeroPageX) => Some(0x75),
        (Mnemonic::ADC, AddressingMode::Absolute) => Some(0x6D),
        (Mnemonic::ADC, AddressingMode::AbsoluteX) => Some(0x7D),
        (Mnemonic::ADC, AddressingMode::AbsoluteY) => Some(0x79),
        (Mnemonic::ADC, AddressingMode::IndirectX) => Some(0x61),
        (Mnemonic::ADC, AddressingMode::IndirectY) => Some(0x71),
        (Mnemonic::AND, AddressingMode::Immediate) => Some(0x29),
        (Mnemonic::AND, AddressingMode::ZeroPage) => Some(0x25),
        (Mnemonic::AND, AddressingMode::ZeroPageX) => Some(0x35),
        (Mnemonic::AND, AddressingMode::Absolute) => Some(0x2D),
        (Mnemonic::AND, AddressingMode::AbsoluteX) => Some(0x3D),
        (Mnemonic::AND, AddressingMode::AbsoluteY) => Some(0x39),
        (Mnemonic::AND, AddressingMode::IndirectX) => Some(0x21),
        (Mnemonic::AND, AddressingMode::IndirectY) => Some(0x31),
        (Mnemonic::ASL, AddressingMode::Accumulator) => Some(0x0A),
        (Mnemonic::ASL, AddressingMode::ZeroPage) => Some(0x06),
        (Mnemonic::ASL, AddressingMode::ZeroPageX) => Some(0x16),
        (Mnemonic::ASL, AddressingMode::Absolute) => Some(0x0E),
        (Mnemonic::ASL, AddressingMode::AbsoluteX) => Some(0x1E),
        (Mnemonic::BCC, AddressingMode::Relative) => Some(0x90),
        (Mnemonic::BCS, AddressingMode::Relative) => Some(0xB0),
        (Mnemonic::BEQ, AddressingMode::Relative) => Some(0xF0),
        (Mnemonic::BIT, AddressingMode::ZeroPage) => Some(0x24),
        (Mnemonic::BIT, AddressingMode::Absolute) => Some(0x2C),
        (Mnemonic::BMI, AddressingMode::Relative) => Some(0x30),
        (Mnemonic::BNE, AddressingMode::Relative) => Some(0xD0),
        (Mnemonic::BPL, AddressingMode::Relative) => Some(0x10),
        (Mnemonic::BRK, AddressingMode::Implied) => Some(0x00),
        (Mnemonic::BVC, AddressingMode::Relative) => Some(0x50),
        (Mnemonic::BVS, AddressingMode::Relative) => Some(0x70),
        (Mnemonic::CLC, AddressingMode::Implied) => Some(0x18),
        (Mnemonic::CLD, AddressingMode::Implied) => Some(0xD8),
        (Mnemonic::CLI, AddressingMode::Implied) => Some(0x58),
        (Mnemonic::CLV, AddressingMode::Implied) => Some(0xB8),
        (Mnemonic::CMP, AddressingMode::Immediate) => Some(0xC9),
        (Mnemonic::CMP, AddressingMode::ZeroPage) => Some(0xC5),
        (Mnemonic::CMP, AddressingMode::ZeroPageX) => Some(0xD5),
        (Mnemonic::CMP, AddressingMode::Absolute) => Some(0xCD),
        (Mnemonic::CMP, AddressingMode::AbsoluteX) => Some(0xDD),
        (Mnemonic::CMP, AddressingMode::AbsoluteY) => Some(0xD9),
        (Mnemonic::CMP, AddressingMode::IndirectX) => Some(0xC1),
        (Mnemonic::CMP, AddressingMode::IndirectY) => Some(0xD1),
        (Mnemonic::CPX, AddressingMode::Immediate) => Some(0xE0),
        (Mnemonic::CPX, AddressingMode::ZeroPage) => Some(0xE4),
        (Mnemonic::CPX, AddressingMode::Absolute) => Some(0xEC),
        (Mnemonic::CPY, AddressingMode::Immediate) => Some(0xC0),
        (Mnemonic::CPY, AddressingMode::ZeroPage) => Some(0xC4),
        (Mnemonic::CPY, AddressingMode::Absolute) => Some(0xCC),
        (Mnemonic::DEC, AddressingMode::ZeroPage) => Some(0xC6),
        (Mnemonic::DEC, AddressingMode::ZeroPageX) => Some(0xD6),
        (Mnemonic::DEC, AddressingMode::Absolute) => Some(0xCE),
        (Mnemonic::DEC, AddressingMode::AbsoluteX) => Some(0xDE),
        (Mnemonic::DEX, AddressingMode::Implied) => Some(0xCA),
        (Mnemonic::DEY, AddressingMode::Implied) => Some(0x88),
        (Mnemonic::EOR, AddressingMode::Immediate) => Some(0x49),
        (Mnemonic::EOR, AddressingMode::ZeroPage) => Some(0x45),
        (Mnemonic::EOR, AddressingMode::ZeroPageX) => Some(0x55),
        (Mnemonic::EOR, AddressingMode::Absolute) => Some(0x4D),
        (Mnemonic::EOR, AddressingMode::AbsoluteX) => Some(0x5D),
        (Mnemonic::EOR, AddressingMode::AbsoluteY) => Some(0x59),
        (Mnemonic::EOR, AddressingMode::IndirectX) => Some(0x41),
        (Mnemonic::EOR, AddressingMode::IndirectY) => Some(0x51),
        (Mnemonic::INC, AddressingMode::ZeroPage) => Some(0xE6),
        (Mnemonic::INC, AddressingMode::ZeroPageX) => Some(0xF6),
        (Mnemonic::INC, AddressingMode::Absolute) => Some(0xEE),
        (Mnemonic::INC, AddressingMode::AbsoluteX) => Some(0xFE),
        (Mnemonic::INX, AddressingMode::Implied) => Some(0xE8),
        (Mnemonic::INY, AddressingMode::Implied) => Some(0xC8),
        (Mnemonic::JMP, AddressingMode::Absolute) => Some(0x4C),
        (Mnemonic::JMP, AddressingMode::Indirect) => Some(0x6C),
        (Mnemonic::JSR, AddressingMode::Absolute) => Some(0x20),
        (Mnemonic::LDA, AddressingMode::Immediate) => Some(0xA9),
        (Mnemonic::LDA, AddressingMode::ZeroPage) => Some(0xA5),
        (Mnemonic::LDA, AddressingMode::ZeroPageX) => Some(0xB5),
        (Mnemonic::LDA, AddressingMode::Absolute) => Some(0xAD),
        (Mnemonic::LDA, AddressingMode::AbsoluteX) => Some(0xBD),
        (Mnemonic::LDA, AddressingMode::AbsoluteY) => Some(0xB9),
        (Mnemonic::LDA, AddressingMode::IndirectX) => Some(0xA1),
        (Mnemonic::LDA, AddressingMode::IndirectY) => Some(0xB1),
        (Mnemonic::LDX, AddressingMode::Immediate) => Some(0xA2),
        (Mnemonic::LDX, AddressingMode::ZeroPage) => Some(0xA6),
        (Mnemonic::LDX, AddressingMode::ZeroPageY) => Some(0xB6),
        (Mnemonic::LDX, AddressingMode::Absolute) => Some(0xAE),
        (Mnemonic::LDX, AddressingMode::AbsoluteY) => Some(0xBE),
        (Mnemonic::LDY, AddressingMode::Immediate) => Some(0xA0),
        (Mnemonic::LDY, AddressingMode::ZeroPage) => Some(0xA4),
        (Mnemonic::LDY, AddressingMode::ZeroPageX) => Some(0xB4),
        (Mnemonic::LDY, AddressingMode::Absolute) => Some(0xAC),
        (Mnemonic::LDY, AddressingMode::AbsoluteX) => Some(0xBC),
        (Mnemonic::LSR, AddressingMode::Accumulator) => Some(0x4A),
        (Mnemonic::LSR, AddressingMode::ZeroPage) => Some(0x46),
        (Mnemonic::LSR, AddressingMode::ZeroPageX) => Some(0x56),
        (Mnemonic::LSR, AddressingMode::Absolute) => Some(0x4E),
        (Mnemonic::LSR, AddressingMode::AbsoluteX) => Some(0x5E),
        (Mnemonic::NOP, AddressingMode::Implied) => Some(0xEA),
        (Mnemonic::ORA, AddressingMode::Immediate) => Some(0x09),
        (Mnemonic::ORA, AddressingMode::ZeroPage) => Some(0x05),
        (Mnemonic::ORA, AddressingMode::ZeroPageX) => Some(0x15),
        (Mnemonic::ORA, AddressingMode::Absolute) => Some(0x0D),
        (Mnemonic::ORA, AddressingMode::AbsoluteX) => Some(0x1D),
        (Mnemonic::ORA, AddressingMode::AbsoluteY) => Some(0x19),
        (Mnemonic::ORA, AddressingMode::IndirectX) => Some(0x01),
        (Mnemonic::ORA, AddressingMode::IndirectY) => Some(0x11),
        (Mnemonic::PHA, AddressingMode::Implied) => Some(0x48),
        (Mnemonic::PHP, AddressingMode::Implied) => Some(0x08),
        (Mnemonic::PLA, AddressingMode::Implied) => Some(0x68),
        (Mnemonic::PLP, AddressingMode::Implied) => Some(0x28),
        (Mnemonic::ROL, AddressingMode::Accumulator) => Some(0x2A),
        (Mnemonic::ROL, AddressingMode::ZeroPage) => Some(0x26),
        (Mnemonic::ROL, AddressingMode::ZeroPageX) => Some(0x36),
        (Mnemonic::ROL, AddressingMode::Absolute) => Some(0x2E),
        (Mnemonic::ROL, AddressingMode::AbsoluteX) => Some(0x3E),
        (Mnemonic::ROR, AddressingMode::Accumulator) => Some(0x6A),
        (Mnemonic::ROR, AddressingMode::ZeroPage) => Some(0x66),
        (Mnemonic::ROR, AddressingMode::ZeroPageX) => Some(0x76),
        (Mnemonic::ROR, AddressingMode::Absolute) => Some(0x6E),
        (Mnemonic::ROR, AddressingMode::AbsoluteX) => Some(0x7E),
        (Mnemonic::RTI, AddressingMode::Implied) => Some(0x40),
        (Mnemonic::RTS, AddressingMode::Implied) => Some(0x60),
        (Mnemonic::SBC, AddressingMode::Immediate) => Some(0xE9),
        (Mnemonic::SBC, AddressingMode::ZeroPage) => Some(0xE5),
        (Mnemonic::SBC, AddressingMode::ZeroPageX) => Some(0xF5),
        (Mnemonic::SBC, AddressingMode::Absolute) => Some(0xED),
        (Mnemonic::SBC, AddressingMode::AbsoluteX) => Some(0xFD),
        (Mnemonic::SBC, AddressingMode::AbsoluteY) => Some(0xF9),
        (Mnemonic::SBC, AddressingMode::IndirectX) => Some(0xE1),
        (Mnemonic::SBC, AddressingMode::IndirectY) => Some(0xF1),
        (Mnemonic::SEC, AddressingMode::Implied) => Some(0x38),
        (Mnemonic::SED, AddressingMode::Implied) => Some(0xF8),
        (Mnemonic::SEI, AddressingMode::Implied) => Some(0x78),
        (Mnemonic::STA, AddressingMode::ZeroPage) => Some(0x85),
        (Mnemonic::STA, AddressingMode::ZeroPageX) => Some(0x95),
        (Mnemonic::STA, AddressingMode::Absolute) => Some(0x8D),
        (Mnemonic::STA, AddressingMode::AbsoluteX) => Some(0x9D),
        (Mnemonic::STA, AddressingMode::AbsoluteY) => Some(0x99),
        (Mnemonic::STA, AddressingMode::IndirectX) => Some(0x81),
        (Mnemonic::STA, AddressingMode::IndirectY) => Some(0x91),
        (Mnemonic::STX, AddressingMode::ZeroPage) => Some(0x86),
        (Mnemonic::STX, AddressingMode::ZeroPageY) => Some(0x96),
        (Mnemonic::STX, AddressingMode::Absolute) => Some(0x8E),
        (Mnemonic::STY, AddressingMode::ZeroPage) => Some(0x84),
        (Mnemonic::STY, AddressingMode::ZeroPageX) => Some(0x94),
        (Mnemonic::STY, AddressingMode::Absolute) => Some(0x8C),
        (Mnemonic::TAX, AddressingMode::Implied) => Some(0xAA),
        (Mnemonic::TAY, AddressingMode::Implied) => Some(0xA8),
        (Mnemonic::TSX, AddressingMode::Implied) => Some(0xBA),
        (Mnemonic::TXA, AddressingMode::Implied) => Some(0x8A),
        (Mnemonic::TXS, AddressingMode::Implied) => Some(0x9A),
        (Mnemonic::TYA, AddressingMode::Implied) => Some(0x98),
        _ => None,
    }
}

/// The mnemonic and mode that an encoding byte stands for.
pub open spec fn opcode_pair(b: u8) -> Option<(Mnemonic, AddressingMode)> {
    match b {
        0x69 => Some((Mnemonic::ADC, AddressingMode::Immediate)),
        0x65 => Some((Mnemonic::ADC, AddressingMode::ZeroPage)),
        0x75 => Some((Mnemonic::ADC, AddressingMode::ZeroPageX)),
        0x6D => Some((Mnemonic::ADC, AddressingMode::Absolute)),
        0x7D => Some((Mnemonic::ADC, AddressingMode::AbsoluteX)),
        0x79 => Some((Mnemonic::ADC, AddressingMode::AbsoluteY)),
        0x61 => Some((Mnemonic::ADC, AddressingMode::IndirectX)),
        0x71 => Some((Mnemonic::ADC, AddressingMode::IndirectY)),
        0x29 => Some((Mnemonic::AND, AddressingMode::Immediate)),
        0x25 => Some((Mnemonic::AND, AddressingMode::ZeroPage)),
        0x35 => Some((Mnemonic::AND, AddressingMode::ZeroPageX)),
        0x2D => Some((Mnemonic::AND, AddressingMode::Absolute)),
        0x3D => Some((Mnemonic::AND, AddressingMode::AbsoluteX)),
        0x39 => Some((Mnemonic::AND, AddressingMode::AbsoluteY)),
        0x21 => Some((Mnemonic::AND, AddressingMode::IndirectX)),
        0x31 => Some((Mnemonic::AND, AddressingMode::IndirectY)),
        0x0A => Some((Mnemonic::ASL, AddressingMode::Accumulator)),
        0x06 => Some((Mnemonic::ASL, AddressingMode::ZeroPage)),
        0x16 => Some((Mnemonic::ASL, AddressingMode::ZeroPageX)),
        0x0E => Some((Mnemonic::ASL, AddressingMode::Absolute)),
        0x1E => Some((Mnemonic::ASL, AddressingMode::AbsoluteX)),
        0x90 => Some((Mnemonic::BCC, AddressingMode::Relative)),
        0xB0 => Some((Mnemonic::BCS, AddressingMode::Relative)),
        0xF0 => Some((Mnemonic::BEQ, AddressingMode::Relative)),
        0x24 => Some((Mnemonic::BIT, AddressingMode::ZeroPage)),
        0x2C => Some((Mnemonic::BIT, AddressingMode::Absolute)),
        0x30 => Some((Mnemonic::BMI, AddressingMode::Relative)),
        0xD0 => Some((Mnemonic::BNE, AddressingMode::Relative)),
        0x10 => Some((Mnemonic::BPL, AddressingMode::Relative)),
        0x00 => Some((Mnemonic::BRK, AddressingMode::Implied)),
        0x50 => Some((Mnemonic::BVC, AddressingMode::Relative)),
        0x70 => Some((Mnemonic::BVS, AddressingMode::Relative)),
        0x18 => Some((Mnemonic::CLC, AddressingMode::Implied)),
        0xD8 => Some((Mnemonic::CLD, AddressingMode::Implied)),
        0x58 => Some((Mnemonic::CLI, AddressingMode::Implied)),
        0xB8 => Some((Mnemonic::CLV, AddressingMode::Implied)),
        0xC9 => Some((Mnemonic::CMP, AddressingMode::Immediate)),
        0xC5 => Some((Mnemonic::CMP, AddressingMode::ZeroPage)),
        0xD5 => Some((Mnemonic::CMP, AddressingMode::ZeroPageX)),
        0xCD => Some((Mnemonic::CMP, AddressingMode::Absolute)),
        0xDD => Some((Mnemonic::CMP, AddressingMode::AbsoluteX)),
        0xD9 => Some((Mnemonic::CMP, AddressingMode::AbsoluteY)),
        0xC1 => Some((Mnemonic::CMP, AddressingMode::IndirectX)),
        0xD1 => Some((Mnemonic::CMP, AddressingMode::IndirectY)),
        0xE0 => Some((Mnemonic::CPX, AddressingMode::Immediate)),
        0xE4 => Some((Mnemonic::CPX, AddressingMode::ZeroPage)),
        0xEC => Some((Mnemonic::CPX, AddressingMode::Absolute)),
        0xC0 => Some((Mnemonic::CPY, AddressingMode::Immediate)),
        0xC4 => Some((Mnemonic::CPY, AddressingMode::ZeroPage)),
        0xCC => Some((Mnemonic::CPY, AddressingMode::Absolute)),
        0xC6 => Some((Mnemonic::DEC, AddressingMode::ZeroPage)),
        0xD6 => Some((Mnemonic::DEC, AddressingMode::ZeroPageX)),
        0xCE => Some((Mnemonic::DEC, AddressingMode::Absolute)),
        0xDE => Some((Mnemonic::DEC, AddressingMode::AbsoluteX)),
        0xCA => Some((Mnemonic::DEX, AddressingMode::Implied)),
        0x88 => Some((Mnemonic::DEY, AddressingMode::Implied)),
        0x49 => Some((Mnemonic::EOR, AddressingMode::Immediate)),
        0x45 => Some((Mnemonic::EOR, AddressingMode::ZeroPage)),
        0x55 => Some((Mnemonic::EOR, AddressingMode::ZeroPageX)),
        0x4D => Some((Mnemonic::EOR, AddressingMode::Absolute)),
        0x5D => Some((Mnemonic::EOR, AddressingMode::AbsoluteX)),
        0x59 => Some((Mnemonic::EOR, AddressingMode::AbsoluteY)),
        0x41 => Some((Mnemonic::EOR, AddressingMode::IndirectX)),
        0x51 => Some((Mnemonic::EOR, AddressingMode::IndirectY)),
        0xE6 => Some((Mnemonic::INC, AddressingMode::ZeroPage)),
        0xF6 => Some((Mnemonic::INC, AddressingMode::ZeroPageX)),
        0xEE => Some((Mnemonic::INC, AddressingMode::Absolute)),
        0xFE => Some((Mnemonic::INC, AddressingMode::AbsoluteX)),
        0xE8 => Some((Mnemonic::INX, AddressingMode::Implied)),
        0xC8 => Some((Mnemonic::INY, AddressingMode::Implied)),
        0x4C => Some((Mnemonic::JMP, AddressingMode::Absolute)),
        0x6C => Some((Mnemonic::JMP, AddressingMode::Indirect)),
        0x20 => Some((Mnemonic::JSR, AddressingMode::Absolute)),
        0xA9 => Some((Mnemonic::LDA, AddressingMode::Immediate)),
        0xA5 => Some((Mnemonic::LDA, AddressingMode::ZeroPage)),
        0xB5 => Some((Mnemonic::LDA, AddressingMode::ZeroPageX)),
        0xAD => Some((Mnemonic::LDA, AddressingMode::Absolute)),
        0xBD => Some((Mnemonic::LDA, AddressingMode::AbsoluteX)),
        0xB9 => Some((Mnemonic::LDA, AddressingMode::AbsoluteY)),
        0xA1 => Some((Mnemonic::LDA, AddressingMode::IndirectX)),
        0xB1 => Some((Mnemonic::LDA, AddressingMode::IndirectY)),
        0xA2 => Some((Mnemonic::LDX, AddressingMode::Immediate)),
        0xA6 => Some((Mnemonic::LDX, AddressingMode::ZeroPage)),
        0xB6 => Some((Mnemonic::LDX, AddressingMode::ZeroPageY)),
        0xAE => Some((Mnemonic::LDX, AddressingMode::Absolute)),
        0xBE => Some((Mnemonic::LDX, AddressingMode::AbsoluteY)),
        0xA0 => Some((Mnemonic::LDY, AddressingMode::Immediate)),
        0xA4 => Some((Mnemonic::LDY, AddressingMode::ZeroPage)),
        0xB4 => Some((Mnemonic::LDY, AddressingMode::ZeroPageX)),
        0xAC => Some((Mnemonic::LDY, AddressingMode::Absolute)),
        0xBC => Some((Mnemonic::LDY, AddressingMode::AbsoluteX)),
        0x4A => Some((Mnemonic::LSR, AddressingMode::Accumulator)),
        0x46 => Some((Mnemonic::LSR, AddressingMode::ZeroPage)),
        0x56 => Some((Mnemonic::LSR, AddressingMode::ZeroPageX)),
        0x4E => Some((Mnemonic::LSR, AddressingMode::Absolute)),
        0x5E => Some((Mnemonic::LSR, AddressingMode::AbsoluteX)),
        0xEA => Some((Mnemonic::NOP, AddressingMode::Implied)),
        0x09 => Some((Mnemonic::ORA, AddressingMode::Immediate)),
        0x05 => Some((Mnemonic::ORA, AddressingMode::ZeroPage)),
        0x15 => Some((Mnemonic::ORA, AddressingMode::ZeroPageX)),
        0x0D => Some((Mnemonic::ORA, AddressingMode::Absolute)),
        0x1D => Some((Mnemonic::ORA, AddressingMode::AbsoluteX)),
        0x19 => Some((Mnemonic::ORA, AddressingMode::AbsoluteY)),
        0x01 => Some((Mnemonic::ORA, AddressingMode::IndirectX)),
        0x11 => Some((Mnemonic::ORA, AddressingMode::IndirectY)),
        0x48 => Some((Mnemonic::PHA, AddressingMode::Implied)),
        0x08 => Some((Mnemonic::PHP, AddressingMode::Implied)),
        0x68 => Some((Mnemonic::PLA, AddressingMode::Implied)),
        0x28 => Some((Mnemonic::PLP, AddressingMode::Implied)),
        0x2A => Some((Mnemonic::ROL, AddressingMode::Accumulator)),
        0x26 => Some((Mnemonic::ROL, AddressingMode::ZeroPage)),
        0x36 => Some((Mnemonic::ROL, AddressingMode::ZeroPageX)),
        0x2E => Some((Mnemonic::ROL, AddressingMode::Absolute)),
        0x3E => Some((Mnemonic::ROL, AddressingMode::AbsoluteX)),
        0x6A => Some((Mnemonic::ROR, AddressingMode::Accumulator)),
        0x66 => Some((Mnemonic::ROR, AddressingMode::ZeroPage)),
        0x76 => Some((Mnemonic::ROR, AddressingMode::ZeroPageX)),
        0x6E => Some((Mnemonic::ROR, AddressingMode::Absolute)),
        0x7E => Some((Mnemonic::ROR, AddressingMode::AbsoluteX)),
        0x40 => Some((Mnemonic::RTI, AddressingMode::Implied)),
        0x60 => Some((Mnemonic::RTS, AddressingMode::Implied)),
        0xE9 => Some((Mnemonic::SBC, AddressingMode::Immediate)),
        0xE5 => Some((Mnemonic::SBC, AddressingMode::ZeroPage)),
        0xF5 => Some((Mnemonic::SBC, AddressingMode::ZeroPageX)),
        0xED => Some((Mnemonic::SBC, AddressingMode::Absolute)),
        0xFD => Some((Mnemonic::SBC, AddressingMode::AbsoluteX)),
        0xF9 => Some((Mnemonic::SBC, AddressingMode::AbsoluteY)),
        0xE1 => Some((Mnemonic::SBC, AddressingMode::IndirectX)),
        0xF1 => Some((Mnemonic::SBC, AddressingMode::IndirectY)),
        0x38 => Some((Mnemonic::SEC, AddressingMode::Implied)),
        0xF8 => Some((Mnemonic::SED, AddressingMode::Implied)),
        0x78 => Some((Mnemonic::SEI, AddressingMode::Implied)),
        0x85 => Some((Mnemonic::STA, AddressingMode::ZeroPage)),
        0x95 => Some((Mnemonic::STA, AddressingMode::ZeroPageX)),
        0x8D => Some((Mnemonic::STA, AddressingMode::Absolute)),
        0x9D => Some((Mnemonic::STA, AddressingMode::AbsoluteX)),
        0x99 => Some((Mnemonic::STA, AddressingMode::AbsoluteY)),
        0x81 => Some((Mnemonic::STA, AddressingMode::IndirectX)),
        0x91 => Some((Mnemonic::STA, AddressingMode::IndirectY)),
        0x86 => Some((Mnemonic::STX, AddressingMode::ZeroPage)),
        0x96 => Some((Mnemonic::STX, AddressingMode::ZeroPageY)),
        0x8E => Some((Mnemonic::STX, AddressingMode::Absolute)),
        0x84 => Some((Mnemonic::STY, AddressingMode::ZeroPage)),
        0x94 => Some((Mnemonic::STY, AddressingMode::ZeroPageX)),
        0x8C => Some((Mnemonic::STY, AddressingMode::Absolute)),
        0xAA => Some((Mnemonic::TAX, AddressingMode::Implied)),
        0xA8 => Some((Mnemonic::TAY, AddressingMode::Implied)),
        0xBA => Some((Mnemonic::TSX, AddressingMode::Implied)),
        0x8A => Some((Mnemonic::TXA, AddressingMode::Implied)),
        0x9A => Some((Mnemonic::TXS, AddressingMode::Implied)),
        0x98 => Some((Mnemonic::TYA, AddressingMode::Implied)),
        _ => None,
    }
}

/// No two legal pairs share an encoding byte.
pub proof fn lemma_opcode_pair(m: Mnemonic, mode: AddressingMode)
    ensures
        opcode_spec(m, mode) matches Some(b) ==> opcode_pair(b) == Some((m, mode)),
{
}

/// Looks up the encoding byte of `mnemonic` in `mode`.
pub fn opcode_of(mnemonic: Mnemonic, mode: AddressingMode) -> (r: Option<u8>)
    ensures
        r == opcode_spec(mnemonic, mode),
{
    match (mnemonic, mode) {
        (Mnemonic::ADC, AddressingMode::Immediate) => Some(0x69),
        (Mnemonic::ADC, AddressingMode::ZeroPage) => Some(0x65),
        (Mnemonic::ADC, AddressingMode::ZeroPageX) => Some(0x75),
        (Mnemonic::ADC, AddressingMode::Absolute) => Some(0x6D),
        (Mnemonic::ADC, AddressingMode::AbsoluteX) => Some(0x7D),
        (Mnemonic::ADC, AddressingMode::AbsoluteY) => Some(0x79),
        (Mnemonic::ADC, AddressingMode::IndirectX) => Some(0x61),
        (Mnemonic::ADC, AddressingMode::IndirectY) => Some(0x71),
        (Mnemonic::AND, AddressingMode::Immediate) => Some(0x29),
        (Mnemonic::AND, AddressingMode::ZeroPage) => Some(0x25),
        (Mnemonic::AND, AddressingMode::ZeroPageX) => Some(0x35),
        (Mnemonic::AND, AddressingMode::Absolute) => Some(0x2D),
        (Mnemonic::AND, AddressingMode::AbsoluteX) => Some(0x3D),
        (Mnemonic::AND, AddressingMode::AbsoluteY) => Some(0x39),
        (Mnemonic::AND, AddressingMode::IndirectX) => Some(0x21),
        (Mnemonic::AND, AddressingMode::IndirectY) => Some(0x31),
        (Mnemonic::ASL, AddressingMode::Accumulator) => Some(0x0A),
        (Mnemonic::ASL, AddressingMode::ZeroPage) => Some(0x06),
        (Mnemonic::ASL, AddressingMode::ZeroPageX) => Some(0x16),
        (Mnemonic::ASL, AddressingMode::Absolute) => Some(0x0E),
        (Mnemonic::ASL, AddressingMode::AbsoluteX) => Some(0x1E),
        (Mnemonic::BCC, AddressingMode::Relative) => Some(0x90),
        (Mnemonic::BCS, AddressingMode::Relative) => Some(0xB0),
        (Mnemonic::BEQ, AddressingMode::Relative) => Some(0xF0),
        (Mnemonic::BIT, AddressingMode::ZeroPage) => Some(0x24),
        (Mnemonic::BIT, AddressingMode::Absolute) => Some(0x2C),
        (Mnemonic::BMI, AddressingMode::Relative) => Some(0x30),
        (Mnemonic::BNE, AddressingMode::Relative) => Some(0xD0),
        (Mnemonic::BPL, AddressingMode::Relative) => Some(0x10),
        (Mnemonic::BRK, AddressingMode::Implied) => Some(0x00),
        (Mnemonic::BVC, AddressingMode::Relative) => Some(0x50),
        (Mnemonic::BVS, AddressingMode::Relative) => Some(0x70),
        (Mnemonic::CLC, AddressingMode::Implied) => Some(0x18),
        (Mnemonic::CLD, AddressingMode::Implied) => Some(0xD8),
        (Mnemonic::CLI, AddressingMode::Implied) => Some(0x58),
        (Mnemonic::CLV, AddressingMode::Implied) => Some(0xB8),
        (Mnemonic::CMP, AddressingMode::Immediate) => Some(0xC9),
        (Mnemonic::CMP, AddressingMode::ZeroPage) => Some(0xC5),
        (Mnemonic::CMP, AddressingMode::ZeroPageX) => Some(0xD5),
        (Mnemonic::CMP, AddressingMode::Absolute) => Some(0xCD),
        (Mnemonic::CMP, AddressingMode::AbsoluteX) => Some(0xDD),
        (Mnemonic::CMP, AddressingMode::AbsoluteY) => Some(0xD9),
        (Mnemonic::CMP, AddressingMode::IndirectX) => Some(0xC1),
        (Mnemonic::CMP, AddressingMode::IndirectY) => Some(0xD1),
        (Mnemonic::CPX, AddressingMode::Immediate) => Some(0xE0),
        (Mnemonic::CPX, AddressingMode::ZeroPage) => Some(0xE4),
        (Mnemonic::CPX, AddressingMode::Absolute) => Some(0xEC),
        (Mnemonic::CPY, AddressingMode::Immediate) => Some(0xC0),
        (Mnemonic::CPY, AddressingMode::ZeroPage) => Some(0xC4),
        (Mnemonic::CPY, AddressingMode::Absolute) => Some(0xCC),
        (Mnemonic::DEC, AddressingMode::ZeroPage) => Some(0xC6),
        (Mnemonic::DEC, AddressingMode::ZeroPageX) => Some(0xD6),
        (Mnemonic::DEC, AddressingMode::Absolute) => Some(0xCE),
        (Mnemonic::DEC, AddressingMode::AbsoluteX) => Some(0xDE),
        (Mnemonic::DEX, AddressingMode::Implied) => Some(0xCA),
        (Mnemonic::DEY, AddressingMode::Implied) => Some(0x88),
        (Mnemonic::EOR, AddressingMode::Immediate) => Some(0x49),
        (Mnemonic::EOR, AddressingMode::ZeroPage) => Some(0x45),
        (Mnemonic::EOR, AddressingMode::ZeroPageX) => Some(0x55),
        (Mnemonic::EOR, AddressingMode::Absolute) => Some(0x4D),
        (Mnemonic::EOR, AddressingMode::AbsoluteX) => Some(0x5D),
        (Mnemonic::EOR, AddressingMode::AbsoluteY) => Some(0x59),
        (Mnemonic::EOR, AddressingMode::IndirectX) => Some(0x41),
        (Mnemonic::EOR, AddressingMode::IndirectY) => Some(0x51),
        (Mnemonic::INC, AddressingMode::ZeroPage) => Some(0xE6),
        (Mnemonic::INC, AddressingMode::ZeroPageX) => Some(0xF6),
        (Mnemonic::INC, AddressingMode::Absolute) => Some(0xEE),
        (Mnemonic::INC, AddressingMode::AbsoluteX) => Some(0xFE),
        (Mnemonic::INX, AddressingMode::Implied) => Some(0xE8),
        (Mnemonic::INY, AddressingMode::Implied) => Some(0xC8),
        (Mnemonic::JMP, AddressingMode::Absolute) => Some(0x4C),
        (Mnemonic::JMP, AddressingMode::Indirect) => Some(0x6C),
        (Mnemonic::JSR, AddressingMode::Absolute) => Some(0x20),
        (Mnemonic::LDA, AddressingMode::Immediate) => Some(0xA9),
        (Mnemonic::LDA, AddressingMode::ZeroPage) => Some(0xA5),
        (Mnemonic::LDA, AddressingMode::ZeroPageX) => Some(0xB5),
        (Mnemonic::LDA, AddressingMode::Absolute) => Some(0xAD),
        (Mnemonic::LDA, AddressingMode::AbsoluteX) => Some(0xBD),
        (Mnemonic::LDA, AddressingMode::AbsoluteY) => Some(0xB9),
        (Mnemonic::LDA, AddressingMode::IndirectX) => Some(0xA1),
        (Mnemonic::LDA, AddressingMode::IndirectY) => Some(0xB1),
        (Mnemonic::LDX, AddressingMode::Immediate) => Some(0xA2),
        (Mnemonic::LDX, AddressingMode::ZeroPage) => Some(0xA6),
        (Mnemonic::LDX, AddressingMode::ZeroPageY) => Some(0xB6),
        (Mnemonic::LDX, AddressingMode::Absolute) => Some(0xAE),
        (Mnemonic::LDX, AddressingMode::AbsoluteY) => Some(0xBE),
        (Mnemonic::LDY, AddressingMode::Immediate) => Some(0xA0),
        (Mnemonic::LDY, AddressingMode::ZeroPage) => Some(0xA4),
        (Mnemonic::LDY, AddressingMode::ZeroPageX) => Some(0xB4),
        (Mnemonic::LDY, AddressingMode::Absolute) => Some(0xAC),
        (Mnemonic::LDY, AddressingMode::AbsoluteX) => Some(0xBC),
        (Mnemonic::LSR, AddressingMode::Accumulator) => Some(0x4A),
        (Mnemonic::LSR, AddressingMode::ZeroPage) => Some(0x46),
        (Mnemonic::LSR, AddressingMode::ZeroPageX) => Some(0x56),
        (Mnemonic::LSR, AddressingMode::Absolute) => Some(0x4E),
        (Mnemonic::LSR, AddressingMode::AbsoluteX) => Some(0x5E),
        (Mnemonic::NOP, AddressingMode::Implied) => Some(0xEA),
        (Mnemonic::ORA, AddressingMode::Immediate) => Some(0x09),
        (Mnemonic::ORA, AddressingMode::ZeroPage) => Some(0x05),
        (Mnemonic::ORA, AddressingMode::ZeroPageX) => Some(0x15),
        (Mnemonic::ORA, AddressingMode::Absolute) => Some(0x0D),
        (Mnemonic::ORA, AddressingMode::AbsoluteX) => Some(0x1D),
        (Mnemonic::ORA, AddressingMode::AbsoluteY) => Some(0x19),
        (Mnemonic::ORA, AddressingMode::IndirectX) => Some(0x01),
        (Mnemonic::ORA, AddressingMode::IndirectY) => Some(0x11),
        (Mnemonic::PHA, AddressingMode::Implied) => Some(0x48),
        (Mnemonic::PHP, AddressingMode::Implied) => Some(0x08),
        (Mnemonic::PLA, AddressingMode::Implied) => Some(0x68),
        (Mnemonic::PLP, AddressingMode::Implied) => Some(0x28),
        (Mnemonic::ROL, AddressingMode::Accumulator) => Some(0x2A),
        (Mnemonic::ROL, AddressingMode::ZeroPage) => Some(0x26),
        (Mnemonic::ROL, AddressingMode::ZeroPageX) => Some(0x36),
        (Mnemonic::ROL, AddressingMode::Absolute) => Some(0x2E),
        (Mnemonic::ROL, AddressingMode::AbsoluteX) => Some(0x3E),
        (Mnemonic::ROR, AddressingMode::Accumulator) => Some(0x6A),
        (Mnemonic::ROR, AddressingMode::ZeroPage) => Some(0x66),
        (Mnemonic::ROR, AddressingMode::ZeroPageX) => Some(0x76),
        (Mnemonic::ROR, AddressingMode::Absolute) => Some(0x6E),
        (Mnemonic::ROR, AddressingMode::AbsoluteX) => Some(0x7E),
        (Mnemonic::RTI, AddressingMode::Implied) => Some(0x40),
        (Mnemonic::RTS, AddressingMode::Implied) => Some(0x60),
        (Mnemonic::SBC, AddressingMode::Immediate) => Some(0xE9),
        (Mnemonic::SBC, AddressingMode::ZeroPage) => Some(0xE5),
        (Mnemonic::SBC, AddressingMode::ZeroPageX) => Some(0xF5),
        (Mnemonic::SBC, AddressingMode::Absolute) => Some(0xED),
        (Mnemonic::SBC, AddressingMode::AbsoluteX) => Some(0xFD),
        (Mnemonic::SBC, AddressingMode::AbsoluteY) => Some(0xF9),
        (Mnemonic::SBC, AddressingMode::IndirectX) => Some(0xE1),
        (Mnemonic::SBC, AddressingMode::IndirectY) => Some(0xF1),
        (Mnemonic::SEC, AddressingMode::Implied) => Some(0x38),
        (Mnemonic::SED, AddressingMode::Implied) => Some(0xF8),
        (Mnemonic::SEI, AddressingMode::Implied) => Some(0x78),
        (Mnemonic::STA, AddressingMode::ZeroPage) => Some(0x85),
        (Mnemonic::STA, AddressingMode::ZeroPageX) => Some(0x95),
        (Mnemonic::STA, AddressingMode::Absolute) => Some(0x8D),
        (Mnemonic::STA, AddressingMode::AbsoluteX) => Some(0x9D),
        (Mnemonic::STA, AddressingMode::AbsoluteY) => Some(0x99),
        (Mnemonic::STA, AddressingMode::IndirectX) => Some(0x81),
        (Mnemonic::STA, AddressingMode::IndirectY) => Some(0x91),
        (Mnemonic::STX, AddressingMode::ZeroPage) => Some(0x86),
        (Mnemonic::STX, AddressingMode::ZeroPageY) => Some(0x96),
        (Mnemonic::STX, AddressingMode::Absolute) => Some(0x8E),
        (Mnemonic::STY, AddressingMode::ZeroPage) => Some(0x84),
        (Mnemonic::STY, AddressingMode::ZeroPageX) => Some(0x94),
        (Mnemonic::STY, AddressingMode::Absolute) => Some(0x8C),
        (Mnemonic::TAX, AddressingMode::Implied) => Some(0xAA),
        (Mnemonic::TAY, AddressingMode::Implied) => Some(0xA8),
        (Mnemonic::TSX, AddressingMode::Implied) => Some(0xBA),
        (Mnemonic::TXA, AddressingMode::Implied) => Some(0x8A),
        (Mnemonic::TXS, AddressingMode::Implied) => Some(0x9A),
        (Mnemonic::TYA, AddressingMode::Implied) => Some(0x98),
        _ => None,
    }
}

/// The position of a mnemonic in the opcode table's order.
pub open spec fn mnemonic_number(m: Mnemonic) -> int {
    match m {
        Mnemonic::ADC => 0,
        Mnemonic::AND => 1,
        Mnemonic::ASL => 2,
        Mnemonic::BCC => 3,
        Mnemonic::BCS => 4,
        Mnemonic::BEQ => 5,
        Mnemonic::BIT => 6,
        Mnemonic::BMI => 7,
        Mnemonic::BNE => 8,
        Mnemonic::BPL => 9,
        Mnemonic::BRK => 10,
        Mnemonic::BVC => 11,
        Mnemonic::BVS => 12,
        Mnemonic::CLC => 13,
        Mnemonic::CLD => 14,
        Mnemonic::CLI => 15,
        Mnemonic::CLV => 16,
        Mnemonic::CMP => 17,
        Mnemonic::CPX => 18,
        Mnemonic::CPY => 19,
        Mnemonic::DEC => 20,
        Mnemonic::DEX => 21,
        Mnemonic::DEY => 22,
        Mnemonic::EOR => 23,
        Mnemonic::INC => 24,
        Mnemonic::INX => 25,
        Mnemonic::INY => 26,
        Mnemonic::JMP => 27,
        Mnemonic::JSR => 28,
        Mnemonic::LDA => 29,
        Mnemonic::LDX => 30,
        Mnemonic::LDY => 31,
        Mnemonic::LSR => 32,
        Mnemonic::NOP => 33,
        Mnemonic::ORA => 34,
        Mnemonic::PHA => 35,
        Mnemonic::PHP => 36,
        Mnemonic::PLA => 37,
        Mnemonic::PLP => 38,
        Mnemonic::ROL => 39,
        Mnemonic::ROR => 40,
        Mnemonic::RTI => 41,
        Mnemonic::RTS => 42,
        Mnemonic::SBC => 43,
        Mnemonic::SEC => 44,
        Mnemonic::SED => 45,
        Mnemonic::SEI => 46,
        Mnemonic::STA => 47,
        Mnemonic::STX => 48,
        Mnemonic::STY => 49,
        Mnemonic::TAX => 50,
        Mnemonic::TAY => 51,
        Mnemonic::TSX => 52,
        Mnemonic::TXA => 53,
        Mnemonic::TXS => 54,
        Mnemonic::TYA => 55,
    }
}

/// The position of an addressing mode in the list of modes.
pub open spec fn mode_number(m: AddressingMode) -> int {
    match m {
        AddressingMode::Immediate => 0,
        AddressingMode::ZeroPage => 1,
        AddressingMode::ZeroPageX => 2,
        AddressingMode::ZeroPageY => 3,
        AddressingMode::Absolute => 4,
        AddressingMode::AbsoluteX => 5,
        AddressingMode::AbsoluteY => 6,
        AddressingMode::Relative => 7,
        AddressingMode::Indirect => 8,
        AddressingMode::IndirectX => 9,
        AddressingMode::IndirectY => 10,
        AddressingMode::Implied => 11,
        AddressingMode::Accumulator => 12,
    }
}

/// Every mnemonic, in the order of the opcode table.
pub fn all_mnemonics() -> (r: Vec<Mnemonic>)
    ensures
        r@.len() == 56,
        forall|m: Mnemonic| 0 <= #[trigger] mnemonic_number(m) < 56 && r@[mnemonic_number(m)] == m,
        forall|i: int| 0 <= i < 56 ==> mnemonic_number(#[trigger] r@[i]) == i,
{
    vec![
        Mnemonic::ADC, Mnemonic::AND, Mnemonic::ASL, Mnemonic::BCC, Mnemonic::BCS, Mnemonic::BEQ, Mnemonic::BIT, Mnemonic::BMI, Mnemonic::BNE, Mnemonic::BPL, Mnemonic::BRK, Mnemonic::BVC, Mnemonic::BVS, Mnemonic::CLC, Mnemonic::CLD, Mnemonic::CLI, Mnemonic::CLV, Mnemonic::CMP, Mnemonic::CPX, Mnemonic::CPY, Mnemonic::DEC, Mnemonic::DEX, Mnemonic::DEY, Mnemonic::EOR, Mnemonic::INC, Mnemonic::INX, Mnemonic::INY, Mnemonic::JMP, Mnemonic::JSR, Mnemonic::LDA, Mnemonic::LDX, Mnemonic::LDY, Mnemonic::LSR, Mnemonic::NOP, Mnemonic::ORA, Mnemonic::PHA, Mnemonic::PHP, Mnemonic::PLA, Mnemonic::PLP, Mnemonic::ROL, Mnemonic::ROR, Mnemonic::RTI, Mnemonic::RTS, Mnemonic::SBC, Mnemonic::SEC, Mnemonic::SED, Mnemonic::SEI, Mnemonic::STA, Mnemonic::STX, Mnemonic::STY, Mnemonic::TAX, Mnemonic::TAY, Mnemonic::TSX, Mnemonic::TXA, Mnemonic::TXS, Mnemonic::TYA,
    ]
}

/// Every addressing mode.
pub fn all_modes() -> (r: Vec<AddressingMode>)
    ensures
        r@.len() == 13,
        forall|m: AddressingMode| 0 <= #[trigger] mode_number(m) < 13 && r@[mode_number(m)] == m,
        forall|i: int| 0 <= i < 13 ==> mode_number(#[trigger] r@[i]) == i,
{
    vec![
        AddressingMode::Immediate, AddressingMode::ZeroPage, AddressingMode::ZeroPageX, AddressingMode::ZeroPageY, AddressingMode::Absolute, AddressingMode::AbsoluteX, AddressingMode::AbsoluteY, AddressingMode::Relative, AddressingMode::Indirect, AddressingMode::IndirectX, AddressingMode::IndirectY, AddressingMode::Implied, AddressingMode::Accumulator,
    ]
}

/// One entry of the opcode table.
#[derive(Debug, Clone, Copy, PartialEq, Eq, Structural)]
pub struct Opcode {
    pub mnemonic: Mnemonic,
    pub addressing_mode: AddressingMode,
    pub opcode: u8,
}

impl Opcode {
    pub fn new(mnemonic: Mnemonic, addressing_mode: AddressingMode, opcode: u8) -> (r: Self)
        ensures
            r == (Opcode { mnemonic, addressing_mode, opcode }),
    {
        Self { mnemonic, addressing_mode, opcode }
    }

    /// The entry agrees with the instruction set.
    pub open spec fn is_valid(self) -> bool {
        opcode_spec(self.mnemonic, self.addressing_mode) == Some(self.opcode)
    }
}

/// The place of an entry in the table's order: by mnemonic, then by mode.
pub open spec fn entry_key(op: Opcode) -> int {
    mnemonic_number(op.mnemonic) * 13 + mode_number(op.addressing_mode)
}

/// `table` holds an entry for `m` in `mode`.
pub open spec fn has_entry(table: Seq<Opcode>, m: Mnemonic, mode: AddressingMode) -> bool {
    exists|i: int| 0 <= i < table.len() && table[i].mnemonic == m && table[i].addressing_mode == mode
}

/// The opcode table as a list: every legal pair of mnemonic and mode with its encoding,
/// grouped by mnemonic.
pub fn initialize_opcode_table() -> (r: Vec<Opcode>)
    ensures
        forall|i: int| 0 <= i < r@.len() ==> (#[trigger] r@[i]).is_valid(),
        forall|m: Mnemonic, mode: AddressingMode|
            #[trigger] opcode_spec(m, mode) is Some ==> has_entry(r@, m, mode),
        forall|a: int, b: int|
            0 <= a < b < r@.len() ==> (#[trigger] r@[a]).mnemonic != (#[trigger] r@[b]).mnemonic
                || r@[a].addressing_mode != r@[b].addressing_mode,
        forall|a: int, b: int|
            0 <= a < b < r@.len() ==> (#[trigger] r@[a]).opcode != (#[trigger] r@[b]).opcode,
{
    let mnemonics = all_mnemonics();
    let modes = all_modes();
    let mut table: Vec<Opcode> = Vec::new();
    let mut i: usize = 0;
    while i < mnemonics.len()
        invariant
            mnemonics@.len() == 56,
            modes@.len() == 13,
            forall|m: Mnemonic| 0 <= #[trigger] mnemonic_number(m) < 56 && mnemonics@[mnemonic_number(m)] == m,
            forall|m: AddressingMode| 0 <= #[trigger] mode_number(m) < 13 && modes@[mode_number(m)] == m,
            forall|k: int| 0 <= k < 56 ==> mnemonic_number(#[trigger] mnemonics@[k]) == k,
            forall|k: int| 0 <= k < 13 ==> mode_number(#[trigger] modes@[k]) == k,
            i <= 56,
            forall|k: int| 0 <= k < table@.len() ==> (#[trigger] table@[k]).is_valid(),
            forall|k: int| 0 <= k < table@.len() ==> entry_key(#[trigger] table@[k]) < i * 13,
            forall|a: int, b: int|
                0 <= a < b < table@.len() ==> entry_key(#[trigger] table@[a]) < entry_key(
                    #[trigger] table@[b],
                ),
            forall|m: Mnemonic, mode: AddressingMode|
                mnemonic_number(m) < i && #[trigger] opcode_spec(m, mode) is Some ==> has_entry(
                    table@,
                    m,
                    mode,
                ),
        decreases mnemonics.len() - i,
    {
        let mut j: usize = 0;
        while j < modes.len()
            invariant
                mnemonics@.len() == 56,
                modes@.len() == 13,
                forall|m: Mnemonic| 0 <= #[trigger] mnemonic_number(m) < 56 && mnemonics@[mnemonic_number(m)] == m,
                forall|m: AddressingMode| 0 <= #[trigger] mode_number(m) < 13 && modes@[mode_number(m)] == m,
                forall|k: int| 0 <= k < 56 ==> mnemonic_number(#[trigger] mnemonics@[k]) == k,
                forall|k: int| 0 <= k < 13 ==> mode_number(#[trigger] modes@[k]) == k,
                i < 56,
                j <= 13,
                forall|k: int| 0 <= k < table@.len() ==> (#[trigger] table@[k]).is_valid(),
                forall|k: int| 0 <= k < table@.len() ==> entry_key(#[trigger] table@[k]) < i * 13 + j,
                forall|a: int, b: int|
                    0 <= a < b < table@.len() ==> entry_key(#[trigger] table@[a]) < entry_key(
                        #[trigger] table@[b],
                    ),
                forall|m: Mnemonic, mode: AddressingMode|
                    (mnemonic_number(m) < i || (mnemonic_number(m) == i && mode_number(mode) < j))
                        && #[trigger] opcode_spec(m, mode) is Some ==> has_entry(table@, m, mode),
            decreases modes.len() - j,
        {
            let ghost before = table@;
            if let Some(byte) = opcode_of(mnemonics[i], modes[j]) {
                table.push(Opcode::new(mnemonics[i], modes[j], byte));
            }
            proof {
                assert forall|m: Mnemonic, mode: AddressingMode|
                    (mnemonic_number(m) < i || (mnemonic_number(m) == i && mode_number(mode) < j
                        + 1)) && #[trigger] opcode_spec(m, mode) is Some implies has_entry(
                    table@,
                    m,
                    mode,
                ) by {
                    if mnemonic_number(m) == i && mode_number(mode) == j {
                        assert(m == mnemonics@[i as int]);
                        assert(mode == modes@[j as int]);
                        assert(table@[table@.len() - 1].mnemonic == m);
                    } else {
                        let t = choose|t: int|
                            0 <= t < before.len() && before[t].mnemonic == m
                                && before[t].addressing_mode == mode;
                        assert(table@[t] == before[t]);
                    }
                }
            }
            proof {
                assert(mnemonic_number(mnemonics@[i as int]) == i);
                assert(mode_number(modes@[j as int]) == j);
                assert forall|k: int| 0 <= k < table@.len() implies entry_key(#[trigger] table@[k])
                    < i * 13 + j + 1 by {
                    if k < before.len() {
                        assert(table@[k] == before[k]);
                    }
                }
                assert forall|a: int, b: int|
                    0 <= a < b < table@.len() implies entry_key(#[trigger] table@[a]) < entry_key(
                        #[trigger] table@[b],
                    ) by {
                    assert(table@[a] == before[a]);
                    if b < before.len() {
                        assert(table@[b] == before[b]);
                    }
                }
            }
            j += 1;
        }
        i += 1;
    }
    proof {
        assert forall|a: int, b: int|
            0 <= a < b < table@.len() implies (#[trigger] table@[a]).opcode != (
            #[trigger] table@[b]).opcode by {
            lemma_opcode_pair(table@[a].mnemonic, table@[a].addressing_mode);
            lemma_opcode_pair(table@[b].mnemonic, table@[b].addressing_mode);
        }
    }
    table
}

/// The encodings of the instruction set, looked up by mnemonic and mode.
pub struct OpcodeTable {
    pub opcodes: Vec<Opcode>,
}

impl OpcodeTable {
    pub fn new() -> (r: Self)
        ensures
            r.wf(),
    {
        OpcodeTable { opcodes: initialize_opcode_table() }
    }

    /// Every entry agrees with the instruction set, and every legal pair has an entry.
    pub open spec fn wf(&self) -> bool {
        &&& forall|i: int| 0 <= i < self.opcodes@.len() ==> (#[trigger] self.opcodes@[i]).is_valid()
        &&& forall|m: Mnemonic, mode: AddressingMode|
            #[trigger] opcode_spec(m, mode) is Some ==> has_entry(self.opcodes@, m, mode)
    }

    /// The entry for `mnemonic` in `mode`; fails where the CPU has no such instruction.
    pub fn find(&self, mnemonic: &Mnemonic, mode: &AddressingMode) -> (r: Result<Opcode, AssemblyError>)
        requires
            self.wf(),
        ensures
            opcode_spec(*mnemonic, *mode) is Some <==> r is Ok,
            r matches Ok(op) ==> op == (Opcode {
                mnemonic: *mnemonic,
                addressing_mode: *mode,
                opcode: opcode_spec(*mnemonic, *mode)->Some_0,
            }),
            r matches Err(e) ==> e is Syntax,
    {
        let mut i: usize = 0;
        while i < self.opcodes.len()
            invariant
                self.wf(),
                i <= self.opcodes@.len(),
                forall|k: int|
                    0 <= k < i ==> !((#[trigger] self.opcodes@[k]).mnemonic == *mnemonic
                        && self.opcodes@[k].addressing_mode == *mode),
            decreases self.opcodes.len() - i,
        {
            let op = self.opcodes[i];
            if op.mnemonic == *mnemonic && op.addressing_mode == *mode {
                return Ok(op);
            }
            i += 1;
        }
        Err(AssemblyError::opcode_not_found(mnemonic, mode))
    }
}

/// The operand of a decoded instruction, as far as it is known.
#[derive(Debug, Clone, PartialEq)]
pub enum OperandValue {
    NoOperand,
    Byte(u8),
    Word(u16),
    UnresolvedLabel(String),
    UnresolvedRelative(u16),
}

/// What the decoder makes of a statement.
#[derive(Debug, Clone, PartialEq)]
pub struct AssemblyInstruction {
    pub mnemonic: Mnemonic,
    pub addressing_mode: AddressingMode,
    pub value: OperandValue,
}

impl AssemblyInstruction {
    pub fn new(mnemonic: Mnemonic, addressing_mode: AddressingMode, value: OperandValue) -> (r: Self)
        ensures
            r == (AssemblyInstruction { mnemonic, addressing_mode, value }),
    {
        AssemblyInstruction { mnemonic, addressing_mode, value }
    }
}

} // verus!
