//! The operations of the processor, by mnemonic.

use vstd::prelude::*;
use vstd::string::*;

verus! {

/// One of the 56 documented operations, or `Unknown` for an opcode byte
/// that selects none of them.
#[derive(Debug, PartialEq, Eq, Clone, Copy, Structural)]
#[allow(clippy::upper_case_acronyms)]
pub enum Operation {
    ADC,
    AND,
    ASL,
    BCC,
    BCS,
    BEQ,
    BIT,
    BMI,
    BNE,
    BPL,
    BRK,
    BVC,
    BVS,
    CLC,
    CLD,
    CLI,
    CLV,
    CMP,
    CPX,
    CPY,
    DEC,
    DEX,
    DEY,
    EOR,
    INC,
    INX,
    INY,
    JMP,
    JSR,
    LDA,
    LDX,
    LDY,
    LSR,
    NOP,
    ORA,
    PHA,
    PHP,
    PLA,
    PLP,
    ROL,
    ROR,
    RTI,
    RTS,
    SBC,
    SEC,
    SED,
    SEI,
    STA,
    STX,
    STY,
    TAX,
    TAY,
    TSX,
    TXA,
    TXS,
    TYA,
    Unknown,
}

impl Operation {
    /// The text an operation is listed under: its three-letter mnemonic, or
    /// three question marks for `Unknown`.
    pub open spec fn mnemonic(self) -> Seq<char> {
        match self {
            Operation::ADC => "ADC"@,
            Operation::AND => "AND"@,
            Operation::ASL => "ASL"@,
            Operation::BCC => "BCC"@,
            Operation::BCS => "BCS"@,
            Operation::BEQ => "BEQ"@,
            Operation::BIT => "BIT"@,
            Operation::BMI => "BMI"@,
            Operation::BNE => "BNE"@,
            Operation::BPL => "BPL"@,
            Operation::BRK => "BRK"@,
            Operation::BVC => "BVC"@,
            Operation::BVS => "BVS"@,
            Operation::CLC => "CLC"@,
            Operation::CLD => "CLD"@,
            Operation::CLI => "CLI"@,
            Operation::CLV => "CLV"@,
            Operation::CMP => "CMP"@,
            Operation::CPX => "CPX"@,
            Operation::CPY => "CPY"@,
            Operation::DEC => "DEC"@,
            Operation::DEX => "DEX"@,
            Operation::DEY => "DEY"@,
            Operation::EOR => "EOR"@,
            Operation::INC => "INC"@,
            Operation::INX => "INX"@,
            Operation::INY => "INY"@,
            Operation::JMP => "JMP"@,
            Operation::JSR => "JSR"@,
            Operation::LDA => "LDA"@,
            Operation::LDX => "LDX"@,
            Operation::LDY => "LDY"@,
            Operation::LSR => "LSR"@,
            Operation::NOP => "NOP"@,
            Operation::ORA => "ORA"@,
            Operation::PHA => "PHA"@,
            Operation::PHP => "PHP"@,
            Operation::PLA => "PLA"@,
            Operation::PLP => "PLP"@,
            Operation::ROL => "ROL"@,
            Operation::ROR => "ROR"@,
            Operation::RTI => "RTI"@,
            Operation::RTS => "RTS"@,
            Operation::SBC => "SBC"@,
            Operation::SEC => "SEC"@,
            Operation::SED => "SED"@,
            Operation::SEI => "SEI"@,
            Operation::STA => "STA"@,
            Operation::STX => "STX"@,
            Operation::STY => "STY"@,
            Operation::TAX => "TAX"@,
            Operation::TAY => "TAY"@,
            Operation::TSX => "TSX"@,
            Operation::TXA => "TXA"@,
            Operation::TXS => "TXS"@,
            Operation::TYA => "TYA"@,
            Operation::Unknown => "???"@,
        }
    }

    /// The mnemonic as a string slice.
    pub fn name(&self) -> (text: &'static str)
        ensures
            text@ == self.mnemonic(),
    {
        match self {
            Operation::ADC => "ADC",
            Operation::AND => "AND",
            Operation::ASL => "ASL",
            Operation::BCC => "BCC",
            Operation::BCS => "BCS",
            Operation::BEQ => "BEQ",
            Operation::BIT => "BIT",
            Operation::BMI => "BMI",
            Operation::BNE => "BNE",
            Operation::BPL => "BPL",
            Operation::BRK => "BRK",
            Operation::BVC => "BVC",
            Operation::BVS => "BVS",
            Operation::CLC => "CLC",
            Operation::CLD => "CLD",
            Operation::CLI => "CLI",
            Operation::CLV => "CLV",
            Operation::CMP => "CMP",
            Operation::CPX => "CPX",
            Operation::CPY => "CPY",
            Operation::DEC => "DEC",
            Operation::DEX => "DEX",
            Operation::DEY => "DEY",
            Operation::EOR => "EOR",
            Operation::INC => "INC",
            Operation::INX => "INX",
            Operation::INY => "INY",
            Operation::JMP => "JMP",
            Operation::JSR => "JSR",
            Operation::LDA => "LDA",
            Operation::LDX => "LDX",
            Operation::LDY => "LDY",
            Operation::LSR => "LSR",
            Operation::NOP => "NOP",
            Operation::ORA => "ORA",
            Operation::PHA => "PHA",
            Operation::PHP => "PHP",
            Operation::PLA => "PLA",
            Operation::PLP => "PLP",
            Operation::ROL => "ROL",
            Operation::ROR => "ROR",
            Operation::RTI => "RTI",
            Operation::RTS => "RTS",
            Operation::SBC => "SBC",
            Operation::SEC => "SEC",
            Operation::SED => "SED",
            Operation::SEI => "SEI",
            Operation::STA => "STA",
            Operation::STX => "STX",
            Operation::STY => "STY",
            Operation::TAX => "TAX",
            Operation::TAY => "TAY",
            Operation::TSX => "TSX",
            Operation::TXA => "TXA",
            Operation::TXS => "TXS",
            Operation::TYA => "TYA",
            Operation::Unknown => "???",
        }
    }

    /// The mnemonic as an owned string.
    pub fn to_string(&self) -> (text: String)
        ensures
            text@ == self.mnemonic(),
    {
        String::from_str(self.name())
    }
}

} // verus!
