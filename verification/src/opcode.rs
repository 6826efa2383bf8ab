//! The opcode table: which operation and addressing mode an opcode byte
//! selects.

use crate::address_mode::AddressMode;
use crate::operation::Operation;
use vstd::prelude::*;

verus! {

/// The opcode byte that encodes an operation in an addressing mode, as the
/// instruction set lists them operation by operation; `None` for a
/// combination that the processor does not have.
pub open spec fn encoding(operation: Operation, mode: AddressMode) -> Option<u8> {
    match operation {
        Operation::ADC => match mode {
            AddressMode::Immediate => Some(0x69u8),
            AddressMode::Zeropage => Some(0x65u8),
            AddressMode::ZeropageX => Some(0x75u8),
            AddressMode::Absolute => Some(0x6Du8),
            AddressMode::AbsoluteX => Some(0x7Du8),
            AddressMode::AbsoluteY => Some(0x79u8),
            AddressMode::XIndirect => Some(0x61u8),
            AddressMode::IndirectY => Some(0x71u8),
            _ => None,
        },
        Operation::AND => match mode {
            AddressMode::Immediate => Some(0x29u8),
            AddressMode::Zeropage => Some(0x25u8),
            AddressMode::ZeropageX => Some(0x35u8),
            AddressMode::Absolute => Some(0x2Du8),
            AddressMode::AbsoluteX => Some(0x3Du8),
            AddressMode::AbsoluteY => Some(0x39u8),
            AddressMode::XIndirect => Some(0x21u8),
            AddressMode::IndirectY => Some(0x31u8),
            _ => None,
        },
        Operation::ASL => match mode {
            AddressMode::Accumulator => Some(0x0Au8),
            AddressMode::Zeropage => Some(0x06u8),
            AddressMode::ZeropageX => Some(0x16u8),
            AddressMode::Absolute => Some(0x0Eu8),
            AddressMode::AbsoluteX => Some(0x1Eu8),
            _ => None,
        },
        Operation::BCC => match mode {
            AddressMode::Relative => Some(0x90u8),
            _ => None,
        },
        Operation::BCS => match mode {
            AddressMode::Relative => Some(0xB0u8),
            _ => None,
        },
        Operation::BEQ => match mode {
            AddressMode::Relative => Some(0xF0u8),
            _ => None,
        },
        Operation::BIT => match mode {
            AddressMode::Zeropage => Some(0x24u8),
            AddressMode::Absolute => Some(0x2Cu8),
            _ => None,
        },
        Operation::BMI => match mode {
            AddressMode::Relative => Some(0x30u8),
            _ => None,
        },
        Operation::BNE => match mode {
            AddressMode::Relative => Some(0xD0u8),
            _ => None,
        },
        Operation::BPL => match mode {
            AddressMode::Relative => Some(0x10u8),
            _ => None,
        },
        Operation::BRK => match mode {
            AddressMode::Implied => Some(0x00u8),
            _ => None,
        },
        Operation::BVC => match mode {
            AddressMode::Relative => Some(0x50u8),
            _ => None,
        },
        Operation::BVS => match mode {
            AddressMode::Relative => Some(0x70u8),
            _ => None,
        },
        Operation::CLC => match mode {
            AddressMode::Implied => Some(0x18u8),
            _ => None,
        },
        Operation::CLD => match mode {
            AddressMode::Implied => Some(0xD8u8),
            _ => None,
        },
        Operation::CLI => match mode {
            AddressMode::Implied => Some(0x58u8),
            _ => None,
        },
        Operation::CLV => match mode {
            AddressMode::Implied => Some(0xB8u8),
            _ => None,
        },
        Operation::CMP => match mode {
            AddressMode::Immediate => Some(0xC9u8),
            AddressMode::Zeropage => Some(0xC5u8),
            AddressMode::ZeropageX => Some(0xD5u8),
            AddressMode::Absolute => Some(0xCDu8),
            AddressMode::AbsoluteX => Some(0xDDu8),
            AddressMode::AbsoluteY => Some(0xD9u8),
            AddressMode::XIndirect => Some(0xC1u8),
            AddressMode::IndirectY => Some(0xD1u8),
            _ => None,
        },
        Operation::CPX => match mode {
            AddressMode::Immediate => Some(0xE0u8),
            AddressMode::Zeropage => Some(0xE4u8),
            AddressMode::Absolute => Some(0xECu8),
            _ => None,
        },
        Operation::CPY => match mode {
            AddressMode::Immediate => Some(0xC0u8),
            AddressMode::Zeropage => Some(0xC4u8),
            AddressMode::Absolute => Some(0xCCu8),
            _ => None,
        },
        Operation::DEC => match mode {
            AddressMode::Zeropage => Some(0xC6u8),
            AddressMode::ZeropageX => Some(0xD6u8),
            AddressMode::Absolute => Some(0xCEu8),
            AddressMode::AbsoluteX => Some(0xDEu8),
            _ => None,
        },
        Operation::DEX => match mode {
            AddressMode::Implied => Some(0xCAu8),
            _ => None,
        },
        Operation::DEY => match mode {
            AddressMode::Implied => Some(0x88u8),
            _ => None,
        },
        Operation::EOR => match mode {
            AddressMode::Immediate => Some(0x49u8),
            AddressMode::Zeropage => Some(0x45u8),
            AddressMode::ZeropageX => Some(0x55u8),
            AddressMode::Absolute => Some(0x4Du8),
            AddressMode::AbsoluteX => Some(0x5Du8),
            AddressMode::AbsoluteY => Some(0x59u8),
            AddressMode::XIndirect => Some(0x41u8),
            AddressMode::IndirectY => Some(0x51u8),
            _ => None,
        },
        Operation::INC => match mode {
            AddressMode::Zeropage => Some(0xE6u8),
            AddressMode::ZeropageX => Some(0xF6u8),
            AddressMode::Absolute => Some(0xEEu8),
            AddressMode::AbsoluteX => Some(0xFEu8),
            _ => None,
        },
        Operation::INX => match mode {
            AddressMode::Implied => Some(0xE8u8),
            _ => None,
        },
        Operation::INY => match mode {
            AddressMode::Implied => Some(0xC8u8),
            _ => None,
        },
        Operation::JMP => match mode {
            AddressMode::Absolute => Some(0x4Cu8),
            AddressMode::Indirect => Some(0x6Cu8),
            _ => None,
        },
        Operation::JSR => match mode {
            AddressMode::Absolute => Some(0x20u8),
            _ => None,
        },
        Operation::LDA => match mode {
            AddressMode::Immediate => Some(0xA9u8),
            AddressMode::Zeropage => Some(0xA5u8),
            AddressMode::ZeropageX => Some(0xB5u8),
            AddressMode::Absolute => Some(0xADu8),
            AddressMode::AbsoluteX => Some(0xBDu8),
            AddressMode::AbsoluteY => Some(0xB9u8),
            AddressMode::XIndirect => Some(0xA1u8),
            AddressMode::IndirectY => Some(0xB1u8),
            _ => None,
        },
        Operation::LDX => match mode {
            AddressMode::Immediate => Some(0xA2u8),
            AddressMode::Zeropage => Some(0xA6u8),
            AddressMode::ZeropageY => Some(0xB6u8),
            AddressMode::Absolute => Some(0xAEu8),
            AddressMode::AbsoluteY => Some(0xBEu8),
            _ => None,
        },
        Operation::LDY => match mode {
            AddressMode::Immediate => Some(0xA0u8),
            AddressMode::Zeropage => Some(0xA4u8),
            AddressMode::ZeropageX => Some(0xB4u8),
            AddressMode::Absolute => Some(0xACu8),
            AddressMode::AbsoluteX => Some(0xBCu8),
            _ => None,
        },
        Operation::LSR => match mode {
            AddressMode::Accumulator => Some(0x4Au8),
            AddressMode::Zeropage => Some(0x46u8),
            AddressMode::ZeropageX => Some(0x56u8),
            AddressMode::Absolute => Some(0x4Eu8),
            AddressMode::AbsoluteX => Some(0x5Eu8),
            _ => None,
        },
        Operation::NOP => match mode {
            AddressMode::Implied => Some(0xEAu8),
            _ => None,
        },
        Operation::ORA => match mode {
            AddressMode::Immediate => Some(0x09u8),
            AddressMode::Zeropage => Some(0x05u8),
            AddressMode::ZeropageX => Some(0x15u8),
            AddressMode::Absolute => Some(0x0Du8),
            AddressMode::AbsoluteX => Some(0x1Du8),
            AddressMode::AbsoluteY => Some(0x19u8),
            AddressMode::XIndirect => Some(0x01u8),
            AddressMode::IndirectY => Some(0x11u8),
            _ => None,
        },
        Operation::PHA => match mode {
            AddressMode::Implied => Some(0x48u8),
            _ => None,
        },
        Operation::PHP => match mode {
            AddressMode::Implied => Some(0x08u8),
            _ => None,
        },
        Operation::PLA => match mode {
            AddressMode::Implied => Some(0x68u8),
            _ => None,
        },
        Operation::PLP => match mode {
            AddressMode::Implied => Some(0x28u8),
            _ => None,
        },
        Operation::ROL => match mode {
            AddressMode::Accumulator => Some(0x2Au8),
            AddressMode::Zeropage => Some(0x26u8),
            AddressMode::ZeropageX => Some(0x36u8),
            AddressMode::Absolute => Some(0x2Eu8),
            AddressMode::AbsoluteX => Some(0x3Eu8),
            _ => None,
        },
        Operation::ROR => match mode {
            AddressMode::Accumulator => Some(0x6Au8),
            AddressMode::Zeropage => Some(0x66u8),
            AddressMode::ZeropageX => Some(0x76u8),
            AddressMode::Absolute => Some(0x6Eu8),
            AddressMode::AbsoluteX => Some(0x7Eu8),
            _ => None,
        },
        Operation::RTI => match mode {
            AddressMode::Implied => Some(0x40u8),
            _ => None,
        },
        Operation::RTS => match mode {
            AddressMode::Implied => Some(0x60u8),
            _ => None,
        },
        Operation::SBC => match mode {
            AddressMode::Immediate => Some(0xE9u8),
            AddressMode::Zeropage => Some(0xE5u8),
            AddressMode::ZeropageX => Some(0xF5u8),
            AddressMode::Absolute => Some(0xEDu8),
            AddressMode::AbsoluteX => Some(0xFDu8),
            AddressMode::AbsoluteY => Some(0xF9u8),
            AddressMode::XIndirect => Some(0xE1u8),
            AddressMode::IndirectY => Some(0xF1u8),
            _ => None,
        },
        Operation::SEC => match mode {
            AddressMode::Implied => Some(0x38u8),
            _ => None,
        },
        Operation::SED => match mode {
            AddressMode::Implied => Some(0xF8u8),
            _ => None,
        },
        Operation::SEI => match mode {
            AddressMode::Implied => Some(0x78u8),
            _ => None,
        },
        Operation::STA => match mode {
            AddressMode::Zeropage => Some(0x85u8),
            AddressMode::ZeropageX => Some(0x95u8),
            AddressMode::Absolute => Some(0x8Du8),
            AddressMode::AbsoluteX => Some(0x9Du8),
            AddressMode::AbsoluteY => Some(0x99u8),
            AddressMode::XIndirect => Some(0x81u8),
            AddressMode::IndirectY => Some(0x91u8),
            _ => None,
        },
        Operation::STX => match mode {
            AddressMode::Zeropage => Some(0x86u8),
            AddressMode::ZeropageY => Some(0x96u8),
            AddressMode::Absolute => Some(0x8Eu8),
            _ => None,
        },
        Operation::STY => match mode {
            AddressMode::Zeropage => Some(0x84u8),
            AddressMode::ZeropageX => Some(0x94u8),
            AddressMode::Absolute => Some(0x8Cu8),
            _ => None,
        },
        Operation::TAX => match mode {
            AddressMode::Implied => Some(0xAAu8),
            _ => None,
        },
        Operation::TAY => match mode {
            AddressMode::Implied => Some(0xA8u8),
            _ => None,
        },
        Operation::TSX => match mode {
            AddressMode::Implied => Some(0xBAu8),
            _ => None,
        },
        Operation::TXA => match mode {
            AddressMode::Implied => Some(0x8Au8),
            _ => None,
        },
        Operation::TXS => match mode {
            AddressMode::Implied => Some(0x9Au8),
            _ => None,
        },
        Operation::TYA => match mode {
            AddressMode::Implied => Some(0x98u8),
            _ => None,
        },
        Operation::Unknown => None,
    }
}

/// Whether a byte is the opcode of a documented instruction.
pub open spec fn is_legal_opcode(value: u8) -> bool {
    exists|operation: Operation, mode: AddressMode| encoding(operation, mode) == Some(value)
}

/// What an opcode byte selects: the documented combination that it encodes,
/// or `Unknown` twice where it encodes none.
#[verifier::opaque]
pub open spec fn opcode_entry(value: u8) -> (Operation, AddressMode) {
    if is_legal_opcode(value) {
        choose|operation: Operation, mode: AddressMode| encoding(operation, mode) == Some(value)
    } else {
        (Operation::Unknown, AddressMode::Unknown)
    }
}

/// No two combinations share an opcode byte.
pub proof fn lemma_encoding_unique(
    operation: Operation,
    mode: AddressMode,
    other_operation: Operation,
    other_mode: AddressMode,
)
    requires
        encoding(operation, mode) is Some,
        encoding(operation, mode) == encoding(other_operation, other_mode),
    ensures
        operation == other_operation,
        mode == other_mode,
{
}

/// A byte that encodes a combination selects that combination.
pub proof fn lemma_entry_of_encoding(operation: Operation, mode: AddressMode, value: u8)
    requires
        encoding(operation, mode) == Some(value),
    ensures
        is_legal_opcode(value),
        opcode_entry(value) == (operation, mode),
{
    reveal(opcode_entry);
    let entry = opcode_entry(value);
    lemma_encoding_unique(operation, mode, entry.0, entry.1);
}

/// An opcode byte selects the operation `Unknown` exactly where it selects
/// the addressing mode `Unknown`, which is where it encodes no documented
/// combination.
pub proof fn lemma_unknown_entry(value: u8)
    ensures
        opcode_entry(value).0 == Operation::Unknown <==> !is_legal_opcode(value),
        opcode_entry(value).1 == AddressMode::Unknown <==> !is_legal_opcode(value),
        is_legal_opcode(value) ==> encoding(opcode_entry(value).0, opcode_entry(value).1) == Some(
            value,
        ),
{
    reveal(opcode_entry);
}

/// Looks an opcode byte up in the table.
pub fn decode_opcode(value: u8) -> (entry: (Operation, AddressMode))
    ensures
        entry == opcode_entry(value),
        is_legal_opcode(value) ==> encoding(entry.0, entry.1) == Some(value),
        !is_legal_opcode(value) ==> entry == (Operation::Unknown, AddressMode::Unknown),
{
    let entry = match value {
        0x00 => (Operation::BRK, AddressMode::Implied),
        0x01 => (Operation::ORA, AddressMode::XIndirect),
        0x05 => (Operation::ORA, AddressMode::Zeropage),
        0x06 => (Operation::ASL, AddressMode::Zeropage),
        0x08 => (Operation::PHP, AddressMode::Implied),
        0x09 => (Operation::ORA, AddressMode::Immediate),
        0x0a => (Operation::ASL, AddressMode::Accumulator),
        0x0d => (Operation::ORA, AddressMode::Absolute),
        0x0e => (Operation::ASL, AddressMode::Absolute),

        0x10 => (Operation::BPL, AddressMode::Relative),
        0x11 => (Operation::ORA, AddressMode::IndirectY),
        0x15 => (Operation::ORA, AddressMode::ZeropageX),
        0x16 => (Operation::ASL, AddressMode::ZeropageX),
        0x18 => (Operation::CLC, AddressMode::Implied),
        0x19 => (Operation::ORA, AddressMode::AbsoluteY),
        0x1d => (Operation::ORA, AddressMode::AbsoluteX),
        0x1e => (Operation::ASL, AddressMode::AbsoluteX),

        0x20 => (Operation::JSR, AddressMode::Absolute),
        0x21 => (Operation::AND, AddressMode::XIndirect),
        0x24 => (Operation::BIT, AddressMode::Zeropage),
        0x25 => (Operation::AND, AddressMode::Zeropage),
        0x26 => (Operation::ROL, AddressMode::Zeropage),
        0x28 => (Operation::PLP, AddressMode::Implied),
        0x29 => (Operation::AND, AddressMode::Immediate),
        0x2a => (Operation::ROL, AddressMode::Accumulator),
        0x2c => (Operation::BIT, AddressMode::Absolute),
        0x2d => (Operation::AND, AddressMode::Absolute),
        0x2e => (Operation::ROL, AddressMode::Absolute),

        0x30 => (Operation::BMI, AddressMode::Relative),
        0x31 => (Operation::AND, AddressMode::IndirectY),
        0x35 => (Operation::AND, AddressMode::ZeropageX),
        0x36 => (Operation::ROL, AddressMode::ZeropageX),
        0x38 => (Operation::SEC, AddressMode::Implied),
        0x39 => (Operation::AND, AddressMode::AbsoluteY),
        0x3d => (Operation::AND, AddressMode::AbsoluteX),
        0x3e => (Operation::ROL, AddressMode::AbsoluteX),

        0x40 => (Operation::RTI, AddressMode::Implied),
        0x41 => (Operation::EOR, AddressMode::XIndirect),
        0x45 => (Operation::EOR, AddressMode::Zeropage),
        0x46 => (Operation::LSR, AddressMode::Zeropage),
        0x48 => (Operation::PHA, AddressMode::Implied),
        0x49 => (Operation::EOR, AddressMode::Immediate),
        0x4a => (Operation::LSR, AddressMode::Accumulator),
        0x4c => (Operation::JMP, AddressMode::Absolute),
        0x4d => (Operation::EOR, AddressMode::Absolute),
        0x4e => (Operation::LSR, AddressMode::Absolute),

        0x50 => (Operation::BVC, AddressMode::Relative),
        0x51 => (Operation::EOR, AddressMode::IndirectY),
        0x55 => (Operation::EOR, AddressMode::ZeropageX),
        0x56 => (Operation::LSR, AddressMode::ZeropageX),
        0x58 => (Operation::CLI, AddressMode::Implied),
        0x59 => (Operation::EOR, AddressMode::AbsoluteY),
        0x5d => (Operation::EOR, AddressMode::AbsoluteX),
        0x5e => (Operation::LSR, AddressMode::AbsoluteX),

        0x60 => (Operation::RTS, AddressMode::Implied),
        0x61 => (Operation::ADC, AddressMode::XIndirect),
        0x65 => (Operation::ADC, AddressMode::Zeropage),
        0x66 => (Operation::ROR, AddressMode::Zeropage),
        0x68 => (Operation::PLA, AddressMode::Implied),
        0x69 => (Operation::ADC, AddressMode::Immediate),
        0x6a => (Operation::ROR, AddressMode::Accumulator),
        0x6c => (Operation::JMP, AddressMode::Indirect),
        0x6d => (Operation::ADC, AddressMode::Absolute),
        0x6e => (Operation::ROR, AddressMode::Absolute),

        0x70 => (Operation::BVS, AddressMode::Relative),
        0x71 => (Operation::ADC, AddressMode::IndirectY),
        0x75 => (Operation::ADC, AddressMode::ZeropageX),
        0x76 => (Operation::ROR, AddressMode::ZeropageX),
        0x78 => (Operation::SEI, AddressMode::Implied),
        0x79 => (Operation::ADC, AddressMode::AbsoluteY),
        0x7d => (Operation::ADC, AddressMode::AbsoluteX),
        0x7e => (Operation::ROR, AddressMode::AbsoluteX),

        0x81 => (Operation::STA, AddressMode::XIndirect),
        0x84 => (Operation::STY, AddressMode::Zeropage),
        0x85 => (Operation::STA, AddressMode::Zeropage),
        0x86 => (Operation::STX, AddressMode::Zeropage),
        0x88 => (Operation::DEY, AddressMode::Implied),
        0x8a => (Operation::TXA, AddressMode::Implied),
        0x8c => (Operation::STY, AddressMode::Absolute),
        0x8d => (Operation::STA, AddressMode::Absolute),
        0x8e => (Operation::STX, AddressMode::Absolute),

        0x90 => (Operation::BCC, AddressMode::Relative),
        0x91 => (Operation::STA, AddressMode::IndirectY),
        0x94 => (Operation::STY, AddressMode::ZeropageX),
        0x95 => (Operation::STA, AddressMode::ZeropageX),
        0x96 => (Operation::STX, AddressMode::ZeropageY),
        0x98 => (Operation::TYA, AddressMode::Implied),
        0x99 => (Operation::STA, AddressMode::AbsoluteY),
        0x9a => (Operation::TXS, AddressMode::Implied),
        0x9d => (Operation::STA, AddressMode::AbsoluteX),

        0xa0 => (Operation::LDY, AddressMode::Immediate),
        0xa1 => (Operation::LDA, AddressMode::XIndirect),
        0xa2 => (Operation::LDX, AddressMode::Immediate),
        0xa4 => (Operation::LDY, AddressMode::Zeropage),
        0xa5 => (Operation::LDA, AddressMode::Zeropage),
        0xa6 => (Operation::LDX, AddressMode::Zeropage),
        0xa8 => (Operation::TAY, AddressMode::Implied),
        0xa9 => (Operation::LDA, AddressMode::Immediate),
        0xaa => (Operation::TAX, AddressMode::Implied),
        0xac => (Operation::LDY, AddressMode::Absolute),
        0xad => (Operation::LDA, AddressMode::Absolute),
        0xae => (Operation::LDX, AddressMode::Absolute),

        0xb0 => (Operation::BCS, AddressMode::Relative),
        0xb1 => (Operation::LDA, AddressMode::IndirectY),
        0xb4 => (Operation::LDY, AddressMode::ZeropageX),
        0xb5 => (Operation::LDA, AddressMode::ZeropageX),
        0xb6 => (Operation::LDX, AddressMode::ZeropageY),
        0xb8 => (Operation::CLV, AddressMode::Implied),
        0xb9 => (Operation::LDA, AddressMode::AbsoluteY),
        0xba => (Operation::TSX, AddressMode::Implied),
        0xbc => (Operation::LDY, AddressMode::AbsoluteX),
        0xbd => (Operation::LDA, AddressMode::AbsoluteX),
        0xbe => (Operation::LDX, AddressMode::AbsoluteY),

        0xc0 => (Operation::CPY, AddressMode::Immediate),
        0xc1 => (Operation::CMP, AddressMode::XIndirect),
        0xc4 => (Operation::CPY, AddressMode::Zeropage),
        0xc5 => (Operation::CMP, AddressMode::Zeropage),
        0xc6 => (Operation::DEC, AddressMode::Zeropage),
        0xc8 => (Operation::INY, AddressMode::Implied),
        0xc9 => (Operation::CMP, AddressMode::Immediate),
        0xca => (Operation::DEX, AddressMode::Implied),
        0xcc => (Operation::CPY, AddressMode::Absolute),
        0xcd => (Operation::CMP, AddressMode::Absolute),
        0xce => (Operation::DEC, AddressMode::Absolute),

        0xd0 => (Operation::BNE, AddressMode::Relative),
        0xd1 => (Operation::CMP, AddressMode::IndirectY),
        0xd5 => (Operation::CMP, AddressMode::ZeropageX),
        0xd6 => (Operation::DEC, AddressMode::ZeropageX),
        0xd8 => (Operation::CLD, AddressMode::Implied),
        0xd9 => (Operation::CMP, AddressMode::AbsoluteY),
        0xdd => (Operation::CMP, AddressMode::AbsoluteX),
        0xde => (Operation::DEC, AddressMode::AbsoluteX),

        0xe0 => (Operation::CPX, AddressMode::Immediate),
        0xe1 => (Operation::SBC, AddressMode::XIndirect),
        0xe4 => (Operation::CPX, AddressMode::Zeropage),
        0xe5 => (Operation::SBC, AddressMode::Zeropage),
        0xe6 => (Operation::INC, AddressMode::Zeropage),
        0xe8 => (Operation::INX, AddressMode::Implied),
        0xe9 => (Operation::SBC, AddressMode::Immediate),
        0xea => (Operation::NOP, AddressMode::Implied),
        0xec => (Operation::CPX, AddressMode::Absolute),
        0xed => (Operation::SBC, AddressMode::Absolute),
        0xee => (Operation::INC, AddressMode::Absolute),

        0xf0 => (Operation::BEQ, AddressMode::Relative),
        0xf1 => (Operation::SBC, AddressMode::IndirectY),
        0xf5 => (Operation::SBC, AddressMode::ZeropageX),
        0xf6 => (Operation::INC, AddressMode::ZeropageX),
        0xf8 => (Operation::SED, AddressMode::Implied),
        0xf9 => (Operation::SBC, AddressMode::AbsoluteY),
        0xfd => (Operation::SBC, AddressMode::AbsoluteX),
        0xfe => (Operation::INC, AddressMode::AbsoluteX),

        _ => (Operation::Unknown, AddressMode::Unknown),
    };
    proof {
        reveal(opcode_entry);
        if entry.0 != Operation::Unknown {
            lemma_entry_of_encoding(entry.0, entry.1, value);
        } else {
            assert forall|operation: Operation, mode: AddressMode|
                encoding(operation, mode) != Some(value) by {}
        }
    }
    entry
}

} // verus!
