//! The addressing modes of the processor: the number of bytes an instruction
//! in each of them takes, and how its operand is written.

use crate::text::{
    byte_binary, byte_hex, pad_left, push_byte_binary, push_byte_hex, push_char, push_padded_hex,
    upper_hex,
};
use vstd::prelude::*;
use vstd::string::*;

verus! {

/// How the bytes that follow an opcode are read; `Unknown` belongs to an
/// opcode byte that selects no operation.
#[derive(Debug, PartialEq, Eq, Clone, Copy, Structural)]
pub enum AddressMode {
    Accumulator,
    Absolute,
    AbsoluteX,
    AbsoluteY,
    Immediate,
    Implied,
    Indirect,
    XIndirect,
    IndirectY,
    Relative,
    Zeropage,
    ZeropageX,
    ZeropageY,
    Unknown,
}

/// A displacement byte read as a signed number, from -128 to 127.
pub open spec fn signed_displacement(displacement: u8) -> int {
    if displacement < 128 {
        displacement as int
    } else {
        displacement as int - 256
    }
}

/// The address a relative branch at `offset` jumps to: the address of the
/// instruction after the two-byte branch, plus the signed displacement,
/// taken modulo 2^16 whatever the size of `offset`.
pub open spec fn relative_target(offset: nat, displacement: u8) -> nat {
    ((offset + 2 + signed_displacement(displacement)) % 0x10000) as nat
}

/// Whether a byte is a printable ASCII character (space to tilde).
pub open spec fn is_printable_ascii(b: u8) -> bool {
    32 <= b <= 126
}

/// The text that stands in place of an operand whose bytes are not all
/// there.
pub open spec fn missing_operands() -> Seq<char> {
    "*Missing operands*"@
}

/// The address a relative branch at `offset` jumps to.
pub fn branch_target(offset: usize, displacement: u8) -> (target: u16)
    ensures
        target as nat == relative_target(offset as nat, displacement),
{
    let base: u32 = (offset % 0x10000) as u32;
    let step: u32 = if displacement < 128 {
        displacement as u32 + 2
    } else {
        displacement as u32 + 0xFF02
    };
    ((base + step) % 0x10000) as u16
}

impl AddressMode {
    /// The number of bytes of an instruction in this mode, opcode byte
    /// included.
    pub open spec fn spec_length(&self) -> usize {
        match self {
            AddressMode::Accumulator | AddressMode::Implied | AddressMode::Unknown => 1,
            AddressMode::Immediate
            | AddressMode::Relative
            | AddressMode::Zeropage
            | AddressMode::ZeropageX
            | AddressMode::ZeropageY
            | AddressMode::XIndirect
            | AddressMode::IndirectY => 2,
            AddressMode::Absolute
            | AddressMode::AbsoluteX
            | AddressMode::AbsoluteY
            | AddressMode::Indirect => 3,
        }
    }

    /// The number of bytes of an instruction in this mode, opcode byte
    /// included.
    #[verifier::when_used_as_spec(spec_length)]
    pub fn length(&self) -> (n: usize)
        ensures
            n == self.spec_length(),
            1 <= n <= 3,
    {
        match self {
            AddressMode::Accumulator | AddressMode::Implied | AddressMode::Unknown => 1,
            AddressMode::Immediate
            | AddressMode::Relative
            | AddressMode::Zeropage
            | AddressMode::ZeropageX
            | AddressMode::ZeropageY
            | AddressMode::XIndirect
            | AddressMode::IndirectY => 2,
            AddressMode::Absolute
            | AddressMode::AbsoluteX
            | AddressMode::AbsoluteY
            | AddressMode::Indirect => 3,
        }
    }

    /// How the operand of an instruction in this mode is written, given the
    /// instruction's bytes (opcode byte first) and the offset it stands at.
    ///
    /// Addresses are little-endian, so the second operand byte is written
    /// first. A relative branch shows the address it jumps to. A byte that
    /// selects no operation is shown in binary, followed by the character
    /// it stands for where that is printable. Where the number of bytes is
    /// not the length of the mode, a marker is written instead.
    pub open spec fn operand_text(self, raw: Seq<u8>, offset: nat) -> Seq<char> {
        if raw.len() != self.spec_length() {
            missing_operands()
        } else {
            match self {
                AddressMode::Accumulator => seq!['A'],
                AddressMode::Absolute => seq!['$'] + byte_hex(raw[2]) + byte_hex(raw[1]),
                AddressMode::AbsoluteX => seq!['$'] + byte_hex(raw[2]) + byte_hex(raw[1]) + seq![
                    ',',
                    'X',
                ],
                AddressMode::AbsoluteY => seq!['$'] + byte_hex(raw[2]) + byte_hex(raw[1]) + seq![
                    ',',
                    'Y',
                ],
                AddressMode::Immediate => seq!['#', '$'] + byte_hex(raw[1]),
                AddressMode::Implied => Seq::empty(),
                AddressMode::Indirect => seq!['(', '$'] + byte_hex(raw[2]) + byte_hex(raw[1])
                    + seq![')'],
                AddressMode::XIndirect => seq!['(', '$'] + byte_hex(raw[1]) + seq![',', 'X', ')'],
                AddressMode::IndirectY => seq!['(', '$'] + byte_hex(raw[1]) + seq![')', ',', 'Y'],
                AddressMode::Relative => seq!['$'] + pad_left(
                    upper_hex(relative_target(offset, raw[1])),
                    4,
                    '0',
                ),
                AddressMode::Zeropage => seq!['$'] + byte_hex(raw[1]),
                AddressMode::ZeropageX => seq!['$'] + byte_hex(raw[1]) + seq![',', 'X'],
                AddressMode::ZeropageY => seq!['$'] + byte_hex(raw[1]) + seq![',', 'Y'],
                AddressMode::Unknown => seq![';', '%'] + byte_binary(raw[0]) + (
                if is_printable_ascii(raw[0]) {
                    seq![' ', '\'', raw[0] as char, '\'']
                } else {
                    Seq::empty()
                }),
            }
        }
    }

    /// Writes the operand of an instruction in this mode.
    pub fn format(&self, raw: &[u8], offset: usize) -> (text: String)
        ensures
            text@ == self.operand_text(raw@, offset as nat),
    {
        if raw.len() != self.length() {
            return String::from_str("*Missing operands*");
        }
        let mut text = String::new();
        match self {
            AddressMode::Accumulator => {
                push_char(&mut text, 'A');
            },
            AddressMode::Absolute => {
                push_char(&mut text, '$');
                push_byte_hex(&mut text, raw[2]);
                push_byte_hex(&mut text, raw[1]);
            },
            AddressMode::AbsoluteX => {
                push_char(&mut text, '$');
                push_byte_hex(&mut text, raw[2]);
                push_byte_hex(&mut text, raw[1]);
                push_char(&mut text, ',');
                push_char(&mut text, 'X');
            },
            AddressMode::AbsoluteY => {
                push_char(&mut text, '$');
                push_byte_hex(&mut text, raw[2]);
                push_byte_hex(&mut text, raw[1]);
                push_char(&mut text, ',');
                push_char(&mut text, 'Y');
            },
            AddressMode::Immediate => {
                push_char(&mut text, '#');
                push_char(&mut text, '$');
                push_byte_hex(&mut text, raw[1]);
            },
            AddressMode::Implied => {},
            AddressMode::Indirect => {
                push_char(&mut text, '(');
                push_char(&mut text, '$');
                push_byte_hex(&mut text, raw[2]);
                push_byte_hex(&mut text, raw[1]);
                push_char(&mut text, ')');
            },
            AddressMode::XIndirect => {
                push_char(&mut text, '(');
                push_char(&mut text, '$');
                push_byte_hex(&mut text, raw[1]);
                push_char(&mut text, ',');
                push_char(&mut text, 'X');
                push_char(&mut text, ')');
            },
            AddressMode::IndirectY => {
                push_char(&mut text, '(');
                push_char(&mut text, '$');
                push_byte_hex(&mut text, raw[1]);
                push_char(&mut text, ')');
                push_char(&mut text, ',');
                push_char(&mut text, 'Y');
            },
            AddressMode::Relative => {
                push_char(&mut text, '$');
                push_padded_hex(&mut text, branch_target(offset, raw[1]) as usize, 4);
            },
            AddressMode::Zeropage => {
                push_char(&mut text, '$');
                push_byte_hex(&mut text, raw[1]);
            },
            AddressMode::ZeropageX => {
                push_char(&mut text, '$');
                push_byte_hex(&mut text, raw[1]);
                push_char(&mut text, ',');
                push_char(&mut text, 'X');
            },
            AddressMode::ZeropageY => {
                push_char(&mut text, '$');
                push_byte_hex(&mut text, raw[1]);
                push_char(&mut text, ',');
                push_char(&mut text, 'Y');
            },
            AddressMode::Unknown => {
                push_char(&mut text, ';');
                push_char(&mut text, '%');
                push_byte_binary(&mut text, raw[0]);
                if 32 <= raw[0] && raw[0] <= 126 {
                    push_char(&mut text, ' ');
                    push_char(&mut text, '\'');
                    push_char(&mut text, raw[0] as char);
                    push_char(&mut text, '\'');
                }
            },
        }
        text
    }
}

} // verus!
