//! An instruction as it is listed: its offset and the three texts of a
//! listing line, and the line itself.

use crate::builder::{InstructionBuilder, Record};
use crate::decode::{decode, decoding};
use crate::operation::Operation;
use crate::text::{
    bytes_hex, pad_left, pad_right, push_bytes_hex, push_left_aligned, push_padded_hex,
    push_repeat, repeat, upper_hex,
};
use vstd::prelude::*;
use vstd::std_specs::convert::FromSpecImpl;
use vstd::string::*;

verus! {

/// The mathematical value of a listed instruction.
pub struct Listed {
    /// Position in the input of the opcode byte.
    pub offset: nat,
    /// The bytes of the instruction in hexadecimal.
    pub bytes: Seq<char>,
    /// The mnemonic.
    pub operation: Seq<char>,
    /// The operand.
    pub address: Seq<char>,
}

impl Listed {
    /// The mnemonic and the operand as they stand at the end of a line: the
    /// mnemonic alone where there is no operand, both with one space between
    /// them, or with sixteen where the mnemonic is that of an unknown
    /// operation.
    pub open spec fn statement(self) -> Seq<char> {
        if self.address.len() == 0 {
            self.operation
        } else if self.operation == Operation::Unknown.mnemonic() {
            self.operation + repeat(' ', 16) + self.address
        } else {
            self.operation + seq![' '] + self.address
        }
    }

    /// The listing line: the offset in at least four hexadecimal digits,
    /// three spaces, the bytes in a column of eight characters, six spaces,
    /// and the statement.
    pub open spec fn line(self) -> Seq<char> {
        pad_left(upper_hex(self.offset), 4, '0') + repeat(' ', 3) + pad_right(self.bytes, 8, ' ')
            + repeat(' ', 6) + self.statement()
    }
}

impl Record {
    /// The record as it is listed: its bytes in hexadecimal, the mnemonic of
    /// its operation, and its operand as its addressing mode writes it.
    pub open spec fn listed(self) -> Listed {
        Listed {
            offset: self.offset,
            bytes: bytes_hex(self.raw_bytes),
            operation: self.operation.mnemonic(),
            address: self.address_mode.operand_text(self.raw_bytes, self.offset),
        }
    }
}

/// The instructions that a byte sequence is listed as, in the order of the
/// input.
pub open spec fn listing(bytes: Seq<u8>) -> Seq<Listed> {
    decoding(bytes).map_values(|record: Record| record.listed())
}

/// A listed instruction.
#[derive(Debug, PartialEq, Eq, Clone)]
pub struct Instruction {
    pub offset: usize,
    pub bytes: String,
    pub operation: String,
    pub address: String,
}

impl View for Instruction {
    type V = Listed;

    open spec fn view(&self) -> Listed {
        Listed {
            offset: self.offset as nat,
            bytes: self.bytes@,
            operation: self.operation@,
            address: self.address@,
        }
    }
}

impl DeepView for Instruction {
    type V = Listed;

    open spec fn deep_view(&self) -> Listed {
        self@
    }
}

impl From<InstructionBuilder> for Instruction {
    /// Renders the texts of a record.
    fn from(value: InstructionBuilder) -> (instruction: Self)
        ensures
            instruction@ == value@.listed(),
    {
        let mut bytes = String::new();
        push_bytes_hex(&mut bytes, value.raw_bytes.as_slice());
        Instruction {
            offset: value.offset,
            bytes,
            address: value.address_mode.format(value.raw_bytes.as_slice(), value.offset),
            operation: value.operation.to_string(),
        }
    }
}

/// What `from` returns is stated by its `ensures`, over the views: ghost
/// code cannot build the strings of an `Instruction`.
impl FromSpecImpl<InstructionBuilder> for Instruction {
    open spec fn obeys_from_spec() -> bool {
        false
    }

    open spec fn from_spec(value: InstructionBuilder) -> Self {
        arbitrary()
    }
}

impl Instruction {
    /// Writes the listing line of the instruction.
    pub fn to_string(&self) -> (line: String)
        ensures
            line@ == self@.line(),
    {
        let mut line = String::new();
        push_padded_hex(&mut line, self.offset, 4);
        push_repeat(&mut line, ' ', 3);
        push_left_aligned(&mut line, self.bytes.as_str(), 8);
        push_repeat(&mut line, ' ', 6);
        line.append(self.operation.as_str());
        if !self.address.as_str().is_empty() {
            let unknown = Operation::Unknown.to_string();
            if self.operation == unknown {
                push_repeat(&mut line, ' ', 16);
            } else {
                push_repeat(&mut line, ' ', 1);
            }
            line.append(self.address.as_str());
        }
        line
    }
}

/// Rendering a record twice gives the same texts twice.
pub proof fn lemma_rendering_repeats(
    record: InstructionBuilder,
    first: Instruction,
    second: Instruction,
)
    requires
        call_ensures(Instruction::from, (record,), first),
        call_ensures(Instruction::from, (record,), second),
    ensures
        first@ == second@,
        first@.line() == second@.line(),
{
}

/// Writing an instruction twice gives the same line twice.
pub proof fn lemma_line_repeats(instruction: Instruction, first: String, second: String)
    requires
        call_ensures(Instruction::to_string, (&instruction,), first),
        call_ensures(Instruction::to_string, (&instruction,), second),
    ensures
        first@ == second@,
{
}

/// Decodes a byte sequence and renders each instruction.
pub fn disassemble(bytes: &[u8]) -> (instructions: Vec<Instruction>)
    ensures
        instructions.deep_view() == listing(bytes@),
{
    let records = decode(bytes);
    let mut instructions: Vec<Instruction> = Vec::new();
    for record in it: records.into_iter()
        invariant
            it.seq() == records@,
            instructions.len() == it.index(),
            forall|i: int| 0 <= i < it.index() ==> (#[trigger] instructions[i])@ == records[i]@.listed(),
    {
        instructions.push(Instruction::from(record));
    }
    instructions
}

} // verus!
