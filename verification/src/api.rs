//! What the JSON endpoints compute: the listing of the bytes of a request,
//! as instructions or as lines.

use crate::instruction::{disassemble, listing, Instruction, Listed};
use vstd::prelude::*;

verus! {

/// The body of a request: the bytes to list.
#[derive(Debug)]
pub struct Input {
    pub bytes: Vec<u8>,
}

/// The listing as instructions.
#[derive(Debug, PartialEq, Eq, Clone)]
pub struct StructuredDisassembly {
    pub instructions: Vec<Instruction>,
}

/// The listing as lines.
#[derive(Debug, PartialEq, Eq, Clone)]
pub struct FormattedDisassembly {
    pub instructions: Vec<String>,
}

/// The lines that a byte sequence is listed as.
pub open spec fn listing_lines(bytes: Seq<u8>) -> Seq<Seq<char>> {
    listing(bytes).map_values(|listed: Listed| listed.line())
}

/// The JSON endpoints.
#[derive(Debug)]
pub struct Api;

impl Api {
    /// Lists the bytes of a request as instructions.
    pub fn structured_handler(&self, payload: Input) -> (body: StructuredDisassembly)
        ensures
            body.instructions.deep_view() == listing(payload.bytes@),
    {
        let instructions = disassemble(payload.bytes.as_slice());
        StructuredDisassembly { instructions }
    }

    /// Lists the bytes of a request as lines.
    pub fn formatted_handler(&self, payload: Input) -> (body: FormattedDisassembly)
        ensures
            body.instructions.deep_view() == listing_lines(payload.bytes@),
    {
        let structured = disassemble(payload.bytes.as_slice());
        let mut instructions: Vec<String> = Vec::new();
        for instruction in it: structured.into_iter()
            invariant
                it.seq() == structured@,
                instructions.len() == it.index(),
                forall|i: int|
                    0 <= i < it.index() ==> (#[trigger] instructions[i])@ == structured[i]@.line(),
        {
            instructions.push(instruction.to_string());
        }
        FormattedDisassembly { instructions }
    }
}

} // verus!
