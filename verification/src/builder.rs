//! An instruction while its bytes are collected: the operation and addressing
//! mode that its opcode byte selected, the bytes seen so far, and where it
//! begins.

use crate::address_mode::AddressMode;
use crate::opcode::{decode_opcode, opcode_entry};
use crate::operation::Operation;
use vstd::prelude::*;

verus! {

/// The mathematical value of an instruction record.
pub struct Record {
    /// Position in the input of the opcode byte.
    pub offset: nat,
    pub operation: Operation,
    pub address_mode: AddressMode,
    /// The bytes of the instruction that were seen, opcode byte first.
    pub raw_bytes: Seq<u8>,
}

impl Record {
    /// The record that begins at `offset` with the opcode byte `token`.
    pub open spec fn opened(offset: nat, token: u8) -> Record {
        Record {
            offset,
            operation: opcode_entry(token).0,
            address_mode: opcode_entry(token).1,
            raw_bytes: seq![token],
        }
    }

    /// The record with one more byte behind those that it has.
    pub open spec fn with_byte(self, token: u8) -> Record {
        Record { raw_bytes: self.raw_bytes.push(token), ..self }
    }

    /// Whether the record has as many bytes as its addressing mode takes.
    pub open spec fn is_satisfied(self) -> bool {
        self.raw_bytes.len() == self.address_mode.spec_length()
    }

    /// Position in the input of the byte after the last one of the record.
    pub open spec fn end(self) -> nat {
        self.offset + self.raw_bytes.len()
    }

    /// A record as the decoder makes them: it has its opcode byte, no more
    /// bytes than its addressing mode takes, and the operation and mode that
    /// the opcode byte selects.
    pub open spec fn well_formed(self) -> bool {
        &&& 1 <= self.raw_bytes.len() <= self.address_mode.spec_length()
        &&& (self.operation, self.address_mode) == opcode_entry(self.raw_bytes[0])
    }
}

/// An instruction record under construction.
#[derive(Debug, PartialEq, Clone)]
pub struct InstructionBuilder {
    pub operation: Operation,
    pub address_mode: AddressMode,
    pub raw_bytes: Vec<u8>,
    pub offset: usize,
}

impl View for InstructionBuilder {
    type V = Record;

    open spec fn view(&self) -> Record {
        Record {
            offset: self.offset as nat,
            operation: self.operation,
            address_mode: self.address_mode,
            raw_bytes: self.raw_bytes@,
        }
    }
}

impl DeepView for InstructionBuilder {
    type V = Record;

    open spec fn deep_view(&self) -> Record {
        self@
    }
}

impl InstructionBuilder {
    /// Begins the instruction whose opcode byte `token` stands at `offset`.
    pub fn new(offset: usize, token: u8) -> (builder: Self)
        ensures
            builder@ == Record::opened(offset as nat, token),
            builder@.well_formed(),
    {
        let (operation, address_mode) = decode_opcode(token);
        let mut raw_bytes: Vec<u8> = Vec::new();
        raw_bytes.push(token);
        InstructionBuilder { offset, operation, address_mode, raw_bytes }
    }

    /// Puts one more byte behind those of the instruction.
    pub fn add(&mut self, token: u8)
        ensures
            final(self)@ == old(self)@.with_byte(token),
            old(self)@.well_formed() && !old(self)@.is_satisfied() ==> final(self)@.well_formed(),
    {
        self.raw_bytes.push(token);
    }

    /// Whether the instruction has as many bytes as its addressing mode
    /// takes.
    pub fn is_satisfied(&self) -> (satisfied: bool)
        ensures
            satisfied == self@.is_satisfied(),
    {
        self.address_mode.length() == self.raw_bytes.len()
    }
}

} // verus!
