//! A miniature of the disassembler: the four instructions BRK, LDA and LDY
//! with an immediate operand, and JSR, listed in lower-case hexadecimal.

use crate::text::{
    join, lower_hex, pad_left, pad_right, push_char, push_left_aligned, push_lower_hex,
    push_repeat, repeat,
};
use vstd::prelude::*;
use vstd::string::*;

verus! {

/// One of the four instructions.
#[derive(Debug, PartialEq, Eq, Clone, Copy, Structural)]
#[allow(clippy::upper_case_acronyms)]
pub enum Instruction {
    BRK,
    LDA,
    LDY,
    JSR,
}

impl Instruction {
    /// The instruction that an opcode byte selects, if it selects one.
    pub open spec fn of_opcode(value: u8) -> Option<Instruction> {
        if value == 0x00 {
            Some(Instruction::BRK)
        } else if value == 0xa9 {
            Some(Instruction::LDA)
        } else if value == 0xa0 {
            Some(Instruction::LDY)
        } else if value == 0x20 {
            Some(Instruction::JSR)
        } else {
            None
        }
    }

    /// The number of bytes of the instruction, opcode byte included.
    pub open spec fn spec_length(&self) -> usize {
        match self {
            Instruction::BRK => 1,
            Instruction::LDA | Instruction::LDY => 2,
            Instruction::JSR => 3,
        }
    }

    /// Whether `args`, the bytes of the instruction with the opcode byte
    /// first, hold the operand bytes that the instruction is written with.
    pub open spec fn has_operands(&self, args: Seq<u8>) -> bool {
        *self != Instruction::BRK ==> args.len() >= self.spec_length()
    }

    /// How the instruction is written: the mnemonic, and behind it the
    /// operand, each of its bytes in hexadecimal without a leading zero,
    /// the second operand byte of an address first.
    pub open spec fn text(&self, args: Seq<u8>) -> Seq<char>
        recommends
            self.has_operands(args),
    {
        match self {
            Instruction::BRK => "BRK"@,
            Instruction::LDA => "LDA #$"@ + lower_hex(args[1] as nat),
            Instruction::LDY => "LDY #$"@ + lower_hex(args[1] as nat),
            Instruction::JSR => "JSR $"@ + lower_hex(args[2] as nat) + lower_hex(args[1] as nat),
        }
    }

    /// The instruction that an opcode byte selects.
    pub fn from(value: u8) -> (instruction: Self)
        requires
            Instruction::of_opcode(value) is Some,
        ensures
            Instruction::of_opcode(value) == Some(instruction),
    {
        if value == 0x00 {
            Instruction::BRK
        } else if value == 0xa9 {
            Instruction::LDA
        } else if value == 0xa0 {
            Instruction::LDY
        } else {
            Instruction::JSR
        }
    }

    /// The number of bytes of the instruction, opcode byte included.
    #[verifier::when_used_as_spec(spec_length)]
    pub fn length(&self) -> (n: usize)
        ensures
            n == self.spec_length(),
    {
        match self {
            Instruction::BRK => 1,
            Instruction::LDA | Instruction::LDY => 2,
            Instruction::JSR => 3,
        }
    }

    /// Writes the instruction whose bytes are `args`, opcode byte first.
    pub fn format(&self, args: &[u8]) -> (text: String)
        requires
            self.has_operands(args@),
        ensures
            text@ == self.text(args@),
    {
        match self {
            Instruction::BRK => String::from_str("BRK"),
            Instruction::LDA => {
                let mut text = String::from_str("LDA #$");
                push_lower_hex(&mut text, args[1] as usize);
                text
            },
            Instruction::LDY => {
                let mut text = String::from_str("LDY #$");
                push_lower_hex(&mut text, args[1] as usize);
                text
            },
            Instruction::JSR => {
                let mut text = String::from_str("JSR $");
                push_lower_hex(&mut text, args[2] as usize);
                push_lower_hex(&mut text, args[1] as usize);
                text
            },
        }
    }
}

/// The mathematical value of a row.
pub struct RowView {
    pub instruction: Instruction,
    /// The bytes of the instruction that were seen, opcode byte first.
    pub raw: Seq<u8>,
    /// Position in the input of the opcode byte.
    pub offset: nat,
}

impl RowView {
    /// Whether the row has as many bytes as its instruction takes.
    pub open spec fn is_satisfied(self) -> bool {
        self.instruction.spec_length() == self.raw.len()
    }

    /// The line of the row: `0x` and the offset in at least four
    /// hexadecimal digits, a space, the bytes in a column of eight
    /// characters, five spaces, and the instruction.
    pub open spec fn line(self) -> Seq<char>
        recommends
            self.instruction.has_operands(self.raw),
    {
        seq!['0', 'x'] + pad_left(lower_hex(self.offset), 4, '0') + seq![' '] + pad_right(
            join(self.raw.map_values(|b: u8| lower_hex(b as nat)), seq![' ']),
            8,
            ' ',
        ) + repeat(' ', 5) + self.instruction.text(self.raw)
    }
}

/// A line of the listing while its bytes are collected.
#[derive(Debug)]
pub struct Row {
    pub instruction: Instruction,
    pub raw: Vec<u8>,
    pub offset: usize,
}

impl View for Row {
    type V = RowView;

    open spec fn view(&self) -> RowView {
        RowView { instruction: self.instruction, raw: self.raw@, offset: self.offset as nat }
    }
}

impl DeepView for Row {
    type V = RowView;

    open spec fn deep_view(&self) -> RowView {
        self@
    }
}

impl Row {
    /// Begins the row of the instruction whose opcode byte `token` stands
    /// at `offset`.
    pub fn new(offset: usize, token: u8) -> (row: Self)
        requires
            Instruction::of_opcode(token) is Some,
        ensures
            row@ == (RowView {
                instruction: Instruction::of_opcode(token)->0,
                raw: seq![token],
                offset: offset as nat,
            }),
    {
        let mut raw: Vec<u8> = Vec::new();
        raw.push(token);
        Row { offset, instruction: Instruction::from(token), raw }
    }

    /// Puts one more byte behind those of the row.
    pub fn add(&mut self, token: u8)
        ensures
            final(self)@ == (RowView { raw: old(self)@.raw.push(token), ..old(self)@ }),
    {
        self.raw.push(token);
    }

    /// Whether the row has as many bytes as its instruction takes.
    pub fn is_satisfied(&self) -> (satisfied: bool)
        ensures
            satisfied == self@.is_satisfied(),
    {
        self.instruction.length() == self.raw.len()
    }

    /// Writes the line of the row.
    pub fn to_string(&self) -> (line: String)
        requires
            self.instruction.has_operands(self.raw@),
        ensures
            line@ == self@.line(),
    {
        let mut bytes = String::new();
        let mut i: usize = 0;
        while i < self.raw.len()
            invariant
                i <= self.raw.len(),
                bytes@ == join(
                    self.raw@.take(i as int).map_values(|b: u8| lower_hex(b as nat)),
                    seq![' '],
                ),
            decreases self.raw.len() - i,
        {
            if i > 0 {
                push_char(&mut bytes, ' ');
            }
            push_lower_hex(&mut bytes, self.raw[i] as usize);
            proof {
                let parts = self.raw@.take(i + 1).map_values(|b: u8| lower_hex(b as nat));
                assert(parts.drop_last() =~= self.raw@.take(i as int).map_values(
                    |b: u8| lower_hex(b as nat),
                ));
            }
            i += 1;
        }
        proof {
            assert(self.raw@.take(i as int) =~= self.raw@);
        }
        let mut line = String::new();
        push_char(&mut line, '0');
        push_char(&mut line, 'x');
        let mut digits = String::new();
        push_lower_hex(&mut digits, self.offset);
        let len = digits.as_str().unicode_len();
        if len < 4 {
            push_repeat(&mut line, '0', 4 - len);
        }
        line.append(digits.as_str());
        push_char(&mut line, ' ');
        push_left_aligned(&mut line, bytes.as_str(), 8);
        push_repeat(&mut line, ' ', 5);
        let text = self.instruction.format(self.raw.as_slice());
        line.append(text.as_str());
        line
    }
}

/// Whether the bytes from `start` on are instructions of the four, one
/// behind the other, the last of them with all its bytes.
pub open spec fn listable_from(data: Seq<u8>, start: nat) -> bool
    decreases data.len() - start,
{
    if start < data.len() {
        match Instruction::of_opcode(data[start as int]) {
            Some(instruction) => start + instruction.spec_length() <= data.len() && listable_from(
                data,
                start + instruction.spec_length() as nat,
            ),
            None => false,
        }
    } else {
        true
    }
}

/// Whether a byte sequence is made of instructions of the four.
pub open spec fn listable(data: Seq<u8>) -> bool {
    listable_from(data, 0)
}

/// The rows of the instructions from position `start` on, where an
/// instruction begins at `start`.
pub open spec fn rows_from(data: Seq<u8>, start: nat) -> Seq<RowView>
    recommends
        listable_from(data, start),
    decreases data.len() - start,
{
    if start < data.len() {
        match Instruction::of_opcode(data[start as int]) {
            Some(instruction) => if start + instruction.spec_length() <= data.len() {
                seq![
                    RowView {
                        instruction,
                        raw: data.subrange(start as int, start + instruction.spec_length()),
                        offset: start,
                    },
                ] + rows_from(data, start + instruction.spec_length() as nat)
            } else {
                Seq::empty()
            },
            None => Seq::empty(),
        }
    } else {
        Seq::empty()
    }
}

/// The lines that a byte sequence is listed as.
pub open spec fn lines(data: Seq<u8>) -> Seq<Seq<char>>
    recommends
        listable(data),
{
    rows_from(data, 0).map_values(|row: RowView| row.line())
}

/// The body of a request: the bytes to list.
#[derive(Debug)]
pub struct Payload {
    pub data: Vec<u8>,
}

/// The body of an answer: the lines of the listing.
#[derive(Debug, PartialEq)]
pub struct Output {
    pub disassembly: Vec<String>,
}

/// Whether a byte sequence is made of instructions of the four.
pub fn is_listable(data: &[u8]) -> (ok: bool)
    ensures
        ok == listable(data@),
{
    let mut position: usize = 0;
    while position < data.len()
        invariant
            position <= data.len(),
            listable(data@) == listable_from(data@, position as nat),
        decreases data.len() - position,
    {
        let token = data[position];
        if !(token == 0x00 || token == 0xa9 || token == 0xa0 || token == 0x20) {
            return false;
        }
        let length = Instruction::from(token).length();
        if data.len() - position < length {
            return false;
        }
        position += length;
    }
    true
}

/// Lists a byte sequence made of instructions of the four, one line to an
/// instruction.
pub fn disassemble(data: Vec<u8>) -> (output: Output)
    requires
        listable(data@),
    ensures
        output.disassembly.deep_view() == lines(data@),
{
    let mut rows: Vec<Row> = Vec::new();
    let mut position: usize = 0;
    while position < data.len()
        invariant
            position <= data.len(),
            rows.len() == 0 <==> position == 0,
            rows.len() > 0 ==> {
                let last = rows.deep_view().last();
                &&& last.offset < position <= last.offset + last.instruction.spec_length()
                &&& Instruction::of_opcode(data@[last.offset as int]) == Some(last.instruction)
                &&& last.raw == data@.subrange(last.offset as int, position as int)
                &&& listable_from(data@, last.offset)
                &&& rows_from(data@, 0) == rows.deep_view().drop_last() + rows_from(
                    data@,
                    last.offset,
                )
            },
            listable(data@),
        decreases data.len() - position,
    {
        let token = data[position];
        let count = rows.len();
        if count > 0 && !rows[count - 1].is_satisfied() {
            rows[count - 1].add(token);
        } else {
            assert(listable_from(data@, position as nat));
            rows.push(Row::new(position, token));
        }
        position += 1;
    }
    let mut disassembly: Vec<String> = Vec::new();
    proof {
        assert(rows_from(data@, position as nat) =~= Seq::<RowView>::empty());
        lemma_rows_have_operands(data@, 0);
    }
    let mut i: usize = 0;
    while i < rows.len()
        invariant
            i <= rows.len(),
            disassembly.len() == i,
            rows.deep_view() == rows_from(data@, 0),
            forall|k: int|
                0 <= k < rows.len() ==> (#[trigger] rows_from(data@, 0)[k]).instruction.has_operands(
                    rows_from(data@, 0)[k].raw,
                ),
            forall|k: int| 0 <= k < i ==> (#[trigger] disassembly[k])@ == rows[k]@.line(),
        decreases rows.len() - i,
    {
        assert(rows[i as int]@ == rows.deep_view()[i as int]);
        disassembly.push(rows[i].to_string());
        i += 1;
    }
    Output { disassembly }
}

/// Every row of a listing has the operand bytes of its instruction.
proof fn lemma_rows_have_operands(data: Seq<u8>, start: nat)
    ensures
        forall|k: int|
            0 <= k < rows_from(data, start).len() ==> (#[trigger] rows_from(
                data,
                start,
            )[k]).instruction.has_operands(rows_from(data, start)[k].raw),
    decreases data.len() - start,
{
    if start < data.len() {
        match Instruction::of_opcode(data[start as int]) {
            Some(instruction) => {
                if start + instruction.spec_length() <= data.len() {
                    let next = start + instruction.spec_length() as nat;
                    lemma_rows_have_operands(data, next);
                    let rows = rows_from(data, start);
                    assert forall|k: int| 0 <= k < rows.len() implies (#[trigger] rows[k]).instruction.has_operands(
                        rows[k].raw,
                    ) by {}
                }
            },
            None => {},
        }
    }
}

} // verus!
