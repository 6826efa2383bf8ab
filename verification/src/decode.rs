//! The decoder: one pass over the bytes, from left to right, that cuts them
//! into instruction records.

use crate::address_mode::AddressMode;
use crate::builder::{InstructionBuilder, Record};
use crate::opcode::{lemma_unknown_entry, opcode_entry};
use crate::operation::Operation;
use vstd::prelude::*;

verus! {

/// The record of the instruction whose opcode byte stands at `start`: it
/// takes as many bytes as its addressing mode asks for, or those that are
/// left where the input ends before that.
pub open spec fn record_at(bytes: Seq<u8>, start: nat) -> Record
    recommends
        start < bytes.len(),
{
    let (operation, address_mode) = opcode_entry(bytes[start as int]);
    let end = if start + address_mode.spec_length() <= bytes.len() {
        start + address_mode.spec_length()
    } else {
        bytes.len() as int
    };
    Record { offset: start, operation, address_mode, raw_bytes: bytes.subrange(start as int, end) }
}

/// The records of the instructions from position `start` on, where an
/// instruction begins at `start`.
pub open spec fn decode_from(bytes: Seq<u8>, start: nat) -> Seq<Record>
    decreases bytes.len() - start,
{
    if start < bytes.len() {
        let first = record_at(bytes, start);
        seq![first] + decode_from(bytes, first.end())
    } else {
        Seq::empty()
    }
}

/// The records that a byte sequence decodes to.
pub open spec fn decoding(bytes: Seq<u8>) -> Seq<Record> {
    decode_from(bytes, 0)
}

/// What the byte `token` at `position` does to the records decoded so far:
/// it goes into the last record where that one still lacks bytes, and begins
/// a new record otherwise.
pub open spec fn feed(records: Seq<Record>, position: nat, token: u8) -> Seq<Record> {
    if records.len() > 0 && !records.last().is_satisfied() {
        records.update(records.len() - 1, records.last().with_byte(token))
    } else {
        records.push(Record::opened(position, token))
    }
}

proof fn lemma_decode_from_push(bytes: Seq<u8>, token: u8, start: nat)
    requires
        start <= bytes.len(),
    ensures
        decode_from(bytes.push(token), start) == feed(
            decode_from(bytes, start),
            bytes.len(),
            token,
        ),
    decreases bytes.len() - start,
{
    let longer = bytes.push(token);
    if start == bytes.len() {
        let first = record_at(longer, start);
        assert(first.raw_bytes =~= seq![token]);
        assert(decode_from(longer, first.end()) =~= Seq::<Record>::empty());
    } else {
        let first = record_at(bytes, start);
        let grown = record_at(longer, start);
        assert(longer[start as int] == bytes[start as int]);
        if first.is_satisfied() {
            assert(grown.raw_bytes =~= first.raw_bytes);
            lemma_decode_from_push(bytes, token, first.end());
            let rest = decode_from(bytes, first.end());
            assert(decode_from(longer, start) =~= feed(seq![first] + rest, bytes.len(), token));
        } else {
            assert(grown.raw_bytes =~= first.raw_bytes.push(token));
            assert(decode_from(longer, grown.end()) =~= Seq::<Record>::empty());
        }
    }
}

/// Decoding is one pass from left to right: the records of an input with one
/// more byte are those of the input, fed that byte.
pub proof fn lemma_decoding_push(bytes: Seq<u8>, token: u8)
    ensures
        decoding(bytes.push(token)) == feed(decoding(bytes), bytes.len(), token),
{
    lemma_decode_from_push(bytes, token, 0);
}

/// What holds of the records from `start` on: they lie one behind the other
/// from `start` to the end of the input, each is the record of the
/// instruction at its offset, and all but the last have all their bytes.
proof fn lemma_decode_from_chain(bytes: Seq<u8>, start: nat)
    requires
        start <= bytes.len(),
    ensures
        decode_from(bytes, start).len() == 0 <==> start == bytes.len(),
        decode_from(bytes, start).len() > 0 ==> decode_from(bytes, start)[0].offset == start
            && decode_from(bytes, start).last().end() == bytes.len(),
        forall|i: int|
            0 <= i < decode_from(bytes, start).len() ==> {
                let record = #[trigger] decode_from(bytes, start)[i];
                &&& start <= record.offset < bytes.len()
                &&& record == record_at(bytes, record.offset)
            },
        forall|i: int, j: int|
            0 <= i && j == i + 1 && j < decode_from(bytes, start).len() ==> {
                let record = #[trigger] decode_from(bytes, start)[i];
                &&& record.is_satisfied()
                &&& (#[trigger] decode_from(bytes, start)[j]).offset == record.end()
            },
    decreases bytes.len() - start,
{
    if start < bytes.len() {
        let records = decode_from(bytes, start);
        lemma_decode_from_chain(bytes, record_at(bytes, start).end());
        assert forall|i: int| 0 <= i < records.len() implies {
            let record = #[trigger] records[i];
            &&& start <= record.offset < bytes.len()
            &&& record == record_at(bytes, record.offset)
        } by {}
        assert forall|i: int, j: int| 0 <= i && j == i + 1 && j < records.len() implies {
            let record = #[trigger] records[i];
            &&& record.is_satisfied()
            &&& (#[trigger] records[j]).offset == record.end()
        } by {}
    }
}

/// The record of an instruction has its opcode byte, no more bytes than its
/// addressing mode takes, and ends within the input.
proof fn lemma_record_at(bytes: Seq<u8>, start: nat)
    requires
        start < bytes.len(),
    ensures
        record_at(bytes, start).well_formed(),
        record_at(bytes, start).end() <= bytes.len(),
        record_at(bytes, start).raw_bytes == bytes.subrange(
            start as int,
            record_at(bytes, start).end() as int,
        ),
{
}

proof fn lemma_offsets_increase(bytes: Seq<u8>, i: int, j: int)
    requires
        0 <= i < j < decoding(bytes).len(),
    ensures
        decoding(bytes)[i].end() <= decoding(bytes)[j].offset,
    decreases j - i,
{
    lemma_decode_from_chain(bytes, 0);
    let records = decoding(bytes);
    if i + 1 < j {
        lemma_offsets_increase(bytes, i + 1, j);
        lemma_record_at(bytes, records[i + 1].offset);
    }
}

/// The first `count` records take at least one byte each.
proof fn lemma_count_within(bytes: Seq<u8>, count: int)
    requires
        0 < count <= decoding(bytes).len(),
    ensures
        count <= decoding(bytes)[count - 1].end(),
    decreases count,
{
    lemma_decode_from_chain(bytes, 0);
    let records = decoding(bytes);
    lemma_record_at(bytes, records[count - 1].offset);
    if count > 1 {
        lemma_count_within(bytes, count - 1);
    }
}

/// The records lie one behind the other and cover the input: there is none
/// for an empty input; the first begins at 0; each begins where the one
/// before it ends, so the offsets strictly increase; and the last ends where
/// the input ends.
pub proof fn lemma_offsets(bytes: Seq<u8>)
    ensures
        decoding(bytes).len() == 0 <==> bytes.len() == 0,
        decoding(bytes).len() <= bytes.len(),
        decoding(bytes).len() > 0 ==> decoding(bytes)[0].offset == 0,
        forall|i: int, j: int|
            0 <= i && j == i + 1 && j < decoding(bytes).len() ==> (#[trigger] decoding(
                bytes,
            )[j]).offset == (#[trigger] decoding(bytes)[i]).offset + decoding(
                bytes,
            )[i].raw_bytes.len(),
        forall|i: int, j: int|
            0 <= i < j < decoding(bytes).len() ==> (#[trigger] decoding(bytes)[i]).offset < (
            #[trigger] decoding(bytes)[j]).offset,
        decoding(bytes).len() > 0 ==> decoding(bytes).last().offset + decoding(
            bytes,
        ).last().raw_bytes.len() == bytes.len(),
{
    lemma_decode_from_chain(bytes, 0);
    let records = decoding(bytes);
    assert forall|i: int, j: int| 0 <= i < j < records.len() implies (#[trigger] records[i]).offset
        < (#[trigger] records[j]).offset by {
        lemma_offsets_increase(bytes, i, j);
        lemma_record_at(bytes, records[i].offset);
    }
    if records.len() > 0 {
        lemma_count_within(bytes, records.len() as int);
    }
}

/// Every record has its opcode byte and no more bytes than its addressing
/// mode takes. Every record but the last has exactly that many, and so has
/// the last where the input is long enough to hold them.
pub proof fn lemma_lengths(bytes: Seq<u8>)
    ensures
        forall|i: int|
            0 <= i < decoding(bytes).len() ==> 1 <= (#[trigger] decoding(bytes)[i]).raw_bytes.len()
                <= decoding(bytes)[i].address_mode.spec_length(),
        forall|i: int|
            0 <= i < decoding(bytes).len() - 1 ==> (#[trigger] decoding(bytes)[i]).raw_bytes.len()
                == decoding(bytes)[i].address_mode.spec_length(),
        forall|i: int|
            0 <= i < decoding(bytes).len() && (#[trigger] decoding(bytes)[i]).offset + decoding(
                bytes,
            )[i].address_mode.spec_length() <= bytes.len() ==> decoding(bytes)[i].raw_bytes.len()
                == decoding(bytes)[i].address_mode.spec_length(),
{
    lemma_decode_from_chain(bytes, 0);
    let records = decoding(bytes);
    assert forall|i: int| 0 <= i < records.len() implies 1 <= (#[trigger] records[i]).raw_bytes.len()
        <= records[i].address_mode.spec_length() by {
        lemma_record_at(bytes, records[i].offset);
    }
    assert forall|i: int| 0 <= i < records.len() - 1 implies (#[trigger] records[i]).raw_bytes.len()
        == records[i].address_mode.spec_length() by {
        assert(records[i + 1].offset == records[i].end());
    }
    assert forall|i: int|
        0 <= i < records.len() && (#[trigger] records[i]).offset
            + records[i].address_mode.spec_length() <= bytes.len() implies records[i].raw_bytes.len()
        == records[i].address_mode.spec_length() by {
        lemma_record_at(bytes, records[i].offset);
    }
}

/// Every record holds the bytes of the input from its offset on, and the
/// operation and addressing mode that the first of them selects; nothing
/// after that byte has a part in the choice.
pub proof fn lemma_records_hold_input(bytes: Seq<u8>)
    ensures
        forall|i: int|
            0 <= i < decoding(bytes).len() ==> {
                let record = #[trigger] decoding(bytes)[i];
                &&& record.end() <= bytes.len()
                &&& record.raw_bytes == bytes.subrange(record.offset as int, record.end() as int)
                &&& (record.operation, record.address_mode) == opcode_entry(
                    bytes[record.offset as int],
                )
            },
{
    lemma_decode_from_chain(bytes, 0);
    let records = decoding(bytes);
    assert forall|i: int| 0 <= i < records.len() implies {
        let record = #[trigger] records[i];
        &&& record.end() <= bytes.len()
        &&& record.raw_bytes == bytes.subrange(record.offset as int, record.end() as int)
        &&& (record.operation, record.address_mode) == opcode_entry(bytes[record.offset as int])
    } by {
        lemma_record_at(bytes, records[i].offset);
    }
}

/// A byte that selects no operation is an instruction of its own: its record
/// holds that byte alone.
pub proof fn lemma_undefined_takes_one_byte(bytes: Seq<u8>, i: int)
    requires
        0 <= i < decoding(bytes).len(),
        decoding(bytes)[i].operation == Operation::Unknown,
    ensures
        decoding(bytes)[i].address_mode == AddressMode::Unknown,
        decoding(bytes)[i].raw_bytes == seq![bytes[decoding(bytes)[i].offset as int]],
{
    lemma_decode_from_chain(bytes, 0);
    let record = decoding(bytes)[i];
    lemma_record_at(bytes, record.offset);
    lemma_unknown_entry(bytes[record.offset as int]);
}

/// Cuts a byte sequence into instruction records.
///
/// Each byte either begins an instruction, whose operation and addressing
/// mode it selects, or goes into the instruction before it while that one
/// lacks bytes. Where the input ends inside an instruction, that last record
/// is shorter than its addressing mode asks for.
pub fn decode(bytes: &[u8]) -> (records: Vec<InstructionBuilder>)
    ensures
        records.deep_view() == decoding(bytes@),
{
    let mut records: Vec<InstructionBuilder> = Vec::new();
    let mut position: usize = 0;
    while position < bytes.len()
        invariant
            position <= bytes.len(),
            records.deep_view() == decoding(bytes@.take(position as int)),
        decreases bytes.len() - position,
    {
        let token = bytes[position];
        let count = records.len();
        if count > 0 && !records[count - 1].is_satisfied() {
            records[count - 1].add(token);
        } else {
            records.push(InstructionBuilder::new(position, token));
        }
        proof {
            lemma_decoding_push(bytes@.take(position as int), token);
            assert(bytes@.take(position as int).push(token) =~= bytes@.take(position + 1));
        }
        position += 1;
    }
    proof {
        assert(bytes@.take(position as int) =~= bytes@);
    }
    records
}

} // verus!
