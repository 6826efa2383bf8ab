//! What the web pages compute: the bytes that a text of hexadecimal pairs
//! stands for, with the pairs that stand for none, and the hexadecimal dump
//! of a file.

use crate::instruction::{disassemble, listing, Instruction};
use crate::text::{byte_hex, bytes_hex, join, lemma_bytes_hex_push, push_byte_hex, push_char};
use vstd::prelude::*;
use vstd::slice::slice_subrange;
use vstd::string::*;

verus! {

/// Whether a character is ASCII whitespace: space, horizontal tab, line
/// feed, form feed or carriage return.
pub open spec fn is_ascii_whitespace(c: char) -> bool {
    c == ' ' || c == '\t' || c == '\n' || c == '\x0C' || c == '\r'
}

/// `items` cut into runs of `size`, the last of which holds what is left.
pub open spec fn chunks<A>(items: Seq<A>, size: nat) -> Seq<Seq<A>>
    recommends
        size > 0,
{
    Seq::new(
        ((items.len() + size - 1) / (size as int)) as nat,
        |k: int|
            items.subrange(
                k * size,
                if (k + 1) * size <= items.len() {
                    (k + 1) * size
                } else {
                    items.len() as int
                },
            ),
    )
}

/// The value of a hexadecimal digit, upper or lower case.
pub open spec fn hex_digit_value(c: char) -> Option<nat> {
    if '0' <= c <= '9' {
        Some((c as int - '0' as int) as nat)
    } else if 'a' <= c <= 'f' {
        Some((c as int - 'a' as int + 10) as nat)
    } else if 'A' <= c <= 'F' {
        Some((c as int - 'A' as int + 10) as nat)
    } else {
        None
    }
}

/// The number that a run of hexadecimal digits stands for, most significant
/// digit first; `None` where a character is no digit.
pub open spec fn hex_value(digits: Seq<char>) -> Option<nat>
    decreases digits.len(),
{
    if digits.len() == 0 {
        Some(0)
    } else {
        match (hex_value(digits.drop_last()), hex_digit_value(digits.last())) {
            (Some(high), Some(low)) => Some(16 * high + low),
            _ => None,
        }
    }
}

/// The byte that a token stands for: one or more hexadecimal digits, and
/// nothing else, whose value is at most 255. Any other token stands for no
/// byte.
pub open spec fn parse_hex_byte(token: Seq<char>) -> Option<u8> {
    if token.len() == 0 {
        None
    } else {
        match hex_value(token) {
            Some(value) => if value <= 255 {
                Some(value as u8)
            } else {
                None
            },
            None => None,
        }
    }
}

/// The tokens of a text: what is left of it without ASCII whitespace, two
/// characters at a time.
pub open spec fn tokens(text: Seq<char>) -> Seq<Seq<char>> {
    chunks(text.filter(|c: char| !is_ascii_whitespace(c)), 2)
}

/// The bytes of the tokens that stand for one, in their order.
pub open spec fn parsed_bytes(tokens: Seq<Seq<char>>) -> Seq<u8> {
    tokens.filter_map(|token: Seq<char>| parse_hex_byte(token))
}

/// Each token with its position among the tokens.
pub open spec fn numbered(tokens: Seq<Seq<char>>) -> Seq<(nat, Seq<char>)> {
    Seq::new(tokens.len(), |k: int| (k as nat, tokens[k]))
}

/// The tokens that stand for no byte, each with its position, in their
/// order.
pub open spec fn illegal_tokens(tokens: Seq<Seq<char>>) -> Seq<(nat, Seq<char>)> {
    numbered(tokens).filter(|entry: (nat, Seq<char>)| parse_hex_byte(entry.1) is None)
}

/// The hexadecimal dump of a byte sequence: eight bytes to a line, a space
/// between the bytes of a line, a line feed between the lines.
pub open spec fn hex_dump(bytes: Seq<u8>) -> Seq<char> {
    join(chunks(bytes, 8).map_values(|row: Seq<u8>| bytes_hex(row)), seq!['\n'])
}

/// The positions and texts of a list of illegal tokens.
pub open spec fn illegals_view(illegals: Seq<(usize, String)>) -> Seq<(nat, Seq<char>)> {
    illegals.map_values(|entry: (usize, String)| (entry.0 as nat, entry.1@))
}

/// What the form sends: a text of hexadecimal pairs.
#[derive(Debug)]
pub struct TableParams {
    pub bytes: String,
}

/// What the page of a listing shows.
#[derive(Debug)]
pub struct TableTemplate {
    pub lines: Vec<Instruction>,
}

/// What the page of a refused text shows: the tokens that stand for no
/// byte, each with its position among the tokens.
#[derive(Debug)]
pub struct TableErrorTemplate {
    pub illegals: Vec<(usize, String)>,
}

/// The pages of the web front end.
#[derive(Debug)]
pub struct Frontend;

/// Whether a character is ASCII whitespace.
pub fn is_whitespace(c: char) -> (r: bool)
    ensures
        r == is_ascii_whitespace(c),
{
    c == ' ' || c == '\t' || c == '\n' || c == '\x0C' || c == '\r'
}

/// The characters of a text that are not ASCII whitespace.
pub fn strip_whitespace(text: &str) -> (kept: Vec<char>)
    ensures
        kept@ == text@.filter(|c: char| !is_ascii_whitespace(c)),
{
    let mut kept: Vec<char> = Vec::new();
    for c in it: text.chars()
        invariant
            it.seq() == text@,
            kept@ == text@.take(it.index() as int).filter(|c: char| !is_ascii_whitespace(c)),
    {
        proof {
            assert(text@.take(it.index() + 1) =~= text@.take(it.index() as int).push(c));
            text@.take(it.index() as int).lemma_filter_push(c, |c: char| !is_ascii_whitespace(c));
        }
        if !is_whitespace(c) {
            kept.push(c);
        }
    }
    proof {
        assert(text@.take(text@.len() as int) =~= text@);
    }
    kept
}

/// The value of a hexadecimal digit.
pub fn hex_digit_of(c: char) -> (value: Option<u8>)
    ensures
        match value {
            Some(v) => hex_digit_value(c) == Some(v as nat) && v < 16,
            None => hex_digit_value(c) is None,
        },
{
    if '0' <= c && c <= '9' {
        Some((c as u32 - '0' as u32) as u8)
    } else if 'a' <= c && c <= 'f' {
        Some((c as u32 - 'a' as u32 + 10) as u8)
    } else if 'A' <= c && c <= 'F' {
        Some((c as u32 - 'A' as u32 + 10) as u8)
    } else {
        None
    }
}

/// A run of digits has no value where one of its beginnings has none, and
/// no smaller value than any of its beginnings.
proof fn lemma_hex_value_grows(digits: Seq<char>, count: int)
    requires
        0 <= count <= digits.len(),
    ensures
        hex_value(digits.take(count)) is None ==> hex_value(digits) is None,
        hex_value(digits) is Some ==> hex_value(digits.take(count))->0 <= hex_value(digits)->0,
    decreases digits.len() - count,
{
    if count < digits.len() {
        assert(digits.drop_last().take(count) =~= digits.take(count));
        lemma_hex_value_grows(digits.drop_last(), count);
    } else {
        assert(digits.take(count) =~= digits);
    }
}

/// Reads a token as a byte in hexadecimal.
pub fn read_hex_byte(token: &[char]) -> (value: Option<u8>)
    ensures
        value == parse_hex_byte(token@),
{
    if token.len() == 0 {
        return None;
    }
    let mut value: u32 = 0;
    let mut i: usize = 0;
    while i < token.len()
        invariant
            i <= token.len(),
            0 < token.len(),
            hex_value(token@.take(i as int)) == Some(value as nat),
            value <= 255,
        decreases token.len() - i,
    {
        proof {
            assert(token@.take(i + 1).drop_last() =~= token@.take(i as int));
            lemma_hex_value_grows(token@, i + 1);
        }
        match hex_digit_of(token[i]) {
            None => {
                return None;
            },
            Some(low) => {
                let next: u32 = value * 16 + low as u32;
                if next > 255 {
                    return None;
                }
                value = next;
            },
        }
        i += 1;
    }
    proof {
        assert(token@.take(i as int) =~= token@);
    }
    Some(value as u8)
}

/// The characters of a token as a string.
fn token_text(token: &[char]) -> (text: String)
    ensures
        text@ == token@,
{
    let mut text = String::new();
    let mut i: usize = 0;
    while i < token.len()
        invariant
            i <= token.len(),
            text@ == token@.take(i as int),
        decreases token.len() - i,
    {
        push_char(&mut text, token[i]);
        i += 1;
    }
    text
}

/// What one more token adds to the bytes and to the illegal tokens.
proof fn lemma_next_token(all: Seq<Seq<char>>, index: int)
    requires
        0 <= index < all.len(),
    ensures
        parsed_bytes(all.take(index + 1)) == match parse_hex_byte(all[index]) {
            Some(b) => parsed_bytes(all.take(index)).push(b),
            None => parsed_bytes(all.take(index)),
        },
        illegal_tokens(all.take(index + 1)) == match parse_hex_byte(all[index]) {
            Some(b) => illegal_tokens(all.take(index)),
            None => illegal_tokens(all.take(index)).push((index as nat, all[index])),
        },
{
    all.lemma_filter_map_take_succ(|token: Seq<char>| parse_hex_byte(token), index);
    let before = numbered(all.take(index));
    let entry = (index as nat, all[index]);
    assert(numbered(all.take(index + 1)) =~= before.push(entry));
    before.lemma_filter_push(entry, |entry: (nat, Seq<char>)| parse_hex_byte(entry.1) is None);
}

/// One more byte adds its two digits to the dump of the bytes before it:
/// on a new line where the last line is full, behind a space otherwise.
pub proof fn lemma_hex_dump_push(bytes: Seq<u8>, b: u8)
    ensures
        hex_dump(bytes.push(b)) == hex_dump(bytes) + (if bytes.len() == 0 {
            Seq::<char>::empty()
        } else if bytes.len() % 8 == 0 {
            seq!['\n']
        } else {
            seq![' ']
        }) + byte_hex(b),
{
    let rows = chunks(bytes, 8);
    let longer = chunks(bytes.push(b), 8);
    let texts = rows.map_values(|row: Seq<u8>| bytes_hex(row));
    let longer_texts = longer.map_values(|row: Seq<u8>| bytes_hex(row));
    if bytes.len() % 8 == 0 {
        assert(longer =~~= rows.push(seq![b]));
        assert(longer_texts.drop_last() =~= texts);
        lemma_bytes_hex_push(Seq::<u8>::empty(), b);
    } else {
        let last = rows.last();
        assert(longer =~~= rows.update(rows.len() - 1, last.push(b)));
        lemma_bytes_hex_push(last, b);
        assert(longer_texts.drop_last() =~= texts.drop_last());
    }
}

impl Frontend {
    /// Reads the text of the form as bytes in hexadecimal, two characters to
    /// a byte, whitespace left out. Where every token stands for a byte, the
    /// page lists the bytes as instructions; otherwise it names the tokens
    /// that stand for none.
    pub fn table(&self, params: TableParams) -> (page: Result<TableTemplate, TableErrorTemplate>)
        ensures
            page is Ok <==> illegal_tokens(tokens(params.bytes@)).len() == 0,
            match page {
                Ok(table) => table.lines.deep_view() == listing(
                    parsed_bytes(tokens(params.bytes@)),
                ),
                Err(error) => illegals_view(error.illegals@) == illegal_tokens(
                    tokens(params.bytes@),
                ),
            },
    {
        let kept = strip_whitespace(params.bytes.as_str());
        let mut bytes: Vec<u8> = Vec::new();
        let mut illegals: Vec<(usize, String)> = Vec::new();
        let mut index: usize = 0;
        let mut start: usize = 0;
        let ghost all = chunks(kept@, 2);
        while start < kept.len()
            invariant
                start <= kept.len(),
                all == chunks(kept@, 2),
                start < kept.len() ==> start == 2 * index,
                start == kept.len() ==> index == all.len(),
                index <= all.len(),
                bytes@ == parsed_bytes(all.take(index as int)),
                illegals_view(illegals@) == illegal_tokens(all.take(index as int)),
            decreases kept.len() - start,
        {
            let end: usize = if kept.len() - start >= 2 {
                start + 2
            } else {
                kept.len()
            };
            let token = slice_subrange(kept.as_slice(), start, end);
            proof {
                lemma_next_token(all, index as int);
            }
            match read_hex_byte(token) {
                Some(b) => {
                    bytes.push(b);
                },
                None => {
                    let text = token_text(token);
                    illegals.push((index, text));
                },
            }
            start = end;
            index += 1;
        }
        proof {
            assert(all.take(index as int) =~= all);
        }
        if illegals.is_empty() {
            Ok(TableTemplate { lines: disassemble(bytes.as_slice()) })
        } else {
            Err(TableErrorTemplate { illegals })
        }
    }

    /// Writes the hexadecimal dump of a file; where there is no file, the
    /// dump is that of an empty one.
    pub fn decode_file(&self, file: Option<Vec<u8>>) -> (dump: String)
        ensures
            dump@ == match file {
                Some(bytes) => hex_dump(bytes@),
                None => Seq::<char>::empty(),
            },
    {
        let mut dump = String::new();
        if let Some(bytes) = file {
            let mut i: usize = 0;
            while i < bytes.len()
                invariant
                    i <= bytes.len(),
                    dump@ == hex_dump(bytes@.take(i as int)),
                decreases bytes.len() - i,
            {
                if i > 0 {
                    push_char(
                        &mut dump,
                        if i % 8 == 0 {
                            '\n'
                        } else {
                            ' '
                        },
                    );
                }
                push_byte_hex(&mut dump, bytes[i]);
                proof {
                    lemma_hex_dump_push(bytes@.take(i as int), bytes[i as int]);
                    assert(bytes@.take(i as int).push(bytes[i as int]) =~= bytes@.take(i + 1));
                }
                i += 1;
            }
            proof {
                assert(bytes@.take(i as int) =~= bytes@);
            }
        }
        dump
    }
}

} // verus!
