use mos_6502_disassembler::frontend::{
    hex_digit_of, is_whitespace, read_hex_byte, strip_whitespace, TableParams,
};
use mos_6502_disassembler::Frontend;

fn table_of(text: &str) -> Result<Vec<String>, Vec<(usize, String)>> {
    match Frontend.table(TableParams { bytes: text.to_string() }) {
        Ok(table) => Ok(table.lines.iter().map(|line| line.to_string()).collect()),
        Err(error) => Err(error.illegals),
    }
}

#[test]
fn test_table_generation() {
    let page = Frontend.table(TableParams { bytes: "a9 bd a0 bd 20 28 ba".to_string() });
    let lines = match page {
        Ok(table) => table.lines,
        Err(error) => panic!("refused: {:?}", error),
    };
    let expected = [
        ["0000", "A9 BD", "LDA", "#$BD"],
        ["0002", "A0 BD", "LDY", "#$BD"],
        ["0004", "20 28 BA", "JSR", "$BA28"],
    ];
    assert_eq!(lines.len(), expected.len());
    for (line, chunks) in lines.iter().zip(expected) {
        assert_eq!(format!("{:04X}", line.offset), chunks[0]);
        assert_eq!(line.bytes, chunks[1]);
        assert_eq!(line.operation, chunks[2]);
        assert_eq!(line.address, chunks[3]);
        let output = line.to_string();
        for chunk in chunks {
            assert!(output.contains(chunk), "output: {}, chunk: {}", output, chunk);
        }
    }
}

#[test]
fn test_faulty_table() {
    let page = Frontend.table(TableParams { bytes: "abcdefgh".to_string() });
    let illegals = match page {
        Ok(table) => panic!("accepted: {:?}", table),
        Err(error) => error.illegals,
    };
    assert_eq!(illegals, vec![(3, "gh".to_string())]);
    let output: Vec<String> =
        illegals.iter().map(|(index, token)| format!("'{}' at byte {}", token, index)).collect();
    assert!(output.contains(&"'gh' at byte 3".to_string()), "output: {:?}", output);
}

#[test]
fn test_decode() {
    let expected = "48 E7 20 20 70 21 61 00
F8 EE 61 E6 61 00 04 02
22 6E 00 84 41 E9 00 16
74 07 0C 00 00 44 67 18
41 E8 00 20 74 06 0C 00
00 41 67 0C 45 E9 00 06
0C 00 00 55 67 1E 60 38"
        .to_string();
    let bytes: Vec<u8> = vec![
        0x48, 0xE7, 0x20, 0x20, 0x70, 0x21, 0x61, 0x00, 0xF8, 0xEE, 0x61, 0xE6, 0x61, 0x00, 0x04,
        0x02, 0x22, 0x6E, 0x00, 0x84, 0x41, 0xE9, 0x00, 0x16, 0x74, 0x07, 0x0C, 0x00, 0x00, 0x44,
        0x67, 0x18, 0x41, 0xE8, 0x00, 0x20, 0x74, 0x06, 0x0C, 0x00, 0x00, 0x41, 0x67, 0x0C, 0x45,
        0xE9, 0x00, 0x06, 0x0C, 0x00, 0x00, 0x55, 0x67, 0x1E, 0x60, 0x38,
    ];
    assert_eq!(expected, Frontend.decode_file(Some(bytes)));
}

#[test]
fn dump_of_no_file_and_of_short_files() {
    assert_eq!(Frontend.decode_file(None), "");
    assert_eq!(Frontend.decode_file(Some(vec![])), "");
    assert_eq!(Frontend.decode_file(Some(vec![0x0A])), "0A");
    assert_eq!(Frontend.decode_file(Some((0..8).collect())), "00 01 02 03 04 05 06 07");
    assert_eq!(Frontend.decode_file(Some((0..9).collect())), "00 01 02 03 04 05 06 07\n08");
    assert_eq!(
        Frontend.decode_file(Some((0xF8..=0xFF).chain(0..=8).collect())),
        "F8 F9 FA FB FC FD FE FF\n00 01 02 03 04 05 06 07\n08"
    );
}

#[test]
fn dump_agrees_with_chunks_and_join() {
    let bytes: Vec<u8> = (0..=255u8).map(|b| b.wrapping_mul(37)).collect();
    for length in 0..bytes.len() {
        let expected = bytes[..length]
            .iter()
            .map(|byte| format!("{:0>2X}", byte))
            .collect::<Vec<_>>()
            .chunks(8)
            .map(|chunk| chunk.join(" "))
            .collect::<Vec<String>>()
            .join("\n");
        assert_eq!(Frontend.decode_file(Some(bytes[..length].to_vec())), expected);
    }
}

#[test]
fn table_of_an_empty_text_is_empty() {
    assert_eq!(table_of(""), Ok(vec![]));
    assert_eq!(table_of(" \t\r\n\x0C"), Ok(vec![]));
}

#[test]
fn whitespace_is_left_out_before_the_pairs_are_cut() {
    let expected = Ok(vec![
        "0000   A9 BD         LDA #$BD".to_string(),
        "0002   20 28 BA      JSR $BA28".to_string(),
    ]);
    assert_eq!(table_of("a9bd2028ba"), expected);
    assert_eq!(table_of("a 9b d2\n02\t8b\r\na"), expected);
    assert_eq!(table_of("  A9 BD 20 28 BA  "), expected);
}

#[test]
fn a_single_character_at_the_end_is_a_token() {
    assert_eq!(table_of("ea a"), Ok(vec!["0000   EA            NOP".to_string(), "0001   0A            ASL A".to_string()]));
    assert_eq!(table_of("eag"), Err(vec![(1, "g".to_string())]));
}

#[test]
fn a_sign_is_no_digit() {
    assert_eq!(table_of("+f"), Err(vec![(0, "+f".to_string())]));
    assert_eq!(table_of("+a"), Err(vec![(0, "+a".to_string())]));
    assert_eq!(table_of("+"), Err(vec![(0, "+".to_string())]));
    assert_eq!(table_of("++"), Err(vec![(0, "++".to_string())]));
    assert_eq!(table_of("a+"), Err(vec![(0, "a+".to_string())]));
    assert_eq!(table_of("-1"), Err(vec![(0, "-1".to_string())]));
    assert_eq!(table_of("ea +0 a9 -1 0"), Err(vec![(1, "+0".to_string()), (3, "-1".to_string())]));
    assert_eq!(read_hex_byte(&['+', 'f']), None);
    assert_eq!(read_hex_byte(&['+']), None);
    assert_eq!(read_hex_byte(&['f']), Some(0x0F));
}

#[test]
fn every_illegal_token_is_named_with_its_position() {
    assert_eq!(
        table_of("zz a9 0x bd é! 1"),
        Err(vec![(0, "zz".to_string()), (2, "0x".to_string()), (4, "é!".to_string())])
    );
    assert_eq!(table_of("\u{a0}1"), Err(vec![(0, "\u{a0}1".to_string())]));
}

#[test]
fn whitespace_is_the_ascii_kind() {
    for c in [' ', '\t', '\n', '\x0C', '\r'] {
        assert!(is_whitespace(c));
    }
    for code in 0..=0x2100u32 {
        if let Some(c) = char::from_u32(code) {
            assert_eq!(is_whitespace(c), c.is_ascii_whitespace(), "{:?}", c);
        }
    }
    assert_eq!(strip_whitespace(" a\tb\u{b}c\u{a0} \n"), vec!['a', 'b', '\u{b}', 'c', '\u{a0}']);
}

#[test]
fn digits_have_their_values() {
    for code in 0..=0x300u32 {
        if let Some(c) = char::from_u32(code) {
            assert_eq!(hex_digit_of(c), c.to_digit(16).map(|value| value as u8), "{:?}", c);
        }
    }
    assert_eq!(hex_digit_of('f'), Some(15));
    assert_eq!(hex_digit_of('F'), Some(15));
    assert_eq!(hex_digit_of('9'), Some(9));
    assert_eq!(hex_digit_of('g'), None);
}

fn digits_only(text: &str) -> Option<u8> {
    if !text.is_empty() && text.chars().all(|c| c.is_ascii_hexdigit()) {
        u8::from_str_radix(text, 16).ok()
    } else {
        None
    }
}

#[test]
fn short_tokens_are_hexadecimal_digits_only() {
    let mut alphabet: Vec<char> = (0..128u8).map(|b| b as char).collect();
    alphabet.extend(['é', '\u{a0}', '٣', '\u{ff11}']);
    let mut accepted = 0;
    for first in &alphabet {
        let token = [*first];
        let text: String = token.iter().collect();
        assert_eq!(read_hex_byte(&token), digits_only(&text), "{:?}", text);
        for second in &alphabet {
            let token = [*first, *second];
            let text: String = token.iter().collect();
            let value = read_hex_byte(&token);
            assert_eq!(value, digits_only(&text), "{:?}", text);
            if value.is_some() {
                accepted += 1;
            }
        }
    }
    assert_eq!(accepted, 22 * 22);
}

#[test]
fn longer_tokens_are_hexadecimal_digits_only() {
    for text in [
        "", "+", "-", "0", "00", "000", "0ff", "+0ff", "100", "0100", "ff", "FF", "+ff", "++f",
        "f+", "fff", "1 ", " 1", "1_0", "0x1f", "00000000000000000000ff",
        "ffffffffffffffffffffffffffffffff", "10g", "g00", "+-1", "-0",
    ] {
        let token: Vec<char> = text.chars().collect();
        assert_eq!(read_hex_byte(&token), digits_only(text), "{:?}", text);
    }
    assert_eq!(read_hex_byte(&[]), None);
    assert_eq!(read_hex_byte(&['a', '9']), Some(0xA9));
    assert_eq!(read_hex_byte(&['A', '9']), Some(0xA9));
    assert_eq!(read_hex_byte(&['0', '0', 'f', 'f']), Some(0xFF));
    assert_eq!(read_hex_byte(&['1', '0', '0']), None);
    assert_eq!(read_hex_byte(&['g', 'h']), None);
}
