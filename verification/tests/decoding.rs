use mos_6502_disassembler::{decode, decode_opcode, InstructionBuilder};

fn samples() -> Vec<Vec<u8>> {
    let mut samples: Vec<Vec<u8>> = vec![
        vec![],
        vec![0xEA],
        vec![0x20],
        vec![0x20, 0x28],
        vec![0x20, 0x28, 0xBA],
        vec![0xA9, 0xBD, 0xA0, 0xBD, 0x20, 0x28, 0xBA],
        vec![0xFF, 0xFF, 0xA9],
        (0..=255u8).collect(),
        (0..=255u8).rev().collect(),
    ];
    let mut state: u32 = 0x2545_F491;
    for length in [1usize, 2, 3, 5, 17, 64, 1000] {
        let mut bytes = Vec::new();
        for _ in 0..length {
            state = state.wrapping_mul(1_664_525).wrapping_add(1_013_904_223);
            bytes.push((state >> 24) as u8);
        }
        samples.push(bytes);
    }
    samples
}

#[test]
fn offsets_increase_and_cover_the_input() {
    for bytes in samples() {
        let records = decode(&bytes);
        assert_eq!(records.is_empty(), bytes.is_empty());
        let mut expected_offset = 0;
        for record in &records {
            assert_eq!(record.offset, expected_offset);
            assert!(!record.raw_bytes.is_empty());
            expected_offset += record.raw_bytes.len();
        }
        assert_eq!(expected_offset, bytes.len());
        for pair in records.windows(2) {
            assert!(pair[0].offset < pair[1].offset);
        }
    }
}

#[test]
fn all_but_the_last_record_are_complete() {
    for bytes in samples() {
        let records = decode(&bytes);
        for (i, record) in records.iter().enumerate() {
            let length = record.address_mode.length();
            assert!(record.raw_bytes.len() <= length);
            if i + 1 < records.len() || record.offset + length <= bytes.len() {
                assert_eq!(record.raw_bytes.len(), length);
                assert!(record.is_satisfied());
            } else {
                assert!(record.raw_bytes.len() < length);
                assert!(!record.is_satisfied());
            }
        }
    }
}

#[test]
fn records_hold_the_bytes_of_the_input() {
    for bytes in samples() {
        for record in decode(&bytes) {
            let end = record.offset + record.raw_bytes.len();
            assert_eq!(&record.raw_bytes[..], &bytes[record.offset..end]);
            assert_eq!((record.operation, record.address_mode), decode_opcode(bytes[record.offset]));
        }
    }
}

#[test]
fn decoding_goes_byte_by_byte() {
    for bytes in samples() {
        let mut fed: Vec<InstructionBuilder> = Vec::new();
        for (position, token) in bytes.iter().enumerate() {
            match fed.last_mut() {
                Some(last) if !last.is_satisfied() => last.add(*token),
                _ => fed.push(InstructionBuilder::new(position, *token)),
            }
            assert_eq!(decode(&bytes[..position + 1]), fed);
        }
    }
}

#[test]
fn lengths_by_hand() {
    let lengths: Vec<usize> = decode(&[0xA9, 0xBD, 0xA0, 0xBD, 0x20, 0x28, 0xBA, 0xEA, 0xFF, 0x4C, 0x00])
        .iter()
        .map(|record| record.raw_bytes.len())
        .collect();
    assert_eq!(lengths, vec![2, 2, 3, 1, 1, 2]);
}

#[test]
fn every_opcode_with_its_operands() {
    let mut bytes = Vec::new();
    let mut starts = Vec::new();
    for opcode in 0..=255u8 {
        starts.push(bytes.len());
        bytes.push(opcode);
        let (_, mode) = decode_opcode(opcode);
        for _ in 1..mode.length() {
            bytes.push(0xFF);
        }
    }
    let records = decode(&bytes);
    assert_eq!(records.len(), 256);
    for (opcode, record) in records.iter().enumerate() {
        assert_eq!(record.offset, starts[opcode]);
        assert_eq!(record.raw_bytes[0] as usize, opcode);
        assert!(record.is_satisfied());
        assert!(record.raw_bytes[1..].iter().all(|byte| *byte == 0xFF));
    }
    let listed = mos_6502_disassembler::disassemble(&bytes);
    assert_eq!(listed[0x00].to_string(), "0000   00            BRK");
    assert_eq!(listed[0x01].to_string(), "0001   01 FF         ORA ($FF,X)");
    assert_eq!(listed[0x02].to_string(), "0003   02            ???                ;%00000010");
    assert_eq!(listed[0x10].address, format!("${:04X}", (starts[0x10] + 1) & 0xFFFF));
    assert_eq!(listed[0x4C].operation, "JMP");
    assert_eq!(listed[0x4C].address, "$FFFF");
    assert_eq!(listed[0x4C].bytes, "4C FF FF");
    assert!(listed.iter().all(|line| line.address != "*Missing operands*"));
}
