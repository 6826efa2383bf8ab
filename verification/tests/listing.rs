use mos_6502_disassembler::address_mode::branch_target;
use mos_6502_disassembler::{
    decode, disassemble, AddressMode, Instruction, InstructionBuilder, Operation,
};

fn lines_of(bytes: &[u8]) -> Vec<String> {
    disassemble(bytes).iter().map(|instruction| instruction.to_string()).collect()
}

fn record(operation: Operation, address_mode: AddressMode, raw: &[u8], offset: usize) -> InstructionBuilder {
    InstructionBuilder { operation, address_mode, raw_bytes: raw.to_vec(), offset }
}

#[test]
fn end_to_end_example() {
    assert_eq!(
        lines_of(&[0xA9, 0xBD, 0xA0, 0xBD, 0x20, 0x28, 0xBA]),
        vec![
            "0000   A9 BD         LDA #$BD",
            "0002   A0 BD         LDY #$BD",
            "0004   20 28 BA      JSR $BA28",
        ]
    );
}

#[test]
fn end_to_end_example_as_instructions() {
    let expected = vec![
        Instruction { offset: 0, bytes: "A9 BD".into(), operation: "LDA".into(), address: "#$BD".into() },
        Instruction { offset: 2, bytes: "A0 BD".into(), operation: "LDY".into(), address: "#$BD".into() },
        Instruction { offset: 4, bytes: "20 28 BA".into(), operation: "JSR".into(), address: "$BA28".into() },
    ];
    assert_eq!(disassemble(&[0xA9, 0xBD, 0xA0, 0xBD, 0x20, 0x28, 0xBA]), expected);
}

#[test]
fn empty_input_gives_no_instruction() {
    assert!(decode(&[]).is_empty());
    assert!(disassemble(&[]).is_empty());
}

#[test]
fn undefined_opcode_example() {
    let records = decode(&[0xFF]);
    assert_eq!(records.len(), 1);
    assert_eq!(records[0].operation, Operation::Unknown);
    assert_eq!(records[0].address_mode, AddressMode::Unknown);
    assert_eq!(records[0].raw_bytes, vec![0xFF]);
    let listed = disassemble(&[0xFF]);
    assert_eq!(listed.len(), 1);
    assert_eq!(listed[0].operation, "???");
    assert_eq!(listed[0].address, ";%11111111");
    assert_eq!(listed[0].bytes, "FF");
    assert_eq!(listed[0].to_string(), "0000   FF            ???                ;%11111111");
}

#[test]
fn undefined_opcode_takes_one_byte_whatever_follows() {
    let records = decode(&[0x02, 0xA9, 0x01, 0x03, 0x04]);
    let offsets: Vec<usize> = records.iter().map(|r| r.offset).collect();
    assert_eq!(offsets, vec![0, 1, 3, 4]);
    assert_eq!(records[0].raw_bytes, vec![0x02]);
    assert_eq!(records[1].raw_bytes, vec![0xA9, 0x01]);
    assert_eq!(records[2].operation, Operation::Unknown);
    assert_eq!(records[3].operation, Operation::Unknown);
}

#[test]
fn undefined_printable_byte_shows_its_character() {
    let listed = disassemble(&[0x22, 0x80, 0x7F, 0x1F]);
    assert_eq!(listed[0].address, ";%00100010 '\"'");
    assert_eq!(listed[1].address, ";%10000000");
    assert_eq!(listed[2].address, ";%01111111");
    assert_eq!(listed[3].address, ";%00011111");
    assert_eq!(listed[0].to_string(), "0000   22            ???                ;%00100010 '\"'");
}

#[test]
fn printable_range_is_space_to_tilde() {
    assert_eq!(AddressMode::Unknown.format(&[0x20], 0), ";%00100000 ' '");
    assert_eq!(AddressMode::Unknown.format(&[0x7E], 0), ";%01111110 '~'");
    assert_eq!(AddressMode::Unknown.format(&[0x7F], 0), ";%01111111");
    assert_eq!(AddressMode::Unknown.format(&[0x1F], 0), ";%00011111");
    assert_eq!(AddressMode::Unknown.format(&[0x5A], 0), ";%01011010 'Z'");
}

#[test]
fn truncated_tail() {
    let records = decode(&[0x20, 0x28]);
    assert_eq!(records.len(), 1);
    assert_eq!(records[0].raw_bytes.len(), 2);
    assert_eq!(records[0].address_mode.length(), 3);
    assert!(!records[0].is_satisfied());
    let listed = disassemble(&[0x20, 0x28]);
    assert_eq!(listed.len(), 1);
    assert_eq!(listed[0].address, "*Missing operands*");
    assert_eq!(listed[0].to_string(), "0000   20 28         JSR *Missing operands*");
}

#[test]
fn truncated_tail_after_complete_instructions() {
    let listed = disassemble(&[0xEA, 0xA9, 0x01, 0xAD, 0x34]);
    assert_eq!(listed.len(), 3);
    assert_eq!(listed[0].to_string(), "0000   EA            NOP");
    assert_eq!(listed[1].to_string(), "0001   A9 01         LDA #$01");
    assert_eq!(listed[2].to_string(), "0003   AD 34         LDA *Missing operands*");
    let single = disassemble(&[0xA9]);
    assert_eq!(single[0].to_string(), "0000   A9            LDA *Missing operands*");
}

#[test]
fn relative_branch_wrap() {
    let listed = disassemble(&[0xF0, 0xFF]);
    assert_eq!(listed[0].operation, "BEQ");
    assert_eq!(listed[0].address, "$0001");
    assert_eq!(listed[0].to_string(), "0000   F0 FF         BEQ $0001");
}

#[test]
fn relative_branch_targets() {
    assert_eq!(branch_target(0, 0xFF), 0x0001);
    assert_eq!(branch_target(0, 0x00), 0x0002);
    assert_eq!(branch_target(0, 0x7F), 0x0081);
    assert_eq!(branch_target(0, 0x80), 0xFF82);
    assert_eq!(branch_target(0, 0xFD), 0xFFFF);
    assert_eq!(branch_target(0x10, 0xFE), 0x0010);
    assert_eq!(branch_target(0xFFFE, 0x00), 0x0000);
    assert_eq!(branch_target(0xFFFD, 0x7F), 0x007E);
    assert_eq!(branch_target(0x1_2345, 0x10), 0x2357);
    assert_eq!(branch_target(usize::MAX, 0x00), 0x0001);
    assert_eq!(branch_target(usize::MAX, 0x80), 0xFF81);
    assert_eq!(AddressMode::Relative.format(&[0xD0, 0x80], 0), "$FF82");
    assert_eq!(AddressMode::Relative.format(&[0xD0, 0x05], 0x1_0000), "$0007");
}

#[test]
fn each_addressing_mode_is_written_its_way() {
    assert_eq!(AddressMode::Accumulator.format(&[0x0A], 0), "A");
    assert_eq!(AddressMode::Absolute.format(&[0x4C, 0x34, 0x12], 0), "$1234");
    assert_eq!(AddressMode::AbsoluteX.format(&[0xBD, 0x0F, 0xA0], 0), "$A00F,X");
    assert_eq!(AddressMode::AbsoluteY.format(&[0xB9, 0xFF, 0x00], 0), "$00FF,Y");
    assert_eq!(AddressMode::Immediate.format(&[0xA9, 0x0B], 0), "#$0B");
    assert_eq!(AddressMode::Implied.format(&[0xEA], 0), "");
    assert_eq!(AddressMode::Indirect.format(&[0x6C, 0xCD, 0xAB], 0), "($ABCD)");
    assert_eq!(AddressMode::XIndirect.format(&[0xA1, 0x9E], 0), "($9E,X)");
    assert_eq!(AddressMode::IndirectY.format(&[0xB1, 0x07], 0), "($07),Y");
    assert_eq!(AddressMode::Relative.format(&[0x10, 0x02], 0x20), "$0024");
    assert_eq!(AddressMode::Zeropage.format(&[0xA5, 0xC0], 0), "$C0");
    assert_eq!(AddressMode::ZeropageX.format(&[0xB5, 0x01], 0), "$01,X");
    assert_eq!(AddressMode::ZeropageY.format(&[0xB6, 0xEE], 0), "$EE,Y");
    assert_eq!(AddressMode::Unknown.format(&[0x03], 0), ";%00000011");
}

#[test]
fn wrong_number_of_bytes_gives_the_marker() {
    assert_eq!(AddressMode::Implied.format(&[], 0), "*Missing operands*");
    assert_eq!(AddressMode::Implied.format(&[0xEA, 0x00], 0), "*Missing operands*");
    assert_eq!(AddressMode::Absolute.format(&[0x4C, 0x34], 0), "*Missing operands*");
    assert_eq!(AddressMode::Absolute.format(&[0x4C, 0x34, 0x12, 0x00], 0), "*Missing operands*");
    assert_eq!(AddressMode::Relative.format(&[0x10], 0), "*Missing operands*");
    assert_eq!(AddressMode::Unknown.format(&[], 0), "*Missing operands*");
}

#[test]
fn lengths_of_the_addressing_modes() {
    let one = [AddressMode::Accumulator, AddressMode::Implied, AddressMode::Unknown];
    let two = [
        AddressMode::Immediate,
        AddressMode::Relative,
        AddressMode::Zeropage,
        AddressMode::ZeropageX,
        AddressMode::ZeropageY,
        AddressMode::XIndirect,
        AddressMode::IndirectY,
    ];
    let three = [AddressMode::Absolute, AddressMode::AbsoluteX, AddressMode::AbsoluteY, AddressMode::Indirect];
    assert!(one.iter().all(|mode| mode.length() == 1));
    assert!(two.iter().all(|mode| mode.length() == 2));
    assert!(three.iter().all(|mode| mode.length() == 3));
}

#[test]
fn builder_collects_bytes() {
    let mut builder = InstructionBuilder::new(7, 0x20);
    assert_eq!(builder, record(Operation::JSR, AddressMode::Absolute, &[0x20], 7));
    assert!(!builder.is_satisfied());
    builder.add(0x28);
    assert!(!builder.is_satisfied());
    builder.add(0xBA);
    assert!(builder.is_satisfied());
    assert_eq!(builder, record(Operation::JSR, AddressMode::Absolute, &[0x20, 0x28, 0xBA], 7));
    assert!(InstructionBuilder::new(0, 0xEA).is_satisfied());
    assert!(InstructionBuilder::new(0, 0xFF).is_satisfied());
}

#[test]
fn rendering_a_record() {
    let listed = Instruction::from(record(Operation::STA, AddressMode::AbsoluteX, &[0x9D, 0x00, 0x02], 0x1234));
    assert_eq!(
        listed,
        Instruction { offset: 0x1234, bytes: "9D 00 02".into(), operation: "STA".into(), address: "$0200,X".into() }
    );
    assert_eq!(listed.to_string(), "1234   9D 00 02      STA $0200,X");
    let into: Instruction = record(Operation::NOP, AddressMode::Implied, &[0xEA], 3).into();
    assert_eq!(into.to_string(), "0003   EA            NOP");
}

#[test]
fn offsets_beyond_four_digits_are_written_in_full() {
    let listed = Instruction::from(record(Operation::NOP, AddressMode::Implied, &[0xEA], 0x1_0000));
    assert_eq!(listed.to_string(), "10000   EA            NOP");
    let listed = Instruction::from(record(Operation::LDA, AddressMode::Immediate, &[0xA9, 0x00], 0xABCDEF));
    assert_eq!(listed.to_string(), "ABCDEF   A9 00         LDA #$00");
    let listed = Instruction::from(record(Operation::NOP, AddressMode::Implied, &[0xEA], 0xFFFF));
    assert_eq!(listed.to_string(), "FFFF   EA            NOP");
}

#[test]
fn lines_of_hand_made_instructions() {
    let plain = Instruction { offset: 1, bytes: "".into(), operation: "XYZ".into(), address: "".into() };
    assert_eq!(plain.to_string(), "0001                 XYZ");
    let unknown_without_operand = Instruction { offset: 1, bytes: "00".into(), operation: "???".into(), address: "".into() };
    assert_eq!(unknown_without_operand.to_string(), "0001   00            ???");
    let unknown = Instruction { offset: 1, bytes: "00".into(), operation: "???".into(), address: "x".into() };
    assert_eq!(unknown.to_string(), "0001   00            ???                x");
    let wide = Instruction { offset: 0, bytes: "0123456789".into(), operation: "NOP".into(), address: "é".into() };
    assert_eq!(wide.to_string(), "0000   0123456789      NOP é");
    let accented = Instruction { offset: 0, bytes: "éé".into(), operation: "NOP".into(), address: "".into() };
    assert_eq!(accented.to_string(), "0000   éé            NOP");
}

#[test]
fn formatting_twice_gives_the_same_text() {
    for instruction in disassemble(&[0xA9, 0xBD, 0xFF, 0xF0, 0x80, 0x20, 0x28]) {
        assert_eq!(instruction.to_string(), instruction.to_string());
    }
    let first = disassemble(&[0x6C, 0x01, 0x02, 0x22]);
    let second = disassemble(&[0x6C, 0x01, 0x02, 0x22]);
    assert_eq!(first, second);
    assert_eq!(AddressMode::IndirectY.format(&[0xB1, 0x07], 9), AddressMode::IndirectY.format(&[0xB1, 0x07], 9));
}

#[test]
fn mnemonics() {
    assert_eq!(Operation::LDA.to_string(), "LDA");
    assert_eq!(Operation::CMP.name(), "CMP");
    assert_eq!(Operation::TYA.to_string(), "TYA");
    assert_eq!(Operation::Unknown.to_string(), "???");
    assert_eq!(Operation::Unknown.name(), "???");
}
