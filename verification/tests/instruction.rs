use sad_boy::emu::instruction::{
    Add, ConditionCode, DecInc, Instruction, Jump, Load, LoadHigh, Operand, Register16,
    Register16Memory, Register16Stack, Register8, Value8,
};
use sad_boy::emu::memory::Address;
use sad_boy::emu::rom::{Rom, parse_instruction};
use sad_boy::util::Bit;

fn parse(bytes: &[u8]) -> Instruction {
    parse_instruction(bytes, 0).unwrap().0
}

/// Parsing individual instructions
#[test]
fn instruction() {
    let cases: Vec<(&[u8], Instruction)> = vec![
        (&[0b0010_1100], Instruction::Inc(Register8::L.into())),
        (&[0b0011_0100], Instruction::Inc(DecInc::V8(Value8::Hl))),
        (&[0b0010_0011], Instruction::Inc(DecInc::R16(Register16::Hl))),
        (&[0b0010_1101], Instruction::Dec(Register8::L.into())),
        (&[0b0011_0101], Instruction::Dec(DecInc::V8(Value8::Hl))),
        (&[0b0010_1011], Instruction::Dec(DecInc::R16(Register16::Hl))),
        (&[0b0001_1001], Instruction::Add(Add::Hl(Register16::De))),
        (&[0b1110_1000, 0b0101_0101], Instruction::Add(Add::Sp(0x55))),
        (&[0b1000_0001], Instruction::add(Register8::C.into())),
        (&[0b1000_1001], Instruction::Adc(Register8::C.into())),
        (&[0b1001_0001], Instruction::Sub(Register8::C.into())),
        (&[0b1001_1001], Instruction::Sbc(Register8::C.into())),
        (&[0b1010_0001], Instruction::And(Register8::C.into())),
        (&[0b1010_1001], Instruction::Xor(Register8::C.into())),
        (&[0b1011_0001], Instruction::Or(Register8::C.into())),
        (&[0b1011_1001], Instruction::Cp(Register8::C.into())),
        (&[0b1100_0110, 0b0101_0101], Instruction::add(Operand::Const(0x55))),
        (&[0b1100_1110, 0b0101_0101], Instruction::Adc(Operand::Const(0x55))),
        (&[0b1101_0110, 0b0101_0101], Instruction::Sub(Operand::Const(0x55))),
        (&[0b1101_1110, 0b0101_0101], Instruction::Sbc(Operand::Const(0x55))),
        (&[0b1110_0110, 0b0101_0101], Instruction::And(Operand::Const(0x55))),
        (&[0b1110_1110, 0b0101_0101], Instruction::Xor(Operand::Const(0x55))),
        (&[0b1111_0110, 0b0101_0101], Instruction::Or(Operand::Const(0x55))),
        (&[0b1111_1110, 0b0101_0101], Instruction::Cp(Operand::Const(0x55))),
        (&[0b1100_1001], Instruction::Ret(None)),
        (&[0b1100_0000], Instruction::Ret(Some(ConditionCode::Nz))),
        (&[0b1100_1000], Instruction::Ret(Some(ConditionCode::Z))),
        (&[0b1101_0000], Instruction::Ret(Some(ConditionCode::Nc))),
        (&[0b1101_1000], Instruction::Ret(Some(ConditionCode::C))),
        (&[0b1111_1000, 0b1010_1010], Instruction::Ld(Load::HlSpOffset { offset: -86 })),
        (&[0b1100_1011, 0b0111_0100], Instruction::Bit(Bit(6), Register8::H.into())),
        (&[0b1100_1011, 0b1011_0100], Instruction::Res(Bit(6), Register8::H.into())),
        (&[0b1100_1011, 0b1111_0100], Instruction::SetBit(Bit(6), Register8::H.into())),
    ];
    for (bytes, expected) in cases {
        assert_eq!(parse(bytes), expected, "{bytes:02x?}");
    }
}

/// Any input of 3 bytes parses to *something*, and the instruction is only
/// `Invalid` for one of the 11 invalid opcodes
#[test]
fn instruction_any_bytes() {
    const INVALID_CODES: &[u8] =
        &[0xD3, 0xDB, 0xDD, 0xE3, 0xE4, 0xEB, 0xEC, 0xED, 0xF4, 0xFC, 0xFD];
    for first in 0..=255u8 {
        for second in 0..=255u8 {
            let bytes = [first, second, 0x5A];
            let (instruction, size) = parse_instruction(&bytes, 0).unwrap();
            assert!((1..=3).contains(&size));
            if instruction == Instruction::Invalid {
                assert!(INVALID_CODES.contains(&first), "{first:02x}");
            }
        }
    }
}

/// The instruction's length in bytes comes with it, and an instruction that
/// runs past the end of the input is an error
#[test]
fn instruction_length() {
    assert_eq!(parse_instruction(&[0x00], 0).unwrap(), (Instruction::Nop, 1));
    assert_eq!(
        parse_instruction(&[0x3E, 0x42], 0).unwrap(),
        (Instruction::Ld(Load::V8Const { dest: Value8::Register(Register8::A), source: 0x42 }), 2)
    );
    assert_eq!(
        parse_instruction(&[0x00, 0xC3, 0x50, 0x01], 1).unwrap(),
        (Instruction::Jp(Jump::Address(Address(0x0150))), 3)
    );
    let error = parse_instruction(&[0x00, 0xC3, 0x50], 1).unwrap_err();
    assert_eq!(error.offset, 1);
    assert_eq!(error.needed, 3);
    assert_eq!(error.available, 2);
}

/// Reading an instruction from a ROM
#[test]
fn rom_instruction() {
    let rom = Rom::new(vec![0x31, 0xFE, 0xFF, 0xAF]);
    assert_eq!(
        rom.get_instruction(Address(0)).unwrap(),
        (Instruction::Ld(Load::R16Const { dest: Register16::Sp, source: 0xFFFE }), 3)
    );
    assert_eq!(
        rom.get_instruction(Address(3)).unwrap(),
        (Instruction::Xor(Operand::V8(Value8::Register(Register8::A))), 1)
    );
}

/// Assembly text of instructions
#[test]
fn instruction_text() {
    let cases = [
        (Instruction::Nop, "NOP"),
        (Instruction::Ld(Load::AR16Mem { source: Register16Memory::Hli }), "LD a,[hl+]"),
        (Instruction::Ld(Load::R16MemA { dest: Register16Memory::Hld }), "LD [hl-],a"),
        (Instruction::Jp(Jump::AddressCc(ConditionCode::Nz, Address(0x0150))), "JP NZ,$0150"),
        (Instruction::Jp(Jump::Hl), "JP hl"),
        (Instruction::Ldh(LoadHigh::AConst(0x0f)), "LDH a,[$FF00+$ f]"),
        (Instruction::Ldh(LoadHigh::ConstA(0x44)), "LDH [$FF00+$44],a"),
        (Instruction::Ldh(LoadHigh::CA), "LDH [$FF00+c],a"),
        (Instruction::Jr { offset: -2, condition: None }, "JR -2"),
        (Instruction::Jr { offset: 12, condition: Some(ConditionCode::C) }, "JR C,12"),
        (Instruction::Bit(Bit(6), Value8::Register(Register8::H)), "BIT 6,h"),
        (Instruction::SetBit(Bit(0), Value8::Hl), "SET 0,[hl]"),
        (Instruction::Ld(Load::R16Const { dest: Register16::Sp, source: 0xFFFE }), "LD sp,65534"),
        (Instruction::Ld(Load::HlSpOffset { offset: -128 }), "LD hl,sp+-128"),
        (Instruction::Add(Add::Sp(-1)), "ADD sp,-1"),
        (Instruction::add(Operand::Const(255)), "ADD a,255"),
        (Instruction::Ret(Some(ConditionCode::C)), "RET C"),
        (Instruction::Ret(None), "RET"),
        (Instruction::Call { address: Address(0xABCD), condition: Some(ConditionCode::Nc) }, "CALL NC,$ABCD"),
        (Instruction::Rst(Address(0x38)), "RST $0038"),
        (Instruction::Push(Register16Stack::Af), "PUSH af"),
        (Instruction::Xor(Operand::V8(Value8::Register(Register8::A))), "XOR a"),
        (Instruction::Invalid, "INVALID"),
    ];
    for (instruction, expected) in cases {
        assert_eq!(instruction.to_string(), expected);
    }
}

/// A parse error shows where it happened, the bytes around it in binary with
/// a caret under the failed instruction, and what was missing
#[test]
fn parse_error_text() {
    let error = parse_instruction(&[0x00, 0xC3, 0x50], 1).unwrap_err();
    let expected = format!(
        "Parse error at byte $0001\n$0000 | 00000000 11000011 01010000\n{}^\nInstruction needs 3 bytes, 2 left\n",
        " ".repeat(17)
    );
    assert_eq!(error.to_string(), expected);
}

/// The error keeps a window of 16 bytes on each side, in rows of four
#[test]
fn parse_error_window() {
    let mut bytes = vec![0u8; 40];
    bytes[39] = 0xC3;
    let error = parse_instruction(&bytes, 39).unwrap_err();
    assert_eq!(error.input_start, 23);
    assert_eq!(error.input.len(), 17);
    let text = error.to_string();
    assert!(text.starts_with("Parse error at byte $0027\n$0017 | "));
    assert!(text.contains("$0027 | 11000011\n"));
    assert!(text.ends_with("Instruction needs 3 bytes, 1 left\n"));
}

/// Conversions into operands
#[test]
fn operand_conversions() {
    assert_eq!(Operand::from(0x55u8), Operand::Const(0x55));
    assert_eq!(Operand::from(Register8::B), Operand::V8(Value8::Register(Register8::B)));
    assert_eq!(DecInc::from(Register8::E), DecInc::V8(Value8::Register(Register8::E)));
    assert_eq!(Value8::from(Register8::A), Value8::Register(Register8::A));
}
