//! Concrete decode scenarios, round trips on chosen values, grammar
//! edges, and one input for each error kind.

use lvm::Add;
use lvm::Context;
use lvm::ErrorKind;
use lvm::Instruction;
use lvm::Load;
use lvm::Operand16;
use lvm::ParseBytes;
use lvm::ParseString;
use lvm::Program;
use lvm::RIndex;

fn load_10_500() -> Load {
    Load::make(RIndex::make(10), Operand16::make(500))
}

fn add_10_20_30() -> Add {
    Add::make(RIndex::make(10), RIndex::make(20), RIndex::make(30))
}

#[test]
fn decode_decimal_load() {
    let (rst, i) = Instruction::parse_str("LOAD $10 #500").unwrap();
    assert_eq!("", rst);
    assert_eq!(Instruction::LoadI(load_10_500()), i);
}

#[test]
fn decode_hex_load_same_value() {
    let (rst, i) = Instruction::parse_hex_str("LOAD $0A #01F4").unwrap();
    assert_eq!("", rst);
    assert_eq!(Instruction::LoadI(load_10_500()), i);
}

#[test]
fn decode_binary_load() {
    let input = [1u8, 10u8, 1u8, 0xF4u8];
    let (rst, i) = Instruction::parse_bytes(input.as_slice()).unwrap();
    assert_eq!(0, rst.len());
    assert_eq!(Instruction::LoadI(load_10_500()), i);
}

#[test]
fn decode_binary_program_two_records() {
    let input = [1u8, 10u8, 1u8, 0xF4u8, 2u8, 10u8, 20u8, 30u8];
    let (rst, program) = Program::parse_bytes(input.as_slice()).unwrap();
    assert_eq!(0, rst.len());
    assert_eq!(
        vec![
            Instruction::LoadI(load_10_500()),
            Instruction::AddI(add_10_20_30()),
        ],
        program.0
    );
}

#[test]
fn encode_binary_program_two_records() {
    let program = Program::make(vec![
        Instruction::LoadI(load_10_500()),
        Instruction::AddI(add_10_20_30()),
    ]);
    assert_eq!(vec![1u8, 10, 1, 244, 2, 10, 20, 30], program.to_bytes());
}

#[test]
fn decode_then_reserialize_upper_hex() {
    let (_, i) = Instruction::parse_str("ADD $10 $20 $30").unwrap();
    assert_eq!("ADD 0A 14 1E", i.to_upper_hex());
}

#[test]
fn round_trip_decimal_instruction() {
    let i = Instruction::AddI(Add::make(
        RIndex::make(7),
        RIndex::make(8),
        RIndex::make(9),
    ));
    let s = i.to_string();
    let (rst, back) = Instruction::parse_str(s.as_str()).unwrap();
    assert_eq!("", rst);
    assert_eq!(i, back);
}

#[test]
fn round_trip_hex_instruction() {
    let i = Instruction::LoadI(Load::make(RIndex::make(255), Operand16::make(65535)));
    let upper = i.to_hex_string(true);
    assert_eq!("LOAD $FF #FFFF", upper);
    let (rst, back) = Instruction::parse_hex_str(upper.as_str()).unwrap();
    assert_eq!("", rst);
    assert_eq!(i, back);

    let lower = i.to_hex_string(false);
    assert_eq!("LOAD $ff #ffff", lower);
    let (rst, back) = Instruction::parse_hex_str(lower.as_str()).unwrap();
    assert_eq!("", rst);
    assert_eq!(i, back);
}

#[test]
fn round_trip_binary_instruction() {
    let i = Instruction::LoadI(load_10_500());
    let bytes = i.to_bytes();
    assert_eq!(4, bytes.len());
    let (rst, back) = Instruction::parse_bytes(bytes.as_slice()).unwrap();
    assert_eq!(0, rst.len());
    assert_eq!(i, back);
}

#[test]
fn binary_records_always_four_bytes() {
    assert_eq!(4, Instruction::LoadI(Load::make(RIndex::make(0), Operand16::make(0))).to_bytes().len());
    assert_eq!(4, Instruction::LoadI(Load::make(RIndex::make(255), Operand16::make(65535))).to_bytes().len());
    assert_eq!(4, Instruction::AddI(Add::make(RIndex::make(0), RIndex::make(0), RIndex::make(0))).to_bytes().len());
    assert_eq!(4, Instruction::AddI(add_10_20_30()).to_bytes().len());
}

#[test]
fn round_trip_program_text() {
    let program = Program::make(vec![
        Instruction::LoadI(load_10_500()),
        Instruction::AddI(add_10_20_30()),
        Instruction::AddI(add_10_20_30()),
    ]);
    let s = program.to_string();
    let (rst, back) = Program::parse_str(s.as_str()).unwrap();
    assert_eq!("", rst);
    assert_eq!(program.0, back.0);
    assert_eq!(s, back.to_string());
}

#[test]
fn round_trip_program_hex_text() {
    let program = Program::make(vec![
        Instruction::AddI(add_10_20_30()),
        Instruction::LoadI(load_10_500()),
    ]);
    let s = program.to_hex_string(true);
    assert_eq!("ADD $0A $14 $1E\nLOAD $0A #01F4", s);
    let (rst, back) = Program::parse_hex_str(s.as_str()).unwrap();
    assert_eq!("", rst);
    assert_eq!(program.0, back.0);
}

#[test]
fn round_trip_program_binary() {
    let program = Program::make(vec![
        Instruction::AddI(add_10_20_30()),
        Instruction::LoadI(load_10_500()),
        Instruction::AddI(Add::make(RIndex::make(1), RIndex::make(1), RIndex::make(1))),
    ]);
    let bytes = program.to_bytes();
    assert_eq!(12, bytes.len());
    let (rst, back) = Program::parse_bytes(bytes.as_slice()).unwrap();
    assert_eq!(0, rst.len());
    assert_eq!(program.0, back.0);
    assert_eq!(bytes, back.to_bytes());
}

#[test]
fn empty_program_round_trips() {
    let program = Program::make(vec![]);
    assert_eq!("", program.to_string());
    let (rst, back) = Program::parse_str("").unwrap();
    assert_eq!("", rst);
    assert_eq!(0, back.0.len());

    assert_eq!(0, program.to_bytes().len());
    let (rst, back) = Program::parse_bytes(&[]).unwrap();
    assert_eq!(0, rst.len());
    assert_eq!(0, back.0.len());
}

#[test]
fn largest_values_round_trip() {
    let i = Instruction::LoadI(Load::make(RIndex::make(255), Operand16::make(65535)));
    assert_eq!("LOAD $255 #65535", i.to_string());
    let (_, back) = Instruction::parse_str("LOAD $255 #65535").unwrap();
    assert_eq!(i, back);
}

#[test]
fn leading_zeros_accepted() {
    let (_, i) = Instruction::parse_str("LOAD $007 #000500").unwrap();
    assert_eq!(
        Instruction::LoadI(Load::make(RIndex::make(7), Operand16::make(500))),
        i
    );
}

#[test]
fn separators_may_be_any_whitespace_run() {
    let (rst, program) = Program::parse_str("LOAD $1 #2 \t\r\n ADD $1 $2 $3").unwrap();
    assert_eq!("", rst);
    assert_eq!(2, program.0.len());
}

#[test]
fn zero_pads_to_full_hex_width() {
    assert_eq!("00", RIndex::make(0).to_upper_hex());
    assert_eq!("0000", Operand16::make(0).to_upper_hex());
    assert_eq!("#0000", Operand16::make(0).to_hex_string(true));
}

#[test]
fn unknown_mnemonic_kind() {
    let e = Instruction::parse_str("NOP $1").unwrap_err();
    assert_eq!(ErrorKind::UnknownMnemonic, e.kind);
    assert_eq!(vec![Context::Instruction], e.path);
}

#[test]
fn unknown_opcode_carries_the_byte() {
    let e = Instruction::parse_bytes(&[9u8, 1, 2, 3]).unwrap_err();
    assert_eq!(ErrorKind::UnknownOpcode(9), e.kind);
}

#[test]
fn malformed_operand_kind() {
    let e = Instruction::parse_str("LOAD $x #1").unwrap_err();
    assert_eq!(ErrorKind::MalformedOperand, e.kind);
    assert_eq!(
        vec![Context::Register, Context::Load, Context::Instruction],
        e.path
    );
}

#[test]
fn matched_mnemonic_does_not_fall_through() {
    // "LOAD" matched, so a bad operand is a hard error, not an unknown
    // mnemonic
    let e = Instruction::parse_str("LOAD $1 #x").unwrap_err();
    assert_ne!(ErrorKind::UnknownMnemonic, e.kind);
    assert_eq!(ErrorKind::MalformedOperand, e.kind);
}

#[test]
fn value_out_of_range_kind() {
    let e = Instruction::parse_str("LOAD $256 #1").unwrap_err();
    assert_eq!(ErrorKind::ValueOutOfRange, e.kind);

    let e = Instruction::parse_str("LOAD $1 #65536").unwrap_err();
    assert_eq!(ErrorKind::ValueOutOfRange, e.kind);

    let ok = Instruction::parse_str("LOAD $1 #65535");
    assert!(ok.is_ok());
}

#[test]
fn truncated_binary_kind() {
    let e = Instruction::parse_bytes(&[1u8, 10]).unwrap_err();
    assert_eq!(ErrorKind::UnexpectedEndOfInput, e.kind);

    let e = Program::parse_bytes(&[1u8, 10, 1]).unwrap_err();
    assert_eq!(ErrorKind::UnexpectedEndOfInput, e.kind);
}

#[test]
fn program_stops_before_an_unknown_mnemonic() {
    let (rst, program) = Program::parse_str("LOAD $1 #2\nNOP $3").unwrap();
    assert_eq!("\nNOP $3", rst);
    assert_eq!(1, program.0.len());
}

#[test]
fn program_fails_hard_on_a_malformed_instruction() {
    let e = Program::parse_str("LOAD $1 #2\nLOAD $x #1").unwrap_err();
    assert_eq!(ErrorKind::MalformedOperand, e.kind);
    assert_eq!(
        vec![
            Context::Register,
            Context::Load,
            Context::Instruction,
            Context::Program,
        ],
        e.path
    );
}

#[test]
fn trailing_input_is_the_callers_policy() {
    // the codec itself never fails on residual input: it hands the rest
    // back, and a caller that demands full consumption reports it
    let (rst, _) = Instruction::parse_str("LOAD $1 #2 trailing").unwrap();
    assert_eq!(" trailing", rst);
    let e = lvm::ParseError::at(ErrorKind::TrailingInput, Context::Program);
    assert_eq!(ErrorKind::TrailingInput, e.kind);
}
