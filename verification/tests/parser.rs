use lvm::Add;
use lvm::Instruction;
use lvm::Load;
use lvm::Operand16;
use lvm::Operand8;
use lvm::ParseBytes;
use lvm::ParseString;
use lvm::Program;
use lvm::RIndex;

fn create_load() -> Instruction {
    let rindx = RIndex::make(10u8);
    let oprnd = Operand16::make(500u16);
    let load = Load::make(rindx, oprnd);
    Instruction::LoadI(load)
}

fn create_add() -> Instruction {
    let rindx1 = RIndex::make(10u8);
    let rindx2 = RIndex::make(20u8);
    let rindx3 = RIndex::make(30u8);
    let add = Add::make(rindx1, rindx2, rindx3);
    Instruction::AddI(add)
}

#[test]
fn rindex_parse_str() {
    let input = "$10 ABC";
    let (rst, index) = RIndex::parse_str(input).unwrap();

    assert_eq!(" ABC", rst);
    assert_eq!(10u8, index.index());
}

#[test]
fn rindex_parse_hex_str() {
    let input = "$0A ABC";
    let (rst, index) = RIndex::parse_hex_str(input).unwrap();

    assert_eq!(" ABC", rst);
    assert_eq!(10u8, index.index());
}

#[test]
fn operand8_parse_str() {
    let input = "#10 ABC";
    let (rst, index) = Operand8::parse_str(input).unwrap();

    assert_eq!(" ABC", rst);
    assert_eq!(10u8, index.value());
}

#[test]
fn operand8_parse_hex_str() {
    let input = "#0A ABC";
    let (rst, index) = Operand8::parse_hex_str(input).unwrap();

    assert_eq!(" ABC", rst);
    assert_eq!(10u8, index.value());
}

#[test]
fn operand16_parse_str() {
    let input = "#10 ABC";
    let (rst, index) = Operand16::parse_str(input).unwrap();

    assert_eq!(" ABC", rst);
    assert_eq!(10u16, index.value());
}

#[test]
fn operand16_parse_hex_str() {
    let input = "#0A ABC";
    let (rst, index) = Operand16::parse_hex_str(input).unwrap();

    assert_eq!(" ABC", rst);
    assert_eq!(10u16, index.value());
}

#[test]
fn load_parse_str() {
    let input = "LOAD $10 #500";

    let res = Load::parse_str(input);
    assert!(res.is_ok());

    let load = res.unwrap().1;

    assert_eq!(10u8, load.index().index());
    assert_eq!(500u16, load.operand().value());
}

#[test]
fn load_parse_hex_str() {
    let input = "LOAD $0A #01F4";

    let res = Load::parse_hex_str(input);
    assert!(res.is_ok());

    let load = res.unwrap().1;

    assert_eq!(10u8, load.index().index());
    assert_eq!(500u16, load.operand().value());
}

#[test]
fn load_parse_bytes() {
    let input = [1u8, 10u8, 50u8, 1u8, 0u8].as_slice();

    let res = Load::parse_bytes(input);
    assert!(res.is_ok());

    let (rst, load) = res.unwrap();

    assert_eq!(1, rst.len());
    assert_eq!(10u8, load.index().index());
    assert_eq!((50u16 << 8) + 1u16, load.operand().value());
}

#[test]
fn add_parse_str() {
    let input = "ADD $10 $20 $30";

    let res = Add::parse_str(input);
    assert!(res.is_ok());

    let add = res.unwrap().1;

    assert_eq!(10u8, add.index1().index());
    assert_eq!(20u8, add.index2().index());
    assert_eq!(30u8, add.index3().index());
}

#[test]
fn add_parse_hex_str() {
    let input = "ADD $0A $14 $1E";

    let res = Add::parse_hex_str(input);
    assert!(res.is_ok());

    let add = res.unwrap().1;

    assert_eq!(10u8, add.index1().index());
    assert_eq!(20u8, add.index2().index());
    assert_eq!(30u8, add.index3().index());
}

#[test]
fn add_parse_bytes() {
    let input = [2u8, 10u8, 20u8, 30u8, 0u8].as_slice();

    let res = Add::parse_bytes(input);
    assert!(res.is_ok());

    let (rst, add) = res.unwrap();

    assert_eq!(1, rst.len());
    assert_eq!(10u8, add.index1().index());
    assert_eq!(20u8, add.index2().index());
    assert_eq!(30u8, add.index3().index());
}

#[test]
fn instruction_parse_str() {
    let input = "LOAD $10 #500";

    let res = Instruction::parse_str(input);
    assert!(res.is_ok());

    let (_, instruction) = res.unwrap();

    match instruction {
        Instruction::LoadI(load) => {
            assert_eq!(10u8, load.index().index());
            assert_eq!(500u16, load.operand().value());
        }
        _ => assert!(false),
    }
}

#[test]
fn instruction_parse_hex_str() {
    let input = "LOAD $0A #01F4";

    let res = Instruction::parse_hex_str(input);
    assert!(res.is_ok());

    let (_, instruction) = res.unwrap();

    match instruction {
        Instruction::LoadI(load) => {
            assert_eq!(10u8, load.index().index());
            assert_eq!(500u16, load.operand().value());
        }
        _ => assert!(false),
    }
}

#[test]
fn instruction_parse_bytes() {
    let input = [1u8, 10u8, 50u8, 1u8, 0u8].as_slice();

    let res = Instruction::parse_bytes(input);
    assert!(res.is_ok());

    let (_, instruction) = res.unwrap();

    match instruction {
        Instruction::LoadI(load) => {
            assert_eq!(10u8, load.index().index());
            assert_eq!((50u16 << 8) + 1u16, load.operand().value());
        }
        _ => assert!(false),
    }
}

#[test]
fn program_parse_str() {
    let input = "LOAD $10 #500\nADD $10 $20 $30";
    let res = Program::parse_str(input);
    assert!(res.is_ok());

    let (_, program) = res.unwrap();
    let instructions = program.0;
    assert_eq!(2, instructions.len());
    assert_eq!(instructions[0], create_load());
    assert_eq!(instructions[1], create_add());
}

#[test]
fn program_parse_hex_str() {
    let input = "LOAD $0A #01F4\nADD $0A $14 $1E";
    let res = Program::parse_hex_str(input);
    assert!(res.is_ok());

    let (_, program) = res.unwrap();
    let instructions = program.0;
    assert_eq!(2, instructions.len());
    assert_eq!(instructions[0], create_load());
    assert_eq!(instructions[1], create_add());
}

#[test]
fn program_parse_bytes() {
    // a whole number of records decodes completely
    let whole = [1u8, 10u8, 1u8, 0xF4u8, 2u8, 10u8, 20u8, 30u8].as_slice();
    let res = Program::parse_bytes(whole);
    assert!(res.is_ok());

    let (rst, program) = res.unwrap();
    assert_eq!(0, rst.len());
    let instructions = program.0;
    assert_eq!(2, instructions.len());
    assert_eq!(instructions[0], create_load());
    assert_eq!(instructions[1], create_add());

    // a dangling byte after the records is a truncation error, not
    // silently ignored
    let dangling = [1u8, 10u8, 1u8, 0xF4u8, 2u8, 10u8, 20u8, 30u8, 0u8].as_slice();
    let res = Program::parse_bytes(dangling);
    assert!(res.is_err());
    assert_eq!(
        lvm::ErrorKind::UnexpectedEndOfInput,
        res.unwrap_err().kind
    );
}
