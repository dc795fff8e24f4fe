use lvm::Add;
use lvm::Instruction;
use lvm::Load;
use lvm::Operand16;
use lvm::Operand8;
use lvm::ParseBytes;
use lvm::Program;
use lvm::RIndex;

fn create_load() -> Instruction {
    let rindx = RIndex::make(10u8);
    let oprnd = Operand16::make(500u16);
    let load = Load::make(rindx, oprnd);
    Instruction::LoadI(load)
}

fn create_add() -> Instruction {
    let rindx1 = RIndex::make(10u8);
    let rindx2 = RIndex::make(20u8);
    let rindx3 = RIndex::make(30u8);
    let add = Add::make(rindx1, rindx2, rindx3);
    Instruction::AddI(add)
}

#[test]
fn rindex_to_string() {
    let rindx = RIndex::make(10);
    assert_eq!("$10", rindx.to_string())
}

#[test]
fn rindex_to_upper_hex() {
    let rindx = RIndex::make(10);
    assert_eq!("0A", rindx.to_upper_hex())
}

#[test]
fn rindex_to_lower_hex() {
    let rindx = RIndex::make(10);
    assert_eq!("0a", rindx.to_lower_hex())
}

#[test]
fn rindex_from_u8() {
    let rindx = RIndex::make(10u8);
    assert_eq!(10, rindx.index());
}

#[test]
fn rindex_to_u8() {
    let idx = RIndex::make(10).index();
    assert_eq!(10, idx)
}

#[test]
fn rindex_try_from_string() {
    let res = RIndex::try_from_dec("10");
    assert!(res.is_ok());
    assert_eq!(10u8, res.unwrap().index())
}

#[test]
fn rindex_try_from_string_failed() {
    let res = RIndex::try_from_dec("CA");
    assert!(res.is_err());
}

#[test]
fn operand8_to_string() {
    let oprnd = Operand8::make(10);
    assert_eq!("#10", oprnd.to_string())
}

#[test]
fn operand8_to_upper_hex() {
    let oprnd = Operand8::make(10);
    assert_eq!("0A", oprnd.to_upper_hex())
}

#[test]
fn operand8_to_lower_hex() {
    let oprnd = Operand8::make(10);
    assert_eq!("0a", oprnd.to_lower_hex())
}

#[test]
fn operand8_from_bytes() {
    let input = [1u8, 2u8].as_slice();
    let (_, oprnd) = Operand8::parse_bytes(input).unwrap();
    assert_eq!(1, oprnd.value())
}

#[test]
fn operand8_from_u8() {
    let oprnd = Operand8::make(10u8);
    assert_eq!(10, oprnd.value());
}

#[test]
fn operand8_to_u8() {
    let oprnd = Operand8::make(10).value();
    assert_eq!(10, oprnd)
}

#[test]
fn operand8_try_from_string() {
    let res = Operand8::try_from_dec("10");
    assert!(res.is_ok());
    assert_eq!(10u8, res.unwrap().value())
}

#[test]
fn operand8_try_from_string_failed() {
    let res = Operand8::try_from_dec("CA");
    assert!(res.is_err());
}

#[test]
fn operand16_to_string() {
    let oprnd = Operand16::make(10);
    assert_eq!("#10", oprnd.to_string())
}

#[test]
fn operand16_to_upper_hex() {
    let oprnd = Operand16::make(10);
    assert_eq!("000A", oprnd.to_upper_hex())
}

#[test]
fn operand16_to_lower_hex() {
    let oprnd = Operand16::make(10);
    assert_eq!("000a", oprnd.to_lower_hex())
}

#[test]
fn operand16_from_bytes() {
    let input = [1u8, 2u8, 3u8].as_slice();
    let (_, oprnd) = Operand16::parse_bytes(input).unwrap();
    assert_eq!((1u16 << 8) + 2u16, oprnd.value())
}

#[test]
fn from_u16() {
    let oprnd = Operand16::make(10u16);
    assert_eq!(10, oprnd.value());
}

#[test]
fn to_u16() {
    let oprnd = Operand16::make(10).value();
    assert_eq!(10, oprnd)
}

#[test]
fn operand16_try_from_string() {
    let res = Operand16::try_from_dec("10");
    assert!(res.is_ok());
    assert_eq!(10u16, res.unwrap().value())
}

#[test]
fn operand16_try_from_string_failed() {
    let res = Operand16::try_from_dec("CA");
    assert!(res.is_err());
}

#[test]
fn operand16_to_bytes() {
    let oprnd = Operand16::make(500u16);
    let bytes: [u8; 2] = oprnd.to_bytes();
    assert_eq!(1u8, bytes[0]);
    assert_eq!(0xF4u8, bytes[1]);
}

#[test]
fn load_to_string() {
    let rindx = RIndex::make(10u8);
    let oprnd = Operand16::make(500u16);
    let load = Load::make(rindx, oprnd);
    assert_eq!("LOAD $10 #500", load.to_string())
}

#[test]
fn load_to_upper_hex() {
    let rindx = RIndex::make(10u8);
    let oprnd = Operand16::make(500u16);
    let load = Load::make(rindx, oprnd);
    assert_eq!("LOAD 0A 01F4", load.to_upper_hex())
}

#[test]
fn load_to_lower_hex() {
    let rindx = RIndex::make(10u8);
    let oprnd = Operand16::make(500u16);
    let load = Load::make(rindx, oprnd);
    assert_eq!("LOAD 0a 01f4", load.to_lower_hex())
}

#[test]
fn load_to_bytes() {
    let rindx = RIndex::make(10u8);
    let oprnd = Operand16::make(500u16);
    let load = Load::make(rindx, oprnd);
    let bytes: [u8; 4] = load.to_bytes();

    assert_eq!(1, bytes[0]);
    assert_eq!(10, bytes[1]);
    assert_eq!(1, bytes[2]);
    assert_eq!(0xF4u8, bytes[3]);
}

#[test]
fn add_to_string() {
    let rindx1 = RIndex::make(10u8);
    let rindx2 = RIndex::make(20u8);
    let rindx3 = RIndex::make(30u8);
    let add = Add::make(rindx1, rindx2, rindx3);
    assert_eq!("ADD $10 $20 $30", add.to_string())
}

#[test]
fn add_to_upper_hex() {
    let rindx1 = RIndex::make(10u8);
    let rindx2 = RIndex::make(20u8);
    let rindx3 = RIndex::make(30u8);
    let add = Add::make(rindx1, rindx2, rindx3);
    assert_eq!("ADD 0A 14 1E", add.to_upper_hex())
}

#[test]
fn add_to_lower_hex() {
    let rindx1 = RIndex::make(10u8);
    let rindx2 = RIndex::make(20u8);
    let rindx3 = RIndex::make(30u8);
    let add = Add::make(rindx1, rindx2, rindx3);
    assert_eq!("ADD 0a 14 1e", add.to_lower_hex())
}

#[test]
fn instruction_to_string() {
    let instruction = create_load();
    assert_eq!("LOAD $10 #500", instruction.to_string());

    let add = create_add();
    assert_eq!("ADD $10 $20 $30", add.to_string())
}

#[test]
fn instruction_to_upper_hex() {
    let instruction = create_load();
    assert_eq!("LOAD 0A 01F4", instruction.to_upper_hex());

    let add = create_add();
    assert_eq!("ADD 0A 14 1E", add.to_upper_hex())
}

#[test]
fn instruction_to_lower_hex() {
    let instruction = create_load();
    assert_eq!("LOAD 0a 01f4", instruction.to_lower_hex());

    let add = create_add();
    assert_eq!("ADD 0a 14 1e", add.to_lower_hex())
}

#[test]
fn program_to_string() {
    let i1 = create_load();
    let i2 = create_add();
    let program = Program::make(vec![i1, i2]);

    let s = program.to_string();
    let e = "LOAD $10 #500\nADD $10 $20 $30";

    assert_eq!(e, s)
}

#[test]
fn program_to_upper_hex() {
    let i1 = create_load();
    let i2 = create_add();
    let program = Program::make(vec![i1, i2]);

    let s = program.to_upper_hex();
    let e = "LOAD 0A 01F4\nADD 0A 14 1E";

    assert_eq!(e, s)
}

#[test]
fn program_to_lower_hex() {
    let i1 = create_load();
    let i2 = create_add();
    let program = Program::make(vec![i1, i2]);

    let s = program.to_lower_hex();
    let e = "LOAD 0a 01f4\nADD 0a 14 1e";

    assert_eq!(e, s)
}

#[test]
fn program_to_bytes() {
    let i1 = create_load();
    let i2 = create_add();
    let program = Program::make(vec![i1, i2]);
    let bytes: Vec<u8> = program.to_bytes();

    assert_eq!(8, bytes.len());
    assert_eq!(1, bytes[0]);
    assert_eq!(10, bytes[1]);
    assert_eq!(1, bytes[2]);
    assert_eq!(0xF4u8, bytes[3]);
    assert_eq!(2, bytes[4]);
    assert_eq!(10, bytes[5]);
    assert_eq!(20, bytes[6]);
    assert_eq!(30, bytes[7]);
}
