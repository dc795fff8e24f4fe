use lvm::Add;
use lvm::Instruction;
use lvm::Load;
use lvm::Operand16;
use lvm::PBytes;
use lvm::RIndex;
use lvm::VM;

fn create_load() -> Instruction {
    let rindx = RIndex::make(10u8);
    let oprnd = Operand16::make(500u16);
    let load = Load::make(rindx, oprnd);
    Instruction::LoadI(load)
}

fn create_add() -> Instruction {
    let rindx1 = RIndex::make(10u8);
    let rindx2 = RIndex::make(20u8);
    let rindx3 = RIndex::make(30u8);
    let add = Add::make(rindx1, rindx2, rindx3);
    Instruction::AddI(add)
}

fn make_load(indx: u8, value: u16) -> Load {
    let rindx = RIndex::make(indx);
    let oprnd = Operand16::make(value);
    Load::make(rindx, oprnd)
}

fn make_add(i1: u8, i2: u8, i3: u8) -> Add {
    let rindx1 = RIndex::make(i1);
    let rindx2 = RIndex::make(i2);
    let rindx3 = RIndex::make(i3);
    Add::make(rindx1, rindx2, rindx3)
}

#[test]
fn iter_pbytes() {
    let input = vec![1u8, 10u8, 1u8, 0xF4u8, 2u8, 10u8, 20u8, 30u8];
    let pbytes = PBytes::make(input);
    let mut iter = pbytes.iter();

    let load = create_load();
    assert_eq!(iter.next(), Some(load));

    let add = create_add();
    assert_eq!(iter.next(), Some(add));

    assert!(iter.next().is_none());
}

#[test]
fn load() {
    let mut vm = VM::new();

    vm.run_load(make_load(1, 200));
    assert_eq!(200, vm.register(1));

    vm.run_load(make_load(2, 300));
    assert_eq!(300, vm.register(2));

    vm.run_add(make_add(1, 2, 3));
    assert_eq!(200, vm.register(1));
    assert_eq!(300, vm.register(2));
    assert_eq!(500, vm.register(3));
}
