//! The executor: a register file of eight 16-bit slots and one apply
//! operation per opcode. The codec treats this as an external
//! collaborator; register bounds and overflow are the caller's burden,
//! stated here as preconditions.

use vstd::prelude::*;

use crate::add::Add;
use crate::load::Load;

verus! {

/// A machine with eight 16-bit registers.
pub struct VM {
    registers: Vec<u16>,
}

impl VM {
    /// The contents of the register file.
    pub closed spec fn spec_registers(&self) -> Seq<u16> {
        self.registers@
    }

    /// The register file always holds exactly eight slots.
    pub open spec fn wf(&self) -> bool {
        self.spec_registers().len() == 8
    }

    /// A machine with every register zero.
    pub fn new() -> (r: Self)
        ensures
            r.wf(),
            forall|j: int| 0 <= j < 8 ==> r.spec_registers()[j] == 0,
    {
        let mut registers: Vec<u16> = Vec::new();
        let mut k: usize = 0;
        while k < 8
            invariant
                k <= 8,
                registers@.len() == k,
                forall|j: int| 0 <= j < k ==> registers@[j] == 0,
            decreases 8 - k,
        {
            registers.push(0);
            k = k + 1;
        }
        VM { registers }
    }

    /// Reads one register.
    pub fn register(&self, idx: usize) -> (r: u16)
        requires
            self.wf(),
            idx < 8,
        ensures
            r == self.spec_registers()[idx as int],
    {
        self.registers[idx]
    }

    /// Writes the instruction's immediate value into its register.
    pub fn run_load(&mut self, load: Load)
        requires
            old(self).wf(),
            load.rindx.0 < 8,
        ensures
            final(self).wf(),
            final(self).spec_registers() == old(self).spec_registers().update(
                load.rindx.0 as int,
                load.oprnd.0,
            ),
    {
        let idx: u8 = load.index().index();
        let value: u16 = load.operand().value();
        self.registers.set(idx as usize, value);
    }

    /// Adds the two source registers into the destination register.
    pub fn run_add(&mut self, add: Add)
        requires
            old(self).wf(),
            add.rindx1.0 < 8,
            add.rindx2.0 < 8,
            add.rindx3.0 < 8,
            old(self).spec_registers()[add.rindx1.0 as int] + old(self).spec_registers()[
                add.rindx2.0 as int] <= u16::MAX,
        ensures
            final(self).wf(),
            final(self).spec_registers() == old(self).spec_registers().update(
                add.rindx3.0 as int,
                (old(self).spec_registers()[add.rindx1.0 as int] + old(self).spec_registers()[
                    add.rindx2.0 as int]) as u16,
            ),
    {
        let a: u8 = add.index1().index();
        let b: u8 = add.index2().index();
        let c: u8 = add.index3().index();
        let ttl = self.registers[a as usize] + self.registers[b as usize];
        self.registers.set(c as usize, ttl);
    }
}

} // verus!
