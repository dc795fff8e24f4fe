//! A byte buffer walked in four-byte steps, yielding the instruction
//! decoded at each record boundary.

use vstd::prelude::*;

use crate::instruction::Instruction;
use crate::instruction::spec_instr_bytes;
use crate::parse::ByteParse;
use crate::parse::ParseBytes;

verus! {

/// A buffer of program bytes.
pub struct PBytes(Vec<u8>);

/// Walks a [`PBytes`] buffer one four-byte record at a time.
pub struct PBytesIter<'a> {
    bytes: &'a Vec<u8>,
    cur: usize,
}

impl PBytes {
    /// The bytes held by the buffer.
    pub closed spec fn spec_bytes(&self) -> Seq<u8> {
        self.0@
    }

    /// Wraps a byte vector.
    pub fn make(bytes: Vec<u8>) -> (r: Self)
        ensures
            r.spec_bytes() == bytes@,
    {
        PBytes(bytes)
    }

    /// A walker positioned at the start of the buffer.
    pub fn iter(&self) -> (r: PBytesIter<'_>)
        ensures
            r.spec_bytes() == self.spec_bytes(),
            r.spec_cur() == 0,
    {
        PBytesIter { bytes: &self.0, cur: 0 }
    }
}

impl<'a> PBytesIter<'a> {
    /// The bytes being walked.
    pub closed spec fn spec_bytes(&self) -> Seq<u8> {
        self.bytes@
    }

    /// The current position, in bytes from the start.
    pub closed spec fn spec_cur(&self) -> nat {
        self.cur as nat
    }

    /// The instruction decoded at the current position, stepping four
    /// bytes forward; `None` once the buffer is exhausted or when the
    /// record here does not decode.
    pub fn next(&mut self) -> (r: Option<Instruction>)
        ensures
            final(self).spec_bytes() == old(self).spec_bytes(),
            old(self).spec_cur() > old(self).spec_bytes().len() ==> r is None
                && final(self).spec_cur() == old(self).spec_cur(),
            old(self).spec_cur() <= old(self).spec_bytes().len() ==> {
                &&& final(self).spec_cur() == if old(self).spec_cur() + 4 <= usize::MAX {
                    old(self).spec_cur() + 4
                } else {
                    usize::MAX as nat
                }
                &&& (match spec_instr_bytes(
                    old(self).spec_bytes().skip(old(self).spec_cur() as int),
                ) {
                    ByteParse::Done { value, .. } => r == Some(value),
                    ByteParse::Fail { .. } => r is None,
                })
            },
    {
        if self.cur > self.bytes.len() {
            return None;
        }
        let window = vstd::slice::slice_subrange(self.bytes.as_slice(), self.cur, self.bytes.len());
        proof {
            assert(window@ =~= self.bytes@.skip(self.cur as int));
        }
        let res = match Instruction::parse_bytes(window) {
            Ok((_, i)) => Some(i),
            Err(_) => None,
        };
        self.cur = self.cur.saturating_add(4);
        res
    }
}

} // verus!
