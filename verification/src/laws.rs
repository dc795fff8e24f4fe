//! The codec's laws: every serializer's output decodes back to the value
//! it came from, in all three representations, and the binary record is
//! always exactly four bytes. Each law is stated over the ghost grammar
//! that the executable encoders and decoders are specified against, so
//! it transfers to the executable functions through their contracts.

use vstd::prelude::*;

use crate::instruction::Instruction;
use crate::instruction::instr_bytes;
use crate::instruction::instr_hex_text;
use crate::instruction::instr_text;
use crate::instruction::lemma_instr_bytes_rt;
use crate::instruction::lemma_instr_text_rt;
use crate::instruction::spec_instr_bytes;
use crate::instruction::spec_instr_text;
use crate::parse::ByteParse;
use crate::parse::TextParse;
use crate::program::TextForm;
use crate::program::lemma_program_bytes_rt;
use crate::program::lemma_program_text_rt;
use crate::program::program_bytes;
use crate::program::program_hex_text;
use crate::program::program_text;
use crate::program::spec_program_bytes;
use crate::program::spec_program_text;

verus! {

/// Round trip, decimal: for every constructible instruction, decoding
/// its decimal rendering gives the instruction back, with no input left.
pub proof fn round_trip_decimal(i: Instruction)
    ensures
        spec_instr_text(instr_text(i), false) == (TextParse::Done {
            rest: Seq::<char>::empty(),
            value: i,
        }),
{
    lemma_instr_text_rt(i, false, false, Seq::<char>::empty());
    assert(instr_text(i) + Seq::<char>::empty() =~= instr_text(i));
}

/// Round trip, hex: for every instruction and either letter case,
/// decoding its hex-grammar rendering gives the instruction back, with
/// no input left.
pub proof fn round_trip_hex(i: Instruction, upper: bool)
    ensures
        spec_instr_text(instr_hex_text(i, upper), true) == (TextParse::Done {
            rest: Seq::<char>::empty(),
            value: i,
        }),
{
    lemma_instr_text_rt(i, true, upper, Seq::<char>::empty());
    assert(instr_hex_text(i, upper) + Seq::<char>::empty() =~= instr_hex_text(i, upper));
}

/// Round trip, binary: for every instruction, decoding its binary
/// record gives the instruction back, with no input left.
pub proof fn round_trip_binary(i: Instruction)
    ensures
        spec_instr_bytes(instr_bytes(i)) == (ByteParse::Done {
            rest: Seq::<u8>::empty(),
            value: i,
        }),
{
    lemma_instr_bytes_rt(i, Seq::<u8>::empty());
    assert(instr_bytes(i) + Seq::<u8>::empty() =~= instr_bytes(i));
}

/// Fixed width: the binary record of every instruction is exactly four
/// bytes, whatever its operand values.
pub proof fn binary_fixed_width(i: Instruction)
    ensures
        instr_bytes(i).len() == 4,
{
    lemma_instr_bytes_rt(i, Seq::<u8>::empty());
}

/// Program round trip, decimal text: decoding the newline-joined
/// decimal rendering of any instruction sequence gives back the same
/// sequence, in order, with no input left.
pub proof fn program_round_trip_decimal(p: Seq<Instruction>)
    ensures
        spec_program_text(program_text(p), false) == (TextParse::Done {
            rest: Seq::<char>::empty(),
            value: p,
        }),
{
    lemma_program_text_rt(p, TextForm::Dec);
}

/// Program round trip, hex text: decoding the newline-joined hex
/// rendering of any instruction sequence gives back the same sequence,
/// in order, with no input left.
pub proof fn program_round_trip_hex(p: Seq<Instruction>, upper: bool)
    ensures
        spec_program_text(program_hex_text(p, upper), true) == (TextParse::Done {
            rest: Seq::<char>::empty(),
            value: p,
        }),
{
    lemma_program_text_rt(p, TextForm::Hex { upper });
}

/// Program round trip, binary: decoding the concatenated records of any
/// instruction sequence gives back the same sequence, in order,
/// consuming every byte — so re-encoding what was decoded reproduces
/// the input bytes exactly.
pub proof fn program_round_trip_binary(p: Seq<Instruction>)
    ensures
        spec_program_bytes(program_bytes(p)) == (ByteParse::Done {
            rest: Seq::<u8>::empty(),
            value: p,
        }),
{
    lemma_program_bytes_rt(p);
}

} // verus!
