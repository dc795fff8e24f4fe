//! The instruction dispatcher: a tagged union over the known opcodes,
//! with one decode operation per representation. Text decoding tries
//! each mnemonic in turn; binary decoding is directed by the id byte.
//! An alternative is only skipped on a mnemonic or id mismatch — a
//! matching mnemonic whose operands fail to parse is a hard error.

use vstd::prelude::*;

use crate::add::Add;
use crate::add::add_bytes;
use crate::add::add_hex_text;
use crate::add::add_plain_hex;
use crate::add::add_text;
use crate::add::spec_add_bytes;
use crate::add::spec_add_text;
use crate::error::Context;
use crate::error::ErrorKind;
use crate::error::ParseError;
use crate::error::err_push;
use crate::load::Load;
use crate::load::load_bytes;
use crate::load::load_hex_text;
use crate::load::load_plain_hex;
use crate::load::load_text;
use crate::load::spec_load_bytes;
use crate::load::spec_load_text;
use crate::parse::ByteParse;
use crate::parse::ParseBytes;
use crate::parse::ParseResult;
use crate::parse::ParseString;
use crate::parse::TextParse;
use crate::parse::byte_fail;
use crate::parse::text_fail;

verus! {

/// One instruction of the machine.
#[derive(Debug, PartialEq, Eq, Structural, Clone, Copy)]
pub enum Instruction {
    LoadI(Load),
    AddI(Add),
}

/// The decimal-text rendering of an instruction.
pub open spec fn instr_text(i: Instruction) -> Seq<char> {
    match i {
        Instruction::LoadI(l) => load_text(l),
        Instruction::AddI(a) => add_text(a),
    }
}

/// The hex-grammar rendering of an instruction.
pub open spec fn instr_hex_text(i: Instruction, upper: bool) -> Seq<char> {
    match i {
        Instruction::LoadI(l) => load_hex_text(l, upper),
        Instruction::AddI(a) => add_hex_text(a, upper),
    }
}

/// The bare, display-only hex rendering of an instruction.
pub open spec fn instr_plain_hex(i: Instruction, upper: bool) -> Seq<char> {
    match i {
        Instruction::LoadI(l) => load_plain_hex(l, upper),
        Instruction::AddI(a) => add_plain_hex(a, upper),
    }
}

/// The four-byte binary record of an instruction.
pub open spec fn instr_bytes(i: Instruction) -> Seq<u8> {
    match i {
        Instruction::LoadI(l) => load_bytes(l),
        Instruction::AddI(a) => add_bytes(a),
    }
}

/// The ghost text dispatcher: try each opcode's grammar in turn; only a
/// mnemonic mismatch falls through to the next alternative.
pub open spec fn spec_instr_text(s: Seq<char>, hex: bool) -> TextParse<Instruction> {
    match spec_load_text(s, hex) {
        TextParse::Done { rest, value } => TextParse::Done {
            rest,
            value: Instruction::LoadI(value),
        },
        TextParse::Fail { err } => {
            if err.kind == ErrorKind::UnknownMnemonic {
                match spec_add_text(s, hex) {
                    TextParse::Done { rest, value } => TextParse::Done {
                        rest,
                        value: Instruction::AddI(value),
                    },
                    TextParse::Fail { err: err2 } => {
                        if err2.kind == ErrorKind::UnknownMnemonic {
                            text_fail(ErrorKind::UnknownMnemonic, Context::Instruction)
                        } else {
                            TextParse::Fail { err: err_push(err2, Context::Instruction) }
                        }
                    },
                }
            } else {
                TextParse::Fail { err: err_push(err, Context::Instruction) }
            }
        },
    }
}

/// The ghost binary dispatcher: decode is directed by the id byte; only
/// an id mismatch falls through to the next alternative.
pub open spec fn spec_instr_bytes(s: Seq<u8>) -> ByteParse<Instruction> {
    match spec_load_bytes(s) {
        ByteParse::Done { rest, value } => ByteParse::Done {
            rest,
            value: Instruction::LoadI(value),
        },
        ByteParse::Fail { err } => {
            if err.kind matches ErrorKind::UnknownOpcode(_) {
                match spec_add_bytes(s) {
                    ByteParse::Done { rest, value } => ByteParse::Done {
                        rest,
                        value: Instruction::AddI(value),
                    },
                    ByteParse::Fail { err: err2 } => {
                        if err2.kind matches ErrorKind::UnknownOpcode(_) {
                            byte_fail(ErrorKind::UnknownOpcode(s[0]), Context::Instruction)
                        } else {
                            ByteParse::Fail { err: err_push(err2, Context::Instruction) }
                        }
                    },
                }
            } else {
                ByteParse::Fail { err: err_push(err, Context::Instruction) }
            }
        },
    }
}

/// A successfully parsed instruction consumes at least one character of
/// text.
pub proof fn lemma_instr_text_suffix(s: Seq<char>, hex: bool)
    ensures
        spec_instr_text(s, hex) matches TextParse::Done { rest, .. } ==> rest.len() < s.len(),
{
    crate::load::lemma_load_text_suffix(s, hex);
    crate::add::lemma_add_text_suffix(s, hex);
}

/// A successfully parsed binary instruction record is exactly four
/// bytes.
pub proof fn lemma_instr_bytes_rest(s: Seq<u8>)
    ensures
        spec_instr_bytes(s) matches ByteParse::Done { rest, .. } ==> s.len() >= 4 && rest
            == s.skip(4),
{
    crate::load::lemma_load_bytes_rest(s);
    crate::add::lemma_add_bytes_rest(s);
}

/// Round trip: the text rendering of an instruction — decimal, or the
/// hex grammar in either letter case — followed by anything that does
/// not extend its last digit run, parses back to the same instruction.
pub proof fn lemma_instr_text_rt(i: Instruction, hex: bool, upper: bool, rest: Seq<char>)
    requires
        rest.len() == 0 || !crate::text::digit_ok(rest[0], hex),
    ensures
        spec_instr_text(
            (if hex {
                instr_hex_text(i, upper)
            } else {
                instr_text(i)
            }) + rest,
            hex,
        ) == (TextParse::Done { rest, value: i }),
{
    let enc = if hex {
        instr_hex_text(i, upper)
    } else {
        instr_text(i)
    };
    let s = enc + rest;
    match i {
        Instruction::LoadI(l) => {
            if hex {
                crate::load::lemma_load_rt_hex(l, upper, rest);
            } else {
                crate::load::lemma_load_rt_dec(l, rest);
            }
        },
        Instruction::AddI(a) => {
            assert(s[0] == 'A');
            if crate::parse::spec_tag_match(s, crate::load::load_mnemonic()) {
                assert(s.subrange(0, 4)[0] == s[0]);
                assert(false);
            }
            if hex {
                crate::add::lemma_add_rt_hex(a, upper, rest);
            } else {
                crate::add::lemma_add_rt_dec(a, rest);
            }
        },
    }
}

/// Round trip: the binary record of an instruction, followed by
/// anything at all, parses back to the same instruction; the record is
/// exactly four bytes long, whatever the operand values.
pub proof fn lemma_instr_bytes_rt(i: Instruction, rest: Seq<u8>)
    ensures
        spec_instr_bytes(instr_bytes(i) + rest) == (ByteParse::Done { rest, value: i }),
        instr_bytes(i).len() == 4,
{
    let s = instr_bytes(i) + rest;
    match i {
        Instruction::LoadI(l) => {
            crate::load::lemma_load_bytes_rt(l, rest);
        },
        Instruction::AddI(a) => {
            assert(s[0] == crate::add::ADD_ID);
            crate::add::lemma_add_bytes_rt(a, rest);
        },
    }
}

impl Instruction {
    /// The decimal-text rendering of this instruction.
    pub fn to_string(&self) -> (r: String)
        ensures
            r@ == instr_text(*self),
    {
        match self {
            Instruction::LoadI(l) => l.to_string(),
            Instruction::AddI(a) => a.to_string(),
        }
    }

    /// The bare upper-case hex rendering of this instruction.
    pub fn to_upper_hex(&self) -> (r: String)
        ensures
            r@ == instr_plain_hex(*self, true),
    {
        match self {
            Instruction::LoadI(l) => l.to_upper_hex(),
            Instruction::AddI(a) => a.to_upper_hex(),
        }
    }

    /// The bare lower-case hex rendering of this instruction.
    pub fn to_lower_hex(&self) -> (r: String)
        ensures
            r@ == instr_plain_hex(*self, false),
    {
        match self {
            Instruction::LoadI(l) => l.to_lower_hex(),
            Instruction::AddI(a) => a.to_lower_hex(),
        }
    }

    /// The hex-grammar rendering of this instruction; unlike
    /// [`Instruction::to_upper_hex`], its output re-parses.
    pub fn to_hex_string(&self, upper: bool) -> (r: String)
        ensures
            r@ == instr_hex_text(*self, upper),
    {
        match self {
            Instruction::LoadI(l) => l.to_hex_string(upper),
            Instruction::AddI(a) => a.to_hex_string(upper),
        }
    }

    /// The four-byte binary record of this instruction.
    pub fn to_bytes(&self) -> (r: [u8; 4])
        ensures
            r@ == instr_bytes(*self),
    {
        match self {
            Instruction::LoadI(l) => l.to_bytes(),
            Instruction::AddI(a) => a.to_bytes(),
        }
    }
}

/// Decodes a leading instruction from text in either digit alphabet.
pub(crate) fn instr_from_text(input: &str, hex: bool) -> (r: ParseResult<&str, Instruction>)
    ensures
        match r {
            Ok((rest, v)) => spec_instr_text(input@, hex) == (TextParse::Done {
                rest: rest@,
                value: v,
            }),
            Err(e) => spec_instr_text(input@, hex) == (TextParse::Fail::<Instruction> {
                err: e@,
            }),
        },
{
    let rl = if hex {
        Load::parse_hex_str(input)
    } else {
        Load::parse_str(input)
    };
    match rl {
        Ok((rest, l)) => Ok((rest, Instruction::LoadI(l))),
        Err(e) => {
            if !matches!(e.kind, ErrorKind::UnknownMnemonic) {
                return Err(e.wrap(Context::Instruction));
            }
            let ra = if hex {
                Add::parse_hex_str(input)
            } else {
                Add::parse_str(input)
            };
            match ra {
                Ok((rest, a)) => Ok((rest, Instruction::AddI(a))),
                Err(e2) => {
                    if matches!(e2.kind, ErrorKind::UnknownMnemonic) {
                        Err(ParseError::at(ErrorKind::UnknownMnemonic, Context::Instruction))
                    } else {
                        Err(e2.wrap(Context::Instruction))
                    }
                },
            }
        },
    }
}

impl ParseString for Instruction {
    type Output = Instruction;

    fn parse_str(input: &str) -> (r: ParseResult<&str, Instruction>)
        ensures
            match r {
                Ok((rest, v)) => spec_instr_text(input@, false) == (TextParse::Done {
                    rest: rest@,
                    value: v,
                }),
                Err(e) => spec_instr_text(input@, false) == (TextParse::Fail::<Instruction> {
                    err: e@,
                }),
            },
    {
        instr_from_text(input, false)
    }

    fn parse_hex_str(input: &str) -> (r: ParseResult<&str, Instruction>)
        ensures
            match r {
                Ok((rest, v)) => spec_instr_text(input@, true) == (TextParse::Done {
                    rest: rest@,
                    value: v,
                }),
                Err(e) => spec_instr_text(input@, true) == (TextParse::Fail::<Instruction> {
                    err: e@,
                }),
            },
    {
        instr_from_text(input, true)
    }
}

impl ParseBytes for Instruction {
    type Output = Instruction;

    fn parse_bytes(input: &[u8]) -> (r: ParseResult<&[u8], Instruction>)
        ensures
            match r {
                Ok((rest, v)) => spec_instr_bytes(input@) == (ByteParse::Done {
                    rest: rest@,
                    value: v,
                }),
                Err(e) => spec_instr_bytes(input@) == (ByteParse::Fail::<Instruction> {
                    err: e@,
                }),
            },
    {
        match Load::parse_bytes(input) {
            Ok((rest, l)) => Ok((rest, Instruction::LoadI(l))),
            Err(e) => {
                if !matches!(e.kind, ErrorKind::UnknownOpcode(_)) {
                    return Err(e.wrap(Context::Instruction));
                }
                match Add::parse_bytes(input) {
                    Ok((rest, a)) => Ok((rest, Instruction::AddI(a))),
                    Err(e2) => {
                        if matches!(e2.kind, ErrorKind::UnknownOpcode(_)) {
                            proof {
                                assert(input@.len() > 0);
                            }
                            let b0 = *vstd::slice::slice_index_get(input, 0);
                            Err(ParseError::at(ErrorKind::UnknownOpcode(b0), Context::Instruction))
                        } else {
                            Err(e2.wrap(Context::Instruction))
                        }
                    },
                }
            },
        }
    }
}

} // verus!
