//! The load instruction: `LOAD $reg #imm16` in text, the four-byte
//! record `[1, reg, imm_hi, imm_lo]` in binary.

use vstd::prelude::*;

use crate::error::Context;
use crate::error::ErrorKind;
use crate::error::ParseError;
use crate::error::err_push;
use crate::operand16::Operand16;
use crate::operand16::operand16_hex_text;
use crate::operand16::operand16_text;
use crate::operand16::spec_operand16_bytes;
use crate::operand16::spec_operand16_text;
use crate::operand16::u16_hi;
use crate::operand16::u16_lo;
use crate::parse::ByteParse;
use crate::parse::ParseBytes;
use crate::parse::ParseResult;
use crate::parse::ParseString;
use crate::parse::TextParse;
use crate::parse::byte_fail;
use crate::parse::parse_tag;
use crate::parse::skip_ws;
use crate::parse::spec_tag_match;
use crate::parse::spec_ws1;
use crate::parse::text_fail;
use crate::rindex::RIndex;
use crate::rindex::rindex_hex_text;
use crate::rindex::rindex_text;
use crate::rindex::spec_rindex_bytes;
use crate::rindex::spec_rindex_text;
use crate::text::hex_fixed;

verus! {

/// The opcode id of the load instruction in the binary form.
pub const LOAD_ID: u8 = 1;

/// The mnemonic of the load instruction.
pub open spec fn load_mnemonic() -> Seq<char> {
    seq!['L', 'O', 'A', 'D']
}

/// The load instruction: it writes an immediate 16-bit value into a
/// register.
#[derive(Debug, PartialEq, Eq, Structural, Clone, Copy)]
pub struct Load {
    pub rindx: RIndex,
    pub oprnd: Operand16,
}

/// The decimal-text rendering of a load instruction.
pub open spec fn load_text(l: Load) -> Seq<char> {
    load_mnemonic() + seq![' '] + rindex_text(l.rindx) + seq![' '] + operand16_text(l.oprnd)
}

/// The hex-grammar rendering of a load instruction; its output
/// re-parses under the hex grammar.
pub open spec fn load_hex_text(l: Load, upper: bool) -> Seq<char> {
    load_mnemonic() + seq![' '] + rindex_hex_text(l.rindx, upper) + seq![' ']
        + operand16_hex_text(l.oprnd, upper)
}

/// The bare hex rendering of a load instruction: fixed-width hex digit
/// runs without the `$`/`#` prefixes, so it is display-only.
pub open spec fn load_plain_hex(l: Load, upper: bool) -> Seq<char> {
    load_mnemonic() + seq![' '] + hex_fixed(l.rindx.0 as nat, 2, upper) + seq![' ']
        + hex_fixed(l.oprnd.0 as nat, 4, upper)
}

/// The four-byte binary record of a load instruction.
pub open spec fn load_bytes(l: Load) -> Seq<u8> {
    seq![LOAD_ID, l.rindx.0, u16_hi(l.oprnd.0), u16_lo(l.oprnd.0)]
}

/// The ghost text parser for a load instruction: the mnemonic, then a
/// register and a 16-bit operand, each preceded by whitespace.
pub open spec fn spec_load_text(s: Seq<char>, hex: bool) -> TextParse<Load> {
    if !spec_tag_match(s, load_mnemonic()) {
        text_fail(ErrorKind::UnknownMnemonic, Context::Load)
    } else {
        match spec_ws1(s.skip(4), Context::Load) {
            TextParse::Fail { err } => TextParse::Fail { err },
            TextParse::Done { rest: s1, value: _ } => match spec_rindex_text(s1, hex) {
                TextParse::Fail { err } => TextParse::Fail { err: err_push(err, Context::Load) },
                TextParse::Done { rest: s2, value: rindx } => match spec_ws1(s2, Context::Load) {
                    TextParse::Fail { err } => TextParse::Fail { err },
                    TextParse::Done { rest: s3, value: _ } => match spec_operand16_text(s3, hex) {
                        TextParse::Fail { err } => TextParse::Fail {
                            err: err_push(err, Context::Load),
                        },
                        TextParse::Done { rest: s4, value: oprnd } => TextParse::Done {
                            rest: s4,
                            value: Load { rindx, oprnd },
                        },
                    },
                },
            },
        }
    }
}

/// The ghost binary parser for a load instruction: the id byte, then a
/// register byte and a big-endian 16-bit operand.
pub open spec fn spec_load_bytes(s: Seq<u8>) -> ByteParse<Load> {
    if s.len() == 0 {
        byte_fail(ErrorKind::UnexpectedEndOfInput, Context::Load)
    } else if s[0] != LOAD_ID {
        byte_fail(ErrorKind::UnknownOpcode(s[0]), Context::Load)
    } else {
        match spec_rindex_bytes(s.skip(1)) {
            ByteParse::Fail { err } => ByteParse::Fail { err: err_push(err, Context::Load) },
            ByteParse::Done { rest: s1, value: rindx } => match spec_operand16_bytes(s1) {
                ByteParse::Fail { err } => ByteParse::Fail { err: err_push(err, Context::Load) },
                ByteParse::Done { rest: s2, value: oprnd } => ByteParse::Done {
                    rest: s2,
                    value: Load { rindx, oprnd },
                },
            },
        }
    }
}

/// A successfully parsed load instruction consumes at least one
/// character of text.
pub proof fn lemma_load_text_suffix(s: Seq<char>, hex: bool)
    ensures
        spec_load_text(s, hex) matches TextParse::Done { rest, .. } ==> rest.len() < s.len(),
{
    if spec_tag_match(s, load_mnemonic()) {
        let s0 = s.skip(4);
        crate::parse::lemma_ws_len_le(s0);
        if crate::parse::ws_len(s0) > 0 {
            let s1 = s0.skip(crate::parse::ws_len(s0) as int);
            crate::parse::lemma_number_suffix(s1, '$', 255, hex, Context::Register);
            match spec_rindex_text(s1, hex) {
                TextParse::Done { rest: s2, value: _ } => {
                    crate::parse::lemma_ws_len_le(s2);
                    if crate::parse::ws_len(s2) > 0 {
                        let s3 = s2.skip(crate::parse::ws_len(s2) as int);
                        crate::parse::lemma_number_suffix(s3, '#', 65535, hex, Context::Operand16);
                    }
                },
                TextParse::Fail { .. } => {},
            }
        }
    }
}

/// Round trip: the decimal rendering of a load instruction, followed by
/// anything that does not extend its last digit run, parses back to the
/// same instruction.
pub proof fn lemma_load_rt_dec(l: Load, rest: Seq<char>)
    requires
        rest.len() == 0 || !crate::text::is_dec_digit(rest[0]),
    ensures
        spec_load_text(load_text(l) + rest, false) == (TextParse::Done { rest, value: l }),
{
    let rv = l.rindx.0 as nat;
    let ov = l.oprnd.0 as nat;
    let dr = crate::text::dec_digits(rv);
    let dv = crate::text::dec_digits(ov);
    crate::text::lemma_dec_digits_wf(rv);
    crate::text::lemma_dec_digits_wf(ov);
    let s = load_text(l) + rest;
    assert(s.subrange(0, 4) =~= load_mnemonic());
    let rest1 = seq![' '] + seq!['#'] + dv + rest;
    let s0 = s.skip(4);
    assert(s0 =~= seq![' '] + seq!['$'] + dr + rest1);
    assert(!crate::text::is_space(s0[1]));
    crate::parse::lemma_ws_len_is(s0, 1);
    let s1 = s0.skip(1);
    assert(s1 =~= seq!['$'] + dr + rest1);
    assert(rest1[0] == ' ');
    crate::parse::lemma_number_rt_dec('$', rv, 255, Context::Register, rest1);
    assert(RIndex(rv as u8) == l.rindx);
    assert(!crate::text::is_space(rest1[1]));
    crate::parse::lemma_ws_len_is(rest1, 1);
    let s3 = rest1.skip(1);
    assert(s3 =~= seq!['#'] + dv + rest);
    crate::parse::lemma_number_rt_dec('#', ov, 65535, Context::Operand16, rest);
    assert(crate::operand16::Operand16(ov as u16) == l.oprnd);
}

/// Round trip: the hex-grammar rendering of a load instruction, followed
/// by anything that does not extend its last digit run, parses back to
/// the same instruction.
pub proof fn lemma_load_rt_hex(l: Load, upper: bool, rest: Seq<char>)
    requires
        rest.len() == 0 || !crate::text::is_hex_digit(rest[0]),
    ensures
        spec_load_text(load_hex_text(l, upper) + rest, true) == (TextParse::Done {
            rest,
            value: l,
        }),
{
    let rv = l.rindx.0 as nat;
    let ov = l.oprnd.0 as nat;
    let dr = crate::text::hex_fixed(rv, 2, upper);
    let dv = crate::text::hex_fixed(ov, 4, upper);
    crate::text::lemma_hex_fixed_wf(rv, 2, upper);
    crate::text::lemma_hex_fixed_wf(ov, 4, upper);
    assert(crate::text::pow16(0) == 1);
    assert(crate::text::pow16(1) == 16);
    assert(crate::text::pow16(2) == 256);
    assert(crate::text::pow16(3) == 4096);
    assert(crate::text::pow16(4) == 65536);
    let s = load_hex_text(l, upper) + rest;
    assert(s.subrange(0, 4) =~= load_mnemonic());
    let rest1 = seq![' '] + seq!['#'] + dv + rest;
    let s0 = s.skip(4);
    assert(s0 =~= seq![' '] + seq!['$'] + dr + rest1);
    assert(!crate::text::is_space(s0[1]));
    crate::parse::lemma_ws_len_is(s0, 1);
    let s1 = s0.skip(1);
    assert(s1 =~= seq!['$'] + dr + rest1);
    assert(rest1[0] == ' ');
    crate::parse::lemma_number_rt_hex('$', rv, 2, upper, 255, Context::Register, rest1);
    assert(RIndex(rv as u8) == l.rindx);
    assert(!crate::text::is_space(rest1[1]));
    crate::parse::lemma_ws_len_is(rest1, 1);
    let s3 = rest1.skip(1);
    assert(s3 =~= seq!['#'] + dv + rest);
    crate::parse::lemma_number_rt_hex('#', ov, 4, upper, 65535, Context::Operand16, rest);
    assert(crate::operand16::Operand16(ov as u16) == l.oprnd);
}

/// Round trip: the binary record of a load instruction, followed by
/// anything at all, parses back to the same instruction.
pub proof fn lemma_load_bytes_rt(l: Load, rest: Seq<u8>)
    ensures
        spec_load_bytes(load_bytes(l) + rest) == (ByteParse::Done { rest, value: l }),
{
    let s = load_bytes(l) + rest;
    assert(s[0] == LOAD_ID);
    let s1 = s.skip(1);
    assert(s1 =~= seq![l.rindx.0, u16_hi(l.oprnd.0), u16_lo(l.oprnd.0)] + rest);
    assert(s1[0] == l.rindx.0);
    let s2 = s1.skip(1);
    assert(s2 =~= seq![u16_hi(l.oprnd.0), u16_lo(l.oprnd.0)] + rest);
    assert(s2[0] == u16_hi(l.oprnd.0));
    assert(s2[1] == u16_lo(l.oprnd.0));
    assert((u16_hi(l.oprnd.0) * 256 + u16_lo(l.oprnd.0)) as u16 == l.oprnd.0);
    let s3 = s2.skip(2);
    assert(s3 =~= rest);
    assert(RIndex(l.rindx.0) == l.rindx);
    assert(crate::operand16::Operand16(l.oprnd.0) == l.oprnd);
}

/// A successfully parsed binary load record is exactly four bytes.
pub proof fn lemma_load_bytes_rest(s: Seq<u8>)
    ensures
        spec_load_bytes(s) matches ByteParse::Done { rest, .. } ==> s.len() >= 4 && rest
            == s.skip(4),
{
    if s.len() > 0 && s[0] == LOAD_ID && s.skip(1).len() >= 1 && s.skip(1).skip(1).len() >= 2 {
        assert(s.skip(1).skip(1).skip(2) =~= s.skip(4));
    }
}

impl Load {
    /// Creates a [`Load`] instance.
    pub fn make(rindx: RIndex, oprnd: Operand16) -> (r: Self)
        ensures
            r == (Load { rindx, oprnd }),
    {
        Load { rindx, oprnd }
    }

    /// Returns the register index.
    pub fn index(&self) -> (r: RIndex)
        ensures
            r == self.rindx,
    {
        self.rindx
    }

    /// Returns the operand.
    pub fn operand(&self) -> (r: Operand16)
        ensures
            r == self.oprnd,
    {
        self.oprnd
    }

    /// The decimal-text rendering, e.g. `LOAD $10 #500`.
    pub fn to_string(&self) -> (r: String)
        ensures
            r@ == load_text(*self),
    {
        let mut s = String::new();
        proof {
            reveal_strlit("LOAD ");
            reveal_strlit(" ");
        }
        s.append("LOAD ");
        let rs = self.rindx.to_string();
        s.append(rs.as_str());
        s.append(" ");
        let os = self.oprnd.to_string();
        s.append(os.as_str());
        proof {
            assert(s@ =~= load_text(*self));
        }
        s
    }

    /// The bare upper-case hex rendering, e.g. `LOAD 0A 01F4`.
    pub fn to_upper_hex(&self) -> (r: String)
        ensures
            r@ == load_plain_hex(*self, true),
    {
        self.plain_hex(true)
    }

    /// The bare lower-case hex rendering, e.g. `LOAD 0a 01f4`.
    pub fn to_lower_hex(&self) -> (r: String)
        ensures
            r@ == load_plain_hex(*self, false),
    {
        self.plain_hex(false)
    }

    fn plain_hex(&self, upper: bool) -> (r: String)
        ensures
            r@ == load_plain_hex(*self, upper),
    {
        let mut s = String::new();
        proof {
            reveal_strlit("LOAD ");
            reveal_strlit(" ");
        }
        s.append("LOAD ");
        let rs = if upper {
            self.rindx.to_upper_hex()
        } else {
            self.rindx.to_lower_hex()
        };
        s.append(rs.as_str());
        s.append(" ");
        let os = if upper {
            self.oprnd.to_upper_hex()
        } else {
            self.oprnd.to_lower_hex()
        };
        s.append(os.as_str());
        proof {
            assert(s@ =~= load_plain_hex(*self, upper));
        }
        s
    }

    /// The hex-grammar rendering, e.g. `LOAD $0A #01F4`; unlike
    /// [`Load::to_upper_hex`], its output re-parses.
    pub fn to_hex_string(&self, upper: bool) -> (r: String)
        ensures
            r@ == load_hex_text(*self, upper),
    {
        let mut s = String::new();
        proof {
            reveal_strlit("LOAD ");
            reveal_strlit(" ");
        }
        s.append("LOAD ");
        let rs = self.rindx.to_hex_string(upper);
        s.append(rs.as_str());
        s.append(" ");
        let os = self.oprnd.to_hex_string(upper);
        s.append(os.as_str());
        proof {
            assert(s@ =~= load_hex_text(*self, upper));
        }
        s
    }

    /// The four-byte binary record: id, register, then the operand in
    /// big-endian order.
    pub fn to_bytes(&self) -> (r: [u8; 4])
        ensures
            r@ == load_bytes(*self),
    {
        let hi = (self.oprnd.0 / 256) as u8;
        let lo = (self.oprnd.0 % 256) as u8;
        let r = [LOAD_ID, self.rindx.0, hi, lo];
        proof {
            assert(r@ =~= load_bytes(*self));
        }
        r
    }
}

/// Decodes a leading load instruction from text in either digit
/// alphabet.
fn load_from_text(input: &str, hex: bool) -> (r: ParseResult<&str, Load>)
    ensures
        match r {
            Ok((rest, v)) => spec_load_text(input@, hex) == (TextParse::Done {
                rest: rest@,
                value: v,
            }),
            Err(e) => spec_load_text(input@, hex) == (TextParse::Fail::<Load> { err: e@ }),
        },
{
    proof {
        reveal_strlit("LOAD");
        assert("LOAD"@ =~= load_mnemonic());
    }
    let rest0 = match parse_tag(input, "LOAD") {
        None => {
            return Err(ParseError::at(ErrorKind::UnknownMnemonic, Context::Load));
        },
        Some(rest) => rest,
    };
    let (wn, rest1) = skip_ws(rest0);
    if wn == 0 {
        return Err(ParseError::at(ErrorKind::MalformedOperand, Context::Load));
    }
    let r1 = if hex {
        RIndex::parse_hex_str(rest1)
    } else {
        RIndex::parse_str(rest1)
    };
    let (rest2, rindx) = match r1 {
        Ok(p) => p,
        Err(e) => {
            return Err(e.wrap(Context::Load));
        },
    };
    let (wn2, rest3) = skip_ws(rest2);
    if wn2 == 0 {
        return Err(ParseError::at(ErrorKind::MalformedOperand, Context::Load));
    }
    let r2 = if hex {
        Operand16::parse_hex_str(rest3)
    } else {
        Operand16::parse_str(rest3)
    };
    let (rest4, oprnd) = match r2 {
        Ok(p) => p,
        Err(e) => {
            return Err(e.wrap(Context::Load));
        },
    };
    Ok((rest4, Load { rindx, oprnd }))
}

impl ParseString for Load {
    type Output = Load;

    fn parse_str(input: &str) -> (r: ParseResult<&str, Load>)
        ensures
            match r {
                Ok((rest, v)) => spec_load_text(input@, false) == (TextParse::Done {
                    rest: rest@,
                    value: v,
                }),
                Err(e) => spec_load_text(input@, false) == (TextParse::Fail::<Load> { err: e@ }),
            },
    {
        load_from_text(input, false)
    }

    fn parse_hex_str(input: &str) -> (r: ParseResult<&str, Load>)
        ensures
            match r {
                Ok((rest, v)) => spec_load_text(input@, true) == (TextParse::Done {
                    rest: rest@,
                    value: v,
                }),
                Err(e) => spec_load_text(input@, true) == (TextParse::Fail::<Load> { err: e@ }),
            },
    {
        load_from_text(input, true)
    }
}

impl ParseBytes for Load {
    type Output = Load;

    fn parse_bytes(input: &[u8]) -> (r: ParseResult<&[u8], Load>)
        ensures
            match r {
                Ok((rest, v)) => spec_load_bytes(input@) == (ByteParse::Done {
                    rest: rest@,
                    value: v,
                }),
                Err(e) => spec_load_bytes(input@) == (ByteParse::Fail::<Load> { err: e@ }),
            },
    {
        if input.len() == 0 {
            return Err(ParseError::at(ErrorKind::UnexpectedEndOfInput, Context::Load));
        }
        let b0 = *vstd::slice::slice_index_get(input, 0);
        if b0 != LOAD_ID {
            return Err(ParseError::at(ErrorKind::UnknownOpcode(b0), Context::Load));
        }
        let rest0 = vstd::slice::slice_subrange(input, 1, input.len());
        proof {
            assert(rest0@ =~= input@.skip(1));
        }
        let (rest1, rindx) = match RIndex::parse_bytes(rest0) {
            Ok(p) => p,
            Err(e) => {
                return Err(e.wrap(Context::Load));
            },
        };
        let (rest2, oprnd) = match Operand16::parse_bytes(rest1) {
            Ok(p) => p,
            Err(e) => {
                return Err(e.wrap(Context::Load));
            },
        };
        Ok((rest2, Load { rindx, oprnd }))
    }
}

} // verus!
