//! The add instruction: `ADD $a $b $c` in text, the four-byte record
//! `[2, a, b, c]` in binary.

use vstd::prelude::*;

use crate::error::Context;
use crate::error::ErrorKind;
use crate::error::ParseError;
use crate::error::err_push;
use crate::parse::ByteParse;
use crate::parse::ParseBytes;
use crate::parse::ParseResult;
use crate::parse::ParseString;
use crate::parse::TextParse;
use crate::parse::byte_fail;
use crate::parse::parse_tag;
use crate::parse::skip_ws;
use crate::parse::spec_tag_match;
use crate::parse::spec_ws1;
use crate::parse::text_fail;
use crate::rindex::RIndex;
use crate::rindex::rindex_hex_text;
use crate::rindex::rindex_text;
use crate::rindex::spec_rindex_bytes;
use crate::rindex::spec_rindex_text;
use crate::text::hex_fixed;

verus! {

/// The opcode id of the add instruction in the binary form.
pub const ADD_ID: u8 = 2;

/// The mnemonic of the add instruction.
pub open spec fn add_mnemonic() -> Seq<char> {
    seq!['A', 'D', 'D']
}

/// The add instruction: it adds the first two registers into the third.
#[derive(Debug, PartialEq, Eq, Structural, Clone, Copy)]
pub struct Add {
    pub rindx1: RIndex,
    pub rindx2: RIndex,
    pub rindx3: RIndex,
}

/// The decimal-text rendering of an add instruction.
pub open spec fn add_text(a: Add) -> Seq<char> {
    add_mnemonic() + seq![' '] + rindex_text(a.rindx1) + seq![' '] + rindex_text(a.rindx2)
        + seq![' '] + rindex_text(a.rindx3)
}

/// The hex-grammar rendering of an add instruction; its output
/// re-parses under the hex grammar.
pub open spec fn add_hex_text(a: Add, upper: bool) -> Seq<char> {
    add_mnemonic() + seq![' '] + rindex_hex_text(a.rindx1, upper) + seq![' ']
        + rindex_hex_text(a.rindx2, upper) + seq![' '] + rindex_hex_text(a.rindx3, upper)
}

/// The bare hex rendering of an add instruction: fixed-width hex digit
/// runs without the `$` prefixes, so it is display-only.
pub open spec fn add_plain_hex(a: Add, upper: bool) -> Seq<char> {
    add_mnemonic() + seq![' '] + hex_fixed(a.rindx1.0 as nat, 2, upper) + seq![' ']
        + hex_fixed(a.rindx2.0 as nat, 2, upper) + seq![' '] + hex_fixed(
        a.rindx3.0 as nat,
        2,
        upper,
    )
}

/// The four-byte binary record of an add instruction.
pub open spec fn add_bytes(a: Add) -> Seq<u8> {
    seq![ADD_ID, a.rindx1.0, a.rindx2.0, a.rindx3.0]
}

/// The ghost text parser for an add instruction: the mnemonic, then
/// three registers, each preceded by whitespace.
pub open spec fn spec_add_text(s: Seq<char>, hex: bool) -> TextParse<Add> {
    if !spec_tag_match(s, add_mnemonic()) {
        text_fail(ErrorKind::UnknownMnemonic, Context::Add)
    } else {
        match spec_ws1(s.skip(3), Context::Add) {
            TextParse::Fail { err } => TextParse::Fail { err },
            TextParse::Done { rest: s1, value: _ } => match spec_rindex_text(s1, hex) {
                TextParse::Fail { err } => TextParse::Fail { err: err_push(err, Context::Add) },
                TextParse::Done { rest: s2, value: rindx1 } => match spec_ws1(s2, Context::Add) {
                    TextParse::Fail { err } => TextParse::Fail { err },
                    TextParse::Done { rest: s3, value: _ } => match spec_rindex_text(s3, hex) {
                        TextParse::Fail { err } => TextParse::Fail {
                            err: err_push(err, Context::Add),
                        },
                        TextParse::Done { rest: s4, value: rindx2 } => match spec_ws1(
                            s4,
                            Context::Add,
                        ) {
                            TextParse::Fail { err } => TextParse::Fail { err },
                            TextParse::Done { rest: s5, value: _ } => match spec_rindex_text(
                                s5,
                                hex,
                            ) {
                                TextParse::Fail { err } => TextParse::Fail {
                                    err: err_push(err, Context::Add),
                                },
                                TextParse::Done { rest: s6, value: rindx3 } => TextParse::Done {
                                    rest: s6,
                                    value: Add { rindx1, rindx2, rindx3 },
                                },
                            },
                        },
                    },
                },
            },
        }
    }
}

/// The ghost binary parser for an add instruction: the id byte, then
/// three register bytes.
pub open spec fn spec_add_bytes(s: Seq<u8>) -> ByteParse<Add> {
    if s.len() == 0 {
        byte_fail(ErrorKind::UnexpectedEndOfInput, Context::Add)
    } else if s[0] != ADD_ID {
        byte_fail(ErrorKind::UnknownOpcode(s[0]), Context::Add)
    } else {
        match spec_rindex_bytes(s.skip(1)) {
            ByteParse::Fail { err } => ByteParse::Fail { err: err_push(err, Context::Add) },
            ByteParse::Done { rest: s1, value: rindx1 } => match spec_rindex_bytes(s1) {
                ByteParse::Fail { err } => ByteParse::Fail { err: err_push(err, Context::Add) },
                ByteParse::Done { rest: s2, value: rindx2 } => match spec_rindex_bytes(s2) {
                    ByteParse::Fail { err } => ByteParse::Fail {
                        err: err_push(err, Context::Add),
                    },
                    ByteParse::Done { rest: s3, value: rindx3 } => ByteParse::Done {
                        rest: s3,
                        value: Add { rindx1, rindx2, rindx3 },
                    },
                },
            },
        }
    }
}

/// A successfully parsed add instruction consumes at least one
/// character of text.
pub proof fn lemma_add_text_suffix(s: Seq<char>, hex: bool)
    ensures
        spec_add_text(s, hex) matches TextParse::Done { rest, .. } ==> rest.len() < s.len(),
{
    if spec_tag_match(s, add_mnemonic()) {
        let s0 = s.skip(3);
        crate::parse::lemma_ws_len_le(s0);
        if crate::parse::ws_len(s0) > 0 {
            let s1 = s0.skip(crate::parse::ws_len(s0) as int);
            crate::parse::lemma_number_suffix(s1, '$', 255, hex, Context::Register);
            match spec_rindex_text(s1, hex) {
                TextParse::Done { rest: s2, value: _ } => {
                    crate::parse::lemma_ws_len_le(s2);
                    if crate::parse::ws_len(s2) > 0 {
                        let s3 = s2.skip(crate::parse::ws_len(s2) as int);
                        crate::parse::lemma_number_suffix(s3, '$', 255, hex, Context::Register);
                        match spec_rindex_text(s3, hex) {
                            TextParse::Done { rest: s4, value: _ } => {
                                crate::parse::lemma_ws_len_le(s4);
                                if crate::parse::ws_len(s4) > 0 {
                                    let s5 = s4.skip(crate::parse::ws_len(s4) as int);
                                    crate::parse::lemma_number_suffix(
                                        s5,
                                        '$',
                                        255,
                                        hex,
                                        Context::Register,
                                    );
                                }
                            },
                            TextParse::Fail { .. } => {},
                        }
                    }
                },
                TextParse::Fail { .. } => {},
            }
        }
    }
}

/// Round trip: the decimal rendering of an add instruction, followed by
/// anything that does not extend its last digit run, parses back to the
/// same instruction.
#[verifier::rlimit(50)]
pub proof fn lemma_add_rt_dec(a: Add, rest: Seq<char>)
    requires
        rest.len() == 0 || !crate::text::is_dec_digit(rest[0]),
    ensures
        spec_add_text(add_text(a) + rest, false) == (TextParse::Done { rest, value: a }),
{
    let v1 = a.rindx1.0 as nat;
    let v2 = a.rindx2.0 as nat;
    let v3 = a.rindx3.0 as nat;
    let d1 = crate::text::dec_digits(v1);
    let d2 = crate::text::dec_digits(v2);
    let d3 = crate::text::dec_digits(v3);
    crate::text::lemma_dec_digits_wf(v1);
    crate::text::lemma_dec_digits_wf(v2);
    crate::text::lemma_dec_digits_wf(v3);
    let s = add_text(a) + rest;
    assert(s.subrange(0, 3) =~= add_mnemonic());
    let rest2 = seq![' '] + seq!['$'] + d3 + rest;
    let rest1 = seq![' '] + seq!['$'] + d2 + rest2;
    let s0 = s.skip(3);
    assert(s0 =~= seq![' '] + seq!['$'] + d1 + rest1);
    assert(!crate::text::is_space(s0[1]));
    crate::parse::lemma_ws_len_is(s0, 1);
    let s1 = s0.skip(1);
    assert(s1 =~= seq!['$'] + d1 + rest1);
    assert(rest1[0] == ' ');
    crate::parse::lemma_number_rt_dec('$', v1, 255, Context::Register, rest1);
    assert(RIndex(v1 as u8) == a.rindx1);
    assert(!crate::text::is_space(rest1[1]));
    crate::parse::lemma_ws_len_is(rest1, 1);
    let s3 = rest1.skip(1);
    assert(s3 =~= seq!['$'] + d2 + rest2);
    assert(rest2[0] == ' ');
    crate::parse::lemma_number_rt_dec('$', v2, 255, Context::Register, rest2);
    assert(RIndex(v2 as u8) == a.rindx2);
    assert(!crate::text::is_space(rest2[1]));
    crate::parse::lemma_ws_len_is(rest2, 1);
    let s5 = rest2.skip(1);
    assert(s5 =~= seq!['$'] + d3 + rest);
    crate::parse::lemma_number_rt_dec('$', v3, 255, Context::Register, rest);
    assert(RIndex(v3 as u8) == a.rindx3);
}

/// Round trip: the hex-grammar rendering of an add instruction, followed
/// by anything that does not extend its last digit run, parses back to
/// the same instruction.
#[verifier::rlimit(50)]
pub proof fn lemma_add_rt_hex(a: Add, upper: bool, rest: Seq<char>)
    requires
        rest.len() == 0 || !crate::text::is_hex_digit(rest[0]),
    ensures
        spec_add_text(add_hex_text(a, upper) + rest, true) == (TextParse::Done {
            rest,
            value: a,
        }),
{
    let v1 = a.rindx1.0 as nat;
    let v2 = a.rindx2.0 as nat;
    let v3 = a.rindx3.0 as nat;
    let d1 = crate::text::hex_fixed(v1, 2, upper);
    let d2 = crate::text::hex_fixed(v2, 2, upper);
    let d3 = crate::text::hex_fixed(v3, 2, upper);
    crate::text::lemma_hex_fixed_wf(v1, 2, upper);
    crate::text::lemma_hex_fixed_wf(v2, 2, upper);
    crate::text::lemma_hex_fixed_wf(v3, 2, upper);
    assert(crate::text::pow16(0) == 1);
    assert(crate::text::pow16(1) == 16);
    assert(crate::text::pow16(2) == 256);
    let s = add_hex_text(a, upper) + rest;
    assert(s.subrange(0, 3) =~= add_mnemonic());
    let rest2 = seq![' '] + seq!['$'] + d3 + rest;
    let rest1 = seq![' '] + seq!['$'] + d2 + rest2;
    let s0 = s.skip(3);
    assert(s0 =~= seq![' '] + seq!['$'] + d1 + rest1);
    assert(!crate::text::is_space(s0[1]));
    crate::parse::lemma_ws_len_is(s0, 1);
    let s1 = s0.skip(1);
    assert(s1 =~= seq!['$'] + d1 + rest1);
    assert(rest1[0] == ' ');
    crate::parse::lemma_number_rt_hex('$', v1, 2, upper, 255, Context::Register, rest1);
    assert(RIndex(v1 as u8) == a.rindx1);
    assert(!crate::text::is_space(rest1[1]));
    crate::parse::lemma_ws_len_is(rest1, 1);
    let s3 = rest1.skip(1);
    assert(s3 =~= seq!['$'] + d2 + rest2);
    assert(rest2[0] == ' ');
    crate::parse::lemma_number_rt_hex('$', v2, 2, upper, 255, Context::Register, rest2);
    assert(RIndex(v2 as u8) == a.rindx2);
    assert(!crate::text::is_space(rest2[1]));
    crate::parse::lemma_ws_len_is(rest2, 1);
    let s5 = rest2.skip(1);
    assert(s5 =~= seq!['$'] + d3 + rest);
    crate::parse::lemma_number_rt_hex('$', v3, 2, upper, 255, Context::Register, rest);
    assert(RIndex(v3 as u8) == a.rindx3);
}

/// Round trip: the binary record of an add instruction, followed by
/// anything at all, parses back to the same instruction.
pub proof fn lemma_add_bytes_rt(a: Add, rest: Seq<u8>)
    ensures
        spec_add_bytes(add_bytes(a) + rest) == (ByteParse::Done { rest, value: a }),
{
    let s = add_bytes(a) + rest;
    assert(s[0] == ADD_ID);
    let s1 = s.skip(1);
    assert(s1 =~= seq![a.rindx1.0, a.rindx2.0, a.rindx3.0] + rest);
    assert(s1[0] == a.rindx1.0);
    let s2 = s1.skip(1);
    assert(s2 =~= seq![a.rindx2.0, a.rindx3.0] + rest);
    assert(s2[0] == a.rindx2.0);
    let s3 = s2.skip(1);
    assert(s3 =~= seq![a.rindx3.0] + rest);
    assert(s3[0] == a.rindx3.0);
    let s4 = s3.skip(1);
    assert(s4 =~= rest);
    assert(RIndex(a.rindx1.0) == a.rindx1);
    assert(RIndex(a.rindx2.0) == a.rindx2);
    assert(RIndex(a.rindx3.0) == a.rindx3);
}

/// A successfully parsed binary add record is exactly four bytes.
pub proof fn lemma_add_bytes_rest(s: Seq<u8>)
    ensures
        spec_add_bytes(s) matches ByteParse::Done { rest, .. } ==> s.len() >= 4 && rest == s.skip(
            4,
        ),
{
    if s.len() > 0 && s[0] == ADD_ID && s.skip(1).len() >= 1 && s.skip(1).skip(1).len() >= 1
        && s.skip(1).skip(1).skip(1).len() >= 1 {
        assert(s.skip(1).skip(1).skip(1).skip(1) =~= s.skip(4));
    }
}

impl Add {
    /// Creates an [`Add`] instance.
    pub fn make(rindx1: RIndex, rindx2: RIndex, rindx3: RIndex) -> (r: Self)
        ensures
            r == (Add { rindx1, rindx2, rindx3 }),
    {
        Add { rindx1, rindx2, rindx3 }
    }

    /// Returns the first source register index.
    pub fn index1(&self) -> (r: RIndex)
        ensures
            r == self.rindx1,
    {
        self.rindx1
    }

    /// Returns the second source register index.
    pub fn index2(&self) -> (r: RIndex)
        ensures
            r == self.rindx2,
    {
        self.rindx2
    }

    /// Returns the destination register index.
    pub fn index3(&self) -> (r: RIndex)
        ensures
            r == self.rindx3,
    {
        self.rindx3
    }

    /// The decimal-text rendering, e.g. `ADD $10 $20 $30`.
    pub fn to_string(&self) -> (r: String)
        ensures
            r@ == add_text(*self),
    {
        let mut s = String::new();
        proof {
            reveal_strlit("ADD ");
            reveal_strlit(" ");
        }
        s.append("ADD ");
        let r1 = self.rindx1.to_string();
        s.append(r1.as_str());
        s.append(" ");
        let r2 = self.rindx2.to_string();
        s.append(r2.as_str());
        s.append(" ");
        let r3 = self.rindx3.to_string();
        s.append(r3.as_str());
        proof {
            assert(s@ =~= add_text(*self));
        }
        s
    }

    /// The bare upper-case hex rendering, e.g. `ADD 0A 14 1E`.
    pub fn to_upper_hex(&self) -> (r: String)
        ensures
            r@ == add_plain_hex(*self, true),
    {
        self.plain_hex(true)
    }

    /// The bare lower-case hex rendering, e.g. `ADD 0a 14 1e`.
    pub fn to_lower_hex(&self) -> (r: String)
        ensures
            r@ == add_plain_hex(*self, false),
    {
        self.plain_hex(false)
    }

    fn plain_hex(&self, upper: bool) -> (r: String)
        ensures
            r@ == add_plain_hex(*self, upper),
    {
        let mut s = String::new();
        proof {
            reveal_strlit("ADD ");
            reveal_strlit(" ");
        }
        s.append("ADD ");
        let r1 = if upper {
            self.rindx1.to_upper_hex()
        } else {
            self.rindx1.to_lower_hex()
        };
        s.append(r1.as_str());
        s.append(" ");
        let r2 = if upper {
            self.rindx2.to_upper_hex()
        } else {
            self.rindx2.to_lower_hex()
        };
        s.append(r2.as_str());
        s.append(" ");
        let r3 = if upper {
            self.rindx3.to_upper_hex()
        } else {
            self.rindx3.to_lower_hex()
        };
        s.append(r3.as_str());
        proof {
            assert(s@ =~= add_plain_hex(*self, upper));
        }
        s
    }

    /// The hex-grammar rendering, e.g. `ADD $0A $14 $1E`; unlike
    /// [`Add::to_upper_hex`], its output re-parses.
    pub fn to_hex_string(&self, upper: bool) -> (r: String)
        ensures
            r@ == add_hex_text(*self, upper),
    {
        let mut s = String::new();
        proof {
            reveal_strlit("ADD ");
            reveal_strlit(" ");
        }
        s.append("ADD ");
        let r1 = self.rindx1.to_hex_string(upper);
        s.append(r1.as_str());
        s.append(" ");
        let r2 = self.rindx2.to_hex_string(upper);
        s.append(r2.as_str());
        s.append(" ");
        let r3 = self.rindx3.to_hex_string(upper);
        s.append(r3.as_str());
        proof {
            assert(s@ =~= add_hex_text(*self, upper));
        }
        s
    }

    /// The four-byte binary record: id, then the three register bytes.
    pub fn to_bytes(&self) -> (r: [u8; 4])
        ensures
            r@ == add_bytes(*self),
    {
        let r = [ADD_ID, self.rindx1.0, self.rindx2.0, self.rindx3.0];
        proof {
            assert(r@ =~= add_bytes(*self));
        }
        r
    }
}

/// Decodes a leading add instruction from text in either digit
/// alphabet.
fn add_from_text(input: &str, hex: bool) -> (r: ParseResult<&str, Add>)
    ensures
        match r {
            Ok((rest, v)) => spec_add_text(input@, hex) == (TextParse::Done {
                rest: rest@,
                value: v,
            }),
            Err(e) => spec_add_text(input@, hex) == (TextParse::Fail::<Add> { err: e@ }),
        },
{
    proof {
        reveal_strlit("ADD");
        assert("ADD"@ =~= add_mnemonic());
    }
    let rest0 = match parse_tag(input, "ADD") {
        None => {
            return Err(ParseError::at(ErrorKind::UnknownMnemonic, Context::Add));
        },
        Some(rest) => rest,
    };
    let (wn, rest1) = skip_ws(rest0);
    if wn == 0 {
        return Err(ParseError::at(ErrorKind::MalformedOperand, Context::Add));
    }
    let r1 = if hex {
        RIndex::parse_hex_str(rest1)
    } else {
        RIndex::parse_str(rest1)
    };
    let (rest2, rindx1) = match r1 {
        Ok(p) => p,
        Err(e) => {
            return Err(e.wrap(Context::Add));
        },
    };
    let (wn2, rest3) = skip_ws(rest2);
    if wn2 == 0 {
        return Err(ParseError::at(ErrorKind::MalformedOperand, Context::Add));
    }
    let r2 = if hex {
        RIndex::parse_hex_str(rest3)
    } else {
        RIndex::parse_str(rest3)
    };
    let (rest4, rindx2) = match r2 {
        Ok(p) => p,
        Err(e) => {
            return Err(e.wrap(Context::Add));
        },
    };
    let (wn3, rest5) = skip_ws(rest4);
    if wn3 == 0 {
        return Err(ParseError::at(ErrorKind::MalformedOperand, Context::Add));
    }
    let r3 = if hex {
        RIndex::parse_hex_str(rest5)
    } else {
        RIndex::parse_str(rest5)
    };
    let (rest6, rindx3) = match r3 {
        Ok(p) => p,
        Err(e) => {
            return Err(e.wrap(Context::Add));
        },
    };
    Ok((rest6, Add { rindx1, rindx2, rindx3 }))
}

impl ParseString for Add {
    type Output = Add;

    fn parse_str(input: &str) -> (r: ParseResult<&str, Add>)
        ensures
            match r {
                Ok((rest, v)) => spec_add_text(input@, false) == (TextParse::Done {
                    rest: rest@,
                    value: v,
                }),
                Err(e) => spec_add_text(input@, false) == (TextParse::Fail::<Add> { err: e@ }),
            },
    {
        add_from_text(input, false)
    }

    fn parse_hex_str(input: &str) -> (r: ParseResult<&str, Add>)
        ensures
            match r {
                Ok((rest, v)) => spec_add_text(input@, true) == (TextParse::Done {
                    rest: rest@,
                    value: v,
                }),
                Err(e) => spec_add_text(input@, true) == (TextParse::Fail::<Add> { err: e@ }),
            },
    {
        add_from_text(input, true)
    }
}

impl ParseBytes for Add {
    type Output = Add;

    fn parse_bytes(input: &[u8]) -> (r: ParseResult<&[u8], Add>)
        ensures
            match r {
                Ok((rest, v)) => spec_add_bytes(input@) == (ByteParse::Done {
                    rest: rest@,
                    value: v,
                }),
                Err(e) => spec_add_bytes(input@) == (ByteParse::Fail::<Add> { err: e@ }),
            },
    {
        if input.len() == 0 {
            return Err(ParseError::at(ErrorKind::UnexpectedEndOfInput, Context::Add));
        }
        let b0 = *vstd::slice::slice_index_get(input, 0);
        if b0 != ADD_ID {
            return Err(ParseError::at(ErrorKind::UnknownOpcode(b0), Context::Add));
        }
        let rest0 = vstd::slice::slice_subrange(input, 1, input.len());
        proof {
            assert(rest0@ =~= input@.skip(1));
        }
        let (rest1, rindx1) = match RIndex::parse_bytes(rest0) {
            Ok(p) => p,
            Err(e) => {
                return Err(e.wrap(Context::Add));
            },
        };
        let (rest2, rindx2) = match RIndex::parse_bytes(rest1) {
            Ok(p) => p,
            Err(e) => {
                return Err(e.wrap(Context::Add));
            },
        };
        let (rest3, rindx3) = match RIndex::parse_bytes(rest2) {
            Ok(p) => p,
            Err(e) => {
                return Err(e.wrap(Context::Add));
            },
        };
        Ok((rest3, Add { rindx1, rindx2, rindx3 }))
    }
}

} // verus!
