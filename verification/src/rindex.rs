//! The register index: an 8-bit value naming a slot of the external
//! register file, written `$10` in decimal text and `$0A` in hex text.

use vstd::prelude::*;

use crate::error::Context;
use crate::error::ParseError;
use crate::error::SpecError;
use crate::parse::ByteParse;
use crate::parse::ParseBytes;
use crate::parse::ParseResult;
use crate::parse::ParseString;
use crate::parse::TextParse;
use crate::parse::parse_number;
use crate::parse::parse_uint_all;
use crate::parse::spec_number;
use crate::parse::spec_take_u8;
use crate::parse::spec_uint_all;
use crate::parse::take_u8;
use crate::text::dec_digits;
use crate::text::hex_fixed;
use crate::text::push_dec;
use crate::text::push_hex;

verus! {

/// The register index.
#[derive(Debug, PartialEq, Eq, Structural, Clone, Copy)]
pub struct RIndex(pub u8);

/// The decimal-text rendering of a register index: `$` then digits.
pub open spec fn rindex_text(r: RIndex) -> Seq<char> {
    seq!['$'] + dec_digits(r.0 as nat)
}

/// The hex-grammar rendering of a register index: `$` then two hex
/// digits.
pub open spec fn rindex_hex_text(r: RIndex, upper: bool) -> Seq<char> {
    seq!['$'] + hex_fixed(r.0 as nat, 2, upper)
}

/// The ghost text parser for a register index token.
pub open spec fn spec_rindex_text(s: Seq<char>, hex: bool) -> TextParse<RIndex> {
    match spec_number(s, '$', 255, hex, Context::Register) {
        TextParse::Done { rest, value } => TextParse::Done { rest, value: RIndex(value as u8) },
        TextParse::Fail { err } => TextParse::Fail { err },
    }
}

/// The ghost binary parser for a register index: one byte.
pub open spec fn spec_rindex_bytes(s: Seq<u8>) -> ByteParse<RIndex> {
    match spec_take_u8(s, Context::Register) {
        ByteParse::Done { rest, value } => ByteParse::Done { rest, value: RIndex(value) },
        ByteParse::Fail { err } => ByteParse::Fail { err },
    }
}

impl RIndex {
    /// Creates a [`RIndex`] instance.
    pub fn make(value: u8) -> (r: Self)
        ensures
            r == RIndex(value),
    {
        RIndex(value)
    }

    /// Returns the internal value.
    pub fn index(&self) -> (r: u8)
        ensures
            r == self.0,
    {
        self.0
    }

    /// Reads a whole string as a decimal register index.
    pub fn try_from_dec(src: &str) -> (r: Result<Self, ParseError>)
        ensures
            match r {
                Ok(v) => spec_uint_all(src@, 255, false, Context::Register) == Ok::<
                    nat,
                    SpecError,
                >(v.0 as nat),
                Err(e) => spec_uint_all(src@, 255, false, Context::Register) == Err::<
                    nat,
                    SpecError,
                >(e@),
            },
    {
        match parse_uint_all(src, 255, false, Context::Register) {
            Ok(v) => Ok(RIndex(v as u8)),
            Err(e) => Err(e),
        }
    }

    /// Reads a whole string as a hexadecimal register index.
    pub fn try_from_hex(src: &str) -> (r: Result<Self, ParseError>)
        ensures
            match r {
                Ok(v) => spec_uint_all(src@, 255, true, Context::Register) == Ok::<
                    nat,
                    SpecError,
                >(v.0 as nat),
                Err(e) => spec_uint_all(src@, 255, true, Context::Register) == Err::<
                    nat,
                    SpecError,
                >(e@),
            },
    {
        match parse_uint_all(src, 255, true, Context::Register) {
            Ok(v) => Ok(RIndex(v as u8)),
            Err(e) => Err(e),
        }
    }

    /// The decimal-text rendering, `$` then digits.
    pub fn to_string(&self) -> (r: String)
        ensures
            r@ == rindex_text(*self),
    {
        let mut s = String::new();
        proof {
            reveal_strlit("$");
        }
        s.append("$");
        push_dec(&mut s, self.0 as u16);
        proof {
            assert(s@ =~= rindex_text(*self));
        }
        s
    }

    /// Two upper-case hex digits, with no prefix.
    pub fn to_upper_hex(&self) -> (r: String)
        ensures
            r@ == hex_fixed(self.0 as nat, 2, true),
    {
        let mut s = String::new();
        push_hex(&mut s, self.0 as u16, 2, true);
        proof {
            assert(s@ =~= hex_fixed(self.0 as nat, 2, true));
        }
        s
    }

    /// Two lower-case hex digits, with no prefix.
    pub fn to_lower_hex(&self) -> (r: String)
        ensures
            r@ == hex_fixed(self.0 as nat, 2, false),
    {
        let mut s = String::new();
        push_hex(&mut s, self.0 as u16, 2, false);
        proof {
            assert(s@ =~= hex_fixed(self.0 as nat, 2, false));
        }
        s
    }

    /// The hex-grammar rendering, `$` then two hex digits; unlike
    /// [`RIndex::to_upper_hex`], its output re-parses.
    pub fn to_hex_string(&self, upper: bool) -> (r: String)
        ensures
            r@ == rindex_hex_text(*self, upper),
    {
        let mut s = String::new();
        proof {
            reveal_strlit("$");
        }
        s.append("$");
        push_hex(&mut s, self.0 as u16, 2, upper);
        proof {
            assert(s@ =~= rindex_hex_text(*self, upper));
        }
        s
    }
}

impl ParseString for RIndex {
    type Output = RIndex;

    fn parse_str(input: &str) -> (r: ParseResult<&str, RIndex>)
        ensures
            match r {
                Ok((rest, v)) => spec_rindex_text(input@, false) == (TextParse::Done {
                    rest: rest@,
                    value: v,
                }),
                Err(e) => spec_rindex_text(input@, false) == (TextParse::Fail::<RIndex> {
                    err: e@,
                }),
            },
    {
        match parse_number(input, '$', 255, false, Context::Register) {
            Ok((rest, v)) => Ok((rest, RIndex(v as u8))),
            Err(e) => Err(e),
        }
    }

    fn parse_hex_str(input: &str) -> (r: ParseResult<&str, RIndex>)
        ensures
            match r {
                Ok((rest, v)) => spec_rindex_text(input@, true) == (TextParse::Done {
                    rest: rest@,
                    value: v,
                }),
                Err(e) => spec_rindex_text(input@, true) == (TextParse::Fail::<RIndex> {
                    err: e@,
                }),
            },
    {
        match parse_number(input, '$', 255, true, Context::Register) {
            Ok((rest, v)) => Ok((rest, RIndex(v as u8))),
            Err(e) => Err(e),
        }
    }
}

impl ParseBytes for RIndex {
    type Output = RIndex;

    fn parse_bytes(input: &[u8]) -> (r: ParseResult<&[u8], RIndex>)
        ensures
            match r {
                Ok((rest, v)) => spec_rindex_bytes(input@) == (ByteParse::Done {
                    rest: rest@,
                    value: v,
                }),
                Err(e) => spec_rindex_bytes(input@) == (ByteParse::Fail::<RIndex> { err: e@ }),
            },
    {
        match take_u8(input, Context::Register) {
            Ok((rest, v)) => Ok((rest, RIndex(v))),
            Err(e) => Err(e),
        }
    }
}

} // verus!
