//! A 16-bit immediate operand, written `#500` in decimal text and
//! `#01F4` in hex text; two big-endian bytes in the binary form.

use vstd::prelude::*;

use crate::error::Context;
use crate::error::ParseError;
use crate::error::SpecError;
use crate::parse::ByteParse;
use crate::parse::ParseBytes;
use crate::parse::ParseResult;
use crate::parse::ParseString;
use crate::parse::TextParse;
use crate::parse::parse_number;
use crate::parse::parse_uint_all;
use crate::parse::spec_number;
use crate::parse::spec_take_u16;
use crate::parse::spec_uint_all;
use crate::parse::take_u16;
use crate::text::dec_digits;
use crate::text::hex_fixed;
use crate::text::push_dec;
use crate::text::push_hex;

verus! {

/// An operand with a `u16` value.
#[derive(Debug, PartialEq, Eq, Structural, Clone, Copy)]
pub struct Operand16(pub u16);

/// The high byte of a 16-bit value.
pub open spec fn u16_hi(v: u16) -> u8 {
    (v / 256) as u8
}

/// The low byte of a 16-bit value.
pub open spec fn u16_lo(v: u16) -> u8 {
    (v % 256) as u8
}

/// The big-endian byte rendering of a 16-bit operand.
pub open spec fn operand16_bytes(o: Operand16) -> Seq<u8> {
    seq![u16_hi(o.0), u16_lo(o.0)]
}

/// The decimal-text rendering of a 16-bit operand: `#` then digits.
pub open spec fn operand16_text(o: Operand16) -> Seq<char> {
    seq!['#'] + dec_digits(o.0 as nat)
}

/// The hex-grammar rendering of a 16-bit operand: `#` then four hex
/// digits.
pub open spec fn operand16_hex_text(o: Operand16, upper: bool) -> Seq<char> {
    seq!['#'] + hex_fixed(o.0 as nat, 4, upper)
}

/// The ghost text parser for a 16-bit operand token.
pub open spec fn spec_operand16_text(s: Seq<char>, hex: bool) -> TextParse<Operand16> {
    match spec_number(s, '#', 65535, hex, Context::Operand16) {
        TextParse::Done { rest, value } => TextParse::Done {
            rest,
            value: Operand16(value as u16),
        },
        TextParse::Fail { err } => TextParse::Fail { err },
    }
}

/// The ghost binary parser for a 16-bit operand: two big-endian bytes.
pub open spec fn spec_operand16_bytes(s: Seq<u8>) -> ByteParse<Operand16> {
    match spec_take_u16(s, Context::Operand16) {
        ByteParse::Done { rest, value } => ByteParse::Done { rest, value: Operand16(value) },
        ByteParse::Fail { err } => ByteParse::Fail { err },
    }
}

impl Operand16 {
    /// Creates an [`Operand16`] instance.
    pub fn make(value: u16) -> (r: Self)
        ensures
            r == Operand16(value),
    {
        Operand16(value)
    }

    /// Returns the internal value.
    pub fn value(&self) -> (r: u16)
        ensures
            r == self.0,
    {
        self.0
    }

    /// Reads a whole string as a decimal 16-bit operand.
    pub fn try_from_dec(src: &str) -> (r: Result<Self, ParseError>)
        ensures
            match r {
                Ok(v) => spec_uint_all(src@, 65535, false, Context::Operand16) == Ok::<
                    nat,
                    SpecError,
                >(v.0 as nat),
                Err(e) => spec_uint_all(src@, 65535, false, Context::Operand16) == Err::<
                    nat,
                    SpecError,
                >(e@),
            },
    {
        match parse_uint_all(src, 65535, false, Context::Operand16) {
            Ok(v) => Ok(Operand16(v)),
            Err(e) => Err(e),
        }
    }

    /// Reads a whole string as a hexadecimal 16-bit operand.
    pub fn try_from_hex(src: &str) -> (r: Result<Self, ParseError>)
        ensures
            match r {
                Ok(v) => spec_uint_all(src@, 65535, true, Context::Operand16) == Ok::<
                    nat,
                    SpecError,
                >(v.0 as nat),
                Err(e) => spec_uint_all(src@, 65535, true, Context::Operand16) == Err::<
                    nat,
                    SpecError,
                >(e@),
            },
    {
        match parse_uint_all(src, 65535, true, Context::Operand16) {
            Ok(v) => Ok(Operand16(v)),
            Err(e) => Err(e),
        }
    }

    /// The decimal-text rendering, `#` then digits.
    pub fn to_string(&self) -> (r: String)
        ensures
            r@ == operand16_text(*self),
    {
        let mut s = String::new();
        proof {
            reveal_strlit("#");
        }
        s.append("#");
        push_dec(&mut s, self.0);
        proof {
            assert(s@ =~= operand16_text(*self));
        }
        s
    }

    /// Four upper-case hex digits, with no prefix.
    pub fn to_upper_hex(&self) -> (r: String)
        ensures
            r@ == hex_fixed(self.0 as nat, 4, true),
    {
        let mut s = String::new();
        push_hex(&mut s, self.0, 4, true);
        proof {
            assert(s@ =~= hex_fixed(self.0 as nat, 4, true));
        }
        s
    }

    /// Four lower-case hex digits, with no prefix.
    pub fn to_lower_hex(&self) -> (r: String)
        ensures
            r@ == hex_fixed(self.0 as nat, 4, false),
    {
        let mut s = String::new();
        push_hex(&mut s, self.0, 4, false);
        proof {
            assert(s@ =~= hex_fixed(self.0 as nat, 4, false));
        }
        s
    }

    /// The hex-grammar rendering, `#` then four hex digits; unlike
    /// [`Operand16::to_upper_hex`], its output re-parses.
    pub fn to_hex_string(&self, upper: bool) -> (r: String)
        ensures
            r@ == operand16_hex_text(*self, upper),
    {
        let mut s = String::new();
        proof {
            reveal_strlit("#");
        }
        s.append("#");
        push_hex(&mut s, self.0, 4, upper);
        proof {
            assert(s@ =~= operand16_hex_text(*self, upper));
        }
        s
    }

    /// The big-endian byte rendering: high byte, then low byte.
    pub fn to_bytes(&self) -> (r: [u8; 2])
        ensures
            r@ == operand16_bytes(*self),
    {
        let hi = (self.0 / 256) as u8;
        let lo = (self.0 % 256) as u8;
        let r = [hi, lo];
        proof {
            assert(r@ =~= operand16_bytes(*self));
        }
        r
    }
}

impl ParseString for Operand16 {
    type Output = Operand16;

    fn parse_str(input: &str) -> (r: ParseResult<&str, Operand16>)
        ensures
            match r {
                Ok((rest, v)) => spec_operand16_text(input@, false) == (TextParse::Done {
                    rest: rest@,
                    value: v,
                }),
                Err(e) => spec_operand16_text(input@, false) == (TextParse::Fail::<Operand16> {
                    err: e@,
                }),
            },
    {
        match parse_number(input, '#', 65535, false, Context::Operand16) {
            Ok((rest, v)) => Ok((rest, Operand16(v))),
            Err(e) => Err(e),
        }
    }

    fn parse_hex_str(input: &str) -> (r: ParseResult<&str, Operand16>)
        ensures
            match r {
                Ok((rest, v)) => spec_operand16_text(input@, true) == (TextParse::Done {
                    rest: rest@,
                    value: v,
                }),
                Err(e) => spec_operand16_text(input@, true) == (TextParse::Fail::<Operand16> {
                    err: e@,
                }),
            },
    {
        match parse_number(input, '#', 65535, true, Context::Operand16) {
            Ok((rest, v)) => Ok((rest, Operand16(v))),
            Err(e) => Err(e),
        }
    }
}

impl ParseBytes for Operand16 {
    type Output = Operand16;

    fn parse_bytes(input: &[u8]) -> (r: ParseResult<&[u8], Operand16>)
        ensures
            match r {
                Ok((rest, v)) => spec_operand16_bytes(input@) == (ByteParse::Done {
                    rest: rest@,
                    value: v,
                }),
                Err(e) => spec_operand16_bytes(input@) == (ByteParse::Fail::<Operand16> {
                    err: e@,
                }),
            },
    {
        match take_u16(input, Context::Operand16) {
            Ok((rest, v)) => Ok((rest, Operand16(v))),
            Err(e) => Err(e),
        }
    }
}

} // verus!
