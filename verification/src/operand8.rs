//! An 8-bit immediate operand, written `#10` in decimal text and `#0A`
//! in hex text; one byte in the binary form.

use vstd::prelude::*;

use crate::error::Context;
use crate::error::ParseError;
use crate::error::SpecError;
use crate::parse::ByteParse;
use crate::parse::ParseBytes;
use crate::parse::ParseResult;
use crate::parse::ParseString;
use crate::parse::TextParse;
use crate::parse::parse_number;
use crate::parse::parse_uint_all;
use crate::parse::spec_number;
use crate::parse::spec_take_u8;
use crate::parse::spec_uint_all;
use crate::parse::take_u8;
use crate::text::dec_digits;
use crate::text::hex_fixed;
use crate::text::push_dec;
use crate::text::push_hex;

verus! {

/// An operand with a `u8` value.
#[derive(Debug, PartialEq, Eq, Structural, Clone, Copy)]
pub struct Operand8(pub u8);

/// The decimal-text rendering of an 8-bit operand: `#` then digits.
pub open spec fn operand8_text(o: Operand8) -> Seq<char> {
    seq!['#'] + dec_digits(o.0 as nat)
}

/// The hex-grammar rendering of an 8-bit operand: `#` then two hex
/// digits.
pub open spec fn operand8_hex_text(o: Operand8, upper: bool) -> Seq<char> {
    seq!['#'] + hex_fixed(o.0 as nat, 2, upper)
}

/// The ghost text parser for an 8-bit operand token.
pub open spec fn spec_operand8_text(s: Seq<char>, hex: bool) -> TextParse<Operand8> {
    match spec_number(s, '#', 255, hex, Context::Operand8) {
        TextParse::Done { rest, value } => TextParse::Done { rest, value: Operand8(value as u8) },
        TextParse::Fail { err } => TextParse::Fail { err },
    }
}

/// The ghost binary parser for an 8-bit operand: one byte.
pub open spec fn spec_operand8_bytes(s: Seq<u8>) -> ByteParse<Operand8> {
    match spec_take_u8(s, Context::Operand8) {
        ByteParse::Done { rest, value } => ByteParse::Done { rest, value: Operand8(value) },
        ByteParse::Fail { err } => ByteParse::Fail { err },
    }
}

impl Operand8 {
    /// Creates an [`Operand8`] instance.
    pub fn make(value: u8) -> (r: Self)
        ensures
            r == Operand8(value),
    {
        Operand8(value)
    }

    /// Returns the internal value.
    pub fn value(&self) -> (r: u8)
        ensures
            r == self.0,
    {
        self.0
    }

    /// Reads a whole string as a decimal 8-bit operand.
    pub fn try_from_dec(src: &str) -> (r: Result<Self, ParseError>)
        ensures
            match r {
                Ok(v) => spec_uint_all(src@, 255, false, Context::Operand8) == Ok::<
                    nat,
                    SpecError,
                >(v.0 as nat),
                Err(e) => spec_uint_all(src@, 255, false, Context::Operand8) == Err::<
                    nat,
                    SpecError,
                >(e@),
            },
    {
        match parse_uint_all(src, 255, false, Context::Operand8) {
            Ok(v) => Ok(Operand8(v as u8)),
            Err(e) => Err(e),
        }
    }

    /// Reads a whole string as a hexadecimal 8-bit operand.
    pub fn try_from_hex(src: &str) -> (r: Result<Self, ParseError>)
        ensures
            match r {
                Ok(v) => spec_uint_all(src@, 255, true, Context::Operand8) == Ok::<
                    nat,
                    SpecError,
                >(v.0 as nat),
                Err(e) => spec_uint_all(src@, 255, true, Context::Operand8) == Err::<
                    nat,
                    SpecError,
                >(e@),
            },
    {
        match parse_uint_all(src, 255, true, Context::Operand8) {
            Ok(v) => Ok(Operand8(v as u8)),
            Err(e) => Err(e),
        }
    }

    /// The decimal-text rendering, `#` then digits.
    pub fn to_string(&self) -> (r: String)
        ensures
            r@ == operand8_text(*self),
    {
        let mut s = String::new();
        proof {
            reveal_strlit("#");
        }
        s.append("#");
        push_dec(&mut s, self.0 as u16);
        proof {
            assert(s@ =~= operand8_text(*self));
        }
        s
    }

    /// Two upper-case hex digits, with no prefix.
    pub fn to_upper_hex(&self) -> (r: String)
        ensures
            r@ == hex_fixed(self.0 as nat, 2, true),
    {
        let mut s = String::new();
        push_hex(&mut s, self.0 as u16, 2, true);
        proof {
            assert(s@ =~= hex_fixed(self.0 as nat, 2, true));
        }
        s
    }

    /// Two lower-case hex digits, with no prefix.
    pub fn to_lower_hex(&self) -> (r: String)
        ensures
            r@ == hex_fixed(self.0 as nat, 2, false),
    {
        let mut s = String::new();
        push_hex(&mut s, self.0 as u16, 2, false);
        proof {
            assert(s@ =~= hex_fixed(self.0 as nat, 2, false));
        }
        s
    }

    /// The hex-grammar rendering, `#` then two hex digits; unlike
    /// [`Operand8::to_upper_hex`], its output re-parses.
    pub fn to_hex_string(&self, upper: bool) -> (r: String)
        ensures
            r@ == operand8_hex_text(*self, upper),
    {
        let mut s = String::new();
        proof {
            reveal_strlit("#");
        }
        s.append("#");
        push_hex(&mut s, self.0 as u16, 2, upper);
        proof {
            assert(s@ =~= operand8_hex_text(*self, upper));
        }
        s
    }
}

impl ParseString for Operand8 {
    type Output = Operand8;

    fn parse_str(input: &str) -> (r: ParseResult<&str, Operand8>)
        ensures
            match r {
                Ok((rest, v)) => spec_operand8_text(input@, false) == (TextParse::Done {
                    rest: rest@,
                    value: v,
                }),
                Err(e) => spec_operand8_text(input@, false) == (TextParse::Fail::<Operand8> {
                    err: e@,
                }),
            },
    {
        match parse_number(input, '#', 255, false, Context::Operand8) {
            Ok((rest, v)) => Ok((rest, Operand8(v as u8))),
            Err(e) => Err(e),
        }
    }

    fn parse_hex_str(input: &str) -> (r: ParseResult<&str, Operand8>)
        ensures
            match r {
                Ok((rest, v)) => spec_operand8_text(input@, true) == (TextParse::Done {
                    rest: rest@,
                    value: v,
                }),
                Err(e) => spec_operand8_text(input@, true) == (TextParse::Fail::<Operand8> {
                    err: e@,
                }),
            },
    {
        match parse_number(input, '#', 255, true, Context::Operand8) {
            Ok((rest, v)) => Ok((rest, Operand8(v as u8))),
            Err(e) => Err(e),
        }
    }
}

impl ParseBytes for Operand8 {
    type Output = Operand8;

    fn parse_bytes(input: &[u8]) -> (r: ParseResult<&[u8], Operand8>)
        ensures
            match r {
                Ok((rest, v)) => spec_operand8_bytes(input@) == (ByteParse::Done {
                    rest: rest@,
                    value: v,
                }),
                Err(e) => spec_operand8_bytes(input@) == (ByteParse::Fail::<Operand8> {
                    err: e@,
                }),
            },
    {
        match take_u8(input, Context::Operand8) {
            Ok((rest, v)) => Ok((rest, Operand8(v))),
            Err(e) => Err(e),
        }
    }
}

} // verus!
