//! Shared parsing infrastructure: the ghost grammar primitives (digit
//! runs, whitespace, tags, fixed-width byte fields) and their verified
//! executable scanners, plus the parsing traits every codec type
//! implements.
//!
//! Every executable parser is specified by a total ghost parser over the
//! view of its input, so a parser's contract pins down its result — the
//! value, the remaining input, and the error — for every input.

use vstd::prelude::*;

use crate::error::Context;
use crate::error::ErrorKind;
use crate::error::ParseError;
use crate::error::SpecError;
use crate::text::dec_char;
use crate::text::dec_digits;
use crate::text::digit_ok;
use crate::text::digit_val;
use crate::text::hex_char;
use crate::text::hex_fixed;
use crate::text::is_dec_digit;
use crate::text::is_hex_digit;
use crate::text::is_space;
use crate::text::radix;

verus! {

/// What a parser hands back: the remaining input paired with the parsed
/// value, or an error.
pub type ParseResult<I, O> = Result<(I, O), ParseError>;

/// The outcome of a ghost text parser.
pub enum TextParse<T> {
    Done { rest: Seq<char>, value: T },
    Fail { err: SpecError },
}

/// The outcome of a ghost binary parser.
pub enum ByteParse<T> {
    Done { rest: Seq<u8>, value: T },
    Fail { err: SpecError },
}

pub open spec fn text_fail<T>(kind: ErrorKind, ctx: Context) -> TextParse<T> {
    TextParse::Fail { err: SpecError { kind, path: seq![ctx] } }
}

pub open spec fn byte_fail<T>(kind: ErrorKind, ctx: Context) -> ByteParse<T> {
    ByteParse::Fail { err: SpecError { kind, path: seq![ctx] } }
}

/// Functions that decode a value from decimal or hexadecimal assembly
/// text, returning the remaining input on success.
pub trait ParseString: Sized {
    type Output;

    /// Decodes a leading `Self::Output` from decimal-form text.
    fn parse_str(input: &str) -> ParseResult<&str, Self::Output>;

    /// Decodes a leading `Self::Output` from hexadecimal-form text.
    fn parse_hex_str(input: &str) -> ParseResult<&str, Self::Output>;
}

/// Functions that decode a value from the fixed-width binary form,
/// returning the remaining input on success.
pub trait ParseBytes: Sized {
    type Output;

    /// Decodes a leading `Self::Output` from binary input.
    fn parse_bytes(input: &[u8]) -> ParseResult<&[u8], Self::Output>;
}

/// The length of the longest digit prefix of `s`, in the chosen alphabet.
pub open spec fn run_len(s: Seq<char>, hex: bool) -> nat
    decreases s.len(),
{
    if s.len() == 0 || !digit_ok(s[0], hex) {
        0
    } else {
        (1 + run_len(s.skip(1), hex)) as nat
    }
}

/// The numeric value of the first `n` characters of `s`, read as digits
/// in the chosen alphabet, most significant first.
pub open spec fn run_val(s: Seq<char>, n: nat, hex: bool) -> nat
    decreases n,
{
    if n == 0 {
        0
    } else {
        run_val(s, (n - 1) as nat, hex) * radix(hex) + digit_val(s[n - 1], hex)
    }
}

/// The length of the longest whitespace prefix of `s`.
pub open spec fn ws_len(s: Seq<char>) -> nat
    decreases s.len(),
{
    if s.len() == 0 || !is_space(s[0]) {
        0
    } else {
        (1 + ws_len(s.skip(1))) as nat
    }
}

/// Does `s` start with `tag`?
pub open spec fn spec_tag_match(s: Seq<char>, tag: Seq<char>) -> bool {
    s.len() >= tag.len() && s.subrange(0, tag.len() as int) == tag
}

/// The ghost parser for one-or-more whitespace.
pub open spec fn spec_ws1(s: Seq<char>, ctx: Context) -> TextParse<()> {
    if ws_len(s) == 0 {
        text_fail(ErrorKind::MalformedOperand, ctx)
    } else {
        TextParse::Done { rest: s.skip(ws_len(s) as int), value: () }
    }
}

/// The ghost parser for a prefixed number token: the prefix character,
/// then one or more digits, whose value must not exceed `max`.
pub open spec fn spec_number(s: Seq<char>, prefix: char, max: nat, hex: bool, ctx: Context) -> TextParse<nat> {
    if s.len() == 0 || s[0] != prefix {
        text_fail(ErrorKind::MalformedOperand, ctx)
    } else {
        let t = s.skip(1);
        let n = run_len(t, hex);
        if n == 0 {
            text_fail(ErrorKind::MalformedOperand, ctx)
        } else if run_val(t, n, hex) > max {
            text_fail(ErrorKind::ValueOutOfRange, ctx)
        } else {
            TextParse::Done { rest: t.skip(n as int), value: run_val(t, n, hex) }
        }
    }
}

/// The ghost reading of a whole string as one unprefixed digit run whose
/// value must not exceed `max`.
pub open spec fn spec_uint_all(s: Seq<char>, max: nat, hex: bool, ctx: Context) -> Result<nat, SpecError> {
    if run_len(s, hex) == 0 || run_len(s, hex) < s.len() {
        Err(SpecError { kind: ErrorKind::MalformedOperand, path: seq![ctx] })
    } else if run_val(s, s.len(), hex) > max {
        Err(SpecError { kind: ErrorKind::ValueOutOfRange, path: seq![ctx] })
    } else {
        Ok(run_val(s, s.len(), hex))
    }
}

/// The ghost parser for one binary byte.
pub open spec fn spec_take_u8(s: Seq<u8>, ctx: Context) -> ByteParse<u8> {
    if s.len() < 1 {
        byte_fail(ErrorKind::UnexpectedEndOfInput, ctx)
    } else {
        ByteParse::Done { rest: s.skip(1), value: s[0] }
    }
}

/// The ghost parser for one big-endian two-byte field.
pub open spec fn spec_take_u16(s: Seq<u8>, ctx: Context) -> ByteParse<u16> {
    if s.len() < 2 {
        byte_fail(ErrorKind::UnexpectedEndOfInput, ctx)
    } else {
        ByteParse::Done { rest: s.skip(2), value: (s[0] * 256 + s[1]) as u16 }
    }
}

/// A digit run never reaches past the end of the input.
pub proof fn lemma_run_len_le(s: Seq<char>, hex: bool)
    ensures
        run_len(s, hex) <= s.len(),
    decreases s.len(),
{
    if s.len() != 0 && digit_ok(s[0], hex) {
        lemma_run_len_le(s.skip(1), hex);
    }
}

/// A whitespace run never reaches past the end of the input.
pub proof fn lemma_ws_len_le(s: Seq<char>)
    ensures
        ws_len(s) <= s.len(),
    decreases s.len(),
{
    if s.len() != 0 && is_space(s[0]) {
        lemma_ws_len_le(s.skip(1));
    }
}

/// A successful number token consumes at least its prefix and one digit.
pub proof fn lemma_number_suffix(s: Seq<char>, prefix: char, max: nat, hex: bool, ctx: Context)
    ensures
        spec_number(s, prefix, max, hex, ctx) matches TextParse::Done { rest, .. } ==> rest.len()
            < s.len(),
{
    if s.len() > 0 && s[0] == prefix {
        lemma_run_len_le(s.skip(1), hex);
    }
}

/// A digit prefix of length `k` that ends at a non-digit (or at the end
/// of the input) is the longest digit prefix.
pub proof fn lemma_run_len_is(s: Seq<char>, k: nat, hex: bool)
    requires
        k <= s.len(),
        forall|j: int| 0 <= j < k ==> digit_ok(s[j], hex),
        k == s.len() || !digit_ok(s[k as int], hex),
    ensures
        run_len(s, hex) == k,
    decreases k,
{
    if k == 0 {
    } else {
        assert(digit_ok(s[0], hex));
        let t = s.skip(1);
        assert(forall|j: int| 0 <= j < k - 1 ==> t[j] == s[j + 1]);
        if k < s.len() {
            assert(t[k - 1] == s[k as int]);
        }
        lemma_run_len_is(t, (k - 1) as nat, hex);
    }
}

/// The counterpart of [`lemma_run_len_is`] for whitespace.
pub proof fn lemma_ws_len_is(s: Seq<char>, k: nat)
    requires
        k <= s.len(),
        forall|j: int| 0 <= j < k ==> is_space(s[j]),
        k == s.len() || !is_space(s[k as int]),
    ensures
        ws_len(s) == k,
    decreases k,
{
    if k == 0 {
    } else {
        assert(is_space(s[0]));
        let t = s.skip(1);
        assert(forall|j: int| 0 <= j < k - 1 ==> t[j] == s[j + 1]);
        if k < s.len() {
            assert(t[k - 1] == s[k as int]);
        }
        lemma_ws_len_is(t, (k - 1) as nat);
    }
}

/// The value of a digit run depends only on the digits it covers.
pub proof fn lemma_run_val_prefix(s1: Seq<char>, s2: Seq<char>, k: nat, hex: bool)
    requires
        k <= s1.len(),
        k <= s2.len(),
        forall|j: int| 0 <= j < k ==> s1[j] == s2[j],
    ensures
        run_val(s1, k, hex) == run_val(s2, k, hex),
    decreases k,
{
    if k > 0 {
        lemma_run_val_prefix(s1, s2, (k - 1) as nat, hex);
    }
}

/// Reading the canonical decimal rendering of `n` back as a decimal run
/// gives `n`.
pub proof fn lemma_dec_digits_run_val(n: nat)
    ensures
        run_val(dec_digits(n), dec_digits(n).len(), false) == n,
    decreases n,
{
    let e = dec_digits(n);
    if n < 10 {
        crate::text::lemma_dec_char_val(n);
        assert(run_val(e, 1, false) == run_val(e, 0, false) * 10 + digit_val(e[0], false));
    } else {
        let f = dec_digits(n / 10);
        lemma_dec_digits_run_val(n / 10);
        crate::text::lemma_dec_char_val(n % 10);
        assert(forall|j: int| 0 <= j < f.len() ==> e[j] == f[j]);
        lemma_run_val_prefix(e, f, f.len(), false);
        assert(e[e.len() - 1] == dec_char(n % 10));
        assert(run_val(e, e.len(), false) == run_val(e, (e.len() - 1) as nat, false) * 10
            + digit_val(e[e.len() - 1], false));
    }
}

/// Reading the fixed-width hex rendering of `n` back as a hex run gives
/// `n`, provided `n` fits in the width.
pub proof fn lemma_hex_fixed_run_val(n: nat, width: nat, upper: bool)
    requires
        n < crate::text::pow16(width),
    ensures
        run_val(hex_fixed(n, width, upper), width, true) == n,
    decreases width,
{
    let e = hex_fixed(n, width, upper);
    crate::text::lemma_hex_fixed_wf(n, width, upper);
    if width == 0 {
    } else {
        let w1 = (width - 1) as nat;
        let f = hex_fixed(n / 16, w1, upper);
        crate::text::lemma_hex_fixed_wf(n / 16, w1, upper);
        crate::text::lemma_pow16_pos(w1);
        assert(n / 16 < crate::text::pow16(w1)) by (nonlinear_arith)
            requires
                n < 16 * crate::text::pow16(w1),
                crate::text::pow16(w1) >= 1,
        ;
        lemma_hex_fixed_run_val(n / 16, w1, upper);
        assert(forall|j: int| 0 <= j < f.len() ==> e[j] == f[j]);
        lemma_run_val_prefix(e, f, w1, true);
        crate::text::lemma_hex_char_val(n % 16, upper);
        assert(e[e.len() - 1] == hex_char(n % 16, upper));
        assert(run_val(e, width, true) == run_val(e, w1, true) * 16 + digit_val(
            e[width - 1],
            true,
        ));
    }
}

/// Round trip for a decimal number token: the rendered token followed by
/// anything that does not extend the digit run parses back to the value.
pub proof fn lemma_number_rt_dec(prefix: char, v: nat, max: nat, ctx: Context, rest: Seq<char>)
    requires
        v <= max,
        rest.len() == 0 || !is_dec_digit(rest[0]),
    ensures
        spec_number(seq![prefix] + dec_digits(v) + rest, prefix, max, false, ctx)
            == (TextParse::Done { rest, value: v }),
{
    let e = dec_digits(v);
    let s = seq![prefix] + e + rest;
    crate::text::lemma_dec_digits_wf(v);
    assert(s[0] == prefix);
    let t = s.skip(1);
    assert(t =~= e + rest);
    assert(forall|j: int| 0 <= j < e.len() ==> t[j] == e[j]);
    if rest.len() > 0 {
        assert(t[e.len() as int] == rest[0]);
    }
    lemma_run_len_is(t, e.len(), false);
    lemma_run_val_prefix(t, e, e.len(), false);
    lemma_dec_digits_run_val(v);
    assert(t.skip(e.len() as int) =~= rest);
}

/// Round trip for a hexadecimal number token.
pub proof fn lemma_number_rt_hex(
    prefix: char,
    v: nat,
    width: nat,
    upper: bool,
    max: nat,
    ctx: Context,
    rest: Seq<char>,
)
    requires
        v <= max,
        v < crate::text::pow16(width),
        width > 0,
        rest.len() == 0 || !is_hex_digit(rest[0]),
    ensures
        spec_number(seq![prefix] + hex_fixed(v, width, upper) + rest, prefix, max, true, ctx)
            == (TextParse::Done { rest, value: v }),
{
    let e = hex_fixed(v, width, upper);
    let s = seq![prefix] + e + rest;
    crate::text::lemma_hex_fixed_wf(v, width, upper);
    assert(s[0] == prefix);
    let t = s.skip(1);
    assert(t =~= e + rest);
    assert(forall|j: int| 0 <= j < e.len() ==> t[j] == e[j]);
    if rest.len() > 0 {
        assert(t[e.len() as int] == rest[0]);
    }
    lemma_run_len_is(t, e.len(), true);
    lemma_run_val_prefix(t, e, e.len(), true);
    lemma_hex_fixed_run_val(v, width, upper);
    assert(t.skip(e.len() as int) =~= rest);
}

/// Classifies `c` in the chosen digit alphabet.
fn digit_of(c: char, hex: bool) -> (r: Option<u16>)
    ensures
        match r {
            Some(d) => digit_ok(c, hex) && d as nat == digit_val(c, hex),
            None => !digit_ok(c, hex),
        },
{
    if c == '0' {
        Some(0)
    } else if c == '1' {
        Some(1)
    } else if c == '2' {
        Some(2)
    } else if c == '3' {
        Some(3)
    } else if c == '4' {
        Some(4)
    } else if c == '5' {
        Some(5)
    } else if c == '6' {
        Some(6)
    } else if c == '7' {
        Some(7)
    } else if c == '8' {
        Some(8)
    } else if c == '9' {
        Some(9)
    } else if !hex {
        None
    } else if c == 'a' || c == 'A' {
        Some(10)
    } else if c == 'b' || c == 'B' {
        Some(11)
    } else if c == 'c' || c == 'C' {
        Some(12)
    } else if c == 'd' || c == 'D' {
        Some(13)
    } else if c == 'e' || c == 'E' {
        Some(14)
    } else if c == 'f' || c == 'F' {
        Some(15)
    } else {
        None
    }
}

/// Is `c` one of the accepted whitespace characters?
fn space_char(c: char) -> (r: bool)
    ensures
        r == is_space(c),
{
    c == ' ' || c == '\t' || c == '\n' || c == '\r'
}

/// Consumes the whitespace prefix of `input`, returning how many
/// characters went and what remains.
pub fn skip_ws(input: &str) -> (r: (usize, &str))
    ensures
        r.0 == ws_len(input@),
        r.1@ == input@.skip(ws_len(input@) as int),
{
    let len = input.unicode_len();
    let mut i: usize = 0;
    loop
        invariant
            i <= len,
            len == input@.len(),
            forall|j: int| 0 <= j < i ==> is_space(input@[j]),
        ensures
            i <= len,
            forall|j: int| 0 <= j < i ==> is_space(input@[j]),
            i == len || !is_space(input@[i as int]),
        decreases len - i,
    {
        if i == len {
            break;
        }
        if !space_char(input.get_char(i)) {
            break;
        }
        i = i + 1;
    }
    proof {
        lemma_ws_len_is(input@, i as nat);
    }
    let rest = input.substring_char(i, len);
    proof {
        assert(rest@ =~= input@.skip(i as int));
    }
    (i, rest)
}

/// Consumes `tag` from the front of `input`, or reports that `input`
/// does not start with it.
pub fn parse_tag<'a>(input: &'a str, tag: &str) -> (r: Option<&'a str>)
    ensures
        match r {
            Some(rest) => spec_tag_match(input@, tag@) && rest@ == input@.skip(tag@.len() as int),
            None => !spec_tag_match(input@, tag@),
        },
{
    let n = tag.unicode_len();
    let len = input.unicode_len();
    if len < n {
        return None;
    }
    let mut i: usize = 0;
    while i < n
        invariant
            i <= n,
            n <= len,
            n == tag@.len(),
            len == input@.len(),
            forall|j: int| 0 <= j < i ==> input@[j] == tag@[j],
        decreases n - i,
    {
        if input.get_char(i) != tag.get_char(i) {
            proof {
                if spec_tag_match(input@, tag@) {
                    assert(input@.subrange(0, n as int)[i as int] == tag@[i as int]);
                }
            }
            return None;
        }
        i = i + 1;
    }
    proof {
        assert(input@.subrange(0, n as int) =~= tag@);
    }
    let rest = input.substring_char(n, len);
    proof {
        assert(rest@ =~= input@.skip(n as int));
    }
    Some(rest)
}

/// Scans the digit run of `input` that starts at `from`, accumulating
/// its value. Returns where the run ends, the value if it stayed within
/// `max`, and whether it exceeded `max`.
pub fn scan_run(input: &str, from: usize, max: u16, hex: bool) -> (r: (usize, u16, bool))
    requires
        from <= input@.len(),
    ensures
        ({
            let t = input@.skip(from as int);
            let n = run_len(t, hex);
            &&& r.0 == from + n
            &&& r.0 <= input@.len()
            &&& (r.2 <==> run_val(t, n, hex) > max as nat)
            &&& (!r.2 ==> r.1 as nat == run_val(t, n, hex) && r.1 <= max)
        }),
{
    let ghost t = input@.skip(from as int);
    let len = input.unicode_len();
    let rdx: u32 = if hex { 16 } else { 10 };
    let mut i: usize = from;
    let mut acc: u16 = 0;
    let mut over = false;
    loop
        invariant
            from <= i <= len,
            len == input@.len(),
            t == input@.skip(from as int),
            rdx as nat == radix(hex),
            forall|j: int| from <= j < i ==> digit_ok(input@[j], hex),
            over <==> run_val(t, (i - from) as nat, hex) > max as nat,
            !over ==> acc as nat == run_val(t, (i - from) as nat, hex) && acc <= max,
        ensures
            from <= i <= len,
            forall|j: int| from <= j < i ==> digit_ok(input@[j], hex),
            i == len || !digit_ok(input@[i as int], hex),
            over <==> run_val(t, (i - from) as nat, hex) > max as nat,
            !over ==> acc as nat == run_val(t, (i - from) as nat, hex) && acc <= max,
        decreases len - i,
    {
        if i == len {
            break;
        }
        let c = input.get_char(i);
        match digit_of(c, hex) {
            None => {
                break;
            },
            Some(d) => {
                proof {
                    assert(t[i - from] == input@[i as int]);
                    assert(run_val(t, (i - from + 1) as nat, hex) == run_val(
                        t,
                        (i - from) as nat,
                        hex,
                    ) * radix(hex) + digit_val(t[i - from], hex));
                }
                if over {
                    proof {
                        let v = run_val(t, (i - from) as nat, hex);
                        assert(v * radix(hex) >= v * 10) by (nonlinear_arith)
                            requires radix(hex) >= 10, v >= 0;
                        assert(v * 10 > max as nat) by (nonlinear_arith)
                            requires v > max as nat;
                    }
                } else {
                    let a2: u32 = acc as u32 * rdx + d as u32;
                    if a2 > max as u32 {
                        over = true;
                    } else {
                        acc = a2 as u16;
                    }
                }
                i = i + 1;
            },
        }
    }
    proof {
        lemma_run_len_is(t, (i - from) as nat, hex);
        assert(forall|j: int| 0 <= j < i - from ==> t[j] == input@[from + j]);
        if i < len {
            assert(t[i - from] == input@[i as int]);
        }
    }
    (i, acc, over)
}

/// Decodes a prefixed number token: `prefix`, then one or more digits
/// whose value must fit below `max`.
pub fn parse_number(input: &str, prefix: char, max: u16, hex: bool, ctx: Context) -> (r:
    ParseResult<&str, u16>)
    ensures
        ({
            let sp = spec_number(input@, prefix, max as nat, hex, ctx);
            match r {
                Ok((rest, v)) => sp == (TextParse::Done { rest: rest@, value: v as nat })
                    && v <= max,
                Err(e) => sp == (TextParse::Fail::<nat> { err: e@ }),
            }
        }),
{
    let len = input.unicode_len();
    if len == 0 {
        return Err(ParseError::at(ErrorKind::MalformedOperand, ctx));
    }
    if input.get_char(0) != prefix {
        return Err(ParseError::at(ErrorKind::MalformedOperand, ctx));
    }
    let (end, v, over) = scan_run(input, 1, max, hex);
    if end == 1 {
        return Err(ParseError::at(ErrorKind::MalformedOperand, ctx));
    }
    if over {
        return Err(ParseError::at(ErrorKind::ValueOutOfRange, ctx));
    }
    let rest = input.substring_char(end, len);
    proof {
        let t = input@.skip(1);
        assert(rest@ =~= t.skip(run_len(t, hex) as int));
    }
    Ok((rest, v))
}

/// Reads a whole string as one unprefixed digit run; the digits must
/// reach the end of the string and the value must fit below `max`.
pub fn parse_uint_all(input: &str, max: u16, hex: bool, ctx: Context) -> (r: Result<
    u16,
    ParseError,
>)
    ensures
        ({
            let sp = spec_uint_all(input@, max as nat, hex, ctx);
            match r {
                Ok(v) => sp == Ok::<nat, SpecError>(v as nat) && v <= max,
                Err(e) => sp == Err::<nat, SpecError>(e@),
            }
        }),
{
    let len = input.unicode_len();
    let (end, v, over) = scan_run(input, 0, max, hex);
    proof {
        assert(input@.skip(0) =~= input@);
    }
    if end == 0 || end < len {
        return Err(ParseError::at(ErrorKind::MalformedOperand, ctx));
    }
    if over {
        return Err(ParseError::at(ErrorKind::ValueOutOfRange, ctx));
    }
    Ok(v)
}

/// Takes the first byte of binary input.
pub fn take_u8<'a>(input: &'a [u8], ctx: Context) -> (r: ParseResult<&'a [u8], u8>)
    ensures
        ({
            let sp = spec_take_u8(input@, ctx);
            match r {
                Ok((rest, v)) => sp == (ByteParse::Done { rest: rest@, value: v }),
                Err(e) => sp == (ByteParse::Fail::<u8> { err: e@ }),
            }
        }),
{
    if input.len() < 1 {
        return Err(ParseError::at(ErrorKind::UnexpectedEndOfInput, ctx));
    }
    let b = *vstd::slice::slice_index_get(input, 0);
    let rest = vstd::slice::slice_subrange(input, 1, input.len());
    proof {
        assert(rest@ =~= input@.skip(1));
    }
    Ok((rest, b))
}

/// Takes the first two bytes of binary input as one big-endian value.
pub fn take_u16<'a>(input: &'a [u8], ctx: Context) -> (r: ParseResult<&'a [u8], u16>)
    ensures
        ({
            let sp = spec_take_u16(input@, ctx);
            match r {
                Ok((rest, v)) => sp == (ByteParse::Done { rest: rest@, value: v }),
                Err(e) => sp == (ByteParse::Fail::<u16> { err: e@ }),
            }
        }),
{
    if input.len() < 2 {
        return Err(ParseError::at(ErrorKind::UnexpectedEndOfInput, ctx));
    }
    let hi = *vstd::slice::slice_index_get(input, 0);
    let lo = *vstd::slice::slice_index_get(input, 1);
    let v: u16 = (hi as u16) * 256 + (lo as u16);
    let rest = vstd::slice::slice_subrange(input, 2, input.len());
    proof {
        assert(rest@ =~= input@.skip(2));
    }
    Ok((rest, v))
}

} // verus!
