//! The program container: an ordered sequence of instructions with
//! aggregate codec operations. Text renders one instruction per line;
//! binary is the bare concatenation of four-byte records.

use vstd::prelude::*;

use crate::error::Context;
use crate::error::ErrorKind;
use crate::error::ParseError;
use crate::error::err_push;
use crate::instruction::Instruction;
use crate::instruction::instr_bytes;
use crate::instruction::instr_from_text;
use crate::instruction::instr_hex_text;
use crate::instruction::instr_plain_hex;
use crate::instruction::instr_text;
use crate::instruction::lemma_instr_bytes_rest;
use crate::instruction::lemma_instr_text_suffix;
use crate::instruction::spec_instr_bytes;
use crate::instruction::spec_instr_text;
use crate::parse::ByteParse;
use crate::parse::ParseBytes;
use crate::parse::ParseResult;
use crate::parse::ParseString;
use crate::parse::TextParse;
use crate::parse::byte_fail;
use crate::parse::skip_ws;
use crate::parse::ws_len;

verus! {

/// Which textual rendering of an instruction a program line uses.
#[derive(Debug, Clone, Copy)]
pub enum TextForm {
    /// The decimal grammar form, `LOAD $10 #500`.
    Dec,
    /// The hex grammar form, `LOAD $0A #01F4`.
    Hex { upper: bool },
    /// The bare display-only hex form, `LOAD 0A 01F4`.
    PlainHex { upper: bool },
}

/// The chosen rendering of one instruction.
pub open spec fn instr_render(i: Instruction, form: TextForm) -> Seq<char> {
    match form {
        TextForm::Dec => instr_text(i),
        TextForm::Hex { upper } => instr_hex_text(i, upper),
        TextForm::PlainHex { upper } => instr_plain_hex(i, upper),
    }
}

/// The instructions of `p` rendered in `form` and joined by newlines.
pub open spec fn join_render(p: Seq<Instruction>, form: TextForm) -> Seq<char>
    decreases p.len(),
{
    if p.len() == 0 {
        Seq::empty()
    } else if p.len() == 1 {
        instr_render(p[0], form)
    } else {
        instr_render(p[0], form) + seq!['\n'] + join_render(p.skip(1), form)
    }
}

/// Unrolls [`join_render`] from the back: a nonempty joined rendering is
/// the rendering of the front followed by a newline and the last line.
pub proof fn lemma_join_render_snoc(p: Seq<Instruction>, form: TextForm)
    requires
        p.len() > 0,
    ensures
        join_render(p, form) == if p.len() == 1 {
            instr_render(p[0], form)
        } else {
            join_render(p.drop_last(), form) + seq!['\n'] + instr_render(p.last(), form)
        },
    decreases p.len(),
{
    if p.len() == 1 {
    } else if p.len() == 2 {
        assert(p.skip(1).len() == 1);
        assert(join_render(p, form) == instr_render(p[0], form) + seq!['\n'] + join_render(
            p.skip(1),
            form,
        ));
        assert(join_render(p.skip(1), form) == instr_render(p.skip(1)[0], form));
        assert(p.skip(1)[0] == p[1]);
        assert(p.drop_last().len() == 1);
        assert(join_render(p.drop_last(), form) == instr_render(p.drop_last()[0], form));
        assert(p.drop_last()[0] == p[0]);
        assert(p.last() == p[1]);
    } else {
        lemma_join_render_snoc(p.skip(1), form);
        assert(p.skip(1).drop_last() =~= p.drop_last().skip(1));
        assert(p.skip(1).last() == p.last());
        assert(p.drop_last().len() >= 2);
        assert(p.drop_last()[0] == p[0]);
        assert(join_render(p, form) == instr_render(p[0], form) + seq!['\n'] + join_render(
            p.skip(1),
            form,
        ));
        assert(join_render(p.skip(1), form) == join_render(p.drop_last().skip(1), form)
            + seq!['\n'] + instr_render(p.last(), form));
        assert(join_render(p.drop_last(), form) == instr_render(p[0], form) + seq!['\n']
            + join_render(p.drop_last().skip(1), form));
        assert(instr_render(p[0], form) + seq!['\n'] + (join_render(p.drop_last().skip(1), form)
            + seq!['\n'] + instr_render(p.last(), form)) =~= (instr_render(p[0], form)
            + seq!['\n'] + join_render(p.drop_last().skip(1), form)) + seq!['\n'] + instr_render(
            p.last(),
            form,
        ));
    }
}

/// The decimal-text rendering of a program, one instruction per line.
pub open spec fn program_text(p: Seq<Instruction>) -> Seq<char> {
    join_render(p, TextForm::Dec)
}

/// The hex-grammar rendering of a program, one instruction per line.
pub open spec fn program_hex_text(p: Seq<Instruction>, upper: bool) -> Seq<char> {
    join_render(p, TextForm::Hex { upper })
}

/// The bare, display-only hex rendering of a program.
pub open spec fn program_plain_hex(p: Seq<Instruction>, upper: bool) -> Seq<char> {
    join_render(p, TextForm::PlainHex { upper })
}

/// The binary rendering of a program: its records concatenated with no
/// delimiter, header or length prefix.
pub open spec fn program_bytes(p: Seq<Instruction>) -> Seq<u8>
    decreases p.len(),
{
    if p.len() == 0 {
        Seq::empty()
    } else {
        instr_bytes(p[0]) + program_bytes(p.skip(1))
    }
}

/// Unrolls [`program_bytes`] from the back.
pub proof fn lemma_program_bytes_snoc(p: Seq<Instruction>)
    requires
        p.len() > 0,
    ensures
        program_bytes(p) == program_bytes(p.drop_last()) + instr_bytes(p.last()),
    decreases p.len(),
{
    if p.len() == 1 {
        assert(program_bytes(p.drop_last()) + instr_bytes(p.last()) =~= instr_bytes(p[0]));
        assert(instr_bytes(p[0]) + program_bytes(p.skip(1)) =~= instr_bytes(p[0]));
    } else {
        lemma_program_bytes_snoc(p.skip(1));
        assert(p.skip(1).drop_last() =~= p.drop_last().skip(1));
        assert(p.skip(1).last() == p.last());
        assert(p.drop_last()[0] == p[0]);
        assert(instr_bytes(p[0]) + (program_bytes(p.drop_last().skip(1)) + instr_bytes(p.last()))
            =~= (instr_bytes(p[0]) + program_bytes(p.drop_last().skip(1))) + instr_bytes(
            p.last(),
        ));
    }
}

/// The ghost text parser for the instructions that follow the first one:
/// each must be preceded by whitespace; a missing separator or an
/// unknown mnemonic ends the program, while a malformed instruction
/// whose mnemonic matched is a hard error.
pub open spec fn spec_program_more(s: Seq<char>, hex: bool) -> TextParse<Seq<Instruction>>
    decreases s.len(),
{
    if ws_len(s) == 0 {
        TextParse::Done { rest: s, value: Seq::empty() }
    } else {
        let t = s.skip(ws_len(s) as int);
        match spec_instr_text(t, hex) {
            TextParse::Fail { err } => {
                if err.kind == ErrorKind::UnknownMnemonic {
                    TextParse::Done { rest: s, value: Seq::empty() }
                } else {
                    TextParse::Fail { err: err_push(err, Context::Program) }
                }
            },
            TextParse::Done { rest, value } => {
                if rest.len() < s.len() {
                    match spec_program_more(rest, hex) {
                        TextParse::Fail { err } => TextParse::Fail { err },
                        TextParse::Done { rest: r2, value: items } => TextParse::Done {
                            rest: r2,
                            value: seq![value] + items,
                        },
                    }
                } else {
                    // an instruction always consumes input, so this
                    // branch is never taken
                    TextParse::Done { rest: s, value: Seq::empty() }
                }
            },
        }
    }
}

/// The ghost text parser for a whole program: zero or more instructions
/// separated by whitespace runs.
pub open spec fn spec_program_text(s: Seq<char>, hex: bool) -> TextParse<Seq<Instruction>> {
    match spec_instr_text(s, hex) {
        TextParse::Fail { err } => {
            if err.kind == ErrorKind::UnknownMnemonic {
                TextParse::Done { rest: s, value: Seq::empty() }
            } else {
                TextParse::Fail { err: err_push(err, Context::Program) }
            }
        },
        TextParse::Done { rest, value } => match spec_program_more(rest, hex) {
            TextParse::Fail { err } => TextParse::Fail { err },
            TextParse::Done { rest: r2, value: items } => TextParse::Done {
                rest: r2,
                value: seq![value] + items,
            },
        },
    }
}

/// The ghost binary parser for a whole program: records until the input
/// is exhausted; a dangling remainder of one to three bytes is a
/// truncation error, never silently ignored.
pub open spec fn spec_program_bytes(s: Seq<u8>) -> ByteParse<Seq<Instruction>>
    decreases s.len(),
{
    if s.len() == 0 {
        ByteParse::Done { rest: s, value: Seq::empty() }
    } else if s.len() < 4 {
        byte_fail(ErrorKind::UnexpectedEndOfInput, Context::Program)
    } else {
        match spec_instr_bytes(s) {
            ByteParse::Fail { err } => ByteParse::Fail { err: err_push(err, Context::Program) },
            ByteParse::Done { rest, value } => {
                if rest.len() < s.len() {
                    match spec_program_bytes(rest) {
                        ByteParse::Fail { err } => ByteParse::Fail { err },
                        ByteParse::Done { rest: r2, value: items } => ByteParse::Done {
                            rest: r2,
                            value: seq![value] + items,
                        },
                    }
                } else {
                    // a record always consumes four bytes, so this
                    // branch is never taken
                    ByteParse::Done { rest: s, value: Seq::empty() }
                }
            },
        }
    }
}

/// Prepends already-parsed instructions to the outcome of the ghost
/// parser for the remaining text.
pub open spec fn more_with(prefix: Seq<Instruction>, m: TextParse<Seq<Instruction>>) -> TextParse<
    Seq<Instruction>,
> {
    match m {
        TextParse::Done { rest, value } => TextParse::Done { rest, value: prefix + value },
        TextParse::Fail { err } => TextParse::Fail { err },
    }
}

/// Prepends already-parsed instructions to the outcome of the ghost
/// parser for the remaining bytes.
pub open spec fn byte_more_with(prefix: Seq<Instruction>, m: ByteParse<Seq<Instruction>>)
    -> ByteParse<Seq<Instruction>> {
    match m {
        ByteParse::Done { rest, value } => ByteParse::Done { rest, value: prefix + value },
        ByteParse::Fail { err } => ByteParse::Fail { err },
    }
}

/// Does this form parse under the hexadecimal digit alphabet?
pub open spec fn form_hex(form: TextForm) -> bool {
    match form {
        TextForm::Hex { .. } => true,
        _ => false,
    }
}

/// The letter case of a hex form; immaterial for the decimal form.
pub open spec fn form_upper(form: TextForm) -> bool {
    match form {
        TextForm::Hex { upper } => upper,
        TextForm::PlainHex { upper } => upper,
        TextForm::Dec => false,
    }
}

/// Every rendering of an instruction starts with its mnemonic's first
/// letter.
pub proof fn lemma_instr_render_first(i: Instruction, form: TextForm)
    ensures
        instr_render(i, form).len() >= 1,
        instr_render(i, form)[0] == 'L' || instr_render(i, form)[0] == 'A',
{
    match i {
        Instruction::LoadI(l) => {
            assert(instr_render(i, form)[0] == 'L');
        },
        Instruction::AddI(a) => {
            assert(instr_render(i, form)[0] == 'A');
        },
    }
}

/// Round trip for the tail of a program: a newline, then the remaining
/// instructions joined by newlines, parses back to exactly those
/// instructions with nothing left over.
#[verifier::rlimit(60)]
pub proof fn lemma_program_more_rt(q: Seq<Instruction>, form: TextForm)
    requires
        q.len() > 0,
        !(form matches TextForm::PlainHex { .. }),
    ensures
        spec_program_more(seq!['\n'] + join_render(q, form), form_hex(form)) == (TextParse::Done {
            rest: Seq::<char>::empty(),
            value: q,
        }),
    decreases q.len(),
{
    let hex = form_hex(form);
    let upper = form_upper(form);
    let jq = join_render(q, form);
    let s = seq!['\n'] + jq;
    lemma_instr_render_first(q[0], form);
    if q.len() > 1 {
        assert(jq[0] == instr_render(q[0], form)[0]);
    }
    assert(crate::text::is_space(s[0]));
    assert(s[1] == jq[0]);
    assert(!crate::text::is_space(s[1]));
    crate::parse::lemma_ws_len_is(s, 1);
    let t = s.skip(1);
    assert(t =~= jq);
    assert(instr_render(q[0], form) == (if hex {
        instr_hex_text(q[0], upper)
    } else {
        instr_text(q[0])
    }));
    assert(spec_program_more(Seq::<char>::empty(), hex) == (TextParse::Done {
        rest: Seq::<char>::empty(),
        value: Seq::<Instruction>::empty(),
    }));
    if q.len() == 1 {
        crate::instruction::lemma_instr_text_rt(q[0], hex, upper, Seq::<char>::empty());
        assert(instr_render(q[0], form) + Seq::<char>::empty() =~= jq);
        assert(spec_instr_text(t, hex) == (TextParse::Done { rest: Seq::<char>::empty(), value: q[0] }));
        assert(seq![q[0]] + Seq::<Instruction>::empty() =~= q);
    } else {
        let rest0 = seq!['\n'] + join_render(q.skip(1), form);
        assert(t =~= instr_render(q[0], form) + rest0);
        assert(!crate::text::digit_ok(rest0[0], hex));
        crate::instruction::lemma_instr_text_rt(q[0], hex, upper, rest0);
        assert(rest0.len() < s.len());
        lemma_program_more_rt(q.skip(1), form);
        assert(seq![q[0]] + q.skip(1) =~= q);
    }
}

/// Round trip for whole-program text: rendering a program in the
/// decimal or hex grammar and decoding it under the same grammar gives
/// back the same instructions, in order, with nothing left over.
#[verifier::rlimit(60)]
pub proof fn lemma_program_text_rt(p: Seq<Instruction>, form: TextForm)
    requires
        !(form matches TextForm::PlainHex { .. }),
    ensures
        spec_program_text(join_render(p, form), form_hex(form)) == (TextParse::Done {
            rest: Seq::<char>::empty(),
            value: p,
        }),
{
    let hex = form_hex(form);
    let upper = form_upper(form);
    let s = join_render(p, form);
    if p.len() == 0 {
        assert(p =~= Seq::<Instruction>::empty());
        assert(!crate::parse::spec_tag_match(s, crate::load::load_mnemonic()));
        assert(!crate::parse::spec_tag_match(s, crate::add::add_mnemonic()));
    } else {
        assert(instr_render(p[0], form) == (if hex {
            instr_hex_text(p[0], upper)
        } else {
            instr_text(p[0])
        }));
        lemma_instr_render_first(p[0], form);
        assert(spec_program_more(Seq::<char>::empty(), hex) == (TextParse::Done {
            rest: Seq::<char>::empty(),
            value: Seq::<Instruction>::empty(),
        }));
        if p.len() == 1 {
            crate::instruction::lemma_instr_text_rt(p[0], hex, upper, Seq::<char>::empty());
            assert(instr_render(p[0], form) + Seq::<char>::empty() =~= s);
            assert(spec_instr_text(s, hex) == (TextParse::Done { rest: Seq::<char>::empty(), value: p[0] }));
            assert(seq![p[0]] + Seq::<Instruction>::empty() =~= p);
        } else {
            let rest0 = seq!['\n'] + join_render(p.skip(1), form);
            assert(s =~= instr_render(p[0], form) + rest0);
            assert(!crate::text::digit_ok(rest0[0], hex));
            crate::instruction::lemma_instr_text_rt(p[0], hex, upper, rest0);
            lemma_program_more_rt(p.skip(1), form);
            assert(seq![p[0]] + p.skip(1) =~= p);
        }
    }
}

/// Round trip for program binary: concatenating the four-byte records
/// of a program and decoding the result gives back the same
/// instructions, in order, consuming every byte.
pub proof fn lemma_program_bytes_rt(p: Seq<Instruction>)
    ensures
        spec_program_bytes(program_bytes(p)) == (ByteParse::Done {
            rest: Seq::<u8>::empty(),
            value: p,
        }),
    decreases p.len(),
{
    let s = program_bytes(p);
    if p.len() == 0 {
        assert(p =~= Seq::<Instruction>::empty());
    } else {
        let rest0 = program_bytes(p.skip(1));
        crate::instruction::lemma_instr_bytes_rt(p[0], rest0);
        lemma_program_bytes_rt(p.skip(1));
        assert(seq![p[0]] + p.skip(1) =~= p);
    }
}

/// An ordered sequence of instructions.
#[derive(Debug)]
pub struct Program(pub Vec<Instruction>);

impl Program {
    /// Creates a [`Program`] from its instructions, kept in order.
    pub fn make(xs: Vec<Instruction>) -> (r: Self)
        ensures
            r.0 == xs,
    {
        Program(xs)
    }

    /// Renders every instruction in `form`, one per line.
    fn render(&self, form: TextForm) -> (r: String)
        ensures
            r@ == join_render(self.0@, form),
    {
        let ghost p = self.0@;
        let mut s = String::new();
        let mut k: usize = 0;
        let n = self.0.len();
        proof {
            assert(p.take(0) =~= Seq::<Instruction>::empty());
        }
        while k < n
            invariant
                k <= n,
                n == p.len(),
                p == self.0@,
                s@ == join_render(p.take(k as int), form),
            decreases n - k,
        {
            if k != 0 {
                proof {
                    reveal_strlit("\n");
                }
                s.append("\n");
            }
            let it = self.0[k];
            let line = match form {
                TextForm::Dec => it.to_string(),
                TextForm::Hex { upper } => it.to_hex_string(upper),
                TextForm::PlainHex { upper } => {
                    if upper {
                        it.to_upper_hex()
                    } else {
                        it.to_lower_hex()
                    }
                },
            };
            s.append(line.as_str());
            proof {
                let q = p.take(k as int + 1);
                lemma_join_render_snoc(q, form);
                assert(q.drop_last() =~= p.take(k as int));
                assert(q.last() == p[k as int]);
                assert(s@ =~= join_render(q, form));
            }
            k = k + 1;
        }
        proof {
            assert(p.take(n as int) =~= p);
        }
        s
    }

    /// The decimal-text rendering, newline between instructions.
    pub fn to_string(&self) -> (r: String)
        ensures
            r@ == program_text(self.0@),
    {
        self.render(TextForm::Dec)
    }

    /// The bare upper-case hex rendering, newline between instructions.
    pub fn to_upper_hex(&self) -> (r: String)
        ensures
            r@ == program_plain_hex(self.0@, true),
    {
        self.render(TextForm::PlainHex { upper: true })
    }

    /// The bare lower-case hex rendering, newline between instructions.
    pub fn to_lower_hex(&self) -> (r: String)
        ensures
            r@ == program_plain_hex(self.0@, false),
    {
        self.render(TextForm::PlainHex { upper: false })
    }

    /// The hex-grammar rendering, newline between instructions; unlike
    /// [`Program::to_upper_hex`], its output re-parses.
    pub fn to_hex_string(&self, upper: bool) -> (r: String)
        ensures
            r@ == program_hex_text(self.0@, upper),
    {
        self.render(TextForm::Hex { upper })
    }

    /// The binary rendering: the four-byte records in order, with no
    /// delimiter.
    pub fn to_bytes(&self) -> (r: Vec<u8>)
        ensures
            r@ == program_bytes(self.0@),
    {
        let ghost p = self.0@;
        let mut v: Vec<u8> = Vec::new();
        let mut k: usize = 0;
        let n = self.0.len();
        proof {
            assert(p.take(0) =~= Seq::<Instruction>::empty());
        }
        while k < n
            invariant
                k <= n,
                n == p.len(),
                p == self.0@,
                v@ == program_bytes(p.take(k as int)),
            decreases n - k,
        {
            let b = self.0[k].to_bytes();
            v.push(*vstd::array::array_index_get(&b, 0));
            v.push(*vstd::array::array_index_get(&b, 1));
            v.push(*vstd::array::array_index_get(&b, 2));
            v.push(*vstd::array::array_index_get(&b, 3));
            proof {
                let q = p.take(k as int + 1);
                lemma_program_bytes_snoc(q);
                assert(q.drop_last() =~= p.take(k as int));
                assert(q.last() == p[k as int]);
                assert(v@ =~= program_bytes(q));
            }
            k = k + 1;
        }
        proof {
            assert(p.take(n as int) =~= p);
        }
        v
    }
}

/// Decodes a leading program from text in either digit alphabet.
fn program_from_text(input: &str, hex: bool) -> (r: ParseResult<&str, Program>)
    ensures
        match r {
            Ok((rest, p)) => spec_program_text(input@, hex) == (TextParse::Done {
                rest: rest@,
                value: p.0@,
            }),
            Err(e) => spec_program_text(input@, hex) == (TextParse::Fail::<Seq<Instruction>> {
                err: e@,
            }),
        },
{
    let mut acc: Vec<Instruction> = Vec::new();
    let mut cur: &str;
    match instr_from_text(input, hex) {
        Err(e) => {
            if matches!(e.kind, ErrorKind::UnknownMnemonic) {
                proof {
                    assert(acc@ =~= Seq::<Instruction>::empty());
                }
                return Ok((input, Program(acc)));
            } else {
                return Err(e.wrap(Context::Program));
            }
        },
        Ok((rest, i)) => {
            acc.push(i);
            cur = rest;
            proof {
                match spec_program_more(cur@, hex) {
                    TextParse::Done { rest: r2, value: items } => {
                        assert(seq![i] + items =~= acc@ + items);
                    },
                    TextParse::Fail { .. } => {},
                }
            }
        },
    }
    loop
        invariant
            spec_program_text(input@, hex) == more_with(acc@, spec_program_more(cur@, hex)),
        decreases cur@.len(),
    {
        let (wn, after) = skip_ws(cur);
        if wn == 0 {
            proof {
                assert(acc@ + Seq::<Instruction>::empty() =~= acc@);
            }
            return Ok((cur, Program(acc)));
        }
        match instr_from_text(after, hex) {
            Err(e) => {
                if matches!(e.kind, ErrorKind::UnknownMnemonic) {
                    proof {
                        assert(acc@ + Seq::<Instruction>::empty() =~= acc@);
                    }
                    return Ok((cur, Program(acc)));
                } else {
                    return Err(e.wrap(Context::Program));
                }
            },
            Ok((rest2, i)) => {
                let ghost acc_old = acc@;
                let ghost cur_old = cur@;
                acc.push(i);
                cur = rest2;
                proof {
                    crate::parse::lemma_ws_len_le(cur_old);
                    lemma_instr_text_suffix(after@, hex);
                    assert(rest2@.len() < cur_old.len());
                    assert(spec_program_more(cur_old, hex) == more_with(
                        seq![i],
                        spec_program_more(rest2@, hex),
                    ));
                    assert(acc@ =~= acc_old + seq![i]);
                    match spec_program_more(cur@, hex) {
                        TextParse::Done { rest: r2, value: items } => {
                            assert(acc_old + (seq![i] + items) =~= (acc_old + seq![i]) + items);
                        },
                        TextParse::Fail { .. } => {},
                    }
                }
            },
        }
    }
}

impl ParseString for Program {
    type Output = Program;

    fn parse_str(input: &str) -> (r: ParseResult<&str, Program>)
        ensures
            match r {
                Ok((rest, p)) => spec_program_text(input@, false) == (TextParse::Done {
                    rest: rest@,
                    value: p.0@,
                }),
                Err(e) => spec_program_text(input@, false) == (TextParse::Fail::<
                    Seq<Instruction>,
                > { err: e@ }),
            },
    {
        program_from_text(input, false)
    }

    fn parse_hex_str(input: &str) -> (r: ParseResult<&str, Program>)
        ensures
            match r {
                Ok((rest, p)) => spec_program_text(input@, true) == (TextParse::Done {
                    rest: rest@,
                    value: p.0@,
                }),
                Err(e) => spec_program_text(input@, true) == (TextParse::Fail::<
                    Seq<Instruction>,
                > { err: e@ }),
            },
    {
        program_from_text(input, true)
    }
}

impl ParseBytes for Program {
    type Output = Program;

    fn parse_bytes(input: &[u8]) -> (r: ParseResult<&[u8], Program>)
        ensures
            match r {
                Ok((rest, p)) => spec_program_bytes(input@) == (ByteParse::Done {
                    rest: rest@,
                    value: p.0@,
                }),
                Err(e) => spec_program_bytes(input@) == (ByteParse::Fail::<Seq<Instruction>> {
                    err: e@,
                }),
            },
    {
        let mut acc: Vec<Instruction> = Vec::new();
        let mut cur: &[u8] = input;
        proof {
            match spec_program_bytes(cur@) {
                ByteParse::Done { rest: r2, value: items } => {
                    assert(Seq::<Instruction>::empty() + items =~= items);
                },
                ByteParse::Fail { .. } => {},
            }
        }
        loop
            invariant
                spec_program_bytes(input@) == byte_more_with(acc@, spec_program_bytes(cur@)),
            decreases cur@.len(),
        {
            if cur.len() == 0 {
                proof {
                    assert(acc@ + Seq::<Instruction>::empty() =~= acc@);
                }
                return Ok((cur, Program(acc)));
            }
            if cur.len() < 4 {
                return Err(ParseError::at(ErrorKind::UnexpectedEndOfInput, Context::Program));
            }
            match Instruction::parse_bytes(cur) {
                Err(e) => {
                    return Err(e.wrap(Context::Program));
                },
                Ok((rest2, i)) => {
                    let ghost acc_old = acc@;
                    let ghost cur_old = cur@;
                    acc.push(i);
                    cur = rest2;
                    proof {
                        lemma_instr_bytes_rest(cur_old);
                        assert(rest2@.len() < cur_old.len());
                        assert(spec_program_bytes(cur_old) == byte_more_with(
                            seq![i],
                            spec_program_bytes(rest2@),
                        ));
                        assert(acc@ =~= acc_old + seq![i]);
                        match spec_program_bytes(cur@) {
                            ByteParse::Done { rest: r2, value: items } => {
                                assert(acc_old + (seq![i] + items) =~= (acc_old + seq![i])
                                    + items);
                            },
                            ByteParse::Fail { .. } => {},
                        }
                    }
                },
            }
        }
    }
}

} // verus!
