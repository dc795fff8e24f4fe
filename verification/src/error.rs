use vstd::prelude::*;

verus! {

/// The component of the codec that produced an error.
#[derive(Debug, Clone, Copy, PartialEq, Eq, Structural)]
pub enum Context {
    Register,
    Operand8,
    Operand16,
    Load,
    Add,
    Instruction,
    Program,
}

/// What went wrong while decoding.
#[derive(Debug, Clone, Copy, PartialEq, Eq, Structural)]
pub enum ErrorKind {
    /// No opcode's mnemonic matched the text.
    UnknownMnemonic,
    /// No opcode's id matched the leading byte; carries that byte.
    UnknownOpcode(u8),
    /// A prefix matched but no valid digit run followed, or an operand
    /// list was not shaped as the grammar demands.
    MalformedOperand,
    /// A digit run parsed but its value exceeds the target width.
    ValueOutOfRange,
    /// Binary input ended mid-record or mid-field.
    UnexpectedEndOfInput,
    /// A caller that demands full consumption found residual input.
    TrailingInput,
}

/// Ghost mirror of [`ParseError`]: the kind together with the component
/// path, innermost component first.
pub struct SpecError {
    pub kind: ErrorKind,
    pub path: Seq<Context>,
}

/// A decoding failure: its kind, and the path of components it rose
/// through, innermost first.
#[derive(Debug, Clone)]
pub struct ParseError {
    pub kind: ErrorKind,
    pub path: Vec<Context>,
}

impl View for ParseError {
    type V = SpecError;

    open spec fn view(&self) -> SpecError {
        SpecError { kind: self.kind, path: self.path@ }
    }
}

/// The ghost counterpart of [`ParseError::wrap`].
pub open spec fn err_push(e: SpecError, ctx: Context) -> SpecError {
    SpecError { kind: e.kind, path: e.path.push(ctx) }
}

impl ParseError {
    /// A fresh error raised by the component `ctx`.
    pub fn at(kind: ErrorKind, ctx: Context) -> (r: ParseError)
        ensures
            r@ == (SpecError { kind, path: seq![ctx] }),
    {
        let e = ParseError { kind, path: vec![ctx] };
        proof {
            assert(e.path@ =~= seq![ctx]);
        }
        e
    }

    /// The same error, seen one component further out.
    pub fn wrap(self, ctx: Context) -> (r: ParseError)
        ensures
            r@ == err_push(self@, ctx),
    {
        let mut e = self;
        e.path.push(ctx);
        e
    }
}

} // verus!
