//! A tiny register-machine instruction codec.
//!
//! Instructions exist in three interchangeable representations: decimal
//! assembly text (`LOAD $10 #500`), hexadecimal assembly text
//! (`LOAD $0A #01F4`), and a fixed-width four-byte binary record.
//! Every decoder and encoder in this crate is specified against a single
//! mathematical grammar, and the round-trip laws — decoding any
//! rendering gives back the value it came from — are proved in
//! [`laws`].

pub mod add;
pub mod error;
pub mod instruction;
pub mod laws;
pub mod load;
pub mod operand16;
pub mod operand8;
pub mod parse;
pub mod pbytes;
pub mod program;
pub mod rindex;
pub mod text;
pub mod vm;

pub use add::Add;
pub use error::Context;
pub use error::ErrorKind;
pub use error::ParseError;
pub use error::SpecError;
pub use instruction::Instruction;
pub use load::Load;
pub use operand16::Operand16;
pub use operand8::Operand8;
pub use parse::ParseBytes;
pub use parse::ParseResult;
pub use parse::ParseString;
pub use pbytes::PBytes;
pub use pbytes::PBytesIter;
pub use program::Program;
pub use program::TextForm;
pub use rindex::RIndex;
pub use vm::VM;
