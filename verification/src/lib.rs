//! Generator of error types: from a short declaration, given as a sequence of
//! tokens, to the text of a type definition with its `Display`, `Error` and
//! `From` impls.
//!
//! The declaration is parsed into an [`ErrorSpec`] whose parts are runs of the
//! input tokens; the synthesizer writes the definition out from those runs.
//! Rust's own sub-grammars (types, generic parameters, visibilities, attribute
//! contents) are decided by `syn`.
//!
//! - [`token`]: the tokens, their text, and the matching of delimiters.
//! - [`syntax`]: the questions put to `syn`.
//! - [`ast`]: the parsed declaration and the faults.
//! - [`parse`]: the grammar and the parser.
//! - [`names`]: the rule that no field or source is named twice.
//! - [`cfg_attrs`]: the conditional-compilation attributes of a field or source.
//! - [`emit`]: the synthesizer.
//! - [`expand`]: from tokens to generated text, or to the report of a fault.
//! - [`laws`]: what holds of every declaration and of all that is generated.

pub mod token;
pub mod syntax;
pub mod ast;
pub mod names;
pub mod parse;
pub mod cfg_attrs;
pub mod emit;
pub mod expand;
pub mod laws;

pub use crate::ast::{Contents, ErrorSpec, Field, ParseError, Span, Variant};
pub use crate::emit::{emit, Site};
pub use crate::expand::{error, generate};
pub use crate::parse::parse;
pub use crate::token::{Delim, Token};
