//! The whole way: from the tokens of a declaration to the text that stands in
//! its place.

use vstd::prelude::*;
use vstd::string::StringExecFns;
use crate::ast::ParseError;
use crate::emit::{emit, emit_text};
use crate::parse::{parse, parse_spec};
use crate::token::Token;

verus! {

/// What `generate` gives for a token sequence.
pub open spec fn generate_spec(toks: Seq<Token>) -> Result<Seq<char>, ParseError> {
    match parse_spec(toks) {
        Ok(spec) => Ok(emit_text(toks, spec)),
        Err(e) => Err(e),
    }
}

/// The text that reports a fault to the compiler: a call of `compile_error`
/// with the fault's message.
pub open spec fn diagnostic_text(e: ParseError) -> Seq<char> {
    Seq::empty() + "::core::compile_error! { \""@ + e.message_text() + "\" } "@
}

/// What `error` gives for a token sequence.
pub open spec fn error_spec(toks: Seq<Token>) -> Seq<char> {
    match generate_spec(toks) {
        Ok(text) => text,
        Err(e) => diagnostic_text(e),
    }
}

/// From the tokens of a declaration to the generated text, or to the fault
/// that makes the tokens no declaration.
pub fn generate(toks: &Vec<Token>) -> (r: Result<String, ParseError>)
    ensures
        match r {
            Ok(out) => generate_spec(toks@) == Ok::<Seq<char>, ParseError>(out@),
            Err(e) => generate_spec(toks@) == Err::<Seq<char>, ParseError>(e),
        },
{
    match parse(toks) {
        Ok(spec) => Ok(emit(toks, &spec)),
        Err(e) => Err(e),
    }
}

/// The text that reports `e` to the compiler.
pub fn diagnostic(e: &ParseError) -> (out: String)
    ensures
        out@ == diagnostic_text(*e),
{
    let mut out = String::new();
    out.append("::core::compile_error! { \"");
    out.append(e.message().as_str());
    out.append("\" } ");
    out
}

/// What stands in place of a declaration: the generated text, or, where the
/// tokens are no declaration, the text that reports the fault. There is no
/// third outcome and nothing partial.
pub fn error(toks: &Vec<Token>) -> (out: String)
    ensures
        out@ == error_spec(toks@),
{
    match generate(toks) {
        Ok(out) => out,
        Err(e) => diagnostic(&e),
    }
}

} // verus!
