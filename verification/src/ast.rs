//! The parsed declaration. Every part is a run of the input tokens, kept as
//! the positions at which it begins and ends.

use vstd::prelude::*;
use vstd::string::StringExecFns;
use crate::names::{find_repeated_name, repeated_name};
use crate::syntax::{generics_texts, syn_generics};
use crate::token::{render, render_range, Token};

verus! {

/// The tokens from `lo` up to, not including, `hi`.
#[derive(Clone, Copy, Debug, PartialEq, Eq, Structural)]
pub struct Span {
    pub lo: usize,
    pub hi: usize,
}

impl Span {
    /// The run lies within the first `len` tokens.
    pub open spec fn within(&self, len: nat) -> bool {
        self.lo <= self.hi <= len
    }

    /// Whether the run lies within the first `len` tokens.
    pub fn is_within(&self, len: usize) -> (r: bool)
        ensures
            r == self.within(len as nat),
    {
        self.lo <= self.hi && self.hi <= len
    }

    /// The run holds no token.
    pub open spec fn is_empty(&self) -> bool {
        self.lo >= self.hi
    }
}

/// The run from `lo` up to `hi`.
pub open spec fn span(lo: int, hi: int) -> Span {
    Span { lo: lo as usize, hi: hi as usize }
}

/// One named datum of a record: its attributes, visibility, the position of
/// its name, and its type.
#[derive(Clone, Copy, Debug, PartialEq, Eq, Structural)]
pub struct Field {
    pub attrs: Span,
    pub vis: Span,
    pub name: usize,
    pub ty: Span,
}

impl Field {
    /// Every part of the field lies within the first `len` tokens.
    pub open spec fn within(&self, len: nat) -> bool {
        &&& self.attrs.within(len)
        &&& self.vis.within(len)
        &&& self.name < len
        &&& self.ty.within(len)
    }
}

/// One wrapped error of a source list: its attributes and the position of the
/// identifier that is both the tag and the wrapped type.
#[derive(Clone, Copy, Debug, PartialEq, Eq, Structural)]
pub struct Variant {
    pub attrs: Span,
    pub ident: usize,
}

impl Variant {
    /// Every part of the source lies within the first `len` tokens.
    pub open spec fn within(&self, len: nat) -> bool {
        &&& self.attrs.within(len)
        &&& self.ident < len
    }
}

/// What the declared error holds.
#[derive(Clone, Debug)]
pub enum Contents {
    Unit,
    StructFields(Vec<Field>),
    SourceList(Vec<Variant>),
    ArraySource { attrs: Span, inner: Span },
}

/// `Contents` as contracts see it.
pub enum ContentsView {
    Unit,
    StructFields(Seq<Field>),
    SourceList(Seq<Variant>),
    ArraySource { attrs: Span, inner: Span },
}

impl View for Contents {
    type V = ContentsView;

    open spec fn view(&self) -> ContentsView {
        match *self {
            Contents::Unit => ContentsView::Unit,
            Contents::StructFields(fields) => ContentsView::StructFields(fields@),
            Contents::SourceList(sources) => ContentsView::SourceList(sources@),
            Contents::ArraySource { attrs, inner } => ContentsView::ArraySource { attrs, inner },
        }
    }
}

/// Every field lies within the first `len` tokens.
pub open spec fn fields_within(fields: Seq<Field>, len: nat) -> bool {
    forall|i: int| 0 <= i < fields.len() ==> (#[trigger] fields[i]).within(len)
}

/// Every source lies within the first `len` tokens.
pub open spec fn variants_within(sources: Seq<Variant>, len: nat) -> bool {
    forall|i: int| 0 <= i < sources.len() ==> (#[trigger] sources[i]).within(len)
}

impl ContentsView {
    /// Every part of the contents lies within the first `len` tokens.
    pub open spec fn within(&self, len: nat) -> bool {
        match *self {
            ContentsView::Unit => true,
            ContentsView::StructFields(fields) => fields_within(fields, len),
            ContentsView::SourceList(sources) => variants_within(sources, len),
            ContentsView::ArraySource { attrs, inner } => attrs.within(len) && inner.within(len),
        }
    }
}

/// A parsed declaration of one error type.
#[derive(Clone, Debug)]
pub struct ErrorSpec {
    pub attrs: Span,
    pub vis: Span,
    pub name: usize,
    pub generics: Span,
    pub msg: Option<usize>,
    pub contents: Contents,
}

/// `ErrorSpec` as contracts see it.
pub struct ErrorSpecView {
    pub attrs: Span,
    pub vis: Span,
    pub name: usize,
    pub generics: Span,
    pub msg: Option<usize>,
    pub contents: ContentsView,
}

impl View for ErrorSpec {
    type V = ErrorSpecView;

    open spec fn view(&self) -> ErrorSpecView {
        ErrorSpecView {
            attrs: self.attrs,
            vis: self.vis,
            name: self.name,
            generics: self.generics,
            msg: self.msg,
            contents: self.contents@,
        }
    }
}

impl ErrorSpecView {
    /// Only a source list may do without a message.
    pub open spec fn has_required_message(&self) -> bool {
        self.msg.is_some() || self.contents is SourceList
    }

    /// The declaration is one of `toks`: every part lies within the tokens,
    /// the generic parameters are such, no field or source has the name of
    /// another, and a message is there where one is required.
    pub open spec fn wf(&self, toks: Seq<Token>) -> bool {
        &&& self.attrs.within(toks.len())
        &&& self.vis.within(toks.len())
        &&& self.name < toks.len()
        &&& self.generics.within(toks.len())
        &&& (self.generics.is_empty() || syn_generics(
            render(toks, self.generics.lo as int, self.generics.hi as int),
        ).is_some())
        &&& (self.msg matches Some(m) ==> m < toks.len())
        &&& self.contents.within(toks.len())
        &&& repeated_name(toks, self.contents) is None
        &&& self.has_required_message()
    }
}

impl Contents {
    /// Whether every part lies within the first `len` tokens.
    pub fn is_within(&self, len: usize) -> (r: bool)
        ensures
            r == self@.within(len as nat),
    {
        match self {
            Contents::Unit => true,
            Contents::StructFields(fields) => {
                let mut i: usize = 0;
                while i < fields.len()
                    invariant
                        i <= fields@.len(),
                        self@ == ContentsView::StructFields(fields@),
                        forall|k: int| 0 <= k < i ==> (#[trigger] fields@[k]).within(len as nat),
                    decreases fields@.len() - i,
                {
                    let f = fields[i];
                    if !(f.attrs.is_within(len) && f.vis.is_within(len) && f.name < len
                        && f.ty.is_within(len)) {
                        assert(!fields@[i as int].within(len as nat));
                        return false;
                    }
                    i += 1;
                }
                true
            },
            Contents::SourceList(sources) => {
                let mut i: usize = 0;
                while i < sources.len()
                    invariant
                        i <= sources@.len(),
                        self@ == ContentsView::SourceList(sources@),
                        forall|k: int| 0 <= k < i ==> (#[trigger] sources@[k]).within(len as nat),
                    decreases sources@.len() - i,
                {
                    let v = sources[i];
                    if !(v.attrs.is_within(len) && v.ident < len) {
                        assert(!sources@[i as int].within(len as nat));
                        return false;
                    }
                    i += 1;
                }
                true
            },
            Contents::ArraySource { attrs, inner } => attrs.is_within(len) && inner.is_within(len),
        }
    }
}

impl ErrorSpec {
    /// Whether this is a declaration of `toks`, so that text can be generated
    /// for it.
    pub fn is_well_formed(&self, toks: &Vec<Token>) -> (r: bool)
        ensures
            r == self@.wf(toks@),
    {
        let len = toks.len();
        if !(self.attrs.is_within(len) && self.vis.is_within(len) && self.name < len
            && self.generics.is_within(len)) {
            return false;
        }
        if self.generics.lo < self.generics.hi {
            let text = render_range(toks, self.generics.lo, self.generics.hi);
            if generics_texts(text.as_str()).is_none() {
                return false;
            }
        }
        let msg_ok = match self.msg {
            Some(m) => m < len,
            None => true,
        };
        let is_sources = match &self.contents {
            Contents::SourceList(_) => true,
            _ => false,
        };
        msg_ok && self.contents.is_within(len) && find_repeated_name(toks, &self.contents).is_none()
            && (self.msg.is_some() || is_sources)
    }
}

/// Why a token sequence is no declaration. `at` is the position of the token
/// at which the fault was found (the number of tokens, where it was found at
/// the end).
#[derive(Clone, Copy, Debug, PartialEq, Eq, Structural)]
pub enum ParseError {
    /// A `#` that begins no attribute.
    InvalidAttribute { at: usize },
    /// No identifier where the type's name must stand.
    ExpectedName { at: usize },
    /// A `<` that begins no generic parameter list.
    InvalidGenerics { at: usize },
    /// What follows the name and message is no field list, no source list, no
    /// bracketed type and not empty.
    InvalidContents { at: usize },
    /// A field or a source with the name of one before it.
    DuplicateName { at: usize },
    /// No message, and the contents are no source list.
    MissingMessage { at: usize },
}

impl ParseError {
    /// The position of the token at which the fault was found.
    pub open spec fn position(&self) -> usize {
        match *self {
            ParseError::InvalidAttribute { at } => at,
            ParseError::ExpectedName { at } => at,
            ParseError::InvalidGenerics { at } => at,
            ParseError::InvalidContents { at } => at,
            ParseError::DuplicateName { at } => at,
            ParseError::MissingMessage { at } => at,
        }
    }

    /// The diagnostic's text.
    pub open spec fn message_text(&self) -> Seq<char> {
        match *self {
            ParseError::InvalidAttribute { .. } => "invalid attribute"@,
            ParseError::ExpectedName { .. } => "expected identifier"@,
            ParseError::InvalidGenerics { .. } => "invalid generic parameters"@,
            ParseError::InvalidContents { .. } => "invalid error contents"@,
            ParseError::DuplicateName { .. } => "duplicate name"@,
            ParseError::MissingMessage { .. } => "any non-enum error must have a display message"@,
        }
    }

    /// The position of the token at which the fault was found.
    pub fn at(&self) -> (r: usize)
        ensures
            r == self.position(),
    {
        match *self {
            ParseError::InvalidAttribute { at } => at,
            ParseError::ExpectedName { at } => at,
            ParseError::InvalidGenerics { at } => at,
            ParseError::InvalidContents { at } => at,
            ParseError::DuplicateName { at } => at,
            ParseError::MissingMessage { at } => at,
        }
    }

    /// The diagnostic's text.
    pub fn message(&self) -> (r: String)
        ensures
            r@ == self.message_text(),
    {
        match *self {
            ParseError::InvalidAttribute { .. } => String::from_str("invalid attribute"),
            ParseError::ExpectedName { .. } => String::from_str("expected identifier"),
            ParseError::InvalidGenerics { .. } => String::from_str("invalid generic parameters"),
            ParseError::InvalidContents { .. } => String::from_str("invalid error contents"),
            ParseError::DuplicateName { .. } => String::from_str("duplicate name"),
            ParseError::MissingMessage { .. } => String::from_str(
                "any non-enum error must have a display message",
            ),
        }
    }
}

} // verus!
