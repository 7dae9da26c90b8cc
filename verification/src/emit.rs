//! The synthesizer: from a parsed declaration to the text of the type's
//! definition, its `Display` impl, its `Error` impl, and, for a source list,
//! one `From` impl for each source.

use vstd::prelude::*;
use vstd::string::StringExecFns;
use crate::ast::{
    fields_within, variants_within, Contents, ContentsView, ErrorSpec, ErrorSpecView, Field,
    Span, Variant,
};
use crate::cfg_attrs::{cfg_text, render_cfgs};
use crate::syntax::{generics_texts, syn_generics, GenericsText};
use crate::token::{lemma_len_fits, render, render_range, Token};

verus! {

/// A place in the generated text at which a field or a source is mentioned.
#[derive(Clone, Copy, Debug, PartialEq, Eq, Structural)]
pub enum Site {
    /// In the type's definition.
    Declaration,
    /// In the `Display` impl: a field in the pattern that takes the record
    /// apart, a source in the arm that hands on to it.
    Display,
    /// In the `Error` impl: the arm that gives the source as the cause.
    Source,
    /// The `From` impl that wraps the source.
    Conversion,
}

/// The text of a run of tokens.
pub open spec fn span_text(toks: Seq<Token>, s: Span) -> Seq<char> {
    render(toks, s.lo as int, s.hi as int)
}

/// The text of the token at `i`.
pub open spec fn tok_text(toks: Seq<Token>, i: usize) -> Seq<char> {
    render(toks, i as int, i + 1)
}

/// The generic parameters as declared, as they stand behind `impl`, and as
/// they stand behind the type's name; all empty where there are none.
pub open spec fn generics_of(toks: Seq<Token>, g: Span) -> (Seq<char>, Seq<char>, Seq<char>) {
    if g.is_empty() {
        (Seq::empty(), Seq::empty(), Seq::empty())
    } else {
        syn_generics(span_text(toks, g)).unwrap()
    }
}

/// The message as it was written, quotes included; empty where there is
/// none.
pub open spec fn msg_text(toks: Seq<Token>, spec: ErrorSpecView) -> Seq<char> {
    match spec.msg {
        Some(m) => tok_text(toks, m),
        None => Seq::empty(),
    }
}

/// `impl`, the parameters, the trait, `for`, the type with its parameters.
pub open spec fn impl_head(toks: Seq<Token>, spec: ErrorSpecView, trait_path: Seq<char>) -> Seq<
    char,
> {
    let g = generics_of(toks, spec.generics);
    Seq::empty() + "impl "@ + g.1 + " "@ + trait_path + " for "@ + tok_text(toks, spec.name) + g.2
        + " "@
}

/// The visibility of a field: its own, or the type's where it has none.
pub open spec fn field_vis(spec: ErrorSpecView, f: Field) -> Span {
    if f.vis.is_empty() {
        spec.vis
    } else {
        f.vis
    }
}

/// What is written for one field: in the type's definition its attributes,
/// visibility, name and type; at every other site its conditions and its
/// name, as the pattern that takes the record apart needs them.
pub open spec fn field_text(toks: Seq<Token>, spec: ErrorSpecView, f: Field, site: Site) -> Seq<
    char,
> {
    match site {
        Site::Declaration => Seq::empty() + span_text(toks, f.attrs) + span_text(
            toks,
            field_vis(spec, f),
        ) + tok_text(toks, f.name) + ": "@ + span_text(toks, f.ty) + ", "@,
        _ => Seq::empty() + cfg_text(toks, f.attrs) + tok_text(toks, f.name) + ", "@,
    }
}

/// What is written at `site` for the first `n` of the fields.
pub open spec fn fields_text(
    toks: Seq<Token>,
    spec: ErrorSpecView,
    fields: Seq<Field>,
    site: Site,
    n: int,
) -> Seq<char>
    decreases n,
{
    if n <= 0 || n > fields.len() {
        Seq::empty()
    } else {
        fields_text(toks, spec, fields, site, n - 1) + field_text(toks, spec, fields[n - 1], site)
    }
}

/// The trait that converts from the source's type.
pub open spec fn from_path(toks: Seq<Token>, v: Variant) -> Seq<char> {
    Seq::empty() + "::std::convert::From< "@ + tok_text(toks, v.ident) + ">"@
}

/// What is written for one source at `site`.
pub open spec fn variant_text(toks: Seq<Token>, spec: ErrorSpecView, v: Variant, site: Site) -> Seq<
    char,
> {
    match site {
        Site::Declaration => Seq::empty() + span_text(toks, v.attrs) + tok_text(toks, v.ident)
            + "( "@ + tok_text(toks, v.ident) + "), "@,
        Site::Display => Seq::empty() + cfg_text(toks, v.attrs) + "Self:: "@ + tok_text(
            toks,
            v.ident,
        ) + "(err) => ::std::fmt::Display::fmt(err, f), "@,
        Site::Source => Seq::empty() + cfg_text(toks, v.attrs) + tok_text(toks, spec.name) + ":: "@
            + tok_text(toks, v.ident) + "(err) => err, "@,
        Site::Conversion => Seq::empty() + cfg_text(toks, v.attrs) + impl_head(
            toks,
            spec,
            from_path(toks, v),
        ) + "{ fn from(source: "@ + tok_text(toks, v.ident) + ") -> Self { Self:: "@ + tok_text(
            toks,
            v.ident,
        ) + "(source) } } "@,
    }
}

/// What is written at `site` for the first `n` of the sources.
pub open spec fn variants_text(
    toks: Seq<Token>,
    spec: ErrorSpecView,
    sources: Seq<Variant>,
    site: Site,
    n: int,
) -> Seq<char>
    decreases n,
{
    if n <= 0 || n > sources.len() {
        Seq::empty()
    } else {
        variants_text(toks, spec, sources, site, n - 1) + variant_text(
            toks,
            spec,
            sources[n - 1],
            site,
        )
    }
}

/// The type's definition: the attributes, the two marks that every generated
/// type bears, the visibility, and the shape that the contents ask for.
pub open spec fn decl_text(toks: Seq<Token>, spec: ErrorSpecView) -> Seq<char> {
    let g = generics_of(toks, spec.generics);
    let head = Seq::empty() + span_text(toks, spec.attrs) + "#[derive(Debug)] #[non_exhaustive] "@
        + span_text(toks, spec.vis);
    match spec.contents {
        ContentsView::Unit => head + "struct "@ + tok_text(toks, spec.name) + g.0 + " ; "@,
        ContentsView::StructFields(fields) => head + "struct "@ + tok_text(toks, spec.name) + g.0
            + " { "@ + fields_text(toks, spec, fields, Site::Declaration, fields.len() as int)
            + "} "@,
        ContentsView::SourceList(sources) => head + "enum "@ + tok_text(toks, spec.name) + g.0
            + " { "@ + variants_text(toks, spec, sources, Site::Declaration, sources.len() as int)
            + "} "@,
        ContentsView::ArraySource { attrs, inner } => head + "struct "@ + tok_text(toks, spec.name)
            + g.0 + " ( "@ + span_text(toks, attrs) + "pub Vec< "@ + span_text(toks, inner)
            + "> ) ; "@,
    }
}

/// The body of `fmt`.
pub open spec fn display_body(toks: Seq<Token>, spec: ErrorSpecView) -> Seq<char> {
    match spec.contents {
        ContentsView::Unit => Seq::empty() + "f.write_str( "@ + msg_text(toks, spec) + ") "@,
        ContentsView::StructFields(fields) => Seq::empty() + "let Self { "@ + fields_text(
            toks,
            spec,
            fields,
            Site::Display,
            fields.len() as int,
        ) + "} = self; f.write_fmt(format_args!( "@ + msg_text(toks, spec) + ")) "@,
        ContentsView::SourceList(sources) => if spec.msg.is_some() {
            Seq::empty() + "f.write_str( "@ + msg_text(toks, spec) + ") "@
        } else {
            Seq::empty() + "match self { "@ + variants_text(
                toks,
                spec,
                sources,
                Site::Display,
                sources.len() as int,
            ) + "_ => unreachable!(), } "@
        },
        ContentsView::ArraySource { .. } => Seq::empty() + "f.write_str( "@ + msg_text(toks, spec)
            + ")?; f.write_str(\":\")?; for err in &self.0 { f.write_str(\"\\n\")?; f.write_fmt(format_args!(\"{}\", err))?; } Ok(()) "@,
    }
}

/// The `Display` impl.
pub open spec fn display_text(toks: Seq<Token>, spec: ErrorSpecView) -> Seq<char> {
    Seq::empty() + impl_head(toks, spec, "::std::fmt::Display"@) + (if spec.contents
        is StructFields {
        "{ #[allow(unused_variables)] "@
    } else {
        "{ "@
    }) + "fn fmt(&self, f: &mut ::std::fmt::Formatter<'_>) -> ::std::fmt::Result { "@
        + display_body(toks, spec) + "} } "@
}

/// The `source` method of a source list: the wrapped error is the cause.
/// Every other form has no cause, and no such method.
pub open spec fn source_body(toks: Seq<Token>, spec: ErrorSpecView) -> Seq<char> {
    match spec.contents {
        ContentsView::SourceList(sources) => Seq::empty()
            + "fn source(&self) -> ::std::option::Option<&(dyn ::std::error::Error + 'static)> { Some(match self { "@
            + variants_text(toks, spec, sources, Site::Source, sources.len() as int)
            + "_ => unreachable!(), }) } "@,
        _ => Seq::empty(),
    }
}

/// The `Error` impl.
pub open spec fn error_text(toks: Seq<Token>, spec: ErrorSpecView) -> Seq<char> {
    Seq::empty() + impl_head(toks, spec, "::std::error::Error"@) + "{ "@ + source_body(toks, spec)
        + "} "@
}

/// The `From` impls: one for each source of a source list, none otherwise.
pub open spec fn conversions_text(toks: Seq<Token>, spec: ErrorSpecView) -> Seq<char> {
    match spec.contents {
        ContentsView::SourceList(sources) => variants_text(
            toks,
            spec,
            sources,
            Site::Conversion,
            sources.len() as int,
        ),
        _ => Seq::empty(),
    }
}

/// All that is generated for a declaration.
pub open spec fn emit_text(toks: Seq<Token>, spec: ErrorSpecView) -> Seq<char> {
    Seq::empty() + decl_text(toks, spec) + display_text(toks, spec) + error_text(toks, spec)
        + conversions_text(toks, spec)
}

/// The text of a run of tokens.
fn render_span(toks: &Vec<Token>, s: Span) -> (out: String)
    requires
        s.within(toks@.len()),
    ensures
        out@ == span_text(toks@, s),
{
    render_range(toks, s.lo, s.hi)
}

/// The text of the token at `i`.
fn render_token(toks: &Vec<Token>, i: usize) -> (out: String)
    requires
        i < toks@.len(),
    ensures
        out@ == tok_text(toks@, i),
{
    proof {
        lemma_len_fits(toks);
    }
    render_range(toks, i, i + 1)
}

/// The three texts of the declaration's generic parameters.
pub fn split_generics(toks: &Vec<Token>, spec: &ErrorSpec) -> (r: GenericsText)
    requires
        spec@.wf(toks@),
    ensures
        r@ == generics_of(toks@, spec.generics),
{
    if spec.generics.lo < spec.generics.hi {
        let text = render_span(toks, spec.generics);
        if let Some(g) = generics_texts(text.as_str()) {
            return g;
        }
    }
    GenericsText { declared: String::new(), for_impl: String::new(), for_type: String::new() }
}

/// The message as it was written.
fn render_msg(toks: &Vec<Token>, spec: &ErrorSpec) -> (out: String)
    requires
        spec@.wf(toks@),
    ensures
        out@ == msg_text(toks@, spec@),
{
    match spec.msg {
        Some(m) => render_token(toks, m),
        None => String::new(),
    }
}

/// The head of an impl of the trait `trait_path` for the declared type.
fn emit_impl_head(toks: &Vec<Token>, spec: &ErrorSpec, g: &GenericsText, trait_path: &str) -> (out:
    String)
    requires
        spec@.wf(toks@),
        g@ == generics_of(toks@, spec.generics),
    ensures
        out@ == impl_head(toks@, spec@, trait_path@),
{
    let mut out = String::new();
    out.append("impl ");
    out.append(g.for_impl.as_str());
    out.append(" ");
    out.append(trait_path);
    out.append(" for ");
    out.append(render_token(toks, spec.name).as_str());
    out.append(g.for_type.as_str());
    out.append(" ");
    out
}

/// What is written for one field at `site`.
pub fn emit_field(toks: &Vec<Token>, spec: &ErrorSpec, f: &Field, site: Site) -> (out: String)
    requires
        spec@.wf(toks@),
        f.within(toks@.len()),
    ensures
        out@ == field_text(toks@, spec@, *f, site),
{
    let mut out = String::new();
    match site {
        Site::Declaration => {
            out.append(render_span(toks, f.attrs).as_str());
            let vis = if f.vis.lo >= f.vis.hi {
                spec.vis
            } else {
                f.vis
            };
            out.append(render_span(toks, vis).as_str());
            out.append(render_token(toks, f.name).as_str());
            out.append(": ");
            out.append(render_span(toks, f.ty).as_str());
            out.append(", ");
        },
        _ => {
            out.append(render_cfgs(toks, f.attrs).as_str());
            out.append(render_token(toks, f.name).as_str());
            out.append(", ");
        },
    }
    out
}

/// What is written for the fields at `site`.
pub fn emit_fields(toks: &Vec<Token>, spec: &ErrorSpec, fields: &Vec<Field>, site: Site) -> (out:
    String)
    requires
        spec@.wf(toks@),
        fields_within(fields@, toks@.len()),
    ensures
        out@ == fields_text(toks@, spec@, fields@, site, fields@.len() as int),
{
    let mut out = String::new();
    let mut i: usize = 0;
    while i < fields.len()
        invariant
            i <= fields@.len(),
            spec@.wf(toks@),
            fields_within(fields@, toks@.len()),
            out@ == fields_text(toks@, spec@, fields@, site, i as int),
        decreases fields@.len() - i,
    {
        out.append(emit_field(toks, spec, &fields[i], site).as_str());
        i += 1;
    }
    out
}

/// What is written for one source at `site`.
pub fn emit_variant(
    toks: &Vec<Token>,
    spec: &ErrorSpec,
    g: &GenericsText,
    v: &Variant,
    site: Site,
) -> (out: String)
    requires
        spec@.wf(toks@),
        g@ == generics_of(toks@, spec.generics),
        v.within(toks@.len()),
    ensures
        out@ == variant_text(toks@, spec@, *v, site),
{
    let mut out = String::new();
    let ident = render_token(toks, v.ident);
    match site {
        Site::Declaration => {
            out.append(render_span(toks, v.attrs).as_str());
            out.append(ident.as_str());
            out.append("( ");
            out.append(ident.as_str());
            out.append("), ");
        },
        Site::Display => {
            out.append(render_cfgs(toks, v.attrs).as_str());
            out.append("Self:: ");
            out.append(ident.as_str());
            out.append("(err) => ::std::fmt::Display::fmt(err, f), ");
        },
        Site::Source => {
            out.append(render_cfgs(toks, v.attrs).as_str());
            out.append(render_token(toks, spec.name).as_str());
            out.append(":: ");
            out.append(ident.as_str());
            out.append("(err) => err, ");
        },
        Site::Conversion => {
            let mut path = String::new();
            path.append("::std::convert::From< ");
            path.append(ident.as_str());
            path.append(">");
            out.append(render_cfgs(toks, v.attrs).as_str());
            out.append(emit_impl_head(toks, spec, g, path.as_str()).as_str());
            out.append("{ fn from(source: ");
            out.append(ident.as_str());
            out.append(") -> Self { Self:: ");
            out.append(ident.as_str());
            out.append("(source) } } ");
        },
    }
    out
}

/// What is written for the sources at `site`.
pub fn emit_variants(
    toks: &Vec<Token>,
    spec: &ErrorSpec,
    g: &GenericsText,
    sources: &Vec<Variant>,
    site: Site,
) -> (out: String)
    requires
        spec@.wf(toks@),
        g@ == generics_of(toks@, spec.generics),
        variants_within(sources@, toks@.len()),
    ensures
        out@ == variants_text(toks@, spec@, sources@, site, sources@.len() as int),
{
    let mut out = String::new();
    let mut i: usize = 0;
    while i < sources.len()
        invariant
            i <= sources@.len(),
            spec@.wf(toks@),
            g@ == generics_of(toks@, spec.generics),
            variants_within(sources@, toks@.len()),
            out@ == variants_text(toks@, spec@, sources@, site, i as int),
        decreases sources@.len() - i,
    {
        out.append(emit_variant(toks, spec, g, &sources[i], site).as_str());
        i += 1;
    }
    out
}

/// The type's definition.
pub fn emit_decl(toks: &Vec<Token>, spec: &ErrorSpec, g: &GenericsText) -> (out: String)
    requires
        spec@.wf(toks@),
        g@ == generics_of(toks@, spec.generics),
    ensures
        out@ == decl_text(toks@, spec@),
{
    let mut out = String::new();
    out.append(render_span(toks, spec.attrs).as_str());
    out.append("#[derive(Debug)] #[non_exhaustive] ");
    out.append(render_span(toks, spec.vis).as_str());
    match &spec.contents {
        Contents::Unit => {
            out.append("struct ");
            out.append(render_token(toks, spec.name).as_str());
            out.append(g.declared.as_str());
            out.append(" ; ");
        },
        Contents::StructFields(fields) => {
            out.append("struct ");
            out.append(render_token(toks, spec.name).as_str());
            out.append(g.declared.as_str());
            out.append(" { ");
            out.append(emit_fields(toks, spec, fields, Site::Declaration).as_str());
            out.append("} ");
        },
        Contents::SourceList(sources) => {
            out.append("enum ");
            out.append(render_token(toks, spec.name).as_str());
            out.append(g.declared.as_str());
            out.append(" { ");
            out.append(emit_variants(toks, spec, g, sources, Site::Declaration).as_str());
            out.append("} ");
        },
        Contents::ArraySource { attrs, inner } => {
            out.append("struct ");
            out.append(render_token(toks, spec.name).as_str());
            out.append(g.declared.as_str());
            out.append(" ( ");
            out.append(render_span(toks, *attrs).as_str());
            out.append("pub Vec< ");
            out.append(render_span(toks, *inner).as_str());
            out.append("> ) ; ");
        },
    }
    out
}

/// The `Display` impl.
pub fn emit_display(toks: &Vec<Token>, spec: &ErrorSpec, g: &GenericsText) -> (out: String)
    requires
        spec@.wf(toks@),
        g@ == generics_of(toks@, spec.generics),
    ensures
        out@ == display_text(toks@, spec@),
{
    let msg = render_msg(toks, spec);
    let mut body = String::new();
    let mut is_record = false;
    match &spec.contents {
        Contents::Unit => {
            body.append("f.write_str( ");
            body.append(msg.as_str());
            body.append(") ");
        },
        Contents::StructFields(fields) => {
            is_record = true;
            body.append("let Self { ");
            body.append(emit_fields(toks, spec, fields, Site::Display).as_str());
            body.append("} = self; f.write_fmt(format_args!( ");
            body.append(msg.as_str());
            body.append(")) ");
        },
        Contents::SourceList(sources) => {
            if spec.msg.is_some() {
                body.append("f.write_str( ");
                body.append(msg.as_str());
                body.append(") ");
            } else {
                body.append("match self { ");
                body.append(emit_variants(toks, spec, g, sources, Site::Display).as_str());
                body.append("_ => unreachable!(), } ");
            }
        },
        Contents::ArraySource { .. } => {
            body.append("f.write_str( ");
            body.append(msg.as_str());
            body.append(
                ")?; f.write_str(\":\")?; for err in &self.0 { f.write_str(\"\\n\")?; f.write_fmt(format_args!(\"{}\", err))?; } Ok(()) ",
            );
        },
    }
    let mut out = String::new();
    out.append(emit_impl_head(toks, spec, g, "::std::fmt::Display").as_str());
    if is_record {
        out.append("{ #[allow(unused_variables)] ");
    } else {
        out.append("{ ");
    }
    out.append("fn fmt(&self, f: &mut ::std::fmt::Formatter<'_>) -> ::std::fmt::Result { ");
    out.append(body.as_str());
    out.append("} } ");
    out
}

/// The `Error` impl.
pub fn emit_error_impl(toks: &Vec<Token>, spec: &ErrorSpec, g: &GenericsText) -> (out: String)
    requires
        spec@.wf(toks@),
        g@ == generics_of(toks@, spec.generics),
    ensures
        out@ == error_text(toks@, spec@),
{
    let mut body = String::new();
    match &spec.contents {
        Contents::SourceList(sources) => {
            body.append(
                "fn source(&self) -> ::std::option::Option<&(dyn ::std::error::Error + 'static)> { Some(match self { ",
            );
            body.append(emit_variants(toks, spec, g, sources, Site::Source).as_str());
            body.append("_ => unreachable!(), }) } ");
        },
        _ => {},
    }
    let mut out = String::new();
    out.append(emit_impl_head(toks, spec, g, "::std::error::Error").as_str());
    out.append("{ ");
    out.append(body.as_str());
    out.append("} ");
    out
}

/// The `From` impls.
pub fn emit_conversions(toks: &Vec<Token>, spec: &ErrorSpec, g: &GenericsText) -> (out: String)
    requires
        spec@.wf(toks@),
        g@ == generics_of(toks@, spec.generics),
    ensures
        out@ == conversions_text(toks@, spec@),
{
    match &spec.contents {
        Contents::SourceList(sources) => emit_variants(toks, spec, g, sources, Site::Conversion),
        _ => String::new(),
    }
}

/// Writes out what is generated for a declaration of `toks`.
pub fn emit(toks: &Vec<Token>, spec: &ErrorSpec) -> (out: String)
    requires
        spec@.wf(toks@),
    ensures
        out@ == emit_text(toks@, spec@),
{
    let g = split_generics(toks, spec);
    let mut out = String::new();
    out.append(emit_decl(toks, spec, &g).as_str());
    out.append(emit_display(toks, spec, &g).as_str());
    out.append(emit_error_impl(toks, spec, &g).as_str());
    out.append(emit_conversions(toks, spec, &g).as_str());
    out
}

} // verus!
