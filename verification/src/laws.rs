//! What holds of every declaration and of all that is generated for it.

use vstd::prelude::*;
use crate::ast::{ContentsView, ErrorSpecView, Field, ParseError, Variant};
use crate::cfg_attrs::{attrs_fill, cfg_text, lemma_parsed_attrs_fill};
use crate::emit::{
    conversions_text, display_body, error_text, field_text, fields_text, impl_head, msg_text,
    source_body, span_text, tok_text, variant_text, variants_text, Site,
};
use crate::expand::{diagnostic_text, error_spec, generate_spec};
use crate::names::{contents_names, lemma_no_repeat, repeated_name, same_name};
use crate::parse::{
    array_at, attrs_end, contents_at, field_at, fields_from, generics_end, msg_at, name_at,
    parse_spec, variant_at, variants_from, vis_end,
};
use crate::token::Token;

verus! {

/// The parts of a parsed declaration stand in the order of the grammar and
/// leave no token out: the attributes from the first token on, then the
/// visibility, the name, the generic parameters, and the message if there is
/// one.
pub proof fn lemma_parts_in_order(toks: Seq<Token>)
    requires
        toks.len() <= usize::MAX,
    ensures
        parse_spec(toks) matches Ok(spec) ==> {
            &&& spec.attrs.lo == 0
            &&& spec.attrs.hi == spec.vis.lo
            &&& spec.vis.hi == spec.name
            &&& spec.generics.lo == spec.name + 1
            &&& (spec.msg matches Some(m) ==> m == spec.generics.hi)
        },
{
}

/// The forms of contents are tried in a fixed order, and the first that
/// matches is taken: nothing left is a unit error; what is a field list is a
/// record, whatever else it might be; what is no field list but a source list
/// is a source list; the bracketed type comes last.
pub proof fn lemma_contents_by_ordered_choice(toks: Seq<Token>, pos: int)
    ensures
        pos >= toks.len() ==> contents_at(toks, pos) == Some(ContentsView::Unit),
        pos < toks.len() && fields_from(toks, pos) is Some ==> contents_at(toks, pos) == Some(
            ContentsView::StructFields(fields_from(toks, pos)->Some_0),
        ),
        pos < toks.len() && fields_from(toks, pos) is None && variants_from(toks, pos) is Some
            ==> contents_at(toks, pos) == Some(
            ContentsView::SourceList(variants_from(toks, pos)->Some_0),
        ),
        pos < toks.len() && fields_from(toks, pos) is None && variants_from(toks, pos) is None
            ==> (contents_at(toks, pos) is Some <==> array_at(toks, pos) is Some),
{
}

/// A declaration that parses has a message, or is a source list.
pub proof fn lemma_parsed_has_required_message(toks: Seq<Token>)
    ensures
        parse_spec(toks) matches Ok(spec) ==> spec.msg.is_some() || spec.contents is SourceList,
{
}

/// Tokens that would be a declaration of another form than a source list,
/// but hold no message, are rejected, whatever else is wrong with them: no
/// text is generated with an empty message in its stead, and what stands in
/// their place is the report of the missing message.
pub proof fn lemma_missing_message_is_rejected(toks: Seq<Token>, contents: ContentsView)
    requires
        attrs_end(toks, 0) is Ok,
        name_at(toks, vis_end(toks, attrs_end(toks, 0)->Ok_0)),
        generics_end(toks, vis_end(toks, attrs_end(toks, 0)->Ok_0) + 1) is Some,
        !msg_at(toks, generics_end(toks, vis_end(toks, attrs_end(toks, 0)->Ok_0) + 1)->Some_0),
        contents_at(toks, generics_end(toks, vis_end(toks, attrs_end(toks, 0)->Ok_0) + 1)->Some_0)
            == Some(contents),
        !(contents is SourceList),
    ensures
        parse_spec(toks) == Err::<ErrorSpecView, ParseError>(
            ParseError::MissingMessage { at: toks.len() as usize },
        ),
        generate_spec(toks) == Err::<Seq<char>, ParseError>(
            ParseError::MissingMessage { at: toks.len() as usize },
        ),
        error_spec(toks) == diagnostic_text(ParseError::MissingMessage { at: toks.len() as usize }),
        (ParseError::MissingMessage { at: toks.len() as usize }).message_text()
            == "any non-enum error must have a display message"@,
{
}

/// Once the header and the contents are accepted, the message decides first:
/// the tokens are rejected for want of a message exactly when they hold none
/// and the contents are no source list. A message that is there is never a
/// reason to reject. What is left is accepted unless a name is given twice.
pub proof fn lemma_message_rule_decides(toks: Seq<Token>, contents: ContentsView)
    requires
        attrs_end(toks, 0) is Ok,
        name_at(toks, vis_end(toks, attrs_end(toks, 0)->Ok_0)),
        generics_end(toks, vis_end(toks, attrs_end(toks, 0)->Ok_0) + 1) is Some,
        ({
            let g = generics_end(toks, vis_end(toks, attrs_end(toks, 0)->Ok_0) + 1)->Some_0;
            contents_at(
                toks,
                if msg_at(toks, g) {
                    g + 1
                } else {
                    g
                },
            ) == Some(contents)
        }),
    ensures
        ({
            let g = generics_end(toks, vis_end(toks, attrs_end(toks, 0)->Ok_0) + 1)->Some_0;
            let wanting = !msg_at(toks, g) && !(contents is SourceList);
            &&& (parse_spec(toks) matches Err(e) && e is MissingMessage) <==> wanting
            &&& wanting ==> parse_spec(toks) == Err::<ErrorSpecView, ParseError>(
                ParseError::MissingMessage { at: toks.len() as usize },
            )
            &&& !wanting && repeated_name(toks, contents) is None ==> parse_spec(toks) is Ok
            &&& !wanting && repeated_name(toks, contents) is Some ==> parse_spec(toks) == Err::<
                ErrorSpecView,
                ParseError,
            >(ParseError::DuplicateName { at: repeated_name(toks, contents)->Some_0 })
        }),
{
}

/// In a declaration that parses, no two fields and no two sources are
/// written with the same name.
pub proof fn lemma_parsed_names_are_distinct(toks: Seq<Token>, i: int, j: int)
    requires
        parse_spec(toks) is Ok,
        0 <= i < j < contents_names((parse_spec(toks)->Ok_0).contents).len(),
    ensures
        !same_name(
            toks,
            contents_names((parse_spec(toks)->Ok_0).contents)[i] as int,
            contents_names((parse_spec(toks)->Ok_0).contents)[j] as int,
        ),
{
    let names = contents_names((parse_spec(toks)->Ok_0).contents);
    lemma_no_repeat(toks, names, 0, i, j);
}

/// A unit error and a source list with a message print the message as it
/// was declared: it is handed to the formatter whole and unchanged.
pub proof fn lemma_message_is_written_unchanged(toks: Seq<Token>, spec: ErrorSpecView)
    requires
        spec.msg is Some,
        spec.contents is Unit || spec.contents is SourceList,
    ensures
        display_body(toks, spec) == Seq::<char>::empty() + "f.write_str( "@ + tok_text(
            toks,
            spec.msg->Some_0,
        ) + ") "@,
{
}

/// A source list without a message prints as the error that it wraps: `fmt`
/// is one `match` that hands the formatter on to the wrapped error, with one
/// arm for each source and nothing written before or after.
pub proof fn lemma_transparent_form_delegates(
    toks: Seq<Token>,
    spec: ErrorSpecView,
    sources: Seq<Variant>,
    v: Variant,
)
    requires
        spec.msg is None,
        spec.contents == ContentsView::SourceList(sources),
    ensures
        display_body(toks, spec) == Seq::<char>::empty() + "match self { "@ + variants_text(
            toks,
            spec,
            sources,
            Site::Display,
            sources.len() as int,
        ) + "_ => unreachable!(), } "@,
        variant_text(toks, spec, v, Site::Display) == Seq::<char>::empty() + cfg_text(
            toks,
            v.attrs,
        ) + "Self:: "@ + tok_text(toks, v.ident)
            + "(err) => ::std::fmt::Display::fmt(err, f), "@,
{
}

/// Every source is written at every site, once and in the declared order:
/// what is written for the first `i + 1` sources is what is written for the
/// first `i`, then the text of source `i`; and it is the beginning of what is
/// written for the first `n`.
pub proof fn lemma_sources_written_in_order(
    toks: Seq<Token>,
    spec: ErrorSpecView,
    sources: Seq<Variant>,
    site: Site,
    i: int,
    n: int,
)
    requires
        0 <= i < n <= sources.len(),
    ensures
        variants_text(toks, spec, sources, site, i + 1) == variants_text(
            toks,
            spec,
            sources,
            site,
            i,
        ) + variant_text(toks, spec, sources[i], site),
        variants_text(toks, spec, sources, site, i + 1).is_prefix_of(
            variants_text(toks, spec, sources, site, n),
        ),
    decreases n - i,
{
    let head = variants_text(toks, spec, sources, site, i + 1);
    let all = variants_text(toks, spec, sources, site, n);
    if i + 1 < n {
        lemma_sources_written_in_order(toks, spec, sources, site, i, n - 1);
        let before = variants_text(toks, spec, sources, site, n - 1);
        assert(all == before + variant_text(toks, spec, sources[n - 1], site));
        assert(before.subrange(0, head.len() as int) =~= head);
        assert(all.subrange(0, head.len() as int) =~= head);
    } else {
        assert(all.subrange(0, head.len() as int) =~= head);
    }
}

/// Every field is written at every site, once and in the declared order.
pub proof fn lemma_fields_written_in_order(
    toks: Seq<Token>,
    spec: ErrorSpecView,
    fields: Seq<Field>,
    site: Site,
    i: int,
    n: int,
)
    requires
        0 <= i < n <= fields.len(),
    ensures
        fields_text(toks, spec, fields, site, i + 1) == fields_text(toks, spec, fields, site, i)
            + field_text(toks, spec, fields[i], site),
        fields_text(toks, spec, fields, site, i + 1).is_prefix_of(
            fields_text(toks, spec, fields, site, n),
        ),
    decreases n - i,
{
    let head = fields_text(toks, spec, fields, site, i + 1);
    let all = fields_text(toks, spec, fields, site, n);
    if i + 1 < n {
        lemma_fields_written_in_order(toks, spec, fields, site, i, n - 1);
        let before = fields_text(toks, spec, fields, site, n - 1);
        assert(all == before + field_text(toks, spec, fields[n - 1], site));
        assert(before.subrange(0, head.len() as int) =~= head);
        assert(all.subrange(0, head.len() as int) =~= head);
    } else {
        assert(all.subrange(0, head.len() as int) =~= head);
    }
}

/// The list form prints the message, a colon, and then each of the errors
/// that it holds on a line of its own, in the order in which it holds them.
pub proof fn lemma_list_form_prints_each_error(toks: Seq<Token>, spec: ErrorSpecView)
    requires
        spec.contents is ArraySource,
    ensures
        display_body(toks, spec) == Seq::<char>::empty() + "f.write_str( "@ + msg_text(toks, spec)
            + ")?; f.write_str(\":\")?; for err in &self.0 { f.write_str(\"\\n\")?; f.write_fmt(format_args!(\"{}\", err))?; } Ok(()) "@,
{
}

/// Only a source list has a cause and conversions: for every other form the
/// `Error` impl is empty and no `From` impl is generated.
pub proof fn lemma_cause_only_for_sources(toks: Seq<Token>, spec: ErrorSpecView)
    requires
        !(spec.contents is SourceList),
    ensures
        source_body(toks, spec) == Seq::<char>::empty(),
        conversions_text(toks, spec) == Seq::<char>::empty(),
        error_text(toks, spec) =~= impl_head(toks, spec, "::std::error::Error"@) + "{ "@ + "} "@,
{
}

/// What the parser takes for the attributes of a field are attributes, one
/// after the other and nothing else, so that the selection of its conditions
/// reads every one of them.
pub proof fn lemma_parsed_field_attrs(toks: Seq<Token>, pos: int, i: int)
    requires
        0 <= pos <= toks.len() <= usize::MAX,
        fields_from(toks, pos) is Some,
        0 <= i < fields_from(toks, pos)->Some_0.len(),
    ensures
        attrs_fill(
            toks,
            fields_from(toks, pos)->Some_0[i].attrs.lo as int,
            fields_from(toks, pos)->Some_0[i].attrs.hi as int,
        ),
    decreases toks.len() - pos,
{
    let (f, e) = field_at(toks, pos)->Some_0;
    let a = attrs_end(toks, pos)->Ok_0;
    lemma_parsed_attrs_fill(toks, pos, a);
    if !(e >= toks.len() || e + 1 >= toks.len()) {
        let rest = fields_from(toks, e + 1)->Some_0;
        if i > 0 {
            lemma_parsed_field_attrs(toks, e + 1, i - 1);
            assert((seq![f] + rest)[i] == rest[i - 1]);
        }
    }
}

/// What the parser takes for the attributes of a source are attributes, one
/// after the other and nothing else, so that the selection of its conditions
/// reads every one of them.
pub proof fn lemma_parsed_source_attrs(toks: Seq<Token>, pos: int, i: int)
    requires
        0 <= pos <= toks.len() <= usize::MAX,
        variants_from(toks, pos) is Some,
        0 <= i < variants_from(toks, pos)->Some_0.len(),
    ensures
        attrs_fill(
            toks,
            variants_from(toks, pos)->Some_0[i].attrs.lo as int,
            variants_from(toks, pos)->Some_0[i].attrs.hi as int,
        ),
    decreases toks.len() - pos,
{
    let (v, e) = variant_at(toks, pos)->Some_0;
    let a = attrs_end(toks, pos)->Ok_0;
    lemma_parsed_attrs_fill(toks, pos, a);
    if e < toks.len() && e + 1 < toks.len() {
        let rest = variants_from(toks, e + 1)->Some_0;
        if i > 0 {
            lemma_parsed_source_attrs(toks, e + 1, i - 1);
            assert((seq![v] + rest)[i] == rest[i - 1]);
        }
    }
}

/// Wherever a source is mentioned, its conditions stand first: all its
/// attributes in the type's definition, and its conditional-compilation
/// attributes before its arm in `fmt`, before its arm in `source`, and before
/// its `From` impl.
pub proof fn lemma_source_conditions_at_every_site(
    toks: Seq<Token>,
    spec: ErrorSpecView,
    v: Variant,
    site: Site,
)
    ensures
        site == Site::Declaration ==> span_text(toks, v.attrs).is_prefix_of(
            variant_text(toks, spec, v, site),
        ),
        site != Site::Declaration ==> cfg_text(toks, v.attrs).is_prefix_of(
            variant_text(toks, spec, v, site),
        ),
{
    let text = variant_text(toks, spec, v, site);
    if site == Site::Declaration {
        let head = span_text(toks, v.attrs);
        assert(text.subrange(0, head.len() as int) =~= head);
    } else {
        let head = cfg_text(toks, v.attrs);
        assert(text.subrange(0, head.len() as int) =~= head);
    }
}

/// Wherever a field is mentioned, its conditions stand first: all its
/// attributes in the type's definition, and its conditional-compilation
/// attributes in the pattern that takes the record apart.
pub proof fn lemma_field_conditions_at_every_site(
    toks: Seq<Token>,
    spec: ErrorSpecView,
    f: Field,
    site: Site,
)
    ensures
        site == Site::Declaration ==> span_text(toks, f.attrs).is_prefix_of(
            field_text(toks, spec, f, site),
        ),
        site != Site::Declaration ==> cfg_text(toks, f.attrs).is_prefix_of(
            field_text(toks, spec, f, site),
        ),
{
    let text = field_text(toks, spec, f, site);
    if site == Site::Declaration {
        let head = span_text(toks, f.attrs);
        assert(text.subrange(0, head.len() as int) =~= head);
    } else {
        let head = cfg_text(toks, f.attrs);
        assert(text.subrange(0, head.len() as int) =~= head);
    }
}

} // verus!
