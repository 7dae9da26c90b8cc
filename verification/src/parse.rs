//! The grammar of a declaration, and the parser that decides it.
//!
//! ```text
//! attributes visibility Name generics? "message"? contents
//! contents:  field: Type, ...  |  Source, ...  |  [ attributes Type ]  |  nothing
//! ```
//!
//! The three forms of contents are tried in that order, each from the same
//! position; the first that matches the whole remainder is taken.

use vstd::prelude::*;
use crate::ast::{
    fields_within, span, variants_within, Contents, ContentsView, ErrorSpec, ErrorSpecView, Field,
    ParseError, Span, Variant,
};
use crate::names::{find_repeated_name, repeated_name};
use crate::syntax::{
    generics_texts, ident_accepted, lit_str_accepted, meta_named, syn_generics, syn_ident,
    syn_lit_str, syn_meta_named, syn_type, syn_visibility, type_accepted, visibility_accepted,
};
use crate::token::{
    close_of, find_close, is_open, is_punct, lemma_len_fits, open_at, punct_at, render, render_range, Delim, Token,
};

verus! {

/// The name by which a conditional-compilation attribute is known.
pub open spec fn cfg_name() -> Seq<char> {
    "cfg"@
}

/// The attribute that begins at `pos`: `#`, then a bracketed group whose
/// contents `syn` takes for a `Meta`. Gives where it ends, and whether it is a
/// conditional-compilation attribute.
pub open spec fn attr_at(toks: Seq<Token>, pos: int) -> Option<(int, bool)> {
    if 0 <= pos && pos + 1 < toks.len() && is_punct(toks[pos], '#') && is_open(
        toks[pos + 1],
        Delim::Bracket,
    ) {
        match close_of(toks, pos + 1) {
            Some(c) => match syn_meta_named(render(toks, pos + 2, c), cfg_name()) {
                Some(is_cfg) => Some((c + 1, is_cfg)),
                None => None,
            },
            None => None,
        }
    } else {
        None
    }
}

/// Where the attributes that begin at `pos` end: `Ok` with the position of
/// the first token that is no `#`; `Err` with the position of a `#` that
/// begins no attribute.
pub open spec fn attrs_end(toks: Seq<Token>, pos: int) -> Result<int, int>
    decreases toks.len() - pos,
{
    if pos < 0 || pos >= toks.len() || !is_punct(toks[pos], '#') {
        Ok(pos)
    } else {
        match attr_at(toks, pos) {
            Some((e, _)) => if pos < e <= toks.len() {
                attrs_end(toks, e)
            } else {
                Err(pos)
            },
            None => Err(pos),
        }
    }
}

/// Where the visibility that begins at `pos` ends: after `pub` and a
/// parenthesized restriction, after `pub` alone, or at `pos` itself.
pub open spec fn vis_end(toks: Seq<Token>, pos: int) -> int {
    if 0 <= pos < toks.len() && syn_visibility(render(toks, pos, pos + 1)) {
        match close_of(toks, pos + 1) {
            Some(c) => if is_open(toks[pos + 1], Delim::Paren) && syn_visibility(
                render(toks, pos, c + 1),
            ) {
                c + 1
            } else {
                pos + 1
            },
            None => pos + 1,
        }
    } else {
        pos
    }
}

/// Whether the token at `pos` is an identifier that can name something.
pub open spec fn name_at(toks: Seq<Token>, pos: int) -> bool {
    0 <= pos < toks.len() && syn_ident(render(toks, pos, pos + 1))
}

/// Whether the token at `pos` is a string literal.
pub open spec fn msg_at(toks: Seq<Token>, pos: int) -> bool {
    0 <= pos < toks.len() && syn_lit_str(render(toks, pos, pos + 1))
}

/// The first end, from `q` on, of a run that begins at `start`, ends
/// in `>`, and is a generic parameter list.
pub open spec fn first_generics_end(toks: Seq<Token>, start: int, q: int) -> Option<int>
    decreases toks.len() + 1 - q,
{
    if q <= 0 || q > toks.len() {
        None
    } else if start < q && is_punct(toks[q - 1], '>') && syn_generics(
        render(toks, start, q),
    ).is_some() {
        Some(q)
    } else {
        first_generics_end(toks, start, q + 1)
    }
}

/// Where the generic parameters that begin at `pos` end: at `pos` where no
/// `<` stands there, else after the shortest run that is a parameter list;
/// `None` where a `<` begins none.
pub open spec fn generics_end(toks: Seq<Token>, pos: int) -> Option<int> {
    if 0 <= pos < toks.len() && is_punct(toks[pos], '<') {
        first_generics_end(toks, pos, pos + 1)
    } else {
        Some(pos)
    }
}

/// The first end, from `q` on, of a nonempty run that begins at
/// `start`, is a type, and is followed by a comma or by nothing.
pub open spec fn first_type_end(toks: Seq<Token>, start: int, q: int) -> Option<int>
    decreases toks.len() + 1 - q,
{
    if q < 0 || q > toks.len() {
        None
    } else if start < q && (q == toks.len() || is_punct(toks[q], ',')) && syn_type(
        render(toks, start, q),
    ) {
        Some(q)
    } else {
        first_type_end(toks, start, q + 1)
    }
}

/// The field that begins at `pos`, and where it ends.
pub open spec fn field_at(toks: Seq<Token>, pos: int) -> Option<(Field, int)> {
    match attrs_end(toks, pos) {
        Ok(a) => {
            let v = vis_end(toks, a);
            if name_at(toks, v) && v + 1 < toks.len() && is_punct(toks[v + 1], ':') {
                match first_type_end(toks, v + 2, v + 2) {
                    Some(e) => Some(
                        (Field { attrs: span(pos, a), vis: span(a, v), name: v as usize, ty: span(v + 2, e) }, e),
                    ),
                    None => None,
                }
            } else {
                None
            }
        },
        Err(_) => None,
    }
}

/// The fields from `pos` to the end of the tokens: one or more, with a comma
/// between two and, as one likes, after the last.
pub open spec fn fields_from(toks: Seq<Token>, pos: int) -> Option<Seq<Field>>
    decreases toks.len() - pos,
{
    match field_at(toks, pos) {
        Some((f, e)) => if e >= toks.len() || e + 1 >= toks.len() {
            Some(seq![f])
        } else if pos <= e {
            match fields_from(toks, e + 1) {
                Some(rest) => Some(seq![f] + rest),
                None => None,
            }
        } else {
            None
        },
        None => None,
    }
}

/// The source that begins at `pos`, and where it ends.
pub open spec fn variant_at(toks: Seq<Token>, pos: int) -> Option<(Variant, int)> {
    match attrs_end(toks, pos) {
        Ok(a) => if name_at(toks, a) {
            Some((Variant { attrs: span(pos, a), ident: a as usize }, a + 1))
        } else {
            None
        },
        Err(_) => None,
    }
}

/// The sources from `pos` to the end of the tokens: one or more, with a comma
/// between two and, as one likes, after the last.
pub open spec fn variants_from(toks: Seq<Token>, pos: int) -> Option<Seq<Variant>>
    decreases toks.len() - pos,
{
    match variant_at(toks, pos) {
        Some((v, e)) => if e >= toks.len() {
            Some(seq![v])
        } else if !is_punct(toks[e], ',') {
            None
        } else if e + 1 >= toks.len() {
            Some(seq![v])
        } else if pos <= e {
            match variants_from(toks, e + 1) {
                Some(rest) => Some(seq![v] + rest),
                None => None,
            }
        } else {
            None
        },
        None => None,
    }
}

/// The bracketed type that begins at `pos` and ends the tokens: the
/// attributes in the brackets, and the type.
pub open spec fn array_at(toks: Seq<Token>, pos: int) -> Option<(Span, Span)> {
    if 0 <= pos < toks.len() && is_open(toks[pos], Delim::Bracket) {
        match close_of(toks, pos) {
            Some(c) => match attrs_end(toks, pos + 1) {
                Ok(a) => if c + 1 == toks.len() && a < c && syn_type(render(toks, a, c)) {
                    Some((span(pos + 1, a), span(a, c)))
                } else {
                    None
                },
                Err(_) => None,
            },
            None => None,
        }
    } else {
        None
    }
}

/// The contents that the tokens from `pos` on are: nothing, else a field
/// list, else a source list, else a bracketed type.
pub open spec fn contents_at(toks: Seq<Token>, pos: int) -> Option<ContentsView> {
    if pos >= toks.len() {
        Some(ContentsView::Unit)
    } else {
        match fields_from(toks, pos) {
            Some(fields) => Some(ContentsView::StructFields(fields)),
            None => match variants_from(toks, pos) {
                Some(sources) => Some(ContentsView::SourceList(sources)),
                None => match array_at(toks, pos) {
                    Some((attrs, inner)) => Some(ContentsView::ArraySource { attrs, inner }),
                    None => None,
                },
            },
        }
    }
}

/// What follows the name: generic parameters, message and contents, then the
/// two rules on the whole, in this order: only a source list may do without a
/// message, and no name is given twice.
pub open spec fn after_name(toks: Seq<Token>, a: int, v: int) -> Result<ErrorSpecView, ParseError> {
    match generics_end(toks, v + 1) {
        None => Err(ParseError::InvalidGenerics { at: (v + 1) as usize }),
        Some(g) => {
            let has_msg = msg_at(toks, g);
            let p = if has_msg {
                g + 1
            } else {
                g
            };
            match contents_at(toks, p) {
                None => Err(ParseError::InvalidContents { at: p as usize }),
                Some(contents) => if !has_msg && !(contents is SourceList) {
                    Err(ParseError::MissingMessage { at: toks.len() as usize })
                } else if let Some(at) = repeated_name(toks, contents) {
                    Err(ParseError::DuplicateName { at })
                } else {
                    Ok(
                        ErrorSpecView {
                            attrs: span(0, a),
                            vis: span(a, v),
                            name: v as usize,
                            generics: span(v + 1, g),
                            msg: if has_msg {
                                Some(g as usize)
                            } else {
                                None
                            },
                            contents,
                        },
                    )
                },
            }
        },
    }
}

/// The declaration that the tokens are, or why they are none.
pub open spec fn parse_spec(toks: Seq<Token>) -> Result<ErrorSpecView, ParseError> {
    match attrs_end(toks, 0) {
        Err(p) => Err(ParseError::InvalidAttribute { at: p as usize }),
        Ok(a) => {
            let v = vis_end(toks, a);
            if !name_at(toks, v) {
                Err(ParseError::ExpectedName { at: v as usize })
            } else {
                after_name(toks, a, v)
            }
        },
    }
}

/// The attribute at `pos`, if one begins there.
pub fn parse_attr(toks: &Vec<Token>, pos: usize) -> (r: Option<(usize, bool)>)
    ensures
        match r {
            Some((e, is_cfg)) => attr_at(toks@, pos as int) == Some((e as int, is_cfg)) && pos < e
                <= toks@.len(),
            None => attr_at(toks@, pos as int).is_none(),
        },
{
    proof {
        lemma_len_fits(toks);
    }
    if !punct_at(toks, pos, '#') || pos + 1 >= toks.len() {
        return None;
    }
    if !open_at(toks, pos + 1, Delim::Bracket) {
        return None;
    }
    match find_close(toks, pos + 1) {
        Some(c) => {
            let text = render_range(toks, pos + 2, c);
            match meta_named(text.as_str(), "cfg") {
                Some(is_cfg) => Some((c + 1, is_cfg)),
                None => None,
            }
        },
        None => None,
    }
}

/// Passes over the attributes that begin at `pos`.
pub fn skip_attrs(toks: &Vec<Token>, pos: usize) -> (r: Result<usize, usize>)
    requires
        pos <= toks@.len(),
    ensures
        match r {
            Ok(e) => attrs_end(toks@, pos as int) == Ok::<int, int>(e as int) && pos <= e
                <= toks@.len(),
            Err(p) => attrs_end(toks@, pos as int) == Err::<int, int>(p as int) && p < toks@.len(),
        },
{
    let mut i: usize = pos;
    loop
        invariant
            pos <= i <= toks@.len(),
            attrs_end(toks@, pos as int) == attrs_end(toks@, i as int),
        decreases toks@.len() - i,
    {
        if !punct_at(toks, i, '#') {
            return Ok(i);
        }
        match parse_attr(toks, i) {
            Some((e, _)) => {
                i = e;
            },
            None => {
                return Err(i);
            },
        }
    }
}

/// Passes over the visibility that begins at `pos`.
pub fn skip_vis(toks: &Vec<Token>, pos: usize) -> (r: usize)
    requires
        pos <= toks@.len(),
    ensures
        r == vis_end(toks@, pos as int),
        pos <= r <= toks@.len(),
{
    if pos >= toks.len() {
        return pos;
    }
    let word = render_range(toks, pos, pos + 1);
    if !visibility_accepted(word.as_str()) {
        return pos;
    }
    match find_close(toks, pos + 1) {
        Some(c) => {
            if open_at(toks, pos + 1, Delim::Paren) {
                let text = render_range(toks, pos, c + 1);
                if visibility_accepted(text.as_str()) {
                    return c + 1;
                }
            }
            pos + 1
        },
        None => pos + 1,
    }
}

/// Whether an identifier that can name something stands at `pos`.
pub fn is_name(toks: &Vec<Token>, pos: usize) -> (r: bool)
    ensures
        r == name_at(toks@, pos as int),
{
    if pos >= toks.len() {
        return false;
    }
    let text = render_range(toks, pos, pos + 1);
    ident_accepted(text.as_str())
}

/// Whether a string literal stands at `pos`.
pub fn is_msg(toks: &Vec<Token>, pos: usize) -> (r: bool)
    ensures
        r == msg_at(toks@, pos as int),
{
    if pos >= toks.len() {
        return false;
    }
    let text = render_range(toks, pos, pos + 1);
    lit_str_accepted(text.as_str())
}

/// Passes over the generic parameters that begin at `pos`.
pub fn skip_generics(toks: &Vec<Token>, pos: usize) -> (r: Option<usize>)
    requires
        pos <= toks@.len(),
    ensures
        match r {
            Some(e) => generics_end(toks@, pos as int) == Some(e as int) && pos <= e
                <= toks@.len() && (e == pos || syn_generics(
                render(toks@, pos as int, e as int),
            ).is_some()),
            None => generics_end(toks@, pos as int).is_none(),
        },
{
    proof {
        lemma_len_fits(toks);
    }
    if !punct_at(toks, pos, '<') {
        return Some(pos);
    }
    let mut q: usize = pos + 1;
    while q < toks.len()
        invariant
            pos < q <= toks@.len(),
            generics_end(toks@, pos as int) == first_generics_end(toks@, pos as int, q as int),
        decreases toks@.len() - q,
    {
        if punct_at(toks, q - 1, '>') {
            let text = render_range(toks, pos, q);
            if generics_texts(text.as_str()).is_some() {
                return Some(q);
            }
        }
        q += 1;
    }
    if punct_at(toks, q - 1, '>') {
        let text = render_range(toks, pos, q);
        if generics_texts(text.as_str()).is_some() {
            return Some(q);
        }
    }
    assert(first_generics_end(toks@, pos as int, q + 1).is_none());
    None
}

/// Finds the end of the type that begins at `start`.
pub fn skip_type(toks: &Vec<Token>, start: usize) -> (r: Option<usize>)
    requires
        start <= toks@.len(),
    ensures
        match r {
            Some(e) => first_type_end(toks@, start as int, start as int) == Some(e as int)
                && start < e <= toks@.len() && (e == toks@.len() || is_punct(toks@[e as int], ',')),
            None => first_type_end(toks@, start as int, start as int).is_none(),
        },
{
    let mut q: usize = start;
    while q < toks.len()
        invariant
            start <= q <= toks@.len(),
            first_type_end(toks@, start as int, start as int) == first_type_end(
                toks@,
                start as int,
                q as int,
            ),
        decreases toks@.len() - q,
    {
        if start < q && punct_at(toks, q, ',') {
            let text = render_range(toks, start, q);
            if type_accepted(text.as_str()) {
                return Some(q);
            }
        }
        q += 1;
    }
    if start < q {
        let text = render_range(toks, start, q);
        if type_accepted(text.as_str()) {
            return Some(q);
        }
    }
    assert(first_type_end(toks@, start as int, q + 1).is_none());
    None
}

/// The field that begins at `pos`.
pub fn parse_field(toks: &Vec<Token>, pos: usize) -> (r: Option<(Field, usize)>)
    requires
        pos <= toks@.len(),
    ensures
        match r {
            Some((f, e)) => field_at(toks@, pos as int) == Some((f, e as int)) && pos < e
                <= toks@.len() && f.within(toks@.len()) && (e == toks@.len() || is_punct(
                toks@[e as int],
                ',',
            )),
            None => field_at(toks@, pos as int).is_none(),
        },
{
    proof {
        lemma_len_fits(toks);
    }
    let a: usize = match skip_attrs(toks, pos) {
        Ok(a) => a,
        Err(_) => { return None; },
    };
    let v: usize = skip_vis(toks, a);
    if !is_name(toks, v) || !punct_at(toks, v + 1, ':') {
        return None;
    }
    match skip_type(toks, v + 2) {
        Some(e) => Some(
            (Field { attrs: Span { lo: pos, hi: a }, vis: Span { lo: a, hi: v }, name: v, ty: Span { lo: v + 2, hi: e } }, e),
        ),
        None => None,
    }
}

/// The field list that the tokens from `pos` on are.
pub fn parse_fields(toks: &Vec<Token>, pos: usize) -> (r: Option<Vec<Field>>)
    requires
        pos <= toks@.len(),
    ensures
        match r {
            Some(fields) => fields_from(toks@, pos as int) == Some(fields@) && fields@.len() > 0
                && fields_within(fields@, toks@.len()),
            None => fields_from(toks@, pos as int).is_none(),
        },
{
    let mut fields: Vec<Field> = Vec::new();
    let mut i: usize = pos;
    loop
        invariant
            pos <= i <= toks@.len(),
            fields_within(fields@, toks@.len()),
            fields_from(toks@, pos as int) == match fields_from(toks@, i as int) {
                Some(rest) => Some(fields@ + rest),
                None => None,
            },
        decreases toks@.len() - i,
    {
        match parse_field(toks, i) {
            Some((f, e)) => {
                let ghost before = fields@;
                fields.push(f);
                if e >= toks.len() || e + 1 >= toks.len() {
                    assert(before + seq![f] =~= fields@);
                    return Some(fields);
                }
                proof {
                    match fields_from(toks@, e + 1) {
                        Some(rest) => {
                            assert(before + (seq![f] + rest) =~= fields@ + rest);
                        },
                        None => {},
                    }
                }
                i = e + 1;
            },
            None => {
                return None;
            },
        }
    }
}

/// The source that begins at `pos`.
pub fn parse_variant(toks: &Vec<Token>, pos: usize) -> (r: Option<(Variant, usize)>)
    requires
        pos <= toks@.len(),
    ensures
        match r {
            Some((v, e)) => variant_at(toks@, pos as int) == Some((v, e as int)) && pos < e
                <= toks@.len() && v.within(toks@.len()),
            None => variant_at(toks@, pos as int).is_none(),
        },
{
    proof {
        lemma_len_fits(toks);
    }
    let a: usize = match skip_attrs(toks, pos) {
        Ok(a) => a,
        Err(_) => { return None; },
    };
    if !is_name(toks, a) {
        return None;
    }
    Some((Variant { attrs: Span { lo: pos, hi: a }, ident: a }, a + 1))
}

/// The source list that the tokens from `pos` on are.
pub fn parse_variants(toks: &Vec<Token>, pos: usize) -> (r: Option<Vec<Variant>>)
    requires
        pos <= toks@.len(),
    ensures
        match r {
            Some(sources) => variants_from(toks@, pos as int) == Some(sources@) && sources@.len()
                > 0 && variants_within(sources@, toks@.len()),
            None => variants_from(toks@, pos as int).is_none(),
        },
{
    let mut sources: Vec<Variant> = Vec::new();
    let mut i: usize = pos;
    loop
        invariant
            pos <= i <= toks@.len(),
            variants_within(sources@, toks@.len()),
            variants_from(toks@, pos as int) == match variants_from(toks@, i as int) {
                Some(rest) => Some(sources@ + rest),
                None => None,
            },
        decreases toks@.len() - i,
    {
        match parse_variant(toks, i) {
            Some((v, e)) => {
                if e < toks.len() && !punct_at(toks, e, ',') {
                    return None;
                }
                let ghost before = sources@;
                sources.push(v);
                if e >= toks.len() || e + 1 >= toks.len() {
                    assert(before + seq![v] =~= sources@);
                    return Some(sources);
                }
                proof {
                    match variants_from(toks@, e + 1) {
                        Some(rest) => {
                            assert(before + (seq![v] + rest) =~= sources@ + rest);
                        },
                        None => {},
                    }
                }
                i = e + 1;
            },
            None => {
                return None;
            },
        }
    }
}

/// The bracketed type that the tokens from `pos` on are.
pub fn parse_array(toks: &Vec<Token>, pos: usize) -> (r: Option<(Span, Span)>)
    requires
        pos <= toks@.len(),
    ensures
        match r {
            Some((attrs, inner)) => array_at(toks@, pos as int) == Some((attrs, inner))
                && attrs.within(toks@.len()) && inner.within(toks@.len()),
            None => array_at(toks@, pos as int).is_none(),
        },
{
    proof {
        lemma_len_fits(toks);
    }
    if !open_at(toks, pos, Delim::Bracket) {
        return None;
    }
    let c: usize = match find_close(toks, pos) {
        Some(c) => c,
        None => { return None; },
    };
    let a: usize = match skip_attrs(toks, pos + 1) {
        Ok(a) => a,
        Err(_) => { return None; },
    };
    if c + 1 != toks.len() || a >= c {
        return None;
    }
    let text = render_range(toks, a, c);
    if type_accepted(text.as_str()) {
        Some((Span { lo: pos + 1, hi: a }, Span { lo: a, hi: c }))
    } else {
        None
    }
}

/// The contents that the tokens from `pos` on are.
pub fn parse_contents(toks: &Vec<Token>, pos: usize) -> (r: Option<Contents>)
    requires
        pos <= toks@.len(),
    ensures
        match r {
            Some(contents) => contents_at(toks@, pos as int) == Some(contents@)
                && contents@.within(toks@.len()),
            None => contents_at(toks@, pos as int).is_none(),
        },
{
    if pos >= toks.len() {
        return Some(Contents::Unit);
    }
    if let Some(fields) = parse_fields(toks, pos) {
        return Some(Contents::StructFields(fields));
    }
    if let Some(sources) = parse_variants(toks, pos) {
        return Some(Contents::SourceList(sources));
    }
    match parse_array(toks, pos) {
        Some((attrs, inner)) => Some(Contents::ArraySource { attrs, inner }),
        None => None,
    }
}

/// The rule that the grammar itself cannot say: only a source list may do
/// without a message. `end` is where the fault is reported.
pub fn validate(spec: &ErrorSpec, end: usize) -> (r: Result<(), ParseError>)
    ensures
        match r {
            Ok(()) => spec@.has_required_message(),
            Err(e) => !spec@.has_required_message() && e == (ParseError::MissingMessage { at: end }),
        },
{
    let is_sources = match &spec.contents {
        Contents::SourceList(_) => true,
        _ => false,
    };
    if spec.msg.is_none() && !is_sources {
        Err(ParseError::MissingMessage { at: end })
    } else {
        Ok(())
    }
}

/// Parses a declaration. The result is the one that the grammar gives: the
/// parsed declaration, or the first fault met on the way.
pub fn parse(toks: &Vec<Token>) -> (r: Result<ErrorSpec, ParseError>)
    ensures
        match r {
            Ok(spec) => parse_spec(toks@) == Ok::<ErrorSpecView, ParseError>(spec@) && spec@.wf(toks@),
            Err(e) => parse_spec(toks@) == Err::<ErrorSpecView, ParseError>(e)
                && e.position() <= toks@.len(),
        },
{
    proof {
        lemma_len_fits(toks);
    }
    let a: usize = match skip_attrs(toks, 0) {
        Ok(a) => a,
        Err(p) => { return Err(ParseError::InvalidAttribute { at: p }); },
    };
    let v: usize = skip_vis(toks, a);
    if !is_name(toks, v) {
        return Err(ParseError::ExpectedName { at: v });
    }
    let g: usize = match skip_generics(toks, v + 1) {
        Some(g) => g,
        None => { return Err(ParseError::InvalidGenerics { at: v + 1 }); },
    };
    let has_msg = is_msg(toks, g);
    let p: usize = if has_msg {
        g + 1
    } else {
        g
    };
    let contents = match parse_contents(toks, p) {
        Some(contents) => contents,
        None => { return Err(ParseError::InvalidContents { at: p }); },
    };
    let spec = ErrorSpec {
        attrs: Span { lo: 0, hi: a },
        vis: Span { lo: a, hi: v },
        name: v,
        generics: Span { lo: v + 1, hi: g },
        msg: if has_msg {
            Some(g)
        } else {
            None
        },
        contents,
    };
    if let Err(e) = validate(&spec, toks.len()) {
        return Err(e);
    }
    match find_repeated_name(toks, &spec.contents) {
        Some(at) => Err(ParseError::DuplicateName { at }),
        None => Ok(spec),
    }
}

} // verus!
