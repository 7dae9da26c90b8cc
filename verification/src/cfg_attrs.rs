//! The conditional-compilation attributes of a field or a source. They are
//! written again wherever the generated text mentions that field or source,
//! so that what is compiled out of the type is compiled out of every pattern
//! and impl with it.

use vstd::prelude::*;
use vstd::string::StringExecFns;
use crate::ast::{span, Span};
use crate::parse::{attr_at, attrs_end, parse_attr};
use crate::token::{is_punct, render, render_range, Token};

verus! {

/// The conditional-compilation attributes among the attributes that stand
/// from `pos` up to `hi`, in the order in which they stand there.
pub open spec fn cfg_spans(toks: Seq<Token>, pos: int, hi: int) -> Seq<Span>
    decreases hi - pos,
{
    if pos < 0 || pos >= hi {
        Seq::empty()
    } else {
        match attr_at(toks, pos) {
            Some((e, is_cfg)) => if pos < e <= hi {
                (if is_cfg {
                    seq![span(pos, e)]
                } else {
                    Seq::empty()
                }) + cfg_spans(toks, e, hi)
            } else {
                Seq::empty()
            },
            None => Seq::empty(),
        }
    }
}

/// The text of the first `n` of the runs `spans`.
pub open spec fn spans_text(toks: Seq<Token>, spans: Seq<Span>, n: int) -> Seq<char>
    decreases n,
{
    if n <= 0 || n > spans.len() {
        Seq::empty()
    } else {
        spans_text(toks, spans, n - 1) + render(toks, spans[n - 1].lo as int, spans[n - 1].hi as int)
    }
}

/// The text of the conditional-compilation attributes among `attrs`.
pub open spec fn cfg_text(toks: Seq<Token>, attrs: Span) -> Seq<char> {
    let spans = cfg_spans(toks, attrs.lo as int, attrs.hi as int);
    spans_text(toks, spans, spans.len() as int)
}

/// Every selected run is a conditional-compilation attribute that stands
/// between `pos` and `hi`, and the runs follow each other as the attributes
/// do: none is selected twice and none out of order.
pub proof fn lemma_cfg_spans_in_order(toks: Seq<Token>, pos: int, hi: int)
    requires
        0 <= pos,
        hi <= toks.len(),
        hi <= usize::MAX,
    ensures
        forall|i: int|
            0 <= i < cfg_spans(toks, pos, hi).len() ==> {
                let s = #[trigger] cfg_spans(toks, pos, hi)[i];
                &&& pos <= s.lo < s.hi <= hi
                &&& attr_at(toks, s.lo as int) == Some((s.hi as int, true))
            },
        forall|i: int, j: int|
            0 <= i < j < cfg_spans(toks, pos, hi).len() ==> (#[trigger] cfg_spans(
                toks,
                pos,
                hi,
            )[i]).hi <= (#[trigger] cfg_spans(toks, pos, hi)[j]).lo,
    decreases hi - pos,
{
    if pos < hi {
        match attr_at(toks, pos) {
            Some((e, is_cfg)) => {
                if pos < e <= hi {
                    lemma_cfg_spans_in_order(toks, e, hi);
                }
            },
            None => {},
        }
    }
}

/// The tokens from `pos` up to `hi` are attributes, one after the other and
/// nothing else.
pub open spec fn attrs_fill(toks: Seq<Token>, pos: int, hi: int) -> bool
    decreases hi - pos,
{
    if pos >= hi {
        pos == hi
    } else {
        match attr_at(toks, pos) {
            Some((e, _)) => pos < e <= hi && attrs_fill(toks, e, hi),
            None => false,
        }
    }
}

/// The attributes that the parser passes over are attributes, one after the
/// other and nothing else: what the parser took for the attributes of a field
/// or a source is read as the same attributes when its conditions are
/// selected.
pub proof fn lemma_parsed_attrs_fill(toks: Seq<Token>, pos: int, hi: int)
    requires
        0 <= pos,
        attrs_end(toks, pos) == Ok::<int, int>(hi),
    ensures
        pos <= hi,
        pos <= toks.len() ==> hi <= toks.len(),
        attrs_fill(toks, pos, hi),
    decreases toks.len() - pos,
{
    if pos < toks.len() && is_punct(toks[pos], '#') {
        match attr_at(toks, pos) {
            Some((e, _)) => {
                lemma_parsed_attrs_fill(toks, e, hi);
            },
            None => {},
        }
    }
}

/// No condition is left out: among attributes that follow each other from
/// `pos` up to `hi`, every one that is a conditional-compilation attribute is
/// selected.
pub proof fn lemma_every_condition_is_selected(toks: Seq<Token>, pos: int, hi: int, p: int)
    requires
        0 <= pos <= p < hi <= usize::MAX,
        attrs_fill(toks, pos, p),
        attrs_fill(toks, p, hi),
        attr_at(toks, p) matches Some((_, is_cfg)) && is_cfg,
    ensures
        cfg_spans(toks, pos, hi).contains(span(p, attr_at(toks, p)->Some_0.0)),
    decreases p - pos,
{
    let e = attr_at(toks, p)->Some_0.0;
    if pos == p {
        let first = seq![span(p, e)];
        assert(cfg_spans(toks, pos, hi) == first + cfg_spans(toks, e, hi));
        assert((first + cfg_spans(toks, e, hi))[0] == span(p, e));
    } else {
        let next = attr_at(toks, pos)->Some_0.0;
        lemma_every_condition_is_selected(toks, next, hi, p);
        let rest = cfg_spans(toks, next, hi);
        let k = choose|k: int| 0 <= k < rest.len() && rest[k] == span(p, e);
        let head = if attr_at(toks, pos)->Some_0.1 {
            seq![span(pos, next)]
        } else {
            Seq::<Span>::empty()
        };
        assert(cfg_spans(toks, pos, hi) == head + rest);
        assert((head + rest)[head.len() + k] == span(p, e));
    }
}

/// Selects the conditional-compilation attributes among `attrs`.
pub fn cfg_attrs(toks: &Vec<Token>, attrs: Span) -> (r: Vec<Span>)
    requires
        attrs.within(toks@.len()),
    ensures
        r@ == cfg_spans(toks@, attrs.lo as int, attrs.hi as int),
        forall|i: int| 0 <= i < r@.len() ==> (#[trigger] r@[i]).within(toks@.len()),
{
    let mut out: Vec<Span> = Vec::new();
    let mut i: usize = attrs.lo;
    while i < attrs.hi
        invariant
            attrs.lo <= i,
            attrs.hi <= toks@.len(),
            forall|k: int| 0 <= k < out@.len() ==> (#[trigger] out@[k]).within(toks@.len()),
            cfg_spans(toks@, attrs.lo as int, attrs.hi as int) == out@ + cfg_spans(
                toks@,
                i as int,
                attrs.hi as int,
            ),
        decreases attrs.hi - i,
    {
        match parse_attr(toks, i) {
            Some((e, is_cfg)) => {
                if e > attrs.hi {
                    assert(out@ + Seq::<Span>::empty() =~= out@);
                    return out;
                }
                let ghost before = out@;
                if is_cfg {
                    out.push(Span { lo: i, hi: e });
                }
                assert(before + cfg_spans(toks@, i as int, attrs.hi as int) =~= out@ + cfg_spans(
                    toks@,
                    e as int,
                    attrs.hi as int,
                ));
                i = e;
            },
            None => {
                assert(out@ + Seq::<Span>::empty() =~= out@);
                return out;
            },
        }
    }
    assert(out@ + Seq::<Span>::empty() =~= out@);
    out
}

/// The text of the conditional-compilation attributes among `attrs`.
pub fn render_cfgs(toks: &Vec<Token>, attrs: Span) -> (out: String)
    requires
        attrs.within(toks@.len()),
    ensures
        out@ == cfg_text(toks@, attrs),
{
    let spans = cfg_attrs(toks, attrs);
    let mut out = String::new();
    let mut i: usize = 0;
    while i < spans.len()
        invariant
            i <= spans@.len(),
            forall|k: int| 0 <= k < spans@.len() ==> (#[trigger] spans@[k]).within(toks@.len()),
            out@ == spans_text(toks@, spans@, i as int),
        decreases spans@.len() - i,
    {
        let s = spans[i];
        let text = render_range(toks, s.lo, s.hi);
        out.append(text.as_str());
        i += 1;
    }
    out
}

} // verus!
