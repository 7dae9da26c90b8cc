//! The names that a declaration gives: those of a record's fields, or those
//! of a source list's sources. No name may be given twice.

use vstd::prelude::*;
use crate::ast::{fields_within, variants_within, Contents, ContentsView};
use crate::token::{lemma_len_fits, render, render_range, Token};

verus! {

/// Whether the tokens at `i` and `j` are written alike.
pub open spec fn same_name(toks: Seq<Token>, i: int, j: int) -> bool {
    render(toks, i, i + 1) == render(toks, j, j + 1)
}

/// Whether the name at index `j` is written like one before it.
pub open spec fn repeats(toks: Seq<Token>, names: Seq<usize>, j: int) -> bool {
    exists|i: int| 0 <= i < j && #[trigger] same_name(toks, names[i] as int, names[j] as int)
}

/// The first index, from `from` on, of a name that is written like one
/// before it.
pub open spec fn first_repeat(toks: Seq<Token>, names: Seq<usize>, from: int) -> Option<int>
    decreases names.len() - from,
{
    if from < 0 || from >= names.len() {
        None
    } else if repeats(toks, names, from) {
        Some(from)
    } else {
        first_repeat(toks, names, from + 1)
    }
}

/// The positions of the names that the contents give, in their order.
pub open spec fn contents_names(contents: ContentsView) -> Seq<usize> {
    match contents {
        ContentsView::StructFields(fields) => Seq::new(fields.len(), |i: int| fields[i].name),
        ContentsView::SourceList(sources) => Seq::new(sources.len(), |i: int| sources[i].ident),
        _ => Seq::empty(),
    }
}

/// The position of the first name that the contents give a second time.
pub open spec fn repeated_name(toks: Seq<Token>, contents: ContentsView) -> Option<usize> {
    match first_repeat(toks, contents_names(contents), 0) {
        Some(j) => Some(contents_names(contents)[j]),
        None => None,
    }
}

/// Where no repeated name is found from `from` on, none of the names from
/// there on is written like one before it.
pub proof fn lemma_no_repeat(toks: Seq<Token>, names: Seq<usize>, from: int, i: int, j: int)
    requires
        0 <= from,
        first_repeat(toks, names, from) is None,
        0 <= i < j < names.len(),
        from <= j,
    ensures
        !same_name(toks, names[i] as int, names[j] as int),
    decreases names.len() - from,
{
    if from < j {
        lemma_no_repeat(toks, names, from + 1, i, j);
    }
}

/// The positions of the names that the contents give.
pub fn names_of(contents: &Contents) -> (names: Vec<usize>)
    ensures
        names@ == contents_names(contents@),
{
    let mut names: Vec<usize> = Vec::new();
    match contents {
        Contents::StructFields(fields) => {
            let mut i: usize = 0;
            while i < fields.len()
                invariant
                    i <= fields@.len(),
                    names@ == Seq::new(i as nat, |k: int| fields@[k].name),
                decreases fields@.len() - i,
            {
                names.push(fields[i].name);
                assert(names@ =~= Seq::new((i + 1) as nat, |k: int| fields@[k].name));
                i += 1;
            }
        },
        Contents::SourceList(sources) => {
            let mut i: usize = 0;
            while i < sources.len()
                invariant
                    i <= sources@.len(),
                    names@ == Seq::new(i as nat, |k: int| sources@[k].ident),
                decreases sources@.len() - i,
            {
                names.push(sources[i].ident);
                assert(names@ =~= Seq::new((i + 1) as nat, |k: int| sources@[k].ident));
                i += 1;
            }
        },
        _ => {},
    }
    assert(names@ =~= contents_names(contents@));
    names
}

/// Whether the name at index `j` is written like one before it.
pub fn repeats_earlier(toks: &Vec<Token>, names: &Vec<usize>, j: usize) -> (r: bool)
    requires
        j < names@.len(),
        forall|k: int| 0 <= k < names@.len() ==> (#[trigger] names@[k]) < toks@.len(),
    ensures
        r == repeats(toks@, names@, j as int),
{
    proof {
        lemma_len_fits(toks);
    }
    let text = render_range(toks, names[j], names[j] + 1);
    let mut i: usize = 0;
    while i < j
        invariant
            i <= j < names@.len(),
            toks@.len() <= usize::MAX,
            forall|k: int| 0 <= k < names@.len() ==> (#[trigger] names@[k]) < toks@.len(),
            text@ == render(toks@, names@[j as int] as int, names@[j as int] + 1),
            forall|k: int|
                0 <= k < i ==> !#[trigger] same_name(toks@, names@[k] as int, names@[j as int] as int),
        decreases j - i,
    {
        let other = render_range(toks, names[i], names[i] + 1);
        if other == text {
            assert(same_name(toks@, names@[i as int] as int, names@[j as int] as int));
            return true;
        }
        i += 1;
    }
    false
}

/// The position of the first name that the contents give a second time.
pub fn find_repeated_name(toks: &Vec<Token>, contents: &Contents) -> (r: Option<usize>)
    requires
        contents@.within(toks@.len()),
    ensures
        r == repeated_name(toks@, contents@),
        r matches Some(p) ==> p < toks@.len(),
{
    let names = names_of(contents);
    assert forall|k: int| 0 <= k < names@.len() implies (#[trigger] names@[k]) < toks@.len() by {
        match contents@ {
            ContentsView::StructFields(fields) => {
                assert(fields_within(fields, toks@.len()));
                assert(fields[k].within(toks@.len()));
            },
            ContentsView::SourceList(sources) => {
                assert(variants_within(sources, toks@.len()));
                assert(sources[k].within(toks@.len()));
            },
            _ => {},
        }
    }
    let mut j: usize = 0;
    while j < names.len()
        invariant
            j <= names@.len(),
            names@ == contents_names(contents@),
            forall|k: int| 0 <= k < names@.len() ==> (#[trigger] names@[k]) < toks@.len(),
            first_repeat(toks@, names@, 0) == first_repeat(toks@, names@, j as int),
        decreases names@.len() - j,
    {
        if repeats_earlier(toks, &names, j) {
            return Some(names[j]);
        }
        j += 1;
    }
    None
}

} // verus!
