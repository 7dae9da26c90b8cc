//! What `syn` decides: whether a text is a type, a generic parameter list, a
//! visibility, an identifier, a string literal, the contents of an attribute.
//! Nothing in this file is proved; each function states what it takes from
//! `syn`.
//!
//! `syn`, `quote` and `proc-macro2` are built without their `proc-macro`
//! feature: texts are lexed and printed by `proc-macro2` itself, whether or
//! not a compiler is at hand, so each answer depends on the text alone. A
//! crate that depends on this one has to leave that feature off as well.

use vstd::prelude::*;
use quote::ToTokens;

verus! {

/// Whether `syn` parses the whole text as a `Type`.
pub uninterp spec fn syn_type(text: Seq<char>) -> bool;

/// Whether `syn` parses the whole text as a `Visibility`.
pub uninterp spec fn syn_visibility(text: Seq<char>) -> bool;

/// Whether `syn` parses the whole text as an `Ident`.
pub uninterp spec fn syn_ident(text: Seq<char>) -> bool;

/// Whether `syn` parses the whole text as a `LitStr`.
pub uninterp spec fn syn_lit_str(text: Seq<char>) -> bool;

/// `None` where `syn` does not parse the whole text as a `Meta`; else whether
/// the path of that `Meta` is the single identifier `name`.
pub uninterp spec fn syn_meta_named(text: Seq<char>, name: Seq<char>) -> Option<bool>;

/// `None` where `syn` does not parse the whole text as `Generics`; else the
/// texts that `syn` prints for the parameters as declared, as they stand
/// behind `impl`, and as they stand behind the type's name.
pub uninterp spec fn syn_generics(text: Seq<char>) -> Option<(Seq<char>, Seq<char>, Seq<char>)>;

/// The three texts of a generic parameter list.
pub struct GenericsText {
    pub declared: String,
    pub for_impl: String,
    pub for_type: String,
}

impl GenericsText {
    /// The three texts, in the order of the fields.
    pub open spec fn view(&self) -> (Seq<char>, Seq<char>, Seq<char>) {
        (self.declared@, self.for_impl@, self.for_type@)
    }
}

/// `syn::parse_str::<syn::Type>`: reports whether it returned `Ok`.
#[verifier::external_body]
pub(crate) fn type_accepted(text: &str) -> (r: bool)
    ensures
        r == syn_type(text@),
{
    syn::parse_str::<syn::Type>(text).is_ok()
}

/// `syn::parse_str::<syn::Visibility>`: reports whether it returned `Ok`.
#[verifier::external_body]
pub(crate) fn visibility_accepted(text: &str) -> (r: bool)
    ensures
        r == syn_visibility(text@),
{
    syn::parse_str::<syn::Visibility>(text).is_ok()
}

/// `syn::parse_str::<syn::Ident>`: reports whether it returned `Ok`.
#[verifier::external_body]
pub(crate) fn ident_accepted(text: &str) -> (r: bool)
    ensures
        r == syn_ident(text@),
{
    syn::parse_str::<syn::Ident>(text).is_ok()
}

/// `syn::parse_str::<syn::LitStr>`: reports whether it returned `Ok`.
#[verifier::external_body]
pub(crate) fn lit_str_accepted(text: &str) -> (r: bool)
    ensures
        r == syn_lit_str(text@),
{
    syn::parse_str::<syn::LitStr>(text).is_ok()
}

/// `syn::parse_str::<syn::Meta>`, then `Path::is_ident` on the path of what
/// was parsed: `None` on a parse error, else the answer of `is_ident`.
#[verifier::external_body]
pub(crate) fn meta_named(text: &str, name: &str) -> (r: Option<bool>)
    ensures
        r == syn_meta_named(text@, name@),
{
    match syn::parse_str::<syn::Meta>(text) {
        Ok(meta) => Some(meta.path().is_ident(name)),
        Err(_) => None,
    }
}

/// `syn::parse_str::<syn::Generics>`, then `Generics::split_for_impl`: `None`
/// on a parse error, else the printed forms of the parsed list and of the
/// first two parts of the split.
#[verifier::external_body]
pub(crate) fn generics_texts(text: &str) -> (r: Option<GenericsText>)
    ensures
        match r {
            Some(g) => syn_generics(text@) == Some(g@),
            None => syn_generics(text@).is_none(),
        },
{
    match syn::parse_str::<syn::Generics>(text) {
        Ok(generics) => {
            let (for_impl, for_type, _) = generics.split_for_impl();
            Some(GenericsText {
                declared: generics.to_token_stream().to_string(),
                for_impl: for_impl.to_token_stream().to_string(),
                for_type: for_type.to_token_stream().to_string(),
            })
        },
        Err(_) => None,
    }
}

} // verus!
