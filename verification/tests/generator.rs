use proc_macro2::{Delimiter, Spacing, TokenStream, TokenTree};
use quickerr::cfg_attrs::{cfg_attrs, render_cfgs};
use quickerr::emit::{emit, emit_conversions, emit_error_impl, split_generics};
use quickerr::expand::{diagnostic, error, generate};
use quickerr::names::{find_repeated_name, names_of, repeats_earlier};
use quickerr::parse::{parse, validate};
use quickerr::token::{find_close, render_range};
use quickerr::{Contents, Delim, ErrorSpec, Field, ParseError, Span, Token, Variant};

fn flatten(stream: TokenStream, out: &mut Vec<Token>) {
    for tree in stream {
        match tree {
            TokenTree::Group(group) => {
                let delim = match group.delimiter() {
                    Delimiter::Parenthesis => Some(Delim::Paren),
                    Delimiter::Bracket => Some(Delim::Bracket),
                    Delimiter::Brace => Some(Delim::Brace),
                    Delimiter::None => None,
                };
                if let Some(d) = delim {
                    out.push(Token::Open(d));
                }
                flatten(group.stream(), out);
                if let Some(d) = delim {
                    out.push(Token::Close(d));
                }
            }
            TokenTree::Ident(ident) => out.push(Token::Ident(ident.to_string())),
            TokenTree::Punct(punct) => {
                out.push(Token::Punct(punct.as_char(), punct.spacing() == Spacing::Joint))
            }
            TokenTree::Literal(lit) => out.push(Token::Literal(lit.to_string())),
        }
    }
}

fn lex(src: &str) -> Vec<Token> {
    let mut out = Vec::new();
    flatten(src.parse::<TokenStream>().unwrap(), &mut out);
    out
}

fn word(t: &Token) -> String {
    match t {
        Token::Ident(s) | Token::Literal(s) => s.clone(),
        Token::Punct(c, _) => c.to_string(),
        Token::Open(Delim::Paren) => "(".to_string(),
        Token::Open(Delim::Bracket) => "[".to_string(),
        Token::Open(Delim::Brace) => "{".to_string(),
        Token::Close(Delim::Paren) => ")".to_string(),
        Token::Close(Delim::Bracket) => "]".to_string(),
        Token::Close(Delim::Brace) => "}".to_string(),
    }
}

fn normal(src: &str) -> String {
    let mut out = String::new();
    for t in lex(src) {
        out.push_str(&word(&t));
        out.push(' ');
    }
    out
}

fn generated(src: &str) -> String {
    normal(&generate(&lex(src)).unwrap())
}

fn parsed(src: &str) -> (Vec<Token>, ErrorSpec) {
    let toks = lex(src);
    let spec = parse(&toks).unwrap();
    (toks, spec)
}

fn count(haystack: &str, needle: &str) -> usize {
    haystack.matches(needle).count()
}

#[test]
fn unit_form_writes_the_message() {
    let expected = r#"
        #[derive(Debug)]
        #[non_exhaustive]
        struct E1;
        impl ::std::fmt::Display for E1 {
            fn fmt(&self, f: &mut ::std::fmt::Formatter<'_>) -> ::std::fmt::Result {
                f.write_str("boom")
            }
        }
        impl ::std::error::Error for E1 {}
    "#;
    assert_eq!(generated(r#"E1 "boom""#), normal(expected));
}

#[test]
fn struct_form_formats_with_its_fields() {
    let expected = r#"
        #[derive(Debug)]
        #[non_exhaustive]
        struct E2 {
            x: String,
        }
        impl ::std::fmt::Display for E2 {
            #[allow(unused_variables)]
            fn fmt(&self, f: &mut ::std::fmt::Formatter<'_>) -> ::std::fmt::Result {
                let Self { x, } = self;
                f.write_fmt(format_args!("bad {x}"))
            }
        }
        impl ::std::error::Error for E2 {}
    "#;
    assert_eq!(generated(r#"E2 "bad {x}" x: String"#), normal(expected));
    assert_eq!(generated(r#"E2 "bad {x}" x: String,"#), normal(expected));
}

#[test]
fn source_list_wraps_and_converts() {
    let expected = r#"
        #[derive(Debug)]
        #[non_exhaustive]
        enum E3 {
            E1(E1),
            E2(E2),
        }
        impl ::std::fmt::Display for E3 {
            fn fmt(&self, f: &mut ::std::fmt::Formatter<'_>) -> ::std::fmt::Result {
                f.write_str("wrapped")
            }
        }
        impl ::std::error::Error for E3 {
            fn source(&self) -> ::std::option::Option<&(dyn ::std::error::Error + 'static)> {
                Some(match self {
                    E3::E1(err) => err,
                    E3::E2(err) => err,
                    _ => unreachable!(),
                })
            }
        }
        impl ::std::convert::From<E1> for E3 {
            fn from(source: E1) -> Self {
                Self::E1(source)
            }
        }
        impl ::std::convert::From<E2> for E3 {
            fn from(source: E2) -> Self {
                Self::E2(source)
            }
        }
    "#;
    assert_eq!(generated(r#"E3 "wrapped" E1, E2"#), normal(expected));
}

#[test]
fn transparent_source_list_delegates() {
    let expected = r#"
        #[derive(Debug)]
        #[non_exhaustive]
        enum E4 {
            E3(E3),
        }
        impl ::std::fmt::Display for E4 {
            fn fmt(&self, f: &mut ::std::fmt::Formatter<'_>) -> ::std::fmt::Result {
                match self {
                    Self::E3(err) => ::std::fmt::Display::fmt(err, f),
                    _ => unreachable!(),
                }
            }
        }
        impl ::std::error::Error for E4 {
            fn source(&self) -> ::std::option::Option<&(dyn ::std::error::Error + 'static)> {
                Some(match self {
                    E4::E3(err) => err,
                    _ => unreachable!(),
                })
            }
        }
        impl ::std::convert::From<E3> for E4 {
            fn from(source: E3) -> Self {
                Self::E3(source)
            }
        }
    "#;
    assert_eq!(generated("E4 E3,"), normal(expected));
}

#[test]
fn array_form_lists_each_inner_error() {
    let expected = r#"
        #[derive(Debug)]
        #[non_exhaustive]
        pub struct ManyProblems(pub Vec<SomeError>);
        impl ::std::fmt::Display for ManyProblems {
            fn fmt(&self, f: &mut ::std::fmt::Formatter<'_>) -> ::std::fmt::Result {
                f.write_str("encountered many problems")?;
                f.write_str(":")?;
                for err in &self.0 {
                    f.write_str("\n")?;
                    f.write_fmt(format_args!("{}", err))?;
                }
                Ok(())
            }
        }
        impl ::std::error::Error for ManyProblems {}
    "#;
    assert_eq!(
        generated(r#"pub ManyProblems "encountered many problems" [SomeError]"#),
        normal(expected)
    );
}

#[test]
fn array_form_keeps_inner_attributes() {
    let out = generated(r#"Many "many" [#[allow(dead_code)] Vec<u8>]"#);
    assert!(out.contains(&normal("struct Many(#[allow(dead_code)] pub Vec<Vec<u8>>);")));
}

#[test]
fn missing_message_is_rejected() {
    let err = generate(&lex("E1")).unwrap_err();
    assert_eq!(err, ParseError::MissingMessage { at: 1 });
    assert_eq!(err.message(), "any non-enum error must have a display message");
    assert_eq!(err.at(), 1);
    assert_eq!(
        generate(&lex("E2 x: String")).unwrap_err(),
        ParseError::MissingMessage { at: 4 }
    );
    assert_eq!(
        generate(&lex("Many [SomeError]")).unwrap_err(),
        ParseError::MissingMessage { at: 4 }
    );
    assert!(generate(&lex("E4 E3")).is_ok());
}

#[test]
fn parse_gives_the_parts_of_a_unit_error() {
    let (toks, spec) = parsed(r#"#[derive(Clone)] pub(crate) MyUnitError "it's a unit error""#);
    assert_eq!(toks.len(), 13);
    assert_eq!(spec.attrs, Span { lo: 0, hi: 7 });
    assert_eq!(spec.vis, Span { lo: 7, hi: 11 });
    assert_eq!(spec.name, 11);
    assert_eq!(spec.generics, Span { lo: 12, hi: 12 });
    assert_eq!(spec.msg, Some(12));
    assert!(matches!(spec.contents, Contents::Unit));
}

#[test]
fn parse_gives_each_field() {
    let (toks, spec) =
        parsed(r#"E "m" a: HashMap<String, Vec<u8>>, #[cfg(test)] pub b: fn(u8, u8) -> T,"#);
    let fields = match &spec.contents {
        Contents::StructFields(fields) => fields.clone(),
        _ => panic!("no field list"),
    };
    assert_eq!(fields.len(), 2);
    assert_eq!(fields[0].attrs, Span { lo: 2, hi: 2 });
    assert_eq!(fields[0].vis, Span { lo: 2, hi: 2 });
    assert_eq!(fields[0].name, 2);
    assert_eq!(render_range(&toks, fields[0].ty.lo, fields[0].ty.hi), "HashMap < String , Vec < u8 >>");
    assert_eq!(render_range(&toks, fields[1].attrs.lo, fields[1].attrs.hi), "# [ cfg ( test ) ] ");
    assert_eq!(render_range(&toks, fields[1].vis.lo, fields[1].vis.hi), "pub ");
    assert_eq!(render_range(&toks, fields[1].name, fields[1].name + 1), "b ");
    assert_eq!(render_range(&toks, fields[1].ty.lo, fields[1].ty.hi), "fn ( u8 , u8 ) -> T ");
    assert_eq!(fields[1].ty.hi, toks.len() - 1);
}

#[test]
fn field_list_is_tried_before_source_list() {
    let (_, spec) = parsed(r#"E "m" a: T, b: U"#);
    assert!(matches!(spec.contents, Contents::StructFields(_)));
    let (_, spec) = parsed(r#"E "m" A, B"#);
    match spec.contents {
        Contents::SourceList(sources) => {
            assert_eq!(sources.len(), 2);
            assert_eq!(sources[0].ident, 2);
            assert_eq!(sources[1].ident, 4);
        }
        _ => panic!("no source list"),
    }
}

#[test]
fn empty_remainder_is_unit() {
    let (_, spec) = parsed(r#"E "m""#);
    assert!(matches!(spec.contents, Contents::Unit));
}

#[test]
fn contents_of_no_known_form_are_rejected() {
    let err = parse(&lex(r#"E "m" a: T, B"#)).unwrap_err();
    assert_eq!(err, ParseError::InvalidContents { at: 2 });
    assert_eq!(err.message(), "invalid error contents");
    assert_eq!(parse(&lex(r#"E "m" a: ,"#)).unwrap_err(), ParseError::InvalidContents { at: 2 });
    assert_eq!(parse(&lex(r#"E "m" [T] U"#)).unwrap_err(), ParseError::InvalidContents { at: 2 });
    assert_eq!(parse(&lex(r#"E "m" [T, U]"#)).unwrap_err(), ParseError::InvalidContents { at: 2 });
    assert_eq!(parse(&lex(r#"E "m" (T)"#)).unwrap_err(), ParseError::InvalidContents { at: 2 });
    assert_eq!(parse(&lex(r#"E "m" A B"#)).unwrap_err(), ParseError::InvalidContents { at: 2 });
    assert_eq!(parse(&lex("E A B")).unwrap_err(), ParseError::InvalidContents { at: 1 });
}

#[test]
fn a_name_is_required() {
    assert_eq!(parse(&lex("")).unwrap_err(), ParseError::ExpectedName { at: 0 });
    assert_eq!(parse(&lex(r#""boom""#)).unwrap_err(), ParseError::ExpectedName { at: 0 });
    assert_eq!(parse(&lex(r#"struct "boom""#)).unwrap_err(), ParseError::ExpectedName { at: 0 });
    assert_eq!(parse(&lex(r#"pub "boom""#)).unwrap_err(), ParseError::ExpectedName { at: 1 });
    let err = parse(&lex(r#"pub(foo) E "boom""#)).unwrap_err();
    assert_eq!(err, ParseError::ExpectedName { at: 1 });
    assert_eq!(err.message(), "expected identifier");
}

#[test]
fn a_hash_must_begin_an_attribute() {
    let err = parse(&lex(r#"# E "m""#)).unwrap_err();
    assert_eq!(err, ParseError::InvalidAttribute { at: 0 });
    assert_eq!(err.message(), "invalid attribute");
    assert_eq!(
        parse(&lex(r#"#[derive(Debug)] #[=] E "m""#)).unwrap_err(),
        ParseError::InvalidAttribute { at: 7 }
    );
}

#[test]
fn an_angle_must_begin_generic_parameters() {
    let err = parse(&lex(r#"E < "m""#)).unwrap_err();
    assert_eq!(err, ParseError::InvalidGenerics { at: 1 });
    assert_eq!(err.message(), "invalid generic parameters");
}

#[test]
fn generic_parameters_are_split_for_the_impls() {
    let (toks, spec) = parsed(r#"BreakGlass<'a, Tool: Fn() -> u8 = F> "blunt" tool: &'a Tool,"#);
    let g = split_generics(&toks, &spec);
    assert_eq!(normal(&g.declared), normal("<'a, Tool: Fn() -> u8 = F>"));
    assert_eq!(normal(&g.for_impl), normal("<'a, Tool: Fn() -> u8>"));
    assert_eq!(normal(&g.for_type), normal("<'a, Tool>"));
    let out = normal(&emit(&toks, &spec));
    assert!(out.contains(&normal("struct BreakGlass<'a, Tool: Fn() -> u8 = F> { tool: &'a Tool, }")));
    assert!(out.contains(&normal(
        "impl<'a, Tool: Fn() -> u8> ::std::fmt::Display for BreakGlass<'a, Tool>"
    )));
    assert!(out.contains(&normal(
        "impl<'a, Tool: Fn() -> u8> ::std::error::Error for BreakGlass<'a, Tool> {}"
    )));
}

#[test]
fn no_generic_parameters_give_empty_texts() {
    let (toks, spec) = parsed(r#"E "m""#);
    let g = split_generics(&toks, &spec);
    assert_eq!(g.declared, "");
    assert_eq!(g.for_impl, "");
    assert_eq!(g.for_type, "");
}

#[test]
fn conditions_are_repeated_at_every_site() {
    let out = generated(
        r#"EnumErr "foo" #[cfg(feature = "foo")] #[doc = "first"] Case1, #[cfg(feature = "bar")] Case2,"#,
    );
    assert_eq!(count(&out, &normal(r#"#[cfg(feature = "foo")]"#)), 3);
    assert_eq!(count(&out, &normal(r#"#[cfg(feature = "bar")]"#)), 3);
    assert_eq!(count(&out, &normal(r#"#[doc = "first"]"#)), 1);
    assert!(out.contains(&normal(
        r#"#[cfg(feature = "foo")] #[doc = "first"] Case1(Case1),"#
    )));
    assert!(out.contains(&normal(r#"#[cfg(feature = "foo")] EnumErr::Case1(err) => err,"#)));
    assert!(out.contains(&normal(
        r#"#[cfg(feature = "bar")] impl ::std::convert::From<Case2> for EnumErr"#
    )));
    let out = generated(r#"Quiet #[cfg(feature = "foo")] Case1, Case2"#);
    assert_eq!(count(&out, &normal(r#"#[cfg(feature = "foo")]"#)), 4);
    assert!(out.contains(&normal(
        r#"#[cfg(feature = "foo")] Self::Case1(err) => ::std::fmt::Display::fmt(err, f),"#
    )));
}

#[test]
fn field_conditions_are_repeated_in_the_pattern() {
    let out = generated(
        r#"StructErr "bar" #[cfg(feature = "foo")] field1: Foo, #[allow(unused)] #[cfg(feature = "bar")] field2: Bar,"#,
    );
    assert!(out.contains(&normal(
        r#"let Self { #[cfg(feature = "foo")] field1, #[cfg(feature = "bar")] field2, } = self;"#
    )));
    assert!(out.contains(&normal(
        r#"{ #[cfg(feature = "foo")] field1: Foo, #[allow(unused)] #[cfg(feature = "bar")] field2: Bar, }"#
    )));
}

#[test]
fn cfg_attrs_selects_in_order() {
    let toks = lex(r#"#[cfg(a)] #[doc = "x"] #[cfg_attr(a, b)] #[cfg(b)] #[std::cfg(c)] X"#);
    let spans = cfg_attrs(&toks, Span { lo: 0, hi: toks.len() - 1 });
    assert_eq!(spans.len(), 2);
    assert_eq!(spans[0], Span { lo: 0, hi: 7 });
    assert_eq!(render_range(&toks, spans[1].lo, spans[1].hi), "# [ cfg ( b ) ] ");
    assert_eq!(
        render_cfgs(&toks, Span { lo: 0, hi: toks.len() - 1 }),
        "# [ cfg ( a ) ] # [ cfg ( b ) ] "
    );
    assert_eq!(cfg_attrs(&toks, Span { lo: 0, hi: 0 }).len(), 0);
    assert_eq!(cfg_attrs(&toks, Span { lo: 0, hi: 6 }).len(), 0);
}

#[test]
fn a_field_without_visibility_takes_the_type_s() {
    let out = generated(r#"pub E "m" a: u8, pub(crate) b: u8"#);
    assert!(out.contains(&normal("pub struct E { pub a: u8, pub(crate) b: u8, }")));
    let out = generated(r#"E "m" a: u8, pub b: u8"#);
    assert!(out.contains(&normal("struct E { a: u8, pub b: u8, }")));
}

#[test]
fn restricted_visibility_is_kept() {
    let (toks, spec) = parsed(r#"pub(in crate::errors) E "m""#);
    assert_eq!(spec.vis, Span { lo: 0, hi: 8 });
    assert_eq!(spec.name, 8);
    assert!(normal(&emit(&toks, &spec)).contains(&normal("pub(in crate::errors) struct E;")));
}

#[test]
fn only_a_source_list_has_a_cause_and_conversions() {
    for src in [r#"E "m""#, r#"E "m" a: u8"#, r#"E "m" [T]"#] {
        let (toks, spec) = parsed(src);
        let g = split_generics(&toks, &spec);
        assert_eq!(
            normal(&emit_error_impl(&toks, &spec, &g)),
            normal("impl ::std::error::Error for E {}")
        );
        assert_eq!(emit_conversions(&toks, &spec, &g), "");
    }
    let (toks, spec) = parsed(r#"E "m" A, B, C"#);
    let g = split_generics(&toks, &spec);
    assert_eq!(count(&emit_conversions(&toks, &spec, &g), "From"), 3);
    assert_eq!(count(&emit_error_impl(&toks, &spec, &g), "fn source"), 1);
}

#[test]
fn render_joins_what_was_joined() {
    let toks = lex("&'a mut T -> ::std::X");
    assert_eq!(render_range(&toks, 0, toks.len()), "&'a mut T -> :: std :: X ");
    assert_eq!(render_range(&toks, 1, 3), "'a ");
    assert_eq!(render_range(&toks, 2, 2), "");
    let toks = lex("(a) [b] {c}");
    assert_eq!(render_range(&toks, 0, toks.len()), "( a ) [ b ] { c } ");
}

#[test]
fn find_close_matches_nested_groups() {
    let toks = lex("[a (b [c]) d] e");
    assert_eq!(find_close(&toks, 0), Some(9));
    assert_eq!(find_close(&toks, 2), Some(7));
    assert_eq!(find_close(&toks, 1), None);
    assert_eq!(find_close(&toks, 40), None);
    let broken = vec![Token::Open(Delim::Paren), Token::Close(Delim::Bracket)];
    assert_eq!(find_close(&broken, 0), None);
    let open = vec![Token::Open(Delim::Paren), Token::Open(Delim::Paren), Token::Close(Delim::Paren)];
    assert_eq!(find_close(&open, 0), None);
    assert_eq!(find_close(&open, 1), Some(2));
}

#[test]
fn documentation_is_kept_on_the_type() {
    let out = generated("/// In case of emergency\nAttrsError \"has attributes!\" /// a number\n num: i32");
    assert!(out.starts_with(&normal(
        "#[doc = \" In case of emergency\"] #[derive(Debug)] #[non_exhaustive] struct AttrsError"
    )));
    assert!(out.contains(&normal("#[doc = \" a number\"] num: i32,")));
    assert!(out.contains(&normal("let Self { num, } = self;")));
}

#[test]
fn generation_is_repeatable() {
    let toks = lex(r#"pub E<T> "m {a:?}" a: T, b: Vec<(T, T)>"#);
    assert_eq!(generate(&toks), generate(&toks));
}

#[test]
fn error_gives_the_definition_or_the_report() {
    assert_eq!(normal(&error(&lex(r#"E1 "boom""#))), generated(r#"E1 "boom""#));
    assert_eq!(
        normal(&error(&lex("E1"))),
        normal(r#"::core::compile_error! { "any non-enum error must have a display message" }"#)
    );
    assert_eq!(
        normal(&error(&lex(r#"E1 "boom" +"#))),
        normal(r#"::core::compile_error! { "invalid error contents" }"#)
    );
    assert_eq!(
        diagnostic(&ParseError::ExpectedName { at: 3 }),
        "::core::compile_error! { \"expected identifier\" } "
    );
}

#[test]
fn generated_text_is_a_sequence_of_items() {
    for src in [
        r#"E1 "boom""#,
        r#"pub E2<T: Clone> "bad {x}" #[cfg(test)] x: Vec<T>, pub(crate) y: [u8; 4]"#,
        r#"#[derive(Clone)] E3<'a, T> "wrapped" #[cfg(test)] E1, /// second
            E2,"#,
        "pub(crate) E4 #[cfg(test)] E3",
        r#"E5 "many" [Box<dyn std::error::Error>]"#,
    ] {
        let text = generate(&lex(src)).unwrap();
        let file = syn::parse_str::<syn::File>(&text).unwrap();
        assert!(file.items.len() >= 3);
    }
    let text = generate(&lex(r#"E3 "wrapped" A, B, C"#)).unwrap();
    assert_eq!(syn::parse_str::<syn::File>(&text).unwrap().items.len(), 6);
}

#[test]
fn validate_asks_for_a_message_unless_sources() {
    let none = Span { lo: 0, hi: 0 };
    let mut spec = ErrorSpec {
        attrs: none,
        vis: none,
        name: 0,
        generics: Span { lo: 1, hi: 1 },
        msg: None,
        contents: Contents::Unit,
    };
    assert_eq!(validate(&spec, 7), Err(ParseError::MissingMessage { at: 7 }));
    spec.contents = Contents::StructFields(vec![]);
    assert_eq!(validate(&spec, 2), Err(ParseError::MissingMessage { at: 2 }));
    spec.contents = Contents::ArraySource { attrs: none, inner: none };
    assert_eq!(validate(&spec, 0), Err(ParseError::MissingMessage { at: 0 }));
    spec.contents = Contents::SourceList(vec![Variant { attrs: Span { lo: 1, hi: 1 }, ident: 1 }]);
    assert_eq!(validate(&spec, 2), Ok(()));
    spec.contents = Contents::Unit;
    spec.msg = Some(1);
    assert_eq!(validate(&spec, 2), Ok(()));
}

#[test]
fn well_formedness_is_decided() {
    let (toks, spec) = parsed(r#"pub E<T> "m" a: T, b: u8"#);
    assert!(spec.is_well_formed(&toks));
    let mut other = spec.clone();
    other.msg = None;
    assert!(!other.is_well_formed(&toks));
    let mut other = spec.clone();
    other.name = toks.len();
    assert!(!other.is_well_formed(&toks));
    let mut other = spec.clone();
    other.attrs = Span { lo: 1, hi: 0 };
    assert!(!other.is_well_formed(&toks));
    let mut other = spec.clone();
    other.generics = Span { lo: 2, hi: 4 };
    assert!(!other.is_well_formed(&toks));
    let mut other = spec.clone();
    other.generics = Span { lo: 2, hi: 2 };
    assert!(other.is_well_formed(&toks));
    let mut other = spec.clone();
    other.contents = Contents::StructFields(vec![Field {
        attrs: Span { lo: 0, hi: 0 },
        vis: Span { lo: 0, hi: 0 },
        name: 0,
        ty: Span { lo: 0, hi: toks.len() + 1 },
    }]);
    assert!(!other.is_well_formed(&toks));
    let mut other = spec.clone();
    other.contents = Contents::SourceList(vec![Variant { attrs: Span { lo: 0, hi: 0 }, ident: 99 }]);
    assert!(!other.is_well_formed(&toks));
    assert!(!spec.is_well_formed(&lex("E")));
    assert!(Span { lo: 2, hi: 2 }.is_within(2));
    assert!(!Span { lo: 2, hi: 3 }.is_within(2));
    assert!(spec.contents.is_within(toks.len()));
    assert!(!spec.contents.is_within(toks.len() - 1));
}

#[test]
fn a_name_given_twice_is_rejected() {
    let err = parse(&lex(r#"E "m" A, B, A"#)).unwrap_err();
    assert_eq!(err, ParseError::DuplicateName { at: 6 });
    assert_eq!(err.message(), "duplicate name");
    assert_eq!(err.at(), 6);
    assert_eq!(
        parse(&lex(r#"E "m" a: u8, b: u8, c: u8, b: u16, a: u8"#)).unwrap_err(),
        ParseError::DuplicateName { at: 14 }
    );
    assert_eq!(parse(&lex("E A, A")).unwrap_err(), ParseError::DuplicateName { at: 3 });
    assert_eq!(parse(&lex("E a: u8, a: u8")).unwrap_err(), ParseError::MissingMessage { at: 8 });
    assert_eq!(
        parse(&lex(r#"E "m" a: u8, a: u8"#)).unwrap_err(),
        ParseError::DuplicateName { at: 6 }
    );
    assert!(parse(&lex(r#"E "m" A, B, a"#)).is_ok());
    assert!(parse(&lex(r#"E "m" a: a, b: a"#)).is_ok());
}

#[test]
fn names_are_found_and_compared() {
    let (toks, spec) = parsed(r#"E "m" a: u8, #[cfg(test)] b: u8, c: a"#);
    let names = names_of(&spec.contents);
    assert_eq!(names, vec![2, 13, 17]);
    assert_eq!(find_repeated_name(&toks, &spec.contents), None);
    assert!(!repeats_earlier(&toks, &names, 0));
    assert!(!repeats_earlier(&toks, &names, 2));
    assert!(repeats_earlier(&toks, &vec![2, 13, 19], 2));
    assert!(!repeats_earlier(&toks, &vec![19, 13, 2], 1));
    let (toks, spec) = parsed(r#"E "m""#);
    assert_eq!(names_of(&spec.contents), Vec::<usize>::new());
    assert_eq!(find_repeated_name(&toks, &spec.contents), None);
    let toks = lex(r#"E "m" A, B, A"#);
    let twice = Contents::SourceList(vec![
        Variant { attrs: Span { lo: 2, hi: 2 }, ident: 2 },
        Variant { attrs: Span { lo: 4, hi: 4 }, ident: 4 },
        Variant { attrs: Span { lo: 6, hi: 6 }, ident: 6 },
    ]);
    assert_eq!(find_repeated_name(&toks, &twice), Some(6));
    let spec = ErrorSpec {
        attrs: Span { lo: 0, hi: 0 },
        vis: Span { lo: 0, hi: 0 },
        name: 0,
        generics: Span { lo: 1, hi: 1 },
        msg: Some(1),
        contents: twice,
    };
    assert!(!spec.is_well_formed(&toks));
}

#[test]
fn the_message_rule_comes_before_the_names() {
    let toks = lex("E x: A, x: B");
    let err = parse(&toks).unwrap_err();
    assert_eq!(err, ParseError::MissingMessage { at: 8 });
    assert_eq!(err.message(), "any non-enum error must have a display message");
    assert_eq!(generate(&toks), Err(ParseError::MissingMessage { at: 8 }));
    assert_eq!(
        normal(&error(&toks)),
        normal(r#"::core::compile_error! { "any non-enum error must have a display message" }"#)
    );
    let err = parse(&lex("E #[cfg(a)] x: A, #[cfg(b)] x: B,")).unwrap_err();
    assert_eq!(err.message(), "any non-enum error must have a display message");
    assert_eq!(
        parse(&lex(r#"E "m" x: A, x: B"#)).unwrap_err(),
        ParseError::DuplicateName { at: 6 }
    );
    assert_eq!(parse(&lex("E X, X")).unwrap_err(), ParseError::DuplicateName { at: 3 });
    assert_eq!(
        parse(&lex(r#"E "m" X, X"#)).unwrap_err(),
        ParseError::DuplicateName { at: 4 }
    );
}
