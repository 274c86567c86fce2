//! Edge cases of the scanner, the diagnostics model, and the remaining error
//! variants.

use display_derive::analyze::analyze;
use display_derive::derive_error_impls;
use display_derive::model::{
    collect_combining, message_text, ArgToken, Attr, AttrForm, Diag, DiagKind, FieldList,
    FieldRef, TypeBody, TypeInput, VariantInput,
};
use display_derive::template::{apply_template, parse_literal_and_args, parse_template};
use display_derive::text::{decimal_string, escape};

fn s(x: &str) -> String {
    x.to_string()
}

fn lit(x: &str) -> ArgToken {
    ArgToken::StrLit(s(x))
}

fn list_attr(tokens: Vec<ArgToken>) -> Attr {
    Attr {
        name: s("display"),
        form: AttrForm::List(tokens),
        rendered: String::new(),
        span: 7,
    }
}

fn parse_ok(template: &str) -> (String, Vec<FieldRef>) {
    let t = parse_template(&vec![lit(template)], 0).expect("template should parse");
    (t.literal, t.args)
}

#[test]
fn each_placeholder_yields_one_reference_in_order() {
    let (literal, args) = parse_ok("{a} x {1} y {b:?}");
    assert_eq!(literal, "{} x {} y {:?}");
    assert_eq!(args.len(), 3);
    assert!(matches!(&args[0], FieldRef::Named(t) if t == "a"));
    assert!(matches!(&args[1], FieldRef::Positional(t) if t == "1"));
    assert!(matches!(&args[2], FieldRef::Named(t) if t == "b"));
}

#[test]
fn format_spec_stays_in_the_literal() {
    let (literal, args) = parse_ok("{inner:?}");
    assert_eq!(literal, "{:?}");
    assert_eq!(args.len(), 1);
    assert!(matches!(&args[0], FieldRef::Named(t) if t == "inner"));
}

#[test]
fn adjacent_placeholders_are_both_found() {
    let (literal, args) = parse_ok("{a}{b}");
    assert_eq!(literal, "{}{}");
    assert_eq!(args.len(), 2);
    assert!(matches!(&args[0], FieldRef::Named(t) if t == "a"));
    assert!(matches!(&args[1], FieldRef::Named(t) if t == "b"));
}

#[test]
fn unclosed_brace_before_a_placeholder_is_left_alone() {
    let (literal, args) = parse_ok("{a{b}");
    assert_eq!(literal, "{a{}");
    assert_eq!(args.len(), 1);
    assert!(matches!(&args[0], FieldRef::Named(t) if t == "b"));
}

#[test]
fn empty_format_spec_is_no_placeholder() {
    let (literal, args) = parse_ok("{a:}");
    assert_eq!(literal, "{a:}");
    assert_eq!(args.len(), 0);
}

#[test]
fn format_spec_does_not_cross_a_newline() {
    let (literal, args) = parse_ok("{a:b\nc}");
    assert_eq!(literal, "{a:b\nc}");
    assert_eq!(args.len(), 0);
}

#[test]
fn empty_braces_are_no_placeholder() {
    let (literal, args) = parse_ok("{} stays");
    assert_eq!(literal, "{} stays");
    assert_eq!(args.len(), 0);
}

#[test]
fn oversized_index_is_taken_as_a_name() {
    let (_, args) = parse_ok("{99999999999999999999999}");
    assert_eq!(args.len(), 1);
    assert!(matches!(&args[0], FieldRef::Named(t) if t == "99999999999999999999999"));
}

#[test]
fn zero_padded_index_is_still_positional() {
    let (_, args) = parse_ok("{007}");
    assert!(matches!(&args[0], FieldRef::Positional(t) if t == "007"));
}

#[test]
fn empty_list_attribute_is_reported_as_empty() {
    let err = derive_error_impls(TypeInput {
        attrs: vec![list_attr(vec![])],
        name: s("CustomType"),
        span: 1,
        generics: vec![],
        where_clause: None,
        body: TypeBody::Struct {
            has_never_field: false,
        },
    })
    .expect_err("empty display attribute should be rejected");
    assert_eq!(err.len(), 1);
    assert_eq!(err.get(0).kind, DiagKind::EmptyTemplateLiteral);
    assert_eq!(
        err.primary_message(),
        "unexpected empty `display` attribute, expected string literal"
    );
}

#[test]
fn tokens_after_the_comma_are_rejected() {
    let err = derive_error_impls(TypeInput {
        attrs: vec![list_attr(vec![
            lit("custom type"),
            ArgToken::Comma,
            ArgToken::Other(s("5")),
        ])],
        name: s("CustomType"),
        span: 1,
        generics: vec![],
        where_clause: None,
        body: TypeBody::Struct {
            has_never_field: false,
        },
    })
    .expect_err("tokens after the comma should be rejected");
    assert_eq!(err.get(0).kind, DiagKind::UnexpectedToken);
    assert_eq!(err.primary_message(), "unexpected token");
}

#[test]
fn enum_default_rejects_trailing_comma() {
    let variants = vec![VariantInput {
        attrs: vec![],
        name: s("One"),
        fields: FieldList::Unit,
        span: 11,
    }];
    let err = derive_error_impls(TypeInput {
        attrs: vec![list_attr(vec![lit("enum type"), ArgToken::Comma])],
        name: s("EnumType"),
        span: 1,
        generics: vec![],
        where_clause: None,
        body: TypeBody::Enum(variants),
    })
    .expect_err("a default template with a trailing comma should be rejected");
    assert_eq!(err.get(0).kind, DiagKind::UnexpectedToken);
}

#[test]
fn one_untemplated_variant_gets_exactly_one_span() {
    let variants = vec![
        VariantInput {
            attrs: vec![list_attr(vec![lit("variant a")])],
            name: s("A"),
            fields: FieldList::Unit,
            span: 21,
        },
        VariantInput {
            attrs: vec![],
            name: s("B"),
            fields: FieldList::Unit,
            span: 22,
        },
        VariantInput {
            attrs: vec![list_attr(vec![lit("variant c")])],
            name: s("C"),
            fields: FieldList::Unit,
            span: 23,
        },
    ];
    let err = derive_error_impls(TypeInput {
        attrs: vec![],
        name: s("EnumType"),
        span: 1,
        generics: vec![],
        where_clause: None,
        body: TypeBody::Enum(variants),
    })
    .expect_err("a partially templated enum without a default should be rejected");
    assert_eq!(err.len(), 1);
    assert_eq!(err.get(0).kind, DiagKind::IncompleteVariantTemplates);
    assert_eq!(err.get(0).span, 22);
    assert_eq!(
        err.primary_message(),
        "missing `display` attribute for variant in enum with `#[derive(Error)]`\nadd a `display` attribute either to the whole enum (as a default) or to the remaining variants"
    );
}

#[test]
fn struct_reference_becomes_receiver_accessor() {
    let output = derive_error_impls(TypeInput {
        attrs: vec![list_attr(vec![lit("value: {x}")])],
        name: s("Holder"),
        span: 1,
        generics: vec![],
        where_clause: None,
        body: TypeBody::Struct {
            has_never_field: false,
        },
    })
    .expect("struct with one placeholder should derive");
    assert_eq!(
        output,
        "# [allow (single_use_lifetimes)] impl :: core :: fmt :: Display for Holder { fn fmt (& self , f : & mut :: core :: fmt :: Formatter < '_ >) -> :: core :: fmt :: Result { :: core :: write ! (f , \"value: {}\" , & self . x) } } # [allow (single_use_lifetimes)] impl :: core :: error :: Error for Holder { }"
    );
}

#[test]
fn literal_quotes_are_escaped_in_the_output() {
    let output = derive_error_impls(TypeInput {
        attrs: vec![list_attr(vec![lit("a \"quoted\" word")])],
        name: s("Holder"),
        span: 1,
        generics: vec![],
        where_clause: None,
        body: TypeBody::Struct {
            has_never_field: false,
        },
    })
    .expect("struct with a quoted literal should derive");
    assert!(output.contains(":: core :: write ! (f , \"a \\\"quoted\\\" word\" ,)"));
}

#[test]
fn empty_enum_renders_unreachable_body() {
    let output = derive_error_impls(TypeInput {
        attrs: vec![],
        name: s("EmptyEnumType"),
        span: 1,
        generics: vec![],
        where_clause: None,
        body: TypeBody::Enum(vec![]),
    })
    .expect("an empty enum should derive");
    assert!(output.contains("unreachable ! (\"attempted to format an empty type\")"));
}

#[test]
fn named_and_unit_variant_arms_render_exactly() {
    let variants = vec![
        VariantInput {
            attrs: vec![list_attr(vec![lit("x={a}")])],
            name: s("V"),
            fields: FieldList::Named(vec![s("a"), s("b")]),
            span: 11,
        },
        VariantInput {
            attrs: vec![list_attr(vec![lit("u")])],
            name: s("U"),
            fields: FieldList::Unit,
            span: 12,
        },
    ];
    let output = derive_error_impls(TypeInput {
        attrs: vec![],
        name: s("E"),
        span: 1,
        generics: vec![],
        where_clause: None,
        body: TypeBody::Enum(variants),
    })
    .expect("fully templated enum should derive");
    assert_eq!(
        output,
        "# [allow (single_use_lifetimes)] impl :: core :: fmt :: Display for E { fn fmt (& self , f : & mut :: core :: fmt :: Formatter < '_ >) -> :: core :: fmt :: Result { match & self { Self :: V { a , b } => :: core :: write ! (f , \"x={}\" , a) , Self :: U => :: core :: write ! (f , \"u\" ,) } } } # [allow (single_use_lifetimes)] impl :: core :: error :: Error for E { }"
    );
}

#[test]
fn apply_rejects_mismatched_argument_counts() {
    assert_eq!(apply_template("{} and {}", &vec![s("one")]), None);
    assert_eq!(apply_template("no holes", &vec![s("one")]), None);
    assert_eq!(apply_template("open { forever", &vec![s("one")]), None);
    assert_eq!(
        apply_template("{} and {}", &vec![s("one"), s("two")]),
        Some(s("one and two"))
    );
}

#[test]
fn decimal_rendering_is_exact() {
    assert_eq!(decimal_string(0), "0");
    assert_eq!(decimal_string(10), "10");
    assert_eq!(decimal_string(907), "907");
}

#[test]
fn escaping_handles_quotes_and_backslashes() {
    assert_eq!(escape("a\"b\\c"), "a\\\"b\\\\c");
    assert_eq!(escape("line\nbreak"), "line\\nbreak");
}

#[test]
fn collecting_results_combines_every_failure() {
    let results: Vec<Result<u32, Diag>> = vec![
        Ok(1),
        Err(Diag {
            kind: DiagKind::MalformedAttributeForm,
            span: 5,
        }),
        Err(Diag {
            kind: DiagKind::ExpectedStringLiteral,
            span: 6,
        }),
        Ok(2),
        Err(Diag {
            kind: DiagKind::UnexpectedToken,
            span: 7,
        }),
    ];
    let err = collect_combining(results).expect_err("a failing result should fail the fold");
    // Every failure is reported, in order, even after an intervening success.
    assert_eq!(err.len(), 3);
    assert_eq!(err.get(0).span, 5);
    assert_eq!(err.get(1).span, 6);
    assert_eq!(err.get(2).span, 7);

    let all_ok: Vec<Result<u32, Diag>> = vec![Ok(1), Ok(2), Ok(3)];
    assert_eq!(collect_combining(all_ok).expect("all values should fold"), vec![1, 2, 3]);
}

#[test]
fn explicit_arguments_are_collected_after_the_literal() {
    let (literal, args) = parse_literal_and_args(
        &vec![
            lit("fmt {}"),
            ArgToken::Comma,
            ArgToken::Other(s("self . x")),
            ArgToken::Comma,
            lit("quoted"),
            ArgToken::Comma,
        ],
        0,
    )
    .expect("explicit arguments should parse");
    assert_eq!(literal, "fmt {}");
    assert_eq!(args, vec![s("self . x"), s("\"quoted\"")]);
}

#[test]
fn explicit_arguments_reject_doubled_commas() {
    let err = parse_literal_and_args(
        &vec![lit("fmt"), ArgToken::Comma, ArgToken::Comma, ArgToken::Other(s("x"))],
        0,
    )
    .expect_err("doubled commas should be rejected");
    assert_eq!(err.kind, DiagKind::UnexpectedToken);
}

#[test]
fn explicit_arguments_require_the_separating_comma() {
    let err = parse_literal_and_args(&vec![lit("fmt"), ArgToken::Other(s("x"))], 0)
        .expect_err("a missing separator should be rejected");
    assert_eq!(err.kind, DiagKind::UnexpectedTrailingToken);
    assert_eq!(message_text(err.kind), "unexpected token after string literal");
}

#[test]
fn display_attribute_is_consumed_not_reemitted() {
    let plan = analyze(TypeInput {
        attrs: vec![
            Attr {
                name: s("doc"),
                form: AttrForm::Bare,
                rendered: s("doc = \"docs\""),
                span: 3,
            },
            list_attr(vec![lit("custom type")]),
        ],
        name: s("CustomType"),
        span: 1,
        generics: vec![],
        where_clause: None,
        body: TypeBody::Struct {
            has_never_field: false,
        },
    })
    .expect("analysis failed");
    assert_eq!(plan.other_attrs, vec![s("doc = \"docs\"")]);
}
