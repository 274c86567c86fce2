//! Render semantics for individual enum variants: named references bind the
//! declared field names, positional references bind synthesized tuple names.

use display_derive::analyze::analyze;
use display_derive::model::{
    ArgToken, Attr, AttrForm, FieldList, FieldRef, TypeBody, TypeInput, TypeShape, VariantInput,
};
use display_derive::template::apply_template;

fn s(x: &str) -> String {
    x.to_string()
}

fn display_attr(template: &str) -> Attr {
    Attr {
        name: s("display"),
        form: AttrForm::List(vec![ArgToken::StrLit(s(template))]),
        rendered: String::new(),
        span: 7,
    }
}

fn single_variant_enum(vname: &str, template: &str, fields: FieldList) -> TypeInput {
    TypeInput {
        attrs: vec![],
        name: s("EnumType"),
        span: 1,
        generics: vec![],
        where_clause: None,
        body: TypeBody::Enum(vec![VariantInput {
            attrs: vec![display_attr(template)],
            name: s(vname),
            fields,
            span: 11,
        }]),
    }
}

fn render_sole_variant(input: TypeInput, fields: &[(&str, String)]) -> String {
    let plan = analyze(input).expect("analysis failed");
    match plan.shape {
        TypeShape::Tagged { variants, .. } => {
            let v = &variants[0];
            let mut args: Vec<String> = Vec::new();
            for r in &v.template.args {
                let key = match r {
                    FieldRef::Positional(k) => k,
                    FieldRef::Named(k) => k,
                };
                let val = fields
                    .iter()
                    .find(|(n, _)| n == key)
                    .unwrap_or_else(|| panic!("unresolved field reference"));
                args.push(val.1.clone());
            }
            apply_template(v.template.literal.as_str(), &args).expect("holes and arguments differ")
        }
        _ => panic!("not a tagged shape"),
    }
}

#[test]
fn unit_variant_works() {
    let out = render_sole_variant(
        single_variant_enum("UnitVariant", "unit variant", FieldList::Unit),
        &[],
    );
    assert_eq!(out, "unit variant");
}

#[test]
fn named_field_variant_works_without_interpolation() {
    let out = render_sole_variant(
        single_variant_enum(
            "NamedFieldVariant",
            "named field variant",
            FieldList::Named(vec![s("_length"), s("_is_ascii"), s("_inner")]),
        ),
        &[
            ("_length", format!("{}", 5)),
            ("_is_ascii", format!("{}", true)),
            ("_inner", format!("{}", "hello")),
        ],
    );
    assert_eq!(out, "named field variant");
}

#[test]
fn named_field_variant_works_with_interpolation_of_some_fields() {
    let out = render_sole_variant(
        single_variant_enum(
            "NamedFieldVariant",
            "named field variant: {inner:?} has {length} characters",
            FieldList::Named(vec![s("length"), s("_is_ascii"), s("inner")]),
        ),
        &[
            ("length", format!("{}", 5)),
            ("_is_ascii", format!("{}", true)),
            ("inner", format!("{:?}", "hello")),
        ],
    );
    assert_eq!(out, "named field variant: \"hello\" has 5 characters");
}

#[test]
fn named_field_variant_works_with_interpolation_of_all_fields() {
    let out = render_sole_variant(
        single_variant_enum(
            "NamedFieldVariant",
            "named field variant: {inner:?} has {length} characters and is ascii={is_ascii}",
            FieldList::Named(vec![s("length"), s("is_ascii"), s("inner")]),
        ),
        &[
            ("length", format!("{}", 5)),
            ("is_ascii", format!("{}", true)),
            ("inner", format!("{:?}", "hello")),
        ],
    );
    assert_eq!(
        out,
        "named field variant: \"hello\" has 5 characters and is ascii=true"
    );
}

#[test]
fn tuple_variant_works_without_interpolation() {
    let out = render_sole_variant(
        single_variant_enum("TupleVariant", "tuple variant", FieldList::Unnamed(3)),
        &[
            ("0", format!("{}", 5)),
            ("1", format!("{}", 10)),
            ("2", format!("{}", 15)),
        ],
    );
    assert_eq!(out, "tuple variant");
}

#[test]
fn tuple_variant_works_with_interpolation_of_some_fields() {
    let out = render_sole_variant(
        single_variant_enum(
            "TupleVariant",
            "tuple variant: point with y value {1}",
            FieldList::Unnamed(3),
        ),
        &[
            ("0", format!("{}", 5)),
            ("1", format!("{}", 10)),
            ("2", format!("{}", 15)),
        ],
    );
    assert_eq!(out, "tuple variant: point with y value 10");
}

#[test]
fn tuple_variant_works_with_interpolation_of_all_fields() {
    let out = render_sole_variant(
        single_variant_enum(
            "TupleVariant",
            "tuple variant: point {2} units in front of the origin, and with x and y coords ({0}, {1})",
            FieldList::Unnamed(3),
        ),
        &[
            ("0", format!("{}", 5)),
            ("1", format!("{}", 10)),
            ("2", format!("{}", 15)),
        ],
    );
    assert_eq!(
        out,
        "tuple variant: point 15 units in front of the origin, and with x and y coords (5, 10)"
    );
}
