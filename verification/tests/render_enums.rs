//! Render semantics for enums: a type-level default template covers every
//! variant, and per-variant templates override it.

use display_derive::analyze::analyze;
use display_derive::model::{
    ArgToken, Attr, AttrForm, FieldList, FieldRef, TypeBody, TypeInput, TypeShape, VariantInput,
};
use display_derive::template::apply_template;

fn s(x: &str) -> String {
    x.to_string()
}

fn display_attr(template: &str) -> Attr {
    Attr {
        name: s("display"),
        form: AttrForm::List(vec![ArgToken::StrLit(s(template))]),
        rendered: String::new(),
        span: 7,
    }
}

fn enum_input(name: &str, attrs: Vec<Attr>, variants: Vec<VariantInput>) -> TypeInput {
    TypeInput {
        attrs,
        name: s(name),
        span: 1,
        generics: vec![],
        where_clause: None,
        body: TypeBody::Enum(variants),
    }
}

fn variant(name: &str, attrs: Vec<Attr>, fields: FieldList, span: u64) -> VariantInput {
    VariantInput {
        attrs,
        name: s(name),
        fields,
        span,
    }
}

/// Renders one variant under a tagged shape: its own template if the
/// analysis kept a descriptor for it, else the default literal. The resolved
/// references are looked up in `fields`.
fn render_variant(shape: &TypeShape, vname: &str, fields: &[(&str, String)]) -> String {
    match shape {
        TypeShape::Tagged {
            default_literal,
            variants,
        } => {
            for v in variants {
                if v.name == vname {
                    let mut args: Vec<String> = Vec::new();
                    for r in &v.template.args {
                        let key = match r {
                            FieldRef::Positional(k) => k,
                            FieldRef::Named(k) => k,
                        };
                        let val = fields
                            .iter()
                            .find(|(n, _)| n == key)
                            .unwrap_or_else(|| panic!("unresolved field reference"));
                        args.push(val.1.clone());
                    }
                    return apply_template(v.template.literal.as_str(), &args)
                        .expect("holes and arguments differ");
                }
            }
            default_literal.clone().expect("variant has no template and there is no default")
        }
        _ => panic!("not a tagged shape"),
    }
}

#[test]
fn empty_enum_works_without_display_attr() {
    let plan = analyze(enum_input("EmptyEnumType", vec![], vec![])).expect("analysis failed");
    assert!(matches!(plan.shape, TypeShape::Uninhabited));
}

#[test]
fn empty_enum_works_with_display_attr() {
    let plan = analyze(enum_input(
        "EmptyEnumType",
        vec![display_attr("this display attr is unnecessary")],
        vec![],
    ))
    .expect("analysis failed");
    assert!(matches!(plan.shape, TypeShape::Uninhabited));
}

#[test]
fn enum_works_with_display_attr_default() {
    let variants = vec![
        variant("UnitVariant", vec![], FieldList::Unit, 11),
        variant(
            "NamedFieldVariant",
            vec![],
            FieldList::Named(vec![s("_length"), s("_is_ascii"), s("_inner")]),
            12,
        ),
        variant("TupleVariant", vec![], FieldList::Unnamed(3), 13),
    ];
    let plan = analyze(enum_input("EnumType", vec![display_attr("enum type")], variants))
        .expect("analysis failed");

    assert_eq!(render_variant(&plan.shape, "UnitVariant", &[]), "enum type");
    assert_eq!(
        render_variant(
            &plan.shape,
            "NamedFieldVariant",
            &[
                ("_length", format!("{}", 5)),
                ("_is_ascii", format!("{}", true)),
                ("_inner", format!("{}", "hello")),
            ],
        ),
        "enum type"
    );
    assert_eq!(
        render_variant(
            &plan.shape,
            "TupleVariant",
            &[
                ("0", format!("{}", 5)),
                ("1", format!("{}", 10)),
                ("2", format!("{}", 15)),
            ],
        ),
        "enum type"
    );
}

#[test]
fn enum_works_with_display_attr_default_and_some_variants() {
    let variants = vec![
        variant("UnitVariant", vec![], FieldList::Unit, 11),
        variant(
            "NamedFieldVariant",
            vec![display_attr(
                "named field variant: {inner:?} has {length} characters and is ascii={is_ascii}",
            )],
            FieldList::Named(vec![s("length"), s("is_ascii"), s("inner")]),
            12,
        ),
        variant(
            "TupleVariant",
            vec![display_attr(
                "tuple variant: point {2} units in front of the origin, and with x and y coords ({0}, {1})",
            )],
            FieldList::Unnamed(3),
            13,
        ),
    ];
    let plan = analyze(enum_input("EnumType", vec![display_attr("enum type")], variants))
        .expect("analysis failed");

    assert_eq!(render_variant(&plan.shape, "UnitVariant", &[]), "enum type");
    assert_eq!(
        render_variant(
            &plan.shape,
            "NamedFieldVariant",
            &[
                ("length", format!("{}", 5)),
                ("is_ascii", format!("{}", true)),
                ("inner", format!("{:?}", "hello")),
            ],
        ),
        "named field variant: \"hello\" has 5 characters and is ascii=true"
    );
    assert_eq!(
        render_variant(
            &plan.shape,
            "TupleVariant",
            &[
                ("0", format!("{}", 5)),
                ("1", format!("{}", 10)),
                ("2", format!("{}", 15)),
            ],
        ),
        "tuple variant: point 15 units in front of the origin, and with x and y coords (5, 10)"
    );
}

#[test]
fn enum_works_with_display_attr_default_and_all_variants() {
    let variants = vec![
        variant("UnitVariant", vec![display_attr("unit variant")], FieldList::Unit, 11),
        variant(
            "NamedFieldVariant",
            vec![display_attr(
                "named field variant: {inner:?} has {length} characters and is ascii={is_ascii}",
            )],
            FieldList::Named(vec![s("length"), s("is_ascii"), s("inner")]),
            12,
        ),
        variant(
            "TupleVariant",
            vec![display_attr(
                "tuple variant: point {2} units in front of the origin, and with x and y coords ({0}, {1})",
            )],
            FieldList::Unnamed(3),
            13,
        ),
    ];
    let plan = analyze(enum_input("EnumType", vec![display_attr("enum type")], variants))
        .expect("analysis failed");

    assert_eq!(render_variant(&plan.shape, "UnitVariant", &[]), "unit variant");
    assert_eq!(
        render_variant(
            &plan.shape,
            "NamedFieldVariant",
            &[
                ("length", format!("{}", 5)),
                ("is_ascii", format!("{}", true)),
                ("inner", format!("{:?}", "hello")),
            ],
        ),
        "named field variant: \"hello\" has 5 characters and is ascii=true"
    );
    assert_eq!(
        render_variant(
            &plan.shape,
            "TupleVariant",
            &[
                ("0", format!("{}", 5)),
                ("1", format!("{}", 10)),
                ("2", format!("{}", 15)),
            ],
        ),
        "tuple variant: point 15 units in front of the origin, and with x and y coords (5, 10)"
    );
}

#[test]
fn enum_works_with_display_attr_all_variants() {
    let variants = vec![
        variant("UnitVariant", vec![display_attr("unit variant")], FieldList::Unit, 11),
        variant(
            "NamedFieldVariant",
            vec![display_attr(
                "named field variant: {inner:?} has {length} characters and is ascii={is_ascii}",
            )],
            FieldList::Named(vec![s("length"), s("is_ascii"), s("inner")]),
            12,
        ),
        variant(
            "TupleVariant",
            vec![display_attr(
                "tuple variant: point {2} units in front of the origin, and with x and y coords ({0}, {1})",
            )],
            FieldList::Unnamed(3),
            13,
        ),
    ];
    let plan = analyze(enum_input("EnumType", vec![], variants)).expect("analysis failed");

    assert_eq!(render_variant(&plan.shape, "UnitVariant", &[]), "unit variant");
    assert_eq!(
        render_variant(
            &plan.shape,
            "NamedFieldVariant",
            &[
                ("length", format!("{}", 5)),
                ("is_ascii", format!("{}", true)),
                ("inner", format!("{:?}", "hello")),
            ],
        ),
        "named field variant: \"hello\" has 5 characters and is ascii=true"
    );
    assert_eq!(
        render_variant(
            &plan.shape,
            "TupleVariant",
            &[
                ("0", format!("{}", 5)),
                ("1", format!("{}", 10)),
                ("2", format!("{}", 15)),
            ],
        ),
        "tuple variant: point 15 units in front of the origin, and with x and y coords (5, 10)"
    );
}
